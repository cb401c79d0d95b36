//! Where the OCR preview text is placed next to the selection.
//!
//! Positions and lengths are whole pixels; the renderer turns them into the
//! floating-point screen coordinates it draws with.
use vstd::prelude::*;
use crate::selection::{Bounds, fits_i32, in_i32, positive_fits, positive_size_ok, spec_positive};

verus! {

/// The horizontal alignment of the preview text relative to its anchor.
#[derive(Debug, Clone, Copy, PartialEq, Eq, Structural)]
pub enum HorizontalAlign {
    Left,
    Center,
    Right,
}

/// The anchor point, alignment and line width of the preview text.
#[derive(Debug, Clone, Copy, PartialEq, Eq, Structural)]
pub struct PreviewTextPlacement {
    pub x: i64,
    pub y: i64,
    pub horizontal_align: HorizontalAlign,
    pub max_line_length: i64,
}

/// The space kept between the text and the selection or the screen edge.
pub const PREVIEW_MARGIN: i32 = 10;

/// Below this much free space beside the selection, the text goes to the far
/// screen edge instead.
pub const MINIMUM_SIDE_SPACE: i32 = 100;

/// The height of one preview line.
pub const PREVIEW_LINE_HEIGHT: i32 = 18;

/// The top of the preview text: level with the selection, but kept on the
/// screen for the given number of lines.
pub open spec fn preview_y(b: Bounds, window_h: u32, text_lines: i32) -> int {
    let lowest = (window_h as i32) - ((text_lines - 1) * PREVIEW_LINE_HEIGHT + PREVIEW_MARGIN);
    let top = if b.y < lowest { b.y as int } else { lowest };
    if PREVIEW_MARGIN + 16 > top { (PREVIEW_MARGIN + 16) as int } else { top }
}

/// The placement of the preview text for a selection (see
/// `get_preview_text_placement`).
pub open spec fn spec_placement(
    last_placement: Option<PreviewTextPlacement>,
    is_fading_out: bool,
    window_size: (u32, u32),
    bounds: Bounds,
    text_lines: i32,
    max_line_characters: i32,
) -> Option<PreviewTextPlacement> {
    let b = spec_positive(bounds);
    let left_side_space = b.x as int;
    let right_side_space = (window_size.0 as i32) - (b.x + b.width);
    let y = preview_y(b, window_size.1, text_lines) as i64;
    let window_w = window_size.0 as int;
    if is_fading_out {
        last_placement
    } else if b.width == 0 || b.height == 0 {
        None
    } else if left_side_space >= right_side_space {
        if left_side_space < MINIMUM_SIDE_SPACE {
            Some(
                PreviewTextPlacement {
                    x: PREVIEW_MARGIN as i64,
                    y,
                    horizontal_align: HorizontalAlign::Left,
                    max_line_length: (window_w - 2 * PREVIEW_MARGIN) as i64,
                },
            )
        } else if text_lines > 3 && max_line_characters * 10 > b.x - 2 * PREVIEW_MARGIN {
            Some(
                PreviewTextPlacement {
                    x: PREVIEW_MARGIN as i64,
                    y,
                    horizontal_align: HorizontalAlign::Left,
                    max_line_length: (b.x - 2 * PREVIEW_MARGIN) as i64,
                },
            )
        } else {
            Some(
                PreviewTextPlacement {
                    x: (b.x - PREVIEW_MARGIN) as i64,
                    y,
                    horizontal_align: HorizontalAlign::Right,
                    max_line_length: (b.x - 2 * PREVIEW_MARGIN) as i64,
                },
            )
        }
    } else if right_side_space < MINIMUM_SIDE_SPACE {
        Some(
            PreviewTextPlacement {
                x: (window_w - PREVIEW_MARGIN) as i64,
                y,
                horizontal_align: HorizontalAlign::Right,
                max_line_length: (window_w - 2 * PREVIEW_MARGIN) as i64,
            },
        )
    } else {
        Some(
            PreviewTextPlacement {
                x: (b.x + b.width + PREVIEW_MARGIN) as i64,
                y,
                horizontal_align: HorizontalAlign::Left,
                max_line_length: (window_w - (b.x + b.width + PREVIEW_MARGIN)) as i64,
            },
        )
    }
}

/// Whether the placement can be computed without overflowing the 32-bit
/// arithmetic it is done in.
pub open spec fn placement_fits(
    is_fading_out: bool,
    window_size: (u32, u32),
    bounds: Bounds,
    text_lines: i32,
) -> bool {
    let b = spec_positive(bounds);
    let right_side_space = (window_size.0 as i32) - (b.x + b.width);
    !is_fading_out ==> {
        &&& positive_fits(bounds)
        &&& (b.width != 0 && b.height != 0) ==> {
            &&& fits_i32(b.x + b.width)
            &&& fits_i32(right_side_space)
            &&& fits_i32((text_lines - 1) * PREVIEW_LINE_HEIGHT)
            &&& fits_i32((text_lines - 1) * PREVIEW_LINE_HEIGHT + PREVIEW_MARGIN)
            &&& fits_i32(
                (window_size.1 as i32) - ((text_lines - 1) * PREVIEW_LINE_HEIGHT + PREVIEW_MARGIN),
            )
            &&& fits_i32(text_lines - 1)
            &&& (b.x >= right_side_space && b.x >= MINIMUM_SIDE_SPACE) ==> fits_i32(
                b.x - PREVIEW_MARGIN,
            )
            &&& (b.x < right_side_space && right_side_space >= MINIMUM_SIDE_SPACE) ==> fits_i32(
                b.x + b.width + PREVIEW_MARGIN,
            )
        }
    }
}

/// Whether `get_preview_text_placement` can be computed without overflow.
pub fn placement_ok(
    is_fading_out: bool,
    window_size: (u32, u32),
    bounds: Bounds,
    text_lines: i32,
) -> (r: bool)
    ensures
        r == placement_fits(is_fading_out, window_size, bounds, text_lines),
{
    if is_fading_out {
        return true;
    }
    if !positive_size_ok(bounds) {
        return false;
    }
    let b = bounds.to_positive_size();
    if b.width == 0 || b.height == 0 {
        return true;
    }
    let x = b.x as i64;
    let w = b.width as i64;
    let right = (window_size.0 as i32) as i64 - (x + w);
    let lines = text_lines as i64 - 1;
    let line_h = PREVIEW_LINE_HEIGHT as i64;
    let margin = PREVIEW_MARGIN as i64;
    let side = MINIMUM_SIDE_SPACE as i64;
    in_i32(x + w) && in_i32(right) && in_i32(lines * line_h) && in_i32(lines * line_h + margin)
        && in_i32((window_size.1 as i32) as i64 - (lines * line_h + margin)) && in_i32(lines) && (!(
    x >= right && x >= side) || in_i32(x - margin)) && (!(x < right && right >= side) || in_i32(
        x + w + margin,
    ))
}

/// Where to put the OCR preview text: while it fades out it stays where it
/// was; otherwise it goes on the side of the selection with more room, or at
/// the screen edge when neither side has room enough.
pub fn get_preview_text_placement(
    last_placement: Option<PreviewTextPlacement>,
    is_fading_out: bool,
    window_size: (u32, u32),
    bounds: Bounds,
    text_lines: i32,
    max_line_characters: i32,
) -> (r: Option<PreviewTextPlacement>)
    requires
        placement_fits(is_fading_out, window_size, bounds, text_lines),
    ensures
        r == spec_placement(
            last_placement,
            is_fading_out,
            window_size,
            bounds,
            text_lines,
            max_line_characters,
        ),
{
    if is_fading_out {
        return last_placement;
    }
    let bounds = bounds.to_positive_size();
    if bounds.width == 0 || bounds.height == 0 {
        return None;
    }

    let left_side_space = bounds.x;
    let right_side_space = window_size.0 as i32 - (bounds.x + bounds.width);

    let margin = PREVIEW_MARGIN;
    let lowest = window_size.1 as i32 - ((text_lines - 1) * PREVIEW_LINE_HEIGHT + margin);
    let top = if bounds.y < lowest {
        bounds.y
    } else {
        lowest
    };
    let y: i32 = if margin + 16 > top {
        margin + 16
    } else {
        top
    };
    let window_w = window_size.0 as i64;

    if left_side_space >= right_side_space {
        if left_side_space < MINIMUM_SIDE_SPACE {
            return Some(
                PreviewTextPlacement {
                    x: margin as i64,
                    y: y as i64,
                    horizontal_align: HorizontalAlign::Left,
                    max_line_length: window_w - 2 * margin as i64,
                },
            );
        }
        let max_line_length = bounds.x as i64 - 2 * margin as i64;
        if text_lines > 3 && max_line_characters as i64 * 10 > max_line_length {
            return Some(
                PreviewTextPlacement {
                    x: margin as i64,
                    y: y as i64,
                    horizontal_align: HorizontalAlign::Left,
                    max_line_length,
                },
            );
        }
        Some(
            PreviewTextPlacement {
                x: (bounds.x - margin) as i64,
                y: y as i64,
                horizontal_align: HorizontalAlign::Right,
                max_line_length,
            },
        )
    } else {
        if right_side_space < MINIMUM_SIDE_SPACE {
            return Some(
                PreviewTextPlacement {
                    x: window_w - margin as i64,
                    y: y as i64,
                    horizontal_align: HorizontalAlign::Right,
                    max_line_length: window_w - 2 * margin as i64,
                },
            );
        }
        let max_line_length = window_w - (bounds.x as i64 + bounds.width as i64 + margin as i64);
        Some(
            PreviewTextPlacement {
                x: (bounds.x + bounds.width + margin) as i64,
                y: y as i64,
                horizontal_align: HorizontalAlign::Left,
                max_line_length,
            },
        )
    }
}

/// The preview never starts above the top margin, and a right-aligned
/// preview beside the selection ends a margin's width before it while a
/// left-aligned one beside it starts a margin's width after it.
pub proof fn law_preview_beside_selection(
    window_size: (u32, u32),
    bounds: Bounds,
    text_lines: i32,
    max_line_characters: i32,
)
    requires
        placement_fits(false, window_size, bounds, text_lines),
        spec_positive(bounds).width != 0,
        spec_positive(bounds).height != 0,
    ensures
        ({
            let r = spec_placement(
                None,
                false,
                window_size,
                bounds,
                text_lines,
                max_line_characters,
            ).unwrap();
            let b = spec_positive(bounds);
            &&& r.y >= PREVIEW_MARGIN + 16
            &&& (r.horizontal_align == HorizontalAlign::Right && r.x != window_size.0
                - PREVIEW_MARGIN) ==> r.x + PREVIEW_MARGIN == b.x
            &&& (r.horizontal_align == HorizontalAlign::Left && r.x != PREVIEW_MARGIN) ==> r.x
                == b.x + b.width + PREVIEW_MARGIN
        }),
{
}

} // verus!
