use onscreen_ocr::preview::{get_preview_text_placement, HorizontalAlign, PreviewTextPlacement};
use onscreen_ocr::selection::Bounds;

#[test]
fn fading_out_keeps_last_placement() {
    let last = PreviewTextPlacement { x: 1, y: 2, horizontal_align: HorizontalAlign::Left, max_line_length: 3 };
    assert_eq!(
        get_preview_text_placement(Some(last), true, (1000, 800), Bounds::new(0, 0, 0, 0), 1, 1),
        Some(last)
    );
}

#[test]
fn empty_selection_has_no_placement() {
    assert_eq!(get_preview_text_placement(None, false, (1000, 800), Bounds::new(5, 5, 0, 10), 1, 1), None);
}

#[test]
fn text_goes_left_of_selection_when_more_room_there() {
    let r = get_preview_text_placement(None, false, (1000, 800), Bounds::new(500, 300, 100, 50), 2, 10);
    assert_eq!(r, Some(PreviewTextPlacement { x: 490, y: 300, horizontal_align: HorizontalAlign::Right, max_line_length: 480 }));
}

#[test]
fn long_lines_go_to_left_screen_edge() {
    let r = get_preview_text_placement(None, false, (1000, 800), Bounds::new(500, 300, 100, 50), 4, 60);
    assert_eq!(r, Some(PreviewTextPlacement { x: 10, y: 300, horizontal_align: HorizontalAlign::Left, max_line_length: 480 }));
}

#[test]
fn text_goes_right_of_selection_when_more_room_there() {
    let r = get_preview_text_placement(None, false, (1000, 800), Bounds::new(200, 5, 100, 50), 1, 10);
    assert_eq!(r, Some(PreviewTextPlacement { x: 310, y: 26, horizontal_align: HorizontalAlign::Left, max_line_length: 690 }));
}

#[test]
fn cramped_sides_use_screen_edges() {
    let left = get_preview_text_placement(None, false, (200, 800), Bounds::new(90, 700, 20, 50), 10, 10);
    assert_eq!(left, Some(PreviewTextPlacement { x: 10, y: 628, horizontal_align: HorizontalAlign::Left, max_line_length: 180 }));
    let right = get_preview_text_placement(None, false, (200, 800), Bounds::new(50, 100, 80, 50), 1, 10);
    assert_eq!(right, Some(PreviewTextPlacement { x: 190, y: 100, horizontal_align: HorizontalAlign::Right, max_line_length: 180 }));
}
