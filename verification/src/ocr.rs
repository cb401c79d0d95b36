//! The decisions around running OCR: which part of the screenshot to read, how
//! a result updates the preview, and when a throttled request is due.
use vstd::prelude::*;
use crate::selection::{Bounds, fits_i32, in_i32, positive_fits, positive_size_ok, spec_positive};

verus! {

/// Selections narrower or lower than this many pixels are not read.
pub const MIN_OCR_SIZE: i32 = 5;

/// The region of a `screen`-sized screenshot that is read for `bounds`:
/// nothing for a selection smaller than `MIN_OCR_SIZE` on either axis,
/// otherwise the selection made positive and cut off at the right and bottom
/// edges of the screenshot.
pub open spec fn spec_ocr_region(bounds: Bounds, screen: (u32, u32)) -> Option<Bounds> {
    let p = spec_positive(bounds);
    let sw = (screen.0 as i32) as int;
    let sh = (screen.1 as i32) as int;
    if p.width < MIN_OCR_SIZE || p.height < MIN_OCR_SIZE {
        None
    } else {
        Some(
            Bounds {
                x: p.x,
                y: p.y,
                width: if p.x + p.width > sw {
                    (sw - p.x) as i32
                } else {
                    p.width
                },
                height: if p.y + p.height > sh {
                    (sh - p.y) as i32
                } else {
                    p.height
                },
            },
        )
    }
}

/// Whether `spec_ocr_region(bounds, screen)` can be computed without overflow.
pub open spec fn ocr_region_fits(bounds: Bounds, screen: (u32, u32)) -> bool {
    let p = spec_positive(bounds);
    &&& positive_fits(bounds)
    &&& fits_i32(p.x + p.width)
    &&& fits_i32(p.y + p.height)
    &&& fits_i32((screen.0 as i32) - p.x)
    &&& fits_i32((screen.1 as i32) - p.y)
}

/// Whether `ocr_region(bounds, screen)` can be computed without overflow.
pub fn ocr_region_ok(bounds: Bounds, screen: (u32, u32)) -> (r: bool)
    ensures
        r == ocr_region_fits(bounds, screen),
{
    if !positive_size_ok(bounds) {
        return false;
    }
    let p = bounds.to_positive_size();
    in_i32(p.x as i64 + p.width as i64) && in_i32(p.y as i64 + p.height as i64) && in_i32(
        (screen.0 as i32) as i64 - p.x as i64,
    ) && in_i32((screen.1 as i32) as i64 - p.y as i64)
}

/// The part of the screenshot that OCR (or a cropped screenshot) reads for a
/// selection, or `None` when the selection is too small.
pub fn ocr_region(bounds: Bounds, screen: (u32, u32)) -> (r: Option<Bounds>)
    requires
        ocr_region_fits(bounds, screen),
    ensures
        r == spec_ocr_region(bounds, screen),
{
    let mut pos_bounds = bounds.to_positive_size();
    if pos_bounds.width < MIN_OCR_SIZE || pos_bounds.height < MIN_OCR_SIZE {
        return None;
    }
    let screen_w: i32 = screen.0 as i32;
    let screen_h: i32 = screen.1 as i32;
    if pos_bounds.x + pos_bounds.width > screen_w {
        pos_bounds.width = screen_w - pos_bounds.x;
    }
    if pos_bounds.y + pos_bounds.height > screen_h {
        pos_bounds.height = screen_h - pos_bounds.y;
    }
    Some(pos_bounds)
}

/// A region read from a selection that lies on the screenshot lies on it too,
/// and is at least `MIN_OCR_SIZE` pixels high and wide where the selection
/// does not reach past the edges.
pub proof fn law_ocr_region_on_screen(bounds: Bounds, screen: (u32, u32))
    requires
        ocr_region_fits(bounds, screen),
        screen.0 <= i32::MAX,
        screen.1 <= i32::MAX,
        spec_positive(bounds).x >= 0,
        spec_positive(bounds).y >= 0,
        spec_ocr_region(bounds, screen) is Some,
    ensures
        ({
            let r = spec_ocr_region(bounds, screen).unwrap();
            &&& r.x + r.width <= screen.0
            &&& r.y + r.height <= screen.1
            &&& r.x == spec_positive(bounds).x
            &&& r.y == spec_positive(bounds).y
            &&& r.width <= spec_positive(bounds).width
            &&& r.height <= spec_positive(bounds).height
            &&& r.x + MIN_OCR_SIZE <= screen.0 ==> r.width >= MIN_OCR_SIZE
            &&& r.y + MIN_OCR_SIZE <= screen.1 ==> r.height >= MIN_OCR_SIZE
        }),
{
}

/// The preview text after an OCR result arrives: an empty result clears it,
/// any other result replaces it, and no result leaves it alone.
pub open spec fn spec_preview_after(preview: Option<String>, result: Option<String>) -> Option<
    String,
> {
    match result {
        Some(text) => if text@.len() == 0 {
            None
        } else {
            Some(text)
        },
        None => preview,
    }
}

/// Applies the latest OCR result (if one arrived) to the preview text, and
/// tells whether there is new text to show.
pub fn update_ocr_preview_text(preview: &mut Option<String>, result: Option<String>) -> (changed:
    bool)
    ensures
        *final(preview) == spec_preview_after(*old(preview), result),
        changed == (result matches Some(text) && text@.len() != 0),
{
    if let Some(text) = result {
        if text.as_str().is_empty() {
            *preview = None;
            return false;
        } else {
            *preview = Some(text);
            return true;
        }
    }
    false
}

#[verifier::external_type_specification]
#[verifier::external_body]
pub struct ExInstant(std::time::Instant);

/// The current time (`Instant::now`).
#[verifier::external_body]
fn instant_now() -> std::time::Instant {
    std::time::Instant::now()
}

/// The time passed since `t` (`Instant::elapsed`).
#[verifier::external_body]
fn instant_elapsed(t: &std::time::Instant) -> std::time::Duration {
    t.elapsed()
}

/// A duration in nanoseconds (`Duration::as_nanos`).
#[verifier::external_body]
fn duration_as_nanos(d: &std::time::Duration) -> u128 {
    d.as_nanos()
}

/// What a throttled consumer should do next.
pub enum State<T> {
    /// Nothing was put since the last value was handed out.
    Empty,
    /// The last value is too recent; wait this many nanoseconds.
    Delay(u128),
    /// This value is due.
    Ready(T),
}

/// One step of the throttle: what is due after `elapsed` nanoseconds when
/// `last` waits with the given `delay`, and what waits afterwards.
pub open spec fn throttle_step<T>(delay: u128, last: Option<T>, elapsed: u128) -> (
    State<T>,
    Option<T>,
) {
    if elapsed < delay {
        (State::Delay((delay - elapsed) as u128), last)
    } else {
        match last {
            None => (State::Empty, None),
            Some(v) => (State::Ready(v), None),
        }
    }
}

/// A value is handed out at most once: after it is handed out, no later step
/// hands anything out until a new value is put; and a value is never handed
/// out before its delay has passed.
pub proof fn law_throttle_hands_out_once<T>(delay: u128, last: Option<T>, e1: u128, e2: u128)
    ensures
        throttle_step(delay, last, e1).0 is Ready ==> !(throttle_step(
            delay,
            throttle_step(delay, last, e1).1,
            e2,
        ).0 is Ready),
        e1 < delay ==> !(throttle_step(delay, last, e1).0 is Ready) && throttle_step(
            delay,
            last,
            e1,
        ).1 == last,
{
}

/// Holds the latest value put, and hands it out once no newer value has
/// arrived for a while.
pub struct OCRThrottlerState<T> {
    delay: u128,
    last_value: Option<T>,
    last_time: std::time::Instant,
}

impl<T> OCRThrottlerState<T> {
    /// How long, in nanoseconds, a value must stay the latest before it is due.
    pub closed spec fn delay(&self) -> u128 {
        self.delay
    }

    /// The value waiting to be handed out, if any.
    pub closed spec fn last_value(&self) -> Option<T> {
        self.last_value
    }

    /// The moment the last value was put.
    pub closed spec fn last_time(&self) -> std::time::Instant {
        self.last_time
    }

    /// A throttle that waits `delay_nanos` nanoseconds after each put, with
    /// nothing put yet.
    pub fn new(delay_nanos: u128) -> (s: Self)
        ensures
            s.delay() == delay_nanos,
            s.last_value() == None::<T>,
    {
        Self { delay: delay_nanos, last_value: None, last_time: instant_now() }
    }

    /// What is due when `elapsed` nanoseconds have passed since the last put.
    pub fn state_after(&mut self, elapsed: u128) -> (r: State<T>)
        ensures
            final(self).delay() == old(self).delay(),
            final(self).last_time() == old(self).last_time(),
            (r, final(self).last_value()) == throttle_step(
                old(self).delay(),
                old(self).last_value(),
                elapsed,
            ),
    {
        if elapsed < self.delay {
            State::Delay(self.delay - elapsed)
        } else {
            match self.last_value.take() {
                None => State::Empty,
                Some(v) => State::Ready(v),
            }
        }
    }

    /// What is due now: a wait while the last value is recent, then the value
    /// itself (once), then nothing.
    pub fn get_state(&mut self) -> (r: State<T>)
        ensures
            final(self).delay() == old(self).delay(),
            final(self).last_time() == old(self).last_time(),
            r matches State::Delay(d) ==> 0 < d <= old(self).delay() && final(self).last_value()
                == old(self).last_value(),
            r matches State::Empty ==> old(self).last_value() is None && final(self).last_value()
                == None::<T>,
            r matches State::Ready(v) ==> old(self).last_value() == Some(v)
                && final(self).last_value() == None::<T>,
    {
        let elapsed = instant_elapsed(&self.last_time);
        let nanos = duration_as_nanos(&elapsed);
        self.state_after(nanos)
    }

    /// Makes `value` the latest value and restarts the wait.
    pub fn put(&mut self, value: T)
        ensures
            final(self).last_value() == Some(value),
            final(self).delay() == old(self).delay(),
    {
        self.last_value = Some(value);
        self.last_time = instant_now();
    }
}

} // verus!
