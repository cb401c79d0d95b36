//! Integer rectangles that describe the user's selection on screen.
use vstd::prelude::*;

verus! {

/// Whether a mathematical integer can be stored in an `i32`.
pub open spec fn fits_i32(v: int) -> bool {
    i32::MIN <= v <= i32::MAX
}

/// Rust's `/ 2` on a signed integer: the quotient rounded toward zero.
pub open spec fn half_toward_zero(v: int) -> int {
    if v >= 0 {
        v / 2
    } else {
        -((-v) / 2)
    }
}

/// A number that can be turned into an `i32` coordinate.
pub trait BoundsNumber: Copy {
    /// The coordinate that `lossy_into` produces for this number.
    spec fn lossy_value(self) -> i32;

    fn lossy_into(self) -> (r: i32)
        ensures
            r == self.lossy_value(),
    ;
}

impl BoundsNumber for i32 {
    open spec fn lossy_value(self) -> i32 {
        self
    }

    fn lossy_into(self) -> (r: i32) {
        self
    }
}

/// A rectangle given by its origin and a size; the size may be negative while
/// a selection is being dragged up or to the left.
#[derive(Debug, Clone, Copy, PartialEq, Eq, Structural)]
pub struct Bounds {
    pub x: i32,
    pub y: i32,
    pub width: i32,
    pub height: i32,
}

impl Default for Bounds {
    fn default() -> (b: Self)
        ensures
            b == (Bounds { x: 0, y: 0, width: 0, height: 0 }),
    {
        Bounds { x: 0, y: 0, width: 0, height: 0 }
    }
}

/// The bounds of size `w` by `h` centred on `(cx, cy)`.
pub open spec fn spec_from_center(cx: i32, cy: i32, w: i32, h: i32) -> Bounds {
    Bounds {
        x: (cx - half_toward_zero(w as int)) as i32,
        y: (cy - half_toward_zero(h as int)) as i32,
        width: w,
        height: h,
    }
}

/// Whether `spec_from_center(cx, cy, w, h)` can be computed without overflow.
pub open spec fn from_center_fits(cx: i32, cy: i32, w: i32, h: i32) -> bool {
    &&& fits_i32(cx - half_toward_zero(w as int))
    &&& fits_i32(cy - half_toward_zero(h as int))
}

/// One axis of `to_positive_size`: the start and the (non-negative) length of
/// the interval between `pos` and `pos + len`.
pub open spec fn positive_axis(pos: int, len: int) -> (int, int) {
    if len < 0 {
        (pos + len, -len)
    } else {
        (pos, len)
    }
}

/// Whether one axis of `to_positive_size` can be computed without overflow.
pub open spec fn positive_axis_fits(pos: int, len: int) -> bool {
    len < 0 ==> fits_i32(pos + len) && fits_i32(-len)
}

/// `b` with its origin moved so that width and height are non-negative.
pub open spec fn spec_positive(b: Bounds) -> Bounds {
    Bounds {
        x: positive_axis(b.x as int, b.width as int).0 as i32,
        y: positive_axis(b.y as int, b.height as int).0 as i32,
        width: positive_axis(b.x as int, b.width as int).1 as i32,
        height: positive_axis(b.y as int, b.height as int).1 as i32,
    }
}

/// Whether `spec_positive(b)` can be computed without overflow.
pub open spec fn positive_fits(b: Bounds) -> bool {
    &&& positive_axis_fits(b.x as int, b.width as int)
    &&& positive_axis_fits(b.y as int, b.height as int)
}

/// One axis of `clamp_to_screen`: the interval is made positive, pushed back
/// onto `[0, screen]` (the far edge wins when it does not fit), and given its
/// original orientation again.
pub open spec fn clamp_axis(pos: int, len: int, screen: int) -> (int, int) {
    let (p, l) = positive_axis(pos, len);
    let p1 = if p < 0 { 0 } else { p };
    let p2 = if p1 + l > screen { screen - l } else { p1 };
    if len < 0 {
        (p2 + l, -l)
    } else {
        (p2, l)
    }
}

/// Whether one axis of `clamp_to_screen` can be computed without overflow.
pub open spec fn clamp_axis_fits(pos: int, len: int, screen: int) -> bool {
    let (p, l) = positive_axis(pos, len);
    let p1 = if p < 0 { 0 } else { p };
    let p2 = if p1 + l > screen { screen - l } else { p1 };
    &&& positive_axis_fits(pos, len)
    &&& fits_i32(p1 + l)
    &&& (p1 + l > screen ==> fits_i32(screen - l))
    &&& (len < 0 ==> fits_i32(p2 + l))
}

/// The bounds after `clamp_to_screen(screen)`.
pub open spec fn spec_clamp(b: Bounds, screen: (u32, u32)) -> Bounds {
    Bounds {
        x: clamp_axis(b.x as int, b.width as int, (screen.0 as i32) as int).0 as i32,
        y: clamp_axis(b.y as int, b.height as int, (screen.1 as i32) as int).0 as i32,
        width: clamp_axis(b.x as int, b.width as int, (screen.0 as i32) as int).1 as i32,
        height: clamp_axis(b.y as int, b.height as int, (screen.1 as i32) as int).1 as i32,
    }
}

/// Whether `spec_clamp(b, screen)` can be computed without overflow.
pub open spec fn clamp_fits(b: Bounds, screen: (u32, u32)) -> bool {
    &&& clamp_axis_fits(b.x as int, b.width as int, (screen.0 as i32) as int)
    &&& clamp_axis_fits(b.y as int, b.height as int, (screen.1 as i32) as int)
}

/// Whether the closed rectangle from `(x, y)` to `(x + width, y + height)`
/// holds `point`.
pub open spec fn spec_contains(b: Bounds, point: (i32, i32)) -> bool {
    &&& b.x <= point.0 <= b.x + b.width
    &&& b.y <= point.1 <= b.y + b.height
}

/// `to_positive_size` gives a non-negative size, covers the same interval on
/// each axis, and changes nothing when applied a second time.
pub proof fn law_positive_size(b: Bounds)
    requires
        positive_fits(b),
    ensures
        spec_positive(b).width >= 0,
        spec_positive(b).height >= 0,
        spec_positive(b).x == if b.width < 0 { b.x + b.width } else { b.x as int },
        spec_positive(b).x + spec_positive(b).width == if b.width < 0 {
            b.x as int
        } else {
            b.x + b.width
        },
        spec_positive(b).y == if b.height < 0 { b.y + b.height } else { b.y as int },
        spec_positive(b).y + spec_positive(b).height == if b.height < 0 {
            b.y as int
        } else {
            b.y + b.height
        },
        positive_fits(spec_positive(b)),
        spec_positive(spec_positive(b)) == spec_positive(b),
{
}

/// Clamping keeps the size of the selection, and when the selection is no
/// larger than the screen it ends up wholly on the screen.
pub proof fn law_clamp_on_screen(b: Bounds, screen: (u32, u32))
    requires
        clamp_fits(b, screen),
        screen.0 <= i32::MAX,
        screen.1 <= i32::MAX,
        -(screen.0 as int) <= b.width <= screen.0,
        -(screen.1 as int) <= b.height <= screen.1,
    ensures
        spec_clamp(b, screen).width == b.width,
        spec_clamp(b, screen).height == b.height,
        positive_fits(spec_clamp(b, screen)),
        0 <= spec_positive(spec_clamp(b, screen)).x,
        spec_positive(spec_clamp(b, screen)).x + spec_positive(spec_clamp(b, screen)).width
            <= screen.0,
        0 <= spec_positive(spec_clamp(b, screen)).y,
        spec_positive(spec_clamp(b, screen)).y + spec_positive(spec_clamp(b, screen)).height
            <= screen.1,
{
}

/// The start of the clamped interval on one axis: the start in
/// `[0, screen - length]` nearest to `start`.
pub open spec fn nearest_start(start: int, length: int, screen: int) -> int {
    if start < 0 {
        0
    } else if start > screen - length {
        screen - length
    } else {
        start
    }
}

/// Clamping moves the selection as little as possible: on each axis the
/// covered interval keeps its length and its start becomes the start in
/// `[0, screen - length]` nearest to the old one, so a selection hanging over
/// the far edge ends exactly at it, whichever way it was drawn; and the
/// orientation (the signs of width and height) is kept.
pub proof fn law_clamp_moves_least(b: Bounds, screen: (u32, u32))
    requires
        clamp_fits(b, screen),
        screen.0 <= i32::MAX,
        screen.1 <= i32::MAX,
        -(screen.0 as int) <= b.width <= screen.0,
        -(screen.1 as int) <= b.height <= screen.1,
    ensures
        ({
            let p = spec_positive(b);
            let c = spec_clamp(b, screen);
            let q = spec_positive(c);
            &&& c.width == b.width
            &&& c.height == b.height
            &&& q.width == p.width
            &&& q.height == p.height
            &&& q.x == nearest_start(p.x as int, p.width as int, screen.0 as int)
            &&& q.y == nearest_start(p.y as int, p.height as int, screen.1 as int)
        }),
{
}

/// Clamping a selection that fits on the screen a second time changes nothing.
pub proof fn law_clamp_idempotent(b: Bounds, screen: (u32, u32))
    requires
        clamp_fits(b, screen),
        screen.0 <= i32::MAX,
        screen.1 <= i32::MAX,
        -(screen.0 as int) <= b.width <= screen.0,
        -(screen.1 as int) <= b.height <= screen.1,
    ensures
        clamp_fits(spec_clamp(b, screen), screen),
        spec_clamp(spec_clamp(b, screen), screen) == spec_clamp(b, screen),
{
}

/// Bounds with a non-negative size that are centred on a point contain it.
pub proof fn law_center_is_contained(cx: i32, cy: i32, w: i32, h: i32)
    requires
        from_center_fits(cx, cy, w, h),
        w >= 0,
        h >= 0,
    ensures
        spec_contains(spec_from_center(cx, cy, w, h), (cx, cy)),
{
}

impl Bounds {
    pub fn new<X: BoundsNumber, Y: BoundsNumber, W: BoundsNumber, H: BoundsNumber>(
        x: X,
        y: Y,
        width: W,
        height: H,
    ) -> (b: Self)
        ensures
            b == (Bounds {
                x: x.lossy_value(),
                y: y.lossy_value(),
                width: width.lossy_value(),
                height: height.lossy_value(),
            }),
    {
        Self {
            x: x.lossy_into(),
            y: y.lossy_into(),
            width: width.lossy_into(),
            height: height.lossy_into(),
        }
    }

    pub fn from_center<X: BoundsNumber, Y: BoundsNumber, W: BoundsNumber, H: BoundsNumber>(
        x: X,
        y: Y,
        width: W,
        height: H,
    ) -> (b: Self)
        requires
            from_center_fits(
                x.lossy_value(),
                y.lossy_value(),
                width.lossy_value(),
                height.lossy_value(),
            ),
        ensures
            b == spec_from_center(
                x.lossy_value(),
                y.lossy_value(),
                width.lossy_value(),
                height.lossy_value(),
            ),
    {
        let x = x.lossy_into();
        let y = y.lossy_into();
        let width = width.lossy_into();
        let height = height.lossy_into();
        Self { x: x - width / 2, y: y - height / 2, width, height }
    }

    pub fn set_center<X: BoundsNumber, Y: BoundsNumber>(&mut self, x: X, y: Y)
        requires
            from_center_fits(x.lossy_value(), y.lossy_value(), old(self).width, old(self).height),
        ensures
            *final(self) == spec_from_center(
                x.lossy_value(),
                y.lossy_value(),
                old(self).width,
                old(self).height,
            ),
    {
        let x = x.lossy_into();
        let y = y.lossy_into();
        self.x = x - self.width / 2;
        self.y = y - self.height / 2;
    }

    pub fn set_origin<X: BoundsNumber, Y: BoundsNumber>(&mut self, x: X, y: Y)
        ensures
            *final(self) == (Bounds {
                x: x.lossy_value(),
                y: y.lossy_value(),
                width: old(self).width,
                height: old(self).height,
            }),
    {
        self.x = x.lossy_into();
        self.y = y.lossy_into();
    }

    pub fn set_size<W: BoundsNumber, H: BoundsNumber>(&mut self, width: W, height: H)
        ensures
            *final(self) == (Bounds {
                x: old(self).x,
                y: old(self).y,
                width: width.lossy_value(),
                height: height.lossy_value(),
            }),
    {
        self.width = width.lossy_into();
        self.height = height.lossy_into();
    }

    pub fn to_positive_size(&self) -> (r: Bounds)
        requires
            positive_fits(*self),
        ensures
            r == spec_positive(*self),
    {
        let (mut x, mut y, mut width, mut height) = (self.x, self.y, self.width, self.height);
        if width < 0 {
            x += width;
            width = -width;
        }
        if height < 0 {
            y += height;
            height = -height;
        }
        Bounds { x, y, width, height }
    }

    pub fn clamp_to_screen(&mut self, screen_size: (u32, u32))
        requires
            clamp_fits(*old(self), screen_size),
        ensures
            *final(self) == spec_clamp(*old(self), screen_size),
    {
        let was_neg_x = self.width < 0;
        let was_neg_y = self.height < 0;
        let pos_self = self.to_positive_size();
        let (mut x, mut y, mut width, mut height) = (
            pos_self.x,
            pos_self.y,
            pos_self.width,
            pos_self.height,
        );
        let screen_w: i32 = screen_size.0 as i32;
        let screen_h: i32 = screen_size.1 as i32;

        if x < 0 {
            x = 0;
        }
        if y < 0 {
            y = 0;
        }
        if x + width > screen_w {
            x = screen_w - width;
        }
        if y + height > screen_h {
            y = screen_h - height;
        }

        if was_neg_x {
            x += width;
            width = -width;
        }
        if was_neg_y {
            y += height;
            height = -height;
        }

        self.x = x;
        self.y = y;
        self.width = width;
        self.height = height;
    }

    pub fn contains(&self, point: (i32, i32)) -> (r: bool)
        requires
            fits_i32(self.x + self.width),
            fits_i32(self.y + self.height),
        ensures
            r == spec_contains(*self, point),
    {
        let (x, y) = point;
        x >= self.x && x <= self.x + self.width && y >= self.y && y <= self.y + self.height
    }
}

/// Whether `v` lies in the range of `i32`.
pub(crate) fn in_i32(v: i64) -> (r: bool)
    ensures
        r == fits_i32(v as int),
{
    -2147483648i64 <= v && v <= 2147483647i64
}

fn positive_axis_ok(pos: i32, len: i32) -> (r: bool)
    ensures
        r == positive_axis_fits(pos as int, len as int),
{
    len >= 0 || (in_i32(pos as i64 + len as i64) && in_i32(-(len as i64)))
}

/// Whether `to_positive_size` can be applied to `b` without overflow.
pub fn positive_size_ok(b: Bounds) -> (r: bool)
    ensures
        r == positive_fits(b),
{
    positive_axis_ok(b.x, b.width) && positive_axis_ok(b.y, b.height)
}

fn clamp_axis_ok(pos: i32, len: i32, screen: i32) -> (r: bool)
    ensures
        r == clamp_axis_fits(pos as int, len as int, screen as int),
{
    if !positive_axis_ok(pos, len) {
        return false;
    }
    let pos = pos as i64;
    let len = len as i64;
    let screen = screen as i64;
    let (p, l) = if len < 0 {
        (pos + len, -len)
    } else {
        (pos, len)
    };
    let p1 = if p < 0 {
        0
    } else {
        p
    };
    let p2 = if p1 + l > screen {
        screen - l
    } else {
        p1
    };
    in_i32(p1 + l) && (p1 + l <= screen || in_i32(screen - l)) && (len >= 0 || in_i32(p2 + l))
}

/// Whether `clamp_to_screen(screen)` can be applied to `b` without overflow.
pub fn clamp_ok(b: Bounds, screen: (u32, u32)) -> (r: bool)
    ensures
        r == clamp_fits(b, screen),
{
    clamp_axis_ok(b.x, b.width, screen.0 as i32) && clamp_axis_ok(b.y, b.height, screen.1 as i32)
}

/// Whether `contains` can be asked of `b` without overflow.
pub fn contains_ok(b: Bounds) -> (r: bool)
    ensures
        r == (fits_i32(b.x + b.width) && fits_i32(b.y + b.height)),
{
    in_i32(b.x as i64 + b.width as i64) && in_i32(b.y as i64 + b.height as i64)
}

/// Whether bounds of size `w` by `h` can be centred on `(cx, cy)` without
/// overflow.
pub fn from_center_ok(cx: i32, cy: i32, w: i32, h: i32) -> (r: bool)
    ensures
        r == from_center_fits(cx, cy, w, h),
{
    in_i32(cx as i64 - (w / 2) as i64) && in_i32(cy as i64 - (h / 2) as i64)
}

} // verus!
