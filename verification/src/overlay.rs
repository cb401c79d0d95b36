//! Decisions of the overlay window: which monitor to open on, which cursor to
//! show, and how far the arrow keys move the selection.
use vstd::prelude::*;
use crate::selection::{fits_i32, in_i32};

verus! {

/// The area a monitor covers on the virtual desktop.
#[derive(Debug, Clone, Copy, PartialEq, Eq, Structural)]
pub struct MonitorArea {
    pub x: i32,
    pub y: i32,
    pub width: u32,
    pub height: u32,
}

/// Whether the monitor's area, edges included, holds `point`.
pub open spec fn monitor_holds(m: MonitorArea, point: (i32, i32)) -> bool {
    &&& m.x <= point.0
    &&& m.x + (m.width as i32) >= point.0
    &&& m.y <= point.1
    &&& m.y + (m.height as i32) >= point.1
}

/// Whether testing `monitor_holds(m, point)` from left to right, stopping at
/// the first false part, adds without overflow.
pub open spec fn monitor_test_fits(m: MonitorArea, point: (i32, i32)) -> bool {
    &&& m.x <= point.0 ==> fits_i32(m.x + (m.width as i32))
    &&& (m.x <= point.0 && m.x + (m.width as i32) >= point.0 && m.y <= point.1) ==> fits_i32(
        m.y + (m.height as i32),
    )
}

/// The first monitor that holds `point`, if any.
pub fn find_monitor_at(monitors: &Vec<MonitorArea>, point: (i32, i32)) -> (r: Option<usize>)
    requires
        forall|i: int|
            0 <= i < monitors@.len() && (forall|j: int|
                0 <= j < i ==> !monitor_holds(#[trigger] monitors@[j], point)) ==> monitor_test_fits(
                #[trigger] monitors@[i],
                point,
            ),
    ensures
        r matches Some(i) ==> i < monitors@.len() && monitor_holds(monitors@[i as int], point)
            && forall|j: int| 0 <= j < i ==> !monitor_holds(#[trigger] monitors@[j], point),
        r is None ==> forall|j: int|
            0 <= j < monitors@.len() ==> !monitor_holds(#[trigger] monitors@[j], point),
{
    let mut i: usize = 0;
    while i < monitors.len()
        invariant
            i <= monitors@.len(),
            forall|j: int| 0 <= j < i ==> !monitor_holds(#[trigger] monitors@[j], point),
            forall|k: int|
                0 <= k < monitors@.len() && (forall|j: int|
                    0 <= j < k ==> !monitor_holds(#[trigger] monitors@[j], point))
                    ==> monitor_test_fits(#[trigger] monitors@[k], point),
        decreases monitors@.len() - i,
    {
        let m = monitors[i];
        assert(monitor_test_fits(monitors@[i as int], point));
        if m.x <= point.0 && m.x + m.width as i32 >= point.0 && m.y <= point.1 && m.y
            + m.height as i32 >= point.1 {
            return Some(i);
        }
        i = i + 1;
    }
    None
}

/// Whether `find_monitor_at(monitors, point)` can test the monitors without
/// overflow.
pub fn monitors_ok(monitors: &Vec<MonitorArea>, point: (i32, i32)) -> (r: bool)
    ensures
        r == (forall|i: int|
            0 <= i < monitors@.len() && (forall|j: int|
                0 <= j < i ==> !monitor_holds(#[trigger] monitors@[j], point)) ==> monitor_test_fits(
                #[trigger] monitors@[i],
                point,
            )),
{
    let mut i: usize = 0;
    while i < monitors.len()
        invariant
            i <= monitors@.len(),
            forall|j: int| 0 <= j < i ==> !monitor_holds(#[trigger] monitors@[j], point),
            forall|k: int|
                0 <= k < i && (forall|j: int|
                    0 <= j < k ==> !monitor_holds(#[trigger] monitors@[j], point))
                    ==> monitor_test_fits(#[trigger] monitors@[k], point),
        decreases monitors@.len() - i,
    {
        let m = monitors[i];
        let x_end = m.x as i64 + (m.width as i32) as i64;
        let y_end = m.y as i64 + (m.height as i32) as i64;
        if m.x <= point.0 && !in_i32(x_end) {
            return false;
        }
        if m.x <= point.0 && x_end >= point.0 as i64 && m.y <= point.1 && !in_i32(y_end) {
            return false;
        }
        if m.x <= point.0 && x_end >= point.0 as i64 && m.y <= point.1 && y_end >= point.1 as i64 {
            assert(monitor_holds(monitors@[i as int], point));
            return true;
        }
        i = i + 1;
    }
    true
}

/// The mouse cursor shown over the overlay.
#[derive(Debug, Clone, Copy, PartialEq, Eq, Structural)]
pub enum CursorKind {
    /// Moving the selection with the button down.
    Grabbing,
    /// Ready to move the selection.
    Grab,
    /// Drawing a selection.
    Crosshair,
    /// Nothing going on.
    Arrow,
}

/// Shift moves the selection instead of drawing one.
pub fn cursor_for(shift_held: bool, mouse_down: bool) -> (c: CursorKind)
    ensures
        c == (if shift_held && mouse_down {
            CursorKind::Grabbing
        } else if shift_held {
            CursorKind::Grab
        } else if mouse_down {
            CursorKind::Crosshair
        } else {
            CursorKind::Arrow
        }),
{
    match (shift_held, mouse_down) {
        (true, true) => CursorKind::Grabbing,
        (true, false) => CursorKind::Grab,
        (false, true) => CursorKind::Crosshair,
        (false, false) => CursorKind::Arrow,
    }
}

/// How many pixels an arrow key moves the selection: 10, a tenth of that with
/// Shift held, five times that with Control held.
pub fn move_distance(shift_held: bool, ctrl_held: bool) -> (d: i32)
    ensures
        d == (if shift_held {
            1int
        } else if ctrl_held {
            50int
        } else {
            10int
        }),
{
    let mut move_dist: i32 = 10;
    if shift_held {
        move_dist = move_dist / 10;
    } else if ctrl_held {
        move_dist = move_dist * 5;
    }
    move_dist
}

} // verus!
