//! Display geometry, and the choice of the display that a single-shot capture takes.
use vstd::prelude::*;

verus! {

/// Where a display lies, in physical pixels over the whole desktop.
#[derive(Debug, Clone, Copy, PartialEq, Eq, Structural)]
pub struct MonitorGeometry {
    pub x: i32,
    pub y: i32,
    pub width: u32,
    pub height: u32,
    pub is_primary: bool,
}

/// Whether the point lies on the display: its left and top edges included, its
/// right and bottom edges excluded.
pub open spec fn contains_point(m: MonitorGeometry, x: int, y: int) -> bool {
    &&& m.x <= x < m.x + m.width
    &&& m.y <= y < m.y + m.height
}

/// `i` is the first display, in enumeration order, that holds the point.
pub open spec fn first_containing(ms: Seq<MonitorGeometry>, x: int, y: int, i: int) -> bool {
    &&& 0 <= i < ms.len()
    &&& contains_point(ms[i], x, y)
    &&& forall|j: int| 0 <= j < i ==> !contains_point(#[trigger] ms[j], x, y)
}

/// `i` is the first primary display in enumeration order.
pub open spec fn first_primary(ms: Seq<MonitorGeometry>, i: int) -> bool {
    &&& 0 <= i < ms.len()
    &&& ms[i].is_primary
    &&& forall|j: int| 0 <= j < i ==> !(#[trigger] ms[j]).is_primary
}

/// The index of the first display that holds the point, if any does.
pub fn find_monitor_at_position(monitors: &Vec<MonitorGeometry>, x: i32, y: i32) -> (r: Option<
    usize,
>)
    ensures
        r matches Some(i) ==> first_containing(monitors@, x as int, y as int, i as int),
        r is None ==> forall|j: int|
            0 <= j < monitors@.len() ==> !contains_point(#[trigger] monitors@[j], x as int, y as int),
{
    let mut idx: usize = 0;
    while idx < monitors.len()
        invariant
            idx <= monitors@.len(),
            forall|j: int| 0 <= j < idx ==> !contains_point(#[trigger] monitors@[j], x as int, y as int),
        decreases monitors@.len() - idx,
    {
        let m = monitors[idx];
        let right: i64 = m.x as i64 + m.width as i64;
        let bottom: i64 = m.y as i64 + m.height as i64;
        if x >= m.x && (x as i64) < right && y >= m.y && (y as i64) < bottom {
            return Some(idx);
        }
        idx += 1;
    }
    None
}

/// The index of the first primary display, if there is one.
pub fn primary_monitor_index(monitors: &Vec<MonitorGeometry>) -> (r: Option<usize>)
    ensures
        r matches Some(i) ==> first_primary(monitors@, i as int),
        r is None ==> forall|j: int| 0 <= j < monitors@.len() ==> !(#[trigger] monitors@[j]).is_primary,
{
    let mut idx: usize = 0;
    while idx < monitors.len()
        invariant
            idx <= monitors@.len(),
            forall|j: int| 0 <= j < idx ==> !(#[trigger] monitors@[j]).is_primary,
        decreases monitors@.len() - idx,
    {
        if monitors[idx].is_primary {
            return Some(idx);
        }
        idx += 1;
    }
    None
}

/// The display that a single-shot capture takes: the first one under the pointer
/// when its position is known, else the first primary one; display 0 when neither
/// gives an answer. `None` when no display was found.
pub fn select_capture_target(monitors: &Vec<MonitorGeometry>, pointer: Option<(i32, i32)>) -> (res:
    Option<usize>)
    ensures
        res is None <==> monitors@.len() == 0,
        pointer matches Some(p) ==> (res matches Some(r) ==> {
            ||| first_containing(monitors@, p.0 as int, p.1 as int, r as int)
            ||| (r == 0 && forall|j: int|
                0 <= j < monitors@.len() ==> !contains_point(
                    #[trigger] monitors@[j],
                    p.0 as int,
                    p.1 as int,
                ))
        }),
        pointer is None ==> (res matches Some(r) ==> {
            ||| first_primary(monitors@, r as int)
            ||| (r == 0 && forall|j: int|
                0 <= j < monitors@.len() ==> !(#[trigger] monitors@[j]).is_primary)
        }),
{
    if monitors.len() == 0 {
        return None;
    }
    let found = match pointer {
        Some((x, y)) => find_monitor_at_position(monitors, x, y),
        None => primary_monitor_index(monitors),
    };
    match found {
        Some(i) => Some(i),
        None => Some(0),
    }
}

} // verus!
