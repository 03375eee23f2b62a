//! Dialogs.
use vstd::prelude::*;

use crate::geometry::{fits, Point, Size};

verus! {

/// Half of a length, rounded away from zero.
pub open spec fn half_rounded(x: int) -> int {
    if x >= 0 {
        (x + 1) / 2
    } else {
        -((1 - x) / 2)
    }
}

fn half(x: i32) -> (r: i32)
    ensures
        r == half_rounded(x as int),
{
    if x >= 0 {
        ((x as i64 + 1) / 2) as i32
    } else {
        (-((1 - x as i64) / 2)) as i32
    }
}

/// Where a tile of the given size is centered at a point.
pub open spec fn centered_at(center: Point, size: Size) -> Point {
    Point {
        x: (center.x - half_rounded(size.w as int)) as i32,
        y: (center.y - half_rounded(size.h as int)) as i32,
    }
}

/// Where a window goes that says whether it is modal.
///
/// A window that becomes modal floats, picks its size, and is centered at `center`, the center of
/// its output; `size` is that of its tile. Nothing happens to a window that is not shown, or that
/// is not modal.
pub fn modal_changed(mapped: bool, modal: bool, center: Point, size: Size) -> (location: Option<
    Point,
>)
    requires
        mapped && modal ==> fits(center.x - half_rounded(size.w as int)) && fits(
            center.y - half_rounded(size.h as int),
        ),
    ensures
        location == if mapped && modal {
            Some(centered_at(center, size))
        } else {
            None
        },
{
    if !mapped || !modal {
        return None;
    }
    Some(Point { x: center.x - half(size.w), y: center.y - half(size.h) })
}

/// A modal window that is shown is centered: as much of it is to the left of the center as to the
/// right, and as much above as below, up to a pixel. Any other window stays where it is.
pub proof fn modal_windows_are_centered(
    mapped: bool,
    modal: bool,
    center: Point,
    size: Size,
    location: Option<Point>,
)
    requires
        mapped && modal ==> fits(center.x - half_rounded(size.w as int)) && fits(
            center.y - half_rounded(size.h as int),
        ),
        call_ensures(modal_changed, (mapped, modal, center, size), location),
    ensures
        !mapped || !modal ==> location is None,
        mapped && modal ==> location is Some && {
            let left = center.x - location->0.x;
            let right = location->0.x + size.w - center.x;
            let above = center.y - location->0.y;
            let below = location->0.y + size.h - center.y;
            &&& size.w >= 0 ==> right <= left <= right + 1
            &&& size.h >= 0 ==> below <= above <= below + 1
        },
{
    assert(call_requires(modal_changed, (mapped, modal, center, size)));
}

} // verus!
