//! Clients that hold the pointer.
use vstd::prelude::*;

use crate::input::pointer::Constraint;
use crate::state::Fht;

verus! {

impl Fht {
    /// Whether the constraint of the surface under the pointer becomes active: it does if it is
    /// not yet and the pointer is in its region, where it has one.
    pub fn activate_pointer_constraint(&self, constraint: Option<Constraint>) -> (activate: bool)
        ensures
            activate == (constraint matches Some(c) && !c.active && c.inside != Some(false)),
    {
        match constraint {
            Some(c) => {
                let outside = match c.inside {
                    Some(inside) => !inside,
                    None => false,
                };
                !c.active && !outside
            },
            None => false,
        }
    }
}

/// The window that a client may move the pointer over: only while it holds the pointer, only if
/// the pointer is over the surface that asks for it, and only if that is the surface of a window.
pub fn cursor_position_hint(
    active: bool,
    focused: Option<u64>,
    surface: u64,
    window: Option<u64>,
) -> (r: Option<u64>)
    ensures
        r == if active && focused == Some(surface) {
            window
        } else {
            None
        },
{
    if !active {
        return None;
    }
    match focused {
        Some(focused) => if focused == surface {
            window
        } else {
            None
        },
        None => None,
    }
}

/// The constraint of the surface under the pointer becomes active once, as soon as the pointer is
/// inside of its region, or at once if it has none.
pub proof fn constraints_become_active_inside(
    fht: &Fht,
    constraint: Option<Constraint>,
    activate: bool,
)
    requires
        call_ensures(Fht::activate_pointer_constraint, (fht, constraint), activate),
    ensures
        constraint is None ==> !activate,
        constraint matches Some(c) ==> {
            &&& c.active ==> !activate
            &&& c.inside == Some(false) ==> !activate
            &&& !c.active && c.inside is None ==> activate
            &&& !c.active && c.inside == Some(true) ==> activate
        },
{
}

/// A client may move the pointer over its window only while it holds the pointer there.
pub proof fn only_holders_move_the_pointer(
    active: bool,
    focused: Option<u64>,
    surface: u64,
    window: Option<u64>,
    moved: Option<u64>,
)
    requires
        call_ensures(cursor_position_hint, (active, focused, surface, window), moved),
    ensures
        !active || focused is None ==> moved is None,
        focused matches Some(other) ==> (other != surface ==> moved is None),
        active && focused == Some(surface) ==> moved == window,
{
}

} // verus!
