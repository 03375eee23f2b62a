//! What can have the keyboard or be under the pointer.
use vstd::prelude::*;

verus! {

/// A window with its surface.
#[derive(Clone, Copy, Debug, PartialEq, Eq, Structural)]
pub struct WindowTarget {
    pub window: u64,
    pub surface: u64,
}

/// What can have the keyboard.
#[derive(Clone, Copy, Debug, PartialEq, Eq, Structural)]
pub enum KeyboardFocusTarget {
    Window(WindowTarget),
    LayerSurface(u64),
    LockSurface(u64),
    Popup(u64),
}

/// What can be under the pointer.
#[derive(Clone, Copy, Debug, PartialEq, Eq, Structural)]
pub enum PointerFocusTarget {
    WlSurface(u64),
    Window(WindowTarget),
}

impl KeyboardFocusTarget {
    /// The surface that gets the keys.
    pub open spec fn spec_surface(self) -> u64 {
        match self {
            KeyboardFocusTarget::Window(window) => window.surface,
            KeyboardFocusTarget::LayerSurface(surface) => surface,
            KeyboardFocusTarget::LockSurface(surface) => surface,
            KeyboardFocusTarget::Popup(surface) => surface,
        }
    }

    /// The surface that gets the keys.
    pub fn wl_surface(&self) -> (surface: u64)
        ensures
            surface == self.spec_surface(),
    {
        match self {
            KeyboardFocusTarget::Window(window) => window.surface,
            KeyboardFocusTarget::LayerSurface(surface) => *surface,
            KeyboardFocusTarget::LockSurface(surface) => *surface,
            KeyboardFocusTarget::Popup(surface) => *surface,
        }
    }
}

impl PointerFocusTarget {
    /// The surface that gets the events of the pointer.
    pub open spec fn spec_surface(self) -> u64 {
        match self {
            PointerFocusTarget::WlSurface(surface) => surface,
            PointerFocusTarget::Window(window) => window.surface,
        }
    }

    /// The surface that gets the events of the pointer.
    pub fn wl_surface(&self) -> (surface: u64)
        ensures
            surface == self.spec_surface(),
    {
        match self {
            PointerFocusTarget::WlSurface(surface) => *surface,
            PointerFocusTarget::Window(window) => window.surface,
        }
    }
}

impl From<KeyboardFocusTarget> for PointerFocusTarget {
    fn from(value: KeyboardFocusTarget) -> (target: PointerFocusTarget) {
        match value {
            KeyboardFocusTarget::Window(window) => PointerFocusTarget::Window(window),
            KeyboardFocusTarget::LayerSurface(surface) => PointerFocusTarget::WlSurface(surface),
            KeyboardFocusTarget::LockSurface(surface) => PointerFocusTarget::WlSurface(surface),
            KeyboardFocusTarget::Popup(surface) => PointerFocusTarget::WlSurface(surface),
        }
    }
}

impl vstd::std_specs::convert::FromSpecImpl<KeyboardFocusTarget> for PointerFocusTarget {
    open spec fn obeys_from_spec() -> bool {
        true
    }

    open spec fn from_spec(value: KeyboardFocusTarget) -> PointerFocusTarget {
        match value {
            KeyboardFocusTarget::Window(window) => PointerFocusTarget::Window(window),
            _ => PointerFocusTarget::WlSurface(value.spec_surface()),
        }
    }
}

/// What has the keyboard has the same surface when it is under the pointer.
pub proof fn targets_keep_their_surface(target: KeyboardFocusTarget)
    ensures
        <PointerFocusTarget as vstd::std_specs::convert::FromSpec<KeyboardFocusTarget>>::from_spec(
            target,
        ).spec_surface() == target.spec_surface(),
{
}

/// The surface of a window gets the keys and the events of the pointer that are for the window; any
/// other surface gets its own.
pub proof fn targets_are_their_surface(
    keyboard: &KeyboardFocusTarget,
    pointer: &PointerFocusTarget,
    keys: u64,
    events: u64,
)
    requires
        call_ensures(KeyboardFocusTarget::wl_surface, (keyboard,), keys),
        call_ensures(PointerFocusTarget::wl_surface, (pointer,), events),
    ensures
        match *keyboard {
            KeyboardFocusTarget::Window(window) => keys == window.surface,
            KeyboardFocusTarget::LayerSurface(surface) => keys == surface,
            KeyboardFocusTarget::LockSurface(surface) => keys == surface,
            KeyboardFocusTarget::Popup(surface) => keys == surface,
        },
        match *pointer {
            PointerFocusTarget::Window(window) => events == window.surface,
            PointerFocusTarget::WlSurface(surface) => events == surface,
        },
{
}

/// A window that has the keyboard is still that window when it is under the pointer.
pub proof fn windows_stay_windows(target: KeyboardFocusTarget)
    ensures
        ({
            let under = <PointerFocusTarget as vstd::std_specs::convert::FromSpec<
                KeyboardFocusTarget,
            >>::from_spec(target);
            match target {
                KeyboardFocusTarget::Window(window) => under == PointerFocusTarget::Window(window),
                KeyboardFocusTarget::LayerSurface(surface) => under
                    == PointerFocusTarget::WlSurface(surface),
                KeyboardFocusTarget::LockSurface(surface) => under
                    == PointerFocusTarget::WlSurface(surface),
                KeyboardFocusTarget::Popup(surface) => under == PointerFocusTarget::WlSurface(
                    surface,
                ),
            }
        }),
{
}

} // verus!
