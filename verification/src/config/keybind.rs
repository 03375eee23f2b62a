//! What keys and buttons are bound to.
use vstd::prelude::*;

verus! {

/// A fraction that the library hands on without looking at it, by the bits of its floating point
/// representation.
#[derive(Clone, Copy, Debug, PartialEq, Eq, Structural)]
pub struct Fraction {
    pub bits: u64,
}

/// An action without parameters.
#[derive(Clone, Copy, Debug, PartialEq, Eq, Structural)]
pub enum SimpleKeyAction {
    Quit,
    ReloadConfig,
    SelectNextLayout,
    SelectPreviousLayout,
    MaximizeFocusedWindow,
    FullscreenFocusedWindow,
    FloatFocusedWindow,
    FocusNextWindow,
    FocusPreviousWindow,
    SwapWithNextWindow,
    SwapWithPreviousWindow,
    FocusNextOutput,
    FocusPreviousOutput,
    CloseFocusedWindow,
    FocusNextWorkspace,
    FocusPreviousWorkspace,
    /// The key combination does nothing.
    Disabled,
}

/// An action that may have parameters.
#[derive(Debug)]
pub enum ComplexKeyAction {
    Quit,
    ReloadConfig,
    RunCommand(String),
    SelectNextLayout,
    SelectPreviousLayout,
    ChangeMwfact(Fraction),
    ChangeNmaster(i32),
    ChangeWindowProportion(Fraction),
    MaximizeFocusedWindow,
    FullscreenFocusedWindow,
    FloatFocusedWindow,
    MoveFloatingWindow([i32; 2]),
    ResizeFloatingWindow([i32; 2]),
    FocusNextWindow,
    FocusPreviousWindow,
    SwapWithNextWindow,
    SwapWithPreviousWindow,
    FocusNextOutput,
    FocusPreviousOutput,
    CloseFocusedWindow,
    FocusWorkspace(usize),
    SendToWorkspace(usize),
    FocusNextWorkspace,
    FocusPreviousWorkspace,
    /// The key combination does nothing.
    Disabled,
}

/// How the configuration describes what a key combination does.
#[derive(Debug)]
pub enum KeyActionDesc {
    Simple(SimpleKeyAction),
    Complex { action: ComplexKeyAction, allow_while_locked: bool },
}

impl Clone for ComplexKeyAction {
    fn clone(&self) -> (action: ComplexKeyAction)
        ensures
            action == *self,
    {
        match self {
            ComplexKeyAction::Quit => ComplexKeyAction::Quit,
            ComplexKeyAction::ReloadConfig => ComplexKeyAction::ReloadConfig,
            ComplexKeyAction::RunCommand(cmd) => ComplexKeyAction::RunCommand(cmd.clone()),
            ComplexKeyAction::SelectNextLayout => ComplexKeyAction::SelectNextLayout,
            ComplexKeyAction::SelectPreviousLayout => ComplexKeyAction::SelectPreviousLayout,
            ComplexKeyAction::ChangeMwfact(delta) => ComplexKeyAction::ChangeMwfact(*delta),
            ComplexKeyAction::ChangeNmaster(delta) => ComplexKeyAction::ChangeNmaster(*delta),
            ComplexKeyAction::ChangeWindowProportion(delta) =>
                ComplexKeyAction::ChangeWindowProportion(*delta),
            ComplexKeyAction::MaximizeFocusedWindow => ComplexKeyAction::MaximizeFocusedWindow,
            ComplexKeyAction::FullscreenFocusedWindow => ComplexKeyAction::FullscreenFocusedWindow,
            ComplexKeyAction::FloatFocusedWindow => ComplexKeyAction::FloatFocusedWindow,
            ComplexKeyAction::MoveFloatingWindow(change) => ComplexKeyAction::MoveFloatingWindow(
                *change,
            ),
            ComplexKeyAction::ResizeFloatingWindow(change) =>
                ComplexKeyAction::ResizeFloatingWindow(*change),
            ComplexKeyAction::FocusNextWindow => ComplexKeyAction::FocusNextWindow,
            ComplexKeyAction::FocusPreviousWindow => ComplexKeyAction::FocusPreviousWindow,
            ComplexKeyAction::SwapWithNextWindow => ComplexKeyAction::SwapWithNextWindow,
            ComplexKeyAction::SwapWithPreviousWindow => ComplexKeyAction::SwapWithPreviousWindow,
            ComplexKeyAction::FocusNextOutput => ComplexKeyAction::FocusNextOutput,
            ComplexKeyAction::FocusPreviousOutput => ComplexKeyAction::FocusPreviousOutput,
            ComplexKeyAction::CloseFocusedWindow => ComplexKeyAction::CloseFocusedWindow,
            ComplexKeyAction::FocusWorkspace(idx) => ComplexKeyAction::FocusWorkspace(*idx),
            ComplexKeyAction::SendToWorkspace(idx) => ComplexKeyAction::SendToWorkspace(*idx),
            ComplexKeyAction::FocusNextWorkspace => ComplexKeyAction::FocusNextWorkspace,
            ComplexKeyAction::FocusPreviousWorkspace => ComplexKeyAction::FocusPreviousWorkspace,
            ComplexKeyAction::Disabled => ComplexKeyAction::Disabled,
        }
    }
}

impl Clone for KeyActionDesc {
    fn clone(&self) -> (desc: KeyActionDesc)
        ensures
            desc == *self,
    {
        match self {
            KeyActionDesc::Simple(action) => KeyActionDesc::Simple(*action),
            KeyActionDesc::Complex { action, allow_while_locked } => KeyActionDesc::Complex {
                action: action.clone(),
                allow_while_locked: *allow_while_locked,
            },
        }
    }
}

/// A key together with the modifiers that are held down.
#[derive(Clone, Copy, Debug, PartialEq, Eq, Structural)]
pub struct KeyPattern {
    /// The set of modifiers, one bit for each.
    pub modifiers: u32,
    /// The symbol of the key, zero for none.
    pub keysym: u32,
}

impl Default for KeyPattern {
    fn default() -> (pattern: KeyPattern)
        ensures
            pattern == (KeyPattern { modifiers: 0, keysym: 0 }),
    {
        KeyPattern { modifiers: 0, keysym: 0 }
    }
}

/// What a mouse button does.
#[derive(Clone, Copy, Debug, PartialEq, Eq, Structural)]
pub enum MouseAction {
    SwapTile,
    ResizeTile,
}

/// What can be done with a mouse besides moving it.
#[derive(Clone, Copy, Debug, PartialEq, Eq, Structural)]
pub enum MouseInput {
    /// A button, by its number.
    Button(u32),
    WheelUp,
    WheelDown,
    WheelLeft,
    WheelRight,
}

/// An input of the mouse together with the modifiers that are held down.
#[derive(Clone, Copy, Debug, PartialEq, Eq, Structural)]
pub struct MousePattern {
    pub modifiers: u32,
    pub input: MouseInput,
}

/// The direction of a swipe over a touchpad.
#[derive(Clone, Copy, Debug, PartialEq, Eq, Structural)]
pub enum GestureDirection {
    /// In a pattern: any direction.
    Any,
    Left,
    Right,
    Up,
    Down,
}

/// What a gesture does.
#[derive(Clone, Copy, Debug, PartialEq, Eq, Structural)]
pub enum GestureAction {
    FocusNextWorkspace,
    FocusPreviousWorkspace,
    /// Another action, by its place in the configuration.
    Other(u32),
}

/// The swipes that an action is bound to.
#[derive(Clone, Copy, Debug, PartialEq, Eq, Structural)]
pub struct GesturePattern {
    pub fingers: u32,
    /// How far the fingers have to move.
    pub min_swipe_distance: u32,
    pub direction: GestureDirection,
}

} // verus!
