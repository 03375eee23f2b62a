//! What keys and buttons set off.
use vstd::prelude::*;

use crate::config::keybind::{
    ComplexKeyAction, Fraction, KeyActionDesc, MouseAction, SimpleKeyAction,
};
use crate::geometry::{fits, Point, Rectangle, Size};
use crate::seqs::{first_index, lemma_first_index, lemma_first_index_is};
use crate::state::{clamp_workspace, workspace_index, Fht, State, WORKSPACE_COUNT};

verus! {

/// The least width and height of a floating window, below which a tile is of no use.
pub const MIN_FLOATING_SIZE: i32 = 25;

/// The "type" of a [`KeyAction`].
///
/// A [`KeyAction`] needs additional data associated with it, for example, whether we should allow
/// it to be executed while the compositor is locked.
#[derive(Debug)]
pub enum KeyActionType {
    Quit,
    ReloadConfig,
    RunCommand(String),
    SelectNextLayout,
    SelectPreviousLayout,
    ChangeMwfact(Fraction),
    ChangeNmaster(i32),
    ChangeProportion(Fraction),
    MaximizeFocusedWindow,
    FullscreenFocusedWindow,
    FloatFocusedWindow,
    MoveFloatingWindow([i32; 2]),
    ResizeFloatingWindow([i32; 2]),
    FocusNextWindow,
    FocusPreviousWindow,
    SwapWithNextWindow,
    SwapWithPreviousWindow,
    FocusNextOutput,
    FocusPreviousOutput,
    CloseFocusedWindow,
    FocusWorkspace(usize),
    SendFocusedWindowToWorkspace(usize),
    FocusNextWorkspace,
    FocusPreviousWorkspace,
    /// The key combination does nothing.
    Disabled,
}

/// A [`KeyAction`]. It describes an action to execute when the user hits a specific key pattern,
/// that is a bunch of keys.
#[derive(Debug)]
pub struct KeyAction {
    /// The type of the [`KeyAction`], that is what to do.
    pub action_type: KeyActionType,
    /// Whether we should allow this [`KeyAction`] to be executed while the compositor is locked.
    pub allow_while_locked: bool,
}

impl Clone for KeyActionType {
    fn clone(&self) -> (action: KeyActionType)
        ensures
            action == *self,
    {
        match self {
            KeyActionType::Quit => KeyActionType::Quit,
            KeyActionType::ReloadConfig => KeyActionType::ReloadConfig,
            KeyActionType::RunCommand(cmd) => KeyActionType::RunCommand(cmd.clone()),
            KeyActionType::SelectNextLayout => KeyActionType::SelectNextLayout,
            KeyActionType::SelectPreviousLayout => KeyActionType::SelectPreviousLayout,
            KeyActionType::ChangeMwfact(delta) => KeyActionType::ChangeMwfact(*delta),
            KeyActionType::ChangeNmaster(delta) => KeyActionType::ChangeNmaster(*delta),
            KeyActionType::ChangeProportion(delta) => KeyActionType::ChangeProportion(*delta),
            KeyActionType::MaximizeFocusedWindow => KeyActionType::MaximizeFocusedWindow,
            KeyActionType::FullscreenFocusedWindow => KeyActionType::FullscreenFocusedWindow,
            KeyActionType::FloatFocusedWindow => KeyActionType::FloatFocusedWindow,
            KeyActionType::MoveFloatingWindow(change) => KeyActionType::MoveFloatingWindow(*change),
            KeyActionType::ResizeFloatingWindow(change) => KeyActionType::ResizeFloatingWindow(
                *change,
            ),
            KeyActionType::FocusNextWindow => KeyActionType::FocusNextWindow,
            KeyActionType::FocusPreviousWindow => KeyActionType::FocusPreviousWindow,
            KeyActionType::SwapWithNextWindow => KeyActionType::SwapWithNextWindow,
            KeyActionType::SwapWithPreviousWindow => KeyActionType::SwapWithPreviousWindow,
            KeyActionType::FocusNextOutput => KeyActionType::FocusNextOutput,
            KeyActionType::FocusPreviousOutput => KeyActionType::FocusPreviousOutput,
            KeyActionType::CloseFocusedWindow => KeyActionType::CloseFocusedWindow,
            KeyActionType::FocusWorkspace(idx) => KeyActionType::FocusWorkspace(*idx),
            KeyActionType::SendFocusedWindowToWorkspace(idx) =>
                KeyActionType::SendFocusedWindowToWorkspace(*idx),
            KeyActionType::FocusNextWorkspace => KeyActionType::FocusNextWorkspace,
            KeyActionType::FocusPreviousWorkspace => KeyActionType::FocusPreviousWorkspace,
            KeyActionType::Disabled => KeyActionType::Disabled,
        }
    }
}

impl Clone for KeyAction {
    fn clone(&self) -> (action: KeyAction)
        ensures
            action == *self,
    {
        KeyAction {
            action_type: self.action_type.clone(),
            allow_while_locked: self.allow_while_locked,
        }
    }
}

impl KeyAction {
    /// Create a new dummy [`KeyAction`], with no bound action.
    ///
    /// Binding this is equivalent to disabling the key pattern.
    pub fn none() -> (action: KeyAction)
        ensures
            action.action_type is Disabled,
            !action.allow_while_locked,
    {
        KeyAction { action_type: KeyActionType::Disabled, allow_while_locked: false }
    }
}

/// The action that a parameterless description stands for.
pub open spec fn simple_type(action: SimpleKeyAction) -> KeyActionType {
    match action {
        SimpleKeyAction::Quit => KeyActionType::Quit,
        SimpleKeyAction::ReloadConfig => KeyActionType::ReloadConfig,
        SimpleKeyAction::SelectNextLayout => KeyActionType::SelectNextLayout,
        SimpleKeyAction::SelectPreviousLayout => KeyActionType::SelectPreviousLayout,
        SimpleKeyAction::MaximizeFocusedWindow => KeyActionType::MaximizeFocusedWindow,
        SimpleKeyAction::FullscreenFocusedWindow => KeyActionType::FullscreenFocusedWindow,
        SimpleKeyAction::FloatFocusedWindow => KeyActionType::FloatFocusedWindow,
        SimpleKeyAction::FocusNextWindow => KeyActionType::FocusNextWindow,
        SimpleKeyAction::FocusPreviousWindow => KeyActionType::FocusPreviousWindow,
        SimpleKeyAction::SwapWithNextWindow => KeyActionType::SwapWithNextWindow,
        SimpleKeyAction::SwapWithPreviousWindow => KeyActionType::SwapWithPreviousWindow,
        SimpleKeyAction::FocusNextOutput => KeyActionType::FocusNextOutput,
        SimpleKeyAction::FocusPreviousOutput => KeyActionType::FocusPreviousOutput,
        SimpleKeyAction::CloseFocusedWindow => KeyActionType::CloseFocusedWindow,
        SimpleKeyAction::FocusNextWorkspace => KeyActionType::FocusNextWorkspace,
        SimpleKeyAction::FocusPreviousWorkspace => KeyActionType::FocusPreviousWorkspace,
        SimpleKeyAction::Disabled => KeyActionType::Disabled,
    }
}

/// The action that a description with parameters stands for.
pub open spec fn complex_type(action: ComplexKeyAction) -> KeyActionType {
    match action {
        ComplexKeyAction::Quit => KeyActionType::Quit,
        ComplexKeyAction::ReloadConfig => KeyActionType::ReloadConfig,
        ComplexKeyAction::RunCommand(cmd) => KeyActionType::RunCommand(cmd),
        ComplexKeyAction::SelectNextLayout => KeyActionType::SelectNextLayout,
        ComplexKeyAction::SelectPreviousLayout => KeyActionType::SelectPreviousLayout,
        ComplexKeyAction::ChangeMwfact(delta) => KeyActionType::ChangeMwfact(delta),
        ComplexKeyAction::ChangeNmaster(delta) => KeyActionType::ChangeNmaster(delta),
        ComplexKeyAction::ChangeWindowProportion(delta) => KeyActionType::ChangeProportion(delta),
        ComplexKeyAction::MaximizeFocusedWindow => KeyActionType::MaximizeFocusedWindow,
        ComplexKeyAction::FullscreenFocusedWindow => KeyActionType::FullscreenFocusedWindow,
        ComplexKeyAction::FloatFocusedWindow => KeyActionType::FloatFocusedWindow,
        ComplexKeyAction::MoveFloatingWindow(change) => KeyActionType::MoveFloatingWindow(change),
        ComplexKeyAction::ResizeFloatingWindow(change) => KeyActionType::ResizeFloatingWindow(
            change,
        ),
        ComplexKeyAction::FocusNextWindow => KeyActionType::FocusNextWindow,
        ComplexKeyAction::FocusPreviousWindow => KeyActionType::FocusPreviousWindow,
        ComplexKeyAction::SwapWithNextWindow => KeyActionType::SwapWithNextWindow,
        ComplexKeyAction::SwapWithPreviousWindow => KeyActionType::SwapWithPreviousWindow,
        ComplexKeyAction::FocusNextOutput => KeyActionType::FocusNextOutput,
        ComplexKeyAction::FocusPreviousOutput => KeyActionType::FocusPreviousOutput,
        ComplexKeyAction::CloseFocusedWindow => KeyActionType::CloseFocusedWindow,
        ComplexKeyAction::FocusWorkspace(idx) => KeyActionType::FocusWorkspace(idx),
        ComplexKeyAction::SendToWorkspace(idx) => KeyActionType::SendFocusedWindowToWorkspace(idx),
        ComplexKeyAction::FocusNextWorkspace => KeyActionType::FocusNextWorkspace,
        ComplexKeyAction::FocusPreviousWorkspace => KeyActionType::FocusPreviousWorkspace,
        ComplexKeyAction::Disabled => KeyActionType::Disabled,
    }
}

impl From<KeyActionDesc> for KeyAction {
    fn from(value: KeyActionDesc) -> (action: KeyAction) {
        match value {
            KeyActionDesc::Simple(action) => {
                let action_type = match action {
                    SimpleKeyAction::Quit => KeyActionType::Quit,
                    SimpleKeyAction::ReloadConfig => KeyActionType::ReloadConfig,
                    SimpleKeyAction::SelectNextLayout => KeyActionType::SelectNextLayout,
                    SimpleKeyAction::SelectPreviousLayout => KeyActionType::SelectPreviousLayout,
                    SimpleKeyAction::MaximizeFocusedWindow => KeyActionType::MaximizeFocusedWindow,
                    SimpleKeyAction::FullscreenFocusedWindow =>
                        KeyActionType::FullscreenFocusedWindow,
                    SimpleKeyAction::FloatFocusedWindow => KeyActionType::FloatFocusedWindow,
                    SimpleKeyAction::FocusNextWindow => KeyActionType::FocusNextWindow,
                    SimpleKeyAction::FocusPreviousWindow => KeyActionType::FocusPreviousWindow,
                    SimpleKeyAction::SwapWithNextWindow => KeyActionType::SwapWithNextWindow,
                    SimpleKeyAction::SwapWithPreviousWindow =>
                        KeyActionType::SwapWithPreviousWindow,
                    SimpleKeyAction::FocusNextOutput => KeyActionType::FocusNextOutput,
                    SimpleKeyAction::FocusPreviousOutput => KeyActionType::FocusPreviousOutput,
                    SimpleKeyAction::CloseFocusedWindow => KeyActionType::CloseFocusedWindow,
                    SimpleKeyAction::FocusNextWorkspace => KeyActionType::FocusNextWorkspace,
                    SimpleKeyAction::FocusPreviousWorkspace =>
                        KeyActionType::FocusPreviousWorkspace,
                    SimpleKeyAction::Disabled => KeyActionType::Disabled,
                };
                KeyAction { action_type, allow_while_locked: false }
            },
            KeyActionDesc::Complex { action, allow_while_locked } => {
                let action_type = match action {
                    ComplexKeyAction::Quit => KeyActionType::Quit,
                    ComplexKeyAction::ReloadConfig => KeyActionType::ReloadConfig,
                    ComplexKeyAction::RunCommand(cmd) => KeyActionType::RunCommand(cmd),
                    ComplexKeyAction::SelectNextLayout => KeyActionType::SelectNextLayout,
                    ComplexKeyAction::SelectPreviousLayout => KeyActionType::SelectPreviousLayout,
                    ComplexKeyAction::ChangeMwfact(delta) => KeyActionType::ChangeMwfact(delta),
                    ComplexKeyAction::ChangeNmaster(delta) => KeyActionType::ChangeNmaster(delta),
                    ComplexKeyAction::ChangeWindowProportion(delta) =>
                        KeyActionType::ChangeProportion(delta),
                    ComplexKeyAction::MaximizeFocusedWindow => KeyActionType::MaximizeFocusedWindow,
                    ComplexKeyAction::FullscreenFocusedWindow =>
                        KeyActionType::FullscreenFocusedWindow,
                    ComplexKeyAction::FloatFocusedWindow => KeyActionType::FloatFocusedWindow,
                    ComplexKeyAction::MoveFloatingWindow(change) =>
                        KeyActionType::MoveFloatingWindow(change),
                    ComplexKeyAction::ResizeFloatingWindow(change) =>
                        KeyActionType::ResizeFloatingWindow(change),
                    ComplexKeyAction::FocusNextWindow => KeyActionType::FocusNextWindow,
                    ComplexKeyAction::FocusPreviousWindow => KeyActionType::FocusPreviousWindow,
                    ComplexKeyAction::SwapWithNextWindow => KeyActionType::SwapWithNextWindow,
                    ComplexKeyAction::SwapWithPreviousWindow =>
                        KeyActionType::SwapWithPreviousWindow,
                    ComplexKeyAction::FocusNextOutput => KeyActionType::FocusNextOutput,
                    ComplexKeyAction::FocusPreviousOutput => KeyActionType::FocusPreviousOutput,
                    ComplexKeyAction::CloseFocusedWindow => KeyActionType::CloseFocusedWindow,
                    ComplexKeyAction::FocusWorkspace(idx) => KeyActionType::FocusWorkspace(idx),
                    ComplexKeyAction::SendToWorkspace(idx) =>
                        KeyActionType::SendFocusedWindowToWorkspace(idx),
                    ComplexKeyAction::FocusNextWorkspace => KeyActionType::FocusNextWorkspace,
                    ComplexKeyAction::FocusPreviousWorkspace =>
                        KeyActionType::FocusPreviousWorkspace,
                    ComplexKeyAction::Disabled => KeyActionType::Disabled,
                };
                KeyAction { action_type, allow_while_locked }
            },
        }
    }
}

impl vstd::std_specs::convert::FromSpecImpl<KeyActionDesc> for KeyAction {
    open spec fn obeys_from_spec() -> bool {
        true
    }

    open spec fn from_spec(value: KeyActionDesc) -> KeyAction {
        match value {
            KeyActionDesc::Simple(action) => KeyAction {
                action_type: simple_type(action),
                allow_while_locked: false,
            },
            KeyActionDesc::Complex { action, allow_while_locked } => KeyAction {
                action_type: complex_type(action),
                allow_while_locked,
            },
        }
    }
}

/// The active window, as far as key actions look at it.
#[derive(Clone, Copy, Debug, PartialEq, Eq, Structural)]
pub struct ActiveWindow {
    pub window: u64,
    pub maximized: bool,
    pub fullscreen: bool,
}

/// The active tile of the active workspace.
#[derive(Clone, Copy, Debug, PartialEq, Eq, Structural)]
pub struct ActiveTile {
    pub window: u64,
    pub tiled: bool,
    pub location: Point,
    pub size: Size,
}

/// What key actions look at.
#[derive(Debug)]
pub struct KeyContext {
    /// The outputs, in order.
    pub outputs: Vec<u64>,
    pub active_output: u64,
    /// The window that has the focus.
    pub active_window: Option<ActiveWindow>,
    /// The active tile of the active workspace.
    pub active_tile: Option<ActiveTile>,
    /// The index of the active workspace on the active output.
    pub active_workspace: usize,
}

/// What a key action sets off.
#[derive(Debug)]
#[allow(inconsistent_fields)]
pub enum KeyEffect {
    Nothing,
    /// Load the configuration anew.
    ReloadConfig,
    /// Run a command.
    Spawn(String),
    SelectNextLayout,
    SelectPreviousLayout,
    ChangeMwfact(Fraction),
    ChangeNmaster(i32),
    ChangeProportion { window: u64, delta: Fraction },
    /// Maximize the window, or undo that.
    Maximize { window: u64, maximized: bool },
    /// Make the window fill the output, or undo that.
    Fullscreen { window: u64, fullscreen: bool },
    /// Tile the window, or let it float, if there is one; arrange the tiles in any case.
    ArrangeTiled { window: Option<(u64, bool)> },
    /// Move the active tile.
    MoveTile(Point),
    /// Resize the active tile.
    ResizeTile(Size),
    /// Activate the next tile, then see [`after_activation`].
    ActivateNextTile,
    /// Activate the previous tile, then see [`after_activation`].
    ActivatePreviousTile,
    /// Swap the active tile with the next one, then see [`after_activation`].
    SwapWithNextTile,
    /// Swap the active tile with the previous one, then see [`after_activation`].
    SwapWithPreviousTile,
    /// Focus another output, with the pointer at its center if the pointer follows the focus.
    FocusOutput(u64),
    CloseWindow(u64),
    /// Show another workspace of the active output, and focus the window there, if any.
    FocusWorkspace(usize),
    /// Take the window from the active workspace, focus what is then active there, and put the
    /// window on the other workspace.
    SendToWorkspace { window: u64, workspace: usize },
}

/// Whether an output is the given one.
pub open spec fn is_output(output: u64) -> spec_fn(u64) -> bool {
    |o: u64| o == output
}

/// The output after `output`, in a circle.
pub open spec fn next_output(outputs: Seq<u64>, output: u64) -> u64 {
    let i = first_index(outputs, is_output(output))->0;
    if i + 1 == outputs.len() {
        outputs[0]
    } else {
        outputs[i + 1]
    }
}

/// The output before `output`, in a circle.
pub open spec fn previous_output(outputs: Seq<u64>, output: u64) -> u64 {
    let i = first_index(outputs, is_output(output))->0;
    if i == 0 {
        outputs.last()
    } else {
        outputs[i - 1]
    }
}

/// `x`, but no less than the least size of a floating window.
pub open spec fn at_least_min(x: int) -> int {
    if x < MIN_FLOATING_SIZE {
        MIN_FLOATING_SIZE as int
    } else {
        x
    }
}

impl KeyContext {
    /// Whether the action can be carried out: the focused output is one of the outputs, and new
    /// coordinates and indices are representable.
    pub open spec fn admits(&self, action: KeyActionType) -> bool {
        match action {
            KeyActionType::MoveFloatingWindow(change) => self.active_tile matches Some(tile)
                ==> tile.tiled || fits(tile.location.x + change@[0]) && fits(
                tile.location.y + change@[1],
            ),
            KeyActionType::ResizeFloatingWindow(change) => self.active_tile matches Some(tile)
                ==> tile.tiled || fits(tile.size.w + change@[0]) && fits(
                tile.size.h + change@[1],
            ),
            KeyActionType::FocusNextOutput | KeyActionType::FocusPreviousOutput =>
                self.outputs@.len() >= 2 ==> self.outputs@.contains(self.active_output),
            KeyActionType::FocusNextWorkspace => self.active_workspace < usize::MAX,
            _ => true,
        }
    }

    /// What the action sets off, where it is allowed.
    pub open spec fn effect(&self, action: KeyActionType) -> KeyEffect {
        match action {
            KeyActionType::Quit => KeyEffect::Nothing,
            KeyActionType::ReloadConfig => KeyEffect::ReloadConfig,
            KeyActionType::RunCommand(cmd) => KeyEffect::Spawn(cmd),
            KeyActionType::SelectNextLayout => KeyEffect::SelectNextLayout,
            KeyActionType::SelectPreviousLayout => KeyEffect::SelectPreviousLayout,
            KeyActionType::ChangeMwfact(delta) => KeyEffect::ChangeMwfact(delta),
            KeyActionType::ChangeNmaster(delta) => KeyEffect::ChangeNmaster(delta),
            KeyActionType::ChangeProportion(delta) => match self.active_window {
                Some(active) => KeyEffect::ChangeProportion { window: active.window, delta },
                None => KeyEffect::Nothing,
            },
            KeyActionType::MaximizeFocusedWindow => match self.active_window {
                Some(active) => KeyEffect::Maximize {
                    window: active.window,
                    maximized: !active.maximized,
                },
                None => KeyEffect::Nothing,
            },
            KeyActionType::FullscreenFocusedWindow => match self.active_window {
                Some(active) => KeyEffect::Fullscreen {
                    window: active.window,
                    fullscreen: !active.fullscreen,
                },
                None => KeyEffect::Nothing,
            },
            KeyActionType::FloatFocusedWindow => KeyEffect::ArrangeTiled {
                window: match self.active_tile {
                    Some(tile) => Some((tile.window, !tile.tiled)),
                    None => None,
                },
            },
            KeyActionType::MoveFloatingWindow(change) => match self.active_tile {
                Some(tile) => if tile.tiled {
                    KeyEffect::Nothing
                } else {
                    KeyEffect::MoveTile(
                        Point {
                            x: (tile.location.x + change@[0]) as i32,
                            y: (tile.location.y + change@[1]) as i32,
                        },
                    )
                },
                None => KeyEffect::Nothing,
            },
            KeyActionType::ResizeFloatingWindow(change) => match self.active_tile {
                Some(tile) => if tile.tiled {
                    KeyEffect::Nothing
                } else {
                    KeyEffect::ResizeTile(
                        Size {
                            w: at_least_min(tile.size.w + change@[0]) as i32,
                            h: at_least_min(tile.size.h + change@[1]) as i32,
                        },
                    )
                },
                None => KeyEffect::Nothing,
            },
            KeyActionType::FocusNextWindow => KeyEffect::ActivateNextTile,
            KeyActionType::FocusPreviousWindow => KeyEffect::ActivatePreviousTile,
            KeyActionType::SwapWithNextWindow => KeyEffect::SwapWithNextTile,
            KeyActionType::SwapWithPreviousWindow => KeyEffect::SwapWithPreviousTile,
            KeyActionType::FocusNextOutput => if self.outputs@.len() < 2 {
                KeyEffect::Nothing
            } else {
                KeyEffect::FocusOutput(next_output(self.outputs@, self.active_output))
            },
            KeyActionType::FocusPreviousOutput => if self.outputs@.len() < 2 {
                KeyEffect::Nothing
            } else {
                KeyEffect::FocusOutput(previous_output(self.outputs@, self.active_output))
            },
            KeyActionType::CloseFocusedWindow => match self.active_window {
                Some(active) => KeyEffect::CloseWindow(active.window),
                None => KeyEffect::Nothing,
            },
            KeyActionType::FocusWorkspace(idx) => KeyEffect::FocusWorkspace(idx),
            KeyActionType::SendFocusedWindowToWorkspace(idx) => match self.active_tile {
                Some(tile) => KeyEffect::SendToWorkspace {
                    window: tile.window,
                    workspace: clamp_workspace(idx as int) as usize,
                },
                None => KeyEffect::Nothing,
            },
            KeyActionType::FocusNextWorkspace => KeyEffect::FocusWorkspace(
                clamp_workspace(self.active_workspace + 1) as usize,
            ),
            KeyActionType::FocusPreviousWorkspace => KeyEffect::FocusWorkspace(
                if self.active_workspace == 0 {
                    0
                } else {
                    (self.active_workspace - 1) as usize
                },
            ),
            KeyActionType::Disabled => KeyEffect::Nothing,
        }
    }

    fn output_position(&self) -> (i: usize)
        requires
            self.outputs@.contains(self.active_output),
        ensures
            i < self.outputs@.len(),
            first_index(self.outputs@, is_output(self.active_output)) == Some(i as int),
    {
        let mut i: usize = 0;
        while i < self.outputs.len()
            invariant
                0 <= i <= self.outputs.len(),
                forall|j: int| 0 <= j < i ==> #[trigger] self.outputs@[j] != self.active_output,
            decreases self.outputs.len() - i,
        {
            if self.outputs[i] == self.active_output {
                proof {
                    lemma_first_index_is(self.outputs@, is_output(self.active_output), i as int);
                }
                return i;
            }
            i += 1;
        }
        assert(false);
        0
    }
}

fn floating_length(x: i32) -> (r: i32)
    ensures
        r == at_least_min(x as int),
{
    if x < MIN_FLOATING_SIZE {
        MIN_FLOATING_SIZE
    } else {
        x
    }
}

impl State {
    /// Work out what a key action sets off.
    ///
    /// While the session is locked, only actions that are meant for that do anything.
    pub fn process_key_action(&mut self, action: KeyAction, context: &KeyContext) -> (effect:
        KeyEffect)
        requires
            !old(self).fht.lock_state.hides_session() || action.allow_while_locked
                ==> context.admits(action.action_type),
        ensures
            final(self).backend == old(self).backend,
            if old(self).fht.lock_state.hides_session() && !action.allow_while_locked {
                effect is Nothing && final(self).fht == old(self).fht
            } else {
                &&& effect == context.effect(action.action_type)
                &&& final(self).fht == (Fht {
                    stop: old(self).fht.stop || action.action_type is Quit,
                    ..old(self).fht
                })
            },
    {
        if self.fht.is_locked() && !action.allow_while_locked {
            return KeyEffect::Nothing;
        }
        match action.action_type {
            KeyActionType::Quit => {
                self.fht.stop = true;
                KeyEffect::Nothing
            },
            KeyActionType::ReloadConfig => KeyEffect::ReloadConfig,
            KeyActionType::RunCommand(cmd) => KeyEffect::Spawn(cmd),
            KeyActionType::SelectNextLayout => KeyEffect::SelectNextLayout,
            KeyActionType::SelectPreviousLayout => KeyEffect::SelectPreviousLayout,
            KeyActionType::ChangeMwfact(delta) => KeyEffect::ChangeMwfact(delta),
            KeyActionType::ChangeNmaster(delta) => KeyEffect::ChangeNmaster(delta),
            KeyActionType::ChangeProportion(delta) => match context.active_window {
                Some(active) => KeyEffect::ChangeProportion { window: active.window, delta },
                None => KeyEffect::Nothing,
            },
            KeyActionType::MaximizeFocusedWindow => match context.active_window {
                Some(active) => KeyEffect::Maximize {
                    window: active.window,
                    maximized: !active.maximized,
                },
                None => KeyEffect::Nothing,
            },
            KeyActionType::FullscreenFocusedWindow => match context.active_window {
                Some(active) => KeyEffect::Fullscreen {
                    window: active.window,
                    fullscreen: !active.fullscreen,
                },
                None => KeyEffect::Nothing,
            },
            KeyActionType::FloatFocusedWindow => {
                let window = match context.active_tile {
                    Some(tile) => Some((tile.window, !tile.tiled)),
                    None => None,
                };
                KeyEffect::ArrangeTiled { window }
            },
            KeyActionType::MoveFloatingWindow(change) => match context.active_tile {
                Some(tile) => if tile.tiled {
                    KeyEffect::Nothing
                } else {
                    KeyEffect::MoveTile(
                        Point { x: tile.location.x + change[0], y: tile.location.y + change[1] },
                    )
                },
                None => KeyEffect::Nothing,
            },
            KeyActionType::ResizeFloatingWindow(change) => match context.active_tile {
                Some(tile) => if tile.tiled {
                    KeyEffect::Nothing
                } else {
                    KeyEffect::ResizeTile(
                        Size {
                            w: floating_length(tile.size.w + change[0]),
                            h: floating_length(tile.size.h + change[1]),
                        },
                    )
                },
                None => KeyEffect::Nothing,
            },
            KeyActionType::FocusNextWindow => KeyEffect::ActivateNextTile,
            KeyActionType::FocusPreviousWindow => KeyEffect::ActivatePreviousTile,
            KeyActionType::SwapWithNextWindow => KeyEffect::SwapWithNextTile,
            KeyActionType::SwapWithPreviousWindow => KeyEffect::SwapWithPreviousTile,
            KeyActionType::FocusNextOutput => {
                if context.outputs.len() < 2 {
                    return KeyEffect::Nothing;
                }
                let mut next: usize = context.output_position() + 1;
                if next == context.outputs.len() {
                    next = 0;
                }
                KeyEffect::FocusOutput(context.outputs[next])
            },
            KeyActionType::FocusPreviousOutput => {
                if context.outputs.len() < 2 {
                    return KeyEffect::Nothing;
                }
                let current: usize = context.output_position();
                let next: usize = if current == 0 {
                    context.outputs.len() - 1
                } else {
                    current - 1
                };
                KeyEffect::FocusOutput(context.outputs[next])
            },
            KeyActionType::CloseFocusedWindow => match context.active_window {
                Some(active) => KeyEffect::CloseWindow(active.window),
                None => KeyEffect::Nothing,
            },
            KeyActionType::FocusWorkspace(idx) => KeyEffect::FocusWorkspace(idx),
            KeyActionType::SendFocusedWindowToWorkspace(idx) => match context.active_tile {
                Some(tile) => KeyEffect::SendToWorkspace {
                    window: tile.window,
                    workspace: workspace_index(idx),
                },
                None => KeyEffect::Nothing,
            },
            KeyActionType::FocusNextWorkspace => KeyEffect::FocusWorkspace(
                workspace_index(context.active_workspace + 1),
            ),
            KeyActionType::FocusPreviousWorkspace => {
                let idx: usize = if context.active_workspace == 0 {
                    0
                } else {
                    context.active_workspace - 1
                };
                KeyEffect::FocusWorkspace(idx)
            },
            KeyActionType::Disabled => KeyEffect::Nothing,
        }
    }

    /// Work out what a mouse action starts: the window under the pointer that is swapped with
    /// others, if any.
    pub fn process_mouse_action(&self, action: MouseAction, window_under: Option<u64>) -> (swap:
        Option<u64>)
        ensures
            swap == match action {
                MouseAction::SwapTile => window_under,
                _ => None,
            },
    {
        match action {
            MouseAction::SwapTile => window_under,
            _ => None,
        }
    }

    /// Begin to swap a window, once the button press has been processed: the pointer still has to
    /// be grabbed by the press, and the workspace has to go along with it. Returns whether the
    /// pointer is now grabbed for the swap.
    pub fn begin_swap(&mut self, has_grab: bool, has_start_data: bool, started: bool) -> (grab:
        bool)
        ensures
            grab == (has_grab && has_start_data && started),
            final(self).backend == old(self).backend,
            final(self).fht == (Fht {
                interactive_grab_active: old(self).fht.interactive_grab_active || grab,
                ..old(self).fht
            }),
    {
        if !has_grab || !has_start_data || !started {
            return false;
        }
        self.fht.interactive_grab_active = true;
        true
    }
}

/// How the focus moves.
#[derive(Clone, Copy, Debug, PartialEq, Eq, Structural)]
pub struct FocusMove {
    /// The rectangle that the pointer moves to the center of.
    pub warp: Option<Rectangle>,
    /// The window that gets the keyboard focus.
    pub focus: Option<u64>,
}

/// How the focus follows a window that a key action activated; `activated` is the window and
/// where it is, if there was one to activate.
pub fn after_activation(activated: Option<(u64, Rectangle)>, cursor_warps: bool) -> (moved:
    FocusMove)
    ensures
        moved == match activated {
            Some((window, geometry)) => FocusMove {
                warp: if cursor_warps {
                    Some(geometry)
                } else {
                    None
                },
                focus: Some(window),
            },
            None => FocusMove { warp: None, focus: None },
        },
{
    match activated {
        Some((window, geometry)) => {
            let warp = if cursor_warps {
                Some(geometry)
            } else {
                None
            };
            FocusMove { warp, focus: Some(window) }
        },
        None => FocusMove { warp: None, focus: None },
    }
}

/// A disabled key combination changes nothing, whatever the context.
pub proof fn disabled_actions_do_nothing(context: KeyContext)
    ensures
        context.admits(KeyActionType::Disabled),
        context.effect(KeyActionType::Disabled) == KeyEffect::Nothing,
{
}

/// Going to the next output and back leads to the output that had the focus, and so does going
/// back first.
pub proof fn next_and_previous_output_undo_each_other(outputs: Seq<u64>, output: u64)
    requires
        outputs.no_duplicates(),
        outputs.contains(output),
    ensures
        outputs.contains(next_output(outputs, output)),
        outputs.contains(previous_output(outputs, output)),
        previous_output(outputs, next_output(outputs, output)) == output,
        next_output(outputs, previous_output(outputs, output)) == output,
{
    lemma_first_index(outputs, is_output(output));
    if first_index(outputs, is_output(output)) is None {
        let k = choose|k: int| 0 <= k < outputs.len() && outputs[k] == output;
        assert(!is_output(output)(outputs[k]));
    }
    let i = first_index(outputs, is_output(output))->0;
    let n = outputs.len() as int;
    let next = if i + 1 == n { 0 } else { i + 1 };
    let previous = if i == 0 { n - 1 } else { i - 1 };
    assert(outputs[next] == next_output(outputs, output));
    assert(outputs[previous] == previous_output(outputs, output));
    lemma_position(outputs, next);
    lemma_position(outputs, previous);
}

proof fn lemma_position(outputs: Seq<u64>, i: int)
    requires
        outputs.no_duplicates(),
        0 <= i < outputs.len(),
    ensures
        first_index(outputs, is_output(outputs[i])) == Some(i),
{
    lemma_first_index_is(outputs, is_output(outputs[i]), i);
}

/// Key actions only ever show a workspace that exists, apart from one that the user names.
pub proof fn workspaces_stay_in_range(context: KeyContext, idx: usize)
    requires
        context.active_workspace < WORKSPACE_COUNT,
    ensures
        context.effect(KeyActionType::FocusNextWorkspace) matches KeyEffect::FocusWorkspace(w) && w
            < WORKSPACE_COUNT,
        context.effect(KeyActionType::FocusPreviousWorkspace) matches KeyEffect::FocusWorkspace(w)
            && w < WORKSPACE_COUNT,
        context.effect(KeyActionType::SendFocusedWindowToWorkspace(idx)) matches
            KeyEffect::SendToWorkspace { workspace, .. } ==> workspace < WORKSPACE_COUNT,
{
}

/// A floating window never gets smaller than its least size.
pub proof fn floating_windows_keep_a_size(context: KeyContext, change: [i32; 2])
    requires
        context.admits(KeyActionType::ResizeFloatingWindow(change)),
    ensures
        context.effect(KeyActionType::ResizeFloatingWindow(change)) matches KeyEffect::ResizeTile(
            size,
        ) ==> size.w >= MIN_FLOATING_SIZE && size.h >= MIN_FLOATING_SIZE,
{
}

/// An action that is only named, without parameters, is not for the lock screen.
pub proof fn simple_actions_are_not_for_the_lock_screen(action: SimpleKeyAction)
    ensures
        !<KeyAction as vstd::std_specs::convert::FromSpec<KeyActionDesc>>::from_spec(
            KeyActionDesc::Simple(action),
        ).allow_while_locked,
{
}

/// Going to the next workspace goes one further as long as there is one, and stays on the last one
/// else; going to the previous one goes one back, and stays on the first one. So each leads back
/// from where the other one led, where there is a workspace to go to.
pub proof fn workspace_keys_go_one_step(
    state: &mut State,
    back: &mut State,
    next: KeyAction,
    previous: KeyAction,
    context: &KeyContext,
    to_next: KeyEffect,
    to_previous: KeyEffect,
)
    requires
        old(state).fht.lock_state is Unlocked,
        old(back).fht.lock_state is Unlocked,
        next.action_type is FocusNextWorkspace,
        previous.action_type is FocusPreviousWorkspace,
        context.active_workspace < 9,
        call_ensures(State::process_key_action, (state, next, context), to_next),
        call_ensures(State::process_key_action, (back, previous, context), to_previous),
    ensures
        to_next matches KeyEffect::FocusWorkspace(w) && (if context.active_workspace + 1 < 9 {
            w == context.active_workspace + 1
        } else {
            w == context.active_workspace
        }),
        to_previous matches KeyEffect::FocusWorkspace(w) && (if context.active_workspace > 0 {
            w == context.active_workspace - 1
        } else {
            w == 0
        }),
{
    assert(call_requires(State::process_key_action, (state, next, context)));
    assert(call_requires(State::process_key_action, (back, previous, context)));
}

/// From any workspace but the last one, the next workspace and then the previous one lead back; from
/// any but the first one, so do the previous one and then the next one.
pub proof fn next_and_previous_workspace_undo_each_other(
    state: &mut State,
    later: &mut State,
    first: KeyAction,
    second: KeyAction,
    context: &KeyContext,
    there: &KeyContext,
    effect: KeyEffect,
    back: KeyEffect,
)
    requires
        old(state).fht.lock_state is Unlocked,
        old(later).fht.lock_state is Unlocked,
        first.action_type is FocusNextWorkspace && second.action_type is FocusPreviousWorkspace
            && context.active_workspace + 1 < WORKSPACE_COUNT || first.action_type is
            FocusPreviousWorkspace && second.action_type is FocusNextWorkspace && 0
            < context.active_workspace < WORKSPACE_COUNT,
        call_ensures(State::process_key_action, (state, first, context), effect),
        effect == KeyEffect::FocusWorkspace(there.active_workspace),
        call_ensures(State::process_key_action, (later, second, there), back),
    ensures
        back == KeyEffect::FocusWorkspace(context.active_workspace),
        there.active_workspace != context.active_workspace,
{
    assert(call_requires(State::process_key_action, (state, first, context)));
    assert(call_requires(State::process_key_action, (later, second, there)));
}

/// A key that names a workspace goes there, and the active window is sent to the one that is named,
/// or to the last one if there is no such workspace.
pub proof fn named_workspaces_are_used(
    state: &mut State,
    action: KeyAction,
    context: &KeyContext,
    effect: KeyEffect,
    idx: usize,
)
    requires
        old(state).fht.lock_state is Unlocked,
        context.admits(action.action_type),
        call_ensures(State::process_key_action, (state, action, context), effect),
    ensures
        action.action_type == KeyActionType::FocusWorkspace(idx) ==> effect
            == KeyEffect::FocusWorkspace(idx),
        action.action_type == KeyActionType::SendFocusedWindowToWorkspace(idx) ==> match effect {
            KeyEffect::SendToWorkspace { window, workspace } => context.active_tile is Some && window
                == context.active_tile->0.window && (if idx < 9 {
                workspace == idx
            } else {
                workspace == 8
            }),
            _ => effect is Nothing && context.active_tile is None,
        },
{
    assert(call_requires(State::process_key_action, (state, action, context)));
}

/// While the session is hidden, a key that is not meant for that does nothing at all.
pub proof fn hidden_sessions_ignore_keys(
    state: &mut State,
    action: KeyAction,
    context: &KeyContext,
    effect: KeyEffect,
)
    requires
        old(state).fht.lock_state is Locked || old(state).fht.lock_state is Locking,
        !action.allow_while_locked,
        call_ensures(State::process_key_action, (state, action, context), effect),
    ensures
        effect is Nothing,
        *final(state) == *old(state),
{
    assert(call_requires(State::process_key_action, (state, action, context)));
}

/// Keys work while the session is shown, and those that are meant for the lock screen always do:
/// the outcome is the same as if the session were not locked.
pub proof fn allowed_keys_work_while_locked(
    locked: &mut State,
    unlocked: &mut State,
    action: KeyAction,
    context: &KeyContext,
    effect: KeyEffect,
    same: KeyEffect,
)
    requires
        old(locked).fht.lock_state is Locked || old(locked).fht.lock_state is Locking,
        old(unlocked).fht.lock_state is Unlocked || old(unlocked).fht.lock_state is
            WaitingForSurfaces,
        action.allow_while_locked,
        context.admits(action.action_type),
        call_ensures(State::process_key_action, (locked, action, context), effect),
        call_ensures(State::process_key_action, (unlocked, action, context), same),
    ensures
        effect == same,
        final(locked).fht.stop == (old(locked).fht.stop || action.action_type is Quit),
        final(unlocked).fht.stop == (old(unlocked).fht.stop || action.action_type is Quit),
{
    assert(call_requires(State::process_key_action, (locked, action, context)));
    assert(call_requires(State::process_key_action, (unlocked, action, context)));
}

/// A key action changes nothing of the state but that quitting makes the compositor stop, and no
/// other action does that.
pub proof fn only_quitting_stops(
    state: &mut State,
    action: KeyAction,
    context: &KeyContext,
    effect: KeyEffect,
)
    requires
        old(state).fht.lock_state is Unlocked,
        context.admits(action.action_type),
        call_ensures(State::process_key_action, (state, action, context), effect),
    ensures
        action.action_type is Quit ==> final(state).fht.stop && effect is Nothing,
        !(action.action_type is Quit) ==> *final(state) == *old(state),
        final(state).backend == old(state).backend,
        final(state).fht.outputs == old(state).fht.outputs,
        final(state).fht.lock_state == old(state).fht.lock_state,
        final(state).fht.active_output == old(state).fht.active_output,
{
    assert(call_requires(State::process_key_action, (state, action, context)));
}

/// Keys that are about the focused window are about that window: it is maximized, or fills the
/// output, exactly if it was not before; it is closed; its proportion changes by what is asked
/// for. Without a focused window nothing happens.
pub proof fn window_keys_change_the_focused_window(
    state: &mut State,
    action: KeyAction,
    context: &KeyContext,
    effect: KeyEffect,
)
    requires
        old(state).fht.lock_state is Unlocked,
        action.action_type is MaximizeFocusedWindow || action.action_type is FullscreenFocusedWindow
            || action.action_type is CloseFocusedWindow || action.action_type is ChangeProportion,
        call_ensures(State::process_key_action, (state, action, context), effect),
    ensures
        context.active_window is None ==> effect is Nothing,
        context.active_window matches Some(active) ==> match (action.action_type, effect) {
            (
                KeyActionType::MaximizeFocusedWindow,
                KeyEffect::Maximize { window, maximized },
            ) => window == active.window && maximized != active.maximized,
            (
                KeyActionType::FullscreenFocusedWindow,
                KeyEffect::Fullscreen { window, fullscreen },
            ) => window == active.window && fullscreen != active.fullscreen,
            (KeyActionType::CloseFocusedWindow, KeyEffect::CloseWindow(window)) => window
                == active.window,
            (
                KeyActionType::ChangeProportion(asked),
                KeyEffect::ChangeProportion { window, delta },
            ) => window == active.window && delta == asked,
            _ => false,
        },
{
    assert(call_requires(State::process_key_action, (state, action, context)));
}

/// The active tile floats exactly if it was tiled before, and the other way round; a floating one is
/// moved by what is asked for, and grows or shrinks by that, but to no less than 25 pixels. A
/// tiled one is neither moved nor resized.
pub proof fn tile_keys_change_the_active_tile(
    state: &mut State,
    action: KeyAction,
    context: &KeyContext,
    effect: KeyEffect,
)
    requires
        old(state).fht.lock_state is Unlocked,
        context.admits(action.action_type),
        action.action_type is FloatFocusedWindow || action.action_type is MoveFloatingWindow
            || action.action_type is ResizeFloatingWindow,
        call_ensures(State::process_key_action, (state, action, context), effect),
    ensures
        match action.action_type {
            KeyActionType::FloatFocusedWindow => effect matches KeyEffect::ArrangeTiled { window }
                && match (context.active_tile, window) {
                (Some(tile), Some((window, tiled))) => window == tile.window && tiled
                    != tile.tiled,
                (None, None) => true,
                _ => false,
            },
            KeyActionType::MoveFloatingWindow(change) => if context.active_tile is Some
                && !context.active_tile->0.tiled {
                effect matches KeyEffect::MoveTile(to) && to.x - context.active_tile->0.location.x
                    == change@[0] && to.y - context.active_tile->0.location.y == change@[1]
            } else {
                effect is Nothing
            },
            KeyActionType::ResizeFloatingWindow(change) => if context.active_tile is Some
                && !context.active_tile->0.tiled {
                effect matches KeyEffect::ResizeTile(to) && to.w >= 25 && to.h >= 25 && (to.w > 25
                    ==> to.w - context.active_tile->0.size.w == change@[0]) && (to.h > 25 ==> to.h
                    - context.active_tile->0.size.h == change@[1]) && (to.w == 25
                    ==> context.active_tile->0.size.w + change@[0] <= 25) && (to.h == 25
                    ==> context.active_tile->0.size.h + change@[1] <= 25)
            } else {
                effect is Nothing
            },
            _ => true,
        },
{
    assert(call_requires(State::process_key_action, (state, action, context)));
}

/// The keys for outputs walk through the outputs in their order, and around at the ends: what
/// follows the focused output comes next, what precedes it comes before. With a single output
/// nothing happens.
pub proof fn output_keys_go_around(
    state: &mut State,
    action: KeyAction,
    context: &KeyContext,
    effect: KeyEffect,
    i: int,
)
    requires
        old(state).fht.lock_state is Unlocked,
        action.action_type is FocusNextOutput || action.action_type is FocusPreviousOutput,
        0 <= i < context.outputs@.len(),
        context.outputs@[i] == context.active_output,
        context.outputs@.no_duplicates(),
        call_ensures(State::process_key_action, (state, action, context), effect),
    ensures
        context.outputs@.len() == 1 ==> effect is Nothing,
        context.outputs@.len() > 1 ==> {
            let n = context.outputs@.len() as int;
            &&& action.action_type is FocusNextOutput ==> effect == KeyEffect::FocusOutput(
                context.outputs@[(i + 1) % n],
            )
            &&& action.action_type is FocusPreviousOutput ==> effect == KeyEffect::FocusOutput(
                context.outputs@[(i + n - 1) % n],
            )
        },
{
    let n = context.outputs@.len() as int;
    assert(context.outputs@.contains(context.active_output));
    lemma_position(context.outputs@, i);
    assert(call_requires(State::process_key_action, (state, action, context)));
    if i + 1 < n {
        assert((i + 1) % n == i + 1) by (nonlinear_arith)
            requires
                0 <= i + 1 < n,
        ;
    }
    if i > 0 {
        assert((i + n - 1) % n == i - 1) by (nonlinear_arith)
            requires
                0 < i < n,
        ;
    }
    if i + 1 == n {
        assert((i + 1) % n == 0) by (nonlinear_arith)
            requires
                i + 1 == n,
                n > 0,
        ;
    }
    if i == 0 {
        assert((i + n - 1) % n == n - 1) by (nonlinear_arith)
            requires
                i == 0,
                n > 0,
        ;
    }
}

/// Every other action sets off what it is called after, with the parameter that it has.
pub proof fn other_keys_set_off_their_namesake(
    state: &mut State,
    action: KeyAction,
    context: &KeyContext,
    effect: KeyEffect,
)
    requires
        old(state).fht.lock_state is Unlocked,
        context.admits(action.action_type),
        call_ensures(State::process_key_action, (state, action, context), effect),
    ensures
        action.action_type is ReloadConfig <==> effect is ReloadConfig,
        action.action_type is SelectNextLayout <==> effect is SelectNextLayout,
        action.action_type is SelectPreviousLayout <==> effect is SelectPreviousLayout,
        action.action_type is FocusNextWindow <==> effect is ActivateNextTile,
        action.action_type is FocusPreviousWindow <==> effect is ActivatePreviousTile,
        action.action_type is SwapWithNextWindow <==> effect is SwapWithNextTile,
        action.action_type is SwapWithPreviousWindow <==> effect is SwapWithPreviousTile,
        match (action.action_type, effect) {
            (KeyActionType::RunCommand(asked), KeyEffect::Spawn(run)) => run == asked,
            (KeyActionType::ChangeMwfact(asked), KeyEffect::ChangeMwfact(by)) => by == asked,
            (KeyActionType::ChangeNmaster(asked), KeyEffect::ChangeNmaster(by)) => by == asked,
            (asked, _) => !(asked is RunCommand || asked is ChangeMwfact || asked is ChangeNmaster),
        },
        action.action_type is Disabled ==> effect is Nothing,
{
    assert(call_requires(State::process_key_action, (state, action, context)));
}

/// A key combination that is bound to a name does the action of that name, and is not for the lock
/// screen.
pub proof fn named_actions_are_carried_out(desc: SimpleKeyAction)
    ensures
        ({
            let action = <KeyAction as vstd::std_specs::convert::FromSpec<
                KeyActionDesc,
            >>::from_spec(KeyActionDesc::Simple(desc));
            let t = action.action_type;
            &&& !action.allow_while_locked
            &&& desc is Quit <==> t is Quit
            &&& desc is ReloadConfig <==> t is ReloadConfig
            &&& desc is SelectNextLayout <==> t is SelectNextLayout
            &&& desc is SelectPreviousLayout <==> t is SelectPreviousLayout
            &&& desc is MaximizeFocusedWindow <==> t is MaximizeFocusedWindow
            &&& desc is FullscreenFocusedWindow <==> t is FullscreenFocusedWindow
            &&& desc is FloatFocusedWindow <==> t is FloatFocusedWindow
            &&& desc is FocusNextWindow <==> t is FocusNextWindow
            &&& desc is FocusPreviousWindow <==> t is FocusPreviousWindow
            &&& desc is SwapWithNextWindow <==> t is SwapWithNextWindow
            &&& desc is SwapWithPreviousWindow <==> t is SwapWithPreviousWindow
            &&& desc is FocusNextOutput <==> t is FocusNextOutput
            &&& desc is FocusPreviousOutput <==> t is FocusPreviousOutput
            &&& desc is CloseFocusedWindow <==> t is CloseFocusedWindow
            &&& desc is FocusNextWorkspace <==> t is FocusNextWorkspace
            &&& desc is FocusPreviousWorkspace <==> t is FocusPreviousWorkspace
            &&& desc is Disabled <==> t is Disabled
        }),
{
}

/// A key combination that is bound to a description does the action of that name with the
/// parameters that are given, and works on the lock screen exactly if that is asked for.
pub proof fn described_actions_are_carried_out(desc: ComplexKeyAction, allow_while_locked: bool)
    ensures
        ({
            let action = <KeyAction as vstd::std_specs::convert::FromSpec<
                KeyActionDesc,
            >>::from_spec(KeyActionDesc::Complex { action: desc, allow_while_locked });
            let t = action.action_type;
            &&& action.allow_while_locked == allow_while_locked
            &&& desc is Quit <==> t is Quit
            &&& desc is ReloadConfig <==> t is ReloadConfig
            &&& desc is SelectNextLayout <==> t is SelectNextLayout
            &&& desc is SelectPreviousLayout <==> t is SelectPreviousLayout
            &&& desc is MaximizeFocusedWindow <==> t is MaximizeFocusedWindow
            &&& desc is FullscreenFocusedWindow <==> t is FullscreenFocusedWindow
            &&& desc is FloatFocusedWindow <==> t is FloatFocusedWindow
            &&& desc is FocusNextWindow <==> t is FocusNextWindow
            &&& desc is FocusPreviousWindow <==> t is FocusPreviousWindow
            &&& desc is SwapWithNextWindow <==> t is SwapWithNextWindow
            &&& desc is SwapWithPreviousWindow <==> t is SwapWithPreviousWindow
            &&& desc is FocusNextOutput <==> t is FocusNextOutput
            &&& desc is FocusPreviousOutput <==> t is FocusPreviousOutput
            &&& desc is CloseFocusedWindow <==> t is CloseFocusedWindow
            &&& desc is FocusNextWorkspace <==> t is FocusNextWorkspace
            &&& desc is FocusPreviousWorkspace <==> t is FocusPreviousWorkspace
            &&& desc is Disabled <==> t is Disabled
            &&& desc matches ComplexKeyAction::RunCommand(cmd) ==> t == KeyActionType::RunCommand(
                cmd,
            )
            &&& desc matches ComplexKeyAction::ChangeMwfact(by) ==> t
                == KeyActionType::ChangeMwfact(by)
            &&& desc matches ComplexKeyAction::ChangeNmaster(by) ==> t
                == KeyActionType::ChangeNmaster(by)
            &&& desc matches ComplexKeyAction::ChangeWindowProportion(by) ==> t
                == KeyActionType::ChangeProportion(by)
            &&& desc matches ComplexKeyAction::MoveFloatingWindow(by) ==> t
                == KeyActionType::MoveFloatingWindow(by)
            &&& desc matches ComplexKeyAction::ResizeFloatingWindow(by) ==> t
                == KeyActionType::ResizeFloatingWindow(by)
            &&& desc matches ComplexKeyAction::FocusWorkspace(idx) ==> t
                == KeyActionType::FocusWorkspace(idx)
            &&& desc matches ComplexKeyAction::SendToWorkspace(idx) ==> t
                == KeyActionType::SendFocusedWindowToWorkspace(idx)
        }),
{
}

/// The focus follows a window that a key activated, and so does the pointer, if that is configured:
/// it goes to where the window is. Where nothing was activated, nothing moves.
pub proof fn focus_follows_activation(
    activated: Option<(u64, Rectangle)>,
    cursor_warps: bool,
    moved: FocusMove,
)
    requires
        call_ensures(after_activation, (activated, cursor_warps), moved),
    ensures
        activated is None ==> moved.focus is None && moved.warp is None,
        activated matches Some(a) ==> moved.focus == Some(a.0),
        !cursor_warps ==> moved.warp is None,
        activated matches Some(a) ==> (cursor_warps ==> moved.warp == Some(a.1)),
{
}

/// Only swapping starts from a mouse action, with the window under the pointer; the pointer is
/// grabbed for it only while it is grabbed by the press and the workspace goes along.
pub proof fn mouse_actions_swap_windows(
    state: &mut State,
    action: MouseAction,
    under: Option<u64>,
    swap: Option<u64>,
    has_grab: bool,
    has_start_data: bool,
    started: bool,
    grab: bool,
)
    requires
        call_ensures(State::process_mouse_action, (&*old(state), action, under), swap),
        call_ensures(State::begin_swap, (state, has_grab, has_start_data, started), grab),
    ensures
        action is SwapTile ==> swap == under,
        action is ResizeTile ==> swap is None,
        grab <==> has_grab && has_start_data && started,
        grab ==> final(state).fht.interactive_grab_active,
        !grab ==> *final(state) == *old(state),
        final(state).fht.resize_grab_active == old(state).fht.resize_grab_active,
{
}

/// The action that stands for none does nothing, on the lock screen or off it.
pub proof fn no_action_does_nothing(
    none: KeyAction,
    state: &mut State,
    context: &KeyContext,
    effect: KeyEffect,
)
    requires
        call_ensures(KeyAction::none, (), none),
        call_ensures(State::process_key_action, (state, none, context), effect),
    ensures
        effect is Nothing,
        *final(state) == *old(state),
{
    assert(call_requires(State::process_key_action, (state, none, context)));
}

} // verus!
