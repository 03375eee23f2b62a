//! The pointer.
use vstd::prelude::*;

use crate::config::keybind::{MouseAction, MouseInput, MousePattern};
use crate::config::maps::{get_mousebind, mousebinds_of, MouseBinds};
use crate::handlers::layer_shell::{KeyboardInteractivity, LayerSurface};
use crate::state::{draws_all, lemma_draws_all, Fht, State};

verus! {

/// The action that a pattern is bound to.
pub open spec fn mouse_action(
    mousebinds: Map<(u32, u64), MouseAction>,
    pattern: MousePattern,
) -> Option<MouseAction> {
    if mousebinds.dom().contains(pattern.spec_key()) {
        Some(mousebinds[pattern.spec_key()])
    } else {
        None
    }
}

/// The action that a pattern is bound to.
pub fn find_mouse_action(mousebinds: &MouseBinds, pattern: MousePattern) -> (r:
    Option<MouseAction>)
    ensures
        r == mouse_action(mousebinds_of(*mousebinds), pattern),
{
    match get_mousebind(mousebinds, pattern.key()) {
        Some(action) => Some(*action),
        None => None,
    }
}

/// A press or release of a mouse button.
#[derive(Clone, Copy, Debug, PartialEq, Eq, Structural)]
pub struct ButtonEvent {
    pub pressed: bool,
    /// The button, where it is one that can be bound.
    pub button: Option<u32>,
    pub modifiers: u32,
    /// Whether something already has the pointer to itself.
    pub grabbed: bool,
}

/// What a mouse button sets off before the client gets it.
#[derive(Clone, Copy, Debug, PartialEq, Eq, Structural)]
pub struct ButtonOutcome {
    /// The layer surface that the user clicked on.
    pub focus_layer: Option<u64>,
    /// The window that becomes active.
    pub activate: Option<u64>,
    pub action: Option<MouseAction>,
}

/// What is under the pointer, as far as the focus follows it.
#[derive(Clone, Copy, Debug, PartialEq, Eq, Structural)]
pub enum PointerTarget {
    /// A surface that belongs to something else.
    WlSurface(u64),
    Window(u64),
    LayerSurface(LayerSurface),
}

/// What belongs to the root of a surface.
#[derive(Clone, Copy, Debug, PartialEq, Eq, Structural)]
pub struct RootOwner {
    pub window: Option<u64>,
    /// A layer surface above the windows.
    pub layer: Option<LayerSurface>,
}

/// What follows from moving the pointer over something.
#[derive(Clone, Copy, Debug, PartialEq, Eq, Structural)]
pub enum FollowFocus {
    Nothing,
    /// The window becomes active.
    ActivateWindow(u64),
    /// The window becomes active and gets the keyboard.
    FocusWindow(u64),
    /// The layer surface gets the keyboard.
    FocusLayer(u64),
}

/// Whether a layer surface gets the keyboard by moving the pointer over it.
pub open spec fn follows_pointer(layer: LayerSurface) -> bool {
    layer.layer.spec_above_windows() && layer.interactivity == KeyboardInteractivity::OnDemand
}

/// What follows from moving the pointer over something; `root` tells whose surface the root of
/// the surface under the pointer is, where the root is known.
pub open spec fn follow_focus(under: Option<PointerTarget>, root: Option<RootOwner>) -> FollowFocus {
    match under {
        None => FollowFocus::Nothing,
        Some(PointerTarget::WlSurface(_)) => match root {
            None => FollowFocus::Nothing,
            Some(owner) => match (owner.window, owner.layer) {
                (Some(window), _) => FollowFocus::FocusWindow(window),
                (None, Some(layer)) => if follows_pointer(layer) {
                    FollowFocus::FocusLayer(layer.surface)
                } else {
                    FollowFocus::Nothing
                },
                (None, None) => FollowFocus::Nothing,
            },
        },
        Some(PointerTarget::Window(window)) => FollowFocus::ActivateWindow(window),
        Some(PointerTarget::LayerSurface(layer)) => if follows_pointer(layer) {
            FollowFocus::FocusLayer(layer.surface)
        } else {
            FollowFocus::Nothing
        },
    }
}

/// The constraint that a client put on the pointer.
#[derive(Clone, Copy, Debug, PartialEq, Eq, Structural)]
pub enum ConstraintKind {
    Locked,
    Confined,
}

/// The constraint of the surface under the pointer.
#[derive(Clone, Copy, Debug, PartialEq, Eq, Structural)]
pub struct Constraint {
    pub kind: ConstraintKind,
    pub active: bool,
    /// Whether the pointer is inside the region of the constraint, `None` without a region.
    pub inside: Option<bool>,
}

/// How a constraint holds the pointer back.
#[derive(Clone, Copy, Debug, PartialEq, Eq, Structural)]
pub enum Hold {
    Free,
    /// The pointer stays where it is.
    Locked,
    /// The pointer stays inside a region.
    Confined,
}

impl Constraint {
    /// Whether the constraint applies where the pointer is.
    pub open spec fn applies(self) -> bool {
        self.active && self.inside != Some(false)
    }

    /// How the constraint holds the pointer back. One that confines the pointer to no region does
    /// not hold it back at all.
    pub open spec fn spec_hold(self) -> Hold {
        if !self.applies() {
            Hold::Free
        } else {
            match self.kind {
                ConstraintKind::Locked => Hold::Locked,
                ConstraintKind::Confined => if self.inside is Some {
                    Hold::Confined
                } else {
                    Hold::Free
                },
            }
        }
    }
}

/// How the constraint under the pointer holds it back.
pub fn pointer_hold(constraint: Option<Constraint>) -> (hold: Hold)
    ensures
        hold == match constraint {
            Some(constraint) => constraint.spec_hold(),
            None => Hold::Free,
        },
{
    match constraint {
        Some(constraint) => {
            let outside = match constraint.inside {
                Some(inside) => !inside,
                None => false,
            };
            if !constraint.active || outside {
                return Hold::Free;
            }
            match constraint.kind {
                ConstraintKind::Locked => Hold::Locked,
                ConstraintKind::Confined => if constraint.inside.is_some() {
                    Hold::Confined
                } else {
                    Hold::Free
                },
            }
        },
        None => Hold::Free,
    }
}

/// Where the pointer would go.
#[derive(Clone, Copy, Debug, PartialEq, Eq, Structural)]
pub struct MotionTarget {
    /// Whether it is still over the surface that confines it.
    pub same_surface: bool,
    /// Whether it is still inside the region that confines it.
    pub in_region: bool,
}

/// Whether the pointer moves: one that is locked never does, and one that is confined only does
/// within its surface and region.
pub fn pointer_moves(hold: Hold, target: MotionTarget) -> (moves: bool)
    ensures
        moves == match hold {
            Hold::Free => true,
            Hold::Locked => false,
            Hold::Confined => target.same_surface && target.in_region,
        },
{
    match hold {
        Hold::Free => true,
        Hold::Locked => false,
        Hold::Confined => target.same_surface && target.in_region,
    }
}

/// The output that the pointer is on: the first of those that contain it.
pub fn output_under(contains: &[bool]) -> (r: Option<usize>)
    ensures
        contains@.contains(true) ==> r is Some,
        match r {
            Some(i) => i < contains@.len() && contains@[i as int] && forall|j: int|
                0 <= j < i ==> !#[trigger] contains@[j],
            None => forall|j: int| 0 <= j < contains@.len() ==> !#[trigger] contains@[j],
        },
{
    let mut i: usize = 0;
    while i < contains.len()
        invariant
            0 <= i <= contains.len(),
            forall|j: int| 0 <= j < i ==> !contains@[j],
        decreases contains.len() - i,
    {
        if contains[i] {
            return Some(i);
        }
        i += 1;
    }
    None
}

/// The output that is nearest to a pointer which left the outputs: the first of those with the
/// least distance. The distances go by numbers that are ordered as the distances are.
pub fn nearest_output(distances: &[i64]) -> (r: Option<usize>)
    ensures
        match r {
            Some(i) => {
                &&& i < distances@.len()
                &&& forall|j: int|
                    0 <= j < distances@.len() ==> distances@[i as int] <= #[trigger] distances@[j]
                &&& forall|j: int| 0 <= j < i ==> distances@[i as int] < #[trigger] distances@[j]
            },
            None => distances@.len() == 0,
        },
{
    if distances.len() == 0 {
        return None;
    }
    let mut best: usize = 0;
    let mut i: usize = 1;
    while i < distances.len()
        invariant
            1 <= i <= distances.len(),
            best < i,
            forall|j: int|
                0 <= j < i ==> distances@[best as int] <= #[trigger] distances@[j],
            forall|j: int| 0 <= j < best ==> distances@[best as int] < #[trigger] distances@[j],
        decreases distances.len() - i,
    {
        if distances[i] < distances[best] {
            best = i;
        }
        i += 1;
    }
    Some(best)
}

/// Which way a wheel was turned.
#[derive(Clone, Copy, Debug, PartialEq, Eq, Structural)]
pub enum WheelTurn {
    Positive,
    Zero,
    Negative,
}

/// A turn of a wheel, or the same with two fingers.
#[derive(Clone, Copy, Debug, PartialEq, Eq, Structural)]
pub struct AxisEvent {
    /// The steps of a wheel up or down, where it has steps.
    pub vertical_steps: Option<WheelTurn>,
    /// The steps of a wheel to the left or right, where it has steps.
    pub horizontal_steps: Option<WheelTurn>,
    /// Whether there is any movement up or down, with a wheel or without.
    pub vertical_moves: bool,
    /// Whether there is any movement to the left or right, with a wheel or without.
    pub horizontal_moves: bool,
    /// Whether it comes from fingers on a touchpad.
    pub finger: bool,
    /// Whether the device says that the movement up or down came to rest.
    pub vertical_rest: bool,
    /// Whether the device says that the movement to the left or right came to rest.
    pub horizontal_rest: bool,
    pub modifiers: u32,
}

/// What a client is told about one direction of an axis event.
#[derive(Clone, Copy, Debug, PartialEq, Eq, Structural)]
pub struct AxisPart {
    /// Whether the amount of the movement is part of the event.
    pub value: bool,
    /// Whether the steps of the wheel are part of the event.
    pub steps: bool,
    /// Whether the event says that the movement stopped.
    pub stop: bool,
}

/// What becomes of an axis event.
#[derive(Clone, Copy, Debug, PartialEq, Eq, Structural)]
pub enum AxisOutcome {
    /// The action is run, and no client gets the event.
    Run(MouseAction),
    /// The client gets these parts of the event.
    Forward { horizontal: AxisPart, vertical: AxisPart },
}

/// The input that turning the vertical wheel is.
pub open spec fn vertical_input(steps: Option<WheelTurn>) -> Option<MouseInput> {
    match steps {
        Some(WheelTurn::Positive) => Some(MouseInput::WheelUp),
        Some(WheelTurn::Negative) => Some(MouseInput::WheelDown),
        _ => None,
    }
}

/// The input that turning the horizontal wheel is.
pub open spec fn horizontal_input(steps: Option<WheelTurn>) -> Option<MouseInput> {
    match steps {
        Some(WheelTurn::Positive) => Some(MouseInput::WheelRight),
        Some(WheelTurn::Negative) => Some(MouseInput::WheelLeft),
        _ => None,
    }
}

/// The action that an input is bound to.
pub open spec fn input_action(
    mousebinds: Map<(u32, u64), MouseAction>,
    modifiers: u32,
    input: Option<MouseInput>,
) -> Option<MouseAction> {
    match input {
        Some(input) => mouse_action(mousebinds, MousePattern { modifiers, input }),
        None => None,
    }
}

impl AxisEvent {
    /// What becomes of the event: the vertical direction is looked up first.
    pub open spec fn outcome(self, mousebinds: Map<(u32, u64), MouseAction>) -> AxisOutcome {
        let vertical = input_action(
            mousebinds,
            self.modifiers,
            vertical_input(self.vertical_steps),
        );
        let horizontal = input_action(
            mousebinds,
            self.modifiers,
            horizontal_input(self.horizontal_steps),
        );
        match (vertical, horizontal) {
            (Some(action), _) => AxisOutcome::Run(action),
            (None, Some(action)) => AxisOutcome::Run(action),
            (None, None) => AxisOutcome::Forward {
                horizontal: AxisPart {
                    value: self.horizontal_moves,
                    steps: self.horizontal_moves && self.horizontal_steps is Some,
                    stop: self.finger && self.horizontal_rest,
                },
                vertical: AxisPart {
                    value: self.vertical_moves,
                    steps: self.vertical_moves && self.vertical_steps is Some,
                    stop: self.finger && self.vertical_rest,
                },
            },
        }
    }
}

fn bound_input(
    mousebinds: &MouseBinds,
    modifiers: u32,
    input: Option<MouseInput>,
) -> (r: Option<MouseAction>)
    ensures
        r == input_action(mousebinds_of(*mousebinds), modifiers, input),
{
    match input {
        Some(input) => find_mouse_action(mousebinds, MousePattern { modifiers, input }),
        None => None,
    }
}

/// Decide what becomes of an axis event: steps of a wheel that are bound to an action run it,
/// everything else goes to the client.
pub fn on_pointer_axis(mousebinds: &MouseBinds, event: AxisEvent) -> (r:
    AxisOutcome)
    ensures
        r == event.outcome(mousebinds_of(*mousebinds)),
{
    let vertical = match event.vertical_steps {
        Some(WheelTurn::Positive) => Some(MouseInput::WheelUp),
        Some(WheelTurn::Negative) => Some(MouseInput::WheelDown),
        _ => None,
    };
    if let Some(action) = bound_input(mousebinds, event.modifiers, vertical) {
        return AxisOutcome::Run(action);
    }
    let horizontal = match event.horizontal_steps {
        Some(WheelTurn::Positive) => Some(MouseInput::WheelRight),
        Some(WheelTurn::Negative) => Some(MouseInput::WheelLeft),
        _ => None,
    };
    if let Some(action) = bound_input(mousebinds, event.modifiers, horizontal) {
        return AxisOutcome::Run(action);
    }
    AxisOutcome::Forward {
        horizontal: AxisPart {
            value: event.horizontal_moves,
            steps: event.horizontal_moves && event.horizontal_steps.is_some(),
            stop: event.finger && event.horizontal_rest,
        },
        vertical: AxisPart {
            value: event.vertical_moves,
            steps: event.vertical_moves && event.vertical_steps.is_some(),
            stop: event.finger && event.vertical_rest,
        },
    }
}

/// What a mouse button sets off. `layer` is the layer surface under the pointer, `window` the
/// window there.
pub open spec fn button_outcome(
    mousebinds: Map<(u32, u64), MouseAction>,
    event: ButtonEvent,
    layer: Option<LayerSurface>,
    window: Option<u64>,
) -> ButtonOutcome {
    if !event.pressed || event.grabbed {
        ButtonOutcome { focus_layer: None, activate: None, action: None }
    } else {
        let over_layer = layer matches Some(l) && l.layer.spec_above_windows();
        ButtonOutcome {
            focus_layer: if over_layer {
                Some(layer->0.surface)
            } else {
                None
            },
            activate: if over_layer {
                None
            } else {
                window
            },
            action: match event.button {
                Some(button) => mouse_action(
                    mousebinds,
                    MousePattern { modifiers: event.modifiers, input: MouseInput::Button(button) },
                ),
                None => None,
            },
        }
    }
}

/// Decide what a mouse button sets off before the client gets it.
///
/// A press on a layer surface above the windows is noted as a click on it; any other press
/// activates the window under the pointer. Bound buttons run their action. Nothing of this
/// happens while something has the pointer to itself.
pub fn on_pointer_button(
    mousebinds: &MouseBinds,
    event: ButtonEvent,
    layer: Option<LayerSurface>,
    window: Option<u64>,
) -> (r: ButtonOutcome)
    ensures
        r == button_outcome(mousebinds_of(*mousebinds), event, layer, window),
{
    if !event.pressed || event.grabbed {
        return ButtonOutcome { focus_layer: None, activate: None, action: None };
    }
    let mut focus_layer = None;
    let mut activate = window;
    if let Some(l) = layer {
        if l.layer.above_windows() {
            focus_layer = Some(l.surface);
            activate = None;
        }
    }
    let action = match event.button {
        Some(button) => find_mouse_action(
            mousebinds,
            MousePattern { modifiers: event.modifiers, input: MouseInput::Button(button) },
        ),
        None => None,
    };
    ButtonOutcome { focus_layer, activate, action }
}

impl State {
    /// Decide how the focus follows the pointer.
    ///
    /// A layer surface above the windows gets the keyboard if it wants it on demand, as if the
    /// user had clicked on it. A window becomes active. For any other surface, `root` tells whose
    /// its root is; nothing happens as long as the root is not known.
    pub fn handle_focus_follows_mouse(
        &self,
        under: Option<PointerTarget>,
        root: Option<RootOwner>,
    ) -> (follow: FollowFocus)
        ensures
            follow == follow_focus(under, root),
    {
        match under {
            None => FollowFocus::Nothing,
            Some(PointerTarget::WlSurface(_)) => match root {
                None => FollowFocus::Nothing,
                Some(owner) => match (owner.window, owner.layer) {
                    (Some(window), _) => FollowFocus::FocusWindow(window),
                    (None, Some(layer)) => if layer.layer.above_windows() && layer.interactivity
                        == KeyboardInteractivity::OnDemand {
                        FollowFocus::FocusLayer(layer.surface)
                    } else {
                        FollowFocus::Nothing
                    },
                    (None, None) => FollowFocus::Nothing,
                },
            },
            Some(PointerTarget::Window(window)) => FollowFocus::ActivateWindow(window),
            Some(PointerTarget::LayerSurface(layer)) => if layer.layer.above_windows()
                && layer.interactivity == KeyboardInteractivity::OnDemand {
                FollowFocus::FocusLayer(layer.surface)
            } else {
                FollowFocus::Nothing
            },
        }
    }

    /// Move the pointer: all outputs are redrawn, and the focus follows the pointer if it is
    /// configured to and nothing has the pointer to itself.
    pub fn move_pointer(
        &mut self,
        under: Option<PointerTarget>,
        root: Option<RootOwner>,
        focus_follows_mouse: bool,
        grabbed: bool,
    ) -> (follow: FollowFocus)
        ensures
            follow == if focus_follows_mouse && !grabbed {
                follow_focus(under, root)
            } else {
                FollowFocus::Nothing
            },
            final(self).backend == old(self).backend,
            final(self).fht.same_but_outputs(&old(self).fht),
            final(self).fht.all_queued(&old(self).fht),
    {
        self.fht.queue_redraw_all();
        if focus_follows_mouse && !grabbed {
            self.handle_focus_follows_mouse(under, root)
        } else {
            FollowFocus::Nothing
        }
    }

    /// The pointer is put somewhere by a device that knows where: the focus follows the pointer
    /// if it is configured to and nothing has the pointer to itself.
    pub fn on_pointer_motion_absolute(
        &self,
        under: Option<PointerTarget>,
        root: Option<RootOwner>,
        focus_follows_mouse: bool,
        grabbed: bool,
    ) -> (follow: FollowFocus)
        ensures
            follow == if focus_follows_mouse && !grabbed {
                follow_focus(under, root)
            } else {
                FollowFocus::Nothing
            },
    {
        if focus_follows_mouse && !grabbed {
            self.handle_focus_follows_mouse(under, root)
        } else {
            FollowFocus::Nothing
        }
    }
}

/// What becomes of a pointer that is about to move.
#[derive(Clone, Copy, Debug, PartialEq, Eq, Structural)]
pub enum MotionStart {
    /// The pointer is held where it is: clients are only told how far it would have moved.
    Locked,
    /// The pointer goes where it was moved to, confined to the region of a client or not.
    Free { confined: bool },
    /// The pointer goes to the nearest position on the output with this index.
    Clamp { output: usize, confined: bool },
}

/// What becomes of a pointer that moved.
#[derive(Clone, Copy, Debug, PartialEq, Eq, Structural)]
pub enum MotionOutcome {
    /// The pointer stays where it was, since a client holds it in a region.
    Stay,
    /// The pointer moves, and the focus follows it.
    Move(FollowFocus),
}

/// Whether the pointer is on all outputs at once, or there are none.
pub open spec fn on_all_outputs(contains: Seq<bool>) -> bool {
    forall|i: int| 0 <= i < contains.len() ==> #[trigger] contains[i]
}

/// How the constraint under the pointer holds it back.
pub open spec fn constraint_hold(constraint: Option<Constraint>) -> Hold {
    match constraint {
        Some(constraint) => constraint.spec_hold(),
        None => Hold::Free,
    }
}

impl State {
    /// Decide where the pointer goes when it is moved.
    ///
    /// `contains` tells of each output whether the new position is on it, and `distances` how far
    /// the nearest position on it is, by numbers that are ordered as the distances are. A
    /// position that is not on all outputs is moved to the nearest one, in case there are gaps
    /// between the outputs; that changes nothing where it is on one of them.
    pub fn on_pointer_motion(
        &self,
        constraint: Option<Constraint>,
        contains: &[bool],
        distances: &[i64],
    ) -> (start: MotionStart)
        requires
            contains@.len() == distances@.len(),
        ensures
            match start {
                MotionStart::Locked => constraint_hold(constraint) == Hold::Locked,
                MotionStart::Free { confined } => {
                    &&& constraint_hold(constraint) != Hold::Locked
                    &&& confined == (constraint_hold(constraint) == Hold::Confined)
                    &&& on_all_outputs(contains@)
                },
                MotionStart::Clamp { output, confined } => {
                    &&& constraint_hold(constraint) != Hold::Locked
                    &&& confined == (constraint_hold(constraint) == Hold::Confined)
                    &&& !on_all_outputs(contains@)
                    &&& output < distances@.len()
                    &&& forall|j: int|
                        0 <= j < distances@.len() ==> distances@[output as int]
                            <= #[trigger] distances@[j]
                    &&& forall|j: int|
                        0 <= j < output ==> distances@[output as int] < #[trigger] distances@[j]
                },
            },
    {
        let hold = pointer_hold(constraint);
        if let Hold::Locked = hold {
            return MotionStart::Locked;
        }
        let confined = match hold {
            Hold::Confined => true,
            _ => false,
        };
        let mut inside = true;
        let mut i: usize = 0;
        while i < contains.len()
            invariant
                0 <= i <= contains.len(),
                inside <==> forall|j: int| 0 <= j < i ==> #[trigger] contains@[j],
            decreases contains.len() - i,
        {
            if !contains[i] {
                inside = false;
            }
            i += 1;
        }
        if inside {
            return MotionStart::Free { confined };
        }
        match nearest_output(distances) {
            Some(output) => MotionStart::Clamp { output, confined },
            None => MotionStart::Free { confined },
        }
    }

    /// Finish moving the pointer: the output that it is on gets the focus, and the pointer moves
    /// unless it would leave the region that it is confined to.
    pub fn finish_pointer_motion(
        &mut self,
        output: Option<u64>,
        confined: bool,
        target: MotionTarget,
        under: Option<PointerTarget>,
        root: Option<RootOwner>,
        follows: bool,
    ) -> (outcome: MotionOutcome)
        ensures
            final(self).backend == old(self).backend,
            final(self).fht == (Fht {
                active_output: match output {
                    Some(output) => output,
                    None => old(self).fht.active_output,
                },
                ..old(self).fht
            }),
            outcome == if confined && !(target.same_surface && target.in_region) {
                MotionOutcome::Stay
            } else {
                MotionOutcome::Move(
                    if follows {
                        follow_focus(under, root)
                    } else {
                        FollowFocus::Nothing
                    },
                )
            },
    {
        if let Some(output) = output {
            self.fht.active_output = output;
        }
        let hold = if confined {
            Hold::Confined
        } else {
            Hold::Free
        };
        if !pointer_moves(hold, target) {
            return MotionOutcome::Stay;
        }
        if follows {
            MotionOutcome::Move(self.handle_focus_follows_mouse(under, root))
        } else {
            MotionOutcome::Move(FollowFocus::Nothing)
        }
    }
}

/// A bound step of a wheel is never seen by a client, and an unbound one always is.
pub proof fn bound_steps_are_intercepted(
    event: AxisEvent,
    mousebinds: Map<(u32, u64), MouseAction>,
)
    ensures
        event.outcome(mousebinds) is Run <==> {
            ||| input_action(mousebinds, event.modifiers, vertical_input(event.vertical_steps)) is
                Some
            ||| input_action(
                mousebinds,
                event.modifiers,
                horizontal_input(event.horizontal_steps),
            ) is Some
        },
{
}

/// A constraint that is not active, or whose region the pointer is not in, does not hold the
/// pointer back.
pub proof fn constraints_hold_inside_only(constraint: Constraint)
    requires
        !constraint.active || constraint.inside == Some(false),
    ensures
        constraint.spec_hold() == Hold::Free,
{
}

/// A pattern of the mouse does what it is bound to, with exactly these modifiers and this input.
pub proof fn bound_patterns_are_found(
    mousebinds: &MouseBinds,
    pattern: MousePattern,
    found: Option<MouseAction>,
)
    requires
        call_ensures(find_mouse_action, (mousebinds, pattern), found),
    ensures
        ({
            let code: u64 = match pattern.input {
                MouseInput::Button(button) => button as u64,
                MouseInput::WheelUp => 0x1_0000_0000,
                MouseInput::WheelDown => 0x1_0000_0001,
                MouseInput::WheelLeft => 0x1_0000_0002,
                MouseInput::WheelRight => 0x1_0000_0003,
            };
            let binds = mousebinds_of(*mousebinds);
            &&& found is Some <==> binds.dom().contains((pattern.modifiers, code))
            &&& found matches Some(action) ==> action == binds[(pattern.modifiers, code)]
        }),
{
}

/// A press on a layer surface above the windows is a click on that surface; any other press
/// activates the window under the pointer. The button runs what it is bound to with the modifiers
/// that are held. Releases, and presses while something has the pointer to itself, do nothing.
pub proof fn presses_click_on_what_is_under_them(
    mousebinds: &MouseBinds,
    event: ButtonEvent,
    layer: Option<LayerSurface>,
    window: Option<u64>,
    outcome: ButtonOutcome,
)
    requires
        call_ensures(on_pointer_button, (mousebinds, event, layer, window), outcome),
    ensures
        !event.pressed || event.grabbed ==> outcome.focus_layer is None && outcome.activate is None
            && outcome.action is None,
        event.pressed && !event.grabbed ==> {
            let above = layer is Some && (layer->0.layer is Top || layer->0.layer is Overlay);
            &&& above ==> outcome.focus_layer == Some(layer->0.surface) && outcome.activate is None
            &&& !above ==> outcome.focus_layer is None && outcome.activate == window
            &&& event.button is None ==> outcome.action is None
        },
{
}

/// The button of a press is looked up with the modifiers that are held.
pub proof fn bound_buttons_run_their_action(
    mousebinds: &MouseBinds,
    event: ButtonEvent,
    layer: Option<LayerSurface>,
    window: Option<u64>,
    outcome: ButtonOutcome,
    button: u32,
    found: Option<MouseAction>,
)
    requires
        event.pressed,
        !event.grabbed,
        event.button == Some(button),
        call_ensures(on_pointer_button, (mousebinds, event, layer, window), outcome),
        call_ensures(
            find_mouse_action,
            (
                mousebinds,
                MousePattern { modifiers: event.modifiers, input: MouseInput::Button(button) },
            ),
            found,
        ),
    ensures
        outcome.action == found,
{
}

/// A step of a wheel that is bound runs its action, the vertical wheel before the horizontal one:
/// turning it up is a positive step, and so is turning it to the right.
pub proof fn wheel_steps_run_their_action(
    mousebinds: &MouseBinds,
    event: AxisEvent,
    outcome: AxisOutcome,
    up: Option<MouseAction>,
    down: Option<MouseAction>,
    left: Option<MouseAction>,
    right: Option<MouseAction>,
)
    requires
        call_ensures(on_pointer_axis, (mousebinds, event), outcome),
        call_ensures(
            find_mouse_action,
            (mousebinds, MousePattern { modifiers: event.modifiers, input: MouseInput::WheelUp }),
            up,
        ),
        call_ensures(
            find_mouse_action,
            (mousebinds, MousePattern { modifiers: event.modifiers, input: MouseInput::WheelDown }),
            down,
        ),
        call_ensures(
            find_mouse_action,
            (mousebinds, MousePattern { modifiers: event.modifiers, input: MouseInput::WheelLeft }),
            left,
        ),
        call_ensures(
            find_mouse_action,
            (mousebinds, MousePattern { modifiers: event.modifiers, input: MouseInput::WheelRight }),
            right,
        ),
    ensures
        ({
            let vertical = match event.vertical_steps {
                Some(WheelTurn::Positive) => up,
                Some(WheelTurn::Negative) => down,
                _ => None,
            };
            let horizontal = match event.horizontal_steps {
                Some(WheelTurn::Positive) => right,
                Some(WheelTurn::Negative) => left,
                _ => None,
            };
            &&& vertical matches Some(action) ==> outcome == AxisOutcome::Run(action)
            &&& vertical is None && horizontal is Some ==> outcome == AxisOutcome::Run(
                horizontal->0,
            )
            &&& vertical is None && horizontal is None ==> outcome is Forward
        }),
{
}

/// What is not bound goes to the client: each direction that moves, with its steps if it has any,
/// and that fingers came to rest. Nothing else is told.
pub proof fn unbound_steps_go_to_the_client(
    mousebinds: &MouseBinds,
    event: AxisEvent,
    horizontal: AxisPart,
    vertical: AxisPart,
)
    requires
        call_ensures(
            on_pointer_axis,
            (mousebinds, event),
            AxisOutcome::Forward { horizontal, vertical },
        ),
    ensures
        vertical.value <==> event.vertical_moves,
        horizontal.value <==> event.horizontal_moves,
        vertical.steps <==> event.vertical_moves && event.vertical_steps is Some,
        horizontal.steps <==> event.horizontal_moves && event.horizontal_steps is Some,
        vertical.stop <==> event.finger && event.vertical_rest,
        horizontal.stop <==> event.finger && event.horizontal_rest,
{
}

/// A constraint holds the pointer only while it is active and the pointer is in its region: a lock
/// keeps it where it is, a confinement needs a region to keep it in.
pub proof fn active_constraints_hold_the_pointer(constraint: Option<Constraint>, hold: Hold)
    requires
        call_ensures(pointer_hold, (constraint,), hold),
    ensures
        constraint is None ==> hold is Free,
        constraint matches Some(c) ==> {
            &&& !c.active || c.inside == Some(false) ==> hold is Free
            &&& c.active && c.inside != Some(false) && c.kind is Locked ==> hold is Locked
            &&& c.active && c.inside == Some(true) && c.kind is Confined ==> hold is Confined
            &&& c.active && c.inside is None && c.kind is Confined ==> hold is Free
        },
{
}

/// A locked pointer never moves, a confined one moves inside of its surface and region, and any
/// other one always does.
pub proof fn held_pointers_stay(hold: Hold, target: MotionTarget, moves: bool)
    requires
        call_ensures(pointer_moves, (hold, target), moves),
    ensures
        hold is Locked ==> !moves,
        hold is Free ==> moves,
        hold is Confined ==> (moves <==> target.same_surface && target.in_region),
{
}

/// The pointer is on the first output that contains it, and on none if none does.
pub proof fn pointers_are_on_the_first_output(contains: &[bool], output: Option<usize>, i: int)
    requires
        call_ensures(output_under, (contains,), output),
        0 <= i < contains@.len(),
        contains@[i],
    ensures
        output matches Some(k) && k <= i && contains@[k as int],
{
    assert(contains@[i] == true);
    assert(contains@.contains(true));
}

/// A pointer that left the outputs goes to the nearest one.
pub proof fn stray_pointers_go_to_the_nearest_output(
    distances: &[i64],
    output: Option<usize>,
    i: int,
)
    requires
        call_ensures(nearest_output, (distances,), output),
        0 <= i < distances@.len(),
    ensures
        output matches Some(k) && k < distances@.len() && distances@[k as int] <= distances@[i] && (
        distances@[k as int] == distances@[i] ==> k <= i),
{
    if let Some(k) = output {
        if i < k {
            assert(distances@[k as int] < distances@[i]);
        }
    }
}

/// Where a pointer goes that is moved: nowhere while it is locked. Else it goes where it was moved to
/// if that is on all outputs, and to the nearest output if it is not; a confinement is kept in mind.
pub proof fn moved_pointers_stay_on_outputs(
    state: &State,
    constraint: Option<Constraint>,
    contains: &[bool],
    distances: &[i64],
    start: MotionStart,
    hold: Hold,
    i: int,
)
    requires
        contains@.len() == distances@.len(),
        call_ensures(State::on_pointer_motion, (state, constraint, contains, distances), start),
        call_ensures(pointer_hold, (constraint,), hold),
        0 <= i < contains@.len(),
    ensures
        hold is Locked <==> start is Locked,
        !contains@[i] && !(hold is Locked) ==> start is Clamp,
        start matches MotionStart::Free { confined } ==> contains@[i] && (confined <==> hold is
            Confined),
        start matches MotionStart::Clamp { output, confined } ==> (confined <==> hold is Confined)
            && output < distances@.len() && distances@[output as int] <= distances@[i],
{
    assert(call_requires(State::on_pointer_motion, (state, constraint, contains, distances)));
}

/// The output that the pointer is on gets the focus, whether the pointer moves or not. A confined
/// pointer does not leave its surface or region.
pub proof fn pointers_focus_their_output(
    state: &mut State,
    output: Option<u64>,
    confined: bool,
    target: MotionTarget,
    under: Option<PointerTarget>,
    root: Option<RootOwner>,
    follows: bool,
    outcome: MotionOutcome,
    follow: FollowFocus,
)
    requires
        call_ensures(
            State::finish_pointer_motion,
            (state, output, confined, target, under, root, follows),
            outcome,
        ),
        call_ensures(State::handle_focus_follows_mouse, (&*old(state), under, root), follow),
    ensures
        output matches Some(on) ==> final(state).fht.active_output == on,
        output is None ==> final(state).fht.active_output == old(state).fht.active_output,
        outcome is Stay <==> confined && !(target.same_surface && target.in_region),
        outcome matches MotionOutcome::Move(followed) ==> followed == (if follows {
            follow
        } else {
            FollowFocus::Nothing
        }),
        final(state).fht.outputs == old(state).fht.outputs,
{
}

/// The focus follows the pointer onto windows, and onto layer surfaces above the windows that take
/// the keyboard on demand; a surface that belongs to one of those counts as that, its window
/// first. Nothing else takes the focus.
pub proof fn focus_follows_the_pointer(
    state: &State,
    under: Option<PointerTarget>,
    root: Option<RootOwner>,
    follow: FollowFocus,
)
    requires
        call_ensures(State::handle_focus_follows_mouse, (state, under, root), follow),
    ensures
        under is None ==> follow is Nothing,
        under matches Some(PointerTarget::Window(window)) ==> follow
            == FollowFocus::ActivateWindow(window),
        under matches Some(PointerTarget::LayerSurface(layer)) ==> if (layer.layer is Top
            || layer.layer is Overlay) && layer.interactivity is OnDemand {
            follow == FollowFocus::FocusLayer(layer.surface)
        } else {
            follow is Nothing
        },
        under matches Some(PointerTarget::WlSurface(_)) ==> match root {
            None => follow is Nothing,
            Some(owner) => {
                &&& owner.window matches Some(window) ==> follow == FollowFocus::FocusWindow(window)
                &&& owner.window is None && owner.layer is None ==> follow is Nothing
                &&& owner.window is None && owner.layer is Some ==> if (owner.layer->0.layer is Top
                    || owner.layer->0.layer is Overlay) && owner.layer->0.interactivity is OnDemand {
                    follow == FollowFocus::FocusLayer(owner.layer->0.surface)
                } else {
                    follow is Nothing
                }
            },
        },
{
}

/// The focus follows the pointer only if that is configured and nothing has the pointer to itself,
/// however the pointer is moved; a pointer that moves has all outputs redrawn.
pub proof fn focus_follows_free_pointers(
    state: &mut State,
    under: Option<PointerTarget>,
    root: Option<RootOwner>,
    configured: bool,
    grabbed: bool,
    moved: FollowFocus,
    put: FollowFocus,
    follow: FollowFocus,
)
    requires
        call_ensures(State::move_pointer, (state, under, root, configured, grabbed), moved),
        call_ensures(
            State::on_pointer_motion_absolute,
            (&*old(state), under, root, configured, grabbed),
            put,
        ),
        call_ensures(State::handle_focus_follows_mouse, (&*old(state), under, root), follow),
    ensures
        configured && !grabbed ==> moved == follow && put == follow,
        !configured || grabbed ==> moved is Nothing && put is Nothing,
        draws_all(old(state).fht.outputs@, final(state).fht.outputs@),
        final(state).fht.active_output == old(state).fht.active_output,
{
    lemma_draws_all(old(state).fht, final(state).fht);
}

} // verus!
