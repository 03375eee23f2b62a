//! Input from the user.
use vstd::prelude::*;

pub mod actions;
pub mod gesture;
pub mod keyboard;
pub mod pick_surface_grab;
pub mod pointer;
pub mod tablet;

use crate::state::{draws_all, lemma_draws_all, Fht, State};

verus! {

/// What an input device did.
#[derive(Clone, Copy, Debug, PartialEq, Eq, Structural)]
pub enum InputEvent {
    DeviceAdded,
    DeviceRemoved,
    Keyboard { pressed: bool },
    PointerMotion,
    PointerMotionAbsolute,
    PointerButton { pressed: bool },
    PointerAxis,
    TouchDown,
    TouchMotion,
    TouchUp,
    TouchCancel,
    TouchFrame,
    TabletToolAxis,
    TabletToolProximity,
    TabletToolTip,
    TabletToolButton,
    GestureSwipeBegin,
    GestureSwipeUpdate,
    GestureSwipeEnd,
    GesturePinchBegin,
    GesturePinchUpdate,
    GesturePinchEnd,
    GestureHoldBegin,
    GestureHoldEnd,
    SwitchToggle,
    Special,
}

/// What any input sets off, apart from what it is bound to.
#[derive(Clone, Copy, Debug, PartialEq, Eq, Structural)]
pub struct InputReaction {
    /// Whether clients are told that the user is there.
    pub notify_activity: bool,
    /// Whether outputs that were turned off are turned on again.
    pub enable_outputs: bool,
}

/// Whether an event turns on outputs that were turned off. The end of something never does: if
/// the user turned the outputs off with a key, releasing it must not turn them on again.
pub open spec fn turns_on_outputs(event: InputEvent) -> bool {
    match event {
        InputEvent::Keyboard { pressed } => pressed,
        InputEvent::PointerButton { pressed } => pressed,
        InputEvent::DeviceAdded
        | InputEvent::PointerMotion
        | InputEvent::PointerMotionAbsolute
        | InputEvent::PointerAxis
        | InputEvent::GestureSwipeBegin
        | InputEvent::GesturePinchBegin
        | InputEvent::GestureHoldBegin
        | InputEvent::TouchDown
        | InputEvent::TouchMotion
        | InputEvent::TabletToolAxis
        | InputEvent::TabletToolProximity
        | InputEvent::TabletToolTip
        | InputEvent::TabletToolButton => true,
        _ => false,
    }
}

impl State {
    /// React to any input: the user is there, outputs may have to be turned on, and everything is
    /// redrawn.
    pub fn process_input_event(&mut self, event: InputEvent) -> (reaction: InputReaction)
        ensures
            reaction == (InputReaction {
                notify_activity: !old(self).fht.notified_idle_state,
                enable_outputs: turns_on_outputs(event),
            }),
            final(self).backend == old(self).backend,
            final(self).fht == (Fht {
                notified_idle_state: true,
                outputs: final(self).fht.outputs,
                ..old(self).fht
            }),
            final(self).fht.all_queued(&old(self).fht),
    {
        let notify_activity = self.fht.idle_notify_activity();
        let enable_outputs = match event {
            InputEvent::Keyboard { pressed } => pressed,
            InputEvent::PointerButton { pressed } => pressed,
            InputEvent::DeviceAdded => true,
            InputEvent::PointerMotion => true,
            InputEvent::PointerMotionAbsolute => true,
            InputEvent::PointerAxis => true,
            InputEvent::GestureSwipeBegin => true,
            InputEvent::GesturePinchBegin => true,
            InputEvent::GestureHoldBegin => true,
            InputEvent::TouchDown => true,
            InputEvent::TouchMotion => true,
            InputEvent::TabletToolAxis => true,
            InputEvent::TabletToolProximity => true,
            InputEvent::TabletToolTip => true,
            InputEvent::TabletToolButton => true,
            _ => false,
        };
        self.fht.queue_redraw_all();
        InputReaction { notify_activity, enable_outputs }
    }
}

/// Letting go of a key or a button never turns on outputs.
pub proof fn releases_keep_outputs_off()
    ensures
        !turns_on_outputs(InputEvent::Keyboard { pressed: false }),
        !turns_on_outputs(InputEvent::PointerButton { pressed: false }),
        !turns_on_outputs(InputEvent::DeviceRemoved),
        !turns_on_outputs(InputEvent::GestureSwipeEnd),
        !turns_on_outputs(InputEvent::GesturePinchEnd),
        !turns_on_outputs(InputEvent::GestureHoldEnd),
{
}

/// Any input shows that the user is there, which clients are told once in a dispatch cycle, and has
/// all outputs redrawn. Pressing, touching or moving something turns on outputs that were turned
/// off; letting go of something, or ending it, does not.
pub proof fn input_shows_that_the_user_is_there(
    state: &mut State,
    event: InputEvent,
    reaction: InputReaction,
)
    requires
        call_ensures(State::process_input_event, (state, event), reaction),
    ensures
        reaction.notify_activity <==> !old(state).fht.notified_idle_state,
        final(state).fht.notified_idle_state,
        draws_all(old(state).fht.outputs@, final(state).fht.outputs@),
        event matches InputEvent::Keyboard { pressed } ==> (reaction.enable_outputs <==> pressed),
        event matches InputEvent::PointerButton { pressed } ==> (reaction.enable_outputs
            <==> pressed),
        event is PointerMotion || event is PointerMotionAbsolute || event is PointerAxis || event is
            TouchDown || event is TouchMotion || event is DeviceAdded ==> reaction.enable_outputs,
        event is GestureSwipeBegin || event is GesturePinchBegin || event is GestureHoldBegin
            || event is TabletToolAxis || event is TabletToolProximity || event is TabletToolTip
            || event is TabletToolButton ==> reaction.enable_outputs,
        event is DeviceRemoved || event is TouchUp || event is TouchCancel || event is TouchFrame
            || event is GestureSwipeUpdate || event is GestureSwipeEnd || event is
            GesturePinchUpdate || event is GesturePinchEnd || event is GestureHoldEnd || event is
            SwitchToggle || event is Special ==> !reaction.enable_outputs,
{
    lemma_draws_all(old(state).fht, final(state).fht);
}

} // verus!
