//! A backend that runs in a window of another compositor.
use vstd::prelude::*;
use vstd::string::*;

use super::{OutputMode, VirtualOutput, VIRTUAL_REFRESH};
use crate::backend::udev::connector::Subpixel;
use crate::backend::udev::RenderError;
use crate::config::keybind::Fraction;
use crate::config::output::OutputTransform;
use crate::output::{next_sequence, OutputState, RedrawState};

verus! {

/// The winit backend, which has a single output.
#[derive(Debug)]
pub struct WinitData {
    pub output: u64,
    /// The mode of the output, which follows the size of the window.
    pub mode: OutputMode,
}

/// What happened to the window.
#[derive(Clone, Copy, Debug, PartialEq, Eq, Structural)]
pub enum WinitEvent {
    /// The window has another size, or is shown at another scale.
    Resized { width: i32, height: i32, scale: Fraction },
    Input,
    CloseRequested,
    Redraw,
    Focus,
}

/// What an event of the window calls for.
#[derive(Clone, Copy, Debug, PartialEq, Eq, Structural)]
pub enum WinitAction {
    Nothing,
    /// Replace the mode `old` of the output by `new`, set its scale, and arrange the output anew.
    ChangeMode { old: OutputMode, new: OutputMode, scale: Fraction },
    /// Process the input event.
    ProcessInput,
    /// Stop the compositor.
    Stop,
    /// Queue a redraw of the output.
    QueueRedraw(u64),
}

/// How clients share buffers.
#[derive(Clone, Copy, Debug, PartialEq, Eq, Structural)]
pub enum DmabufVersion {
    /// With feedback from the given device.
    Feedback(u64),
    /// With a plain list of formats.
    Formats,
}

/// What a drawn frame calls for.
#[derive(Clone, Copy, Debug, PartialEq, Eq, Structural)]
pub struct WinitFrame {
    pub drawn: bool,
    /// Whether to submit the damage and tell clients that their buffers were shown.
    pub submit: bool,
    /// Whether to ask for another redraw at once.
    pub request_redraw: bool,
}

impl WinitData {
    /// The backend for a window of the given size, and its output.
    pub fn new(output: u64, width: i32, height: i32) -> (r: (WinitData, VirtualOutput))
        ensures
            r.0.output == output,
            r.0.mode == (OutputMode { width, height, refresh: VIRTUAL_REFRESH }),
            r.1.name@ == "winit-0"@,
            r.1.make@ == "winit"@,
            r.1.model@ == "window"@,
            r.1.subpixel == Subpixel::Unknown,
            r.1.mode == r.0.mode,
            r.1.transform == Some(OutputTransform::Flipped180),
            r.1.scale == Some(1i32),
            r.1.location is None,
    {
        let mode = OutputMode { width, height, refresh: VIRTUAL_REFRESH };
        (
            WinitData { output, mode },
            VirtualOutput {
                name: "winit-0".to_string(),
                make: "winit".to_string(),
                model: "window".to_string(),
                subpixel: Subpixel::Unknown,
                mode,
                transform: Some(OutputTransform::Flipped180),
                scale: Some(1),
                location: None,
            },
        )
    }

    /// How clients share buffers: with feedback where the render node is known. `None` stands for
    /// a query that failed or found nothing.
    pub fn dmabuf_version(render_node: Option<u64>) -> (version: DmabufVersion)
        ensures
            version == match render_node {
                Some(node) => DmabufVersion::Feedback(node),
                None => DmabufVersion::Formats,
            },
    {
        match render_node {
            Some(node) => DmabufVersion::Feedback(node),
            None => DmabufVersion::Formats,
        }
    }

    /// React to an event of the window.
    pub fn handle_event(&mut self, event: WinitEvent) -> (action: WinitAction)
        ensures
            final(self).output == old(self).output,
            final(self).mode == match event {
                WinitEvent::Resized { width, height, .. } => OutputMode {
                    width,
                    height,
                    refresh: VIRTUAL_REFRESH,
                },
                _ => old(self).mode,
            },
            action == match event {
                WinitEvent::Resized { scale, .. } => WinitAction::ChangeMode {
                    old: old(self).mode,
                    new: final(self).mode,
                    scale,
                },
                WinitEvent::Input => WinitAction::ProcessInput,
                WinitEvent::CloseRequested => WinitAction::Stop,
                WinitEvent::Redraw => WinitAction::QueueRedraw(old(self).output),
                WinitEvent::Focus => WinitAction::Nothing,
            },
    {
        match event {
            WinitEvent::Resized { width, height, scale } => {
                let old_mode = self.mode;
                self.mode = OutputMode { width, height, refresh: VIRTUAL_REFRESH };
                WinitAction::ChangeMode { old: old_mode, new: self.mode, scale }
            },
            WinitEvent::Input => WinitAction::ProcessInput,
            WinitEvent::CloseRequested => WinitAction::Stop,
            WinitEvent::Redraw => WinitAction::QueueRedraw(self.output),
            WinitEvent::Focus => WinitAction::Nothing,
        }
    }

    /// Count a frame as shown; `damage` tells whether anything changed, and is absent where the
    /// window could not be drawn into, which leaves the output as it is. A running animation asks
    /// the window for another redraw.
    pub fn render(&mut self, state: &mut OutputState, damage: Option<bool>) -> (r: Result<
        WinitFrame,
        RenderError,
    >)
        requires
            damage is Some ==> old(state).redraw_state == RedrawState::Queued,
        ensures
            *final(self) == *old(self),
            match damage {
                Some(damage) => {
                    &&& final(state).same_setup(*old(state))
                    &&& final(state).redraw_state == RedrawState::Idle
                    &&& final(state).current_frame_sequence == next_sequence(
                        old(state).current_frame_sequence,
                    )
                    &&& r == Ok::<WinitFrame, RenderError>(
                        WinitFrame {
                            drawn: damage,
                            submit: damage,
                            request_redraw: old(state).animations_running,
                        },
                    )
                },
                None => {
                    &&& *final(state) == *old(state)
                    &&& r == Err::<WinitFrame, RenderError>(RenderError::BindFailed)
                },
            },
    {
        match damage {
            Some(damage) => {
                state.redraw_state = RedrawState::Idle;
                state.current_frame_sequence = state.current_frame_sequence.wrapping_add(1);
                Ok(
                    WinitFrame {
                        drawn: damage,
                        submit: damage,
                        request_redraw: state.animations_running,
                    },
                )
            },
            None => Err(RenderError::BindFailed),
        }
    }
}

/// The output in a window has the size of the window: resizing it replaces the mode by one of that
/// size. Input is processed, a redraw is queued on the output, and closing the window stops the
/// compositor; nothing but resizing changes the mode.
pub proof fn windows_drive_their_output(
    data: &mut WinitData,
    event: WinitEvent,
    action: WinitAction,
)
    requires
        call_ensures(WinitData::handle_event, (data, event), action),
    ensures
        final(data).output == old(data).output,
        match event {
            WinitEvent::Resized { width, height, scale } => final(data).mode.width == width
                && final(data).mode.height == height && final(data).mode.refresh == 60_000
                && action == (WinitAction::ChangeMode {
                old: old(data).mode,
                new: final(data).mode,
                scale,
            }),
            WinitEvent::Input => action is ProcessInput && final(data).mode == old(data).mode,
            WinitEvent::CloseRequested => action is Stop && final(data).mode == old(data).mode,
            WinitEvent::Redraw => action == WinitAction::QueueRedraw(old(data).output) && final(
                data
            ).mode == old(data).mode,
            WinitEvent::Focus => action is Nothing && final(data).mode == old(data).mode,
        },
{
}

/// A frame in a window is submitted if anything changed. The output is free again either way, and an
/// animation asks for the next redraw. A frame that could not be drawn leaves everything as it is.
pub proof fn frames_in_a_window_are_counted(
    data: &mut WinitData,
    state: &mut OutputState,
    damage: Option<bool>,
    frame: Result<WinitFrame, RenderError>,
)
    requires
        damage is Some ==> old(state).redraw_state is Queued,
        call_ensures(WinitData::render, (data, state, damage), frame),
    ensures
        damage is None ==> frame == Err::<WinitFrame, RenderError>(RenderError::BindFailed)
            && *final(state) == *old(state),
        damage matches Some(changed) ==> {
            &&& frame is Ok
            &&& frame->Ok_0.drawn == changed
            &&& frame->Ok_0.submit == changed
            &&& frame->Ok_0.request_redraw == old(state).animations_running
            &&& final(state).redraw_state is Idle
            &&& final(state).frame_clock == old(state).frame_clock
            &&& old(state).current_frame_sequence < u32::MAX ==> final(state).current_frame_sequence
                == old(state).current_frame_sequence + 1
        },
{
    assert(call_requires(WinitData::render, (data, state, damage)));
}

/// The first mode of the window is of its size, upside down, and clients share buffers with feedback
/// from the render node where there is one.
pub proof fn windows_start_with_their_size(
    output: u64,
    width: i32,
    height: i32,
    made: (WinitData, VirtualOutput),
    node: Option<u64>,
    version: DmabufVersion,
)
    requires
        call_ensures(WinitData::new, (output, width, height), made),
        call_ensures(WinitData::dmabuf_version, (node,), version),
    ensures
        made.0.output == output,
        made.0.mode == made.1.mode,
        made.1.mode.width == width,
        made.1.mode.height == height,
        made.1.mode.refresh == 60_000,
        made.1.name@ == "winit-0"@,
        made.1.transform == Some(OutputTransform::Flipped180),
        node matches Some(node) ==> version == DmabufVersion::Feedback(node),
        node is None ==> version is Formats,
{
}

} // verus!
