//! A backend without a screen.
use vstd::prelude::*;
use vstd::string::*;

use super::{OutputMode, VirtualOutput, VIRTUAL_REFRESH};
use crate::backend::udev::connector::Subpixel;
use crate::config::output::OutputTransform;
use crate::output::{next_sequence, OutputState, RedrawState};

verus! {

/// The headless backend, which has a single output.
#[derive(Debug)]
pub struct HeadlessData {
    pub output: u64,
}

impl HeadlessData {
    /// The backend, and the output that stands in for a screen.
    pub fn new(output: u64) -> (r: (HeadlessData, VirtualOutput))
        ensures
            r.0.output == output,
            r.1.name@ == "headless-0"@,
            r.1.make@ == "fht-compositor"@,
            r.1.model@ == "headless-output"@,
            r.1.subpixel == Subpixel::NoGeometry,
            r.1.mode == (OutputMode { width: 1920, height: 1080, refresh: VIRTUAL_REFRESH }),
            r.1.transform == Some(OutputTransform::Normal),
            r.1.scale == Some(1i32),
            r.1.location == Some((0i32, 0i32)),
    {
        (
            HeadlessData { output },
            VirtualOutput {
                name: "headless-0".to_string(),
                make: "fht-compositor".to_string(),
                model: "headless-output".to_string(),
                subpixel: Subpixel::NoGeometry,
                mode: OutputMode { width: 1920, height: 1080, refresh: VIRTUAL_REFRESH },
                transform: Some(OutputTransform::Normal),
                scale: Some(1),
                location: Some((0, 0)),
            },
        )
    }

    /// Count a frame as shown. A running animation queues the next one right away. The frame is
    /// always reported as drawn.
    pub fn render(&mut self, state: &mut OutputState) -> (drawn: bool)
        requires
            old(state).redraw_state == RedrawState::Queued,
        ensures
            drawn,
            *final(self) == *old(self),
            final(state).same_setup(*old(state)),
            final(state).current_frame_sequence == next_sequence(old(state).current_frame_sequence),
            final(state).redraw_state == if old(state).animations_running {
                RedrawState::Queued
            } else {
                RedrawState::Idle
            },
    {
        state.current_frame_sequence = state.current_frame_sequence.wrapping_add(1);
        state.redraw_state = if state.animations_running {
            RedrawState::Queued
        } else {
            RedrawState::Idle
        };
        true
    }
}

/// Without a screen every frame counts as drawn, and an animation draws on at once.
pub proof fn frames_without_a_screen_are_counted(
    data: &mut HeadlessData,
    state: &mut OutputState,
    drawn: bool,
)
    requires
        old(state).redraw_state is Queued,
        call_ensures(HeadlessData::render, (data, state), drawn),
    ensures
        drawn,
        old(state).animations_running ==> final(state).redraw_state is Queued,
        !old(state).animations_running ==> final(state).redraw_state is Idle,
        old(state).current_frame_sequence < u32::MAX ==> final(state).current_frame_sequence
            == old(state).current_frame_sequence + 1,
        old(state).current_frame_sequence == u32::MAX ==> final(state).current_frame_sequence == 0,
        final(state).frame_clock == old(state).frame_clock,
        final(data).output == old(data).output,
{
    assert(call_requires(HeadlessData::render, (data, state)));
}

/// The output without a screen is a full high definition one of sixty hertz at the origin.
pub proof fn outputs_without_a_screen_have_a_mode(output: u64, made: (HeadlessData, VirtualOutput))
    requires
        call_ensures(HeadlessData::new, (output,), made),
    ensures
        made.0.output == output,
        made.1.name@ == "headless-0"@,
        made.1.mode.width == 1920,
        made.1.mode.height == 1080,
        made.1.mode.refresh == 60_000,
        made.1.location == Some((0i32, 0i32)),
        made.1.scale == Some(1i32),
{
}

} // verus!
