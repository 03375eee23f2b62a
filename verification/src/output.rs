//! The redraw cycle of an output.
use vstd::prelude::*;

use crate::frame_clock::{ClockState, FrameClock};
use crate::time::Duration;

verus! {

/// Where an output stands in its redraw cycle.
#[derive(Clone, Copy, Debug, PartialEq, Eq, Structural)]
pub enum RedrawState {
    /// There is nothing to draw.
    Idle,
    /// A redraw happens in the next dispatch cycle.
    Queued,
    /// A frame was handed to the display, which has not shown it yet.
    WaitingForVblank {
        /// Whether to redraw once the frame is shown.
        queued: bool,
    },
    /// Nothing had changed, so a timer stands in for the display.
    WaitingForEstimatedVblankTimer {
        /// The registration of the timer in the event loop.
        token: u64,
        /// Whether to redraw once the timer fires.
        queued: bool,
    },
}

impl RedrawState {
    /// Whether a redraw is due, now or at the end of the wait.
    pub open spec fn pending(self) -> bool {
        match self {
            RedrawState::Idle => false,
            RedrawState::Queued => true,
            RedrawState::WaitingForVblank { queued } => queued,
            RedrawState::WaitingForEstimatedVblankTimer { queued, .. } => queued,
        }
    }

    /// The state after asking for a redraw.
    pub open spec fn after_queue(self) -> RedrawState {
        match self {
            RedrawState::Idle | RedrawState::Queued => RedrawState::Queued,
            RedrawState::WaitingForVblank { .. } => RedrawState::WaitingForVblank { queued: true },
            RedrawState::WaitingForEstimatedVblankTimer { token, .. } =>
                RedrawState::WaitingForEstimatedVblankTimer { token, queued: true },
        }
    }

    /// Ask for a redraw: at once where the output is free, else at the end of the wait.
    pub fn queue(&mut self)
        ensures
            *final(self) == old(self).after_queue(),
    {
        *self = match *self {
            RedrawState::Idle => RedrawState::Queued,
            RedrawState::Queued => RedrawState::Queued,
            RedrawState::WaitingForVblank { .. } => RedrawState::WaitingForVblank { queued: true },
            RedrawState::WaitingForEstimatedVblankTimer { token, .. } =>
                RedrawState::WaitingForEstimatedVblankTimer { token, queued: true },
        };
    }
}

/// What is left to do for an output once its state has been updated.
#[derive(Clone, Copy, Debug, PartialEq, Eq, Structural)]
pub enum FrameEffect {
    Nothing,
    /// Queue a redraw of the output.
    QueueRedraw,
    /// Send frame callbacks to the clients on the output.
    SendFrames,
}

/// The time that the kernel attached to a vblank event.
#[derive(Clone, Copy, Debug)]
pub enum DrmEventTime {
    Monotonic(Duration),
    Realtime,
}

/// What clients are told about a frame that was shown.
#[derive(Clone, Copy, Debug)]
pub struct Presentation {
    pub time: Duration,
    /// The refresh interval, zero where it is not known.
    pub refresh: Duration,
    pub sequence: u64,
    /// Whether `time` was read from the clock of the display hardware.
    pub hw_clock: bool,
}

/// The outcome of a vblank event.
#[derive(Clone, Copy, Debug)]
pub struct Vblank {
    /// When the frame was shown.
    pub presentation_time: Duration,
    /// What to tell the clients whose buffers the frame showed.
    pub presentation: Presentation,
    pub effect: FrameEffect,
}

/// How drawing one frame ended, as far as the display is concerned.
#[derive(Clone, Copy, Debug, PartialEq, Eq, Structural)]
pub enum FrameOutcome {
    /// The frame was queued for the next vblank.
    Submitted,
    /// There was no damage, or the frame could not be queued.
    NotSubmitted,
}

/// What to do with the event loop after drawing a frame.
#[derive(Clone, Copy, Debug)]
pub enum AfterRender {
    /// The frame is on its way: remove the timer `cancel` if there is one, and report that there
    /// was something to draw.
    WaitForVblank { cancel: Option<u64> },
    /// The timer that is already running stands in for the display.
    KeepTimer,
    /// Start a timer of this length and hand its token to [`OutputState::timer_started`].
    StartTimer(Duration),
}

/// The redraw bookkeeping of an output.
#[derive(Debug)]
pub struct OutputState {
    pub redraw_state: RedrawState,
    pub frame_clock: FrameClock,
    /// Counts the frames that were shown, around the range of the type.
    pub current_frame_sequence: u32,
    /// Whether something on the output is being animated.
    pub animations_running: bool,
}

/// The frame sequence number after `n`.
pub open spec fn next_sequence(n: u32) -> u32 {
    if n == u32::MAX {
        0
    } else {
        (n + 1) as u32
    }
}

/// The span until an estimated vblank: up to the target time, or a whole refresh interval where
/// the target is not in the future.
pub open spec fn timer_span(target: nat, now: nat, interval: nat) -> nat {
    if target > now {
        (target - now) as nat
    } else {
        interval
    }
}

/// The time at which a frame counts as shown.
pub open spec fn shown_at(time: DrmEventTime, now: nat) -> nat {
    match time {
        DrmEventTime::Monotonic(tp) => tp@,
        DrmEventTime::Realtime => now,
    }
}

/// The redraw state once the timer that stood in for a vblank fired: a redraw that was asked for
/// happens, and so does one for a running animation.
pub open spec fn after_timer(state: RedrawState, animations: bool) -> RedrawState {
    if state.pending() || animations {
        RedrawState::Queued
    } else {
        RedrawState::Idle
    }
}

/// What is left to do once the timer that stood in for a vblank fired: a redraw sends frame
/// callbacks itself, without one they are sent right away.
pub open spec fn timer_effect(state: RedrawState, animations: bool) -> FrameEffect {
    if state.pending() || animations {
        FrameEffect::Nothing
    } else {
        FrameEffect::SendFrames
    }
}

/// What is left to do once a frame was shown: a redraw that was asked for, or that a running
/// animation needs, else frame callbacks.
pub open spec fn vblank_effect(state: RedrawState, animations: bool) -> FrameEffect {
    if state.pending() || animations {
        FrameEffect::QueueRedraw
    } else {
        FrameEffect::SendFrames
    }
}

impl OutputState {
    /// Everything but the redraw state and the frame counter is as in `other`.
    pub open spec fn same_setup(self, other: OutputState) -> bool {
        self.frame_clock == other.frame_clock && self.animations_running == other.animations_running
    }

    /// Everything is as in `before`, but the clock starts over with another interval.
    pub open spec fn has_new_clock(self, before: OutputState, interval: nat, vrr: bool) -> bool {
        &&& self.redraw_state == before.redraw_state
        &&& self.current_frame_sequence == before.current_frame_sequence
        &&& self.animations_running == before.animations_running
        &&& self.frame_clock@ == (ClockState { interval: Some(interval), last: None, vrr })
    }

    /// Whether a frame that ended with `outcome` leads from this state to `new` with `after` left
    /// to do.
    pub open spec fn finished(
        self,
        new: OutputState,
        outcome: FrameOutcome,
        target: nat,
        now: nat,
        after: AfterRender,
    ) -> bool {
        &&& new.same_setup(self)
        &&& match (outcome, self.redraw_state) {
            (FrameOutcome::Submitted, state) => {
                &&& new.redraw_state == RedrawState::WaitingForVblank { queued: false }
                &&& new.current_frame_sequence == next_sequence(self.current_frame_sequence)
                &&& after == (AfterRender::WaitForVblank {
                    cancel: if state is WaitingForEstimatedVblankTimer {
                        Some(state->token)
                    } else {
                        None
                    },
                })
            },
            (
                FrameOutcome::NotSubmitted,
                RedrawState::WaitingForEstimatedVblankTimer { token, .. },
            ) => {
                &&& new.redraw_state == (RedrawState::WaitingForEstimatedVblankTimer {
                    token,
                    queued: false,
                })
                &&& new.current_frame_sequence == self.current_frame_sequence
                &&& after == AfterRender::KeepTimer
            },
            (FrameOutcome::NotSubmitted, _) => {
                &&& new.redraw_state == RedrawState::Idle
                &&& new.current_frame_sequence == self.current_frame_sequence
                &&& after matches AfterRender::StartTimer(span) && span@ == timer_span(
                    target,
                    now,
                    self.frame_clock@.interval->0,
                )
            },
        }
    }

    /// Whether a frame that ended with `outcome` can be finished: a redraw was due, the output is
    /// not waiting for a vblank, and its refresh interval is known where the target time passed.
    pub open spec fn can_finish(self, outcome: FrameOutcome, target: nat, now: nat) -> bool {
        match outcome {
            FrameOutcome::Submitted => self.redraw_state.pending() && !(self.redraw_state is
                WaitingForVblank),
            FrameOutcome::NotSubmitted => {
                ||| self.redraw_state is WaitingForEstimatedVblankTimer
                ||| self.redraw_state is Queued && (target <= now ==> self.frame_clock@.interval is
                    Some)
            },
        }
    }

    /// A new output draws nothing until it is asked to.
    pub fn new(frame_clock: FrameClock) -> (state: OutputState)
        ensures
            state.redraw_state == RedrawState::Idle,
            state.frame_clock == frame_clock,
            state.current_frame_sequence == 0,
            !state.animations_running,
    {
        OutputState {
            redraw_state: RedrawState::Idle,
            frame_clock,
            current_frame_sequence: 0,
            animations_running: false,
        }
    }

    /// The display uses another mode, with the given refresh interval: the clock starts over.
    pub fn mode_applied(&mut self, refresh_interval: Duration, vrr: bool)
        requires
            0 < refresh_interval@ <= u64::MAX,
        ensures
            final(self).redraw_state == old(self).redraw_state,
            final(self).current_frame_sequence == old(self).current_frame_sequence,
            final(self).animations_running == old(self).animations_running,
            final(self).frame_clock@ == (ClockState {
                interval: Some(refresh_interval@),
                last: None,
                vrr,
            }),
    {
        self.frame_clock = FrameClock::new(Some(refresh_interval), vrr);
    }

    /// Advance the redraw cycle after a frame was drawn for a DRM surface.
    ///
    /// A submitted frame waits for its vblank; a timer that was running in its place is given
    /// back to be removed. Otherwise a timer stands in for the display, so that clients still get
    /// their frame callbacks: the running one where there is one, else a new one that reaches to
    /// `target`, or over one refresh interval where `target` is not after `now`.
    pub fn finish_render(
        &mut self,
        outcome: FrameOutcome,
        target: Duration,
        now: Duration,
    ) -> (after: AfterRender)
        requires
            old(self).can_finish(outcome, target@, now@),
        ensures
            old(self).finished(*final(self), outcome, target@, now@, after),
    {
        let state = self.redraw_state;
        match outcome {
            FrameOutcome::Submitted => {
                self.redraw_state = RedrawState::WaitingForVblank { queued: false };
                self.current_frame_sequence = self.current_frame_sequence.wrapping_add(1);
                let cancel = match state {
                    RedrawState::WaitingForEstimatedVblankTimer { token, .. } => Some(token),
                    _ => None,
                };
                AfterRender::WaitForVblank { cancel }
            },
            FrameOutcome::NotSubmitted => {
                if let RedrawState::WaitingForEstimatedVblankTimer { token, .. } = state {
                    self.redraw_state =
                    RedrawState::WaitingForEstimatedVblankTimer { token, queued: false };
                    return AfterRender::KeepTimer;
                }
                self.redraw_state = RedrawState::Idle;
                let span = target.saturating_sub(&now);
                if span.is_zero() {
                    if let Some(interval) = self.frame_clock.refresh_interval() {
                        return AfterRender::StartTimer(interval);
                    }
                }
                AfterRender::StartTimer(span)
            },
        }
    }

    /// Note the timer that was started in place of a vblank.
    pub fn timer_started(&mut self, token: u64)
        ensures
            final(self).same_setup(*old(self)),
            final(self).current_frame_sequence == old(self).current_frame_sequence,
            final(self).redraw_state == (RedrawState::WaitingForEstimatedVblankTimer {
                token,
                queued: false,
            }),
    {
        self.redraw_state = RedrawState::WaitingForEstimatedVblankTimer { token, queued: false };
    }

    /// The timer that stood in for a vblank fired.
    ///
    /// A redraw that was asked for in the meantime sends the frame callbacks itself. Otherwise a
    /// running animation queues a redraw, and without one the callbacks are sent right away.
    pub fn estimated_vblank(&mut self) -> (effect: FrameEffect)
        requires
            old(self).redraw_state is WaitingForEstimatedVblankTimer,
        ensures
            final(self).same_setup(*old(self)),
            final(self).current_frame_sequence == next_sequence(old(self).current_frame_sequence),
            final(self).redraw_state == after_timer(
                old(self).redraw_state,
                old(self).animations_running,
            ),
            effect == timer_effect(old(self).redraw_state, old(self).animations_running),
    {
        self.current_frame_sequence = self.current_frame_sequence.wrapping_add(1);
        let state = self.redraw_state;
        self.redraw_state = RedrawState::Idle;
        if let RedrawState::WaitingForEstimatedVblankTimer { queued, .. } = state {
            if queued {
                self.redraw_state = RedrawState::Queued;
                return FrameEffect::Nothing;
            }
        }
        if self.animations_running {
            self.redraw_state.queue();
            FrameEffect::Nothing
        } else {
            FrameEffect::SendFrames
        }
    }

    /// The display showed the frame that was waiting for it.
    ///
    /// The frame clock learns the time of the event where the kernel took it from the monotonic
    /// clock, and `now` otherwise. Clients are told the same time, except that a zero time means
    /// that the hardware gave none, and `now` is reported without the hardware clock flag.
    pub fn vblank(&mut self, now: Duration, time: DrmEventTime, sequence: u32) -> (v: Vblank)
        requires
            old(self).redraw_state is WaitingForVblank,
        ensures
            final(self).redraw_state == RedrawState::Idle,
            final(self).current_frame_sequence == old(self).current_frame_sequence,
            final(self).animations_running == old(self).animations_running,
            final(self).frame_clock@ == (ClockState {
                last: Some(shown_at(time, now@)),
                ..old(self).frame_clock@
            }),
            v.presentation_time@ == shown_at(time, now@),
            v.presentation.hw_clock == (shown_at(time, now@) != 0),
            v.presentation.time@ == if shown_at(time, now@) == 0 {
                now@
            } else {
                shown_at(time, now@)
            },
            v.presentation.sequence == sequence,
            v.presentation.refresh@ == match old(self).frame_clock@.interval {
                Some(interval) => interval,
                None => 0,
            },
            v.effect == vblank_effect(old(self).redraw_state, old(self).animations_running),
    {
        let queued = match self.redraw_state {
            RedrawState::WaitingForVblank { queued } => queued,
            _ => false,
        };
        self.redraw_state = RedrawState::Idle;
        let presentation_time = match time {
            DrmEventTime::Monotonic(tp) => tp,
            DrmEventTime::Realtime => now,
        };
        let refresh = match self.frame_clock.refresh_interval() {
            Some(interval) => interval,
            None => Duration::zero(),
        };
        let hw_clock = !presentation_time.is_zero();
        let presentation = Presentation {
            time: if hw_clock {
                presentation_time
            } else {
                now
            },
            refresh,
            sequence: sequence as u64,
            hw_clock,
        };
        self.frame_clock.present(presentation_time);
        let effect = if queued || self.animations_running {
            FrameEffect::QueueRedraw
        } else {
            FrameEffect::SendFrames
        };
        Vblank { presentation_time, presentation, effect }
    }
}

/// Asking for a redraw twice is the same as asking once, and the request is then pending.
pub proof fn queue_is_idempotent(state: RedrawState)
    ensures
        state.after_queue().after_queue() == state.after_queue(),
        state.after_queue().pending(),
{
}

/// Asking for a redraw never interrupts a wait: the output goes on waiting for the same thing.
pub proof fn queue_keeps_the_wait(state: RedrawState)
    ensures
        state is WaitingForVblank <==> state.after_queue() is WaitingForVblank,
        state is WaitingForEstimatedVblankTimer <==> state.after_queue() is
            WaitingForEstimatedVblankTimer,
        state is WaitingForEstimatedVblankTimer ==> state->token == state.after_queue()->token,
{
}

/// Something that happens to an output between two frames.
pub ghost enum RedrawEvent {
    /// A redraw is asked for.
    Requested,
    /// The frame that was waited for was shown.
    Shown { animations: bool },
    /// The timer that stands in for the display fired.
    TimerFired { animations: bool },
}

impl RedrawEvent {
    /// Whether the event can happen in a state.
    pub open spec fn possible(self, state: RedrawState) -> bool {
        match self {
            RedrawEvent::Requested => true,
            RedrawEvent::Shown { .. } => state is WaitingForVblank,
            RedrawEvent::TimerFired { .. } => state is WaitingForEstimatedVblankTimer,
        }
    }

    /// The state after the event, with all that is left to do about it done.
    pub open spec fn after(self, state: RedrawState) -> RedrawState {
        match self {
            RedrawEvent::Requested => state.after_queue(),
            RedrawEvent::Shown { animations } => if vblank_effect(state, animations)
                == FrameEffect::QueueRedraw {
                RedrawState::Idle.after_queue()
            } else {
                RedrawState::Idle
            },
            RedrawEvent::TimerFired { animations } => after_timer(state, animations),
        }
    }
}

/// The state after several events.
pub open spec fn after_events(state: RedrawState, events: Seq<RedrawEvent>) -> RedrawState
    decreases events.len(),
{
    if events.len() == 0 {
        state
    } else {
        events.last().after(after_events(state, events.drop_last()))
    }
}

/// Whether events can happen one after the other.
pub open spec fn all_possible(state: RedrawState, events: Seq<RedrawEvent>) -> bool {
    forall|i: int|
        0 <= i < events.len() ==> (#[trigger] events[i]).possible(
            after_events(state, events.take(i)),
        )
}

/// A redraw that was asked for is never lost: whatever happens until the next frame is drawn, it
/// stays due.
pub proof fn requested_redraws_stay_due(state: RedrawState, events: Seq<RedrawEvent>)
    requires
        state.pending(),
        all_possible(state, events),
    ensures
        after_events(state, events).pending(),
    decreases events.len(),
{
    if events.len() > 0 {
        let front = events.drop_last();
        assert forall|i: int| 0 <= i < front.len() implies (#[trigger] front[i]).possible(
            after_events(state, front.take(i)),
        ) by {
            assert(front.take(i) =~= events.take(i));
            assert(events[i] == front[i]);
        }
        requested_redraws_stay_due(state, front);
        assert(events.take(events.len() - 1) =~= front);
        assert(events[events.len() - 1].possible(after_events(state, front)));
    }
}

/// A redraw that is due when the wait ends happens at once: the output is then not waiting for
/// anything.
pub proof fn due_redraws_happen_after_the_wait(state: RedrawState, event: RedrawEvent)
    requires
        state.pending(),
        !(event is Requested),
        event.possible(state),
    ensures
        event.after(state) == RedrawState::Queued,
{
}

/// Clients always get their frame callbacks: when a wait ends, either a redraw is due, which sends
/// them, or they are sent right away.
pub proof fn frame_callbacks_are_sent(state: RedrawState, animations: bool)
    ensures
        after_timer(state, animations).pending() != (timer_effect(state, animations)
            == FrameEffect::SendFrames),
        (vblank_effect(state, animations) == FrameEffect::QueueRedraw) != (vblank_effect(
            state,
            animations,
        ) == FrameEffect::SendFrames),
{
}

/// Asking for a redraw of a free output makes it due at once; on one that waits, it is due at the
/// end of the wait, which goes on as before.
pub proof fn redraws_are_asked_for(state: &mut RedrawState)
    requires
        call_ensures(RedrawState::queue, (state,), ()),
    ensures
        *old(state) is Idle || *old(state) is Queued ==> *final(state) is Queued,
        *old(state) is WaitingForVblank ==> *final(state) == (RedrawState::WaitingForVblank {
            queued: true,
        }),
        *old(state) matches RedrawState::WaitingForEstimatedVblankTimer { token, .. } ==> *final(
            state
        ) == (RedrawState::WaitingForEstimatedVblankTimer { token, queued: true }),
{
}

/// A frame that was submitted is waited for, is counted, and takes the place of the timer that ran
/// in its stead, if one did: that is the timer to cancel. The clock and the animations stay.
pub proof fn submitted_frames_are_waited_for(
    state: &mut OutputState,
    target: Duration,
    now: Duration,
    after: AfterRender,
)
    requires
        old(state).redraw_state is Queued || (old(
            state,
        ).redraw_state matches RedrawState::WaitingForEstimatedVblankTimer { queued, .. } && queued),
        call_ensures(
            OutputState::finish_render,
            (state, FrameOutcome::Submitted, target, now),
            after,
        ),
    ensures
        final(state).redraw_state == (RedrawState::WaitingForVblank { queued: false }),
        old(state).current_frame_sequence < u32::MAX ==> final(state).current_frame_sequence == old(
            state,
        ).current_frame_sequence + 1,
        old(state).current_frame_sequence == u32::MAX ==> final(state).current_frame_sequence == 0,
        match old(state).redraw_state {
            RedrawState::WaitingForEstimatedVblankTimer { token, .. } => after
                == (AfterRender::WaitForVblank { cancel: Some(token) }),
            _ => after == (AfterRender::WaitForVblank { cancel: None }),
        },
        final(state).frame_clock == old(state).frame_clock,
        final(state).animations_running == old(state).animations_running,
{
    assert(call_requires(
        OutputState::finish_render,
        (state, FrameOutcome::Submitted, target, now),
    ));
}

/// Without a frame on its way, a timer stands in for the display. It is the one that runs, if there
/// is one; else a new one ends at the time for which the frame was drawn, or after one interval
/// if that time has come. No frame is counted.
pub proof fn timers_stand_in_for_frames(
    state: &mut OutputState,
    target: Duration,
    now: Duration,
    after: AfterRender,
)
    requires
        old(state).redraw_state is WaitingForEstimatedVblankTimer || old(state).redraw_state is
            Queued,
        target@ <= now@ ==> old(state).frame_clock@.interval is Some,
        call_ensures(
            OutputState::finish_render,
            (state, FrameOutcome::NotSubmitted, target, now),
            after,
        ),
    ensures
        final(state).current_frame_sequence == old(state).current_frame_sequence,
        final(state).frame_clock == old(state).frame_clock,
        final(state).animations_running == old(state).animations_running,
        match old(state).redraw_state {
            RedrawState::WaitingForEstimatedVblankTimer { token, .. } => after is KeepTimer
                && final(state).redraw_state == (RedrawState::WaitingForEstimatedVblankTimer {
                token,
                queued: false,
            }),
            _ => final(state).redraw_state is Idle && after is StartTimer && (target@ > now@
                ==> now@ + after->StartTimer_0@ == target@) && (target@ <= now@
                ==> after->StartTimer_0@ == old(state).frame_clock@.interval->0),
        },
{
    assert(call_requires(
        OutputState::finish_render,
        (state, FrameOutcome::NotSubmitted, target, now),
    ));
}

/// A timer that was started is waited for, with no redraw due yet.
pub proof fn started_timers_are_waited_for(state: &mut OutputState, token: u64)
    requires
        call_ensures(OutputState::timer_started, (state, token), ()),
    ensures
        final(state).redraw_state == (RedrawState::WaitingForEstimatedVblankTimer {
            token,
            queued: false,
        }),
        final(state).current_frame_sequence == old(state).current_frame_sequence,
        final(state).frame_clock == old(state).frame_clock,
        final(state).animations_running == old(state).animations_running,
{
}

/// When the timer fires, the output is drawn if that was asked for or something is animated, and
/// else the clients get their frame callbacks. It counts as a frame either way.
pub proof fn timers_end_the_wait(state: &mut OutputState, effect: FrameEffect)
    requires
        old(state).redraw_state is WaitingForEstimatedVblankTimer,
        call_ensures(OutputState::estimated_vblank, (state,), effect),
    ensures
        old(state).redraw_state->WaitingForEstimatedVblankTimer_queued || old(
            state,
        ).animations_running ==> final(state).redraw_state is Queued && effect is Nothing,
        !old(state).redraw_state->WaitingForEstimatedVblankTimer_queued && !old(
            state,
        ).animations_running ==> final(state).redraw_state is Idle && effect is SendFrames,
        old(state).current_frame_sequence < u32::MAX ==> final(state).current_frame_sequence == old(
            state,
        ).current_frame_sequence + 1,
        old(state).current_frame_sequence == u32::MAX ==> final(state).current_frame_sequence == 0,
        final(state).frame_clock == old(state).frame_clock,
        final(state).animations_running == old(state).animations_running,
{
    assert(call_requires(OutputState::estimated_vblank, (state,)));
}

/// When a frame was shown, the clock goes on from the time that the display tells, or from now if
/// it tells none, and clients are told that time, the interval and the number of the frame. The
/// output is drawn again if that was asked for or something is animated, and else the clients get
/// their frame callbacks.
pub proof fn shown_frames_end_the_wait(
    state: &mut OutputState,
    now: Duration,
    time: DrmEventTime,
    sequence: u32,
    vblank: Vblank,
)
    requires
        old(state).redraw_state is WaitingForVblank,
        call_ensures(OutputState::vblank, (state, now, time, sequence), vblank),
    ensures
        final(state).redraw_state is Idle,
        old(state).redraw_state->WaitingForVblank_queued || old(state).animations_running
            ==> vblank.effect is QueueRedraw,
        !old(state).redraw_state->WaitingForVblank_queued && !old(state).animations_running
            ==> vblank.effect is SendFrames,
        final(state).frame_clock@.last == Some(vblank.presentation_time@),
        final(state).frame_clock@.interval == old(state).frame_clock@.interval,
        final(state).frame_clock@.vrr == old(state).frame_clock@.vrr,
        final(state).current_frame_sequence == old(state).current_frame_sequence,
        final(state).animations_running == old(state).animations_running,
        time is Realtime ==> vblank.presentation_time@ == now@,
        time matches DrmEventTime::Monotonic(shown) ==> vblank.presentation_time@ == shown@,
        vblank.presentation_time@ > 0 ==> vblank.presentation.hw_clock
            && vblank.presentation.time@ == vblank.presentation_time@,
        vblank.presentation_time@ == 0 ==> !vblank.presentation.hw_clock
            && vblank.presentation.time@ == now@,
        vblank.presentation.sequence == sequence,
        old(state).frame_clock@.interval matches Some(interval) ==> vblank.presentation.refresh@
            == interval,
        old(state).frame_clock@.interval is None ==> vblank.presentation.refresh@ == 0,
{
    assert(call_requires(OutputState::vblank, (state, now, time, sequence)));
}

/// A mode that is in effect has its own interval: the clock has that, and presented nothing yet.
/// What was due before stays due.
pub proof fn modes_start_the_clock_over(state: &mut OutputState, interval: Duration, vrr: bool)
    requires
        0 < interval@ <= u64::MAX,
        call_ensures(OutputState::mode_applied, (state, interval, vrr), ()),
    ensures
        final(state).frame_clock@.interval == Some(interval@),
        final(state).frame_clock@.last is None,
        final(state).frame_clock@.vrr == vrr,
        final(state).redraw_state == old(state).redraw_state,
        final(state).current_frame_sequence == old(state).current_frame_sequence,
        final(state).animations_running == old(state).animations_running,
{
    assert(call_requires(OutputState::mode_applied, (state, interval, vrr)));
}

/// A new output waits for nothing, has drawn nothing, and has nothing to draw.
pub proof fn new_outputs_are_idle(clock: FrameClock, state: OutputState)
    requires
        call_ensures(OutputState::new, (clock,), state),
    ensures
        state.redraw_state is Idle,
        state.frame_clock == clock,
        state.current_frame_sequence == 0,
        !state.animations_running,
{
}

} // verus!
