use fht_compositor::frame_clock::FrameClock;
use fht_compositor::output::{
    AfterRender, DrmEventTime, FrameEffect, FrameOutcome, OutputState, RedrawState,
};
use fht_compositor::time::Duration;

fn ms(n: u64) -> Duration {
    Duration::from_millis(n)
}

fn nanos(d: Duration) -> u128 {
    d.as_secs() as u128 * 1_000_000_000 + d.subsec_nanos() as u128
}

#[test]
fn durations_add_and_subtract() {
    let a = Duration::new(1, 900_000_000);
    let b = Duration::new(0, 200_000_000);
    assert_eq!(nanos(a.plus(&b)), 2_100_000_000);
    assert_eq!(nanos(a.minus(&b)), 1_700_000_000);
    assert_eq!(nanos(Duration::new(2, 100).minus(&b)), 1_800_000_100);
    assert!(b.checked_sub(&a).is_none());
    assert!(b.saturating_sub(&a).is_zero());
    assert!(Duration::new(u64::MAX, 0).checked_add(&Duration::from_secs(1)).is_none());
    assert!(Duration::new(u64::MAX, 999_999_999).checked_add(&Duration::from_nanos(1)).is_none());
    assert!(b.le(&a) && !a.le(&b) && a.le(&a));
    assert_eq!(Duration::from_nanos(2_000_000_007), Duration::new(2, 7));
    assert_eq!(Duration::from_millis(1_250), Duration::new(1, 250_000_000));
}

#[test]
fn clock_without_interval_presents_now() {
    let mut clock = FrameClock::new(None, false);
    assert!(clock.refresh_interval().is_none());
    assert_eq!(clock.next_presentation_time(ms(5)), ms(5));
    clock.present(ms(7));
    assert_eq!(clock.next_presentation_time(ms(9)), ms(9));
}

#[test]
fn clock_predicts_next_cycle() {
    let mut clock = FrameClock::new(Some(ms(10)), false);
    assert_eq!(clock.refresh_interval(), Some(ms(10)));
    assert_eq!(clock.next_presentation_time(ms(3)), ms(3));
    clock.present(ms(100));
    assert_eq!(clock.next_presentation_time(ms(101)), ms(110));
    assert_eq!(clock.next_presentation_time(ms(110)), ms(120));
    assert_eq!(clock.next_presentation_time(ms(125)), ms(130));
    // A reading that is not past the last presentation moves on by one interval.
    assert_eq!(clock.next_presentation_time(ms(100)), ms(120));
    assert_eq!(clock.next_presentation_time(ms(95)), ms(110));
}

#[test]
fn clock_with_vrr_presents_at_once_after_a_missed_cycle() {
    let mut clock = FrameClock::new(Some(ms(10)), true);
    clock.present(ms(100));
    assert_eq!(clock.next_presentation_time(ms(104)), ms(110));
    assert_eq!(clock.next_presentation_time(ms(125)), ms(125));
}

#[test]
fn changing_vrr_forgets_the_last_presentation() {
    let mut clock = FrameClock::new(Some(ms(10)), false);
    clock.present(ms(100));
    clock.set_vrr(false);
    assert_eq!(clock.next_presentation_time(ms(101)), ms(110));
    clock.set_vrr(true);
    assert_eq!(clock.next_presentation_time(ms(101)), ms(101));
}

#[test]
fn long_intervals_count_in_full() {
    let clock = FrameClock::new(Some(Duration::new(3, 16_666_667)), false);
    assert_eq!(clock.refresh_interval(), Some(Duration::new(3, 16_666_667)));
    let mut clock = FrameClock::new(Some(ms(1500)), false);
    assert_eq!(clock.refresh_interval(), Some(ms(1500)));
    clock.present(ms(100));
    assert_eq!(clock.next_presentation_time(ms(200)), ms(1600));
    assert_eq!(clock.next_presentation_time(ms(1600)), ms(3100));
    let clock = FrameClock::new(Some(Duration::from_secs(1)), false);
    assert_eq!(clock.refresh_interval(), Some(Duration::from_secs(1)));
}

fn state(redraw_state: RedrawState, animations_running: bool) -> OutputState {
    let mut s = OutputState::new(FrameClock::new(Some(ms(10)), false));
    s.redraw_state = redraw_state;
    s.animations_running = animations_running;
    s
}

#[test]
fn queueing_redraws() {
    let mut s = RedrawState::Idle;
    s.queue();
    assert_eq!(s, RedrawState::Queued);
    s.queue();
    assert_eq!(s, RedrawState::Queued);
    let mut s = RedrawState::WaitingForVblank { queued: false };
    s.queue();
    assert_eq!(s, RedrawState::WaitingForVblank { queued: true });
    let mut s = RedrawState::WaitingForEstimatedVblankTimer { token: 4, queued: false };
    s.queue();
    assert_eq!(s, RedrawState::WaitingForEstimatedVblankTimer { token: 4, queued: true });
}

#[test]
fn submitted_frame_waits_for_vblank() {
    let mut s = state(RedrawState::Queued, false);
    s.current_frame_sequence = u32::MAX;
    let after = s.finish_render(FrameOutcome::Submitted, ms(20), ms(10));
    assert!(matches!(after, AfterRender::WaitForVblank { cancel: None }));
    assert_eq!(s.redraw_state, RedrawState::WaitingForVblank { queued: false });
    assert_eq!(s.current_frame_sequence, 0);

    let mut s = state(
        RedrawState::WaitingForEstimatedVblankTimer { token: 9, queued: true },
        false,
    );
    let after = s.finish_render(FrameOutcome::Submitted, ms(20), ms(10));
    assert!(matches!(after, AfterRender::WaitForVblank { cancel: Some(9) }));
}

#[test]
fn frame_without_damage_starts_a_timer() {
    let mut s = state(RedrawState::Queued, false);
    match s.finish_render(FrameOutcome::NotSubmitted, ms(25), ms(10)) {
        AfterRender::StartTimer(d) => assert_eq!(d, ms(15)),
        other => panic!("unexpected {other:?}"),
    }
    assert_eq!(s.redraw_state, RedrawState::Idle);
    s.timer_started(3);
    assert_eq!(
        s.redraw_state,
        RedrawState::WaitingForEstimatedVblankTimer { token: 3, queued: false }
    );
    // A target in the past waits for one interval.
    let mut s = state(RedrawState::Queued, false);
    match s.finish_render(FrameOutcome::NotSubmitted, ms(10), ms(10)) {
        AfterRender::StartTimer(d) => assert_eq!(d, ms(10)),
        other => panic!("unexpected {other:?}"),
    }
    // A running timer is kept.
    let mut s = state(
        RedrawState::WaitingForEstimatedVblankTimer { token: 5, queued: true },
        false,
    );
    let after = s.finish_render(FrameOutcome::NotSubmitted, ms(25), ms(10));
    assert!(matches!(after, AfterRender::KeepTimer));
    assert_eq!(
        s.redraw_state,
        RedrawState::WaitingForEstimatedVblankTimer { token: 5, queued: false }
    );
}

#[test]
fn estimated_vblank_sends_frames_or_redraws() {
    let waiting = |queued| RedrawState::WaitingForEstimatedVblankTimer { token: 1, queued };
    let mut s = state(waiting(true), false);
    assert_eq!(s.estimated_vblank(), FrameEffect::Nothing);
    assert_eq!(s.redraw_state, RedrawState::Queued);
    let mut s = state(waiting(false), true);
    assert_eq!(s.estimated_vblank(), FrameEffect::Nothing);
    assert_eq!(s.redraw_state, RedrawState::Queued);
    let mut s = state(waiting(false), false);
    assert_eq!(s.estimated_vblank(), FrameEffect::SendFrames);
    assert_eq!(s.redraw_state, RedrawState::Idle);
    assert_eq!(s.current_frame_sequence, 1);
}

#[test]
fn vblank_reports_presentation() {
    let mut s = state(RedrawState::WaitingForVblank { queued: true }, false);
    let v = s.vblank(ms(50), DrmEventTime::Monotonic(ms(48)), 7);
    assert_eq!(v.effect, FrameEffect::QueueRedraw);
    assert_eq!(v.presentation_time, ms(48));
    assert!(v.presentation.hw_clock);
    assert_eq!(v.presentation.sequence, 7);
    assert_eq!(v.presentation.refresh, ms(10));
    assert_eq!(s.redraw_state, RedrawState::Idle);
    assert_eq!(s.frame_clock.next_presentation_time(ms(50)), ms(58));

    let mut s = state(RedrawState::WaitingForVblank { queued: false }, false);
    let v = s.vblank(ms(50), DrmEventTime::Monotonic(Duration::zero()), 0);
    assert_eq!(v.effect, FrameEffect::SendFrames);
    assert!(!v.presentation.hw_clock);
    assert_eq!(v.presentation.time, ms(50));

    let mut s = state(RedrawState::WaitingForVblank { queued: false }, true);
    let v = s.vblank(ms(50), DrmEventTime::Realtime, 0);
    assert_eq!(v.effect, FrameEffect::QueueRedraw);
    assert_eq!(v.presentation_time, ms(50));
}
