//! A frame clock for outputs: it tells when the next frame will reach the screen.
use vstd::prelude::*;

use crate::time::{max_nanos, opt_nanos, Duration, NANOS_PER_SEC};

verus! {

/// Predicts presentation times from the refresh interval and the last presentation.
#[derive(Debug)]
pub struct FrameClock {
    /// The nanoseconds between two presentations. `None` for a backend without a set refresh
    /// rate, which presents as soon as a redraw is done.
    refresh_interval_ns: Option<u64>,
    last_presentation_time: Option<Duration>,
    vrr: bool,
}

/// The mathematical state of a [`FrameClock`].
pub struct ClockState {
    pub interval: Option<nat>,
    pub last: Option<nat>,
    pub vrr: bool,
}

impl View for FrameClock {
    type V = ClockState;

    closed spec fn view(&self) -> ClockState {
        ClockState {
            interval: match self.refresh_interval_ns {
                Some(ns) => Some(ns as nat),
                None => None,
            },
            last: opt_nanos(self.last_presentation_time),
            vrr: self.vrr,
        }
    }
}

impl ClockState {
    /// The moment from which the next cycle is counted: a reading that is not past the last
    /// presentation belongs to an early event and moves on by one interval.
    pub open spec fn shifted(self, now: nat) -> nat {
        match (self.interval, self.last) {
            (Some(interval), Some(last)) => if now <= last {
                now + interval
            } else {
                now
            },
            _ => now,
        }
    }

    /// How many whole intervals after the last presentation the next one is due.
    pub open spec fn periods_to_next(self, now: nat) -> nat
        recommends
            self.interval is Some && self.last is Some,
    {
        ((self.shifted(now) - self.last->0) as nat / self.interval->0 + 1) as nat
    }

    /// The next presentation time at the clock reading `now`.
    pub open spec fn next(self, now: nat) -> nat {
        if self.interval is None || self.last is None {
            now
        } else if self.vrr && self.periods_to_next(now) > 1 {
            self.shifted(now)
        } else {
            self.last->0 + self.periods_to_next(now) * self.interval->0
        }
    }

    /// The clock with variable refresh rate turned on or off: a change forgets the last
    /// presentation.
    pub open spec fn with_vrr(self, vrr: bool) -> ClockState {
        if self.vrr == vrr {
            self
        } else {
            ClockState { vrr, last: None, ..self }
        }
    }

    /// Whether the prediction at `now` can be computed: the reading lies at most one interval
    /// before the last presentation, and every span involved is representable.
    pub open spec fn can_predict(self, now: nat) -> bool {
        self.interval is Some && self.last is Some ==> {
            &&& self.last->0 <= self.shifted(now) <= max_nanos()
            &&& self.shifted(now) - self.last->0 <= u64::MAX
            &&& self.periods_to_next(now) * self.interval->0 <= u64::MAX
            &&& self.next(now) <= max_nanos()
        }
    }
}

impl FrameClock {
    #[verifier::type_invariant]
    closed spec fn inv(self) -> bool {
        self.refresh_interval_ns matches Some(ns) ==> 0 < ns
    }

    /// A clock that has presented nothing yet. The refresh interval must not be zero.
    pub fn new(refresh_interval: Option<Duration>, vrr: bool) -> (clock: FrameClock)
        requires
            refresh_interval matches Some(interval) ==> 0 < interval@ <= u64::MAX,
        ensures
            clock@.interval == opt_nanos(refresh_interval),
            clock@.last == None::<nat>,
            clock@.vrr == vrr,
    {
        let refresh_interval_ns = match refresh_interval {
            Some(interval) => Some(
                interval.as_secs() * NANOS_PER_SEC + interval.subsec_nanos() as u64,
            ),
            None => None,
        };
        FrameClock { refresh_interval_ns, last_presentation_time: None, vrr }
    }

    /// The time between two presentations, where the output has a fixed one.
    pub fn refresh_interval(&self) -> (interval: Option<Duration>)
        ensures
            opt_nanos(interval) == self@.interval,
            self@.interval matches Some(nanos) ==> nanos > 0,
    {
        proof {
            use_type_invariant(self);
        }
        match self.refresh_interval_ns {
            Some(ns) => Some(Duration::from_nanos(ns)),
            None => None,
        }
    }

    /// Turn variable refresh rate on or off. A change forgets the last presentation.
    pub fn set_vrr(&mut self, vrr: bool)
        ensures
            final(self)@ == old(self)@.with_vrr(vrr),
    {
        proof {
            use_type_invariant(&*self);
        }
        if self.vrr == vrr {
            return;
        }
        self.vrr = vrr;
        self.last_presentation_time = None;
    }

    /// Mark `now` as the latest presentation time.
    pub fn present(&mut self, now: Duration)
        ensures
            final(self)@ == (ClockState { last: Some(now@), ..old(self)@ }),
    {
        proof {
            use_type_invariant(&*self);
        }
        self.last_presentation_time = Some(now);
    }

    /// The next presentation time, at the reading `now` of the monotonic clock.
    ///
    /// Without a fixed interval, or before the first presentation, that is `now` itself.
    /// Otherwise it is the next whole number of intervals after the last presentation, except
    /// that a variable refresh rate output that skipped a cycle presents at once.
    pub fn next_presentation_time(&self, now: Duration) -> (next: Duration)
        requires
            self@.can_predict(now@),
        ensures
            next@ == self@.next(now@),
    {
        proof {
            use_type_invariant(self);
        }
        let refresh_interval_ns: u64 = match self.refresh_interval_ns {
            Some(ns) => ns,
            None => {
                return now;
            },
        };
        let last = match self.last_presentation_time {
            Some(last) => last,
            None => {
                return now;
            },
        };
        let now = if now.le(&last) {
            now.plus(&Duration::from_nanos(refresh_interval_ns))
        } else {
            now
        };
        let since_last = now.minus(&last);
        let since_last_ns: u64 = since_last.as_secs() * NANOS_PER_SEC
            + since_last.subsec_nanos() as u64;
        let periods: u64 = since_last_ns / refresh_interval_ns;
        proof {
            let p: int = periods as int + 1;
            let i: int = refresh_interval_ns as int;
            assert(p <= p * i) by (nonlinear_arith)
                requires
                    p >= 0,
                    i >= 1,
            ;
            assert(p > 1 ==> p * i > i) by (nonlinear_arith)
                requires
                    p >= 0,
                    i >= 1,
            ;
            assert(p == 1 ==> p * i == i) by (nonlinear_arith);
        }
        let to_next_ns: u64 = (periods + 1) * refresh_interval_ns;
        if self.vrr && to_next_ns > refresh_interval_ns {
            now
        } else {
            last.plus(&Duration::from_nanos(to_next_ns))
        }
    }
}

/// The predicted time always lies after the last presentation.
pub proof fn next_is_after_last(clock: ClockState, now: nat)
    requires
        clock.interval matches Some(interval) && interval > 0,
        clock.last is Some,
        clock.can_predict(now),
    ensures
        clock.next(now) > clock.last->0,
{
    let i = clock.interval->0 as int;
    let p = clock.periods_to_next(now) as int;
    let s = clock.shifted(now) - clock.last->0;
    assert(p * i >= i) by (nonlinear_arith)
        requires
            p >= 1,
            i >= 1,
    ;
    if s < i {
        assert(s / i == 0) by (nonlinear_arith)
            requires
                0 <= s < i,
        ;
    }
}

/// Without variable refresh rate the predicted time is a whole number of intervals after the
/// last presentation, and it is the first such moment past the (shifted) clock reading.
pub proof fn next_is_first_cycle_past_now(clock: ClockState, now: nat)
    requires
        clock.interval matches Some(interval) && interval > 0,
        clock.last is Some,
        clock.can_predict(now),
        !clock.vrr,
    ensures
        (clock.next(now) - clock.last->0) % (clock.interval->0 as int) == 0,
        clock.shifted(now) < clock.next(now),
        clock.next(now) - clock.interval->0 <= clock.shifted(now),
{
    let i = clock.interval->0 as int;
    let p = clock.periods_to_next(now) as int;
    let s = clock.shifted(now) - clock.last->0;
    vstd::arithmetic::div_mod::lemma_fundamental_div_mod(s, i);
    vstd::arithmetic::div_mod::lemma_mod_pos_bound(s, i);
    vstd::arithmetic::div_mod::lemma_mod_multiples_basic(p, i);
    assert(p * i == i * (s / i) + i) by (nonlinear_arith)
        requires
            p == s / i + 1,
    ;
}

/// An output with variable refresh rate never waits longer than one with a fixed rate, and
/// presents immediately once a whole cycle has been missed.
pub proof fn vrr_presents_no_later(clock: ClockState, now: nat)
    requires
        clock.interval matches Some(interval) && interval > 0,
        clock.last is Some,
        clock.can_predict(now),
        clock.vrr,
    ensures
        clock.next(now) <= (ClockState { vrr: false, ..clock }).next(now),
        clock.shifted(now) - clock.last->0 >= clock.interval->0 ==> clock.next(now)
            == clock.shifted(now),
{
    let i = clock.interval->0 as int;
    let s = clock.shifted(now) - clock.last->0;
    let fixed = ClockState { vrr: false, ..clock };
    let p = clock.periods_to_next(now) as int;
    assert(fixed.periods_to_next(now) == p);
    vstd::arithmetic::div_mod::lemma_fundamental_div_mod(s, i);
    vstd::arithmetic::div_mod::lemma_mod_pos_bound(s, i);
    assert(p * i == i * (s / i) + i) by (nonlinear_arith)
        requires
            p == s / i + 1,
    ;
    if s >= i {
        assert(s / i >= 1) by (nonlinear_arith)
            requires
                s >= i,
                i > 0,
        ;
    }
}

/// Once variable refresh rate is turned on or off, the next frame is presented at once. Setting it
/// to what it already is has no effect.
pub proof fn changing_vrr_presents_at_once(clock: ClockState, vrr: bool, now: nat)
    ensures
        clock.with_vrr(vrr).vrr == vrr,
        vrr != clock.vrr ==> clock.with_vrr(vrr).can_predict(now) && clock.with_vrr(vrr).next(now)
            == now,
        vrr == clock.vrr ==> clock.with_vrr(vrr) == clock,
{
}

/// Before the first presentation, and without a fixed refresh interval, a frame is shown at once.
pub proof fn first_frames_are_shown_at_once(clock: &FrameClock, now: Duration, next: Duration)
    requires
        clock@.interval is None || clock@.last is None,
        call_ensures(FrameClock::next_presentation_time, (clock, now), next),
    ensures
        next@ == now@,
{
    assert(call_requires(FrameClock::next_presentation_time, (clock, now)));
}

/// With a fixed rate, a frame is shown a whole number of intervals after the last one: at the first
/// such moment after `now`, or, when `now` is not after the last presentation, at the first such
/// moment more than an interval after `now`.
pub proof fn frames_are_shown_on_the_beat(
    clock: &FrameClock,
    now: Duration,
    next: Duration,
    interval: nat,
    last: nat,
)
    requires
        clock@.interval == Some(interval),
        interval > 0,
        clock@.last == Some(last),
        !clock@.vrr,
        clock@.can_predict(now@),
        call_ensures(FrameClock::next_presentation_time, (clock, now), next),
    ensures
        next@ > last,
        (next@ - last) % (interval as int) == 0,
        now@ > last ==> next@ - interval <= now@ < next@,
        now@ <= last ==> next@ - interval <= now@ + interval < next@,
{
    assert(call_requires(FrameClock::next_presentation_time, (clock, now)));
    next_is_after_last(clock@, now@);
    next_is_first_cycle_past_now(clock@, now@);
}

/// With a variable rate, a frame that is ready within an interval of the last one is shown when
/// that interval is over; a later one is shown at once.
pub proof fn late_frames_are_shown_at_once_with_vrr(
    clock: &FrameClock,
    now: Duration,
    next: Duration,
    interval: nat,
    last: nat,
)
    requires
        clock@.interval == Some(interval),
        interval > 0,
        clock@.last == Some(last),
        clock@.vrr,
        clock@.can_predict(now@),
        call_ensures(FrameClock::next_presentation_time, (clock, now), next),
    ensures
        now@ < last + interval ==> next@ == last + interval,
        now@ >= last + interval ==> next@ == now@,
{
    assert(call_requires(FrameClock::next_presentation_time, (clock, now)));
    let s = clock@.shifted(now@) - last;
    let i = interval as int;
    if s < i {
        assert(s / i == 0) by (nonlinear_arith)
            requires
                0 <= s < i,
        ;
        assert(1 * i == i);
    } else {
        assert(s / i >= 1) by (nonlinear_arith)
            requires
                s >= i,
                i > 0,
        ;
    }
}

/// A presentation is what the next prediction starts from; the interval and the kind of the rate
/// stay.
pub proof fn presentations_are_noted(clock: &mut FrameClock, now: Duration)
    requires
        call_ensures(FrameClock::present, (clock, now), ()),
    ensures
        final(clock)@.last == Some(now@),
        final(clock)@.interval == old(clock)@.interval,
        final(clock)@.vrr == old(clock)@.vrr,
{
}

/// Turning the variable rate on or off forgets the last presentation, so that the next frame is
/// shown at once; setting it to what it is changes nothing. The interval always stays.
pub proof fn changing_the_rate_starts_over(clock: &mut FrameClock, vrr: bool)
    requires
        call_ensures(FrameClock::set_vrr, (clock, vrr), ()),
    ensures
        final(clock)@.vrr == vrr,
        final(clock)@.interval == old(clock)@.interval,
        old(clock)@.vrr == vrr ==> final(clock)@.last == old(clock)@.last,
        old(clock)@.vrr != vrr ==> final(clock)@.last is None,
{
}

/// A new clock has the interval and the rate that it is made with, and presented nothing yet; the
/// interval can be asked for.
pub proof fn new_clocks_have_their_interval(
    interval: Option<Duration>,
    vrr: bool,
    clock: FrameClock,
    told: Option<Duration>,
)
    requires
        interval matches Some(span) ==> 0 < span@ <= u64::MAX,
        call_ensures(FrameClock::new, (interval, vrr), clock),
        call_ensures(FrameClock::refresh_interval, (&clock,), told),
    ensures
        told is Some <==> interval is Some,
        interval matches Some(span) ==> told->0@ == span@,
        clock@.vrr == vrr,
        clock@.last is None,
{
    assert(call_requires(FrameClock::new, (interval, vrr)));
}

} // verus!
