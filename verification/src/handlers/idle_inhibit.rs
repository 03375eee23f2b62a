//! Telling whether the user is there.
use vstd::prelude::*;

use crate::seqs::lemma_filter_take_succ;
use crate::state::{Fht, State};

verus! {

/// Whether a surface is another one.
pub open spec fn other_surface(surface: u64) -> spec_fn(u64) -> bool {
    |s: u64| s != surface
}

impl State {
    /// A surface keeps the session from becoming idle.
    pub fn inhibit(&mut self, surface: u64)
        ensures
            final(self).backend == old(self).backend,
            final(self).fht.idle_inhibiting_surfaces@ == old(
                self,
            ).fht.idle_inhibiting_surfaces@.push(surface),
            final(self).fht == (Fht {
                idle_inhibiting_surfaces: final(self).fht.idle_inhibiting_surfaces,
                ..old(self).fht
            }),
    {
        self.fht.idle_inhibiting_surfaces.push(surface);
    }

    /// A surface does not keep the session from becoming idle any more.
    pub fn uninhibit(&mut self, surface: u64)
        ensures
            final(self).backend == old(self).backend,
            final(self).fht.idle_inhibiting_surfaces@ == old(
                self,
            ).fht.idle_inhibiting_surfaces@.filter(other_surface(surface)),
            final(self).fht == (Fht {
                idle_inhibiting_surfaces: final(self).fht.idle_inhibiting_surfaces,
                ..old(self).fht
            }),
    {
        let mut kept: Vec<u64> = Vec::new();
        let ghost all = self.fht.idle_inhibiting_surfaces@;
        let mut i: usize = 0;
        assert(all.take(0).filter(other_surface(surface)) =~= Seq::empty()) by {
            reveal(Seq::filter);
        }
        while i < self.fht.idle_inhibiting_surfaces.len()
            invariant
                0 <= i <= self.fht.idle_inhibiting_surfaces.len(),
                *self == *old(self),
                all == self.fht.idle_inhibiting_surfaces@,
                kept@ == all.take(i as int).filter(other_surface(surface)),
            decreases self.fht.idle_inhibiting_surfaces.len() - i,
        {
            proof {
                lemma_filter_take_succ(all, other_surface(surface), i as int);
            }
            let s: u64 = self.fht.idle_inhibiting_surfaces[i];
            if s != surface {
                kept.push(s);
            }
            i += 1;
        }
        assert(all.take(all.len() as int) =~= all);
        self.fht.idle_inhibiting_surfaces = kept;
    }
}

impl Fht {
    /// Note that the user did something. Returns whether clients have to be told, which is the
    /// case once in a dispatch cycle.
    pub fn idle_notify_activity(&mut self) -> (notify: bool)
        ensures
            notify == !old(self).notified_idle_state,
            *final(self) == (Fht { notified_idle_state: true, ..*old(self) }),
    {
        if !self.notified_idle_state {
            self.notified_idle_state = true;
            return true;
        }
        false
    }
}

/// A surface that was inhibiting and stops to do so leaves no trace.
pub proof fn uninhibit_undoes_inhibit(surfaces: Seq<u64>, surface: u64)
    ensures
        !surfaces.push(surface).filter(other_surface(surface)).contains(surface),
        surfaces.push(surface).filter(other_surface(surface)) == surfaces.filter(
            other_surface(surface),
        ),
{
    let p = other_surface(surface);
    let after = surfaces.push(surface).filter(p);
    surfaces.lemma_filter_push(surface, p);
    if after.contains(surface) {
        let i = choose|i: int| 0 <= i < after.len() && after[i] == surface;
        surfaces.push(surface).lemma_filter_pred(p, i);
    }
}

/// A surface keeps the session from becoming idle from when it asks for that until it stops to; no
/// other surface is affected by either.
pub proof fn inhibitors_are_kept_until_they_stop(
    on: &mut State,
    off: &mut State,
    surface: u64,
    other: u64,
)
    requires
        call_ensures(State::inhibit, (on, surface), ()),
        call_ensures(State::uninhibit, (off, surface), ()),
        other != surface,
    ensures
        final(on).fht.idle_inhibiting_surfaces@.contains(surface),
        !final(off).fht.idle_inhibiting_surfaces@.contains(surface),
        final(on).fht.idle_inhibiting_surfaces@.contains(other) <==> old(
            on,
        ).fht.idle_inhibiting_surfaces@.contains(other),
        final(off).fht.idle_inhibiting_surfaces@.contains(other) <==> old(
            off,
        ).fht.idle_inhibiting_surfaces@.contains(other),
        final(on).fht.outputs == old(on).fht.outputs,
        final(off).fht.outputs == old(off).fht.outputs,
{
    let p = other_surface(surface);
    let before = old(on).fht.idle_inhibiting_surfaces@;
    let after = final(on).fht.idle_inhibiting_surfaces@;
    assert(after[before.len() as int] == surface);
    if before.contains(other) {
        let i = choose|i: int| 0 <= i < before.len() && before[i] == other;
        assert(after[i] == other);
    }
    if after.contains(other) {
        let i = choose|i: int| 0 <= i < after.len() && after[i] == other;
        assert(before[i] == other);
    }
    let all = old(off).fht.idle_inhibiting_surfaces@;
    let kept = all.filter(p);
    if kept.contains(surface) {
        let i = choose|i: int| 0 <= i < kept.len() && kept[i] == surface;
        all.lemma_filter_pred(p, i);
    }
    if kept.contains(other) {
        all.lemma_filter_contains_rev(p, other);
    }
    if all.contains(other) {
        let i = choose|i: int| 0 <= i < all.len() && all[i] == other;
        all.lemma_filter_contains(p, i);
    }
}

/// Clients are told about activity once in a dispatch cycle: the first time, and not again.
pub proof fn activity_is_told_once(
    first: &mut Fht,
    second: &mut Fht,
    told: bool,
    again: bool,
)
    requires
        !old(first).notified_idle_state,
        call_ensures(Fht::idle_notify_activity, (first,), told),
        *old(second) == *final(first),
        call_ensures(Fht::idle_notify_activity, (second,), again),
    ensures
        told,
        !again,
        final(second).outputs == old(first).outputs,
        final(second).lock_state == old(first).lock_state,
{
}

} // verus!
