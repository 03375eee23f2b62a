//! Locking the session.
use vstd::prelude::*;

use crate::focus::{
    focus_change, focus_is_something_shown, still_clicked, FocusCandidates, FocusChange,
    KeyboardFocus,
};
use crate::handlers::layer_shell::KeyboardInteractivity;
use crate::seqs::lemma_first_index_is;
use crate::state::{
    draws_again, draws_all, for_output, lemma_draws_all, Fht, OutputEntry, State,
};

verus! {

/// The locking state of the compositor. Lock clients go by numbers.
#[derive(Clone, Copy, Debug, PartialEq, Eq, Structural)]
pub enum LockState {
    /// The compositor is unlocked and displays content as usual.
    Unlocked,
    /// We are waiting for all lock surfaces to appear.
    WaitingForSurfaces(u64),
    /// The session is locking.
    Locking(u64),
    /// The session is locked.
    Locked(u64),
}

impl Default for LockState {
    fn default() -> (state: LockState)
        ensures
            state == LockState::Unlocked,
    {
        LockState::Unlocked
    }
}

/// What becomes of a request to lock the session.
#[derive(Clone, Copy, Debug, PartialEq, Eq, Structural)]
pub enum LockReply {
    /// The session is already locked by a client that is still there.
    Ignored,
    /// The client takes over from one that is gone: the lock is confirmed at once.
    Confirmed,
    /// The lock is confirmed once every output is covered.
    Pending,
}

/// What is drawn on an output instead of the session, the topmost first.
#[derive(Clone, Copy, Debug, PartialEq, Eq, Structural)]
pub struct SessionLockElements {
    pub surface: Option<u64>,
    pub backdrop: bool,
}

impl LockState {
    /// Whether the content of the session is hidden.
    pub open spec fn hides_session(self) -> bool {
        self is Locked || self is Locking
    }

    /// The state after a client asked to lock; `alive` tells whether the client that holds the
    /// lock, if any, is still there.
    pub open spec fn after_request(self, locker: u64, alive: bool) -> LockState {
        match self {
            LockState::Locked(_) => if alive {
                self
            } else {
                LockState::Locked(locker)
            },
            _ => LockState::WaitingForSurfaces(locker),
        }
    }

    /// The state after looking whether all outputs are covered.
    pub open spec fn after_surfaces(self, covered: bool) -> LockState {
        match self {
            LockState::WaitingForSurfaces(locker) => if covered {
                LockState::Locking(locker)
            } else {
                self
            },
            _ => self,
        }
    }
}

impl Fht {
    /// Every output has a lock surface.
    pub open spec fn all_covered(&self) -> bool {
        forall|i: int|
            0 <= i < self.outputs@.len() ==> (#[trigger] self.outputs@[i]).lock_surface is Some
    }

    /// A client asks to lock the session.
    ///
    /// A client that holds the lock keeps it: replacing it could let anybody in. Only if it is
    /// gone does another one take over. Otherwise the session waits for the surfaces of the
    /// client.
    pub fn lock(&mut self, locker: u64, alive: bool) -> (reply: LockReply)
        ensures
            final(self).lock_state == old(self).lock_state.after_request(locker, alive),
            reply == match old(self).lock_state {
                LockState::Locked(_) => if alive {
                    LockReply::Ignored
                } else {
                    LockReply::Confirmed
                },
                _ => LockReply::Pending,
            },
            *final(self) == (Fht {
                lock_state: final(self).lock_state,
                outputs: final(self).outputs,
                ..*old(self)
            }),
            if reply == LockReply::Pending {
                final(self).all_queued(&*old(self))
            } else {
                final(self).outputs == old(self).outputs
            },
    {
        if let LockState::Locked(_) = self.lock_state {
            if alive {
                return LockReply::Ignored;
            }
            self.lock_state = LockState::Locked(locker);
            return LockReply::Confirmed;
        }
        self.lock_state = LockState::WaitingForSurfaces(locker);
        self.queue_redraw_all();
        LockReply::Pending
    }

    /// Unlock the session: nothing covers the outputs any more, and all of them are redrawn.
    pub fn unlock(&mut self)
        ensures
            final(self).lock_state == LockState::Unlocked,
            *final(self) == (Fht {
                lock_state: LockState::Unlocked,
                outputs: final(self).outputs,
                ..*old(self)
            }),
            final(self).outputs@.len() == old(self).outputs@.len(),
            forall|i: int|
                0 <= i < old(self).outputs@.len() ==> #[trigger] final(self).outputs@[i] == old(
                    self,
                ).outputs@[i].uncovered().queued(),
    {
        self.lock_state = LockState::Unlocked;
        let ghost before = self.outputs@;
        let mut i: usize = 0;
        while i < self.outputs.len()
            invariant
                0 <= i <= self.outputs.len(),
                before == old(self).outputs@,
                *self == (Fht {
                    lock_state: LockState::Unlocked,
                    outputs: self.outputs,
                    ..*old(self)
                }),
                self.outputs@.len() == before.len(),
                forall|j: int|
                    0 <= j < i ==> #[trigger] self.outputs@[j] == before[j].uncovered().queued(),
                forall|j: int| i <= j < before.len() ==> #[trigger] self.outputs@[j] == before[j],
            decreases self.outputs.len() - i,
        {
            let entry = &mut self.outputs[i];
            entry.lock_backdrop = false;
            entry.lock_surface = None;
            entry.state.redraw_state.queue();
            i += 1;
        }
    }

    /// A lock client made the surface that covers `output`. Returns whether the surface gets the
    /// keyboard focus, which it does on the active output.
    pub fn new_lock_surface(&mut self, surface: u64, output: u64) -> (focus: bool)
        requires
            old(self).has_output(output),
        ensures
            focus == (output == old(self).active_output),
            final(self).same_but_outputs(&*old(self)),
            ({
                let i = old(self).index_of(output);
                let entry = old(self).outputs@[i];
                final(self).outputs@ == old(self).outputs@.update(
                    i,
                    (OutputEntry { lock_surface: Some(surface), ..entry }).queued(),
                )
            }),
    {
        if let Some(i) = self.output_index(output) {
            let ghost before = self.outputs@;
            let entry = &mut self.outputs[i];
            entry.lock_surface = Some(surface);
            entry.state.redraw_state.queue();
            proof {
                let entry = before[i as int];
                assert(self.outputs@ =~= before.update(
                    i as int,
                    (OutputEntry { lock_surface: Some(surface), ..entry }).queued(),
                ));
            }
        }
        output == self.active_output
    }

    /// Whether the content of the session is hidden.
    pub fn is_locked(&self) -> (locked: bool)
        ensures
            locked == self.lock_state.hides_session(),
    {
        match self.lock_state {
            LockState::Locked(_) => true,
            LockState::Locking(_) => true,
            _ => false,
        }
    }

    /// Start hiding the session once every output has a lock surface.
    pub fn try_continue_locking(&mut self)
        ensures
            final(self).lock_state == old(self).lock_state.after_surfaces(old(self).all_covered()),
            *final(self) == (Fht {
                lock_state: final(self).lock_state,
                outputs: final(self).outputs,
                ..*old(self)
            }),
            if final(self).lock_state != old(self).lock_state {
                final(self).all_queued(&*old(self))
            } else {
                final(self).outputs == old(self).outputs
            },
    {
        let locker: u64 = match self.lock_state {
            LockState::WaitingForSurfaces(locker) => locker,
            _ => {
                return ;
            },
        };
        let mut i: usize = 0;
        while i < self.outputs.len()
            invariant
                0 <= i <= self.outputs.len(),
                *self == *old(self),
                forall|j: int| 0 <= j < i ==> (#[trigger] self.outputs@[j]).lock_surface is Some,
            decreases self.outputs.len() - i,
        {
            if self.outputs[i].lock_surface.is_none() {
                return ;
            }
            i += 1;
        }
        self.lock_state = LockState::Locking(locker);
        self.queue_redraw_all();
    }

    /// What covers an output while the session is locked: the lock surface, and behind it a
    /// backdrop, which is made on first use.
    pub fn session_lock_elements(&mut self, output: u64) -> (elements: SessionLockElements)
        requires
            old(self).lock_state.hides_session() ==> old(self).has_output(output),
        ensures
            final(self).same_but_outputs(&*old(self)),
            if old(self).lock_state.hides_session() {
                let i = old(self).index_of(output);
                let entry = old(self).outputs@[i];
                &&& elements == (SessionLockElements {
                    surface: entry.lock_surface,
                    backdrop: true,
                })
                &&& final(self).outputs@ == old(self).outputs@.update(
                    i,
                    OutputEntry { lock_backdrop: true, ..entry },
                )
            } else {
                &&& elements == (SessionLockElements { surface: None, backdrop: false })
                &&& final(self).outputs == old(self).outputs
            },
    {
        if !self.is_locked() {
            return SessionLockElements { surface: None, backdrop: false };
        }
        let mut surface = None;
        if let Some(i) = self.output_index(output) {
            let ghost before = self.outputs@;
            surface = self.outputs[i].lock_surface;
            let entry = &mut self.outputs[i];
            entry.lock_backdrop = true;
            proof {
                let entry = before[i as int];
                assert(self.outputs@ =~= before.update(
                    i as int,
                    OutputEntry { lock_backdrop: true, ..entry },
                ));
            }
        }
        SessionLockElements { surface, backdrop: true }
    }
}

impl State {
    /// Unlock the session: see [`Fht::unlock`]. Then the keyboard focus is updated, so that it goes
    /// back to the session; see [`State::update_keyboard_focus`].
    pub fn unlock(
        &mut self,
        candidates: &FocusCandidates,
        clicked_wants: Option<KeyboardInteractivity>,
        current: Option<u64>,
    ) -> (change: Option<FocusChange>)
        ensures
            final(self).backend == old(self).backend,
            final(self).fht == (Fht {
                lock_state: LockState::Unlocked,
                outputs: final(self).fht.outputs,
                focused_on_demand_layer_shell: still_clicked(
                    old(self).fht.focused_on_demand_layer_shell,
                    clicked_wants,
                ),
                ..old(self).fht
            }),
            final(self).fht.outputs@.len() == old(self).fht.outputs@.len(),
            forall|i: int|
                0 <= i < old(self).fht.outputs@.len() ==> #[trigger] final(self).fht.outputs@[i]
                    == old(self).fht.outputs@[i].uncovered().queued(),
            change == focus_change(
                candidates.choice(final(self).fht.focused_on_demand_layer_shell),
                current,
            ),
    {
        self.fht.unlock();
        self.update_keyboard_focus(candidates, clicked_wants, current)
    }
}

/// The session is not hidden before every output is covered, and from then on it is.
pub proof fn session_is_hidden_once_covered(locker: u64, covered: bool)
    ensures
        LockState::WaitingForSurfaces(locker).after_surfaces(covered).hides_session() == covered,
{
}

/// Looking at the surfaces never shows a hidden session, and never hides one that nobody asked to
/// lock.
pub proof fn surfaces_do_not_unlock(state: LockState, covered: bool)
    ensures
        state.hides_session() ==> state.after_surfaces(covered) == state,
        state is Unlocked ==> state.after_surfaces(covered) == state,
{
}

/// Something that happens to a session other than being unlocked.
pub ghost enum LockEvent {
    /// A client asks to lock; `alive` tells whether the holder of the lock is still there.
    Requested { locker: u64, alive: bool },
    /// The lock surfaces are looked at.
    Looked { covered: bool },
}

/// The locking state after several events.
pub open spec fn after_lock_events(state: LockState, events: Seq<LockEvent>) -> LockState
    decreases events.len(),
{
    if events.len() == 0 {
        state
    } else {
        let before = after_lock_events(state, events.drop_last());
        match events.last() {
            LockEvent::Requested { locker, alive } => before.after_request(locker, alive),
            LockEvent::Looked { covered } => before.after_surfaces(covered),
        }
    }
}

/// A locked session stays locked until it is unlocked, whatever clients do.
pub proof fn locked_until_unlocked(state: LockState, events: Seq<LockEvent>)
    requires
        state is Locked,
    ensures
        after_lock_events(state, events) is Locked,
    decreases events.len(),
{
    if events.len() > 0 {
        locked_until_unlocked(state, events.drop_last());
    }
}

/// The holder of a lock keeps it as long as it is there, whatever other clients do.
pub proof fn live_holder_keeps_the_lock(holder: u64, events: Seq<LockEvent>)
    requires
        forall|i: int|
            0 <= i < events.len() ==> ((#[trigger] events[i]) matches LockEvent::Requested {
                alive,
                ..
            } ==> alive),
    ensures
        after_lock_events(LockState::Locked(holder), events) == LockState::Locked(holder),
    decreases events.len(),
{
    if events.len() > 0 {
        let front = events.drop_last();
        assert forall|i: int| 0 <= i < front.len() implies ((
        #[trigger] front[i]) matches LockEvent::Requested { alive, .. } ==> alive) by {
            assert(front[i] == events[i]);
        }
        live_holder_keeps_the_lock(holder, front);
        assert(events[events.len() - 1] == events.last());
    }
}

/// A client that asks to lock the session has to wait until its surfaces cover the outputs, which
/// are all redrawn for that, unless another client holds the lock. That one keeps it while it is
/// there; if it is gone, the new one takes over at once, and the session stays locked all along.
pub proof fn lock_requests_are_answered(
    fht: &mut Fht,
    locker: u64,
    alive: bool,
    reply: LockReply,
)
    requires
        call_ensures(Fht::lock, (fht, locker, alive), reply),
    ensures
        match old(fht).lock_state {
            LockState::Locked(holder) => final(fht).outputs == old(fht).outputs && if alive {
                final(fht).lock_state == LockState::Locked(holder) && reply is Ignored
            } else {
                final(fht).lock_state == LockState::Locked(locker) && reply is Confirmed
            },
            _ => final(fht).lock_state == LockState::WaitingForSurfaces(locker) && reply is Pending
                && draws_all(old(fht).outputs@, final(fht).outputs@),
        },
{
    if reply is Pending {
        lemma_draws_all(*old(fht), *final(fht));
    }
}

/// While surfaces are waited for, the session is hidden as soon as every output has one, and all
/// outputs are redrawn then. In any other case nothing happens.
pub proof fn locking_goes_on_once_all_are_covered(fht: &mut Fht)
    requires
        call_ensures(Fht::try_continue_locking, (fht,), ()),
    ensures
        match old(fht).lock_state {
            LockState::WaitingForSurfaces(locker) => if forall|i: int|
                0 <= i < old(fht).outputs@.len() ==> (#[trigger] old(
                    fht,
                ).outputs@[i]).lock_surface is Some {
                final(fht).lock_state == LockState::Locking(locker) && draws_all(
                    old(fht).outputs@,
                    final(fht).outputs@,
                )
            } else {
                *final(fht) == *old(fht)
            },
            _ => *final(fht) == *old(fht),
        },
{
    if final(fht).lock_state != old(fht).lock_state {
        lemma_draws_all(*old(fht), *final(fht));
    }
}

/// The session is hidden while it is locking or locked, and only then.
pub proof fn locked_sessions_are_hidden(fht: &Fht, locked: bool)
    requires
        call_ensures(Fht::is_locked, (fht,), locked),
    ensures
        fht.lock_state is Unlocked || fht.lock_state is WaitingForSurfaces ==> !locked,
        fht.lock_state is Locking || fht.lock_state is Locked ==> locked,
{
}

/// A lock surface covers its output, which is redrawn, and no other one; it gets the keyboard on the
/// active output.
pub proof fn lock_surfaces_cover_their_output(
    fht: &mut Fht,
    surface: u64,
    output: u64,
    focus: bool,
    i: int,
    j: int,
)
    requires
        0 <= i < old(fht).outputs@.len(),
        old(fht).outputs@[i].id == output,
        forall|k: int| 0 <= k < i ==> (#[trigger] old(fht).outputs@[k]).id != output,
        0 <= j < old(fht).outputs@.len(),
        call_ensures(Fht::new_lock_surface, (fht, surface, output), focus),
    ensures
        focus <==> output == old(fht).active_output,
        final(fht).outputs@.len() == old(fht).outputs@.len(),
        j != i ==> final(fht).outputs@[j] == old(fht).outputs@[j],
        final(fht).outputs@[i].lock_surface == Some(surface),
        draws_again(
            OutputEntry { lock_surface: Some(surface), ..old(fht).outputs@[i] },
            final(fht).outputs@[i],
        ),
        final(fht).lock_state == old(fht).lock_state,
{
    lemma_first_index_is(old(fht).outputs@, for_output(output), i);
    assert(call_requires(Fht::new_lock_surface, (fht, surface, output)));
}

/// While the session is hidden, an output shows its lock surface over a backdrop and nothing else;
/// while it is not, nothing covers the output.
pub proof fn hidden_outputs_show_the_lock(
    fht: &mut Fht,
    output: u64,
    elements: SessionLockElements,
    i: int,
    j: int,
)
    requires
        0 <= i < old(fht).outputs@.len(),
        old(fht).outputs@[i].id == output,
        forall|k: int| 0 <= k < i ==> (#[trigger] old(fht).outputs@[k]).id != output,
        0 <= j < old(fht).outputs@.len(),
        call_ensures(Fht::session_lock_elements, (fht, output), elements),
    ensures
        old(fht).lock_state is Locking || old(fht).lock_state is Locked ==> elements.backdrop
            && elements.surface == old(fht).outputs@[i].lock_surface && final(
            fht
        ).outputs@[i].lock_backdrop,
        old(fht).lock_state is Unlocked || old(fht).lock_state is WaitingForSurfaces
            ==> !elements.backdrop && elements.surface is None && final(fht).outputs == old(
            fht,
        ).outputs,
        j != i ==> final(fht).outputs@[j] == old(fht).outputs@[j],
        final(fht).outputs@[i].lock_surface == old(fht).outputs@[i].lock_surface,
        final(fht).lock_state == old(fht).lock_state,
{
    lemma_first_index_is(old(fht).outputs@, for_output(output), i);
    assert(call_requires(Fht::session_lock_elements, (fht, output)));
}

/// An unlocked session is shown again: nothing covers any output, and each of them is redrawn.
pub proof fn unlocking_shows_the_session(fht: &mut Fht, i: int)
    requires
        call_ensures(Fht::unlock, (fht,), ()),
        0 <= i < old(fht).outputs@.len(),
    ensures
        final(fht).lock_state is Unlocked,
        final(fht).outputs@.len() == old(fht).outputs@.len(),
        final(fht).outputs@[i].lock_surface is None,
        !final(fht).outputs@[i].lock_backdrop,
        draws_again(
            OutputEntry {
                lock_surface: None,
                lock_backdrop: false,
                ..old(fht).outputs@[i]
            },
            final(fht).outputs@[i],
        ),
        final(fht).active_output == old(fht).active_output,
{
    assert(final(fht).outputs@[i] == old(fht).outputs@[i].uncovered().queued());
}

/// Unlocking the session gives the keyboard back to what is shown: to what
/// [`FocusCandidates::choose_focus`] says, and nothing is done if that has it already. All outputs
/// are uncovered.
pub proof fn unlocking_gives_the_keyboard_back(
    state: &mut State,
    candidates: &FocusCandidates,
    wants: Option<KeyboardInteractivity>,
    current: Option<u64>,
    change: Option<FocusChange>,
    focus: Option<KeyboardFocus>,
    i: int,
)
    requires
        call_ensures(State::unlock, (state, candidates, wants, current), change),
        call_ensures(
            FocusCandidates::choose_focus,
            (candidates, final(state).fht.focused_on_demand_layer_shell),
            focus,
        ),
        0 <= i < old(state).fht.outputs@.len(),
    ensures
        final(state).fht.lock_state is Unlocked,
        final(state).fht.outputs@.len() == old(state).fht.outputs@.len(),
        final(state).fht.outputs@[i].lock_surface is None,
        !final(state).fht.outputs@[i].lock_backdrop,
        focus matches Some(KeyboardFocus::LayerSurface { layer }) ==> (change is None <==> current
            == Some(layer)),
        focus matches Some(KeyboardFocus::Space { surface }) ==> (change is None <==> current
            == surface),
        focus is None ==> (change is None <==> current is None),
        change matches Some(change) ==> match focus {
            Some(KeyboardFocus::LayerSurface { layer }) => change.surface == Some(layer)
                && change.activate is None,
            Some(KeyboardFocus::Space { surface }) => change.surface == surface && change.activate
                == surface,
            Some(KeyboardFocus::LockSurface { .. }) => false,
            None => change.surface is None && change.activate is None,
        },
        wants is None ==> final(state).fht.focused_on_demand_layer_shell is None,
        wants == Some(KeyboardInteractivity::OnDemand) ==> final(
            state
        ).fht.focused_on_demand_layer_shell == old(state).fht.focused_on_demand_layer_shell,
{
    assert(call_requires(
        FocusCandidates::choose_focus,
        (candidates, final(state).fht.focused_on_demand_layer_shell),
    ));
    focus_is_something_shown(candidates, final(state).fht.focused_on_demand_layer_shell, focus);
    assert(final(state).fht.outputs@[i] == old(state).fht.outputs@[i].uncovered().queued());
}

} // verus!
