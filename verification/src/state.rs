//! The state of the compositor.
use vstd::prelude::*;

use crate::assoc::unique_keys;
use crate::backend::{Backend, OutputMode};
use crate::frame_clock::{ClockState, FrameClock};
use crate::handlers::compositor::UnmappedWindow;
use crate::handlers::seat::InputDevice;
use crate::handlers::session_lock::LockState;
use crate::output::{OutputState, RedrawState};
use crate::seqs::{first_index, lemma_first_index, lemma_first_index_is, lemma_first_index_none};

verus! {

/// How many workspaces an output has.
pub const WORKSPACE_COUNT: usize = 9;

/// The index of a workspace, the last one for what is past it.
pub open spec fn clamp_workspace(idx: int) -> int {
    if idx >= WORKSPACE_COUNT {
        WORKSPACE_COUNT - 1
    } else {
        idx
    }
}

/// The index of a workspace, the last one for what is past it.
pub fn workspace_index(idx: usize) -> (r: usize)
    ensures
        r == clamp_workspace(idx as int),
{
    if idx >= WORKSPACE_COUNT {
        WORKSPACE_COUNT - 1
    } else {
        idx
    }
}

/// What the compositor keeps about an output. Outputs, windows and surfaces go by numbers.
#[derive(Debug)]
pub struct OutputEntry {
    pub id: u64,
    /// The mode that clients are told, where one is set.
    pub mode: Option<OutputMode>,
    pub state: OutputState,
    /// The surface that covers the output while the session is locked.
    pub lock_surface: Option<u64>,
    /// Whether there is a backdrop behind the lock surface.
    pub lock_backdrop: bool,
}

impl OutputEntry {
    /// The entry with a redraw of the output asked for.
    pub open spec fn queued(self) -> OutputEntry {
        OutputEntry {
            state: OutputState { redraw_state: self.state.redraw_state.after_queue(), ..self.state },
            ..self
        }
    }

    /// Whether this is the entry of an output that was just added: it is about to be drawn for the
    /// first time.
    pub open spec fn is_new(self, output: u64, clock: ClockState, mode: Option<OutputMode>) -> bool {
        &&& self.id == output
        &&& self.mode == mode
        &&& self.state.redraw_state == RedrawState::Queued
        &&& self.state.frame_clock@ == clock
        &&& self.state.current_frame_sequence == 0
        &&& !self.state.animations_running
        &&& self.lock_surface is None
        &&& !self.lock_backdrop
    }

    /// Whether this is the entry `before` with a mode in effect: the output has the mode, and its
    /// clock starts over with the interval of the mode.
    pub open spec fn uses_mode(
        self,
        before: OutputEntry,
        mode: OutputMode,
        interval: nat,
        vrr: bool,
    ) -> bool {
        &&& self.id == before.id
        &&& self.mode == Some(mode)
        &&& self.state.has_new_clock(before.state, interval, vrr)
        &&& self.lock_surface == before.lock_surface
        &&& self.lock_backdrop == before.lock_backdrop
    }

    /// The entry of an output that nothing covers any more.
    pub open spec fn uncovered(self) -> OutputEntry {
        OutputEntry { lock_surface: None, lock_backdrop: false, ..self }
    }
}

/// Whether an entry is about the given output.
pub open spec fn for_output(output: u64) -> spec_fn(OutputEntry) -> bool {
    |entry: OutputEntry| entry.id == output
}

/// The state of the compositor, apart from the backend.
#[derive(Debug)]
pub struct Fht {
    /// Whether the compositor is asked to stop.
    pub stop: bool,
    /// The outputs, in the order in which they were added.
    pub outputs: Vec<OutputEntry>,
    /// The output that has the focus.
    pub active_output: u64,
    pub lock_state: LockState,
    /// Whether clients were already told about activity in this dispatch cycle.
    pub notified_idle_state: bool,
    /// The surfaces that keep the session from becoming idle.
    pub idle_inhibiting_surfaces: Vec<u64>,
    /// The root of the tree that each surface is in, as of its last commit.
    pub root_surfaces: Vec<(u64, u64)>,
    /// The windows that are not shown yet, by their surface.
    pub unmapped_windows: Vec<(u64, UnmappedWindow)>,
    /// The layer surface that the user clicked on to type into it.
    pub focused_on_demand_layer_shell: Option<u64>,
    /// The devices of the user, in the order in which they were plugged in.
    pub devices: Vec<InputDevice>,
    /// Whether the user is moving something with the pointer.
    pub interactive_grab_active: bool,
    /// Whether the user is resizing something with the pointer.
    pub resize_grab_active: bool,
    /// The surface that is drawn at the pointer while something is dragged.
    pub dnd_icon: Option<u64>,
    /// How many fingers are swiping over the touchpad.
    pub current_swipe_fingers: Option<u32>,
    /// Whether the current swipe has already set off its action.
    pub gesture_action_executed: bool,
}

/// The compositor.
#[derive(Debug)]
pub struct State {
    pub fht: Fht,
    pub backend: Backend,
}

impl Fht {
    /// The output is known.
    pub open spec fn has_output(&self, output: u64) -> bool {
        first_index(self.outputs@, for_output(output)) is Some
    }

    /// Where the output stands.
    pub open spec fn index_of(&self, output: u64) -> int {
        first_index(self.outputs@, for_output(output))->0
    }

    /// No surface has two roots noted or two windows waiting to be shown.
    pub open spec fn wf(&self) -> bool {
        unique_keys(self.root_surfaces@) && unique_keys(self.unmapped_windows@)
    }

    /// Nothing but the outputs differs from `other`.
    pub open spec fn same_but_outputs(&self, other: &Fht) -> bool {
        *self == (Fht { outputs: self.outputs, ..*other })
    }

    /// A redraw was asked for on every output.
    pub open spec fn all_queued(&self, other: &Fht) -> bool {
        &&& self.outputs@.len() == other.outputs@.len()
        &&& forall|i: int|
            0 <= i < self.outputs@.len() ==> #[trigger] self.outputs@[i]
                == other.outputs@[i].queued()
    }

    /// A compositor that shows nothing yet, with `active_output` in focus.
    pub fn new(active_output: u64) -> (fht: Fht)
        ensures
            fht.wf(),
            !fht.stop,
            fht.outputs@.len() == 0,
            fht.active_output == active_output,
            fht.lock_state == LockState::Unlocked,
            !fht.notified_idle_state,
            fht.idle_inhibiting_surfaces@.len() == 0,
            fht.root_surfaces@.len() == 0,
            fht.unmapped_windows@.len() == 0,
            fht.focused_on_demand_layer_shell is None,
            fht.devices@.len() == 0,
            !fht.interactive_grab_active,
            !fht.resize_grab_active,
            fht.dnd_icon is None,
            fht.current_swipe_fingers is None,
            !fht.gesture_action_executed,
    {
        Fht {
            stop: false,
            outputs: Vec::new(),
            active_output,
            lock_state: LockState::Unlocked,
            notified_idle_state: false,
            idle_inhibiting_surfaces: Vec::new(),
            root_surfaces: Vec::new(),
            unmapped_windows: Vec::new(),
            focused_on_demand_layer_shell: None,
            devices: Vec::new(),
            interactive_grab_active: false,
            resize_grab_active: false,
            dnd_icon: None,
            current_swipe_fingers: None,
            gesture_action_executed: false,
        }
    }

    /// Nothing but one output at the end was added to the outputs of `other`.
    pub open spec fn gained_output(
        &self,
        other: &Fht,
        output: u64,
        clock: ClockState,
        mode: Option<OutputMode>,
    ) -> bool {
        &&& self.outputs@.len() == other.outputs@.len() + 1
        &&& self.outputs@.drop_last() == other.outputs@
        &&& self.outputs@.last().is_new(output, clock, mode)
    }

    /// Add an output, and ask for its first redraw.
    pub fn add_output(&mut self, output: u64, frame_clock: FrameClock, mode: Option<OutputMode>)
        ensures
            final(self).same_but_outputs(&*old(self)),
            final(self).gained_output(&*old(self), output, frame_clock@, mode),
    {
        let ghost before = self.outputs@;
        let mut state = OutputState::new(frame_clock);
        state.redraw_state.queue();
        self.outputs.push(
            OutputEntry { id: output, mode, state, lock_surface: None, lock_backdrop: false },
        );
        assert(self.outputs@.drop_last() =~= before);
    }

    /// The outputs without the given one.
    pub open spec fn outputs_without(&self, output: u64) -> Seq<OutputEntry> {
        if self.has_output(output) {
            self.outputs@.remove(self.index_of(output))
        } else {
            self.outputs@
        }
    }

    /// Remove an output whose display went away; nothing happens for one that is not there.
    pub fn remove_output(&mut self, output: u64)
        ensures
            final(self).same_but_outputs(&*old(self)),
            final(self).outputs@ == old(self).outputs_without(output),
    {
        if let Some(i) = self.output_index(output) {
            self.outputs.remove(i);
        }
    }

    /// Where the output stands.
    pub fn output_index(&self, output: u64) -> (r: Option<usize>)
        ensures
            r is Some <==> self.has_output(output),
            r matches Some(i) ==> {
                &&& i < self.outputs@.len()
                &&& i == self.index_of(output)
                &&& self.outputs@[i as int].id == output
            },
    {
        let mut i: usize = 0;
        while i < self.outputs.len()
            invariant
                0 <= i <= self.outputs.len(),
                forall|j: int| 0 <= j < i ==> (#[trigger] self.outputs@[j]).id != output,
            decreases self.outputs.len() - i,
        {
            if self.outputs[i].id == output {
                proof {
                    lemma_first_index_is(self.outputs@, for_output(output), i as int);
                }
                return Some(i);
            }
            i += 1;
        }
        proof {
            lemma_first_index_none(self.outputs@, for_output(output));
        }
        None
    }

    /// Ask for a redraw of an output. An output that is not known is passed over.
    pub fn queue_redraw(&mut self, output: u64)
        ensures
            final(self).same_but_outputs(&*old(self)),
            final(self).outputs@ == if old(self).has_output(output) {
                let i = old(self).index_of(output);
                old(self).outputs@.update(i, old(self).outputs@[i].queued())
            } else {
                old(self).outputs@
            },
    {
        if let Some(i) = self.output_index(output) {
            let ghost before = self.outputs@;
            let entry = &mut self.outputs[i];
            entry.state.redraw_state.queue();
            assert(self.outputs@ =~= before.update(i as int, before[i as int].queued()));
        }
    }

    /// Ask for a redraw of every output.
    pub fn queue_redraw_all(&mut self)
        ensures
            final(self).same_but_outputs(&*old(self)),
            final(self).all_queued(&*old(self)),
    {
        let ghost before = self.outputs@;
        let mut i: usize = 0;
        while i < self.outputs.len()
            invariant
                0 <= i <= self.outputs.len(),
                self.same_but_outputs(&*old(self)),
                before == old(self).outputs@,
                self.outputs@.len() == before.len(),
                forall|j: int| 0 <= j < i ==> #[trigger] self.outputs@[j] == before[j].queued(),
                forall|j: int| i <= j < before.len() ==> #[trigger] self.outputs@[j] == before[j],
            decreases self.outputs.len() - i,
        {
            let entry = &mut self.outputs[i];
            entry.state.redraw_state.queue();
            i += 1;
        }
    }
}

/// Removing an output undoes adding it.
pub proof fn removing_undoes_adding(
    before: Fht,
    after: Fht,
    output: u64,
    clock: ClockState,
    mode: Option<OutputMode>,
)
    requires
        !before.has_output(output),
        after.gained_output(&before, output, clock, mode),
    ensures
        after.has_output(output),
        after.outputs_without(output) == before.outputs@,
{
    let last = after.outputs@.len() - 1;
    lemma_first_index(before.outputs@, for_output(output));
    assert forall|j: int| 0 <= j < last implies !for_output(output)(
        #[trigger] after.outputs@[j],
    ) by {
        assert(after.outputs@.drop_last()[j] == before.outputs@[j]);
        assert(!for_output(output)(before.outputs@[j]));
    }
    lemma_first_index_is(after.outputs@, for_output(output), last);
    assert(after.outputs@.remove(last) =~= after.outputs@.drop_last());
}

/// Whether an output is drawn again: at once if it is free, and else as soon as what it waits for
/// has happened. Nothing else about it changes.
pub open spec fn draws_again(before: OutputEntry, after: OutputEntry) -> bool {
    &&& after.id == before.id
    &&& after.mode == before.mode
    &&& after.lock_surface == before.lock_surface
    &&& after.lock_backdrop == before.lock_backdrop
    &&& after.state.frame_clock == before.state.frame_clock
    &&& after.state.current_frame_sequence == before.state.current_frame_sequence
    &&& after.state.animations_running == before.state.animations_running
    &&& match (before.state.redraw_state, after.state.redraw_state) {
        (RedrawState::Idle, new) => new is Queued,
        (RedrawState::Queued, new) => new is Queued,
        (RedrawState::WaitingForVblank { .. }, RedrawState::WaitingForVblank { queued }) => queued,
        (
            RedrawState::WaitingForEstimatedVblankTimer { token, .. },
            RedrawState::WaitingForEstimatedVblankTimer { token: same, queued },
        ) => same == token && queued,
        _ => false,
    }
}

/// Whether an output is drawn again, if it is there, and all others stay as they are.
pub open spec fn only_draws(
    before: Seq<OutputEntry>,
    after: Seq<OutputEntry>,
    output: u64,
) -> bool {
    &&& after.len() == before.len()
    &&& forall|i: int|
        0 <= i < before.len() && (#[trigger] before[i]).id != output ==> after[i] == before[i]
    &&& forall|i: int|
        0 <= i < before.len() && (#[trigger] before[i]).id == output && (forall|j: int|
            0 <= j < i ==> (#[trigger] before[j]).id != output) ==> draws_again(before[i], after[i])
}

/// Whether every output is drawn again.
pub open spec fn draws_all(before: Seq<OutputEntry>, after: Seq<OutputEntry>) -> bool {
    &&& after.len() == before.len()
    &&& forall|i: int| 0 <= i < before.len() ==> draws_again(#[trigger] before[i], after[i])
}

/// A redraw of an output is asked for there and nowhere else, and none is lost or interrupts a
/// wait.
pub proof fn asking_redraws_one_output(fht: &mut Fht, output: u64)
    requires
        call_ensures(Fht::queue_redraw, (fht, output), ()),
    ensures
        only_draws(old(fht).outputs@, final(fht).outputs@, output),
        *final(fht) == (Fht { outputs: final(fht).outputs, ..*old(fht) }),
{
    lemma_only_draws(*old(fht), output);
}

pub(crate) proof fn lemma_only_draws(fht: Fht, output: u64)
    ensures
        only_draws(
            fht.outputs@,
            if fht.has_output(output) {
                fht.outputs@.update(
                    fht.index_of(output),
                    fht.outputs@[fht.index_of(output)].queued(),
                )
            } else {
                fht.outputs@
            },
            output,
        ),
{
    lemma_first_index(fht.outputs@, for_output(output));
    assert forall|i: int|
        0 <= i < fht.outputs@.len() && (#[trigger] fht.outputs@[i]).id == output implies
        fht.has_output(output) by {
        assert(for_output(output)(fht.outputs@[i]));
    }
    if fht.has_output(output) {
        let k = fht.index_of(output);
        assert(for_output(output)(fht.outputs@[k]));
        assert forall|i: int|
            0 <= i < fht.outputs@.len() && (#[trigger] fht.outputs@[i]).id == output && (forall|
                j: int,
            |
                0 <= j < i ==> (#[trigger] fht.outputs@[j]).id != output) implies i == k by {
            if i < k {
                assert(!for_output(output)(fht.outputs@[i]));
            } else if k < i {
                assert(fht.outputs@[k].id != output);
            }
        }
    }
}

/// A redraw can be asked for on every output at once.
pub proof fn asking_redraws_all_outputs(fht: &mut Fht)
    requires
        call_ensures(Fht::queue_redraw_all, (fht,), ()),
    ensures
        draws_all(old(fht).outputs@, final(fht).outputs@),
        *final(fht) == (Fht { outputs: final(fht).outputs, ..*old(fht) }),
{
    lemma_draws_all(*old(fht), *final(fht));
}

pub(crate) proof fn lemma_draws_all(before: Fht, after: Fht)
    requires
        after.all_queued(&before),
    ensures
        draws_all(before.outputs@, after.outputs@),
{
    assert forall|i: int| 0 <= i < before.outputs@.len() implies draws_again(
        #[trigger] before.outputs@[i],
        after.outputs@[i],
    ) by {
        assert(after.outputs@[i] == before.outputs@[i].queued());
    }
}

/// A new output comes after the others, which stay as they are. It has the clock and the mode that
/// it was given, is not covered, and is drawn as soon as possible.
pub proof fn new_outputs_are_drawn(
    fht: &mut Fht,
    output: u64,
    clock: FrameClock,
    mode: Option<OutputMode>,
)
    requires
        call_ensures(Fht::add_output, (fht, output, clock, mode), ()),
    ensures
        final(fht).outputs@.len() == old(fht).outputs@.len() + 1,
        forall|i: int|
            0 <= i < old(fht).outputs@.len() ==> #[trigger] final(fht).outputs@[i] == old(
                fht,
            ).outputs@[i],
        ({
            let new = final(fht).outputs@[old(fht).outputs@.len() as int];
            &&& new.id == output
            &&& new.mode == mode
            &&& new.state.frame_clock@ == clock@
            &&& new.state.redraw_state is Queued
            &&& new.state.current_frame_sequence == 0
            &&& !new.state.animations_running
            &&& new.lock_surface is None
            &&& !new.lock_backdrop
        }),
        *final(fht) == (Fht { outputs: final(fht).outputs, ..*old(fht) }),
{
    assert forall|i: int| 0 <= i < old(fht).outputs@.len() implies #[trigger] final(
        fht
    ).outputs@[i] == old(fht).outputs@[i] by {
        assert(final(fht).outputs@.drop_last()[i] == old(fht).outputs@[i]);
    }
}

/// An output that is removed is gone, and the others stay, in their order.
pub proof fn removed_outputs_are_gone(fht: &mut Fht, output: u64, i: int)
    requires
        call_ensures(Fht::remove_output, (fht, output), ()),
        0 <= i < old(fht).outputs@.len(),
        old(fht).outputs@[i].id == output,
        forall|j: int|
            0 <= j < old(fht).outputs@.len() && j != i ==> (#[trigger] old(fht).outputs@[j]).id
                != output,
    ensures
        final(fht).outputs@.len() == old(fht).outputs@.len() - 1,
        forall|j: int|
            0 <= j < final(fht).outputs@.len() ==> #[trigger] final(fht).outputs@[j] == old(
                fht,
            ).outputs@[if j < i {
                j
            } else {
                j + 1
            }] && final(fht).outputs@[j].id != output,
        *final(fht) == (Fht { outputs: final(fht).outputs, ..*old(fht) }),
{
    lemma_first_index_is(old(fht).outputs@, for_output(output), i);
    assert forall|j: int| 0 <= j < final(fht).outputs@.len() implies #[trigger] final(
        fht
    ).outputs@[j] == old(fht).outputs@[if j < i {
        j
    } else {
        j + 1
    }] && final(fht).outputs@[j].id != output by {
        let k = if j < i { j } else { j + 1 };
        assert(old(fht).outputs@[k].id != output);
    }
}

/// An output that is not there is not removed, and is not found.
pub proof fn unknown_outputs_are_not_removed(fht: &mut Fht, output: u64, found: Option<usize>)
    requires
        call_ensures(Fht::remove_output, (fht, output), ()),
        call_ensures(Fht::output_index, (&*old(fht), output), found),
        forall|j: int|
            0 <= j < old(fht).outputs@.len() ==> (#[trigger] old(fht).outputs@[j]).id != output,
    ensures
        final(fht).outputs@ == old(fht).outputs@,
        found is None,
{
    lemma_first_index(old(fht).outputs@, for_output(output));
}

/// An output is found where it is.
pub proof fn outputs_are_found(fht: &Fht, output: u64, found: Option<usize>, i: int)
    requires
        call_ensures(Fht::output_index, (fht, output), found),
        0 <= i < fht.outputs@.len(),
        fht.outputs@[i].id == output,
    ensures
        found matches Some(k) && k <= i && fht.outputs@[k as int].id == output,
{
    lemma_first_index(fht.outputs@, for_output(output));
    assert(for_output(output)(fht.outputs@[i]));
}

/// Every output has nine workspaces; an index past the last one stands for the last one, and any
/// other for itself.
pub proof fn workspaces_are_clamped(idx: usize, workspace: usize)
    requires
        call_ensures(workspace_index, (idx,), workspace),
    ensures
        workspace < 9,
        idx < 9 ==> workspace == idx,
        idx >= 9 ==> workspace == 8,
{
}

/// A new compositor shows nothing, is not locked, and has nothing going on.
pub proof fn new_compositors_show_nothing(active: u64, fht: Fht)
    requires
        call_ensures(Fht::new, (active,), fht),
    ensures
        fht.active_output == active,
        fht.outputs@.len() == 0,
        fht.lock_state is Unlocked,
        !fht.stop && !fht.notified_idle_state && !fht.interactive_grab_active
            && !fht.resize_grab_active && !fht.gesture_action_executed,
        fht.idle_inhibiting_surfaces@.len() == 0 && fht.root_surfaces@.len() == 0
            && fht.unmapped_windows@.len() == 0 && fht.devices@.len() == 0,
        fht.focused_on_demand_layer_shell is None && fht.dnd_icon is None
            && fht.current_swipe_fingers is None,
{
}

} // verus!
