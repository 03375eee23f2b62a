//! Clients that take pictures of the screen.
use vstd::prelude::*;

use crate::seqs::{first_index, lemma_first_index};
use crate::state::{for_output, lemma_only_draws, only_draws, State};

verus! {

impl State {
    /// A client asks for a picture of an output. Returns whether the request is kept, which it is
    /// for an output that exists.
    ///
    /// A request for the next change waits until there is one; any other one has the output
    /// redrawn.
    pub fn new_screencopy_frame(&mut self, output: u64, with_damage: bool) -> (kept: bool)
        ensures
            kept == old(self).fht.has_output(output),
            final(self).backend == old(self).backend,
            final(self).fht.same_but_outputs(&old(self).fht),
            final(self).fht.outputs@ == if kept && !with_damage {
                let i = old(self).fht.index_of(output);
                old(self).fht.outputs@.update(i, old(self).fht.outputs@[i].queued())
            } else {
                old(self).fht.outputs@
            },
    {
        match self.fht.output_index(output) {
            None => false,
            Some(_) => {
                if !with_damage {
                    self.fht.queue_redraw(output);
                }
                true
            },
        }
    }
}

/// A request for a picture is kept for an output that exists. If it is for the next change, nothing
/// is redrawn for it; else that output is, and no other one.
pub proof fn pictures_are_of_existing_outputs(
    state: &mut State,
    output: u64,
    with_damage: bool,
    kept: bool,
)
    requires
        call_ensures(State::new_screencopy_frame, (state, output, with_damage), kept),
    ensures
        kept <==> exists|i: int|
            0 <= i < old(state).fht.outputs@.len() && (#[trigger] old(state).fht.outputs@[i]).id
                == output,
        with_damage || !kept ==> final(state).fht.outputs@ == old(state).fht.outputs@,
        !with_damage ==> only_draws(old(state).fht.outputs@, final(state).fht.outputs@, output),
{
    let outputs = old(state).fht.outputs@;
    lemma_only_draws(old(state).fht, output);
    lemma_first_index(outputs, for_output(output));
    if kept {
        let i = first_index(outputs, for_output(output))->0;
        assert(for_output(output)(outputs[i]));
        assert(outputs[i].id == output);
    }
    assert forall|i: int| 0 <= i < outputs.len() && (#[trigger] outputs[i]).id == output implies
        kept by {
        assert(for_output(output)(outputs[i]));
    }
}

} // verus!
