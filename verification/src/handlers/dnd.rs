//! Dragging things from one window to another.
use vstd::prelude::*;

use crate::state::{draws_all, lemma_draws_all, Fht, State};

verus! {

/// What something is dragged with.
#[derive(Clone, Copy, Debug, PartialEq, Eq, Structural)]
pub enum GrabType {
    Pointer,
    Touch,
}

/// What was dropped on.
#[derive(Clone, Copy, Debug, PartialEq, Eq, Structural)]
pub struct DropTarget {
    pub surface: u64,
    /// The root of the popup that the surface belongs to, if it is one.
    pub popup_root: Option<u64>,
}

/// The surface whose window is activated by a drop: the root of the tree that was dropped on, as
/// far as it is known.
pub open spec fn drop_root(root: Option<u64>, target: DropTarget) -> u64 {
    match root {
        Some(root) => root,
        None => match target.popup_root {
            Some(root) => root,
            None => target.surface,
        },
    }
}

impl State {
    /// Something is dragged: the icon is noted, and all outputs are redrawn. Returns what the
    /// grab is for.
    pub fn dnd_requested(&mut self, icon: Option<u64>, grab: GrabType) -> (r: GrabType)
        ensures
            r == grab,
            final(self).backend == old(self).backend,
            final(self).fht == (Fht {
                dnd_icon: icon,
                outputs: final(self).fht.outputs,
                ..old(self).fht
            }),
            final(self).fht.all_queued(&old(self).fht),
    {
        self.fht.dnd_icon = icon;
        self.fht.queue_redraw_all();
        grab
    }

    /// The surface whose window is activated by a drop, if the drop was accepted.
    pub fn drop_surface(&self, target: Option<DropTarget>, validated: bool) -> (surface: Option<
        u64,
    >)
        ensures
            surface == match target {
                Some(target) => if validated {
                    Some(
                        drop_root(
                            crate::assoc::lookup(self.fht.root_surfaces@, target.surface),
                            target,
                        ),
                    )
                } else {
                    None
                },
                None => None,
            },
    {
        match target {
            Some(target) => {
                if !validated {
                    return None;
                }
                let root = match crate::assoc::get(&self.fht.root_surfaces, target.surface) {
                    Some(root) => root,
                    None => match target.popup_root {
                        Some(root) => root,
                        None => target.surface,
                    },
                };
                Some(root)
            },
            None => None,
        }
    }

    /// Something was dropped; `window` is the window of [`State::drop_surface`], and `output` the
    /// output where it was dropped. The window is activated, the layer surface that the user
    /// clicked on is forgotten, and the output gets the focus. Returns the window to activate.
    pub fn dropped(&mut self, window: Option<u64>, output: Option<u64>) -> (activate: Option<u64>)
        ensures
            activate == window,
            final(self).backend == old(self).backend,
            final(self).fht == if window is Some {
                Fht {
                    focused_on_demand_layer_shell: None,
                    active_output: match output {
                        Some(output) => output,
                        None => old(self).fht.active_output,
                    },
                    ..old(self).fht
                }
            } else {
                old(self).fht
            },
    {
        if window.is_some() {
            self.fht.focused_on_demand_layer_shell = None;
            if let Some(output) = output {
                self.fht.active_output = output;
            }
        }
        window
    }
}

/// What is dragged is drawn with its icon, so all outputs are redrawn; the grab is of the kind that
/// the drag is.
pub proof fn dragged_icons_are_drawn(
    state: &mut State,
    icon: Option<u64>,
    grab: GrabType,
    made: GrabType,
)
    requires
        call_ensures(State::dnd_requested, (state, icon, grab), made),
    ensures
        made == grab,
        final(state).fht.dnd_icon == icon,
        draws_all(old(state).fht.outputs@, final(state).fht.outputs@),
        final(state).fht.active_output == old(state).fht.active_output,
{
    lemma_draws_all(old(state).fht, final(state).fht);
}

/// A drop activates the window of the root of the surface that was dropped on: the root that was
/// noted for it, or else that of its popup, or else the surface itself. A drop that was not
/// accepted, or went nowhere, activates none.
pub proof fn drops_go_to_the_root(
    state: &State,
    target: Option<DropTarget>,
    validated: bool,
    surface: Option<u64>,
)
    requires
        call_ensures(State::drop_surface, (state, target, validated), surface),
    ensures
        !validated || target is None ==> surface is None,
        target matches Some(target) ==> (validated ==> match (
            crate::assoc::lookup(state.fht.root_surfaces@, target.surface),
            target.popup_root,
        ) {
            (Some(root), _) => surface == Some(root),
            (None, Some(root)) => surface == Some(root),
            (None, None) => surface == Some(target.surface),
        }),
{
}

/// A window that something was dropped on is activated, and its output gets the focus; what the user
/// clicked on before is forgotten. Without a window nothing happens.
pub proof fn drops_activate_windows(
    state: &mut State,
    window: Option<u64>,
    output: Option<u64>,
    activate: Option<u64>,
)
    requires
        call_ensures(State::dropped, (state, window, output), activate),
    ensures
        activate == window,
        window is None ==> *final(state) == *old(state),
        window is Some ==> final(state).fht.focused_on_demand_layer_shell is None,
        window is Some && output is Some ==> final(state).fht.active_output == output->0,
        output is None ==> final(state).fht.active_output == old(state).fht.active_output,
        final(state).fht.outputs == old(state).fht.outputs,
{
}

} // verus!
