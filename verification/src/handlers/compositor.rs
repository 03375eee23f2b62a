//! Surfaces and what they commit.
use vstd::prelude::*;

use crate::assoc::{
    get, insert, inserted, lemma_filter_unique, lemma_inserted_unique, lemma_lookup_inserted,
    lemma_lookup_removed, lookup, removed, take, unique_keys,
};
use crate::geometry::Point;
use crate::seqs::lemma_filter_take_succ;
use crate::state::{lemma_only_draws, only_draws, Fht, State};

verus! {

/// A window that is not shown yet.
#[derive(Clone, Copy, Debug, PartialEq, Eq, Structural)]
pub enum UnmappedWindow {
    /// The window has not been told its first size.
    Unconfigured(u64),
    /// The window was told its first size, and goes to the given workspace.
    Configured { window: u64, workspace_id: u64, opening_location: Option<Point> },
}

/// A window that is shown, with its output.
#[derive(Clone, Copy, Debug, PartialEq, Eq, Structural)]
pub struct MappedWindow {
    pub window: u64,
    pub output: u64,
}

/// A popup of a window or a layer surface.
#[derive(Clone, Copy, Debug, PartialEq, Eq, Structural)]
pub struct PopupState {
    /// Whether it is one of a window, and not one of an input method.
    pub xdg: bool,
    /// Whether it was told its first size.
    pub configured: bool,
    /// The output that shows it, where there is one.
    pub output: Option<u64>,
}

/// What is known about a surface that was committed.
#[derive(Clone, Copy, Debug, PartialEq, Eq, Structural)]
pub struct CommittedSurface {
    pub surface: u64,
    /// The root of the tree that the surface is in.
    pub root: u64,
    /// Whether the surface is shown together with its parent only.
    pub sync_subsurface: bool,
    /// Whether the surface has something to show.
    pub has_buffer: bool,
    /// The window whose surface this is, if it is shown.
    pub window: Option<MappedWindow>,
    /// The window whose surface the root is, if it is shown.
    pub root_window: Option<MappedWindow>,
    pub popup: Option<PopupState>,
    /// The output that shows the surface as a layer surface.
    pub layer_output: Option<u64>,
}

/// What a commit calls for.
#[derive(Clone, Copy, Debug, PartialEq, Eq, Structural)]
#[allow(inconsistent_fields)]
pub enum CommitAction {
    /// The surface is shown together with its parent.
    Synced,
    /// The window is told its first size, in the next dispatch cycle.
    QueueInitialConfigure { window: u64 },
    /// The window has nothing to show yet: it is refreshed and told its size again.
    Refresh { window: u64 },
    /// The window is shown for the first time; see [`State::map_committed_window`], which also
    /// redraws its output.
    MapWindow { window: u64, workspace_id: u64, opening_location: Option<Point> },
    /// The window takes over what was committed.
    UpdateWindow { window: u64 },
    /// The window has nothing to show any more: it is closed, and starts over.
    UnmapWindow { window: u64 },
    /// The popup takes over what was committed, after it was told its first size if `configure`
    /// says so, with the scale of the output `scale`.
    UpdatePopup { configure: bool, scale: Option<u64> },
    /// The layer surface takes over what was committed.
    UpdateLayer { output: u64 },
    /// Nobody knows the surface.
    Unknown,
}

impl CommittedSurface {
    /// What a commit calls for, when the surface is not that of a window which is not shown yet.
    pub open spec fn shown_action(self) -> CommitAction {
        if self.surface == self.root && self.window is Some {
            if self.has_buffer {
                CommitAction::UpdateWindow { window: self.window->0.window }
            } else {
                CommitAction::UnmapWindow { window: self.window->0.window }
            }
        } else if self.root_window is Some {
            CommitAction::UpdateWindow { window: self.root_window->0.window }
        } else if self.popup is Some {
            let popup = self.popup->0;
            CommitAction::UpdatePopup {
                configure: popup.xdg && !popup.configured,
                scale: if popup.xdg && !popup.configured {
                    popup.output
                } else {
                    None
                },
            }
        } else if self.layer_output is Some {
            CommitAction::UpdateLayer { output: self.layer_output->0 }
        } else {
            CommitAction::Unknown
        }
    }

    /// What a commit calls for.
    pub open spec fn action(self, unmapped: Option<UnmappedWindow>) -> CommitAction {
        if self.sync_subsurface {
            CommitAction::Synced
        } else if self.surface == self.root && unmapped is Some {
            match unmapped->0 {
                UnmappedWindow::Unconfigured(window) => CommitAction::QueueInitialConfigure {
                    window,
                },
                UnmappedWindow::Configured { window, workspace_id, opening_location } =>
                    if self.has_buffer {
                        CommitAction::MapWindow { window, workspace_id, opening_location }
                    } else {
                        CommitAction::Refresh { window }
                    },
            }
        } else {
            self.shown_action()
        }
    }

    /// The output that is redrawn because of a commit.
    pub open spec fn redraws(self, action: CommitAction) -> Option<u64> {
        match action {
            CommitAction::UpdateWindow { .. } => if self.surface == self.root && self.window is
                Some {
                Some(self.window->0.output)
            } else {
                Some(self.root_window->0.output)
            },
            CommitAction::UnmapWindow { .. } => Some(self.window->0.output),
            CommitAction::UpdatePopup { .. } => self.popup->0.output,
            CommitAction::UpdateLayer { output } => Some(output),
            _ => None,
        }
    }

    /// The windows that are not shown yet, after a commit.
    pub open spec fn unmapped_after(
        self,
        unmapped: Seq<(u64, UnmappedWindow)>,
        action: CommitAction,
    ) -> Seq<(u64, UnmappedWindow)> {
        match action {
            CommitAction::QueueInitialConfigure { .. } | CommitAction::MapWindow { .. } => removed(
                unmapped,
                self.surface,
            ),
            CommitAction::UnmapWindow { window } => inserted(
                unmapped,
                self.surface,
                UnmappedWindow::Unconfigured(window),
            ),
            _ => unmapped,
        }
    }
}

/// Whether an entry has nothing to do with a surface.
pub open spec fn unrelated(surface: u64) -> spec_fn((u64, u64)) -> bool {
    |entry: (u64, u64)| entry.0 != surface && entry.1 != surface
}

impl State {
    /// A surface was committed.
    ///
    /// The root of its tree is noted, since it cannot be found any more once the surface is gone.
    /// A window that is not shown yet is first told its size, and shown once it has something to
    /// show. A window that is shown and has nothing to show any more starts over. Whatever shows
    /// the surface is redrawn; a window that is shown for the first time is redrawn by
    /// [`State::map_committed_window`], which tells where it is shown.
    pub fn commit(&mut self, committed: CommittedSurface) -> (action: CommitAction)
        ensures
            final(self).backend == old(self).backend,
            old(self).fht.wf() ==> final(self).fht.wf(),
            action == committed.action(
                lookup(old(self).fht.unmapped_windows@, committed.surface),
            ),
            final(self).fht.root_surfaces@ == inserted(
                old(self).fht.root_surfaces@,
                committed.surface,
                committed.root,
            ),
            final(self).fht.unmapped_windows@ == committed.unmapped_after(
                old(self).fht.unmapped_windows@,
                action,
            ),
            final(self).fht == (Fht {
                root_surfaces: final(self).fht.root_surfaces,
                unmapped_windows: final(self).fht.unmapped_windows,
                outputs: final(self).fht.outputs,
                ..old(self).fht
            }),
            final(self).fht.outputs@ == match committed.redraws(action) {
                Some(output) => if old(self).fht.has_output(output) {
                    let i = old(self).fht.index_of(output);
                    old(self).fht.outputs@.update(i, old(self).fht.outputs@[i].queued())
                } else {
                    old(self).fht.outputs@
                },
                None => old(self).fht.outputs@,
            },
    {
        insert(&mut self.fht.root_surfaces, committed.surface, committed.root);
        proof {
            if old(self).fht.wf() {
                lemma_commit_wf(old(self).fht, committed);
            }
        }
        if committed.sync_subsurface {
            return CommitAction::Synced;
        }
        let is_root = committed.surface == committed.root;
        if is_root {
            match get(&self.fht.unmapped_windows, committed.surface) {
                Some(UnmappedWindow::Unconfigured(window)) => {
                    take(&mut self.fht.unmapped_windows, committed.surface);
                    return CommitAction::QueueInitialConfigure { window };
                },
                Some(UnmappedWindow::Configured { window, workspace_id, opening_location }) => {
                    if !committed.has_buffer {
                        return CommitAction::Refresh { window };
                    }
                    take(&mut self.fht.unmapped_windows, committed.surface);
                    return CommitAction::MapWindow { window, workspace_id, opening_location };
                },
                None => {},
            }
            if let Some(mapped) = committed.window {
                if !committed.has_buffer {
                    insert(
                        &mut self.fht.unmapped_windows,
                        committed.surface,
                        UnmappedWindow::Unconfigured(mapped.window),
                    );
                    self.fht.queue_redraw(mapped.output);
                    return CommitAction::UnmapWindow { window: mapped.window };
                }
                self.fht.queue_redraw(mapped.output);
                return CommitAction::UpdateWindow { window: mapped.window };
            }
        }
        if let Some(mapped) = committed.root_window {
            self.fht.queue_redraw(mapped.output);
            return CommitAction::UpdateWindow { window: mapped.window };
        }
        if let Some(popup) = committed.popup {
            let configure = popup.xdg && !popup.configured;
            let scale = if configure {
                popup.output
            } else {
                None
            };
            if let Some(output) = popup.output {
                self.fht.queue_redraw(output);
            }
            return CommitAction::UpdatePopup { configure, scale };
        }
        if let Some(output) = committed.layer_output {
            self.fht.queue_redraw(output);
            return CommitAction::UpdateLayer { output };
        }
        CommitAction::Unknown
    }

    /// A surface is gone. Returns the root of the tree that it was in, so that a window of that
    /// tree can still be drawn with it while it closes.
    pub fn destroyed(&mut self, surface: u64) -> (root: Option<u64>)
        ensures
            root == lookup(old(self).fht.root_surfaces@, surface),
            final(self).backend == old(self).backend,
            old(self).fht.wf() ==> final(self).fht.wf(),
            final(self).fht == (Fht {
                root_surfaces: final(self).fht.root_surfaces,
                ..old(self).fht
            }),
            final(self).fht.root_surfaces@ == old(self).fht.root_surfaces@.filter(
                unrelated(surface),
            ),
    {
        let root = get(&self.fht.root_surfaces, surface);
        let ghost entries = self.fht.root_surfaces@;
        let mut kept: Vec<(u64, u64)> = Vec::new();
        let mut i: usize = 0;
        assert(entries.take(0).filter(unrelated(surface)) =~= Seq::empty()) by {
            reveal(Seq::filter);
        }
        while i < self.fht.root_surfaces.len()
            invariant
                0 <= i <= self.fht.root_surfaces.len(),
                *self == *old(self),
                entries == self.fht.root_surfaces@,
                kept@ == entries.take(i as int).filter(unrelated(surface)),
            decreases self.fht.root_surfaces.len() - i,
        {
            proof {
                lemma_filter_take_succ(entries, unrelated(surface), i as int);
            }
            let entry = self.fht.root_surfaces[i];
            if entry.0 != surface && entry.1 != surface {
                kept.push(entry);
            }
            i += 1;
        }
        assert(entries.take(entries.len() as int) =~= entries);
        self.fht.root_surfaces = kept;
        proof {
            if old(self).fht.wf() {
                lemma_filter_unique(entries, unrelated(surface));
            }
        }
        root
    }
}

proof fn lemma_commit_wf(fht: Fht, committed: CommittedSurface)
    requires
        fht.wf(),
    ensures
        unique_keys(inserted(fht.root_surfaces@, committed.surface, committed.root)),
        unique_keys(removed(fht.unmapped_windows@, committed.surface)),
        forall|w: u64| #[trigger]
            unique_keys(
                inserted(
                    fht.unmapped_windows@,
                    committed.surface,
                    UnmappedWindow::Unconfigured(w),
                ),
            ),
{
    lemma_inserted_unique(fht.root_surfaces@, committed.surface, committed.root);
    lemma_lookup_removed(fht.unmapped_windows@, committed.surface);
    assert forall|w: u64| #[trigger]
        unique_keys(
            inserted(fht.unmapped_windows@, committed.surface, UnmappedWindow::Unconfigured(w)),
        ) by {
        lemma_inserted_unique(
            fht.unmapped_windows@,
            committed.surface,
            UnmappedWindow::Unconfigured(w),
        );
    }
}

/// A surface that was committed last has its root noted, and no other surface is affected.
pub proof fn commits_note_the_root(
    roots: Seq<(u64, u64)>,
    committed: CommittedSurface,
    other: u64,
)
    ensures
        ({
            let after = inserted(roots, committed.surface, committed.root);
            &&& lookup(after, committed.surface) == Some(committed.root)
            &&& other != committed.surface ==> lookup(after, other) == lookup(roots, other)
            &&& unique_keys(roots) ==> unique_keys(after)
        }),
{
    lemma_lookup_inserted(roots, committed.surface, committed.root, other);
    if unique_keys(roots) {
        lemma_inserted_unique(roots, committed.surface, committed.root);
    }
}

/// A surface that is gone is not noted any more, neither as a surface nor as a root.
pub proof fn destroyed_surfaces_are_forgotten(roots: Seq<(u64, u64)>, surface: u64, i: int)
    requires
        0 <= i < roots.filter(unrelated(surface)).len(),
    ensures
        roots.filter(unrelated(surface))[i].0 != surface,
        roots.filter(unrelated(surface))[i].1 != surface,
{
    roots.lemma_filter_pred(unrelated(surface), i);
}

/// A window goes through the same steps each time it is shown: while it has not been told a size,
/// a commit asks for that; after that, the first commit with something to show maps it, and
/// unmapping it leads back to the start.
pub proof fn windows_are_mapped_in_steps(
    committed: CommittedSurface,
    unmapped: Seq<(u64, UnmappedWindow)>,
)
    requires
        committed.surface == committed.root,
        !committed.sync_subsurface,
        unique_keys(unmapped),
    ensures
        ({
            let action = committed.action(lookup(unmapped, committed.surface));
            let after = lookup(
                committed.unmapped_after(unmapped, action),
                committed.surface,
            );
            &&& lookup(unmapped, committed.surface) matches Some(UnmappedWindow::Unconfigured(w))
                ==> action == (CommitAction::QueueInitialConfigure { window: w }) && after is None
            &&& action is MapWindow ==> committed.has_buffer && after is None
            &&& action matches CommitAction::UnmapWindow { window } ==> after == Some(
                UnmappedWindow::Unconfigured(window),
            )
        }),
{
    lemma_lookup_removed(unmapped, committed.surface);
    if committed.window is Some {
        lemma_lookup_inserted(
            unmapped,
            committed.surface,
            UnmappedWindow::Unconfigured(committed.window->0.window),
            committed.surface,
        );
    }
}

/// A surface that is shown together with its parent calls for nothing by itself; the root of its
/// tree is noted all the same, as it is for any other surface.
pub proof fn synced_surfaces_wait_for_their_parent(
    state: &mut State,
    committed: CommittedSurface,
    action: CommitAction,
    other: u64,
)
    requires
        call_ensures(State::commit, (state, committed), action),
    ensures
        committed.sync_subsurface <==> action is Synced,
        committed.sync_subsurface ==> final(state).fht.outputs@ == old(state).fht.outputs@
            && final(state).fht.unmapped_windows@ == old(state).fht.unmapped_windows@,
        lookup(final(state).fht.root_surfaces@, committed.surface) == Some(committed.root),
        other != committed.surface ==> lookup(final(state).fht.root_surfaces@, other) == lookup(
            old(state).fht.root_surfaces@,
            other,
        ),
        final(state).fht.lock_state == old(state).fht.lock_state,
        final(state).fht.active_output == old(state).fht.active_output,
{
    lemma_lookup_inserted(
        old(state).fht.root_surfaces@,
        committed.surface,
        committed.root,
        other,
    );
}

/// A window that waits to be shown is told its first size when it is committed for the first time;
/// after that it is shown by the first commit with a buffer, on the workspace and at the location
/// that it was configured for. Until then a commit only refreshes it. It waits no longer once it
/// is told its size or shown, and nothing is redrawn yet.
pub proof fn waiting_windows_are_configured_then_shown(
    state: &mut State,
    committed: CommittedSurface,
    action: CommitAction,
)
    requires
        unique_keys(old(state).fht.unmapped_windows@),
        !committed.sync_subsurface,
        committed.surface == committed.root,
        lookup(old(state).fht.unmapped_windows@, committed.surface) is Some,
        call_ensures(State::commit, (state, committed), action),
    ensures
        final(state).fht.outputs@ == old(state).fht.outputs@,
        match lookup(old(state).fht.unmapped_windows@, committed.surface)->0 {
            UnmappedWindow::Unconfigured(waiting) => action
                == (CommitAction::QueueInitialConfigure { window: waiting }) && lookup(
                final(state).fht.unmapped_windows@,
                committed.surface,
            ) is None,
            UnmappedWindow::Configured { window: waiting, workspace_id: to, opening_location: at } =>
                if committed.has_buffer {
                    action == (CommitAction::MapWindow {
                        window: waiting,
                        workspace_id: to,
                        opening_location: at,
                    }) && lookup(final(state).fht.unmapped_windows@, committed.surface) is None
                } else {
                    action == (CommitAction::Refresh { window: waiting }) && final(
                        state
                    ).fht.unmapped_windows@ == old(state).fht.unmapped_windows@
                },
        },
{
    lemma_lookup_removed(old(state).fht.unmapped_windows@, committed.surface);
}

/// A window that is shown takes over what was committed to it, and its output is redrawn; without a
/// buffer it is unmapped, and waits to be told a size again.
pub proof fn shown_windows_follow_their_surface(
    state: &mut State,
    committed: CommittedSurface,
    action: CommitAction,
    shown: MappedWindow,
)
    requires
        !committed.sync_subsurface,
        committed.surface == committed.root,
        lookup(old(state).fht.unmapped_windows@, committed.surface) is None,
        committed.window == Some(shown),
        call_ensures(State::commit, (state, committed), action),
    ensures
        only_draws(old(state).fht.outputs@, final(state).fht.outputs@, shown.output),
        committed.has_buffer ==> action == (CommitAction::UpdateWindow { window: shown.window })
            && final(state).fht.unmapped_windows@ == old(state).fht.unmapped_windows@,
        !committed.has_buffer ==> action == (CommitAction::UnmapWindow { window: shown.window })
            && lookup(final(state).fht.unmapped_windows@, committed.surface) == Some(
            UnmappedWindow::Unconfigured(shown.window),
        ),
{
    lemma_only_draws(old(state).fht, shown.output);
    lemma_lookup_inserted(
        old(state).fht.unmapped_windows@,
        committed.surface,
        UnmappedWindow::Unconfigured(shown.window),
        committed.surface,
    );
}

/// Any other surface updates what shows it: the window of its root before anything else, then a
/// popup, then a layer surface. The output of that, and no other one, is redrawn. A popup of a
/// window is told its first size once, at the scale of its output.
pub proof fn other_surfaces_update_what_shows_them(
    state: &mut State,
    committed: CommittedSurface,
    action: CommitAction,
)
    requires
        !committed.sync_subsurface,
        committed.surface != committed.root || committed.window is None && lookup(
            old(state).fht.unmapped_windows@,
            committed.surface,
        ) is None,
        call_ensures(State::commit, (state, committed), action),
    ensures
        final(state).fht.unmapped_windows@ == old(state).fht.unmapped_windows@,
        match (committed.root_window, committed.popup, committed.layer_output) {
            (Some(shown), _, _) => action == (CommitAction::UpdateWindow { window: shown.window })
                && only_draws(old(state).fht.outputs@, final(state).fht.outputs@, shown.output),
            (None, Some(popup), _) => {
                &&& action is UpdatePopup
                &&& action->configure == (popup.xdg && !popup.configured)
                &&& action->scale == (if popup.xdg && !popup.configured {
                    popup.output
                } else {
                    None
                })
                &&& popup.output matches Some(output) ==> only_draws(
                    old(state).fht.outputs@,
                    final(state).fht.outputs@,
                    output,
                )
                &&& popup.output is None ==> final(state).fht.outputs@ == old(
                    state,
                ).fht.outputs@
            },
            (None, None, Some(output)) => action == (CommitAction::UpdateLayer { output })
                && only_draws(old(state).fht.outputs@, final(state).fht.outputs@, output),
            (None, None, None) => action is Unknown && final(state).fht.outputs@ == old(
                state,
            ).fht.outputs@,
        },
{
    if let Some(shown) = committed.root_window {
        lemma_only_draws(old(state).fht, shown.output);
    }
    if let Some(popup) = committed.popup {
        if let Some(output) = popup.output {
            lemma_only_draws(old(state).fht, output);
        }
    }
    if let Some(output) = committed.layer_output {
        lemma_only_draws(old(state).fht, output);
    }
}

/// A surface that is gone leaves no trace: neither it nor anything that had it as its root is noted
/// any more, and everything else is. The root that was noted for it is told.
pub proof fn gone_surfaces_are_forgotten(
    state: &mut State,
    surface: u64,
    root: Option<u64>,
    entry: (u64, u64),
)
    requires
        call_ensures(State::destroyed, (state, surface), root),
    ensures
        root == lookup(old(state).fht.root_surfaces@, surface),
        final(state).fht.root_surfaces@.contains(entry) <==> old(
            state,
        ).fht.root_surfaces@.contains(entry) && entry.0 != surface && entry.1 != surface,
        final(state).fht.outputs == old(state).fht.outputs,
        final(state).fht.unmapped_windows == old(state).fht.unmapped_windows,
{
    let roots = old(state).fht.root_surfaces@;
    let p = unrelated(surface);
    let after = roots.filter(p);
    if after.contains(entry) {
        let i = choose|i: int| 0 <= i < after.len() && after[i] == entry;
        roots.lemma_filter_pred(p, i);
        roots.lemma_filter_contains_rev(p, entry);
    }
    if roots.contains(entry) && p(entry) {
        let i = choose|i: int| 0 <= i < roots.len() && roots[i] == entry;
        roots.lemma_filter_contains(p, i);
    }
}

} // verus!
