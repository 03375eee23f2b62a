//! Swipes over a touchpad.
use vstd::prelude::*;

use crate::config::keybind::{GestureAction, GestureDirection, GesturePattern};
use crate::seqs::{first_index, lemma_first_index, lemma_first_index_is, lemma_first_index_none};
use crate::state::{draws_all, lemma_draws_all, Fht, State, WORKSPACE_COUNT};

verus! {

/// How far a swipe has come, as far as its direction goes.
#[derive(Clone, Copy, Debug, PartialEq, Eq, Structural)]
pub struct SwipeState {
    /// The direction that the swipe was found to have.
    pub direction: Option<GestureDirection>,
    /// Whether the fingers moved far enough to tell the direction.
    pub past_threshold: bool,
    /// Whether they moved further sideways than up or down.
    pub horizontal: bool,
    /// Whether they moved to the right.
    pub rightwards: bool,
    /// Whether they moved down.
    pub downwards: bool,
    /// How far they moved in all, rounded down.
    pub distance: u64,
}

/// What becomes of a swipe event.
#[derive(Clone, Copy, Debug, PartialEq, Eq, Structural)]
pub enum SwipeOutcome {
    /// The client gets it.
    Forward,
    /// The swipe is tracked further, and the client gets the event as well.
    TrackAndForward,
    /// The switch of workspaces follows the fingers in this direction.
    FollowSwipe(GestureDirection),
    /// The action is run.
    Run(GestureAction),
    /// The event is bound to something that makes no sense here: nobody gets it.
    Swallow,
}

impl SwipeState {
    /// The direction of the swipe, as far as it can be told.
    pub open spec fn spec_direction(self) -> Option<GestureDirection> {
        if self.direction is Some {
            self.direction
        } else if !self.past_threshold {
            None
        } else if self.horizontal {
            Some(
                if self.rightwards {
                    GestureDirection::Right
                } else {
                    GestureDirection::Left
                },
            )
        } else {
            Some(
                if self.downwards {
                    GestureDirection::Down
                } else {
                    GestureDirection::Up
                },
            )
        }
    }

    /// The direction of the swipe, as far as it can be told.
    pub fn detect_direction(&self) -> (direction: Option<GestureDirection>)
        ensures
            direction == self.spec_direction(),
    {
        if let Some(direction) = self.direction {
            return Some(direction);
        }
        if !self.past_threshold {
            return None;
        }
        let direction = if self.horizontal {
            if self.rightwards {
                GestureDirection::Right
            } else {
                GestureDirection::Left
            }
        } else {
            if self.downwards {
                GestureDirection::Down
            } else {
                GestureDirection::Up
            }
        };
        Some(direction)
    }
}

/// Whether a binding is for the given swipe.
pub open spec fn matches_swipe(fingers: u32, distance: u64, direction: GestureDirection) -> spec_fn(
    (GestureAction, GesturePattern),
) -> bool {
    |bind: (GestureAction, GesturePattern)|
        bind.1.fingers == fingers && bind.1.min_swipe_distance <= distance && (bind.1.direction
            == GestureDirection::Any || bind.1.direction == direction)
}

/// Whether switching workspaces makes sense for the direction of the fingers: the next one comes
/// in from the right or from below.
pub open spec fn sensible_switch(action: GestureAction, direction: GestureDirection) -> bool {
    match action {
        GestureAction::FocusNextWorkspace => direction is Left || direction is Up,
        GestureAction::FocusPreviousWorkspace => direction is Right || direction is Down,
        GestureAction::Other(_) => false,
    }
}

/// Whether there is no workspace in the direction of the fingers.
pub open spec fn at_limit(workspace: usize, direction: GestureDirection) -> bool {
    match direction {
        GestureDirection::Left | GestureDirection::Up => workspace >= WORKSPACE_COUNT - 1,
        GestureDirection::Right | GestureDirection::Down => workspace == 0,
        GestureDirection::Any => false,
    }
}

/// What a bound swipe does.
pub open spec fn bound_outcome(
    action: GestureAction,
    direction: GestureDirection,
    workspace: usize,
) -> SwipeOutcome {
    match action {
        GestureAction::Other(_) => SwipeOutcome::Run(action),
        _ => if sensible_switch(action, direction) && !at_limit(workspace, direction) {
            SwipeOutcome::FollowSwipe(direction)
        } else {
            SwipeOutcome::Swallow
        },
    }
}

impl Fht {
    /// What becomes of a swipe event.
    pub open spec fn swipe_outcome(
        &self,
        swipe: Option<SwipeState>,
        binds: Seq<(GestureAction, GesturePattern)>,
        workspace: usize,
    ) -> SwipeOutcome {
        let fingers = match self.current_swipe_fingers {
            Some(fingers) => fingers,
            None => 0,
        };
        match swipe {
            None => SwipeOutcome::Forward,
            Some(swipe) => match swipe.spec_direction() {
                None => SwipeOutcome::TrackAndForward,
                Some(direction) => if self.gesture_action_executed {
                    SwipeOutcome::Forward
                } else {
                    match first_index(binds, matches_swipe(fingers, swipe.distance, direction)) {
                        None => SwipeOutcome::Forward,
                        Some(i) => bound_outcome(binds[i].0, direction, workspace),
                    }
                },
            },
        }
    }
}

/// The action of the first binding for a swipe.
pub fn find_gesture_action(
    binds: &[(GestureAction, GesturePattern)],
    fingers: u32,
    distance: u64,
    direction: GestureDirection,
) -> (r: Option<GestureAction>)
    ensures
        r == match first_index(binds@, matches_swipe(fingers, distance, direction)) {
            Some(i) => Some(binds@[i].0),
            None => None,
        },
{
    let ghost p = matches_swipe(fingers, distance, direction);
    let mut i: usize = 0;
    while i < binds.len()
        invariant
            0 <= i <= binds.len(),
            p == matches_swipe(fingers, distance, direction),
            forall|j: int| 0 <= j < i ==> !p(#[trigger] binds@[j]),
        decreases binds.len() - i,
    {
        let (action, pattern) = binds[i];
        if pattern.fingers == fingers && pattern.min_swipe_distance as u64 <= distance && (
        pattern.direction == GestureDirection::Any || pattern.direction == direction) {
            proof {
                lemma_first_index_is(binds@, p, i as int);
            }
            return Some(action);
        }
        i += 1;
    }
    proof {
        lemma_first_index_none(binds@, p);
    }
    None
}

impl State {
    /// A swipe begins.
    pub fn on_gesture_swipe_begin(&mut self, fingers: u32)
        ensures
            final(self).backend == old(self).backend,
            final(self).fht == (Fht {
                current_swipe_fingers: Some(fingers),
                gesture_action_executed: false,
                ..old(self).fht
            }),
    {
        self.fht.current_swipe_fingers = Some(fingers);
        self.fht.gesture_action_executed = false;
    }

    /// A swipe goes on.
    ///
    /// As soon as its direction is known, the first binding with the right number of fingers, a
    /// distance that was covered and the right direction is used. Switching workspaces follows
    /// the fingers; any other action runs once in a swipe.
    pub fn on_gesture_swipe_update(
        &mut self,
        swipe: Option<SwipeState>,
        binds: &[(GestureAction, GesturePattern)],
        workspace: usize,
    ) -> (outcome: SwipeOutcome)
        ensures
            outcome == old(self).fht.swipe_outcome(swipe, binds@, workspace),
            final(self).backend == old(self).backend,
            if outcome is FollowSwipe {
                &&& final(self).fht.same_but_outputs(&old(self).fht)
                &&& final(self).fht.all_queued(&old(self).fht)
            } else {
                final(self).fht == (Fht {
                    gesture_action_executed: old(self).fht.gesture_action_executed || outcome is
                        Run,
                    ..old(self).fht
                })
            },
    {
        let fingers: u32 = match self.fht.current_swipe_fingers {
            Some(fingers) => fingers,
            None => 0,
        };
        let swipe = match swipe {
            Some(swipe) => swipe,
            None => {
                return SwipeOutcome::Forward;
            },
        };
        let direction = match swipe.detect_direction() {
            Some(direction) => direction,
            None => {
                return SwipeOutcome::TrackAndForward;
            },
        };
        if self.fht.gesture_action_executed {
            return SwipeOutcome::Forward;
        }
        let action = match find_gesture_action(binds, fingers, swipe.distance, direction) {
            Some(action) => action,
            None => {
                return SwipeOutcome::Forward;
            },
        };
        let switches = match action {
            GestureAction::FocusNextWorkspace => direction == GestureDirection::Left || direction
                == GestureDirection::Up,
            GestureAction::FocusPreviousWorkspace => direction == GestureDirection::Right
                || direction == GestureDirection::Down,
            GestureAction::Other(_) => {
                self.fht.gesture_action_executed = true;
                return SwipeOutcome::Run(action);
            },
        };
        let limit = match direction {
            GestureDirection::Left => workspace >= WORKSPACE_COUNT - 1,
            GestureDirection::Up => workspace >= WORKSPACE_COUNT - 1,
            GestureDirection::Right => workspace == 0,
            GestureDirection::Down => workspace == 0,
            GestureDirection::Any => false,
        };
        if switches && !limit {
            self.fht.queue_redraw_all();
            return SwipeOutcome::FollowSwipe(direction);
        }
        SwipeOutcome::Swallow
    }

    /// A swipe ends.
    pub fn on_gesture_swipe_end(&mut self)
        ensures
            final(self).backend == old(self).backend,
            final(self).fht == (Fht { current_swipe_fingers: None, ..old(self).fht }),
    {
        self.fht.current_swipe_fingers = None;
    }
}

/// A swipe runs at most one action: once one ran, the rest of the swipe runs none.
pub proof fn swipes_run_one_action(
    fht: Fht,
    swipe: Option<SwipeState>,
    binds: Seq<(GestureAction, GesturePattern)>,
    workspace: usize,
)
    requires
        fht.gesture_action_executed,
    ensures
        !(fht.swipe_outcome(swipe, binds, workspace) is Run),
{
}

/// A swipe never leads past the first or the last workspace.
pub proof fn swipes_stay_in_range(
    fht: Fht,
    swipe: Option<SwipeState>,
    binds: Seq<(GestureAction, GesturePattern)>,
    workspace: usize,
)
    ensures
        fht.swipe_outcome(swipe, binds, workspace) matches SwipeOutcome::FollowSwipe(direction)
            ==> !at_limit(workspace, direction),
{
}

/// The direction of a swipe stays what it was found to be. As long as none was found, it is that in
/// which the fingers moved further, once they moved far enough: right or left, or down or up.
pub proof fn swipes_have_the_direction_of_the_fingers(
    swipe: &SwipeState,
    direction: Option<GestureDirection>,
)
    requires
        call_ensures(SwipeState::detect_direction, (swipe,), direction),
    ensures
        swipe.direction is Some ==> direction == swipe.direction,
        swipe.direction is None && !swipe.past_threshold ==> direction is None,
        swipe.direction is None && swipe.past_threshold ==> direction is Some && {
            &&& swipe.horizontal && swipe.rightwards ==> direction->0 is Right
            &&& swipe.horizontal && !swipe.rightwards ==> direction->0 is Left
            &&& !swipe.horizontal && swipe.downwards ==> direction->0 is Down
            &&& !swipe.horizontal && !swipe.downwards ==> direction->0 is Up
        },
{
}

/// Whether a binding is for a swipe: it has the number of fingers, a distance that was covered, and
/// either the direction or none in particular.
pub open spec fn fits_swipe(
    pattern: GesturePattern,
    fingers: u32,
    distance: u64,
    direction: GestureDirection,
) -> bool {
    &&& pattern.fingers == fingers
    &&& pattern.min_swipe_distance <= distance
    &&& pattern.direction is Any || pattern.direction == direction
}

/// The first binding that is for a swipe tells what the swipe does, and none does if there is none.
pub proof fn first_bindings_are_used(
    binds: &[(GestureAction, GesturePattern)],
    fingers: u32,
    distance: u64,
    direction: GestureDirection,
    found: Option<GestureAction>,
)
    requires
        call_ensures(find_gesture_action, (binds, fingers, distance, direction), found),
    ensures
        match found {
            Some(action) => exists|i: int|
                0 <= i < binds@.len() && (#[trigger] binds@[i]).0 == action && fits_swipe(
                    binds@[i].1,
                    fingers,
                    distance,
                    direction,
                ) && forall|j: int|
                    0 <= j < i ==> !fits_swipe(
                        (#[trigger] binds@[j]).1,
                        fingers,
                        distance,
                        direction,
                    ),
            None => forall|j: int|
                0 <= j < binds@.len() ==> !fits_swipe(
                    (#[trigger] binds@[j]).1,
                    fingers,
                    distance,
                    direction,
                ),
        },
{
    let p = matches_swipe(fingers, distance, direction);
    lemma_first_index(binds@, p);
    match first_index(binds@, p) {
        Some(i) => {
            assert(p(binds@[i]));
            assert(binds@[i].0 == found->0);
            assert forall|j: int| 0 <= j < i implies !fits_swipe(
                (#[trigger] binds@[j]).1,
                fingers,
                distance,
                direction,
            ) by {
                assert(!p(binds@[j]));
            }
        },
        None => {
            assert forall|j: int| 0 <= j < binds@.len() implies !fits_swipe(
                (#[trigger] binds@[j]).1,
                fingers,
                distance,
                direction,
            ) by {
                assert(!p(binds@[j]));
            }
        },
    }
}

/// A swipe that is bound to switching workspaces follows the fingers, as long as there is a
/// workspace there: the next one comes in when they move left or up, the previous one when they
/// move right or down. The outputs are redrawn then. In the wrong direction, or at the end,
/// nothing happens, and no client gets the event. Any other bound action runs once in a swipe.
pub proof fn bound_swipes_do_what_they_are_bound_to(
    state: &mut State,
    swipe: SwipeState,
    binds: &[(GestureAction, GesturePattern)],
    workspace: usize,
    outcome: SwipeOutcome,
    direction: GestureDirection,
    fingers: u32,
    action: GestureAction,
)
    requires
        !old(state).fht.gesture_action_executed,
        old(state).fht.current_swipe_fingers == Some(fingers),
        !(direction is Any),
        call_ensures(SwipeState::detect_direction, (&swipe,), Some(direction)),
        call_ensures(find_gesture_action, (binds, fingers, swipe.distance, direction), Some(action)),
        call_ensures(
            State::on_gesture_swipe_update,
            (state, Some(swipe), binds, workspace),
            outcome,
        ),
    ensures
        action is Other ==> outcome == SwipeOutcome::Run(action) && final(
            state
        ).fht.gesture_action_executed && final(state).fht.outputs == old(state).fht.outputs,
        action is FocusNextWorkspace ==> if (direction is Left || direction is Up) && workspace + 1
            < 9 {
            outcome == SwipeOutcome::FollowSwipe(direction) && draws_all(
                old(state).fht.outputs@,
                final(state).fht.outputs@,
            )
        } else {
            outcome is Swallow && *final(state) == *old(state)
        },
        action is FocusPreviousWorkspace ==> if (direction is Right || direction is Down)
            && workspace > 0 {
            outcome == SwipeOutcome::FollowSwipe(direction) && draws_all(
                old(state).fht.outputs@,
                final(state).fht.outputs@,
            )
        } else {
            outcome is Swallow && *final(state) == *old(state)
        },
        !(action is Other) ==> !final(state).fht.gesture_action_executed,
{
    if outcome is FollowSwipe {
        lemma_draws_all(old(state).fht, final(state).fht);
    }
}

/// A swipe that is not tracked, that already ran an action, or that nothing is bound to goes to the
/// client. So does one whose direction is not known yet, which is tracked further.
pub proof fn other_swipes_go_to_the_client(
    state: &mut State,
    swipe: Option<SwipeState>,
    binds: &[(GestureAction, GesturePattern)],
    workspace: usize,
    outcome: SwipeOutcome,
    fingers: u32,
    direction: Option<GestureDirection>,
    found: Option<GestureAction>,
)
    requires
        old(state).fht.current_swipe_fingers == Some(fingers),
        swipe matches Some(swipe) ==> call_ensures(
            SwipeState::detect_direction,
            (&swipe,),
            direction,
        ),
        swipe is Some && direction is Some ==> call_ensures(
            find_gesture_action,
            (binds, fingers, swipe->0.distance, direction->0),
            found,
        ),
        call_ensures(State::on_gesture_swipe_update, (state, swipe, binds, workspace), outcome),
    ensures
        swipe is None ==> outcome is Forward,
        swipe is Some && direction is None ==> outcome is TrackAndForward,
        swipe is Some && direction is Some && (old(state).fht.gesture_action_executed || found is
            None) ==> outcome is Forward,
        outcome is Forward || outcome is TrackAndForward ==> *final(state) == *old(state),
{
}

/// A swipe begins with its number of fingers and nothing run yet, and is forgotten at its end.
pub proof fn swipes_begin_and_end(begin: &mut State, end: &mut State, fingers: u32)
    requires
        call_ensures(State::on_gesture_swipe_begin, (begin, fingers), ()),
        call_ensures(State::on_gesture_swipe_end, (end,), ()),
    ensures
        final(begin).fht.current_swipe_fingers == Some(fingers),
        !final(begin).fht.gesture_action_executed,
        final(begin).fht.outputs == old(begin).fht.outputs,
        final(end).fht.current_swipe_fingers is None,
        final(end).fht.outputs == old(end).fht.outputs,
{
}

} // verus!
