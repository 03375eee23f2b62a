//! A grab to pick a window or a layer surface.
use vstd::prelude::*;

use crate::handlers::layer_shell::{KeyboardInteractivity, Layer};
use crate::state::Fht;

verus! {

/// The number of the left mouse button.
pub const BTN_LEFT: u32 = 0x110;

/// What the user is asked to pick.
#[derive(Clone, Copy, Debug, PartialEq, Eq, Structural)]
pub enum PickSurfaceTarget {
    Window,
    LayerSurface,
}

/// A layer surface, as clients of the socket are told about it.
#[derive(Debug)]
pub struct LayerShell {
    pub namespace: String,
    pub output: String,
    pub layer: Layer,
    pub keyboard_interactivity: KeyboardInteractivity,
}

/// The answer to asking for a window.
#[derive(Clone, Copy, Debug, PartialEq, Eq, Structural)]
pub enum PickWindowResult {
    Picked(usize),
    /// Something else than a window was picked.
    NotAWindow,
    Cancelled,
}

/// The answer to asking for a layer surface.
#[derive(Debug)]
pub enum PickLayerShellResult {
    Picked(LayerShell),
    /// Something else than a layer surface was picked.
    NotALayerShell,
    Cancelled,
}

/// The answer to whoever asked the user to pick something.
#[derive(Debug)]
pub enum PickAnswer {
    Window(PickWindowResult),
    LayerShell(PickLayerShellResult),
}

impl PickSurfaceTarget {
    /// The answer when the user picked a window.
    pub open spec fn window_answer(self, window_id: usize) -> PickAnswer {
        match self {
            PickSurfaceTarget::Window => PickAnswer::Window(PickWindowResult::Picked(window_id)),
            PickSurfaceTarget::LayerSurface => PickAnswer::LayerShell(
                PickLayerShellResult::NotALayerShell,
            ),
        }
    }

    /// The answer when the user picked a layer surface.
    pub open spec fn layer_answer(self, layer: LayerShell) -> PickAnswer {
        match self {
            PickSurfaceTarget::Window => PickAnswer::Window(PickWindowResult::NotAWindow),
            PickSurfaceTarget::LayerSurface => PickAnswer::LayerShell(
                PickLayerShellResult::Picked(layer),
            ),
        }
    }

    /// The answer when the user picked a window.
    pub fn picked_window(&self, window_id: usize) -> (answer: PickAnswer)
        ensures
            answer == self.window_answer(window_id),
    {
        match self {
            PickSurfaceTarget::Window => PickAnswer::Window(PickWindowResult::Picked(window_id)),
            PickSurfaceTarget::LayerSurface => PickAnswer::LayerShell(
                PickLayerShellResult::NotALayerShell,
            ),
        }
    }

    /// The answer when the user picked a layer surface.
    pub fn picked_layer_surface(&self, layer: LayerShell) -> (answer: PickAnswer)
        ensures
            answer == self.layer_answer(layer),
    {
        match self {
            PickSurfaceTarget::Window => PickAnswer::Window(PickWindowResult::NotAWindow),
            PickSurfaceTarget::LayerSurface => PickAnswer::LayerShell(
                PickLayerShellResult::Picked(layer),
            ),
        }
    }

    /// The answer when the user picked nothing. It gets lost where another answer was given
    /// before.
    pub fn cancel(&self) -> (answer: PickAnswer)
        ensures
            answer == match *self {
                PickSurfaceTarget::Window => PickAnswer::Window(PickWindowResult::Cancelled),
                PickSurfaceTarget::LayerSurface => PickAnswer::LayerShell(
                    PickLayerShellResult::Cancelled,
                ),
            },
    {
        match self {
            PickSurfaceTarget::Window => PickAnswer::Window(PickWindowResult::Cancelled),
            PickSurfaceTarget::LayerSurface => PickAnswer::LayerShell(
                PickLayerShellResult::Cancelled,
            ),
        }
    }
}

/// A layer surface at the position of the pointer.
#[derive(Debug)]
pub struct PickLayer {
    pub layer: LayerShell,
    /// Whether the pointer is over one of its surfaces, and not only inside its bounds.
    pub hit: bool,
}

/// A window at the position of the pointer.
#[derive(Clone, Copy, Debug, PartialEq, Eq, Structural)]
pub struct PickWindow {
    pub window: usize,
    /// Whether the pointer is over one of its surfaces.
    pub hit: bool,
}

/// What is at the position of the pointer on the active output.
#[derive(Debug)]
pub struct PickCandidates {
    pub overlay: Option<PickLayer>,
    /// The window that fills the output.
    pub fullscreen: Option<PickWindow>,
    pub top: Option<PickLayer>,
    pub window: Option<usize>,
    pub bottom: Option<PickLayer>,
    pub background: Option<PickLayer>,
}

/// What the user picked.
#[derive(Debug)]
pub enum Picked {
    Nothing,
    Window(usize),
    Layer(LayerShell),
}

/// What a click on a layer surface picks.
pub open spec fn pick_layer(candidate: PickLayer) -> Picked {
    if candidate.hit {
        Picked::Layer(candidate.layer)
    } else {
        Picked::Nothing
    }
}

impl PickCandidates {
    /// What a click picks: the first of what there is, from top to bottom. Something that is
    /// there, but not under the pointer with any of its surfaces, still hides what is below it.
    pub open spec fn picked(self) -> Picked {
        if self.overlay is Some {
            pick_layer(self.overlay->0)
        } else if self.fullscreen is Some {
            let candidate = self.fullscreen->0;
            if candidate.hit {
                Picked::Window(candidate.window)
            } else {
                Picked::Nothing
            }
        } else if self.top is Some {
            pick_layer(self.top->0)
        } else if self.window is Some {
            Picked::Window(self.window->0)
        } else if self.bottom is Some {
            pick_layer(self.bottom->0)
        } else if self.background is Some {
            pick_layer(self.background->0)
        } else {
            Picked::Nothing
        }
    }

    /// What a click picks.
    pub fn pick(self) -> (picked: Picked)
        ensures
            picked == self.picked(),
    {
        let layer = if let Some(candidate) = self.overlay {
            Some(candidate)
        } else if let Some(candidate) = self.fullscreen {
            return if candidate.hit {
                Picked::Window(candidate.window)
            } else {
                Picked::Nothing
            };
        } else if let Some(candidate) = self.top {
            Some(candidate)
        } else if let Some(window) = self.window {
            return Picked::Window(window);
        } else if let Some(candidate) = self.bottom {
            Some(candidate)
        } else {
            self.background
        };
        match layer {
            Some(candidate) => if candidate.hit {
                Picked::Layer(candidate.layer)
            } else {
                Picked::Nothing
            },
            None => Picked::Nothing,
        }
    }
}

/// What a button event does during the grab.
#[derive(Debug)]
pub enum PickButton {
    /// The event goes on to whatever is under the pointer.
    PassThrough,
    /// The grab ends, with an answer if something was picked, and the event goes nowhere.
    EndGrab(Option<PickAnswer>),
}

/// A grab that lets the user pick something.
#[derive(Clone, Copy, Debug, PartialEq, Eq, Structural)]
pub struct PickSurfaceGrab {
    pub target: PickSurfaceTarget,
}

impl PickSurfaceGrab {
    /// React to a mouse button. Only a press of the left button picks something. While the
    /// session is locked, nothing is picked, so that nothing about it gets known.
    pub fn button(&self, fht: &Fht, button: u32, pressed: bool, candidates: PickCandidates) -> (r:
        PickButton)
        ensures
            r == if button != BTN_LEFT || !pressed {
                PickButton::PassThrough
            } else if fht.lock_state.hides_session() {
                PickButton::EndGrab(None)
            } else {
                PickButton::EndGrab(
                    match candidates.picked() {
                        Picked::Nothing => None,
                        Picked::Window(id) => Some(self.target.window_answer(id)),
                        Picked::Layer(layer) => Some(self.target.layer_answer(layer)),
                    },
                )
            },
    {
        if button != BTN_LEFT || !pressed {
            return PickButton::PassThrough;
        }
        if fht.is_locked() {
            return PickButton::EndGrab(None);
        }
        match candidates.pick() {
            Picked::Nothing => PickButton::EndGrab(None),
            Picked::Window(id) => PickButton::EndGrab(Some(self.target.picked_window(id))),
            Picked::Layer(layer) => PickButton::EndGrab(
                Some(self.target.picked_layer_surface(layer)),
            ),
        }
    }
}

/// Whoever asks for a window is never told about a layer surface, and the other way round.
pub proof fn answers_fit_the_question(target: PickSurfaceTarget, id: usize, layer: LayerShell)
    ensures
        target is Window <==> target.window_answer(id) is Window,
        target is Window <==> target.layer_answer(layer) is Window,
{
}

/// A click picks the topmost thing there is: an overlay, the window that fills the output, the top
/// layer, a window, the bottom layer, and the background, in this order. If the pointer is not over
/// any surface of that thing, nothing is picked, not even what is below.
pub proof fn clicks_pick_the_topmost_thing(candidates: PickCandidates, picked: Picked)
    requires
        call_ensures(PickCandidates::pick, (candidates,), picked),
    ensures
        ({
            let c = candidates;
            let layer = if c.overlay is Some {
                c.overlay
            } else if c.fullscreen is Some {
                None
            } else if c.top is Some {
                c.top
            } else if c.window is Some {
                None
            } else if c.bottom is Some {
                c.bottom
            } else {
                c.background
            };
            &&& layer matches Some(layer) ==> if layer.hit {
                picked == Picked::Layer(layer.layer)
            } else {
                picked is Nothing
            }
            &&& c.overlay is None && c.fullscreen is Some ==> if c.fullscreen->0.hit {
                picked == Picked::Window(c.fullscreen->0.window)
            } else {
                picked is Nothing
            }
            &&& c.overlay is None && c.fullscreen is None && c.top is None && c.window is Some
                ==> picked == Picked::Window(c.window->0)
            &&& c.overlay is None && c.fullscreen is None && c.top is None && c.window is None
                && c.bottom is None && c.background is None ==> picked is Nothing
        }),
{
}

/// Only a press of the left button picks something, and it ends the grab; while the session is
/// hidden it picks nothing. Every other button event goes on to what is under the pointer.
pub proof fn left_presses_end_the_grab(
    grab: &PickSurfaceGrab,
    fht: &Fht,
    button: u32,
    pressed: bool,
    candidates: PickCandidates,
    outcome: PickButton,
    picked: Picked,
)
    requires
        call_ensures(PickSurfaceGrab::button, (grab, fht, button, pressed, candidates), outcome),
        call_ensures(PickCandidates::pick, (candidates,), picked),
    ensures
        outcome is PassThrough <==> !(button == 0x110 && pressed),
        button == 0x110 && pressed && (fht.lock_state is Locked || fht.lock_state is Locking)
            ==> outcome == PickButton::EndGrab(None),
        button == 0x110 && pressed && (fht.lock_state is Unlocked || fht.lock_state is
            WaitingForSurfaces) ==> outcome is EndGrab && match (picked, grab.target) {
            (Picked::Nothing, _) => outcome->EndGrab_0 is None,
            (Picked::Window(id), PickSurfaceTarget::Window) => outcome->EndGrab_0 == Some(
                PickAnswer::Window(PickWindowResult::Picked(id)),
            ),
            (Picked::Window(_), PickSurfaceTarget::LayerSurface) => outcome->EndGrab_0 == Some(
                PickAnswer::LayerShell(PickLayerShellResult::NotALayerShell),
            ),
            (Picked::Layer(_), PickSurfaceTarget::Window) => outcome->EndGrab_0 == Some(
                PickAnswer::Window(PickWindowResult::NotAWindow),
            ),
            (Picked::Layer(layer), PickSurfaceTarget::LayerSurface) => outcome->EndGrab_0 == Some(
                PickAnswer::LayerShell(PickLayerShellResult::Picked(layer)),
            ),
        },
{
}

/// Whoever asked is told what was picked, that it is something else than was asked for, or that
/// nothing was picked.
pub proof fn picks_are_answered(
    target: &PickSurfaceTarget,
    id: usize,
    layer: LayerShell,
    for_window: PickAnswer,
    for_layer: PickAnswer,
    cancelled: PickAnswer,
)
    requires
        call_ensures(PickSurfaceTarget::picked_window, (target, id), for_window),
        call_ensures(PickSurfaceTarget::picked_layer_surface, (target, layer), for_layer),
        call_ensures(PickSurfaceTarget::cancel, (target,), cancelled),
    ensures
        *target is Window ==> {
            &&& for_window == PickAnswer::Window(PickWindowResult::Picked(id))
            &&& for_layer == PickAnswer::Window(PickWindowResult::NotAWindow)
            &&& cancelled == PickAnswer::Window(PickWindowResult::Cancelled)
        },
        *target is LayerSurface ==> {
            &&& for_window == PickAnswer::LayerShell(PickLayerShellResult::NotALayerShell)
            &&& for_layer == PickAnswer::LayerShell(PickLayerShellResult::Picked(layer))
            &&& cancelled == PickAnswer::LayerShell(PickLayerShellResult::Cancelled)
        },
{
}

} // verus!
