//! Which surface gets the input.
use vstd::prelude::*;

use crate::handlers::layer_shell::{KeyboardInteractivity, Layer, LayerSurface};
use crate::seqs::{first_index, lemma_first_index, lemma_first_index_is, lemma_first_index_none};
use crate::state::{Fht, State};

verus! {

/// What the keyboard is focused on.
#[derive(Clone, Copy, Debug, PartialEq, Eq, Structural)]
pub enum KeyboardFocus {
    /// A window, or one of its popups, or nothing at all.
    Space { surface: Option<u64> },
    /// A layer surface.
    LayerSurface { layer: u64 },
    /// The surface that covers an output while the session is locked.
    LockSurface { lock: u64 },
}

impl KeyboardFocus {
    /// The surface that gets the keys.
    pub open spec fn spec_surface(self) -> Option<u64> {
        match self {
            KeyboardFocus::Space { surface } => surface,
            KeyboardFocus::LayerSurface { layer } => Some(layer),
            KeyboardFocus::LockSurface { lock } => Some(lock),
        }
    }

    /// The surface that gets the keys.
    pub fn wl_surface(&self) -> (surface: Option<u64>)
        ensures
            surface == self.spec_surface(),
    {
        match self {
            KeyboardFocus::Space { surface } => *surface,
            KeyboardFocus::LayerSurface { layer } => Some(*layer),
            KeyboardFocus::LockSurface { lock } => Some(*lock),
        }
    }

    /// The surface that gets the keys.
    pub fn into_wl_surface(self) -> (surface: Option<u64>)
        ensures
            surface == self.spec_surface(),
    {
        self.wl_surface()
    }
}

/// What the active output shows, as far as the keyboard focus looks at it.
#[derive(Debug)]
pub struct FocusCandidates {
    /// The layer surfaces, in the order in which they were mapped.
    pub layers: Vec<LayerSurface>,
    /// The window that fills the output, if the active workspace has one.
    pub fullscreen: Option<u64>,
    /// The active window of the active workspace.
    pub active: Option<u64>,
}

/// Whether a surface is on the layer and takes the keyboard as long as it is shown.
pub open spec fn exclusive_on(layer: Layer) -> spec_fn(LayerSurface) -> bool {
    |l: LayerSurface| l.layer == layer && l.interactivity is Exclusive
}

/// Whether a surface is on the layer and is the one that the user clicked on.
pub open spec fn clicked_on(layer: Layer, clicked: Option<u64>) -> spec_fn(LayerSurface) -> bool {
    |l: LayerSurface| l.layer == layer && clicked == Some(l.surface)
}

/// The layer surface that has the keyboard for good on a layer.
pub open spec fn exclusive_focus(layers: Seq<LayerSurface>, layer: Layer) -> Option<u64> {
    match first_index(layers, exclusive_on(layer)) {
        Some(i) => Some(layers[i].surface),
        None => None,
    }
}

/// The layer surface that the user clicked on, if it is on the layer.
pub open spec fn on_demand_focus(
    layers: Seq<LayerSurface>,
    layer: Layer,
    clicked: Option<u64>,
) -> Option<u64> {
    match first_index(layers, clicked_on(layer, clicked)) {
        Some(i) => Some(layers[i].surface),
        None => None,
    }
}

/// The layer surface that gets the keyboard on a layer above or below the windows.
pub open spec fn layer_focus(
    layers: Seq<LayerSurface>,
    layer: Layer,
    clicked: Option<u64>,
) -> Option<u64> {
    match exclusive_focus(layers, layer) {
        Some(surface) => Some(surface),
        None => on_demand_focus(layers, layer, clicked),
    }
}

impl FocusCandidates {
    /// What gets the keyboard while the session is not locked: the first that there is of
    ///
    /// 1. overlay layer surfaces (exclusive then on-demand),
    /// 2. the window that fills the output,
    /// 3. top layer surfaces (exclusive then on-demand),
    /// 4. the active window,
    /// 5. bottom layer surfaces (on-demand only),
    /// 6. background layer surfaces (on-demand only).
    pub open spec fn choice(&self, clicked: Option<u64>) -> Option<KeyboardFocus> {
        let layers = self.layers@;
        if let Some(layer) = layer_focus(layers, Layer::Overlay, clicked) {
            Some(KeyboardFocus::LayerSurface { layer })
        } else if self.fullscreen is Some {
            Some(KeyboardFocus::Space { surface: self.fullscreen })
        } else if let Some(layer) = layer_focus(layers, Layer::Top, clicked) {
            Some(KeyboardFocus::LayerSurface { layer })
        } else if self.active is Some {
            Some(KeyboardFocus::Space { surface: self.active })
        } else if let Some(layer) = on_demand_focus(layers, Layer::Bottom, clicked) {
            Some(KeyboardFocus::LayerSurface { layer })
        } else if let Some(layer) = on_demand_focus(layers, Layer::Background, clicked) {
            Some(KeyboardFocus::LayerSurface { layer })
        } else {
            None
        }
    }

    fn exclusive(&self, layer: Layer) -> (r: Option<u64>)
        ensures
            r == exclusive_focus(self.layers@, layer),
    {
        let mut i: usize = 0;
        while i < self.layers.len()
            invariant
                0 <= i <= self.layers.len(),
                forall|j: int| 0 <= j < i ==> !exclusive_on(layer)(#[trigger] self.layers@[j]),
            decreases self.layers.len() - i,
        {
            let l = self.layers[i];
            if l.layer == layer && l.interactivity == KeyboardInteractivity::Exclusive {
                proof {
                    lemma_first_index_is(self.layers@, exclusive_on(layer), i as int);
                }
                return Some(l.surface);
            }
            i += 1;
        }
        proof {
            lemma_first_index_none(self.layers@, exclusive_on(layer));
        }
        None
    }

    fn on_demand(&self, layer: Layer, clicked: Option<u64>) -> (r: Option<u64>)
        ensures
            r == on_demand_focus(self.layers@, layer, clicked),
    {
        let mut i: usize = 0;
        while i < self.layers.len()
            invariant
                0 <= i <= self.layers.len(),
                forall|j: int|
                    0 <= j < i ==> !clicked_on(layer, clicked)(#[trigger] self.layers@[j]),
            decreases self.layers.len() - i,
        {
            let l = self.layers[i];
            let is_clicked = match clicked {
                Some(surface) => surface == l.surface,
                None => false,
            };
            if l.layer == layer && is_clicked {
                proof {
                    lemma_first_index_is(self.layers@, clicked_on(layer, clicked), i as int);
                }
                return Some(l.surface);
            }
            i += 1;
        }
        proof {
            lemma_first_index_none(self.layers@, clicked_on(layer, clicked));
        }
        None
    }

    fn layer(&self, layer: Layer, clicked: Option<u64>) -> (r: Option<u64>)
        ensures
            r == layer_focus(self.layers@, layer, clicked),
    {
        match self.exclusive(layer) {
            Some(surface) => Some(surface),
            None => self.on_demand(layer, clicked),
        }
    }

    /// What gets the keyboard while the session is not locked.
    pub fn choose_focus(&self, clicked: Option<u64>) -> (focus: Option<KeyboardFocus>)
        ensures
            focus == self.choice(clicked),
    {
        if let Some(layer) = self.layer(Layer::Overlay, clicked) {
            return Some(KeyboardFocus::LayerSurface { layer });
        }
        if self.fullscreen.is_some() {
            return Some(KeyboardFocus::Space { surface: self.fullscreen });
        }
        if let Some(layer) = self.layer(Layer::Top, clicked) {
            return Some(KeyboardFocus::LayerSurface { layer });
        }
        if self.active.is_some() {
            return Some(KeyboardFocus::Space { surface: self.active });
        }
        if let Some(layer) = self.on_demand(Layer::Bottom, clicked) {
            return Some(KeyboardFocus::LayerSurface { layer });
        }
        match self.on_demand(Layer::Background, clicked) {
            Some(layer) => Some(KeyboardFocus::LayerSurface { layer }),
            None => None,
        }
    }
}

/// The surface behind a focus, where there is one.
pub open spec fn focus_surface(focus: Option<KeyboardFocus>) -> Option<u64> {
    match focus {
        Some(focus) => focus.spec_surface(),
        None => None,
    }
}

/// The layer surface that the user clicked on, if it can still have the keyboard. `wants` is what
/// it asks for, where it is still there; one that is gone is forgotten.
pub open spec fn still_clicked(
    clicked: Option<u64>,
    wants: Option<KeyboardInteractivity>,
) -> Option<u64> {
    match wants {
        Some(KeyboardInteractivity::Exclusive) | Some(KeyboardInteractivity::OnDemand) => clicked,
        _ => None,
    }
}

impl Fht {
    /// What gets the keyboard: the lock surface of the active output while the session is locked,
    /// or nothing where there is none, and else what the output shows.
    pub open spec fn keyboard_focus(
        &self,
        candidates: FocusCandidates,
        clicked: Option<u64>,
    ) -> Option<KeyboardFocus> {
        if self.lock_state.hides_session() {
            match self.outputs@[self.index_of(self.active_output)].lock_surface {
                Some(lock) => Some(KeyboardFocus::LockSurface { lock }),
                None => None,
            }
        } else {
            candidates.choice(clicked)
        }
    }
}

/// The surface to give the keyboard to.
#[derive(Clone, Copy, Debug, PartialEq, Eq, Structural)]
pub struct FocusChange {
    pub surface: Option<u64>,
    /// The window to activate first; without it the focus stays as it is.
    pub activate: Option<u64>,
}

/// What has to be done to move the focus from the surface `current` to `focus`.
pub open spec fn focus_change(focus: Option<KeyboardFocus>, current: Option<u64>) -> Option<
    FocusChange,
> {
    let surface = focus_surface(focus);
    if surface == current {
        None
    } else {
        Some(
            FocusChange {
                surface,
                activate: match focus {
                    Some(KeyboardFocus::Space { surface }) => surface,
                    _ => None,
                },
            },
        )
    }
}

impl State {
    /// Updates the keyboard focus. Returns the surface that gets it, if that is another one than
    /// `current`.
    ///
    /// If the compositor is locked, that is the lock surface on the active output, or else no
    /// surface at all. Otherwise see [`FocusCandidates::choice`]. `clicked_wants` tells what the
    /// layer surface that the user clicked on asks for, where it is still there: one that is gone,
    /// or that does not want the keyboard any more, is forgotten.
    pub fn update_keyboard_focus(
        &mut self,
        candidates: &FocusCandidates,
        clicked_wants: Option<KeyboardInteractivity>,
        current: Option<u64>,
    ) -> (change: Option<FocusChange>)
        requires
            old(self).fht.lock_state.hides_session() ==> old(self).fht.has_output(
                old(self).fht.active_output,
            ),
        ensures
            final(self).backend == old(self).backend,
            final(self).fht == (Fht {
                focused_on_demand_layer_shell: still_clicked(
                    old(self).fht.focused_on_demand_layer_shell,
                    clicked_wants,
                ),
                ..old(self).fht
            }),
            change == focus_change(
                old(self).fht.keyboard_focus(
                    *candidates,
                    final(self).fht.focused_on_demand_layer_shell,
                ),
                current,
            ),
    {
        let can_have_keyboard = match clicked_wants {
            Some(KeyboardInteractivity::Exclusive) => true,
            Some(KeyboardInteractivity::OnDemand) => true,
            _ => false,
        };
        if !can_have_keyboard {
            self.fht.focused_on_demand_layer_shell = None;
        }
        let focus = if self.fht.is_locked() {
            match self.fht.output_index(self.fht.active_output) {
                Some(i) => match self.fht.outputs[i].lock_surface {
                    Some(lock) => Some(KeyboardFocus::LockSurface { lock }),
                    None => None,
                },
                None => None,
            }
        } else {
            candidates.choose_focus(self.fht.focused_on_demand_layer_shell)
        };
        let surface = match focus {
            Some(focus) => focus.into_wl_surface(),
            None => None,
        };
        let unchanged = match (surface, current) {
            (Some(a), Some(b)) => a == b,
            (None, None) => true,
            _ => false,
        };
        if unchanged {
            return None;
        }
        let activate = match focus {
            Some(KeyboardFocus::Space { surface }) => surface,
            _ => None,
        };
        Some(FocusChange { surface, activate })
    }

    /// Whether the pointer has to be told that something else is under it.
    pub fn update_pointer_focus(&self, under: Option<u64>, current: Option<u64>) -> (changed: bool)
        ensures
            changed == (under != current),
    {
        match (under, current) {
            (Some(a), Some(b)) => a != b,
            (None, None) => false,
            _ => true,
        }
    }
}

/// A layer surface, and which of its surfaces, if any, is under the pointer.
#[derive(Clone, Copy, Debug, PartialEq, Eq, Structural)]
pub struct LayerHit {
    pub layer: LayerSurface,
    pub surface: Option<u64>,
}

/// A surface of a window that is under the pointer.
#[derive(Clone, Copy, Debug, PartialEq, Eq, Structural)]
pub struct WindowHit {
    pub window: u64,
    pub surface: u64,
}

/// What is at the position of the pointer on an output.
#[derive(Debug)]
pub struct PointerCandidates {
    pub output: u64,
    /// The layer surfaces, in the order in which they were mapped.
    pub layers: Vec<LayerHit>,
    /// The window that fills the output.
    pub fullscreen: Option<WindowHit>,
    /// The topmost window.
    pub window: Option<WindowHit>,
    /// The surface of the lock client.
    pub lock: Option<u64>,
    /// Whether a window that fills the output is drawn above the top layer.
    pub render_above_top: bool,
}

/// Calculated contents that are below the pointer.
#[derive(Clone, Copy, Debug, PartialEq, Eq, Structural)]
pub struct PointerFocus {
    /// The output that contains the pointer.
    pub output: u64,
    /// The surface under the pointer.
    pub surface: Option<u64>,
    /// The window under the pointer.
    pub window: Option<u64>,
    /// The layer surface under the pointer.
    pub layer_surface: Option<u64>,
}

/// The topmost layer surface of a layer that is under the pointer, among the first `n`.
pub open spec fn layer_under(layers: Seq<LayerHit>, layer: Layer, n: int) -> Option<LayerHit>
    decreases n,
{
    if n <= 0 {
        None
    } else if layers[n - 1].layer.layer == layer && layers[n - 1].surface is Some {
        Some(layers[n - 1])
    } else {
        layer_under(layers, layer, n - 1)
    }
}

/// What is under the pointer when it is over a layer surface.
pub open spec fn over_layer(output: u64, hit: LayerHit) -> PointerFocus {
    PointerFocus {
        output,
        surface: hit.surface,
        window: None,
        layer_surface: Some(hit.layer.surface),
    }
}

/// What is under the pointer when it is over a window.
pub open spec fn over_window(output: u64, hit: WindowHit) -> PointerFocus {
    PointerFocus {
        output,
        surface: Some(hit.surface),
        window: Some(hit.window),
        layer_surface: None,
    }
}

impl PointerCandidates {
    /// The topmost layer surface of a layer that is under the pointer.
    pub open spec fn on_layer(&self, layer: Layer) -> Option<LayerHit> {
        layer_under(self.layers@, layer, self.layers@.len() as int)
    }

    /// What is under the pointer: the overlay layer is above everything, then come the top layer
    /// and the windows, where the window that fills the output may be above that layer, then the
    /// two layers below.
    pub open spec fn topmost(&self) -> PointerFocus {
        let overlay = self.on_layer(Layer::Overlay);
        let top = self.on_layer(Layer::Top);
        if overlay is Some {
            over_layer(self.output, overlay->0)
        } else if self.render_above_top && self.fullscreen is Some {
            over_window(self.output, self.fullscreen->0)
        } else if top is Some {
            over_layer(self.output, top->0)
        } else if self.fullscreen is Some {
            over_window(self.output, self.fullscreen->0)
        } else if self.window is Some {
            over_window(self.output, self.window->0)
        } else if self.on_layer(Layer::Bottom) is Some {
            over_layer(self.output, self.on_layer(Layer::Bottom)->0)
        } else if self.on_layer(Layer::Background) is Some {
            over_layer(self.output, self.on_layer(Layer::Background)->0)
        } else {
            PointerFocus {
                output: self.output,
                surface: None,
                window: None,
                layer_surface: None,
            }
        }
    }

    fn find_layer(&self, layer: Layer) -> (hit: Option<LayerHit>)
        ensures
            hit == self.on_layer(layer),
    {
        let mut i: usize = self.layers.len();
        while i > 0
            invariant
                0 <= i <= self.layers.len(),
                layer_under(self.layers@, layer, i as int) == self.on_layer(layer),
            decreases i,
        {
            let hit = self.layers[i - 1];
            if hit.layer.layer == layer && hit.surface.is_some() {
                return Some(hit);
            }
            i -= 1;
        }
        None
    }
}

impl Fht {
    /// Calculates what is under the pointer; `None` where no output contains the pointer. While
    /// the session is locked, only the lock surface counts.
    pub fn get_pointer_focus(&self, candidates: Option<&PointerCandidates>) -> (focus: Option<
        PointerFocus,
    >)
        ensures
            focus == match candidates {
                None => None,
                Some(candidates) => Some(
                    if self.lock_state.hides_session() {
                        PointerFocus {
                            output: candidates.output,
                            surface: candidates.lock,
                            window: None,
                            layer_surface: None,
                        }
                    } else {
                        candidates.topmost()
                    },
                ),
            },
    {
        let candidates = match candidates {
            Some(candidates) => candidates,
            None => {
                return None;
            },
        };
        let mut focus = PointerFocus {
            output: candidates.output,
            surface: None,
            window: None,
            layer_surface: None,
        };
        if self.is_locked() {
            focus.surface = candidates.lock;
            return Some(focus);
        }
        let mut layer = candidates.find_layer(Layer::Overlay);
        let mut window: Option<WindowHit> = None;
        if layer.is_none() && candidates.render_above_top {
            window = candidates.fullscreen;
        }
        if layer.is_none() && window.is_none() {
            layer = candidates.find_layer(Layer::Top);
        }
        if layer.is_none() && window.is_none() {
            window = candidates.fullscreen;
        }
        if layer.is_none() && window.is_none() {
            window = candidates.window;
        }
        if layer.is_none() && window.is_none() {
            layer = candidates.find_layer(Layer::Bottom);
        }
        if layer.is_none() && window.is_none() {
            layer = candidates.find_layer(Layer::Background);
        }
        if let Some(hit) = layer {
            focus.surface = hit.surface;
            focus.layer_surface = Some(hit.layer.surface);
        } else if let Some(hit) = window {
            focus.surface = Some(hit.surface);
            focus.window = Some(hit.window);
        }
        Some(focus)
    }
}

/// While the session is locked, no window and no layer surface gets keys.
pub proof fn locked_session_gets_no_keys(
    fht: Fht,
    candidates: FocusCandidates,
    clicked: Option<u64>,
)
    requires
        fht.lock_state.hides_session(),
    ensures
        fht.keyboard_focus(candidates, clicked) matches Some(focus) ==> focus is LockSurface,
{
}

/// The window that fills the output gets the keys unless an overlay takes them.
pub proof fn fullscreen_gets_keys_below_overlays(
    candidates: FocusCandidates,
    clicked: Option<u64>,
)
    requires
        candidates.fullscreen is Some,
        layer_focus(candidates.layers@, Layer::Overlay, clicked) is None,
    ensures
        candidates.choice(clicked) == Some(
            KeyboardFocus::Space { surface: candidates.fullscreen },
        ),
{
}

/// A layer surface below the windows only ever gets the keys when the user clicked on it.
pub proof fn lower_layers_get_keys_on_demand(
    candidates: FocusCandidates,
    clicked: Option<u64>,
    layer: u64,
)
    requires
        candidates.choice(clicked) == Some(KeyboardFocus::LayerSurface { layer }),
        forall|i: int|
            0 <= i < candidates.layers@.len() && (#[trigger] candidates.layers@[i]).surface == layer
                ==> candidates.layers@[i].layer.spec_is_blurred(),
    ensures
        clicked == Some(layer),
{
    let layers = candidates.layers@;
    crate::seqs::lemma_first_index(layers, exclusive_on(Layer::Overlay));
    crate::seqs::lemma_first_index(layers, exclusive_on(Layer::Top));
    crate::seqs::lemma_first_index(layers, clicked_on(Layer::Overlay, clicked));
    crate::seqs::lemma_first_index(layers, clicked_on(Layer::Top, clicked));
    crate::seqs::lemma_first_index(layers, clicked_on(Layer::Bottom, clicked));
    crate::seqs::lemma_first_index(layers, clicked_on(Layer::Background, clicked));
}

/// What is under the pointer is a window or a layer surface, never both.
pub proof fn pointer_is_over_one_thing(candidates: PointerCandidates)
    ensures
        candidates.topmost().window is None || candidates.topmost().layer_surface is None,
        candidates.topmost().output == candidates.output,
{
}

/// An overlay that takes the keyboard for itself has it, whatever window there is and whatever the
/// user clicked on: the focus is an exclusive layer surface of the overlay layer, the first one.
pub proof fn exclusive_overlays_get_the_keys(
    candidates: &FocusCandidates,
    clicked: Option<u64>,
    focus: Option<KeyboardFocus>,
    i: int,
)
    requires
        call_ensures(FocusCandidates::choose_focus, (candidates, clicked), focus),
        0 <= i < candidates.layers@.len(),
        candidates.layers@[i].layer is Overlay,
        candidates.layers@[i].interactivity is Exclusive,
    ensures
        exists|k: int|
            0 <= k <= i && (#[trigger] candidates.layers@[k]).layer is Overlay
                && candidates.layers@[k].interactivity is Exclusive && focus == Some(
                KeyboardFocus::LayerSurface { layer: candidates.layers@[k].surface },
            ),
{
    let p = exclusive_on(Layer::Overlay);
    lemma_first_index(candidates.layers@, p);
    assert(p(candidates.layers@[i]));
    assert(p(candidates.layers@[first_index(candidates.layers@, p)->0]));
}

/// An overlay that the user clicked on has the keyboard, unless another overlay takes it for
/// itself.
pub proof fn clicked_overlays_get_the_keys(
    candidates: &FocusCandidates,
    clicked: u64,
    focus: Option<KeyboardFocus>,
    i: int,
)
    requires
        call_ensures(FocusCandidates::choose_focus, (candidates, Some(clicked)), focus),
        0 <= i < candidates.layers@.len(),
        candidates.layers@[i].layer is Overlay,
        candidates.layers@[i].surface == clicked,
        forall|k: int|
            0 <= k < candidates.layers@.len() && (#[trigger] candidates.layers@[k]).layer is Overlay
                ==> !(candidates.layers@[k].interactivity is Exclusive),
    ensures
        focus == Some(KeyboardFocus::LayerSurface { layer: clicked }),
{
    lemma_first_index(candidates.layers@, exclusive_on(Layer::Overlay));
    let p = clicked_on(Layer::Overlay, Some(clicked));
    lemma_first_index(candidates.layers@, p);
    assert(p(candidates.layers@[i]));
}

/// Whether no surface of a layer takes the keyboard: none is exclusive, and the user clicked on
/// none of them.
pub open spec fn layer_leaves_keys(
    candidates: FocusCandidates,
    layer: Layer,
    clicked: Option<u64>,
) -> bool {
    forall|k: int|
        0 <= k < candidates.layers@.len() && (#[trigger] candidates.layers@[k]).layer == layer
            ==> !(candidates.layers@[k].interactivity is Exclusive) && clicked != Some(
            candidates.layers@[k].surface,
        )
}

/// What the overlays leave, the window that fills the output gets, whatever else there is.
pub proof fn fullscreen_windows_come_after_overlays(
    candidates: &FocusCandidates,
    clicked: Option<u64>,
    focus: Option<KeyboardFocus>,
)
    requires
        call_ensures(FocusCandidates::choose_focus, (candidates, clicked), focus),
        layer_leaves_keys(*candidates, Layer::Overlay, clicked),
        candidates.fullscreen is Some,
    ensures
        focus == Some(KeyboardFocus::Space { surface: candidates.fullscreen }),
{
    lemma_first_index(candidates.layers@, exclusive_on(Layer::Overlay));
    lemma_first_index(candidates.layers@, clicked_on(Layer::Overlay, clicked));
}

/// While no window fills the output, what the overlays leave goes to the top layer, whichever
/// window is active: to its first exclusive surface, or else to the one that the user clicked on.
pub proof fn top_layer_comes_before_the_active_window(
    candidates: &FocusCandidates,
    clicked: Option<u64>,
    focus: Option<KeyboardFocus>,
    i: int,
)
    requires
        call_ensures(FocusCandidates::choose_focus, (candidates, clicked), focus),
        layer_leaves_keys(*candidates, Layer::Overlay, clicked),
        candidates.fullscreen is None,
        0 <= i < candidates.layers@.len(),
        candidates.layers@[i].layer is Top,
        candidates.layers@[i].interactivity is Exclusive || clicked == Some(
            candidates.layers@[i].surface,
        ),
    ensures
        exists|k: int|
            0 <= k < candidates.layers@.len() && (#[trigger] candidates.layers@[k]).layer is Top
                && focus == Some(
                KeyboardFocus::LayerSurface { layer: candidates.layers@[k].surface },
            ) && if candidates.layers@[i].interactivity is Exclusive {
                k <= i && candidates.layers@[k].interactivity is Exclusive
            } else {
                candidates.layers@[k].interactivity is Exclusive || clicked == Some(
                    candidates.layers@[k].surface,
                )
            },
{
    lemma_first_index(candidates.layers@, exclusive_on(Layer::Overlay));
    lemma_first_index(candidates.layers@, clicked_on(Layer::Overlay, clicked));
    let e = exclusive_on(Layer::Top);
    let c = clicked_on(Layer::Top, clicked);
    lemma_first_index(candidates.layers@, e);
    lemma_first_index(candidates.layers@, c);
    assert(e(candidates.layers@[i]) || c(candidates.layers@[i]));
    if first_index(candidates.layers@, e) is Some {
        assert(e(candidates.layers@[first_index(candidates.layers@, e)->0]));
    } else {
        assert(c(candidates.layers@[first_index(candidates.layers@, c)->0]));
    }
}

/// What the layers above the windows leave, the active window gets, whatever the user clicked on
/// below it.
pub proof fn active_windows_come_after_upper_layers(
    candidates: &FocusCandidates,
    clicked: Option<u64>,
    focus: Option<KeyboardFocus>,
)
    requires
        call_ensures(FocusCandidates::choose_focus, (candidates, clicked), focus),
        layer_leaves_keys(*candidates, Layer::Overlay, clicked),
        layer_leaves_keys(*candidates, Layer::Top, clicked),
        candidates.fullscreen is None,
        candidates.active is Some,
    ensures
        focus == Some(KeyboardFocus::Space { surface: candidates.active }),
{
    lemma_first_index(candidates.layers@, exclusive_on(Layer::Overlay));
    lemma_first_index(candidates.layers@, clicked_on(Layer::Overlay, clicked));
    lemma_first_index(candidates.layers@, exclusive_on(Layer::Top));
    lemma_first_index(candidates.layers@, clicked_on(Layer::Top, clicked));
}

/// Without any window, a layer surface that the user clicked on gets the keyboard on the bottom and
/// the background layer, too, and without one nothing does, not even an exclusive surface there.
pub proof fn lower_layers_come_last(
    candidates: &FocusCandidates,
    clicked: Option<u64>,
    focus: Option<KeyboardFocus>,
)
    requires
        call_ensures(FocusCandidates::choose_focus, (candidates, clicked), focus),
        layer_leaves_keys(*candidates, Layer::Overlay, clicked),
        layer_leaves_keys(*candidates, Layer::Top, clicked),
        candidates.fullscreen is None,
        candidates.active is None,
    ensures
        focus is Some <==> exists|k: int|
            0 <= k < candidates.layers@.len() && clicked == Some(
                (#[trigger] candidates.layers@[k]).surface,
            ),
        focus matches Some(focus) ==> clicked is Some && focus == (KeyboardFocus::LayerSurface {
            layer: clicked->0,
        }),
{
    let layers = candidates.layers@;
    let b = clicked_on(Layer::Bottom, clicked);
    let g = clicked_on(Layer::Background, clicked);
    lemma_first_index(layers, exclusive_on(Layer::Overlay));
    lemma_first_index(layers, clicked_on(Layer::Overlay, clicked));
    lemma_first_index(layers, exclusive_on(Layer::Top));
    lemma_first_index(layers, clicked_on(Layer::Top, clicked));
    lemma_first_index(layers, b);
    lemma_first_index(layers, g);
    assert forall|k: int|
        0 <= k < layers.len() && clicked == Some((#[trigger] layers[k]).surface) implies focus is
        Some by {
        assert(b(layers[k]) || g(layers[k]));
    }
    if first_index(layers, b) is Some {
        assert(b(layers[first_index(layers, b)->0]));
    } else if first_index(layers, g) is Some {
        assert(g(layers[first_index(layers, g)->0]));
    }
}

/// The keyboard only ever goes to something that is there: to one of the two windows, or to a layer
/// surface that the user clicked on or that is exclusive on a layer above the windows.
pub proof fn focus_is_something_shown(
    candidates: &FocusCandidates,
    clicked: Option<u64>,
    focus: Option<KeyboardFocus>,
)
    requires
        call_ensures(FocusCandidates::choose_focus, (candidates, clicked), focus),
    ensures
        match focus {
            None => candidates.fullscreen is None && candidates.active is None,
            Some(KeyboardFocus::LockSurface { .. }) => false,
            Some(KeyboardFocus::Space { surface }) => surface is Some && (surface
                == candidates.fullscreen || surface == candidates.active),
            Some(KeyboardFocus::LayerSurface { layer }) => exists|k: int|
                0 <= k < candidates.layers@.len() && (#[trigger] candidates.layers@[k]).surface
                    == layer && (clicked == Some(layer) || candidates.layers@[k].interactivity is
                    Exclusive && (candidates.layers@[k].layer is Overlay
                    || candidates.layers@[k].layer is Top)),
        },
{
    let layers = candidates.layers@;
    lemma_first_index(layers, exclusive_on(Layer::Overlay));
    lemma_first_index(layers, exclusive_on(Layer::Top));
    lemma_first_index(layers, clicked_on(Layer::Overlay, clicked));
    lemma_first_index(layers, clicked_on(Layer::Top, clicked));
    lemma_first_index(layers, clicked_on(Layer::Bottom, clicked));
    lemma_first_index(layers, clicked_on(Layer::Background, clicked));
    if let Some(KeyboardFocus::LayerSurface { layer }) = focus {
        let eo = first_index(layers, exclusive_on(Layer::Overlay));
        let et = first_index(layers, exclusive_on(Layer::Top));
        let co = first_index(layers, clicked_on(Layer::Overlay, clicked));
        let ct = first_index(layers, clicked_on(Layer::Top, clicked));
        let cb = first_index(layers, clicked_on(Layer::Bottom, clicked));
        let cg = first_index(layers, clicked_on(Layer::Background, clicked));
        let k = if eo is Some {
            eo->0
        } else if co is Some {
            co->0
        } else if et is Some {
            et->0
        } else if ct is Some {
            ct->0
        } else if cb is Some {
            cb->0
        } else {
            cg->0
        };
        assert(layers[k].surface == layer);
    }
}

/// The surface behind a focus is the one that the focus is on.
pub proof fn focused_surfaces_get_the_keys(focus: &KeyboardFocus, surface: Option<u64>)
    requires
        call_ensures(KeyboardFocus::wl_surface, (focus,), surface) || call_ensures(
            KeyboardFocus::into_wl_surface,
            (*focus,),
            surface,
        ),
    ensures
        match *focus {
            KeyboardFocus::Space { surface: window } => surface == window,
            KeyboardFocus::LayerSurface { layer } => surface == Some(layer),
            KeyboardFocus::LockSurface { lock } => surface == Some(lock),
        },
{
}

/// While the session is hidden, the lock surface of the active output gets the keys, and nothing at
/// all where it has none; whoever had the keyboard before loses it.
pub proof fn lock_surfaces_get_the_keys(
    state: &mut State,
    candidates: &FocusCandidates,
    wants: Option<KeyboardInteractivity>,
    current: Option<u64>,
    change: Option<FocusChange>,
    i: int,
)
    requires
        old(state).fht.lock_state is Locked || old(state).fht.lock_state is Locking,
        0 <= i < old(state).fht.outputs@.len(),
        old(state).fht.outputs@[i].id == old(state).fht.active_output,
        forall|j: int|
            0 <= j < i ==> (#[trigger] old(state).fht.outputs@[j]).id != old(
                state,
            ).fht.active_output,
        call_ensures(
            State::update_keyboard_focus,
            (state, candidates, wants, current),
            change,
        ),
    ensures
        change is None <==> old(state).fht.outputs@[i].lock_surface == current,
        change matches Some(change) ==> change.surface == old(state).fht.outputs@[i].lock_surface
            && change.activate is None,
{
    let fht = old(state).fht;
    lemma_first_index_is(fht.outputs@, crate::state::for_output(fht.active_output), i);
    assert(call_requires(
        State::update_keyboard_focus,
        (state, candidates, wants, current),
    ));
}

/// While the session is shown, the keyboard goes where [`FocusCandidates::choose_focus`] says, a
/// window is activated with it, and nothing happens if that has the keyboard already.
pub proof fn shown_sessions_choose_the_focus(
    state: &mut State,
    candidates: &FocusCandidates,
    wants: Option<KeyboardInteractivity>,
    current: Option<u64>,
    change: Option<FocusChange>,
    focus: Option<KeyboardFocus>,
)
    requires
        old(state).fht.lock_state is Unlocked || old(state).fht.lock_state is WaitingForSurfaces,
        call_ensures(
            State::update_keyboard_focus,
            (state, candidates, wants, current),
            change,
        ),
        call_ensures(
            FocusCandidates::choose_focus,
            (candidates, final(state).fht.focused_on_demand_layer_shell),
            focus,
        ),
    ensures
        match focus {
            Some(KeyboardFocus::Space { surface }) => if surface == current {
                change is None
            } else {
                change == Some(FocusChange { surface, activate: surface })
            },
            Some(KeyboardFocus::LayerSurface { layer }) => if current == Some(layer) {
                change is None
            } else {
                change == Some(FocusChange { surface: Some(layer), activate: None })
            },
            _ => if current is None {
                change is None
            } else {
                change == Some(FocusChange { surface: None, activate: None })
            },
        },
{
    assert(call_requires(
        State::update_keyboard_focus,
        (state, candidates, wants, current),
    ));
    assert(call_requires(
        FocusCandidates::choose_focus,
        (candidates, final(state).fht.focused_on_demand_layer_shell),
    ));
    focus_is_something_shown(candidates, final(state).fht.focused_on_demand_layer_shell, focus);
}

/// The layer surface that the user clicked on is remembered as long as it is there and may have the
/// keyboard, and forgotten else. Nothing else changes.
pub proof fn clicked_surfaces_are_remembered(
    state: &mut State,
    candidates: &FocusCandidates,
    wants: Option<KeyboardInteractivity>,
    current: Option<u64>,
    change: Option<FocusChange>,
)
    requires
        old(state).fht.lock_state.hides_session() ==> old(state).fht.has_output(
            old(state).fht.active_output,
        ),
        call_ensures(
            State::update_keyboard_focus,
            (state, candidates, wants, current),
            change,
        ),
    ensures
        wants is None || wants == Some(KeyboardInteractivity::Never) ==>
            final(state).fht.focused_on_demand_layer_shell is None,
        wants == Some(KeyboardInteractivity::OnDemand) || wants == Some(
            KeyboardInteractivity::Exclusive,
        ) ==> final(state).fht == old(state).fht,
        final(state).fht.outputs == old(state).fht.outputs,
        final(state).fht.lock_state == old(state).fht.lock_state,
        final(state).backend == old(state).backend,
{
    assert(call_requires(
        State::update_keyboard_focus,
        (state, candidates, wants, current),
    ));
}

proof fn lemma_layer_under(layers: Seq<LayerHit>, layer: Layer, n: int)
    requires
        0 <= n <= layers.len(),
    ensures
        layer_under(layers, layer, n) matches Some(hit) ==> exists|k: int|
            0 <= k < n && #[trigger] layers[k] == hit && hit.layer.layer == layer && hit.surface is
                Some && forall|j: int|
                k < j < n ==> !((#[trigger] layers[j]).layer.layer == layer && layers[j].surface is
                    Some),
        layer_under(layers, layer, n) is None ==> forall|j: int|
            0 <= j < n ==> !((#[trigger] layers[j]).layer.layer == layer && layers[j].surface is
                Some),
    decreases n,
{
    if n > 0 {
        if layers[n - 1].layer.layer == layer && layers[n - 1].surface is Some {
            assert(layers[n - 1] == layer_under(layers, layer, n)->0);
        } else {
            lemma_layer_under(layers, layer, n - 1);
        }
    }
}

/// Whether no surface of a layer is under the pointer.
pub open spec fn layer_is_elsewhere(candidates: PointerCandidates, layer: Layer) -> bool {
    forall|j: int|
        0 <= j < candidates.layers@.len() && (#[trigger] candidates.layers@[j]).layer.layer == layer
            ==> candidates.layers@[j].surface is None
}

/// Whether the pointer is over the topmost surface of a layer that it hits, and over no window.
pub open spec fn is_over_layer(
    focus: PointerFocus,
    candidates: PointerCandidates,
    layer: Layer,
) -> bool {
    exists|k: int|
        0 <= k < candidates.layers@.len() && (#[trigger] candidates.layers@[k]).layer.layer == layer
            && candidates.layers@[k].surface is Some && focus.surface
            == candidates.layers@[k].surface && focus.layer_surface == Some(
            candidates.layers@[k].layer.surface,
        ) && focus.window is None && forall|j: int|
            k < j < candidates.layers@.len() && (#[trigger] candidates.layers@[j]).layer.layer
                == layer ==> candidates.layers@[j].surface is None
}

/// What is above hides what is below: the pointer is over the overlay layer, if that is hit. Then
/// come the window that fills the output, where it is drawn above the top layer, the top layer,
/// the window that fills the output anywhere else, the topmost window, the bottom layer and the
/// background. Of the surfaces of a layer, the one that was mapped last is above the others.
pub proof fn upper_things_hide_lower_ones(
    fht: &Fht,
    candidates: &PointerCandidates,
    focus: Option<PointerFocus>,
)
    requires
        fht.lock_state is Unlocked || fht.lock_state is WaitingForSurfaces,
        call_ensures(Fht::get_pointer_focus, (fht, Some(candidates)), focus),
    ensures
        focus matches Some(focus) && focus.output == candidates.output && {
            let above = candidates.render_above_top;
            let overlay = !layer_is_elsewhere(*candidates, Layer::Overlay);
            let top = !layer_is_elsewhere(*candidates, Layer::Top);
            let bottom = !layer_is_elsewhere(*candidates, Layer::Bottom);
            let background = !layer_is_elsewhere(*candidates, Layer::Background);
            let full = candidates.fullscreen is Some;
            let window = candidates.window is Some;
            &&& overlay ==> is_over_layer(focus, *candidates, Layer::Overlay)
            &&& !overlay && above && full ==> focus.window == Some(
                candidates.fullscreen->0.window,
            ) && focus.surface == Some(candidates.fullscreen->0.surface) && focus.layer_surface is
                None
            &&& !overlay && top && !(above && full) ==> is_over_layer(
                focus,
                *candidates,
                Layer::Top,
            )
            &&& !overlay && !top && full ==> focus.window == Some(candidates.fullscreen->0.window)
                && focus.surface == Some(candidates.fullscreen->0.surface) && focus.layer_surface is
                None
            &&& !overlay && !top && !full && window ==> focus.window == Some(
                candidates.window->0.window,
            ) && focus.surface == Some(candidates.window->0.surface) && focus.layer_surface is None
            &&& !overlay && !top && !full && !window && bottom ==> is_over_layer(
                focus,
                *candidates,
                Layer::Bottom,
            )
            &&& !overlay && !top && !full && !window && !bottom && background ==> is_over_layer(
                focus,
                *candidates,
                Layer::Background,
            )
            &&& !overlay && !top && !full && !window && !bottom && !background ==> focus.surface is
                None && focus.window is None && focus.layer_surface is None
        },
{
    let layers = candidates.layers@;
    let n = layers.len() as int;
    lemma_layer_under(layers, Layer::Overlay, n);
    lemma_layer_under(layers, Layer::Top, n);
    lemma_layer_under(layers, Layer::Bottom, n);
    lemma_layer_under(layers, Layer::Background, n);
    assert(call_requires(Fht::get_pointer_focus, (fht, Some(candidates))));
}

/// While the session is hidden, the pointer is over the lock surface or over nothing; outside of
/// all outputs it never is over anything.
pub proof fn hidden_sessions_are_not_pointed_at(
    fht: &Fht,
    candidates: Option<&PointerCandidates>,
    focus: Option<PointerFocus>,
)
    requires
        fht.lock_state is Locked || fht.lock_state is Locking,
        call_ensures(Fht::get_pointer_focus, (fht, candidates), focus),
    ensures
        focus is None <==> candidates is None,
        candidates matches Some(candidates) ==> {
            &&& focus->0.output == candidates.output
            &&& focus->0.surface == candidates.lock
            &&& focus->0.window is None
            &&& focus->0.layer_surface is None
        },
{
    assert(call_requires(Fht::get_pointer_focus, (fht, candidates)));
}

/// The pointer is told exactly if something else is under it than before.
pub proof fn pointer_is_told_about_changes(
    state: &State,
    under: Option<u64>,
    current: Option<u64>,
    changed: bool,
)
    requires
        call_ensures(State::update_pointer_focus, (state, under, current), changed),
    ensures
        !changed <==> under == current,
{
}

} // verus!
