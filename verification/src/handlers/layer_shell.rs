//! Surfaces that are attached to the edges of an output.
use vstd::prelude::*;

use crate::seqs::{first_index, lemma_first_index, lemma_first_index_is, lemma_first_index_none};
use crate::state::{Fht, State};

verus! {

/// Where a layer surface is shown.
#[derive(Clone, Copy, Debug, PartialEq, Eq, Structural)]
pub enum Layer {
    Background,
    Bottom,
    Top,
    Overlay,
}

/// Whether a layer surface wants the keyboard.
#[derive(Clone, Copy, Debug, PartialEq, Eq, Structural)]
pub enum KeyboardInteractivity {
    /// It never gets the keyboard.
    Never,
    /// It gets the keyboard as long as it is shown.
    Exclusive,
    /// It gets the keyboard when the user clicks on it.
    OnDemand,
}

/// A layer surface, as far as the focus looks at it.
#[derive(Clone, Copy, Debug, PartialEq, Eq, Structural)]
pub struct LayerSurface {
    pub surface: u64,
    pub layer: Layer,
    pub interactivity: KeyboardInteractivity,
    /// Whether some output shows it.
    pub mapped: bool,
}

/// The layer surfaces of an output, in the order in which they were mapped.
#[derive(Debug)]
pub struct OutputLayers {
    pub output: u64,
    pub layers: Vec<LayerSurface>,
}

impl Layer {
    /// Whether the layer is above the windows.
    pub open spec fn spec_above_windows(self) -> bool {
        self is Top || self is Overlay
    }

    /// Whether the layer is above the windows.
    pub fn above_windows(&self) -> (b: bool)
        ensures
            b == self.spec_above_windows(),
    {
        match self {
            Layer::Top => true,
            Layer::Overlay => true,
            _ => false,
        }
    }

    /// Whether a blurred background shows the layer.
    pub open spec fn spec_is_blurred(self) -> bool {
        self is Background || self is Bottom
    }

    /// Whether a blurred background shows the layer.
    pub fn is_blurred(&self) -> (b: bool)
        ensures
            b == self.spec_is_blurred(),
    {
        match self {
            Layer::Background => true,
            Layer::Bottom => true,
            _ => false,
        }
    }
}

/// What a new layer surface calls for.
#[derive(Clone, Copy, Debug, PartialEq, Eq, Structural)]
pub struct NewLayer {
    /// The output that shows the surface.
    pub output: u64,
    /// Whether the blurred background of the output has to be drawn anew.
    pub blur_dirty: bool,
}

/// What a commit of a layer surface calls for. The layers of the output are arranged before.
#[derive(Clone, Copy, Debug, PartialEq, Eq, Structural)]
pub struct LayerCommit {
    pub output: u64,
    /// Whether the surface is told its first size.
    pub send_configure: bool,
    /// Whether the blurred background of the output has to be drawn anew.
    pub blur_dirty: bool,
}

/// Whether a layer surface is the given one.
pub open spec fn is_surface(surface: u64) -> spec_fn(LayerSurface) -> bool {
    |layer: LayerSurface| layer.surface == surface
}

/// Whether an output shows the given layer surface.
pub open spec fn shows_layer(surface: u64) -> spec_fn(OutputLayers) -> bool {
    |o: OutputLayers| first_index(o.layers@, is_surface(surface)) is Some
}

/// The layer surface and the output that shows it.
pub open spec fn locate_layer(maps: Seq<OutputLayers>, surface: u64) -> Option<
    (u64, LayerSurface),
> {
    match first_index(maps, shows_layer(surface)) {
        Some(o) => Some(
            (maps[o].output, maps[o].layers@[first_index(maps[o].layers@, is_surface(surface))->0]),
        ),
        None => None,
    }
}

fn layer_index(layers: &[LayerSurface], surface: u64) -> (r: Option<usize>)
    ensures
        r matches Some(i) ==> i < layers@.len() && first_index(layers@, is_surface(surface))
            == Some(i as int),
        r is None <==> first_index(layers@, is_surface(surface)) is None,
{
    let mut i: usize = 0;
    while i < layers.len()
        invariant
            0 <= i <= layers.len(),
            forall|j: int| 0 <= j < i ==> (#[trigger] layers@[j]).surface != surface,
        decreases layers.len() - i,
    {
        if layers[i].surface == surface {
            proof {
                lemma_first_index_is(layers@, is_surface(surface), i as int);
            }
            return Some(i);
        }
        i += 1;
    }
    proof {
        lemma_first_index_none(layers@, is_surface(surface));
    }
    None
}

/// The layer surface and the output that shows it, the first one where there are several.
pub fn find_layer(maps: &[OutputLayers], surface: u64) -> (r: Option<(u64, LayerSurface)>)
    ensures
        r == locate_layer(maps@, surface),
{
    let mut i: usize = 0;
    while i < maps.len()
        invariant
            0 <= i <= maps.len(),
            forall|j: int| 0 <= j < i ==> !shows_layer(surface)(#[trigger] maps@[j]),
        decreases maps.len() - i,
    {
        if let Some(k) = layer_index(maps[i].layers.as_slice(), surface) {
            proof {
                assert(shows_layer(surface)(maps@[i as int]));
                lemma_first_index_is(maps@, shows_layer(surface), i as int);
            }
            return Some((maps[i].output, maps[i].layers[k]));
        }
        i += 1;
    }
    proof {
        lemma_first_index_none(maps@, shows_layer(surface));
    }
    None
}

impl Fht {
    /// Place a new layer surface: on the output that it asks for, else on the first one. There
    /// has to be an output.
    pub fn new_layer_surface(&self, requested: Option<u64>, layer: Layer) -> (placed: NewLayer)
        requires
            requested is Some || self.outputs@.len() > 0,
        ensures
            placed.output == match requested {
                Some(output) => output,
                None => self.outputs@[0].id,
            },
            placed.blur_dirty == layer.spec_is_blurred(),
    {
        let output = match requested {
            Some(output) => output,
            None => self.outputs[0].id,
        };
        NewLayer { output, blur_dirty: layer.is_blurred() }
    }

    /// A layer surface is gone: the output that showed it is arranged anew. `None` where no
    /// output showed it.
    pub fn layer_destroyed(&self, maps: &[OutputLayers], surface: u64) -> (gone: Option<NewLayer>)
        ensures
            gone == match locate_layer(maps@, surface) {
                Some((output, layer)) => Some(
                    NewLayer { output, blur_dirty: layer.layer.spec_is_blurred() },
                ),
                None => None,
            },
    {
        match find_layer(maps, surface) {
            Some((output, layer)) => Some(
                NewLayer { output, blur_dirty: layer.layer.is_blurred() },
            ),
            None => None,
        }
    }
}

impl State {
    /// A surface was committed: if it is a layer surface, its output is arranged anew, and the
    /// surface is told its first size if it was not told one before.
    pub fn process_layer_shell_commit(
        maps: &[OutputLayers],
        surface: u64,
        initial_configure_sent: bool,
    ) -> (commit: Option<LayerCommit>)
        ensures
            commit == match locate_layer(maps@, surface) {
                Some((output, layer)) => Some(
                    LayerCommit {
                        output,
                        send_configure: !initial_configure_sent,
                        blur_dirty: !initial_configure_sent && layer.layer.spec_is_blurred(),
                    },
                ),
                None => None,
            },
    {
        match find_layer(maps, surface) {
            Some((output, layer)) => Some(
                LayerCommit {
                    output,
                    send_configure: !initial_configure_sent,
                    blur_dirty: !initial_configure_sent && layer.layer.is_blurred(),
                },
            ),
            None => None,
        }
    }
}

/// A layer surface is found on the first output that shows it, as it is there; and it is found
/// whenever some output shows it.
pub proof fn layer_surfaces_are_found(
    maps: &[OutputLayers],
    surface: u64,
    found: Option<(u64, LayerSurface)>,
)
    requires
        call_ensures(find_layer, (maps, surface), found),
    ensures
        match found {
            Some((output, layer)) => layer.surface == surface && exists|o: int, k: int|
                0 <= o < maps@.len() && 0 <= k < maps@[o].layers@.len() && maps@[o].output == output
                    && #[trigger] maps@[o].layers@[k] == layer && forall|p: int, j: int|
                    0 <= p < o && 0 <= j < maps@[p].layers@.len() ==> (
                    #[trigger] maps@[p].layers@[j]).surface != surface,
            None => forall|p: int, j: int|
                0 <= p < maps@.len() && 0 <= j < maps@[p].layers@.len() ==> (
                #[trigger] maps@[p].layers@[j]).surface != surface,
        },
{
    let q = is_surface(surface);
    let p = shows_layer(surface);
    lemma_first_index(maps@, p);
    assert forall|o: int, j: int|
        0 <= o < maps@.len() && 0 <= j < maps@[o].layers@.len() && (
        #[trigger] maps@[o].layers@[j]).surface == surface implies p(maps@[o]) by {
        lemma_first_index(maps@[o].layers@, q);
        assert(q(maps@[o].layers@[j]));
    }
    if let Some(o) = first_index(maps@, p) {
        let (_, found_layer) = found->0;
        assert(p(maps@[o]));
        lemma_first_index(maps@[o].layers@, q);
        let k = first_index(maps@[o].layers@, q)->0;
        assert(q(maps@[o].layers@[k]));
        assert(maps@[o].layers@[k] == found_layer);
        assert forall|r: int, j: int|
            0 <= r < o && 0 <= j < maps@[r].layers@.len() implies (
        #[trigger] maps@[r].layers@[j]).surface != surface by {
            assert(!p(maps@[r]));
        }
    } else {
        assert forall|r: int, j: int|
            0 <= r < maps@.len() && 0 <= j < maps@[r].layers@.len() implies (
        #[trigger] maps@[r].layers@[j]).surface != surface by {
            assert(!p(maps@[r]));
        }
    }
}

/// A new layer surface goes on the output that it asks for, or on the first one. The blurred
/// background is drawn anew exactly for the two layers that it shows.
pub proof fn layer_surfaces_go_where_they_ask(
    fht: &Fht,
    requested: Option<u64>,
    layer: Layer,
    placed: NewLayer,
)
    requires
        requested is Some || fht.outputs@.len() > 0,
        call_ensures(Fht::new_layer_surface, (fht, requested, layer), placed),
    ensures
        requested matches Some(output) ==> placed.output == output,
        requested is None ==> placed.output == fht.outputs@[0].id,
        layer is Background || layer is Bottom ==> placed.blur_dirty,
        layer is Top || layer is Overlay ==> !placed.blur_dirty,
{
    assert(call_requires(Fht::new_layer_surface, (fht, requested, layer)));
}

/// The output that showed a layer surface which is gone is arranged anew, with its blurred
/// background if that showed the surface; the same output is arranged when the surface is
/// committed, and the surface is told its first size once.
pub proof fn outputs_are_arranged_around_layers(
    fht: &Fht,
    maps: &[OutputLayers],
    surface: u64,
    sent: bool,
    found: Option<(u64, LayerSurface)>,
    gone: Option<NewLayer>,
    commit: Option<LayerCommit>,
)
    requires
        call_ensures(find_layer, (maps, surface), found),
        call_ensures(Fht::layer_destroyed, (fht, maps, surface), gone),
        call_ensures(State::process_layer_shell_commit, (maps, surface, sent), commit),
    ensures
        found is None ==> gone is None && commit is None,
        found matches Some((output, layer)) ==> {
            let lower = layer.layer is Background || layer.layer is Bottom;
            &&& gone == Some(NewLayer { output, blur_dirty: lower })
            &&& commit is Some
            &&& commit->0.output == output
            &&& commit->0.send_configure == !sent
            &&& commit->0.blur_dirty == (lower && !sent)
        },
{
}

/// The top and the overlay layer are above the windows, the other two are not.
pub proof fn two_layers_are_above_the_windows(layer: &Layer, above: bool)
    requires
        call_ensures(Layer::above_windows, (layer,), above),
    ensures
        *layer is Top || *layer is Overlay ==> above,
        *layer is Bottom || *layer is Background ==> !above,
{
}

} // verus!
