//! The scale that surfaces are drawn at.
use vstd::prelude::*;

use crate::state::Fht;

verus! {

/// Where a surface is shown.
#[derive(Clone, Copy, Debug, PartialEq, Eq, Structural)]
pub struct ShownOn {
    /// The output that shows most of it.
    pub primary: Option<u64>,
    /// The output for which it was last told to draw a frame.
    pub last_frame: Option<u64>,
}

impl ShownOn {
    /// The output that shows the surface, as far as it is known.
    pub open spec fn spec_output(self) -> Option<u64> {
        match self.primary {
            Some(output) => Some(output),
            None => self.last_frame,
        }
    }

    /// The output that shows the surface, as far as it is known.
    pub fn output(&self) -> (output: Option<u64>)
        ensures
            output == self.spec_output(),
    {
        match self.primary {
            Some(output) => Some(output),
            None => self.last_frame,
        }
    }
}

impl Fht {
    /// The output whose scale a surface is told: the one that shows the surface itself, else the
    /// one that shows the root of its tree, else the one of the window that the root belongs to,
    /// else the first output of all.
    pub fn new_fractional_scale(&self, surface: ShownOn, root: ShownOn, window: Option<u64>) -> (
        output: u64)
        requires
            surface.spec_output() is None && root.spec_output() is None && window is None
                ==> self.outputs@.len() > 0,
        ensures
            output == match (surface.spec_output(), root.spec_output(), window) {
                (Some(output), _, _) => output,
                (None, Some(output), _) => output,
                (None, None, Some(output)) => output,
                (None, None, None) => self.outputs@[0].id,
            },
    {
        match (surface.output(), root.output(), window) {
            (Some(output), _, _) => output,
            (None, Some(output), _) => output,
            (None, None, Some(output)) => output,
            (None, None, None) => self.outputs[0].id,
        }
    }
}

/// The output whose scale a surface is told shows the surface itself, if it is known which one does:
/// the one that shows most of it before the one that drew it last. If not, the same goes for the
/// root of the surface, and then the output of the window and the first one stand in.
pub proof fn scales_follow_the_surface(
    fht: &Fht,
    surface: ShownOn,
    root: ShownOn,
    window: Option<u64>,
    output: u64,
)
    requires
        surface.primary is None && surface.last_frame is None && root.primary is None
            && root.last_frame is None && window is None ==> fht.outputs@.len() > 0,
        call_ensures(Fht::new_fractional_scale, (fht, surface, root, window), output),
    ensures
        surface.primary matches Some(primary) ==> output == primary,
        surface.primary is None ==> {
            &&& surface.last_frame matches Some(last) ==> output == last
            &&& surface.last_frame is None ==> {
                &&& root.primary matches Some(primary) ==> output == primary
                &&& root.primary is None ==> {
                    &&& root.last_frame matches Some(last) ==> output == last
                    &&& root.last_frame is None ==> match window {
                        Some(shown) => output == shown,
                        None => output == fht.outputs@[0].id,
                    }
                }
            }
        },
{
    assert(call_requires(Fht::new_fractional_scale, (fht, surface, root, window)));
}

} // verus!
