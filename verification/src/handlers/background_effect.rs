//! Effects behind surfaces.
use vstd::prelude::*;

use crate::geometry::Rectangle;

verus! {

/// The part of a surface behind which everything is blurred.
#[derive(Debug)]
pub struct CachedBackgroundEffectState {
    /// Rectangles that do not overlap, in the coordinates of the surface.
    pub rects: Option<Vec<Rectangle>>,
}

impl CachedBackgroundEffectState {
    /// A surface that asked for nothing.
    pub fn new() -> (state: CachedBackgroundEffectState)
        ensures
            state.rects is None,
    {
        CachedBackgroundEffectState { rects: None }
    }

    /// The client asks for a region.
    pub fn set_blur_region(&mut self, rects: Vec<Rectangle>)
        ensures
            final(self).rects == Some(rects),
    {
        self.rects = Some(rects);
    }

    /// The client asks for no region any more.
    pub fn unset_blur_region(&mut self)
        ensures
            final(self).rects is None,
    {
        self.rects = None;
    }
}

/// Gets the blur region of a surface. `None` means that the surface does not want one.
pub fn get_cached_blur_region(state: &CachedBackgroundEffectState) -> (r: Option<&Vec<Rectangle>>)
    ensures
        r == match state.rects {
            Some(rects) => Some(&rects),
            None => None,
        },
{
    match &state.rects {
        Some(rects) => Some(rects),
        None => None,
    }
}

/// A region that a client asked for is the one that is blurred, until it asks for none.
pub proof fn blur_regions_are_kept(
    state: &mut CachedBackgroundEffectState,
    rects: Vec<Rectangle>,
    region: Option<&Vec<Rectangle>>,
)
    requires
        call_ensures(CachedBackgroundEffectState::set_blur_region, (state, rects), ()),
        call_ensures(get_cached_blur_region, (&*final(state),), region),
    ensures
        region == Some(&rects),
{
}

/// Without a request there is no region, and neither is there one after it was taken back.
pub proof fn no_region_is_blurred_unasked(
    fresh: CachedBackgroundEffectState,
    state: &mut CachedBackgroundEffectState,
    before: Option<&Vec<Rectangle>>,
    after: Option<&Vec<Rectangle>>,
)
    requires
        call_ensures(CachedBackgroundEffectState::new, (), fresh),
        call_ensures(get_cached_blur_region, (&fresh,), before),
        call_ensures(CachedBackgroundEffectState::unset_blur_region, (state,), ()),
        call_ensures(get_cached_blur_region, (&*final(state),), after),
    ensures
        before is None,
        after is None,
{
}

} // verus!
