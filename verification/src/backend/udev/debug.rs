//! Elements that are drawn over a frame for debugging.
use vstd::prelude::*;

use crate::geometry::{Point, Rectangle};

verus! {

/// One thing that a frame is made of, the topmost first.
#[derive(Clone, Copy, Debug, PartialEq, Eq, Structural)]
pub enum FrameElement {
    /// What is on the output, by its number.
    Content(u64),
    /// A highlight of what changed since the last frame.
    Damage(Rectangle),
    /// A highlight of where an element hides what is under it.
    OpaqueRegion(Rectangle),
    /// A highlight of where an element may shine through.
    Semitransparent(Rectangle),
}

/// The regions of one element of a frame.
#[derive(Debug)]
pub struct ElementRegions {
    /// Whether the element only stands for damage and is drawn nowhere.
    pub extra_damage: bool,
    /// Where the element is, in the coordinates of the output.
    pub geometry: Rectangle,
    /// Where the element hides what is under it, in the coordinates of the element.
    pub opaque: Vec<Rectangle>,
}

/// A highlight of damage.
pub open spec fn damage_element() -> spec_fn(Rectangle) -> FrameElement {
    |r: Rectangle| FrameElement::Damage(r)
}

/// A highlight of an opaque region.
pub open spec fn opaque_element() -> spec_fn(Rectangle) -> FrameElement {
    |r: Rectangle| FrameElement::OpaqueRegion(r)
}

/// A highlight of a semitransparent region.
pub open spec fn semitransparent_element() -> spec_fn(Rectangle) -> FrameElement {
    |r: Rectangle| FrameElement::Semitransparent(r)
}

/// Highlight the damage of a frame: above everything else, the last rectangle topmost.
pub fn draw_damage(elements: &mut Vec<FrameElement>, damage: &[Rectangle])
    ensures
        final(elements)@ == damage@.map_values(damage_element()).reverse() + old(elements)@,
{
    let ghost start = elements@;
    let mut i: usize = 0;
    assert(damage@.take(0).map_values(damage_element()).reverse() + start =~= start);
    while i < damage.len()
        invariant
            0 <= i <= damage.len(),
            elements@ == damage@.take(i as int).map_values(damage_element()).reverse() + start,
        decreases damage.len() - i,
    {
        let ghost before = elements@;
        elements.insert(0, FrameElement::Damage(damage[i]));
        proof {
            let short = damage@.take(i as int).map_values(damage_element());
            let long = damage@.take(i + 1).map_values(damage_element());
            assert(long =~= short.push(FrameElement::Damage(damage@[i as int])));
            assert(long.reverse() =~= seq![FrameElement::Damage(damage@[i as int])]
                + short.reverse());
            assert(elements@ =~= long.reverse() + start);
        }
        i += 1;
    }
    assert(damage@.take(damage@.len() as int) =~= damage@);
}

/// Regions of an element, moved to where the element is.
pub open spec fn moved_regions(location: Point, regions: Seq<Rectangle>) -> Seq<Rectangle> {
    regions.map_values(|region: Rectangle| region.spec_moved(location))
}

/// Whether regions can be moved to where the element is.
pub open spec fn can_move_regions(location: Point, regions: Seq<Rectangle>) -> bool {
    forall|i: int| 0 <= i < regions.len() ==> (#[trigger] regions[i]).can_move(location)
}

/// Where an element hides what is under it, in the coordinates of the output.
pub fn opaque_regions(location: Point, regions: &[Rectangle]) -> (r: Vec<Rectangle>)
    requires
        can_move_regions(location, regions@),
    ensures
        r@ == moved_regions(location, regions@),
{
    let mut moved: Vec<Rectangle> = Vec::new();
    let mut i: usize = 0;
    while i < regions.len()
        invariant
            0 <= i <= regions.len(),
            can_move_regions(location, regions@),
            moved@.len() == i,
            forall|j: int| 0 <= j < i ==> #[trigger] moved@[j] == regions@[j].spec_moved(location),
        decreases regions.len() - i,
    {
        moved.push(regions[i].moved(location));
        i += 1;
    }
    assert(moved@ =~= moved_regions(location, regions@));
    moved
}

impl ElementRegions {
    /// Where the element hides what is under it, in the coordinates of the output.
    pub open spec fn opaque_on_output(&self) -> Seq<Rectangle> {
        moved_regions(self.geometry.loc, self.opaque@)
    }

    /// Whether `rest` is what `subtract` leaves of the element without its opaque regions.
    pub open spec fn is_rest<F: Fn(Rectangle, &Vec<Rectangle>) -> Vec<Rectangle>>(
        &self,
        subtract: F,
        rest: Vec<Rectangle>,
    ) -> bool {
        exists|opaque: Vec<Rectangle>|
            opaque@ == self.opaque_on_output() && #[trigger] call_ensures(
                subtract,
                (self.geometry, &opaque),
                rest,
            )
    }

    /// Whether the regions can be worked out.
    pub open spec fn wf<F: Fn(Rectangle, &Vec<Rectangle>) -> Vec<Rectangle>>(
        &self,
        subtract: F,
    ) -> bool {
        !self.extra_damage ==> {
            &&& can_move_regions(self.geometry.loc, self.opaque@)
            &&& forall|opaque: Vec<Rectangle>|
                opaque@ == self.opaque_on_output() ==> #[trigger] call_requires(
                    subtract,
                    (self.geometry, &opaque),
                )
        }
    }
}

/// The highlights that go in front of one element, `rest` being where it may shine through.
pub open spec fn highlights(regions: ElementRegions, rest: Seq<Rectangle>) -> Seq<FrameElement> {
    if regions.extra_damage {
        Seq::empty()
    } else {
        regions.opaque_on_output().map_values(opaque_element()) + rest.map_values(
            semitransparent_element(),
        )
    }
}

/// All elements, each behind its highlights.
pub open spec fn highlighted(
    elements: Seq<FrameElement>,
    regions: Seq<ElementRegions>,
    rests: Seq<Vec<Rectangle>>,
) -> Seq<FrameElement>
    decreases elements.len(),
{
    if elements.len() == 0 {
        Seq::empty()
    } else {
        let last = elements.len() - 1;
        highlighted(elements.drop_last(), regions, rests) + highlights(
            regions[last],
            rests[last]@,
        ).push(elements.last())
    }
}

/// Whether `rests` are what `subtract` leaves of each element without its opaque regions.
pub open spec fn are_rests<F: Fn(Rectangle, &Vec<Rectangle>) -> Vec<Rectangle>>(
    subtract: F,
    regions: Seq<ElementRegions>,
    rests: Seq<Vec<Rectangle>>,
) -> bool {
    &&& rests.len() == regions.len()
    &&& forall|i: int|
        0 <= i < regions.len() && !regions[i].extra_damage ==> (#[trigger] regions[i]).is_rest(
            subtract,
            rests[i],
        )
}

proof fn lemma_highlighted_prefix(
    elements: Seq<FrameElement>,
    regions: Seq<ElementRegions>,
    rests: Seq<Vec<Rectangle>>,
    rest: Vec<Rectangle>,
)
    requires
        elements.len() <= rests.len(),
    ensures
        highlighted(elements, regions, rests.push(rest)) == highlighted(elements, regions, rests),
    decreases elements.len(),
{
    if elements.len() > 0 {
        lemma_highlighted_prefix(elements.drop_last(), regions, rests, rest);
        assert(rests.push(rest)[elements.len() - 1] == rests[elements.len() - 1]);
    }
}

fn push_highlights(out: &mut Vec<FrameElement>, opaque: &Vec<Rectangle>, rest: &Vec<Rectangle>)
    ensures
        final(out)@ == old(out)@ + (opaque@.map_values(opaque_element()) + rest@.map_values(
            semitransparent_element(),
        )),
{
    let ghost before = out@;
    let mut k: usize = 0;
    assert(out@ =~= before + opaque@.take(0).map_values(opaque_element()));
    while k < opaque.len()
        invariant
            0 <= k <= opaque.len(),
            out@ == before + opaque@.take(k as int).map_values(opaque_element()),
        decreases opaque.len() - k,
    {
        out.push(FrameElement::OpaqueRegion(opaque[k]));
        k += 1;
        assert(out@ =~= before + opaque@.take(k as int).map_values(opaque_element()));
    }
    assert(opaque@.take(opaque@.len() as int) =~= opaque@);
    let ghost middle = out@;
    let mut k: usize = 0;
    assert(out@ =~= middle + rest@.take(0).map_values(semitransparent_element()));
    while k < rest.len()
        invariant
            0 <= k <= rest.len(),
            out@ == middle + rest@.take(k as int).map_values(semitransparent_element()),
        decreases rest.len() - k,
    {
        out.push(FrameElement::Semitransparent(rest[k]));
        k += 1;
        assert(out@ =~= middle + rest@.take(k as int).map_values(semitransparent_element()));
    }
    assert(rest@.take(rest@.len() as int) =~= rest@);
    assert(out@ =~= before + (opaque@.map_values(opaque_element()) + rest@.map_values(
        semitransparent_element(),
    )));
}

/// Highlight where the elements of a frame are opaque and where they are not.
///
/// `regions` tells of each element where it is and which parts of it are opaque; `subtract` leaves
/// of a rectangle what is in none of the others. The highlights of an element come directly above
/// it: those of its opaque regions first, in order, then those of what is left of it.
pub fn draw_opaque_regions<F: Fn(Rectangle, &Vec<Rectangle>) -> Vec<Rectangle>>(
    elements: &mut Vec<FrameElement>,
    regions: &[ElementRegions],
    subtract: F,
)
    requires
        old(elements)@.len() == regions@.len(),
        forall|i: int| 0 <= i < regions@.len() ==> (#[trigger] regions@[i]).wf(subtract),
    ensures
        exists|rests: Seq<Vec<Rectangle>>|
            are_rests(subtract, regions@, rests) && final(elements)@ == #[trigger] highlighted(
                old(elements)@,
                regions@,
                rests,
            ),
{
    let ghost start = elements@;
    let ghost mut rests: Seq<Vec<Rectangle>> = Seq::empty();
    let mut out: Vec<FrameElement> = Vec::new();
    let mut i: usize = 0;
    assert(start.take(0) =~= Seq::empty());
    while i < elements.len()
        invariant
            0 <= i <= elements.len(),
            elements@ == start,
            start.len() == regions@.len(),
            forall|j: int| 0 <= j < regions@.len() ==> (#[trigger] regions@[j]).wf(subtract),
            rests.len() == i,
            forall|j: int|
                0 <= j < i && !regions@[j].extra_damage ==> (#[trigger] regions@[j]).is_rest(
                    subtract,
                    rests[j],
                ),
            out@ == highlighted(start.take(i as int), regions@, rests),
        decreases elements.len() - i,
    {
        let ghost before = out@;
        let ghost known = rests;
        let region = &regions[i];
        assert(regions@[i as int].wf(subtract));
        let rest: Vec<Rectangle> = if region.extra_damage {
            assert(out@ =~= before + Seq::empty());
            Vec::new()
        } else {
            let opaque = opaque_regions(region.geometry.loc, region.opaque.as_slice());
            let rest = subtract(region.geometry, &opaque);
            assert(region.is_rest(subtract, rest));
            push_highlights(&mut out, &opaque, &rest);
            rest
        };
        assert(out@ == before + highlights(*region, rest@));
        out.push(elements[i]);
        proof {
            rests = known.push(rest);
            lemma_highlighted_prefix(start.take(i as int), regions@, known, rest);
            assert(start.take(i + 1).drop_last() =~= start.take(i as int));
            assert(start.take(i + 1).last() == start[i as int]);
            assert(rests[i as int] == rest);
            assert(out@ =~= highlighted(start.take(i + 1), regions@, rests));
            assert forall|j: int| 0 <= j < i + 1 && !regions@[j].extra_damage implies (
            #[trigger] regions@[j]).is_rest(subtract, rests[j]) by {
                if j < i {
                    assert(rests[j] == known[j]);
                }
            }
        }
        i += 1;
    }
    assert(start.take(start.len() as int) =~= start);
    proof {
        assert(are_rests(subtract, regions@, rests));
    }
    *elements = out;
    assert(elements@ == highlighted(start, regions@, rests));
}

/// Whether an element is part of what the output shows without debugging.
pub open spec fn is_content() -> spec_fn(FrameElement) -> bool {
    |e: FrameElement| e is Content
}

/// Debugging only adds to a frame: without the highlights the frame is as before.
pub proof fn highlights_keep_the_content(
    elements: Seq<FrameElement>,
    regions: Seq<ElementRegions>,
    rests: Seq<Vec<Rectangle>>,
)
    requires
        elements.len() <= regions.len(),
        elements.len() <= rests.len(),
    ensures
        highlighted(elements, regions, rests).filter(is_content()) == elements.filter(is_content()),
    decreases elements.len(),
{
    reveal(Seq::filter);
    if elements.len() > 0 {
        let shorter = elements.drop_last();
        let last = elements.last();
        let front = highlights(regions[elements.len() - 1], rests[elements.len() - 1]@);
        highlights_keep_the_content(shorter, regions, rests);
        Seq::<FrameElement>::filter_distributes_over_add(
            highlighted(shorter, regions, rests),
            front.push(last),
            is_content(),
        );
        front.lemma_filter_push(last, is_content());
        lemma_no_content(front);
        assert(elements =~= shorter.push(last));
        shorter.lemma_filter_push(last, is_content());
        assert(highlighted(elements, regions, rests).filter(is_content()) =~= elements.filter(
            is_content(),
        ));
    }
}

proof fn lemma_no_content(elements: Seq<FrameElement>)
    requires
        forall|i: int| 0 <= i < elements.len() ==> !((#[trigger] elements[i]) is Content),
    ensures
        elements.filter(is_content()) =~= Seq::empty(),
    decreases elements.len(),
{
    reveal(Seq::filter);
    if elements.len() > 0 {
        assert forall|i: int| 0 <= i < elements.drop_last().len() implies !((
        #[trigger] elements.drop_last()[i]) is Content) by {
            assert(elements.drop_last()[i] == elements[i]);
        }
        lemma_no_content(elements.drop_last());
        assert(!(elements[elements.len() - 1] is Content));
    }
}

/// Highlights of damage are above everything else, the last one topmost, and leave the frame below
/// them as it is.
pub proof fn damage_is_drawn_on_top(
    elements: &mut Vec<FrameElement>,
    damage: &[Rectangle],
    i: int,
    j: int,
)
    requires
        call_ensures(draw_damage, (elements, damage), ()),
    ensures
        final(elements)@.len() == damage@.len() + old(elements)@.len(),
        0 <= i < damage@.len() ==> final(elements)@[i] == FrameElement::Damage(
            damage@[damage@.len() - 1 - i],
        ),
        0 <= j < old(elements)@.len() ==> final(elements)@[damage@.len() + j] == old(elements)@[j],
{
}

/// Where an element is opaque on the output is where it is opaque by itself, moved to where the
/// element is.
pub proof fn regions_move_with_their_element(
    location: Point,
    regions: &[Rectangle],
    moved: Vec<Rectangle>,
    i: int,
)
    requires
        can_move_regions(location, regions@),
        call_ensures(opaque_regions, (location, regions), moved),
        0 <= i < regions@.len(),
    ensures
        moved@.len() == regions@.len(),
        moved@[i].size == regions@[i].size,
        moved@[i].loc.x == regions@[i].loc.x + location.x,
        moved@[i].loc.y == regions@[i].loc.y + location.y,
{
    assert(call_requires(opaque_regions, (location, regions)));
    assert(regions@[i].can_move(location));
}

/// An element that is drawn has its opaque regions highlighted directly above it, moved to where it
/// is and in order, and below those what is left of it; one that only stands for damage has no
/// highlights.
pub proof fn elements_are_below_their_highlights<
    F: Fn(Rectangle, &Vec<Rectangle>) -> Vec<Rectangle>,
>(
    elements: &mut Vec<FrameElement>,
    regions: &[ElementRegions],
    subtract: F,
    left: spec_fn(Rectangle, Seq<Rectangle>) -> Seq<Rectangle>,
    i: int,
)
    requires
        old(elements)@.len() == 1,
        regions@.len() == 1,
        regions@[0].wf(subtract),
        forall|r: Rectangle, opaque: Vec<Rectangle>, rest: Vec<Rectangle>| #[trigger]
            call_ensures(subtract, (r, &opaque), rest) ==> rest@ == left(r, opaque@),
        call_ensures(draw_opaque_regions::<F>, (elements, regions, subtract), ()),
    ensures
        regions@[0].extra_damage ==> final(elements)@ == old(elements)@,
        !regions@[0].extra_damage ==> {
            let opaque = regions@[0].opaque@;
            let rest = left(regions@[0].geometry, regions@[0].opaque_on_output());
            &&& final(elements)@.len() == opaque.len() + rest.len() + 1
            &&& 0 <= i < opaque.len() ==> final(elements)@[i] == FrameElement::OpaqueRegion(
                regions@[0].opaque_on_output()[i],
            )
            &&& 0 <= i < rest.len() ==> final(elements)@[opaque.len() + i]
                == FrameElement::Semitransparent(rest[i])
            &&& final(elements)@.last() == old(elements)@[0]
        },
{
    reveal_with_fuel(highlighted, 3);
    assert forall|k: int| 0 <= k < regions@.len() implies (#[trigger] regions@[k]).wf(
        subtract,
    ) by {}
    assert(call_requires(draw_opaque_regions::<F>, (elements, regions, subtract)));
    let rests = choose|rests: Seq<Vec<Rectangle>>|
        are_rests(subtract, regions@, rests) && final(elements)@ == #[trigger] highlighted(
            old(elements)@,
            regions@,
            rests,
        );
    assert(old(elements)@.drop_last() =~= Seq::empty());
    let front = highlights(regions@[0], rests[0]@);
    assert(final(elements)@ =~= front.push(old(elements)@[0]));
    if !regions@[0].extra_damage {
        assert(regions@[0].is_rest(subtract, rests[0]));
        let opaque = choose|opaque: Vec<Rectangle>|
            opaque@ == regions@[0].opaque_on_output() && #[trigger] call_ensures(
                subtract,
                (regions@[0].geometry, &opaque),
                rests[0],
            );
        assert(rests[0]@ == left(regions@[0].geometry, opaque@));
    } else {
        assert(final(elements)@ =~= old(elements)@);
    }
}

proof fn lemma_highlights_are_there(
    elements: Seq<FrameElement>,
    regions: Seq<ElementRegions>,
    rests: Seq<Vec<Rectangle>>,
    j: int,
    highlight: FrameElement,
)
    requires
        0 <= j < elements.len(),
        highlights(regions[j], rests[j]@).contains(highlight) || highlight == elements[j],
    ensures
        highlighted(elements, regions, rests).contains(highlight),
    decreases elements.len(),
{
    let last = elements.len() - 1;
    let front = highlighted(elements.drop_last(), regions, rests);
    let own = highlights(regions[last], rests[last]@).push(elements.last());
    let all = highlighted(elements, regions, rests);
    if j == last {
        if highlight == elements[j] {
            assert(all[front.len() + own.len() - 1] == highlight);
        } else {
            let h = highlights(regions[j], rests[j]@);
            let k = choose|k: int| 0 <= k < h.len() && h[k] == highlight;
            assert(own[k] == highlight);
            assert(all[front.len() + k] == highlight);
        }
    } else {
        assert(elements.drop_last()[j] == elements[j]);
        lemma_highlights_are_there(elements.drop_last(), regions, rests, j, highlight);
        let k = choose|k: int| 0 <= k < front.len() && front[k] == highlight;
        assert(all[k] == highlight);
    }
}

/// Every opaque region of every element that is drawn is highlighted, where it is on the output, and
/// no element is lost.
pub proof fn opaque_regions_are_highlighted<F: Fn(Rectangle, &Vec<Rectangle>) -> Vec<Rectangle>>(
    elements: &mut Vec<FrameElement>,
    regions: &[ElementRegions],
    subtract: F,
    j: int,
    i: int,
)
    requires
        old(elements)@.len() == regions@.len(),
        forall|k: int| 0 <= k < regions@.len() ==> (#[trigger] regions@[k]).wf(subtract),
        call_ensures(draw_opaque_regions::<F>, (elements, regions, subtract), ()),
        0 <= j < regions@.len(),
    ensures
        final(elements)@.contains(old(elements)@[j]),
        !regions@[j].extra_damage && 0 <= i < regions@[j].opaque@.len() ==> exists|r: Rectangle|
            #[trigger] final(elements)@.contains(FrameElement::OpaqueRegion(r)) && r.size
                == regions@[j].opaque@[i].size && r.loc.x == regions@[j].opaque@[i].loc.x
                + regions@[j].geometry.loc.x && r.loc.y == regions@[j].opaque@[i].loc.y
                + regions@[j].geometry.loc.y,
{
    assert(call_requires(draw_opaque_regions::<F>, (elements, regions, subtract)));
    let rests = choose|rests: Seq<Vec<Rectangle>>|
        are_rests(subtract, regions@, rests) && final(elements)@ == #[trigger] highlighted(
            old(elements)@,
            regions@,
            rests,
        );
    lemma_highlights_are_there(old(elements)@, regions@, rests, j, old(elements)@[j]);
    if !regions@[j].extra_damage && 0 <= i < regions@[j].opaque@.len() {
        assert(regions@[j].wf(subtract));
        let location = regions@[j].geometry.loc;
        let opaque = regions@[j].opaque@;
        assert(opaque[i].can_move(location));
        let r = opaque[i].spec_moved(location);
        let h = highlights(regions@[j], rests[j]@);
        assert(h[i] == FrameElement::OpaqueRegion(r));
        lemma_highlights_are_there(
            old(elements)@,
            regions@,
            rests,
            j,
            FrameElement::OpaqueRegion(r),
        );
    }
}

} // verus!
