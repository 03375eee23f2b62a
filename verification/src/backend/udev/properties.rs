//! Reading and deciding on properties of DRM objects.
use vstd::prelude::*;
use vstd::string::*;

verus! {

/// The lowercase equivalent of a text, as `str::to_lowercase` gives it.
pub uninterp spec fn lowercase(text: Seq<char>) -> Seq<char>;

/// Whether `needle` occurs in `text`.
pub open spec fn contains_text(text: Seq<char>, needle: Seq<char>) -> bool {
    exists|i: int|
        0 <= i <= text.len() - needle.len() && #[trigger] text.subrange(i, i + needle.len())
            == needle
}

/// `str::to_lowercase`: the result depends on the text alone, and goes by the name [`lowercase`].
#[verifier::external_body]
fn to_lowercase(text: &str) -> (lower: String)
    ensures
        lower@ == lowercase(text@),
{
    text.to_lowercase()
}

/// `str::contains` with a text as the pattern: whether the pattern is a part of the text.
#[verifier::external_body]
fn text_contains(text: &str, needle: &str) -> (b: bool)
    ensures
        b == contains_text(text@, needle@),
{
    text.contains(needle)
}

/// A property of an object, as far as it could be read.
#[derive(Debug)]
pub enum PropertyName {
    /// The property could not be read.
    Unreadable,
    /// Its name is not valid text.
    Garbled,
    Named(String),
}

/// Why a property was not found.
#[derive(Clone, Copy, Debug, PartialEq, Eq, Structural)]
pub enum PropertyError {
    Unreadable,
    NotFound,
}

impl PropertyName {
    /// Whether the property has the given name.
    pub open spec fn spec_is(&self, name: Seq<char>) -> bool {
        self matches PropertyName::Named(n) && n@ == name
    }
}

/// Whether `r` tells where the property called `name` is: at the first one of that name, unless one
/// before it could not be read.
pub open spec fn finds_property(
    properties: Seq<PropertyName>,
    name: Seq<char>,
    r: Result<usize, PropertyError>,
) -> bool {
    match r {
        Ok(i) => {
            &&& i < properties.len()
            &&& properties[i as int].spec_is(name)
            &&& forall|j: int|
                0 <= j < i ==> !(#[trigger] properties[j]).spec_is(name) && !(
                properties[j] is Unreadable)
        },
        Err(PropertyError::Unreadable) => exists|i: int|
            0 <= i < properties.len() && (#[trigger] properties[i]) is Unreadable && forall|
                j: int,
            |
                0 <= j < i ==> !(#[trigger] properties[j]).spec_is(name),
        Err(PropertyError::NotFound) => forall|j: int|
            0 <= j < properties.len() ==> !(#[trigger] properties[j]).spec_is(name) && !(
            properties[j] is Unreadable),
    }
}

/// Find the property called `name` among those of an object.
///
/// Properties are read one after the other, so one that cannot be read only matters if it comes
/// before the one that is looked for.
pub fn get_property_val(properties: &[PropertyName], name: &String) -> (r: Result<
    usize,
    PropertyError,
>)
    ensures
        finds_property(properties@, name@, r),
{
    let mut i: usize = 0;
    while i < properties.len()
        invariant
            0 <= i <= properties.len(),
            forall|j: int|
                0 <= j < i ==> !(#[trigger] properties@[j]).spec_is(name@) && !(properties@[j] is
                    Unreadable),
        decreases properties.len() - i,
    {
        match &properties[i] {
            PropertyName::Unreadable => {
                assert(properties@[i as int] is Unreadable);
                return Err(PropertyError::Unreadable);
            },
            PropertyName::Garbled => {},
            PropertyName::Named(n) => {
                if *n == *name {
                    return Ok(i);
                }
            },
        }
        i += 1;
    }
    Err(PropertyError::NotFound)
}

/// Whether a connector counts as part of the desktop, by its `non-desktop` property: `None` where
/// the property is missing or not a boolean, which counts as not set.
pub fn is_desktop_connector(non_desktop: Option<bool>) -> (b: bool)
    ensures
        b == (non_desktop != Some(true)),
{
    match non_desktop {
        Some(non_desktop) => !non_desktop,
        None => true,
    }
}

/// Whether a driver, described by its lowercase name and description, is one of NVIDIA.
pub fn mentions_nvidia(lower_name: &str, lower_description: &str) -> (b: bool)
    ensures
        b == (contains_text(lower_name@, "nvidia"@) || contains_text(
            lower_description@,
            "nvidia"@,
        )),
{
    text_contains(lower_name, "nvidia") || text_contains(lower_description, "nvidia")
}

/// Whether a device is driven by NVIDIA, which does not support overlay planes. `driver` is the
/// name and the description of the driver; a driver that could not be read is taken for another.
pub fn is_nvidia(driver: Option<(&str, &str)>) -> (b: bool)
    ensures
        b == match driver {
            Some((name, description)) => contains_text(lowercase(name@), "nvidia"@)
                || contains_text(lowercase(description@), "nvidia"@),
            None => false,
        },
{
    match driver {
        Some((name, description)) => {
            let lower_name = to_lowercase(name);
            let lower_description = to_lowercase(description);
            mentions_nvidia(lower_name.as_str(), lower_description.as_str())
        },
        None => false,
    }
}

/// One property of a connector, while looking for `max bpc`.
#[derive(Debug)]
pub struct BpcProperty {
    pub handle: u32,
    pub name: PropertyName,
    /// The least and the greatest value, where the property is an unsigned range.
    pub range: Option<(u64, u64)>,
    /// The current value, where it is an unsigned number.
    pub value: Option<u64>,
}

/// Why the maximum bits per color could not be set.
#[derive(Clone, Copy, Debug, PartialEq, Eq, Structural)]
pub enum BpcError {
    /// A property could not be read.
    Unreadable,
    /// `max bpc` is not an unsigned range.
    WrongValueType,
    /// The value of `max bpc` is not an unsigned number.
    WrongPropertyType,
}

/// What one property contributes.
#[derive(Clone, Copy, Debug, PartialEq, Eq, Structural)]
pub enum BpcStep {
    /// It is another property.
    Skip,
    /// It already has the value.
    Done,
    /// It gets this value.
    Change(u64),
    Fail(BpcError),
}

/// `x`, moved into the range from `min` to `max`.
pub open spec fn clamp(x: u64, min: u64, max: u64) -> u64 {
    if x < min {
        min
    } else if x > max {
        max
    } else {
        x
    }
}

impl BpcProperty {
    /// What the property contributes.
    pub open spec fn spec_step(&self, max_bpc: u64) -> BpcStep {
        if self.name is Unreadable {
            BpcStep::Fail(BpcError::Unreadable)
        } else if !self.name.spec_is("max bpc"@) {
            BpcStep::Skip
        } else {
            match (self.range, self.value) {
                (None, _) => BpcStep::Fail(BpcError::WrongValueType),
                (_, None) => BpcStep::Fail(BpcError::WrongPropertyType),
                (Some((min, max)), Some(value)) => if value == clamp(max_bpc, min, max) {
                    BpcStep::Done
                } else {
                    BpcStep::Change(clamp(max_bpc, min, max))
                },
            }
        }
    }

    /// The limits of `max bpc` are in order.
    pub open spec fn wf(&self) -> bool {
        self.name.spec_is("max bpc"@) ==> (self.range matches Some((min, max)) ==> min <= max)
    }

    fn step(&self, max_bpc: u64) -> (step: BpcStep)
        requires
            self.wf(),
        ensures
            step == self.spec_step(max_bpc),
    {
        match &self.name {
            PropertyName::Unreadable => {
                return BpcStep::Fail(BpcError::Unreadable);
            },
            PropertyName::Garbled => {
                return BpcStep::Skip;
            },
            PropertyName::Named(n) => {
                if *n != "max bpc".to_string() {
                    return BpcStep::Skip;
                }
            },
        }
        match (self.range, self.value) {
            (None, _) => BpcStep::Fail(BpcError::WrongValueType),
            (_, None) => BpcStep::Fail(BpcError::WrongPropertyType),
            (Some((min, max)), Some(value)) => {
                let bpc: u64 = if max_bpc < min {
                    min
                } else if max_bpc > max {
                    max
                } else {
                    max_bpc
                };
                if value == bpc {
                    BpcStep::Done
                } else {
                    BpcStep::Change(bpc)
                }
            },
        }
    }
}

/// The changes that the properties from index `i` on ask for, and how the search ends: at a
/// property that already has its value, at one that fails, or after all of them.
pub open spec fn bpc_changes(properties: Seq<BpcProperty>, max_bpc: u64, i: int) -> (
    Seq<(u32, u64)>,
    Result<(), BpcError>,
)
    decreases properties.len() - i,
{
    if i < 0 || i >= properties.len() {
        (Seq::empty(), Ok(()))
    } else {
        match properties[i].spec_step(max_bpc) {
            BpcStep::Skip => bpc_changes(properties, max_bpc, i + 1),
            BpcStep::Done => (Seq::empty(), Ok(())),
            BpcStep::Fail(err) => (Seq::empty(), Err(err)),
            BpcStep::Change(bpc) => {
                let (rest, end) = bpc_changes(properties, max_bpc, i + 1);
                (seq![(properties[i].handle, bpc)] + rest, end)
            },
        }
    }
}

/// Work out which properties to set so that a connector uses at most `max_bpc` bits for a color.
///
/// The value is moved into the range that the property allows. A property that already has it
/// ends the search. The changes that come before an error are made as well.
pub fn set_max_bpc(properties: &[BpcProperty], max_bpc: u64) -> (r: (
    Vec<(u32, u64)>,
    Result<(), BpcError>,
))
    requires
        forall|i: int| 0 <= i < properties@.len() ==> (#[trigger] properties@[i]).wf(),
    ensures
        (r.0@, r.1) == bpc_changes(properties@, max_bpc, 0),
{
    let mut changes: Vec<(u32, u64)> = Vec::new();
    let mut i: usize = 0;
    proof {
        let (rest, end) = bpc_changes(properties@, max_bpc, 0);
        assert(changes@ + rest =~= rest);
    }
    while i < properties.len()
        invariant
            0 <= i <= properties.len(),
            forall|j: int| 0 <= j < properties@.len() ==> (#[trigger] properties@[j]).wf(),
            bpc_changes(properties@, max_bpc, 0) == (
                changes@ + bpc_changes(properties@, max_bpc, i as int).0,
                bpc_changes(properties@, max_bpc, i as int).1,
            ),
        decreases properties.len() - i,
    {
        let ghost before = changes@;
        match properties[i].step(max_bpc) {
            BpcStep::Skip => {},
            BpcStep::Done => {
                assert(changes@ + Seq::<(u32, u64)>::empty() =~= changes@);
                return (changes, Ok(()));
            },
            BpcStep::Fail(err) => {
                assert(changes@ + Seq::<(u32, u64)>::empty() =~= changes@);
                return (changes, Err(err));
            },
            BpcStep::Change(bpc) => {
                changes.push((properties[i].handle, bpc));
                proof {
                    let rest = bpc_changes(properties@, max_bpc, i + 1).0;
                    assert(changes@ + rest =~= before + (seq![(
                        properties@[i as int].handle,
                        bpc,
                    )] + rest));
                }
            },
        }
        i += 1;
    }
    assert(changes@ + Seq::<(u32, u64)>::empty() =~= changes@);
    (changes, Ok(()))
}

/// The formats of a frame buffer, as four character codes.
#[derive(Clone, Copy, Debug, PartialEq, Eq, Structural)]
pub enum Fourcc {
    Abgr2101010,
    Argb2101010,
    Abgr8888,
    Argb8888,
}

/// The formats to render into, the most wanted first. Those with ten bits for a color can be
/// turned off.
pub fn color_formats(disable_10bit: bool) -> (formats: Vec<Fourcc>)
    ensures
        formats@ == if disable_10bit {
            seq![Fourcc::Abgr8888, Fourcc::Argb8888]
        } else {
            seq![Fourcc::Abgr2101010, Fourcc::Argb2101010, Fourcc::Abgr8888, Fourcc::Argb8888]
        },
{
    let mut formats: Vec<Fourcc> = Vec::new();
    if !disable_10bit {
        formats.push(Fourcc::Abgr2101010);
        formats.push(Fourcc::Argb2101010);
    }
    formats.push(Fourcc::Abgr8888);
    formats.push(Fourcc::Argb8888);
    assert(formats@ =~= if disable_10bit {
        seq![Fourcc::Abgr8888, Fourcc::Argb8888]
    } else {
        seq![Fourcc::Abgr2101010, Fourcc::Argb2101010, Fourcc::Abgr8888, Fourcc::Argb8888]
    });
    formats
}

/// A buffer format together with its memory layout.
#[derive(Clone, Copy, Debug, PartialEq, Eq, Structural)]
pub struct DrmFormat {
    pub code: u32,
    pub modifier: u64,
}

/// The formats that a display can scan out and that can be rendered from, each once, in the order
/// in which the planes list them.
pub open spec fn scanout_formats_of(planes: Seq<DrmFormat>, render: Set<DrmFormat>) -> Seq<
    DrmFormat,
>
    decreases planes.len(),
{
    if planes.len() == 0 {
        Seq::empty()
    } else {
        let rest = scanout_formats_of(planes.drop_last(), render);
        if render.contains(planes.last()) && !rest.contains(planes.last()) {
            rest.push(planes.last())
        } else {
            rest
        }
    }
}

fn has_format(formats: &[DrmFormat], format: DrmFormat) -> (b: bool)
    ensures
        b == formats@.contains(format),
{
    let mut i: usize = 0;
    while i < formats.len()
        invariant
            0 <= i <= formats.len(),
            forall|j: int| 0 <= j < i ==> formats@[j] != format,
        decreases formats.len() - i,
    {
        if formats[i].code == format.code && formats[i].modifier == format.modifier {
            assert(formats@[i as int] == format);
            return true;
        }
        i += 1;
    }
    false
}

/// The formats to offer for scan-out: those of the planes that one of the two renderers can also
/// render from, so that there is always a fallback.
///
/// `planes` lists the formats of the primary plane, then those of the overlay planes.
pub fn scanout_formats(planes: &[DrmFormat], primary: &[DrmFormat], render: &[DrmFormat]) -> (r:
    Vec<DrmFormat>)
    ensures
        r@ == scanout_formats_of(planes@, primary@.to_set().union(render@.to_set())),
{
    let ghost all = primary@.to_set().union(render@.to_set());
    let mut formats: Vec<DrmFormat> = Vec::new();
    let mut i: usize = 0;
    assert(planes@.take(0) =~= Seq::empty());
    while i < planes.len()
        invariant
            0 <= i <= planes.len(),
            all == primary@.to_set().union(render@.to_set()),
            formats@ == scanout_formats_of(planes@.take(i as int), all),
        decreases planes.len() - i,
    {
        let format = planes[i];
        proof {
            assert(planes@.take(i + 1).drop_last() =~= planes@.take(i as int));
            assert(planes@.take(i + 1).last() == format);
            assert(all.contains(format) == (primary@.contains(format) || render@.contains(format)));
        }
        if (has_format(primary, format) || has_format(render, format)) && !has_format(
            formats.as_slice(),
            format,
        ) {
            formats.push(format);
        }
        i += 1;
    }
    assert(planes@.take(planes@.len() as int) =~= planes@);
    formats
}

/// A format is offered for scan-out exactly when a plane lists it and a renderer supports it, and
/// never twice.
pub proof fn scanout_formats_are_renderable(planes: Seq<DrmFormat>, render: Set<DrmFormat>)
    ensures
        scanout_formats_of(planes, render).no_duplicates(),
        forall|f: DrmFormat| #[trigger]
            scanout_formats_of(planes, render).contains(f) <==> planes.contains(f)
                && render.contains(f),
    decreases planes.len(),
{
    let all = scanout_formats_of(planes, render);
    if planes.len() > 0 {
        let shorter = planes.drop_last();
        let rest = scanout_formats_of(shorter, render);
        let last = planes.last();
        scanout_formats_are_renderable(shorter, render);
        assert forall|f: DrmFormat| #[trigger]
            all.contains(f) <==> planes.contains(f) && render.contains(f) by {
            assert(planes.contains(f) <==> shorter.contains(f) || f == last) by {
                if planes.contains(f) {
                    let k = choose|k: int| 0 <= k < planes.len() && planes[k] == f;
                    if k < shorter.len() {
                        assert(shorter[k] == f);
                    }
                }
                if shorter.contains(f) {
                    let k = choose|k: int| 0 <= k < shorter.len() && shorter[k] == f;
                    assert(planes[k] == f);
                }
                assert(planes[planes.len() - 1] == last);
            }
            assert(rest.contains(f) ==> all.contains(f)) by {
                if rest.contains(f) {
                    let k = choose|k: int| 0 <= k < rest.len() && rest[k] == f;
                    assert(all[k] == f);
                }
            }
            if render.contains(last) && !rest.contains(last) {
                assert(all[all.len() - 1] == last);
            }
            if all.contains(f) && f != last {
                let k = choose|k: int| 0 <= k < all.len() && all[k] == f;
                assert(rest[k] == f);
            }
        }
    }
}

/// A property is found by its name: it is the first one of that name, and none before it was
/// unreadable.
pub proof fn properties_are_found_by_name(
    properties: &[PropertyName],
    name: &String,
    found: Result<usize, PropertyError>,
    k: int,
)
    requires
        call_ensures(get_property_val, (properties, name), found),
        0 <= k < properties@.len(),
        properties@[k] is Named,
        properties@[k]->Named_0@ == name@,
        forall|j: int|
            0 <= j < k ==> !((#[trigger] properties@[j]) is Unreadable) && !(properties@[j] is Named
                && properties@[j]->Named_0@ == name@),
    ensures
        found == Ok::<usize, PropertyError>(k as usize),
        k == k as usize,
{
    assert(properties@[k].spec_is(name@));
    match found {
        Ok(i) => {
            assert(properties@[i as int].spec_is(name@));
        },
        Err(PropertyError::Unreadable) => {
            let i = choose|i: int|
                0 <= i < properties@.len() && (#[trigger] properties@[i]) is Unreadable && forall|
                    j: int,
                |
                    0 <= j < i ==> !(#[trigger] properties@[j]).spec_is(name@);
            assert(properties@[i] is Unreadable);
        },
        Err(PropertyError::NotFound) => {},
    }
}

/// A property that an object does not have is not found; that is told apart from one that could not
/// be read.
pub proof fn missing_properties_are_not_found(
    properties: &[PropertyName],
    name: &String,
    found: Result<usize, PropertyError>,
)
    requires
        call_ensures(get_property_val, (properties, name), found),
        forall|j: int|
            0 <= j < properties@.len() ==> !((#[trigger] properties@[j]) is Named
                && properties@[j]->Named_0@ == name@),
    ensures
        found is Err,
        found->Err_0 is Unreadable <==> exists|j: int|
            0 <= j < properties@.len() && (#[trigger] properties@[j]) is Unreadable,
{
    assert forall|j: int| 0 <= j < properties@.len() implies !(#[trigger] properties@[j]).spec_is(
        name@,
    ) by {}
}

/// A connector is part of the desktop unless it says that it is not.
pub proof fn connectors_are_for_the_desktop(non_desktop: Option<bool>, desktop: bool)
    requires
        call_ensures(is_desktop_connector, (non_desktop,), desktop),
    ensures
        non_desktop == Some(true) ==> !desktop,
        non_desktop == Some(false) || non_desktop is None ==> desktop,
{
}

/// A driver is one of NVIDIA if its name or its description say so somewhere; a driver that could
/// not be read is not.
pub proof fn nvidia_is_mentioned(driver: Option<(&str, &str)>, nvidia: bool, at: int)
    requires
        call_ensures(is_nvidia, (driver,), nvidia),
    ensures
        driver is None ==> !nvidia,
        driver matches Some((name, description)) ==> {
            let n = lowercase(name@);
            let d = lowercase(description@);
            &&& 0 <= at && at + 6 <= n.len() && n.subrange(at, at + 6) == "nvidia"@ ==> nvidia
            &&& 0 <= at && at + 6 <= d.len() && d.subrange(at, at + 6) == "nvidia"@ ==> nvidia
            &&& nvidia ==> (exists|i: int|
                0 <= i <= n.len() - 6 && #[trigger] n.subrange(i, i + 6) == "nvidia"@) || exists|
                i: int,
            |
                0 <= i <= d.len() - 6 && #[trigger] d.subrange(i, i + 6) == "nvidia"@
        },
{
    reveal_strlit("nvidia");
    if let Some((name, description)) = driver {
        let n = lowercase(name@);
        let d = lowercase(description@);
        if nvidia {
            if contains_text(n, "nvidia"@) {
                let i = choose|i: int|
                    0 <= i <= n.len() - 6 && #[trigger] n.subrange(i, i + 6) == "nvidia"@;
                assert(n.subrange(i, i + 6) == "nvidia"@);
            } else {
                let i = choose|i: int|
                    0 <= i <= d.len() - 6 && #[trigger] d.subrange(i, i + 6) == "nvidia"@;
                assert(d.subrange(i, i + 6) == "nvidia"@);
            }
        }
    }
}

/// The bits for a color are set as asked for, within what the property allows, and not at all if they
/// are already set. Other properties are passed over, and what cannot be used is told.
pub proof fn bits_per_color_stay_in_range(
    properties: &[BpcProperty],
    max_bpc: u64,
    result: (Vec<(u32, u64)>, Result<(), BpcError>),
)
    requires
        properties@.len() == 1,
        properties@[0].wf(),
        call_ensures(set_max_bpc, (properties, max_bpc), result),
    ensures
        ({
            let property = properties@[0];
            let named = property.name is Named && property.name->Named_0@ == "max bpc"@;
            &&& property.name is Unreadable ==> result.0@.len() == 0 && result.1 == Err::<
                (),
                BpcError,
            >(BpcError::Unreadable)
            &&& !named && !(property.name is Unreadable) ==> result.0@.len() == 0 && result.1 is Ok
            &&& named && property.range is None ==> result.0@.len() == 0 && result.1 == Err::<
                (),
                BpcError,
            >(BpcError::WrongValueType)
            &&& named && property.range is Some && property.value is None ==> result.0@.len() == 0
                && result.1 == Err::<(), BpcError>(BpcError::WrongPropertyType)
            &&& named && property.value is Some ==> (property.range matches Some((min, max))
                ==> result.1 is Ok && {
                let bpc = if result.0@.len() == 0 {
                    property.value->0
                } else {
                    result.0@[0].1
                };
                &&& min <= bpc <= max
                &&& min <= max_bpc <= max ==> bpc == max_bpc
                &&& max_bpc < min ==> bpc == min
                &&& max_bpc > max ==> bpc == max
                &&& result.0@.len() > 0 ==> result.0@.len() == 1 && result.0@[0].0
                    == property.handle && bpc != property.value->0
            })
        }),
{
    reveal_with_fuel(bpc_changes, 3);
    assert forall|i: int| 0 <= i < properties@.len() implies (#[trigger] properties@[i]).wf() by {}
    assert(call_requires(set_max_bpc, (properties, max_bpc)));
    let rest = bpc_changes(properties@, max_bpc, 1).0;
    assert(seq![(properties@[0].handle, 0u64)] + rest =~= seq![(properties@[0].handle, 0u64)]);
}

/// Frames are rendered with ten bits for a color before eight, unless that is turned off.
pub proof fn deep_colors_come_first(disable_10bit: bool, formats: Vec<Fourcc>)
    requires
        call_ensures(color_formats, (disable_10bit,), formats),
    ensures
        disable_10bit ==> formats@.len() == 2,
        !disable_10bit ==> formats@.len() == 4 && formats@[0] is Abgr2101010 && formats@[1] is
            Argb2101010,
        formats@[formats@.len() - 2] is Abgr8888,
        formats@[formats@.len() - 1] is Argb8888,
{
}

/// The formats that are offered for scan-out are exactly those that a plane lists and one of the two
/// renderers can render from, each once.
pub proof fn offered_formats_can_be_rendered(
    planes: &[DrmFormat],
    primary: &[DrmFormat],
    render: &[DrmFormat],
    offered: Vec<DrmFormat>,
    format: DrmFormat,
)
    requires
        call_ensures(scanout_formats, (planes, primary, render), offered),
    ensures
        offered@.contains(format) <==> planes@.contains(format) && (primary@.contains(format)
            || render@.contains(format)),
        offered@.no_duplicates(),
{
    let all = primary@.to_set().union(render@.to_set());
    scanout_formats_are_renderable(planes@, all);
    assert(all.contains(format) == (primary@.contains(format) || render@.contains(format)));
    assert(scanout_formats_of(planes@, all).contains(format) <==> planes@.contains(format)
        && all.contains(format));
}

proof fn lemma_changes_shift(properties: Seq<BpcProperty>, max_bpc: u64, i: int)
    requires
        0 <= i,
        properties.len() > 0,
    ensures
        bpc_changes(properties, max_bpc, i + 1) == bpc_changes(properties.skip(1), max_bpc, i),
    decreases properties.len() - i,
{
    if i + 1 < properties.len() {
        assert(properties.skip(1)[i] == properties[i + 1]);
        lemma_changes_shift(properties, max_bpc, i + 1);
    }
}

/// Properties are looked at one after the other: another one than `max bpc` makes no difference, one
/// that already has its value ends the search, one that cannot be used fails it, and one that is
/// changed is the first change, with the changes of the properties after it to follow.
pub proof fn properties_are_looked_at_in_order(
    properties: &[BpcProperty],
    rest: &[BpcProperty],
    max_bpc: u64,
    all: (Vec<(u32, u64)>, Result<(), BpcError>),
    others: (Vec<(u32, u64)>, Result<(), BpcError>),
)
    requires
        properties@.len() > 0,
        rest@ == properties@.skip(1),
        forall|i: int| 0 <= i < properties@.len() ==> (#[trigger] properties@[i]).wf(),
        call_ensures(set_max_bpc, (properties, max_bpc), all),
        call_ensures(set_max_bpc, (rest, max_bpc), others),
    ensures
        ({
            let first = properties@[0];
            let named = first.name is Named && first.name->Named_0@ == "max bpc"@;
            let unusable = first.name is Unreadable || named && (first.range is None
                || first.value is None);
            &&& unusable ==> all.0@.len() == 0 && all.1 is Err
            &&& !unusable && !named ==> all.0@ == others.0@ && all.1 == others.1
            &&& !unusable && named ==> (all.0@.len() == 0 && all.1 is Ok || all.0@.len() > 0
                && all.0@[0].0 == first.handle && all.0@[0].1 != first.value->0
                && all.0@.skip(1) == others.0@ && all.1 == others.1)
        }),
{
    assert forall|i: int| 0 <= i < rest@.len() implies (#[trigger] rest@[i]).wf() by {
        assert(rest@[i] == properties@[i + 1]);
    }
    assert(call_requires(set_max_bpc, (properties, max_bpc)));
    assert(call_requires(set_max_bpc, (rest, max_bpc)));
    lemma_changes_shift(properties@, max_bpc, 0);
    reveal_with_fuel(bpc_changes, 2);
    if all.0@.len() > 0 {
        assert(all.0@.skip(1) =~= others.0@ || all.0@ =~= others.0@);
    }
}

} // verus!
