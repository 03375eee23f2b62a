//! The configuration of outputs.
use vstd::prelude::*;
use vstd::string::*;

use crate::seqs::{first_index, lemma_first_index, lemma_first_index_is, lemma_first_index_none};

verus! {

/// When an output uses a variable refresh rate.
#[derive(Clone, Copy, Debug, PartialEq, Eq, Structural)]
pub enum VrrMode {
    On,
    Off,
    /// While a window asks for it.
    OnDemand,
}

/// How an output is turned and mirrored.
#[derive(Clone, Copy, Debug, PartialEq, Eq, Structural)]
pub enum OutputTransform {
    Normal,
    Rotate90,
    Rotate180,
    Rotate270,
    Flipped,
    Flipped90,
    Flipped180,
    Flipped270,
}

/// What the user wants of one output.
#[derive(Clone, Copy, Debug)]
pub struct OutputConfig {
    pub disable: bool,
    /// Width, height, and refresh rate in millihertz.
    pub mode: Option<(u16, u16, Option<i32>)>,
    pub transform: Option<OutputTransform>,
    pub scale: Option<i32>,
    pub vrr: VrrMode,
}

/// What holds of an output that the configuration does not mention.
pub open spec fn default_output() -> OutputConfig {
    OutputConfig { disable: false, mode: None, transform: None, scale: None, vrr: VrrMode::Off }
}

impl Default for OutputConfig {
    fn default() -> (config: OutputConfig)
        ensures
            config == default_output(),
    {
        OutputConfig { disable: false, mode: None, transform: None, scale: None, vrr: VrrMode::Off }
    }
}

/// The configured outputs, by name.
#[derive(Debug)]
pub struct OutputsConfig {
    pub entries: Vec<(String, OutputConfig)>,
}

/// Whether an entry is about the output with the given name.
pub open spec fn entry_named(name: Seq<char>) -> spec_fn((String, OutputConfig)) -> bool {
    |entry: (String, OutputConfig)| entry.0@ == name
}

impl OutputsConfig {
    /// What is configured for the output `name`.
    pub open spec fn spec_get(&self, name: Seq<char>) -> OutputConfig {
        match first_index(self.entries@, entry_named(name)) {
            Some(i) => self.entries@[i].1,
            None => default_output(),
        }
    }

    /// What is configured for the output `name`, the defaults where nothing is.
    pub fn get(&self, name: &String) -> (config: OutputConfig)
        ensures
            config == self.spec_get(name@),
    {
        let mut i: usize = 0;
        while i < self.entries.len()
            invariant
                0 <= i <= self.entries.len(),
                forall|j: int| 0 <= j < i ==> (#[trigger] self.entries@[j]).0@ != name@,
            decreases self.entries.len() - i,
        {
            if self.entries[i].0 == *name {
                proof {
                    lemma_first_index_is(self.entries@, entry_named(name@), i as int);
                }
                return self.entries[i].1;
            }
            i += 1;
        }
        proof {
            lemma_first_index_none(self.entries@, entry_named(name@));
        }
        OutputConfig::default()
    }
}

impl OutputConfig {
    /// Whether the user wants the same of two outputs.
    pub fn same(&self, other: &OutputConfig) -> (b: bool)
        ensures
            b == (*self == *other),
    {
        let same_mode = match (self.mode, other.mode) {
            (Some((w, h, r)), Some((x, y, s))) => w == x && h == y && r == s,
            (None, None) => true,
            _ => false,
        };
        self.disable == other.disable && same_mode && self.transform == other.transform
            && self.scale == other.scale && self.vrr == other.vrr
    }
}

/// Whether every output of `a` is configured in `b`, and in the same way.
pub open spec fn included(a: OutputsConfig, b: OutputsConfig) -> bool {
    forall|i: int|
        0 <= i < a.entries@.len() ==> first_index(
            b.entries@,
            entry_named((#[trigger] a.entries@[i]).0@),
        ) is Some && b.spec_get(a.entries@[i].0@) == a.entries@[i].1
}

impl OutputsConfig {
    fn is_included(&self, other: &OutputsConfig) -> (b: bool)
        ensures
            b == included(*self, *other),
    {
        let mut i: usize = 0;
        while i < self.entries.len()
            invariant
                0 <= i <= self.entries.len(),
                forall|j: int|
                    0 <= j < i ==> first_index(
                        other.entries@,
                        entry_named((#[trigger] self.entries@[j]).0@),
                    ) is Some && other.spec_get(self.entries@[j].0@) == self.entries@[j].1,
            decreases self.entries.len() - i,
        {
            let name = &self.entries[i].0;
            let here = other.contains(name);
            let same = other.get(name).same(&self.entries[i].1);
            if !here || !same {
                assert(self.entries@[i as int].0@ == name@);
                return false;
            }
            i += 1;
        }
        true
    }

    /// Whether the output `name` is configured.
    pub fn contains(&self, name: &String) -> (b: bool)
        ensures
            b == first_index(self.entries@, entry_named(name@)) is Some,
    {
        let mut i: usize = 0;
        while i < self.entries.len()
            invariant
                0 <= i <= self.entries.len(),
                forall|j: int| 0 <= j < i ==> (#[trigger] self.entries@[j]).0@ != name@,
            decreases self.entries.len() - i,
        {
            if self.entries[i].0 == *name {
                proof {
                    lemma_first_index_is(self.entries@, entry_named(name@), i as int);
                }
                return true;
            }
            i += 1;
        }
        proof {
            lemma_first_index_none(self.entries@, entry_named(name@));
        }
        false
    }

    /// Replace the configuration of all outputs. Returns whether that changes anything.
    pub fn apply_configuration(&mut self, config: OutputsConfig) -> (changed: bool)
        ensures
            changed == !(included(*old(self), config) && included(config, *old(self))),
            *final(self) == config,
    {
        let changed = !(self.is_included(&config) && config.is_included(self));
        *self = config;
        changed
    }
}

/// What is configured for an output is found under its name, the first entry if there are several;
/// an output that is not named is on, with everything else left to the display, and without
/// variable refresh rate.
pub proof fn outputs_are_configured_by_name(
    outputs: &OutputsConfig,
    name: &String,
    config: OutputConfig,
    known: bool,
)
    requires
        call_ensures(OutputsConfig::get, (outputs, name), config),
        call_ensures(OutputsConfig::contains, (outputs, name), known),
    ensures
        known ==> exists|i: int|
            0 <= i < outputs.entries@.len() && (#[trigger] outputs.entries@[i]).0@ == name@
                && outputs.entries@[i].1 == config && forall|j: int|
                0 <= j < i ==> (#[trigger] outputs.entries@[j]).0@ != name@,
        !known ==> (forall|j: int|
            0 <= j < outputs.entries@.len() ==> (#[trigger] outputs.entries@[j]).0@ != name@)
            && !config.disable && config.mode is None && config.transform is None && config.scale is
            None && config.vrr is Off,
{
    let p = entry_named(name@);
    lemma_first_index(outputs.entries@, p);
    match first_index(outputs.entries@, p) {
        Some(i) => {
            assert(p(outputs.entries@[i]));
            assert(outputs.entries@[i].0@ == name@);
            assert forall|j: int| 0 <= j < i implies (#[trigger] outputs.entries@[j]).0@
                != name@ by {
                assert(!p(outputs.entries@[j]));
            }
        },
        None => {
            assert forall|j: int| 0 <= j < outputs.entries@.len() implies (
            #[trigger] outputs.entries@[j]).0@ != name@ by {
                assert(!p(outputs.entries@[j]));
            }
        },
    }
}

/// What the user wants of two outputs is the same exactly if nothing of it differs.
pub proof fn different_wishes_are_told_apart(a: &OutputConfig, b: &OutputConfig, same: bool)
    requires
        call_ensures(OutputConfig::same, (a, b), same),
    ensures
        same <==> a.disable == b.disable && a.mode == b.mode && a.transform == b.transform
            && a.scale == b.scale && a.vrr == b.vrr,
{
}

/// A new configuration takes effect as a whole. It changes something whenever one of the two
/// configures an output that the other one does not.
pub proof fn new_outputs_change_the_configuration(
    outputs: &mut OutputsConfig,
    config: OutputsConfig,
    changed: bool,
    name: Seq<char>,
    i: int,
)
    requires
        call_ensures(OutputsConfig::apply_configuration, (outputs, config), changed),
        ({
            ||| {
                &&& 0 <= i < config.entries@.len()
                &&& config.entries@[i].0@ == name
                &&& forall|k: int|
                    0 <= k < old(outputs).entries@.len() ==> (#[trigger] old(
                        outputs,
                    ).entries@[k]).0@ != name
            }
            ||| {
                &&& 0 <= i < old(outputs).entries@.len()
                &&& old(outputs).entries@[i].0@ == name
                &&& forall|k: int|
                    0 <= k < config.entries@.len() ==> (#[trigger] config.entries@[k]).0@ != name
            }
        }),
    ensures
        changed,
        *final(outputs) == config,
{
    let before = old(outputs).entries@;
    let p = entry_named(name);
    lemma_first_index(before, p);
    lemma_first_index(config.entries@, p);
    if first_index(before, p) is Some {
        assert(p(before[first_index(before, p)->0]));
    }
    if first_index(config.entries@, p) is Some {
        assert(p(config.entries@[first_index(config.entries@, p)->0]));
    }
}

/// A new configuration changes something if it wants something else of an output.
pub proof fn new_wishes_change_the_configuration(
    outputs: &mut OutputsConfig,
    config: OutputsConfig,
    changed: bool,
    i: int,
    j: int,
)
    requires
        call_ensures(OutputsConfig::apply_configuration, (outputs, config), changed),
        0 <= i < config.entries@.len(),
        0 <= j < old(outputs).entries@.len(),
        config.entries@[i].0@ == old(outputs).entries@[j].0@,
        forall|k: int|
            0 <= k < j ==> (#[trigger] old(outputs).entries@[k]).0@ != config.entries@[i].0@,
        config.entries@[i].1 != old(outputs).entries@[j].1,
    ensures
        changed,
        *final(outputs) == config,
{
    let before = old(outputs).entries@;
    let p = entry_named(config.entries@[i].0@);
    assert forall|k: int| 0 <= k < j implies !p(#[trigger] before[k]) by {}
    lemma_first_index_is(before, p, j);
}

/// The same configuration, with each output in it once, changes nothing.
pub proof fn the_same_configuration_changes_nothing(
    outputs: &mut OutputsConfig,
    config: OutputsConfig,
    changed: bool,
)
    requires
        call_ensures(OutputsConfig::apply_configuration, (outputs, config), changed),
        old(outputs).entries@ == config.entries@,
        forall|k: int, l: int|
            0 <= k < l < config.entries@.len() ==> (#[trigger] config.entries@[k]).0@ != (
            #[trigger] config.entries@[l]).0@,
    ensures
        !changed,
{
    assert forall|k: int| 0 <= k < config.entries@.len() implies first_index(
        config.entries@,
        entry_named((#[trigger] config.entries@[k]).0@),
    ) == Some(k) by {
        let p = entry_named(config.entries@[k].0@);
        assert forall|l: int| 0 <= l < k implies !p(#[trigger] config.entries@[l]) by {}
        lemma_first_index_is(config.entries@, p, k);
    }
}

} // verus!
