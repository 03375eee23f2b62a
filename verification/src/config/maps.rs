//! The tables of the configuration, each a map that keeps the order in which it was filled.
use indexmap::IndexMap;
use vstd::prelude::*;

use super::input::PerDeviceInputConfig;
use super::keybind::{KeyActionDesc, KeyPattern, MouseAction, MouseInput, MousePattern};

verus! {

/// `indexmap::IndexMap`: a hash map that keeps its entries in the order in which they came.
#[verifier::external_type_specification]
#[verifier::external_body]
#[verifier::reject_recursive_types(K)]
#[verifier::reject_recursive_types(V)]
#[verifier::reject_recursive_types(S)]
pub struct ExIndexMap<K, V, S>(indexmap::IndexMap<K, V, S>);

/// The keys that are bound, by the modifiers and the symbol of the key.
pub type KeyBinds = IndexMap<(u32, u32), KeyActionDesc>;

/// The inputs of the mouse that are bound, by the modifiers and the code of the input.
pub type MouseBinds = IndexMap<(u32, u64), MouseAction>;

/// What differs for single devices, by their names.
pub type DeviceConfigs = IndexMap<String, PerDeviceInputConfig>;

/// What a map of key bindings holds.
pub uninterp spec fn keybinds_of(map: indexmap::IndexMap<(u32, u32), KeyActionDesc>) -> Map<
    (u32, u32),
    KeyActionDesc,
>;

/// What a map of mouse bindings holds.
pub uninterp spec fn mousebinds_of(map: indexmap::IndexMap<(u32, u64), MouseAction>) -> Map<
    (u32, u64),
    MouseAction,
>;

/// What a map of input devices holds.
pub uninterp spec fn devices_of(map: indexmap::IndexMap<String, PerDeviceInputConfig>) -> Map<
    Seq<char>,
    PerDeviceInputConfig,
>;

impl KeyPattern {
    /// The key under which the pattern is bound.
    pub open spec fn spec_key(self) -> (u32, u32) {
        (self.modifiers, self.keysym)
    }

    /// The key under which the pattern is bound.
    pub fn key(&self) -> (key: (u32, u32))
        ensures
            key == self.spec_key(),
    {
        (self.modifiers, self.keysym)
    }
}

impl MouseInput {
    /// The code of an input: that of a button is its number, those of the wheels come after all
    /// buttons.
    pub open spec fn spec_code(self) -> u64 {
        match self {
            MouseInput::Button(button) => button as u64,
            MouseInput::WheelUp => 0x1_0000_0000,
            MouseInput::WheelDown => 0x1_0000_0001,
            MouseInput::WheelLeft => 0x1_0000_0002,
            MouseInput::WheelRight => 0x1_0000_0003,
        }
    }

    /// The code of an input: that of a button is its number, those of the wheels come after all
    /// buttons.
    pub fn code(&self) -> (code: u64)
        ensures
            code == self.spec_code(),
    {
        match self {
            MouseInput::Button(button) => *button as u64,
            MouseInput::WheelUp => 0x1_0000_0000,
            MouseInput::WheelDown => 0x1_0000_0001,
            MouseInput::WheelLeft => 0x1_0000_0002,
            MouseInput::WheelRight => 0x1_0000_0003,
        }
    }
}

impl MousePattern {
    /// The key under which the pattern is bound.
    pub open spec fn spec_key(self) -> (u32, u64) {
        (self.modifiers, self.input.spec_code())
    }

    /// The key under which the pattern is bound.
    pub fn key(&self) -> (key: (u32, u64))
        ensures
            key == self.spec_key(),
    {
        (self.modifiers, self.input.code())
    }
}

/// No two patterns share a key, neither of the keyboard nor of the mouse.
pub proof fn patterns_have_their_own_keys(
    k: KeyPattern,
    l: KeyPattern,
    m: MousePattern,
    n: MousePattern,
)
    ensures
        k.spec_key() == l.spec_key() <==> k == l,
        m.spec_key() == n.spec_key() <==> m == n,
{
}

/// `IndexMap::new`, for key bindings: the map is empty.
#[verifier::external_body]
pub(crate) fn no_keybinds() -> (map: KeyBinds)
    ensures
        keybinds_of(map).dom().is_empty(),
{
    IndexMap::new()
}

/// `IndexMap::new`, for mouse bindings: the map is empty.
#[verifier::external_body]
pub(crate) fn no_mousebinds() -> (map: MouseBinds)
    ensures
        mousebinds_of(map).dom().is_empty(),
{
    IndexMap::new()
}

/// `IndexMap::new`, for input devices: the map is empty.
#[verifier::external_body]
pub(crate) fn no_devices() -> (map: DeviceConfigs)
    ensures
        devices_of(map).dom().is_empty(),
{
    IndexMap::new()
}

/// `IndexMap::get`, for key bindings: the value that is stored for the key, if there is one.
#[verifier::external_body]
pub(crate) fn get_keybind(map: &KeyBinds, key: (u32, u32)) -> (desc: Option<&KeyActionDesc>)
    ensures
        desc is Some <==> keybinds_of(*map).dom().contains(key),
        desc matches Some(desc) ==> *desc == keybinds_of(*map)[key],
{
    map.get(&key)
}

/// `IndexMap::get`, for mouse bindings: the value that is stored for the key, if there is one.
#[verifier::external_body]
pub(crate) fn get_mousebind(map: &MouseBinds, key: (u32, u64)) -> (action: Option<&MouseAction>)
    ensures
        action is Some <==> mousebinds_of(*map).dom().contains(key),
        action matches Some(action) ==> *action == mousebinds_of(*map)[key],
{
    map.get(&key)
}

/// A pattern is bound under its modifiers and its key; a button of the mouse under its number, which
/// is smaller than what any wheel is bound under.
pub proof fn patterns_are_bound_under_their_parts(
    key: &KeyPattern,
    mouse: &MousePattern,
    bound: (u32, u32),
    clicked: (u32, u64),
)
    requires
        call_ensures(KeyPattern::key, (key,), bound),
        call_ensures(MousePattern::key, (mouse,), clicked),
    ensures
        bound == (key.modifiers, key.keysym),
        clicked.0 == mouse.modifiers,
        mouse.input matches MouseInput::Button(button) ==> clicked.1 == button,
        !(mouse.input is Button) ==> clicked.1 > u32::MAX,
{
}

} // verus!
