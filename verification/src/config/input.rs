//! Keyboards and mice.
use vstd::prelude::*;
use vstd::string::*;

use super::keybind::Fraction;
use super::maps::{devices_of, no_devices, DeviceConfigs};

verus! {

/// The bits of one, in double precision.
pub const ONE_DOUBLE_BITS: u64 = 0x3ff0_0000_0000_0000;

/// The layout of keyboards for which none is configured.
pub fn default_keyboard_layout() -> (layout: String)
    ensures
        layout@ == "us"@,
{
    "us".to_string()
}

/// How many times a key is repeated in a second, unless configured otherwise.
pub fn default_repeat_rate() -> (rate: i32)
    ensures
        rate == 25,
{
    25
}

/// How many milliseconds a key is held down before it is repeated, unless configured otherwise.
pub fn default_repeat_delay() -> (delay: i32)
    ensures
        delay == 250,
{
    250
}

/// How keyboards behave.
#[derive(Debug)]
pub struct KeyboardConfig {
    pub rules: String,
    pub model: String,
    pub layout: String,
    pub variant: String,
    pub options: String,
    pub repeat_delay: i32,
    pub repeat_rate: i32,
}

impl KeyboardConfig {
    /// A keyboard that is not configured at all: everything about its layout is left to the
    /// system.
    pub open spec fn is_default(&self) -> bool {
        &&& self.rules@ == Seq::<char>::empty()
        &&& self.model@ == Seq::<char>::empty()
        &&& self.layout@ == Seq::<char>::empty()
        &&& self.variant@ == Seq::<char>::empty()
        &&& self.options@ == Seq::<char>::empty()
        &&& self.repeat_delay == 250
        &&& self.repeat_rate == 25
    }

    /// What the keyboard is described by to the system.
    pub fn get_xkb_config(&self) -> (config: XkbConfig)
        ensures
            config.rules@ == self.rules@,
            config.model@ == self.model@,
            config.layout@ == self.layout@,
            config.variant@ == self.variant@,
            config.options matches Some(options) && options@ == self.options@,
    {
        XkbConfig {
            rules: self.rules.as_str(),
            model: self.model.as_str(),
            layout: self.layout.as_str(),
            variant: self.variant.as_str(),
            options: Some(self.options.clone()),
        }
    }
}

/// What a keyboard is described by to the system.
#[derive(Debug)]
pub struct XkbConfig<'a> {
    pub rules: &'a str,
    pub model: &'a str,
    pub layout: &'a str,
    pub variant: &'a str,
    pub options: Option<String>,
}

impl Default for KeyboardConfig {
    fn default() -> (config: KeyboardConfig)
        ensures
            config.is_default(),
    {
        KeyboardConfig {
            rules: String::new(),
            model: String::new(),
            layout: String::new(),
            variant: String::new(),
            options: String::new(),
            repeat_delay: default_repeat_delay(),
            repeat_rate: default_repeat_rate(),
        }
    }
}

/// How a mouse speeds up.
#[derive(Clone, Copy, Debug, PartialEq, Eq, Structural)]
pub enum AccelProfile {
    Flat,
    Adaptive,
}

/// How a touchpad scrolls.
#[derive(Clone, Copy, Debug, PartialEq, Eq, Structural)]
pub enum ScrollMethod {
    NoScroll,
    TwoFinger,
    Edge,
    OnButtonDown,
}

/// Which buttons one, two and three fingers on a touchpad stand for.
#[derive(Clone, Copy, Debug, PartialEq, Eq, Structural)]
pub enum TapButtonMap {
    LeftRightMiddle,
    LeftMiddleRight,
}

/// A number that stands for nothing.
#[derive(Clone, Copy, Debug, PartialEq, Eq, Structural)]
pub struct InvalidValue {
    pub value: u8,
}

/// The number of an acceleration profile.
pub open spec fn accelprofile_number(profile: AccelProfile) -> u8 {
    match profile {
        AccelProfile::Flat => 0,
        AccelProfile::Adaptive => 1,
    }
}

/// The number of a scroll method.
pub open spec fn scrollmethod_number(method: ScrollMethod) -> u8 {
    match method {
        ScrollMethod::NoScroll => 0,
        ScrollMethod::TwoFinger => 1,
        ScrollMethod::Edge => 2,
        ScrollMethod::OnButtonDown => 3,
    }
}

/// The number of a button map.
pub open spec fn tap_number(map: TapButtonMap) -> u8 {
    match map {
        TapButtonMap::LeftRightMiddle => 0,
        TapButtonMap::LeftMiddleRight => 1,
    }
}

/// The number by which an acceleration profile is stored.
pub fn serialize_accelprofile(profile: &AccelProfile) -> (value: u8)
    ensures
        value == accelprofile_number(*profile),
{
    match profile {
        AccelProfile::Flat => 0,
        AccelProfile::Adaptive => 1,
    }
}

/// The acceleration profile that is stored by a number.
pub fn deserialize_accelprofile(value: u8) -> (r: Result<AccelProfile, InvalidValue>)
    ensures
        r matches Ok(profile) ==> accelprofile_number(profile) == value,
        r matches Err(err) ==> err.value == value && value > 1,
{
    match value {
        0 => Ok(AccelProfile::Flat),
        1 => Ok(AccelProfile::Adaptive),
        _ => Err(InvalidValue { value }),
    }
}

/// The number by which a scroll method is stored.
pub fn serialize_scrollmethod(method: &ScrollMethod) -> (value: u8)
    ensures
        value == scrollmethod_number(*method),
{
    match method {
        ScrollMethod::NoScroll => 0,
        ScrollMethod::TwoFinger => 1,
        ScrollMethod::Edge => 2,
        ScrollMethod::OnButtonDown => 3,
    }
}

/// The scroll method that is stored by a number.
pub fn deserialize_scrollmethod(value: u8) -> (r: Result<ScrollMethod, InvalidValue>)
    ensures
        r matches Ok(method) ==> scrollmethod_number(method) == value,
        r matches Err(err) ==> err.value == value && value > 3,
{
    match value {
        0 => Ok(ScrollMethod::NoScroll),
        1 => Ok(ScrollMethod::TwoFinger),
        2 => Ok(ScrollMethod::Edge),
        3 => Ok(ScrollMethod::OnButtonDown),
        _ => Err(InvalidValue { value }),
    }
}

/// The number by which a button map is stored.
pub fn serialize_tap_to_click_behaviour(map: &TapButtonMap) -> (value: u8)
    ensures
        value == tap_number(*map),
{
    match map {
        TapButtonMap::LeftRightMiddle => 0,
        TapButtonMap::LeftMiddleRight => 1,
    }
}

/// The button map that is stored by a number.
pub fn deserialize_tap_to_click_behaviour(value: u8) -> (r: Result<TapButtonMap, InvalidValue>)
    ensures
        r matches Ok(map) ==> tap_number(map) == value,
        r matches Err(err) ==> err.value == value && value > 1,
{
    match value {
        0 => Ok(TapButtonMap::LeftRightMiddle),
        1 => Ok(TapButtonMap::LeftMiddleRight),
        _ => Err(InvalidValue { value }),
    }
}

/// A setting that is off unless configured otherwise.
pub fn default_false() -> (b: bool)
    ensures
        !b,
{
    false
}

/// A setting that is on unless configured otherwise.
pub fn default_true() -> (b: bool)
    ensures
        b,
{
    true
}

/// The scroll method of touchpads for which none is configured.
pub fn default_scrollmethod() -> (method: ScrollMethod)
    ensures
        method == ScrollMethod::TwoFinger,
{
    ScrollMethod::TwoFinger
}

/// The button map of touchpads for which none is configured.
pub fn default_tap_to_click_behaviour() -> (map: TapButtonMap)
    ensures
        map == TapButtonMap::LeftRightMiddle,
{
    TapButtonMap::LeftRightMiddle
}

/// The acceleration profile of mice for which none is configured.
pub fn default_accelprofile() -> (profile: AccelProfile)
    ensures
        profile == AccelProfile::Adaptive,
{
    AccelProfile::Adaptive
}

/// The acceleration of mice for which none is configured.
pub fn default_accelspeed() -> (speed: Fraction)
    ensures
        speed.bits == ONE_DOUBLE_BITS,
{
    Fraction { bits: ONE_DOUBLE_BITS }
}

/// How mice and touchpads behave.
#[derive(Clone, Copy, Debug, PartialEq, Eq, Structural)]
pub struct MouseConfig {
    pub acceleration_profile: AccelProfile,
    pub acceleration_speed: Fraction,
    pub left_handed: bool,
    pub scroll_method: ScrollMethod,
    pub natural_scrolling: bool,
    pub middle_button_emulation: bool,
    pub disable_while_typing: bool,
    pub tap_to_click: bool,
    pub tap_to_click_behaviour: TapButtonMap,
    pub tap_and_drag: bool,
}

/// A mouse that is not configured.
pub open spec fn default_mouse() -> MouseConfig {
    MouseConfig {
        acceleration_profile: AccelProfile::Adaptive,
        acceleration_speed: Fraction { bits: ONE_DOUBLE_BITS },
        left_handed: false,
        scroll_method: ScrollMethod::TwoFinger,
        natural_scrolling: false,
        middle_button_emulation: false,
        disable_while_typing: true,
        tap_to_click: false,
        tap_to_click_behaviour: TapButtonMap::LeftRightMiddle,
        tap_and_drag: true,
    }
}

impl Default for MouseConfig {
    fn default() -> (config: MouseConfig)
        ensures
            config == default_mouse(),
    {
        MouseConfig {
            acceleration_profile: default_accelprofile(),
            acceleration_speed: default_accelspeed(),
            left_handed: default_false(),
            scroll_method: default_scrollmethod(),
            natural_scrolling: default_false(),
            middle_button_emulation: default_false(),
            disable_while_typing: default_true(),
            tap_to_click: default_false(),
            tap_to_click_behaviour: default_tap_to_click_behaviour(),
            tap_and_drag: default_true(),
        }
    }
}

/// How one device behaves.
#[derive(Debug)]
pub struct PerDeviceInputConfig {
    pub disable: bool,
    pub keyboard: KeyboardConfig,
    pub mouse: MouseConfig,
}

impl Default for PerDeviceInputConfig {
    fn default() -> (config: PerDeviceInputConfig)
        ensures
            !config.disable,
            config.keyboard.is_default(),
            config.mouse == default_mouse(),
    {
        PerDeviceInputConfig {
            disable: false,
            keyboard: KeyboardConfig::default(),
            mouse: MouseConfig::default(),
        }
    }
}

/// How input devices behave.
#[derive(Debug)]
pub struct InputConfig {
    pub keyboard: KeyboardConfig,
    pub mouse: MouseConfig,
    /// What differs for single devices, by their names.
    pub per_device: DeviceConfigs,
}

impl Default for InputConfig {
    fn default() -> (config: InputConfig)
        ensures
            config.keyboard.is_default(),
            config.mouse == default_mouse(),
            devices_of(config.per_device).dom().is_empty(),
    {
        InputConfig {
            keyboard: KeyboardConfig::default(),
            mouse: MouseConfig::default(),
            per_device: no_devices(),
        }
    }
}

/// Different settings are stored by different numbers, so that what is stored can be told apart.
pub proof fn stored_numbers_are_distinct(
    p: AccelProfile,
    q: AccelProfile,
    m: ScrollMethod,
    n: ScrollMethod,
    s: TapButtonMap,
    t: TapButtonMap,
)
    ensures
        accelprofile_number(p) == accelprofile_number(q) ==> p == q,
        scrollmethod_number(m) == scrollmethod_number(n) ==> m == n,
        tap_number(s) == tap_number(t) ==> s == t,
{
}

/// What is stored of a setting reads back as that setting, and a number that stands for none is
/// refused with the number.
pub proof fn stored_settings_read_back(
    profile: &AccelProfile,
    method: &ScrollMethod,
    map: &TapButtonMap,
    p: u8,
    m: u8,
    t: u8,
    read_profile: Result<AccelProfile, InvalidValue>,
    read_method: Result<ScrollMethod, InvalidValue>,
    read_map: Result<TapButtonMap, InvalidValue>,
)
    requires
        call_ensures(serialize_accelprofile, (profile,), p),
        call_ensures(serialize_scrollmethod, (method,), m),
        call_ensures(serialize_tap_to_click_behaviour, (map,), t),
        call_ensures(deserialize_accelprofile, (p,), read_profile),
        call_ensures(deserialize_scrollmethod, (m,), read_method),
        call_ensures(deserialize_tap_to_click_behaviour, (t,), read_map),
    ensures
        read_profile == Ok::<AccelProfile, InvalidValue>(*profile),
        read_method == Ok::<ScrollMethod, InvalidValue>(*method),
        read_map == Ok::<TapButtonMap, InvalidValue>(*map),
        *profile is Flat ==> p == 0,
        *profile is Adaptive ==> p == 1,
        *method is NoScroll ==> m == 0,
        *method is TwoFinger ==> m == 1,
        *method is Edge ==> m == 2,
        *method is OnButtonDown ==> m == 3,
        *map is LeftRightMiddle ==> t == 0,
        *map is LeftMiddleRight ==> t == 1,
{
}

/// Numbers that stand for no setting are refused.
pub proof fn other_numbers_are_refused(
    value: u8,
    profile: Result<AccelProfile, InvalidValue>,
    method: Result<ScrollMethod, InvalidValue>,
    map: Result<TapButtonMap, InvalidValue>,
)
    requires
        call_ensures(deserialize_accelprofile, (value,), profile),
        call_ensures(deserialize_scrollmethod, (value,), method),
        call_ensures(deserialize_tap_to_click_behaviour, (value,), map),
    ensures
        profile is Ok <==> value <= 1,
        method is Ok <==> value <= 3,
        map is Ok <==> value <= 1,
        profile matches Err(err) ==> err.value == value,
        method matches Err(err) ==> err.value == value,
        map matches Err(err) ==> err.value == value,
{
}

/// The keyboard is described to the system as it is configured.
pub proof fn keyboards_are_described_as_configured(keyboard: &KeyboardConfig, config: XkbConfig)
    requires
        call_ensures(KeyboardConfig::get_xkb_config, (keyboard,), config),
    ensures
        config.rules@ == keyboard.rules@,
        config.model@ == keyboard.model@,
        config.layout@ == keyboard.layout@,
        config.variant@ == keyboard.variant@,
        config.options is Some,
        config.options->0@ == keyboard.options@,
{
}

/// A mouse that is not configured speeds up adaptively and at full speed, scrolls with two fingers,
/// and is off while typing; taps only drag.
pub proof fn mice_have_defaults(config: MouseConfig)
    requires
        config == default_mouse(),
    ensures
        config.acceleration_profile is Adaptive,
        config.acceleration_speed.bits == 0x3ff0_0000_0000_0000,
        config.scroll_method is TwoFinger,
        config.disable_while_typing,
        config.tap_and_drag,
        config.tap_to_click_behaviour is LeftRightMiddle,
        !config.left_handed && !config.natural_scrolling && !config.middle_button_emulation
            && !config.tap_to_click,
{
}

/// Keys repeat twenty-five times in a second after a quarter of a second, on a layout for the United
/// States, unless configured otherwise.
pub proof fn keyboards_have_defaults(layout: String, rate: i32, delay: i32)
    requires
        call_ensures(default_keyboard_layout, (), layout),
        call_ensures(default_repeat_rate, (), rate),
        call_ensures(default_repeat_delay, (), delay),
    ensures
        layout@ == "us"@,
        rate == 25,
        delay == 250,
{
}

} // verus!
