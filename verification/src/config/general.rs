//! Everything else that can be configured.
use vstd::prelude::*;
use vstd::string::*;

use super::animation::{default_animation, AnimationConfig};
use super::decoration::{default_decoration, DecorationConfig, Single, HALF_BITS};
use super::input::{default_mouse, InputConfig};
use super::maps::{
    devices_of, keybinds_of, mousebinds_of, no_keybinds, no_mousebinds, KeyBinds, MouseBinds,
};
use super::rules::{WindowPattern, WindowRules};
use crate::text::{digits_value, is_number, parse_bool, parse_u32, without_plus};

verus! {

/// The size of the cursor for which none is configured.
pub const DEFAULT_CURSOR_SIZE: u32 = 24;

/// How the windows of a workspace are arranged.
#[derive(Clone, Copy, Debug, PartialEq, Eq, Structural)]
pub enum WorkspaceLayout {
    /// The slaves are stacked beside the masters.
    Tile,
    /// The slaves are stacked below the masters.
    BottomStack,
}

/// Where new windows go.
#[derive(Clone, Copy, Debug, PartialEq, Eq, Structural)]
pub enum InsertWindowStrategy {
    EndOfSlaveStack,
    ReplaceMaster,
    AfterFocused,
}

impl Default for InsertWindowStrategy {
    fn default() -> (strategy: InsertWindowStrategy)
        ensures
            strategy == InsertWindowStrategy::EndOfSlaveStack,
    {
        InsertWindowStrategy::EndOfSlaveStack
    }
}

/// The layouts of workspaces for which none are configured.
pub fn default_layouts() -> (layouts: Vec<WorkspaceLayout>)
    ensures
        layouts@ == seq![WorkspaceLayout::Tile],
{
    let mut layouts: Vec<WorkspaceLayout> = Vec::new();
    layouts.push(WorkspaceLayout::Tile);
    assert(layouts@ =~= seq![WorkspaceLayout::Tile]);
    layouts
}

/// How many masters a workspace has, unless configured otherwise.
pub fn default_nmaster() -> (n: usize)
    ensures
        n == 1,
{
    1
}

/// How much room the masters of a workspace have, unless configured otherwise.
pub fn default_mwfact() -> (fact: Single)
    ensures
        fact.bits == HALF_BITS,
{
    Single { bits: HALF_BITS }
}

/// What the environment of the process says. A variable that is not set, or whose value is not
/// text, is absent.
#[derive(Debug)]
pub struct Environment {
    /// `XCURSOR_THEME`.
    pub cursor_theme: Option<String>,
    /// `XCURSOR_SIZE`.
    pub cursor_size: Option<String>,
    /// `FHTC_DISABLE_10_BIT`.
    pub disable_10bit: Option<String>,
    /// `FHTC_DISABLE_OVERLAY_PLANES`.
    pub disable_overlay_planes: Option<String>,
    /// `FHTC_RENDER_NODE`.
    pub render_node: Option<String>,
}

/// The cursor theme for which none is configured: that of the environment.
pub open spec fn cursor_theme(theme: Option<String>) -> Seq<char> {
    match theme {
        Some(theme) => theme@,
        None => "default"@,
    }
}

/// The cursor size for which none is configured: that of the environment, if it is a number.
pub open spec fn cursor_size(size: Option<String>) -> int {
    match size {
        Some(size) => if is_number(size@) && digits_value(without_plus(size@)) <= u32::MAX {
            digits_value(without_plus(size@)) as int
        } else {
            DEFAULT_CURSOR_SIZE as int
        },
        None => DEFAULT_CURSOR_SIZE as int,
    }
}

/// A setting of the environment that is off unless it is `true`.
pub open spec fn is_on(value: Option<String>) -> bool {
    value matches Some(value) && value@ == "true"@
}

/// The cursor theme for which none is configured: that of the environment.
pub fn default_cursor_theme(theme: &Option<String>) -> (name: String)
    ensures
        name@ == cursor_theme(*theme),
{
    match theme {
        Some(theme) => theme.clone(),
        None => "default".to_string(),
    }
}

/// The cursor size for which none is configured: that of the environment, if it is a number.
pub fn default_cursor_size(size: &Option<String>) -> (n: u32)
    ensures
        n == cursor_size(*size),
{
    match size {
        Some(size) => match parse_u32(size.as_str()) {
            Some(n) => n,
            None => DEFAULT_CURSOR_SIZE,
        },
        None => DEFAULT_CURSOR_SIZE,
    }
}

fn flag(value: &Option<String>) -> (b: bool)
    ensures
        b == is_on(*value),
{
    proof {
        reveal_strlit("true");
        reveal_strlit("false");
        assert("true"@.len() != "false"@.len());
    }
    match value {
        Some(value) => match parse_bool(value.as_str()) {
            Some(b) => b,
            None => false,
        },
        None => false,
    }
}

/// Whether formats with ten bits for a color are turned off, unless configured otherwise.
pub fn default_disable_10bit(value: &Option<String>) -> (b: bool)
    ensures
        b == is_on(*value),
{
    flag(value)
}

/// Whether overlay planes are turned off, unless configured otherwise.
pub fn default_disable_overlay_planes(value: &Option<String>) -> (b: bool)
    ensures
        b == is_on(*value),
{
    flag(value)
}

/// The cursor.
#[derive(Debug)]
pub struct CursorConfig {
    pub name: String,
    pub size: u32,
}

impl CursorConfig {
    /// The cursor that is not configured.
    pub fn from_environment(env: &Environment) -> (config: CursorConfig)
        ensures
            config.name@ == cursor_theme(env.cursor_theme),
            config.size == cursor_size(env.cursor_size),
    {
        CursorConfig {
            name: default_cursor_theme(&env.cursor_theme),
            size: default_cursor_size(&env.cursor_size),
        }
    }
}

/// General settings.
#[derive(Debug)]
pub struct GeneralConfig {
    /// Whether the pointer follows the focus.
    pub cursor_warps: bool,
    pub focus_new_windows: bool,
    pub insert_window_strategy: InsertWindowStrategy,
    pub cursor: CursorConfig,
    pub layouts: Vec<WorkspaceLayout>,
    pub nmaster: usize,
    pub mwfact: Single,
    pub outer_gaps: i32,
    pub inner_gaps: i32,
}

impl GeneralConfig {
    /// General settings that are not configured.
    pub open spec fn is_default(&self, env: &Environment) -> bool {
        &&& self.cursor_warps
        &&& self.focus_new_windows
        &&& self.insert_window_strategy == InsertWindowStrategy::EndOfSlaveStack
        &&& self.cursor.name@ == cursor_theme(env.cursor_theme)
        &&& self.cursor.size == cursor_size(env.cursor_size)
        &&& self.layouts@ == seq![WorkspaceLayout::Tile]
        &&& self.nmaster == 1
        &&& self.mwfact.bits == HALF_BITS
        &&& self.outer_gaps == 0
        &&& self.inner_gaps == 0
    }

    /// General settings that are not configured.
    pub fn from_environment(env: &Environment) -> (config: GeneralConfig)
        ensures
            config.is_default(env),
    {
        GeneralConfig {
            cursor_warps: true,
            focus_new_windows: true,
            insert_window_strategy: InsertWindowStrategy::default(),
            cursor: CursorConfig::from_environment(env),
            layouts: default_layouts(),
            nmaster: default_nmaster(),
            mwfact: default_mwfact(),
            outer_gaps: 0,
            inner_gaps: 0,
        }
    }
}

/// How frames are drawn.
#[derive(Debug)]
pub struct RenderConfig {
    pub disable_10bit: bool,
    pub disable_overlay_planes: bool,
    /// The path of the device that does the rendering.
    pub render_node: Option<String>,
    /// The color of damage, where it is to be shown.
    pub damage_color: Option<[Single; 4]>,
    pub debug_overlay: bool,
    pub tile_debug_overlay: bool,
}

impl RenderConfig {
    /// How frames are drawn where nothing is configured.
    pub open spec fn is_default(&self, env: &Environment) -> bool {
        &&& self.disable_10bit == is_on(env.disable_10bit)
        &&& self.disable_overlay_planes == is_on(env.disable_overlay_planes)
        &&& self.render_node == env.render_node
        &&& self.damage_color is None
        &&& !self.debug_overlay
        &&& !self.tile_debug_overlay
    }

    /// How frames are drawn where nothing is configured.
    pub fn from_environment(env: &Environment) -> (config: RenderConfig)
        ensures
            config.is_default(env),
    {
        let render_node = match &env.render_node {
            Some(path) => Some(path.clone()),
            None => None,
        };
        RenderConfig {
            disable_10bit: default_disable_10bit(&env.disable_10bit),
            disable_overlay_planes: default_disable_overlay_planes(&env.disable_overlay_planes),
            render_node,
            damage_color: None,
            debug_overlay: false,
            tile_debug_overlay: false,
        }
    }
}

/// The whole configuration.
#[derive(Debug)]
pub struct CompositorConfig {
    /// Commands to run at the start.
    pub autostart: Vec<String>,
    pub greet: bool,
    pub keybinds: KeyBinds,
    pub mousebinds: MouseBinds,
    pub input: InputConfig,
    pub general: GeneralConfig,
    pub decoration: DecorationConfig,
    pub animation: AnimationConfig,
    /// Rules for the windows that any of the patterns is for.
    pub rules: Vec<(Vec<WindowPattern>, WindowRules)>,
    pub renderer: RenderConfig,
}

impl CompositorConfig {
    /// The configuration of a compositor that is not configured.
    pub fn from_environment(env: &Environment) -> (config: CompositorConfig)
        ensures
            config.autostart@.len() == 0,
            !config.greet,
            keybinds_of(config.keybinds).dom().is_empty(),
            mousebinds_of(config.mousebinds).dom().is_empty(),
            config.input.keyboard.is_default(),
            config.input.mouse == default_mouse(),
            devices_of(config.input.per_device).dom().is_empty(),
            config.general.is_default(env),
            config.decoration == default_decoration(),
            config.animation == default_animation(),
            config.rules@.len() == 0,
            config.renderer.is_default(env),
    {
        CompositorConfig {
            autostart: Vec::new(),
            greet: false,
            keybinds: no_keybinds(),
            mousebinds: no_mousebinds(),
            input: InputConfig::default(),
            general: GeneralConfig::from_environment(env),
            decoration: DecorationConfig::default(),
            animation: AnimationConfig::default(),
            rules: Vec::new(),
            renderer: RenderConfig::from_environment(env),
        }
    }
}

/// Whether a configuration file changed, and the time of its last change that is known by then.
pub open spec fn noticed_change(last: Option<u128>, new: Option<u128>) -> (bool, Option<u128>) {
    if new is Some && new != last {
        (true, new)
    } else {
        (false, last)
    }
}

/// Whether a configuration file changed, and the time of its last change that is known by then.
///
/// `last` and `new` are the times at which the file was changed, as nanoseconds of some clock;
/// they are absent where the file could not be looked at, which does not count as a change.
pub fn config_changed(last: Option<u128>, new: Option<u128>) -> (r: (bool, Option<u128>))
    ensures
        r == noticed_change(last, new),
{
    match (last, new) {
        (_, None) => (false, last),
        (None, Some(_)) => (true, new),
        (Some(a), Some(b)) => if a != b {
            (true, new)
        } else {
            (false, last)
        },
    }
}

/// A change of a configuration file is noticed once: looking again finds nothing new.
pub proof fn changes_are_noticed_once(last: Option<u128>, new: Option<u128>)
    ensures
        noticed_change(noticed_change(last, new).1, new) == (false, noticed_change(last, new).1),
{
}

/// A configuration file changed if it can be looked at and has another time than the one that is
/// known, which is that time from then on. A file that cannot be looked at did not change.
pub proof fn files_change_with_their_time(
    last: Option<u128>,
    new: Option<u128>,
    changed: bool,
    known: Option<u128>,
)
    requires
        call_ensures(config_changed, (last, new), (changed, known)),
    ensures
        new is None ==> !changed && known == last,
        new is Some && new != last ==> changed && known == new,
        new == last ==> !changed && known == last,
{
}

/// Without a configuration, the cursor is that of the environment: its theme, or the one that is
/// called default, and its size, or twenty-four if that is not a number that fits.
pub proof fn cursors_follow_the_environment(
    env: &Environment,
    config: CursorConfig,
    parsed: Option<u32>,
)
    requires
        call_ensures(CursorConfig::from_environment, (env,), config),
        env.cursor_size matches Some(text) ==> (parsed is Some <==> is_number(text@)
            && digits_value(without_plus(text@)) <= u32::MAX),
        env.cursor_size matches Some(text) ==> (parsed is Some ==> parsed->0 == digits_value(
            without_plus(text@),
        )),
    ensures
        env.cursor_theme matches Some(theme) ==> config.name@ == theme@,
        env.cursor_theme is None ==> config.name@ == "default"@,
        env.cursor_size is None ==> config.size == 24,
        env.cursor_size is Some ==> match parsed {
            Some(size) => config.size == size,
            None => config.size == 24,
        },
{
}

/// A setting of the environment is on if it says so in the word `true`, and off in any other case.
pub proof fn settings_are_off_unless_true(
    value: &Option<String>,
    ten_bit: bool,
    overlay: bool,
)
    requires
        call_ensures(default_disable_10bit, (value,), ten_bit),
        call_ensures(default_disable_overlay_planes, (value,), overlay),
    ensures
        *value is None ==> !ten_bit && !overlay,
        *value matches Some(text) ==> (ten_bit <==> text@ == "true"@) && (overlay <==> text@
            == "true"@),
{
}

/// Without a configuration, rendering follows the environment, and nothing is drawn for debugging.
pub proof fn rendering_follows_the_environment(
    env: &Environment,
    config: RenderConfig,
    ten_bit: bool,
    overlay: bool,
)
    requires
        call_ensures(RenderConfig::from_environment, (env,), config),
        call_ensures(default_disable_10bit, (&env.disable_10bit,), ten_bit),
        call_ensures(
            default_disable_overlay_planes,
            (&env.disable_overlay_planes,),
            overlay,
        ),
    ensures
        config.disable_10bit == ten_bit,
        config.disable_overlay_planes == overlay,
        config.render_node == env.render_node,
        config.damage_color is None,
        !config.debug_overlay,
        !config.tile_debug_overlay,
{
}

/// Without a configuration, the pointer follows the focus, new windows get it, windows go to the end
/// of the slave stack of a tiled workspace with one master on half of it, and there are no gaps.
pub proof fn general_settings_have_defaults(env: &Environment, config: GeneralConfig)
    requires
        call_ensures(GeneralConfig::from_environment, (env,), config),
    ensures
        config.cursor_warps,
        config.focus_new_windows,
        config.insert_window_strategy is EndOfSlaveStack,
        config.layouts@.len() == 1,
        config.layouts@[0] is Tile,
        config.nmaster == 1,
        config.mwfact.bits == 0x3f00_0000,
        config.outer_gaps == 0,
        config.inner_gaps == 0,
{
}

/// Without a configuration nothing is bound, no rule applies, nothing is started, and everything
/// else has its own defaults.
pub proof fn nothing_is_bound_by_default(
    env: &Environment,
    config: CompositorConfig,
    pattern: (u32, u32),
    input: (u32, u64),
)
    requires
        call_ensures(CompositorConfig::from_environment, (env,), config),
    ensures
        config.autostart@.len() == 0,
        !config.greet,
        config.rules@.len() == 0,
        !keybinds_of(config.keybinds).dom().contains(pattern),
        !mousebinds_of(config.mousebinds).dom().contains(input),
        config.general.cursor_warps,
        config.renderer.render_node == env.render_node,
        config.decoration.border.thickness == 2,
        config.animation.workspace_switch.duration == 350,
        config.input.keyboard.repeat_rate == 25,
        config.input.keyboard.repeat_delay == 250,
        config.input.mouse.acceleration_profile is Adaptive,
{
}

/// The parts of the configuration have the same defaults by themselves.
pub proof fn parts_have_their_defaults(
    layouts: Vec<WorkspaceLayout>,
    nmaster: usize,
    mwfact: Single,
    theme: &Option<String>,
    name: String,
    size: u32,
)
    requires
        call_ensures(default_layouts, (), layouts),
        call_ensures(default_nmaster, (), nmaster),
        call_ensures(default_mwfact, (), mwfact),
        call_ensures(default_cursor_theme, (theme,), name),
        call_ensures(default_cursor_size, (&None,), size),
    ensures
        layouts@.len() == 1 && layouts@[0] is Tile,
        nmaster == 1,
        mwfact.bits == 0x3f00_0000,
        *theme matches Some(theme) ==> name@ == theme@,
        *theme is None ==> name@ == "default"@,
        size == 24,
{
}

} // verus!
