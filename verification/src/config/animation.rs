//! How long things take to move.
use vstd::prelude::*;

verus! {

/// How an animation speeds up and slows down.
#[derive(Clone, Copy, Debug, PartialEq, Eq, Structural)]
pub enum AnimationCurve {
    /// The curve that is used where none is configured.
    Standard,
    /// Another curve, by its place in the configuration.
    Custom(u32),
}

impl Default for AnimationCurve {
    fn default() -> (curve: AnimationCurve)
        ensures
            curve == AnimationCurve::Standard,
    {
        AnimationCurve::Standard
    }
}

/// The animations.
#[derive(Clone, Copy, Debug, PartialEq, Eq, Structural)]
pub struct AnimationConfig {
    pub workspace_switch: WorkspaceSwitchAnimationConfig,
    pub window_open_close: WindowOpenCloseAnimation,
    pub window_geometry: WindowGeometryAnimation,
}

/// The milliseconds that switching workspaces takes unless configured otherwise.
pub fn default_workspace_switch_animation_duration() -> (duration: u64)
    ensures
        duration == 350,
{
    350
}

/// Switching to another workspace.
#[derive(Clone, Copy, Debug, PartialEq, Eq, Structural)]
pub struct WorkspaceSwitchAnimationConfig {
    pub curve: AnimationCurve,
    /// In milliseconds.
    pub duration: u64,
    pub direction: WorkspaceSwitchAnimationDirection,
}

/// The animation of a workspace switch that is not configured.
pub open spec fn default_workspace_switch() -> WorkspaceSwitchAnimationConfig {
    WorkspaceSwitchAnimationConfig {
        curve: AnimationCurve::Standard,
        duration: 350,
        direction: WorkspaceSwitchAnimationDirection::Horizontal,
    }
}

impl Default for WorkspaceSwitchAnimationConfig {
    fn default() -> (config: WorkspaceSwitchAnimationConfig)
        ensures
            config == default_workspace_switch(),
    {
        WorkspaceSwitchAnimationConfig {
            curve: AnimationCurve::default(),
            duration: default_workspace_switch_animation_duration(),
            direction: WorkspaceSwitchAnimationDirection::Horizontal,
        }
    }
}

/// The direction in which workspaces move.
#[derive(Clone, Copy, Debug, PartialEq, Eq, Structural)]
pub enum WorkspaceSwitchAnimationDirection {
    Horizontal,
    Vertical,
}

impl Default for WorkspaceSwitchAnimationDirection {
    fn default() -> (direction: WorkspaceSwitchAnimationDirection)
        ensures
            direction == WorkspaceSwitchAnimationDirection::Horizontal,
    {
        WorkspaceSwitchAnimationDirection::Horizontal
    }
}

/// The milliseconds that animations of windows take unless configured otherwise.
pub fn default_window_animation_duration() -> (duration: u64)
    ensures
        duration == 300,
{
    300
}

/// Opening and closing windows.
#[derive(Clone, Copy, Debug, PartialEq, Eq, Structural)]
pub struct WindowOpenCloseAnimation {
    pub curve: AnimationCurve,
    /// In milliseconds.
    pub duration: u64,
}

/// The animation of opening and closing that is not configured.
pub open spec fn default_window_open_close() -> WindowOpenCloseAnimation {
    WindowOpenCloseAnimation { curve: AnimationCurve::Standard, duration: 300 }
}

impl Default for WindowOpenCloseAnimation {
    fn default() -> (config: WindowOpenCloseAnimation)
        ensures
            config == default_window_open_close(),
    {
        WindowOpenCloseAnimation {
            curve: AnimationCurve::default(),
            duration: default_window_animation_duration(),
        }
    }
}

/// Moving and resizing windows.
#[derive(Clone, Copy, Debug, PartialEq, Eq, Structural)]
pub struct WindowGeometryAnimation {
    pub curve: AnimationCurve,
    /// In milliseconds.
    pub duration: u64,
}

/// The animation of moving and resizing that is not configured.
pub open spec fn default_window_geometry() -> WindowGeometryAnimation {
    WindowGeometryAnimation { curve: AnimationCurve::Standard, duration: 300 }
}

impl Default for WindowGeometryAnimation {
    fn default() -> (config: WindowGeometryAnimation)
        ensures
            config == default_window_geometry(),
    {
        WindowGeometryAnimation {
            curve: AnimationCurve::default(),
            duration: default_window_animation_duration(),
        }
    }
}

/// The animations that are not configured.
pub open spec fn default_animation() -> AnimationConfig {
    AnimationConfig {
        workspace_switch: default_workspace_switch(),
        window_open_close: default_window_open_close(),
        window_geometry: default_window_geometry(),
    }
}

impl Default for AnimationConfig {
    fn default() -> (config: AnimationConfig)
        ensures
            config == default_animation(),
    {
        AnimationConfig {
            workspace_switch: WorkspaceSwitchAnimationConfig::default(),
            window_open_close: WindowOpenCloseAnimation::default(),
            window_geometry: WindowGeometryAnimation::default(),
        }
    }
}

/// Switching workspaces takes 350 milliseconds, sideways, and animations of windows take 300, all
/// with the usual curve, unless configured otherwise.
pub proof fn animations_have_defaults(config: AnimationConfig)
    requires
        config == default_animation(),
    ensures
        config.workspace_switch.duration == 350,
        config.workspace_switch.direction is Horizontal,
        config.workspace_switch.curve is Standard,
        config.window_open_close.duration == 300,
        config.window_open_close.curve is Standard,
        config.window_geometry.duration == 300,
        config.window_geometry.curve is Standard,
{
}

} // verus!
