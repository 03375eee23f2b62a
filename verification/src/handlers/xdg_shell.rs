//! Windows and popups.
use vstd::prelude::*;

use crate::assoc::{
    get, insert, inserted, keyed, lemma_inserted_unique, lemma_lookup_inserted,
    lemma_lookup_removed, lookup, removed, take, unique_keys,
};
use crate::focus::KeyboardFocus;
use crate::geometry::{fits, Point, Rectangle, Size};
use crate::handlers::compositor::UnmappedWindow;
use crate::seqs::{first_index, lemma_first_index, lemma_first_index_is, lemma_first_index_none};
use crate::state::{
    clamp_workspace, lemma_only_draws, only_draws, workspace_index, Fht, State, WORKSPACE_COUNT,
};

verus! {

/// The distance that popups keep from the edges of an output, where there is room for that.
pub const POPUP_PADDING: i32 = 10;

/// `a + b`, or the nearest value of the coordinate type.
pub open spec fn saturating_sum(a: i32, b: i32) -> int {
    if a + b > i32::MAX {
        i32::MAX as int
    } else if a + b < i32::MIN {
        i32::MIN as int
    } else {
        a + b
    }
}

fn end(start: i32, length: i32) -> (r: i32)
    ensures
        r == saturating_sum(start, length),
{
    let sum: i64 = start as i64 + length as i64;
    if sum > i32::MAX as i64 {
        i32::MAX
    } else if sum < i32::MIN as i64 {
        i32::MIN
    } else {
        sum as i32
    }
}

impl Rectangle {
    /// Whether `other` does not extend outside of this rectangle.
    pub open spec fn spec_contains_rect(self, other: Rectangle) -> bool {
        &&& other.loc.x >= self.loc.x
        &&& other.loc.y >= self.loc.y
        &&& saturating_sum(other.loc.x, other.size.w) <= saturating_sum(self.loc.x, self.size.w)
        &&& saturating_sum(other.loc.y, other.size.h) <= saturating_sum(self.loc.y, self.size.h)
    }

    /// Whether `other` does not extend outside of this rectangle.
    pub fn contains_rect(&self, other: &Rectangle) -> (b: bool)
        ensures
            b == self.spec_contains_rect(*other),
    {
        other.loc.x >= self.loc.x && other.loc.y >= self.loc.y && end(other.loc.x, other.size.w)
            <= end(self.loc.x, self.size.w) && end(other.loc.y, other.size.h) <= end(
            self.loc.y,
            self.size.h,
        )
    }
}

/// The target of a popup without a padding, in each direction in which there is room for one.
pub open spec fn padded(target: Rectangle) -> Rectangle {
    let wide = target.size.w > POPUP_PADDING * 2;
    let high = target.size.h > POPUP_PADDING * 2;
    Rectangle {
        loc: Point {
            x: if wide {
                (target.loc.x + POPUP_PADDING) as i32
            } else {
                target.loc.x
            },
            y: if high {
                (target.loc.y + POPUP_PADDING) as i32
            } else {
                target.loc.y
            },
        },
        size: Size {
            w: if wide {
                (target.size.w - POPUP_PADDING * 2) as i32
            } else {
                target.size.w
            },
            h: if high {
                (target.size.h - POPUP_PADDING * 2) as i32
            } else {
                target.size.h
            },
        },
    }
}

/// Whether the padding, in each direction in which there is room for one, does not lead out of the
/// range of coordinates.
pub open spec fn can_pad(target: Rectangle) -> bool {
    &&& target.size.w > POPUP_PADDING * 2 ==> fits(target.loc.x + POPUP_PADDING)
    &&& target.size.h > POPUP_PADDING * 2 ==> fits(target.loc.y + POPUP_PADDING)
}

/// The target of a popup without a padding, in each direction in which there is room for one.
pub fn padded_target(target: Rectangle) -> (r: Rectangle)
    requires
        can_pad(target),
    ensures
        r == padded(target),
{
    let mut r = target;
    if POPUP_PADDING * 2 < r.size.w {
        r.loc.x = r.loc.x + POPUP_PADDING;
        r.size.w = r.size.w - POPUP_PADDING * 2;
    }
    if POPUP_PADDING * 2 < r.size.h {
        r.loc.y = r.loc.y + POPUP_PADDING;
        r.size.h = r.size.h - POPUP_PADDING * 2;
    }
    r
}

/// Where a popup goes: into the padded target if it fits there without being resized, else into
/// the target itself.
pub open spec fn popup_geometry(
    target: Rectangle,
    in_padded: Rectangle,
    in_target: Rectangle,
) -> Rectangle {
    if padded(target) != target && padded(target).spec_contains_rect(in_padded) {
        in_padded
    } else {
        in_target
    }
}

/// Whether a popup ends up at `geometry` when `positioner` places it: first into the padded target,
/// without resizing it, and where that fails into the target itself. `positioner` is told where
/// the popup has to stay, and whether it may resize the popup for that.
pub open spec fn popup_placed<F: Fn(Rectangle, bool) -> Rectangle>(
    positioner: F,
    target: Rectangle,
    geometry: Rectangle,
) -> bool {
    if padded(target) == target {
        call_ensures(positioner, (target, true), geometry)
    } else {
        exists|in_padded: Rectangle| #[trigger]
            call_ensures(positioner, (padded(target), false), in_padded) && if padded(
                target,
            ).spec_contains_rect(in_padded) {
                geometry == in_padded
            } else {
                call_ensures(positioner, (target, true), geometry)
            }
    }
}

/// Where something is, relative to something else.
pub open spec fn relative_target(size: Size, offset: Point, location: Point) -> Rectangle {
    Rectangle {
        loc: Point { x: (-offset.x - location.x) as i32, y: (-offset.y - location.y) as i32 },
        size,
    }
}

/// Whether the target of a popup is in the range of coordinates.
pub open spec fn can_relate(offset: Point, location: Point) -> bool {
    fits(-offset.x) && fits(-offset.y) && fits(-offset.x - location.x) && fits(
        -offset.y - location.y,
    )
}

fn popup_target(size: Size, offset: Point, location: Point) -> (target: Rectangle)
    requires
        can_relate(offset, location),
    ensures
        target == relative_target(size, offset, location),
{
    Rectangle { loc: Point { x: -offset.x - location.x, y: -offset.y - location.y }, size }
}

impl Fht {
    /// Where a popup of a window has to stay: inside the output that shows the window. The result
    /// is relative to the parent of the popup; `offset` is where that is in the window, and
    /// `location` where the window is on the output.
    pub fn unconstrain_window_popup(&self, output_size: Size, offset: Point, location: Point) -> (r:
        Rectangle)
        requires
            can_relate(offset, location),
        ensures
            r == relative_target(output_size, offset, location),
    {
        popup_target(output_size, offset, location)
    }

    /// Where a popup of a layer surface has to stay: inside the output that shows the surface.
    /// `layer_location` is where the surface is on the output; without it the popup stays where
    /// it is.
    pub fn unconstrain_layer_popup(
        &self,
        output_size: Size,
        offset: Point,
        layer_location: Option<Point>,
    ) -> (r: Option<Rectangle>)
        requires
            layer_location matches Some(location) ==> can_relate(offset, location),
        ensures
            r == match layer_location {
                Some(location) => Some(relative_target(output_size, offset, location)),
                None => None,
            },
    {
        match layer_location {
            Some(location) => Some(popup_target(output_size, offset, location)),
            None => None,
        }
    }

    /// Place a popup inside `target`, with some padding where there is room for that.
    ///
    /// `positioner` tells where the popup goes when it has to stay inside a rectangle, and may be
    /// resized for that or not.
    pub fn place_popup_inside<F: Fn(Rectangle, bool) -> Rectangle>(
        &self,
        target: Rectangle,
        positioner: F,
    ) -> (geometry: Rectangle)
        requires
            can_pad(target),
            call_requires(positioner, (target, true)),
            call_requires(positioner, (padded(target), false)),
        ensures
            popup_placed(positioner, target, geometry),
    {
        let padded = padded_target(target);
        if padded == target {
            return positioner(target, true);
        }
        let in_padded = positioner(padded, false);
        if padded.contains_rect(&in_padded) {
            return in_padded;
        }
        positioner(target, true)
    }
}

/// What a popup belongs to.
#[derive(Clone, Copy, Debug, PartialEq, Eq, Structural)]
#[allow(inconsistent_fields)]
pub enum PopupParent {
    /// A window at this location on an output of this size.
    Window { output_size: Size, location: Point },
    /// A layer surface on an output of this size, at this location where it has one.
    Layer { output_size: Size, location: Option<Point> },
}

impl Fht {
    /// Where a popup has to stay, relative to its parent; `None` leaves it where it is. `parent`
    /// is what its root belongs to, if that is known.
    pub fn unconstrain_popup(&self, parent: Option<PopupParent>, offset: Point) -> (target: Option<
        Rectangle,
    >)
        requires
            match parent {
                Some(PopupParent::Window { location, .. }) => can_relate(offset, location),
                Some(PopupParent::Layer { location: Some(location), .. }) => can_relate(
                    offset,
                    location,
                ),
                _ => true,
            },
        ensures
            target == match parent {
                Some(PopupParent::Window { output_size, location }) => Some(
                    relative_target(output_size, offset, location),
                ),
                Some(PopupParent::Layer { output_size, location: Some(location) }) => Some(
                    relative_target(output_size, offset, location),
                ),
                _ => None,
            },
    {
        match parent {
            Some(PopupParent::Window { output_size, location }) => Some(
                self.unconstrain_window_popup(output_size, offset, location),
            ),
            Some(PopupParent::Layer { output_size, location }) => self.unconstrain_layer_popup(
                output_size,
                offset,
                location,
            ),
            None => None,
        }
    }
}

/// What a window shows.
#[derive(Clone, Copy, Debug, PartialEq, Eq, Structural)]
pub enum ContentType {
    Unspecified,
    Photo,
    Video,
    Game,
}

/// What a window says about itself before it is shown.
#[derive(Clone, Copy, Debug, PartialEq, Eq, Structural)]
pub struct FloatHints {
    pub has_parent: bool,
    pub min_height: i32,
    pub max_height: i32,
    pub content_type: ContentType,
    /// Whether it is a modal window or a dialog.
    pub dialog: bool,
}

/// Whether a window is opened floating.
pub open spec fn opens_floating(hints: FloatHints) -> bool {
    ||| hints.has_parent
    ||| hints.min_height > 0 && hints.min_height == hints.max_height
    ||| hints.content_type != ContentType::Unspecified
    ||| hints.dialog
}

/// Determine whether a window should be opened floating based on a set of heuristics.
///
/// These of course don't cover all the cases, use window rules if they don't cover yours.
///
/// The current list of heuristics is:
/// - The window has a parent.
/// - The window asks for a fixed height.
/// - The window has a content type.
/// - The window is a modal window or a dialog.
pub fn should_open_window_floating(hints: FloatHints) -> (floating: bool)
    ensures
        floating == opens_floating(hints),
{
    if hints.has_parent {
        return true;
    }
    if hints.min_height > 0 && hints.min_height == hints.max_height {
        return true;
    }
    let has_content_type = match hints.content_type {
        ContentType::Photo => true,
        ContentType::Video => true,
        ContentType::Game => true,
        ContentType::Unspecified => false,
    };
    has_content_type || hints.dialog
}

/// Who draws the decorations of a window.
#[derive(Clone, Copy, Debug, PartialEq, Eq, Structural)]
pub enum DecorationMode {
    ClientPreference,
    PreferServerSide,
    PreferClientSide,
    ForceServerSide,
    ForceClientSide,
}

/// What a window is told about its decorations.
#[derive(Clone, Copy, Debug, PartialEq, Eq, Structural)]
pub enum Decoration {
    ClientSide,
    ServerSide,
}

/// What a window is told about its decorations: only what is forced, any preference is up to the
/// window.
pub open spec fn forced_decoration(mode: DecorationMode) -> Option<Decoration> {
    match mode {
        DecorationMode::ForceClientSide => Some(Decoration::ClientSide),
        DecorationMode::ForceServerSide => Some(Decoration::ServerSide),
        _ => None,
    }
}

/// The rules for a window, as far as its first size goes.
#[derive(Clone, Copy, Debug, PartialEq, Eq, Structural)]
pub struct OpenRules {
    pub location: Option<Point>,
    /// The output to open on, where there is one of that name.
    pub open_on_output: Option<u64>,
    /// The index of the workspace to open on.
    pub open_on_workspace: Option<usize>,
    pub decoration_mode: Option<DecorationMode>,
    pub floating: Option<bool>,
    pub fullscreen: Option<bool>,
    pub maximized: Option<bool>,
    pub centered: Option<bool>,
    pub centered_in_parent: Option<bool>,
}

/// A workspace of an output.
#[derive(Clone, Copy, Debug, PartialEq, Eq, Structural)]
pub struct WorkspaceRef {
    pub output: u64,
    pub id: u64,
}

/// An output with its workspaces.
#[derive(Debug)]
pub struct Monitor {
    pub output: u64,
    /// The numbers of its workspaces, in order.
    pub workspaces: Vec<u64>,
}

/// Whether a monitor is that of the given output.
pub open spec fn monitor_of(output: u64) -> spec_fn(Monitor) -> bool {
    |monitor: Monitor| monitor.output == output
}

/// Every monitor has its workspaces.
pub open spec fn monitors_wf(monitors: Seq<Monitor>) -> bool {
    forall|i: int|
        0 <= i < monitors.len() ==> (#[trigger] monitors[i]).workspaces@.len() == WORKSPACE_COUNT
}

/// What a window is told when it is about to be shown for the first time.
#[derive(Clone, Copy, Debug, PartialEq, Eq, Structural)]
pub struct InitialConfigure {
    pub output: u64,
    pub workspace: u64,
    pub decoration: Option<Decoration>,
    /// Whether the window fills the output; `None` leaves that to the window.
    pub fullscreen: Option<bool>,
    /// Whether the window is maximized; `None` leaves that to the window.
    pub maximized: Option<bool>,
    pub tiled: bool,
    /// Whether the window is put at the center of the output.
    pub centered: Option<bool>,
    /// Whether the window is put at the center of its parent.
    pub centered_in_parent: Option<bool>,
    /// Whether the workspace makes room for the window.
    pub prepare: bool,
    pub opening_location: Option<Point>,
}

/// The output that a window opens on.
pub open spec fn opening_output(
    rules: OpenRules,
    parent: Option<WorkspaceRef>,
    active: WorkspaceRef,
) -> u64 {
    match rules.open_on_output {
        Some(output) => output,
        None => match parent {
            Some(workspace) => workspace.output,
            None => active.output,
        },
    }
}

/// The workspace that a window opens on.
pub open spec fn opening_workspace(
    monitors: Seq<Monitor>,
    rules: OpenRules,
    parent: Option<WorkspaceRef>,
    active: WorkspaceRef,
) -> u64 {
    match rules.open_on_workspace {
        Some(idx) => {
            let m = first_index(monitors, monitor_of(opening_output(rules, parent, active)))->0;
            monitors[m].workspaces@[clamp_workspace(idx as int)]
        },
        None => match parent {
            Some(workspace) => workspace.id,
            None => active.id,
        },
    }
}

/// What a window is told when it is about to be shown for the first time.
pub open spec fn initial_configure(
    monitors: Seq<Monitor>,
    rules: OpenRules,
    parent: Option<WorkspaceRef>,
    active: WorkspaceRef,
    decoration_mode: DecorationMode,
    hints: FloatHints,
) -> InitialConfigure {
    let floating = match rules.floating {
        Some(floating) => floating,
        None => opens_floating(hints),
    };
    InitialConfigure {
        output: opening_output(rules, parent, active),
        workspace: opening_workspace(monitors, rules, parent, active),
        decoration: forced_decoration(
            match rules.decoration_mode {
                Some(mode) => mode,
                None => decoration_mode,
            },
        ),
        fullscreen: rules.fullscreen,
        maximized: rules.maximized,
        tiled: !floating,
        centered: if floating && parent is None {
            Some(true)
        } else {
            rules.centered
        },
        centered_in_parent: if floating && parent is Some {
            Some(true)
        } else {
            rules.centered_in_parent
        },
        prepare: !floating,
        opening_location: rules.location,
    }
}

fn monitor_index(monitors: &[Monitor], output: u64) -> (r: Option<usize>)
    ensures
        r matches Some(i) ==> i < monitors@.len() && first_index(monitors@, monitor_of(output))
            == Some(i as int),
        r is None <==> first_index(monitors@, monitor_of(output)) is None,
{
    let mut i: usize = 0;
    while i < monitors.len()
        invariant
            0 <= i <= monitors.len(),
            forall|j: int| 0 <= j < i ==> (#[trigger] monitors@[j]).output != output,
        decreases monitors.len() - i,
    {
        if monitors[i].output == output {
            proof {
                lemma_first_index_is(monitors@, monitor_of(output), i as int);
            }
            return Some(i);
        }
        i += 1;
    }
    proof {
        lemma_first_index_none(monitors@, monitor_of(output));
    }
    None
}

impl Fht {
    /// Work out what a window is told when it is about to be shown for the first time, and note
    /// where it goes.
    ///
    /// Without rules that say otherwise, a window opens on the workspace of its parent, `parent`,
    /// or on the `active` one where it has no parent. A floating window is centered in its
    /// parent, or on the output.
    pub fn send_initial_configure(
        &mut self,
        surface: u64,
        window: u64,
        monitors: &[Monitor],
        rules: OpenRules,
        parent: Option<WorkspaceRef>,
        active: WorkspaceRef,
        decoration_mode: DecorationMode,
        hints: FloatHints,
    ) -> (configure: InitialConfigure)
        requires
            monitors_wf(monitors@),
            rules.open_on_workspace is Some ==> first_index(
                monitors@,
                monitor_of(opening_output(rules, parent, active)),
            ) is Some,
        ensures
            configure == initial_configure(
                monitors@,
                rules,
                parent,
                active,
                decoration_mode,
                hints,
            ),
            final(self).unmapped_windows@ == inserted(
                old(self).unmapped_windows@,
                surface,
                UnmappedWindow::Configured {
                    window,
                    workspace_id: configure.workspace,
                    opening_location: rules.location,
                },
            ),
            *final(self) == (Fht { unmapped_windows: final(self).unmapped_windows, ..*old(self) }),
            old(self).wf() ==> final(self).wf(),
    {
        let current = match parent {
            Some(workspace) => workspace,
            None => active,
        };
        let output: u64 = match rules.open_on_output {
            Some(output) => output,
            None => current.output,
        };
        let workspace: u64 = match rules.open_on_workspace {
            Some(idx) => match monitor_index(monitors, output) {
                Some(m) => {
                    assert(monitors@[m as int].workspaces@.len() == WORKSPACE_COUNT);
                    monitors[m].workspaces[workspace_index(idx)]
                },
                None => current.id,
            },
            None => current.id,
        };
        let mode = match rules.decoration_mode {
            Some(mode) => mode,
            None => decoration_mode,
        };
        let decoration = match mode {
            DecorationMode::ForceClientSide => Some(Decoration::ClientSide),
            DecorationMode::ForceServerSide => Some(Decoration::ServerSide),
            _ => None,
        };
        let floating = match rules.floating {
            Some(floating) => floating,
            None => should_open_window_floating(hints),
        };
        let mut centered = rules.centered;
        let mut centered_in_parent = rules.centered_in_parent;
        if floating {
            if parent.is_some() {
                centered_in_parent = Some(true);
            } else {
                centered = Some(true);
            }
        }
        proof {
            if old(self).wf() {
                lemma_inserted_unique(
                    self.unmapped_windows@,
                    surface,
                    UnmappedWindow::Configured {
                        window,
                        workspace_id: workspace,
                        opening_location: rules.location,
                    },
                );
            }
        }
        insert(
            &mut self.unmapped_windows,
            surface,
            UnmappedWindow::Configured {
                window,
                workspace_id: workspace,
                opening_location: rules.location,
            },
        );
        InitialConfigure {
            output,
            workspace,
            decoration,
            fullscreen: rules.fullscreen,
            maximized: rules.maximized,
            tiled: !floating,
            centered,
            centered_in_parent,
            prepare: !floating,
            opening_location: rules.location,
        }
    }

    /// Work out how a window is shown for the first time.
    ///
    /// `found` is the output of its workspace, if that still exists; if not, the `active` one
    /// takes it. Only a floating window opens at a location. It gets the focus if that is
    /// configured and its workspace is the active one.
    pub fn map_window(
        &self,
        workspace_id: u64,
        found: Option<u64>,
        active: WorkspaceRef,
        tiled: bool,
        opening_location: Option<Point>,
        focus_new_windows: bool,
    ) -> (map: MapWindow)
        ensures
            map == window_mapping(
                workspace_id,
                found,
                active,
                tiled,
                opening_location,
                focus_new_windows,
            ),
    {
        let (workspace, output) = match found {
            Some(output) => (workspace_id, output),
            None => (active.id, active.output),
        };
        let opening_location = if tiled {
            None
        } else {
            opening_location
        };
        MapWindow {
            workspace,
            output,
            opening_location,
            focus: focus_new_windows && active.id == workspace_id,
        }
    }
}

/// How a window is shown for the first time.
#[derive(Clone, Copy, Debug, PartialEq, Eq, Structural)]
pub struct MapWindow {
    pub workspace: u64,
    /// The output of the workspace.
    pub output: u64,
    pub opening_location: Option<Point>,
    pub focus: bool,
}

/// How a window is shown for the first time; see [`Fht::map_window`].
pub open spec fn window_mapping(
    workspace_id: u64,
    found: Option<u64>,
    active: WorkspaceRef,
    tiled: bool,
    opening_location: Option<Point>,
    focus_new_windows: bool,
) -> MapWindow {
    MapWindow {
        workspace: if found is Some {
            workspace_id
        } else {
            active.id
        },
        output: match found {
            Some(output) => output,
            None => active.output,
        },
        opening_location: if tiled {
            None
        } else {
            opening_location
        },
        focus: focus_new_windows && active.id == workspace_id,
    }
}

impl State {
    /// Show the window of a surface that was committed with something to show for the first time;
    /// see [`Fht::map_window`]. The output that shows the window is redrawn.
    pub fn map_committed_window(
        &mut self,
        workspace_id: u64,
        found: Option<u64>,
        active: WorkspaceRef,
        tiled: bool,
        opening_location: Option<Point>,
        focus_new_windows: bool,
    ) -> (map: MapWindow)
        ensures
            map == window_mapping(
                workspace_id,
                found,
                active,
                tiled,
                opening_location,
                focus_new_windows,
            ),
            final(self).backend == old(self).backend,
            final(self).fht.same_but_outputs(&old(self).fht),
            final(self).fht.outputs@ == if old(self).fht.has_output(map.output) {
                let i = old(self).fht.index_of(map.output);
                old(self).fht.outputs@.update(i, old(self).fht.outputs@[i].queued())
            } else {
                old(self).fht.outputs@
            },
    {
        let map = self.fht.map_window(
            workspace_id,
            found,
            active,
            tiled,
            opening_location,
            focus_new_windows,
        );
        self.fht.queue_redraw(map.output);
        map
    }
}

/// What becomes of a window whose surface is gone.
#[derive(Clone, Copy, Debug, PartialEq, Eq, Structural)]
pub enum ToplevelGone {
    /// The window was never shown.
    NeverMapped,
    /// The window is closed, its output is redrawn, and it is no longer announced.
    Close { window: u64, output: u64 },
    /// Nobody knows the window.
    Missing,
}

impl State {
    /// A client made a new window. Returns whether its surface had one before.
    pub fn new_toplevel(&mut self, surface: u64, window: u64) -> (twice: bool)
        ensures
            twice == lookup(old(self).fht.unmapped_windows@, surface) is Some,
            final(self).backend == old(self).backend,
            old(self).fht.wf() ==> final(self).fht.wf(),
            final(self).fht.unmapped_windows@ == inserted(
                old(self).fht.unmapped_windows@,
                surface,
                UnmappedWindow::Unconfigured(window),
            ),
            final(self).fht == (Fht {
                unmapped_windows: final(self).fht.unmapped_windows,
                ..old(self).fht
            }),
    {
        let twice = get(&self.fht.unmapped_windows, surface).is_some();
        proof {
            if old(self).fht.wf() {
                lemma_inserted_unique(
                    self.fht.unmapped_windows@,
                    surface,
                    UnmappedWindow::Unconfigured(window),
                );
            }
        }
        insert(&mut self.fht.unmapped_windows, surface, UnmappedWindow::Unconfigured(window));
        twice
    }

    /// The surface of a window is gone. `mapped` is the window with its output, if it is shown.
    pub fn toplevel_destroyed(&mut self, surface: u64, mapped: Option<(u64, u64)>) -> (gone:
        ToplevelGone)
        ensures
            final(self).backend == old(self).backend,
            old(self).fht.wf() ==> final(self).fht.wf(),
            final(self).fht.unmapped_windows@ == removed(
                old(self).fht.unmapped_windows@,
                surface,
            ),
            gone == match (lookup(old(self).fht.unmapped_windows@, surface), mapped) {
                (Some(_), _) => ToplevelGone::NeverMapped,
                (None, Some((window, output))) => ToplevelGone::Close { window, output },
                (None, None) => ToplevelGone::Missing,
            },
            final(self).fht == (Fht {
                unmapped_windows: final(self).fht.unmapped_windows,
                outputs: final(self).fht.outputs,
                ..old(self).fht
            }),
            final(self).fht.outputs@ == match gone {
                ToplevelGone::Close { output, .. } => if old(self).fht.has_output(output) {
                    let i = old(self).fht.index_of(output);
                    old(self).fht.outputs@.update(i, old(self).fht.outputs@[i].queued())
                } else {
                    old(self).fht.outputs@
                },
                _ => old(self).fht.outputs@,
            },
    {
        proof {
            if old(self).fht.wf() {
                lemma_lookup_removed(self.fht.unmapped_windows@, surface);
            }
        }
        if take(&mut self.fht.unmapped_windows, surface).is_some() {
            return ToplevelGone::NeverMapped;
        }
        match mapped {
            Some((window, output)) => {
                self.fht.queue_redraw(output);
                ToplevelGone::Close { window, output }
            },
            None => ToplevelGone::Missing,
        }
    }

    /// The window that a client asks to have moved with the pointer, if that is honored; see
    /// [`State::allows_interactive`]. The pointer is grabbed as soon as the workspace goes along.
    pub fn move_request(
        &self,
        grab_serial: Option<u32>,
        serial: u32,
        same_client: bool,
        window: Option<u64>,
    ) -> (r: Option<u64>)
        ensures
            r == if grab_serial == Some(serial) && same_client {
                window
            } else {
                None
            },
    {
        if State::allows_interactive(grab_serial, serial, same_client) {
            window
        } else {
            None
        }
    }

    /// A client asks to have a window resized with the pointer; see
    /// [`State::allows_interactive`]. `window` is the window with its output, if it is shown, and
    /// `started` whether its workspace goes along. The output is redrawn then. Returns the window
    /// that the pointer is grabbed for.
    pub fn resize_request(
        &mut self,
        grab_serial: Option<u32>,
        serial: u32,
        same_client: bool,
        window: Option<(u64, u64)>,
        started: bool,
    ) -> (r: Option<u64>)
        ensures
            r == if grab_serial == Some(serial) && same_client && started {
                match window {
                    Some((window, _)) => Some(window),
                    None => None,
                }
            } else {
                None
            },
            final(self).backend == old(self).backend,
            final(self).fht.same_but_outputs(&old(self).fht),
            final(self).fht.outputs@ == match (r, window) {
                (Some(_), Some((_, output))) => if old(self).fht.has_output(output) {
                    let i = old(self).fht.index_of(output);
                    old(self).fht.outputs@.update(i, old(self).fht.outputs@[i].queued())
                } else {
                    old(self).fht.outputs@
                },
                _ => old(self).fht.outputs@,
            },
    {
        if !State::allows_interactive(grab_serial, serial, same_client) || !started {
            return None;
        }
        match window {
            Some((window, output)) => {
                self.fht.queue_redraw(output);
                Some(window)
            },
            None => None,
        }
    }

    /// Whether a request to move or resize a window with the pointer is honored: it has to follow
    /// from the press that the pointer is grabbed with, on a surface of the same client.
    pub fn allows_interactive(grab_serial: Option<u32>, serial: u32, same_client: bool) -> (ok: bool)
        ensures
            ok == (grab_serial == Some(serial) && same_client),
    {
        match grab_serial {
            Some(grab) => grab == serial && same_client,
            None => false,
        }
    }
}

/// What has the keyboard or the pointer to itself.
#[derive(Clone, Copy, Debug, PartialEq, Eq, Structural)]
pub struct GrabState {
    pub grabbed: bool,
    /// Whether that follows from the event which opened the popup.
    pub by_serial: bool,
    /// Whether that follows from the event which opened the popup before.
    pub by_previous: bool,
}

impl GrabState {
    /// Whether something else has the device to itself.
    pub open spec fn blocks(self) -> bool {
        self.grabbed && !self.by_serial && !self.by_previous
    }
}

/// What becomes of a popup that wants all input for itself.
#[derive(Clone, Copy, Debug, PartialEq, Eq, Structural)]
pub enum PopupGrab {
    /// Something else has the keyboard: nothing is grabbed.
    KeyboardBusy,
    /// Something else has the pointer: the keyboard was grabbed before that was found out.
    PointerBusy,
    /// Both are grabbed, as far as there are any.
    Granted,
}

/// Decide whether a popup gets all input for itself; a device that is not there is passed over.
pub fn popup_grab(keyboard: Option<GrabState>, pointer: Option<GrabState>) -> (grab: PopupGrab)
    ensures
        grab == if keyboard matches Some(k) && k.blocks() {
            PopupGrab::KeyboardBusy
        } else if pointer matches Some(p) && p.blocks() {
            PopupGrab::PointerBusy
        } else {
            PopupGrab::Granted
        },
{
    if let Some(k) = keyboard {
        if k.grabbed && !(k.by_serial || k.by_previous) {
            return PopupGrab::KeyboardBusy;
        }
    }
    if let Some(p) = pointer {
        if p.grabbed && !(p.by_serial || p.by_previous) {
            return PopupGrab::PointerBusy;
        }
    }
    PopupGrab::Granted
}

/// What the popups of a surface belong to: the window of the surface, or else its layer surface.
pub open spec fn spec_popup_root(window: Option<u64>, layer: Option<u64>) -> Option<KeyboardFocus> {
    match (window, layer) {
        (Some(_), _) => Some(KeyboardFocus::Space { surface: window }),
        (None, Some(layer)) => Some(KeyboardFocus::LayerSurface { layer }),
        (None, None) => None,
    }
}

/// What the popups of a surface belong to: the window of the surface, or else its layer surface.
/// A popup that belongs to neither cannot have input for itself.
pub fn popup_root(window: Option<u64>, layer: Option<u64>) -> (root: Option<KeyboardFocus>)
    ensures
        root == spec_popup_root(window, layer),
{
    match (window, layer) {
        (Some(_), _) => Some(KeyboardFocus::Space { surface: window }),
        (None, Some(layer)) => Some(KeyboardFocus::LayerSurface { layer }),
        (None, None) => None,
    }
}

/// What happens to the picture of a window that is kept for animating how it closes.
#[derive(Clone, Copy, Debug, PartialEq, Eq, Structural)]
pub enum ClosePicture {
    /// A picture is taken, since the window is about to lose its content.
    Take,
    /// A picture that was taken is dropped.
    Discard,
}

/// What happens before a surface is updated.
#[derive(Clone, Copy, Debug, PartialEq, Eq)]
pub struct BeforeCommit {
    /// What happens to the picture of the window, if the surface has one that is shown.
    pub window: Option<ClosePicture>,
    /// What happens to the picture of the tile that the user is moving, and at which scale, if
    /// there is such a tile.
    pub moved_tile: Option<(ClosePicture, i32)>,
}

/// Decide what happens before a surface is updated. `shown` tells whether the surface has a window
/// that is shown, `loses_content` whether the update takes its content away. `moved_tile` is the
/// scale of the output with the tile that the user is moving, if there is such a tile; without an
/// output the picture is not scaled.
pub fn window_pre_commit(
    shown: bool,
    loses_content: bool,
    moved_tile: Option<Option<i32>>,
) -> (before: BeforeCommit)
    ensures
        ({
            let picture = if loses_content {
                ClosePicture::Take
            } else {
                ClosePicture::Discard
            };
            &&& before.window == if shown {
                Some(picture)
            } else {
                None
            }
            &&& before.moved_tile == match moved_tile {
                Some(Some(scale)) => Some((picture, scale)),
                Some(None) => Some((picture, 1i32)),
                None => None,
            }
        }),
{
    let picture = if loses_content {
        ClosePicture::Take
    } else {
        ClosePicture::Discard
    };
    let window = if shown {
        Some(picture)
    } else {
        None
    };
    let moved_tile = match moved_tile {
        Some(Some(scale)) => Some((picture, scale)),
        Some(None) => Some((picture, 1i32)),
        None => None,
    };
    BeforeCommit { window, moved_tile }
}

/// The window that a request to be maximized is granted to: it has to be shown, and to have been
/// offered that. The window is told its size in any case.
pub fn maximize_request(can_maximize: bool, window: Option<u64>) -> (r: Option<u64>)
    ensures
        r == if can_maximize {
            window
        } else {
            None
        },
{
    if can_maximize {
        window
    } else {
        None
    }
}

/// How a window comes to fill an output.
#[derive(Clone, Copy, Debug, PartialEq, Eq, Structural)]
pub struct FullscreenPlan {
    pub window: u64,
    /// The output to move the window to before.
    pub move_to: Option<u64>,
}

/// How a request to fill an output is granted: the window has to be shown, and to have been
/// offered that. If its workspace then does not go along, the window is told so.
pub fn fullscreen_request(can_fullscreen: bool, window: Option<u64>, output: Option<u64>) -> (r:
    Option<FullscreenPlan>)
    ensures
        r == match window {
            Some(window) => if can_fullscreen {
                Some(FullscreenPlan { window, move_to: output })
            } else {
                None
            },
            None => None,
        },
{
    match window {
        Some(window) => if can_fullscreen {
            Some(FullscreenPlan { window, move_to: output })
        } else {
            None
        },
        None => None,
    }
}

/// A popup that is put into the padded target stays inside the target.
pub proof fn padding_stays_inside(target: Rectangle)
    requires
        can_pad(target),
        fits(target.loc.x + target.size.w),
        fits(target.loc.y + target.size.h),
    ensures
        target.spec_contains_rect(padded(target)),
{
}

/// A popup that fits into the target with a padding around it is never put anywhere else, and one
/// that fits is not resized for the sake of the padding.
pub proof fn fitting_popups_keep_their_padding(
    target: Rectangle,
    in_padded: Rectangle,
    in_target: Rectangle,
)
    requires
        target.size.w > POPUP_PADDING * 2 || target.size.h > POPUP_PADDING * 2,
        can_pad(target),
        padded(target).spec_contains_rect(in_padded),
    ensures
        popup_geometry(target, in_padded, in_target) == in_padded,
{
}

/// Where a popup goes is up to its positioner alone: if that always puts the popup where `place`
/// says, the popup is where `place` puts it inside the padded target, if it fits there, and else
/// where `place` puts it inside the target.
pub proof fn popups_go_where_their_positioner_says<F: Fn(Rectangle, bool) -> Rectangle>(
    positioner: F,
    place: spec_fn(Rectangle, bool) -> Rectangle,
    target: Rectangle,
    geometry: Rectangle,
)
    requires
        forall|inside: Rectangle, resize: bool, at: Rectangle| #[trigger]
            call_ensures(positioner, (inside, resize), at) ==> at == place(inside, resize),
        popup_placed(positioner, target, geometry),
    ensures
        geometry == popup_geometry(target, place(padded(target), false), place(target, true)),
{
}

/// A window that is neither placed by a rule nor opened by another window opens on the active
/// workspace.
pub proof fn windows_open_on_the_active_workspace(
    monitors: Seq<Monitor>,
    rules: OpenRules,
    active: WorkspaceRef,
    decoration_mode: DecorationMode,
    hints: FloatHints,
)
    requires
        rules.open_on_output is None,
        rules.open_on_workspace is None,
    ensures
        ({
            let configure = initial_configure(
                monitors,
                rules,
                None,
                active,
                decoration_mode,
                hints,
            );
            configure.output == active.output && configure.workspace == active.id
        }),
{
}

/// A window is either tiled, with room made for it, or it floats and is centered.
pub proof fn floating_windows_are_centered(
    monitors: Seq<Monitor>,
    rules: OpenRules,
    parent: Option<WorkspaceRef>,
    active: WorkspaceRef,
    decoration_mode: DecorationMode,
    hints: FloatHints,
)
    ensures
        ({
            let configure = initial_configure(
                monitors,
                rules,
                parent,
                active,
                decoration_mode,
                hints,
            );
            &&& configure.tiled == configure.prepare
            &&& !configure.tiled ==> configure.centered == Some(true)
                || configure.centered_in_parent == Some(true)
        }),
{
}

/// What a window rule says about a new window is what the window is told: whether it is maximized,
/// whether it fills the output, where it opens, and whether it floats. What no rule says about the
/// first two is left to the window.
pub proof fn window_rules_are_followed(
    fht: &mut Fht,
    surface: u64,
    window: u64,
    monitors: &[Monitor],
    rules: OpenRules,
    parent: Option<WorkspaceRef>,
    active: WorkspaceRef,
    mode: DecorationMode,
    hints: FloatHints,
    configure: InitialConfigure,
)
    requires
        monitors_wf(monitors@),
        rules.open_on_workspace is Some ==> first_index(
            monitors@,
            monitor_of(opening_output(rules, parent, active)),
        ) is Some,
        call_ensures(
            Fht::send_initial_configure,
            (fht, surface, window, monitors, rules, parent, active, mode, hints),
            configure,
        ),
    ensures
        configure.maximized == rules.maximized,
        configure.fullscreen == rules.fullscreen,
        configure.opening_location == rules.location,
        rules.floating matches Some(floating) ==> configure.tiled == !floating,
        rules.open_on_output matches Some(output) ==> configure.output == output,
        configure.prepare == configure.tiled,
{
    assert(call_requires(
        Fht::send_initial_configure,
        (fht, surface, window, monitors, rules, parent, active, mode, hints),
    ));
}

/// Without a rule, a window floats exactly if it has a parent, a fixed height, a content type, or is
/// a dialog.
pub proof fn windows_float_by_their_hints(
    fht: &mut Fht,
    surface: u64,
    window: u64,
    monitors: &[Monitor],
    rules: OpenRules,
    parent: Option<WorkspaceRef>,
    active: WorkspaceRef,
    mode: DecorationMode,
    hints: FloatHints,
    configure: InitialConfigure,
)
    requires
        rules.floating is None,
        monitors_wf(monitors@),
        rules.open_on_workspace is Some ==> first_index(
            monitors@,
            monitor_of(opening_output(rules, parent, active)),
        ) is Some,
        call_ensures(
            Fht::send_initial_configure,
            (fht, surface, window, monitors, rules, parent, active, mode, hints),
            configure,
        ),
    ensures
        hints.has_parent || hints.dialog ==> !configure.tiled,
        hints.min_height > 0 && hints.min_height == hints.max_height ==> !configure.tiled,
        hints.content_type is Photo || hints.content_type is Video || hints.content_type is Game
            ==> !configure.tiled,
        !hints.has_parent && !hints.dialog && hints.content_type is Unspecified && (
        hints.min_height <= 0 || hints.min_height != hints.max_height) ==> configure.tiled,
{
    assert(call_requires(
        Fht::send_initial_configure,
        (fht, surface, window, monitors, rules, parent, active, mode, hints),
    ));
}

/// The hints decide whether a window floats: any one of them is enough, and without any it does not.
pub proof fn any_hint_makes_a_window_float(hints: FloatHints, floating: bool)
    requires
        call_ensures(should_open_window_floating, (hints,), floating),
    ensures
        hints.has_parent ==> floating,
        hints.dialog ==> floating,
        hints.min_height > 0 && hints.min_height == hints.max_height ==> floating,
        !(hints.content_type is Unspecified) ==> floating,
        floating ==> hints.has_parent || hints.dialog || !(hints.content_type is Unspecified)
            || hints.min_height > 0 && hints.max_height == hints.min_height,
{
}

/// Where a window opens: on the output that a rule names, or else that of its parent, or else the
/// active one; and on the workspace of its parent or the active one, unless a rule names one by
/// its place on that output, where a place past the last one means the last one.
pub proof fn windows_open_where_they_belong(
    fht: &mut Fht,
    surface: u64,
    window: u64,
    monitors: &[Monitor],
    rules: OpenRules,
    parent: Option<WorkspaceRef>,
    active: WorkspaceRef,
    mode: DecorationMode,
    hints: FloatHints,
    configure: InitialConfigure,
)
    requires
        monitors_wf(monitors@),
        rules.open_on_workspace is Some ==> first_index(
            monitors@,
            monitor_of(opening_output(rules, parent, active)),
        ) is Some,
        call_ensures(
            Fht::send_initial_configure,
            (fht, surface, window, monitors, rules, parent, active, mode, hints),
            configure,
        ),
    ensures
        rules.open_on_output is None ==> match parent {
            Some(parent) => configure.output == parent.output,
            None => configure.output == active.output,
        },
        rules.open_on_workspace is None ==> match parent {
            Some(parent) => configure.workspace == parent.id,
            None => configure.workspace == active.id,
        },
        rules.open_on_workspace matches Some(idx) ==> exists|m: int|
            0 <= m < monitors@.len() && (#[trigger] monitors@[m]).output == configure.output
                && configure.workspace == monitors@[m].workspaces@[if idx < 9 {
                idx as int
            } else {
                8
            }],
{
    assert(call_requires(
        Fht::send_initial_configure,
        (fht, surface, window, monitors, rules, parent, active, mode, hints),
    ));
    let output = opening_output(rules, parent, active);
    lemma_first_index(monitors@, monitor_of(output));
    if rules.open_on_workspace is Some {
        let m = first_index(monitors@, monitor_of(output))->0;
        assert(monitor_of(output)(monitors@[m]));
        assert(monitors@[m].output == configure.output);
    }
}

/// A floating window is centered, in its parent if it has one and else on the output; apart from
/// that a window is centered as the rules say.
pub proof fn floating_windows_are_put_at_the_center(
    fht: &mut Fht,
    surface: u64,
    window: u64,
    monitors: &[Monitor],
    rules: OpenRules,
    parent: Option<WorkspaceRef>,
    active: WorkspaceRef,
    mode: DecorationMode,
    hints: FloatHints,
    configure: InitialConfigure,
)
    requires
        monitors_wf(monitors@),
        rules.open_on_workspace is Some ==> first_index(
            monitors@,
            monitor_of(opening_output(rules, parent, active)),
        ) is Some,
        call_ensures(
            Fht::send_initial_configure,
            (fht, surface, window, monitors, rules, parent, active, mode, hints),
            configure,
        ),
    ensures
        !configure.tiled && parent is Some ==> configure.centered_in_parent == Some(true)
            && configure.centered == rules.centered,
        !configure.tiled && parent is None ==> configure.centered == Some(true)
            && configure.centered_in_parent == rules.centered_in_parent,
        configure.tiled ==> configure.centered == rules.centered && configure.centered_in_parent
            == rules.centered_in_parent,
{
    assert(call_requires(
        Fht::send_initial_configure,
        (fht, surface, window, monitors, rules, parent, active, mode, hints),
    ));
}

/// A window is told who draws its decorations only where that is forced, by a rule, or by the
/// configuration where no rule speaks of it.
pub proof fn forced_decorations_are_told(
    fht: &mut Fht,
    surface: u64,
    window: u64,
    monitors: &[Monitor],
    rules: OpenRules,
    parent: Option<WorkspaceRef>,
    active: WorkspaceRef,
    mode: DecorationMode,
    hints: FloatHints,
    configure: InitialConfigure,
)
    requires
        monitors_wf(monitors@),
        rules.open_on_workspace is Some ==> first_index(
            monitors@,
            monitor_of(opening_output(rules, parent, active)),
        ) is Some,
        call_ensures(
            Fht::send_initial_configure,
            (fht, surface, window, monitors, rules, parent, active, mode, hints),
            configure,
        ),
    ensures
        ({
            let said = match rules.decoration_mode {
                Some(rule) => rule,
                None => mode,
            };
            &&& said is ForceClientSide <==> configure.decoration == Some(Decoration::ClientSide)
            &&& said is ForceServerSide <==> configure.decoration == Some(Decoration::ServerSide)
            &&& said is ClientPreference || said is PreferClientSide || said is PreferServerSide
                ==> configure.decoration is None
        }),
{
    assert(call_requires(
        Fht::send_initial_configure,
        (fht, surface, window, monitors, rules, parent, active, mode, hints),
    ));
}

/// A window that was told its first size is noted under its surface, with the workspace and the
/// location that it was told; nothing else changes.
pub proof fn configured_windows_are_noted(
    fht: &mut Fht,
    surface: u64,
    window: u64,
    monitors: &[Monitor],
    rules: OpenRules,
    parent: Option<WorkspaceRef>,
    active: WorkspaceRef,
    mode: DecorationMode,
    hints: FloatHints,
    configure: InitialConfigure,
    other: u64,
)
    requires
        monitors_wf(monitors@),
        rules.open_on_workspace is Some ==> first_index(
            monitors@,
            monitor_of(opening_output(rules, parent, active)),
        ) is Some,
        call_ensures(
            Fht::send_initial_configure,
            (fht, surface, window, monitors, rules, parent, active, mode, hints),
            configure,
        ),
    ensures
        lookup(final(fht).unmapped_windows@, surface) == Some(
            UnmappedWindow::Configured {
                window,
                workspace_id: configure.workspace,
                opening_location: configure.opening_location,
            },
        ),
        other != surface ==> lookup(final(fht).unmapped_windows@, other) == lookup(
            old(fht).unmapped_windows@,
            other,
        ),
        final(fht).outputs == old(fht).outputs,
        final(fht).lock_state == old(fht).lock_state,
{
    assert(call_requires(
        Fht::send_initial_configure,
        (fht, surface, window, monitors, rules, parent, active, mode, hints),
    ));
    lemma_lookup_inserted(
        old(fht).unmapped_windows@,
        surface,
        UnmappedWindow::Configured {
            window,
            workspace_id: configure.workspace,
            opening_location: rules.location,
        },
        other,
    );
}

/// A window is shown on its workspace if that still exists, and else on the active one. It gets the
/// focus only if new windows do and it was to open on the active workspace. A tiled window has no
/// location of its own.
pub proof fn windows_are_shown_where_they_belong(
    fht: &Fht,
    workspace_id: u64,
    found: Option<u64>,
    active: WorkspaceRef,
    tiled: bool,
    location: Option<Point>,
    focus_new_windows: bool,
    map: MapWindow,
)
    requires
        call_ensures(
            Fht::map_window,
            (fht, workspace_id, found, active, tiled, location, focus_new_windows),
            map,
        ),
    ensures
        found matches Some(output) ==> map.workspace == workspace_id && map.output == output,
        found is None ==> map.workspace == active.id && map.output == active.output,
        tiled ==> map.opening_location is None,
        !tiled ==> map.opening_location == location,
        map.focus <==> focus_new_windows && workspace_id == active.id,
{
}

/// A window that is shown is shown as [`Fht::map_window`] says, and its output is redrawn, no other
/// one.
pub proof fn shown_windows_are_drawn(
    state: &mut State,
    workspace_id: u64,
    found: Option<u64>,
    active: WorkspaceRef,
    tiled: bool,
    location: Option<Point>,
    focus_new_windows: bool,
    map: MapWindow,
    same: MapWindow,
)
    requires
        call_ensures(
            State::map_committed_window,
            (state, workspace_id, found, active, tiled, location, focus_new_windows),
            map,
        ),
        call_ensures(
            Fht::map_window,
            (&old(state).fht, workspace_id, found, active, tiled, location, focus_new_windows),
            same,
        ),
    ensures
        map == same,
        only_draws(old(state).fht.outputs@, final(state).fht.outputs@, map.output),
        final(state).backend == old(state).backend,
{
    lemma_only_draws(old(state).fht, map.output);
}

/// A new window waits under its surface until it is configured; whether the surface had a window
/// before is told.
pub proof fn new_windows_are_noted(
    state: &mut State,
    surface: u64,
    window: u64,
    twice: bool,
    other: u64,
)
    requires
        call_ensures(State::new_toplevel, (state, surface, window), twice),
    ensures
        lookup(final(state).fht.unmapped_windows@, surface) == Some(
            UnmappedWindow::Unconfigured(window),
        ),
        other != surface ==> lookup(final(state).fht.unmapped_windows@, other) == lookup(
            old(state).fht.unmapped_windows@,
            other,
        ),
        twice <==> exists|i: int|
            0 <= i < old(state).fht.unmapped_windows@.len() && (#[trigger] old(
                state,
            ).fht.unmapped_windows@[i]).0 == surface,
{
    let windows = old(state).fht.unmapped_windows@;
    lemma_lookup_inserted(windows, surface, UnmappedWindow::Unconfigured(window), other);
    lemma_first_index(windows, keyed::<UnmappedWindow>(surface));
    if twice {
        let i = first_index(windows, keyed::<UnmappedWindow>(surface))->0;
        assert(keyed::<UnmappedWindow>(surface)(windows[i]));
        assert(windows[i].0 == surface);
    }
    assert forall|i: int| 0 <= i < windows.len() && (#[trigger] windows[i]).0 == surface implies
        twice by {
        assert(keyed::<UnmappedWindow>(surface)(windows[i]));
    }
}

/// A window whose surface is gone is forgotten if it was not shown yet; one that is shown is closed,
/// and its output, no other one, is redrawn.
pub proof fn gone_windows_are_closed(
    state: &mut State,
    surface: u64,
    mapped: Option<(u64, u64)>,
    gone: ToplevelGone,
)
    requires
        unique_keys(old(state).fht.unmapped_windows@),
        call_ensures(State::toplevel_destroyed, (state, surface, mapped), gone),
    ensures
        lookup(final(state).fht.unmapped_windows@, surface) is None,
        lookup(old(state).fht.unmapped_windows@, surface) is Some ==> gone is NeverMapped
            && final(state).fht.outputs@ == old(state).fht.outputs@,
        lookup(old(state).fht.unmapped_windows@, surface) is None ==> match mapped {
            Some((window, output)) => gone == (ToplevelGone::Close { window, output })
                && only_draws(old(state).fht.outputs@, final(state).fht.outputs@, output)
                && final(state).fht.unmapped_windows@ == old(state).fht.unmapped_windows@,
            None => gone is Missing && final(state).fht.outputs@ == old(state).fht.outputs@
                && final(state).fht.unmapped_windows@ == old(state).fht.unmapped_windows@,
        },
{
    lemma_lookup_removed(old(state).fht.unmapped_windows@, surface);
    if let Some((_, output)) = mapped {
        lemma_only_draws(old(state).fht, output);
    }
}

/// Moving and resizing with the pointer is only granted to the client whose surface was pressed, and
/// only with the serial of that press. A window that is resized has its output redrawn.
pub proof fn interactive_requests_need_the_press(
    state: &mut State,
    grab_serial: Option<u32>,
    serial: u32,
    same_client: bool,
    window: Option<(u64, u64)>,
    started: bool,
    resized: Option<u64>,
    moving: Option<u64>,
    moved: Option<u64>,
)
    requires
        call_ensures(
            State::resize_request,
            (state, grab_serial, serial, same_client, window, started),
            resized,
        ),
        call_ensures(
            State::move_request,
            (&*old(state), grab_serial, serial, same_client, moving),
            moved,
        ),
    ensures
        !same_client || grab_serial != Some(serial) ==> resized is None && moved is None,
        same_client && grab_serial == Some(serial) ==> moved == moving,
        same_client && grab_serial == Some(serial) && started ==> match window {
            Some((window, output)) => resized == Some(window) && only_draws(
                old(state).fht.outputs@,
                final(state).fht.outputs@,
                output,
            ),
            None => resized is None,
        },
        !started ==> resized is None,
        resized is None ==> final(state).fht.outputs@ == old(state).fht.outputs@,
{
    if let Some((_, output)) = window {
        lemma_only_draws(old(state).fht, output);
    }
}

/// A popup gets all input exactly if nothing else has the keyboard or the pointer to itself, other
/// than by the event that opened the popup or the one before it.
pub proof fn popups_grab_what_is_free(
    keyboard: Option<GrabState>,
    pointer: Option<GrabState>,
    grab: PopupGrab,
)
    requires
        call_ensures(popup_grab, (keyboard, pointer), grab),
    ensures
        ({
            let keyboard_free = keyboard is None || !keyboard->0.grabbed || keyboard->0.by_serial
                || keyboard->0.by_previous;
            let pointer_free = pointer is None || !pointer->0.grabbed || pointer->0.by_serial
                || pointer->0.by_previous;
            &&& grab is Granted <==> keyboard_free && pointer_free
            &&& grab is KeyboardBusy <==> !keyboard_free
            &&& grab is PointerBusy <==> keyboard_free && !pointer_free
        }),
{
}

/// Popups belong to the window of their surface before its layer surface, and to nothing else.
pub proof fn popups_belong_to_their_window_first(
    window: Option<u64>,
    layer: Option<u64>,
    root: Option<KeyboardFocus>,
)
    requires
        call_ensures(popup_root, (window, layer), root),
    ensures
        window is Some ==> root == Some(KeyboardFocus::Space { surface: window }),
        window is None && layer is Some ==> root == Some(
            KeyboardFocus::LayerSurface { layer: layer->0 },
        ),
        window is None && layer is None ==> root is None,
{
}

/// A picture of a window is taken when the window loses its content, and dropped else, both of the
/// window that is shown and of the tile that is moved, at the scale of its output or unscaled.
pub proof fn pictures_are_taken_of_closing_windows(
    shown: bool,
    loses_content: bool,
    moved_tile: Option<Option<i32>>,
    before: BeforeCommit,
)
    requires
        call_ensures(window_pre_commit, (shown, loses_content, moved_tile), before),
    ensures
        before.window is Some <==> shown,
        before.moved_tile is Some <==> moved_tile is Some,
        before.window matches Some(picture) ==> (picture is Take <==> loses_content),
        before.moved_tile matches Some(tile) ==> (tile.0 is Take <==> loses_content) && tile.1
            == match moved_tile->0 {
            Some(scale) => scale,
            None => 1,
        },
{
}

/// A window that asks to be maximized or to fill an output gets that if it was offered, on the
/// output that it asks for.
pub proof fn offered_states_are_granted(
    offered: bool,
    window: Option<u64>,
    output: Option<u64>,
    maximized: Option<u64>,
    fullscreen: Option<FullscreenPlan>,
)
    requires
        call_ensures(maximize_request, (offered, window), maximized),
        call_ensures(fullscreen_request, (offered, window, output), fullscreen),
    ensures
        !offered ==> maximized is None && fullscreen is None,
        offered ==> maximized == window && (fullscreen is Some <==> window is Some),
        fullscreen matches Some(plan) ==> window == Some(plan.window) && plan.move_to == output,
{
}

/// The padding of a popup is ten pixels on each side, in each direction in which that leaves room,
/// and none in the other one.
pub proof fn popups_are_padded_by_ten(target: Rectangle, padded: Rectangle)
    requires
        can_pad(target),
        call_ensures(padded_target, (target,), padded),
    ensures
        target.size.w > 20 ==> padded.loc.x == target.loc.x + 10 && padded.loc.x + padded.size.w
            == target.loc.x + target.size.w - 10,
        target.size.w <= 20 ==> padded.loc.x == target.loc.x && padded.size.w == target.size.w,
        target.size.h > 20 ==> padded.loc.y == target.loc.y + 10 && padded.loc.y + padded.size.h
            == target.loc.y + target.size.h - 10,
        target.size.h <= 20 ==> padded.loc.y == target.loc.y && padded.size.h == target.size.h,
{
    assert(call_requires(padded_target, (target,)));
}

/// A rectangle contains another one exactly if it contains each of its edges, where those are in the
/// range of coordinates.
pub proof fn rectangles_contain_what_is_inside(
    outer: &Rectangle,
    inner: &Rectangle,
    contains: bool,
)
    requires
        call_ensures(Rectangle::contains_rect, (outer, inner), contains),
        fits(outer.loc.x + outer.size.w),
        fits(outer.loc.y + outer.size.h),
        fits(inner.loc.x + inner.size.w),
        fits(inner.loc.y + inner.size.h),
    ensures
        contains <==> outer.loc.x <= inner.loc.x && outer.loc.y <= inner.loc.y && inner.loc.x
            + inner.size.w <= outer.loc.x + outer.size.w && inner.loc.y + inner.size.h
            <= outer.loc.y + outer.size.h,
{
}

/// An edge beyond the range of coordinates counts as being at its end.
pub proof fn far_edges_are_at_the_end(outer: &Rectangle, inner: &Rectangle, contains: bool)
    requires
        call_ensures(Rectangle::contains_rect, (outer, inner), contains),
    ensures
        ({
            let end = |x: int| {
                if x > i32::MAX {
                    i32::MAX as int
                } else if x < i32::MIN {
                    i32::MIN as int
                } else {
                    x
                }
            };
            contains <==> outer.loc.x <= inner.loc.x && outer.loc.y <= inner.loc.y && end(
                inner.loc.x + inner.size.w,
            ) <= end(outer.loc.x + outer.size.w) && end(inner.loc.y + inner.size.h) <= end(
                outer.loc.y + outer.size.h,
            )
        }),
{
}

/// A popup stays on its output: the place that it has to stay in has the size of the output, and
/// moved back by the place of the parent, it starts at the corner of the output. A popup whose
/// parent is not known, or is nowhere, stays where it is.
pub proof fn popups_stay_on_their_output(
    fht: &Fht,
    parent: Option<PopupParent>,
    offset: Point,
    target: Option<Rectangle>,
)
    requires
        parent matches Some(PopupParent::Window { location, .. }) ==> can_relate(offset, location),
        match parent {
            Some(PopupParent::Layer { location: Some(location), .. }) => can_relate(
                offset,
                location,
            ),
            _ => true,
        },
        call_ensures(Fht::unconstrain_popup, (fht, parent, offset), target),
    ensures
        match parent {
            Some(PopupParent::Window { output_size, location }) => target is Some
                && target->0.size == output_size && target->0.loc.x + offset.x + location.x == 0
                && target->0.loc.y + offset.y + location.y == 0,
            Some(PopupParent::Layer { output_size, location: Some(location) }) => target is Some
                && target->0.size == output_size && target->0.loc.x + offset.x + location.x == 0
                && target->0.loc.y + offset.y + location.y == 0,
            _ => target is None,
        },
{
    assert(call_requires(Fht::unconstrain_popup, (fht, parent, offset)));
}

/// A popup that its positioner puts inside the padded target goes there, without being resized; else
/// it goes where the positioner puts it inside the target, where it may be resized.
pub proof fn popups_prefer_the_padding<F: Fn(Rectangle, bool) -> Rectangle>(
    fht: &Fht,
    target: Rectangle,
    positioner: F,
    geometry: Rectangle,
    padded: Rectangle,
    place: spec_fn(Rectangle, bool) -> Rectangle,
)
    requires
        can_pad(target),
        call_requires(positioner, (target, true)),
        call_requires(positioner, (self::padded(target), false)),
        call_ensures(padded_target, (target,), padded),
        call_ensures(Fht::place_popup_inside::<F>, (fht, target, positioner), geometry),
        forall|inside: Rectangle, resize: bool, at: Rectangle| #[trigger]
            call_ensures(positioner, (inside, resize), at) ==> at == place(inside, resize),
    ensures
        target.size.w <= 20 && target.size.h <= 20 ==> geometry == place(target, true),
        target.size.w > 20 || target.size.h > 20 ==> geometry == if padded.spec_contains_rect(
            place(padded, false),
        ) {
            place(padded, false)
        } else {
            place(target, true)
        },
{
    assert(call_requires(padded_target, (target,)));
    assert(call_requires(Fht::place_popup_inside::<F>, (fht, target, positioner)));
}

} // verus!
