use fht_compositor::assoc::{get, insert, take};
use fht_compositor::backend::headless::HeadlessData;
use fht_compositor::backend::Backend;
use fht_compositor::focus::{
    FocusCandidates, FocusChange, KeyboardFocus, LayerHit, PointerCandidates, PointerFocus,
    WindowHit,
};
use fht_compositor::focus_target::{KeyboardFocusTarget, PointerFocusTarget, WindowTarget};
use fht_compositor::frame_clock::FrameClock;
use fht_compositor::geometry::{Point, Rectangle, Size};
use fht_compositor::handlers::background_effect::{
    get_cached_blur_region, CachedBackgroundEffectState,
};
use fht_compositor::handlers::compositor::{
    CommitAction, CommittedSurface, MappedWindow, PopupState, UnmappedWindow,
};
use fht_compositor::handlers::dnd::{DropTarget, GrabType};
use fht_compositor::handlers::foreign_toplevel_list::{Window, WindowDetails};
use fht_compositor::handlers::fractional_scale::ShownOn;
use fht_compositor::handlers::gamma_control::{
    get_gamma_control, parse_gamma, set_gamma_request, split_ramps, to_u16_vec, words_in,
    GammaControl, GammaRequest,
};
use fht_compositor::handlers::layer_shell::{
    KeyboardInteractivity, Layer, LayerCommit, LayerSurface, NewLayer, OutputLayers,
};
use fht_compositor::handlers::pointer_constraints::cursor_position_hint;
use fht_compositor::handlers::seat::{InputDevice, NewDevice};
use fht_compositor::handlers::session_lock::{LockReply, LockState, SessionLockElements};
use fht_compositor::handlers::xdg_activation::{
    is_no_older_than, request_activation, token_created,
};
use fht_compositor::handlers::xdg_dialog::modal_changed;
use fht_compositor::handlers::xdg_shell::{
    fullscreen_request, maximize_request, padded_target, popup_grab, popup_root,
    should_open_window_floating, window_pre_commit, BeforeCommit, ClosePicture, ContentType, Decoration, DecorationMode, FloatHints, FullscreenPlan, GrabState, MapWindow,
    Monitor, OpenRules, PopupGrab, PopupParent, ToplevelGone, WorkspaceRef,
};
use fht_compositor::output::{OutputState, RedrawState};
use fht_compositor::state::{Fht, OutputEntry, State};
use fht_compositor::time::Duration;

fn fht() -> Fht {
    let mut fht = Fht::new(1);
    for id in [1, 2] {
        fht.outputs.push(OutputEntry {
            id,
            mode: None,
            state: OutputState::new(FrameClock::new(None, false)),
            lock_surface: None,
            lock_backdrop: false,
        });
    }
    fht
}

fn state() -> State {
    State { fht: fht(), backend: Backend::from(HeadlessData::new(1).0) }
}

fn redraws(fht: &Fht) -> Vec<bool> {
    fht.outputs.iter().map(|o| o.state.redraw_state == RedrawState::Queued).collect()
}

fn layer(surface: u64, layer: Layer, interactivity: KeyboardInteractivity) -> LayerSurface {
    LayerSurface { surface, layer, interactivity, mapped: true }
}

#[test]
fn tables_of_values() {
    let mut v = vec![(1u64, 'a')];
    insert(&mut v, 2, 'b');
    insert(&mut v, 1, 'c');
    assert_eq!(v, vec![(1, 'c'), (2, 'b')]);
    assert_eq!(get(&v, 2), Some('b'));
    assert_eq!(get(&v, 3), None);
    assert_eq!(take(&mut v, 1), Some('c'));
    assert_eq!(take(&mut v, 1), None);
    assert_eq!(v, vec![(2, 'b')]);
}

#[test]
fn redraws_are_queued() {
    let mut f = fht();
    f.queue_redraw(2);
    assert_eq!(redraws(&f), vec![false, true]);
    f.queue_redraw(9);
    assert_eq!(redraws(&f), vec![false, true]);
    f.queue_redraw_all();
    assert_eq!(redraws(&f), vec![true, true]);
    assert_eq!(f.output_index(2), Some(1));
    assert_eq!(f.output_index(5), None);
}

#[test]
fn locking_waits_for_all_outputs() {
    let mut f = fht();
    assert_eq!(f.lock(7, false), LockReply::Pending);
    assert_eq!(f.lock_state, LockState::WaitingForSurfaces(7));
    assert!(!f.is_locked());
    assert_eq!(redraws(&f), vec![true, true]);
    assert!(f.new_lock_surface(71, 1));
    f.try_continue_locking();
    assert_eq!(f.lock_state, LockState::WaitingForSurfaces(7));
    assert!(!f.new_lock_surface(72, 2));
    f.try_continue_locking();
    assert_eq!(f.lock_state, LockState::Locking(7));
    assert!(f.is_locked());
    assert_eq!(
        f.session_lock_elements(2),
        SessionLockElements { surface: Some(72), backdrop: true }
    );
    assert!(f.outputs[1].lock_backdrop && !f.outputs[0].lock_backdrop);
    f.try_continue_locking();
    assert_eq!(f.lock_state, LockState::Locking(7));
    f.unlock();
    assert_eq!(f.lock_state, LockState::Unlocked);
    assert!(f.outputs.iter().all(|o| o.lock_surface.is_none() && !o.lock_backdrop));
    assert_eq!(
        f.session_lock_elements(2),
        SessionLockElements { surface: None, backdrop: false }
    );
}

#[test]
fn living_locks_are_kept() {
    let mut f = fht();
    f.lock_state = LockState::Locked(7);
    assert_eq!(f.lock(8, true), LockReply::Ignored);
    assert_eq!(f.lock_state, LockState::Locked(7));
    assert_eq!(f.lock(8, false), LockReply::Confirmed);
    assert_eq!(f.lock_state, LockState::Locked(8));
    assert_eq!(redraws(&f), vec![false, false]);
    assert_eq!(LockState::default(), LockState::Unlocked);
}

fn candidates(layers: Vec<LayerSurface>) -> FocusCandidates {
    FocusCandidates { layers, fullscreen: None, active: Some(50) }
}

#[test]
fn keyboard_focus_order() {
    let exclusive = KeyboardInteractivity::Exclusive;
    let never = KeyboardInteractivity::Never;
    let on_demand = KeyboardInteractivity::OnDemand;
    let c = candidates(vec![layer(1, Layer::Background, exclusive), layer(2, Layer::Bottom, on_demand)]);
    assert_eq!(c.choose_focus(None), Some(KeyboardFocus::Space { surface: Some(50) }));
    assert_eq!(c.choose_focus(Some(2)), Some(KeyboardFocus::Space { surface: Some(50) }));
    let c = FocusCandidates { active: None, ..c };
    assert_eq!(c.choose_focus(Some(2)), Some(KeyboardFocus::LayerSurface { layer: 2 }));
    assert_eq!(c.choose_focus(None), None);
    assert_eq!(c.choose_focus(Some(1)), Some(KeyboardFocus::LayerSurface { layer: 1 }));

    let c = candidates(vec![layer(3, Layer::Top, exclusive), layer(4, Layer::Overlay, on_demand)]);
    assert_eq!(c.choose_focus(None), Some(KeyboardFocus::LayerSurface { layer: 3 }));
    assert_eq!(c.choose_focus(Some(4)), Some(KeyboardFocus::LayerSurface { layer: 4 }));
    let c = FocusCandidates { fullscreen: Some(60), ..c };
    assert_eq!(c.choose_focus(None), Some(KeyboardFocus::Space { surface: Some(60) }));
    assert_eq!(c.choose_focus(Some(4)), Some(KeyboardFocus::LayerSurface { layer: 4 }));
    let c = candidates(vec![layer(5, Layer::Top, never)]);
    assert_eq!(c.choose_focus(None), Some(KeyboardFocus::Space { surface: Some(50) }));
}

#[test]
fn keyboard_focus_changes() {
    let mut s = state();
    let c = candidates(vec![layer(4, Layer::Overlay, KeyboardInteractivity::OnDemand)]);
    s.fht.focused_on_demand_layer_shell = Some(4);
    let wants = Some(KeyboardInteractivity::OnDemand);
    assert_eq!(
        s.update_keyboard_focus(&c, wants, Some(50)),
        Some(FocusChange { surface: Some(4), activate: None })
    );
    assert_eq!(s.update_keyboard_focus(&c, wants, Some(4)), None);
    assert_eq!(
        s.update_keyboard_focus(&c, Some(KeyboardInteractivity::Never), Some(4)),
        Some(FocusChange { surface: Some(50), activate: Some(50) })
    );
    assert_eq!(s.fht.focused_on_demand_layer_shell, None);
    s.fht.lock_state = LockState::Locked(1);
    assert_eq!(
        s.update_keyboard_focus(&c, None, Some(50)),
        Some(FocusChange { surface: None, activate: None })
    );
    s.fht.outputs[0].lock_surface = Some(9);
    assert_eq!(
        s.update_keyboard_focus(&c, None, Some(50)),
        Some(FocusChange { surface: Some(9), activate: None })
    );
    assert!(s.update_pointer_focus(Some(1), None));
    assert!(!s.update_pointer_focus(Some(1), Some(1)));
    assert_eq!(KeyboardFocus::LockSurface { lock: 3 }.wl_surface(), Some(3));
    assert_eq!(KeyboardFocus::Space { surface: None }.into_wl_surface(), None);
}

#[test]
fn unlocking_gives_the_focus_back() {
    let mut s = state();
    s.fht.lock_state = LockState::Locked(1);
    s.fht.outputs[0].lock_surface = Some(9);
    s.fht.focused_on_demand_layer_shell = Some(4);
    let c = candidates(vec![]);
    // The layer surface that was clicked on is gone by now.
    assert_eq!(
        s.unlock(&c, None, Some(9)),
        Some(FocusChange { surface: Some(50), activate: Some(50) })
    );
    assert_eq!(s.fht.lock_state, LockState::Unlocked);
    assert_eq!(s.fht.focused_on_demand_layer_shell, None);
    assert_eq!(s.fht.outputs[0].lock_surface, None);
    assert!(redraws(&s.fht).into_iter().all(|queued| queued));
}

#[test]
fn pointer_focus_order() {
    let hit = |surface, l, under| LayerHit {
        layer: layer(surface, l, KeyboardInteractivity::Never),
        surface: under,
    };
    let f = fht();
    let focus = |c: &PointerCandidates| f.get_pointer_focus(Some(c)).unwrap();
    let mut c = PointerCandidates {
        output: 1,
        layers: vec![
            hit(10, Layer::Background, Some(100)),
            hit(11, Layer::Bottom, Some(110)),
            hit(12, Layer::Top, Some(120)),
            hit(13, Layer::Top, Some(130)),
            hit(14, Layer::Top, None),
            hit(15, Layer::Overlay, Some(150)),
        ],
        fullscreen: Some(WindowHit { window: 5, surface: 500 }),
        window: Some(WindowHit { window: 6, surface: 600 }),
        lock: Some(7),
        render_above_top: false,
    };
    let over = |surface, window, layer_surface| PointerFocus {
        output: 1,
        surface: Some(surface),
        window,
        layer_surface,
    };
    assert_eq!(focus(&c), over(150, None, Some(15)));
    c.layers.pop();
    assert_eq!(focus(&c), over(130, None, Some(13)));
    c.render_above_top = true;
    assert_eq!(focus(&c), over(500, Some(5), None));
    c.fullscreen = None;
    assert_eq!(focus(&c), over(130, None, Some(13)));
    c.layers.truncate(2);
    assert_eq!(focus(&c), over(600, Some(6), None));
    c.window = None;
    assert_eq!(focus(&c), over(110, None, Some(11)));
    c.layers.truncate(1);
    assert_eq!(focus(&c), over(100, None, Some(10)));
    c.layers.clear();
    assert_eq!(
        focus(&c),
        PointerFocus { output: 1, surface: None, window: None, layer_surface: None }
    );
    assert_eq!(f.get_pointer_focus(None), None);
    let mut locked = fht();
    locked.lock_state = LockState::Locked(1);
    assert_eq!(locked.get_pointer_focus(Some(&c)).unwrap(), over(7, None, None));
}

#[test]
fn focus_targets() {
    let w = WindowTarget { window: 1, surface: 2 };
    assert_eq!(
        PointerFocusTarget::from(KeyboardFocusTarget::Window(w)),
        PointerFocusTarget::Window(w)
    );
    for t in [
        KeyboardFocusTarget::LayerSurface(3),
        KeyboardFocusTarget::LockSurface(3),
        KeyboardFocusTarget::Popup(3),
    ] {
        assert_eq!(t.wl_surface(), 3);
        assert_eq!(PointerFocusTarget::from(t), PointerFocusTarget::WlSurface(3));
        assert_eq!(PointerFocusTarget::from(t).wl_surface(), 3);
    }
    assert_eq!(KeyboardFocusTarget::Window(w).wl_surface(), 2);
}

fn committed(surface: u64) -> CommittedSurface {
    CommittedSurface {
        surface,
        root: surface,
        sync_subsurface: false,
        has_buffer: true,
        window: None,
        root_window: None,
        popup: None,
        layer_output: None,
    }
}

#[test]
fn windows_are_mapped_step_by_step() {
    let mut s = state();
    assert!(!s.new_toplevel(20, 200));
    assert!(s.new_toplevel(20, 200));
    assert_eq!(
        s.commit(committed(20)),
        CommitAction::QueueInitialConfigure { window: 200 }
    );
    assert!(s.fht.unmapped_windows.is_empty());
    let configured = UnmappedWindow::Configured {
        window: 200,
        workspace_id: 3,
        opening_location: None,
    };
    s.fht.unmapped_windows.push((20, configured));
    let empty = CommittedSurface { has_buffer: false, ..committed(20) };
    assert_eq!(s.commit(empty), CommitAction::Refresh { window: 200 });
    assert_eq!(
        s.commit(committed(20)),
        CommitAction::MapWindow { window: 200, workspace_id: 3, opening_location: None }
    );
    assert!(s.fht.unmapped_windows.is_empty());
    let mapped = Some(MappedWindow { window: 200, output: 2 });
    let shown = CommittedSurface { window: mapped, root_window: mapped, ..committed(20) };
    assert_eq!(s.commit(shown), CommitAction::UpdateWindow { window: 200 });
    assert_eq!(redraws(&s.fht), vec![false, true]);
    let gone = CommittedSurface { has_buffer: false, ..shown };
    assert_eq!(s.commit(gone), CommitAction::UnmapWindow { window: 200 });
    assert_eq!(s.fht.unmapped_windows, vec![(20, UnmappedWindow::Unconfigured(200))]);
}

#[test]
fn other_surfaces_are_committed() {
    let mut s = state();
    let mapped = Some(MappedWindow { window: 200, output: 1 });
    let sub = CommittedSurface { root: 20, root_window: mapped, ..committed(21) };
    let synced = CommittedSurface { sync_subsurface: true, ..sub };
    assert_eq!(s.commit(synced), CommitAction::Synced);
    assert_eq!(s.fht.root_surfaces, vec![(21, 20)]);
    assert_eq!(redraws(&s.fht), vec![false, false]);
    assert_eq!(s.commit(sub), CommitAction::UpdateWindow { window: 200 });
    assert_eq!(redraws(&s.fht), vec![true, false]);
    let popup = PopupState { xdg: true, configured: false, output: Some(2) };
    let c = CommittedSurface { popup: Some(popup), ..committed(30) };
    assert_eq!(s.commit(c), CommitAction::UpdatePopup { configure: true, scale: Some(2) });
    assert_eq!(redraws(&s.fht), vec![true, true]);
    let done = PopupState { configured: true, ..popup };
    let c = CommittedSurface { popup: Some(done), ..committed(30) };
    assert_eq!(s.commit(c), CommitAction::UpdatePopup { configure: false, scale: None });
    let ime = PopupState { xdg: false, ..popup };
    let c = CommittedSurface { popup: Some(ime), ..committed(30) };
    assert_eq!(s.commit(c), CommitAction::UpdatePopup { configure: false, scale: None });
    let c = CommittedSurface { layer_output: Some(2), ..committed(40) };
    assert_eq!(s.commit(c), CommitAction::UpdateLayer { output: 2 });
    assert_eq!(s.commit(committed(50)), CommitAction::Unknown);
}

#[test]
fn destroyed_surfaces() {
    let mut s = state();
    s.fht.root_surfaces = vec![(1, 10), (2, 10), (10, 10), (3, 11)];
    assert_eq!(s.destroyed(2), Some(10));
    assert_eq!(s.fht.root_surfaces, vec![(1, 10), (10, 10), (3, 11)]);
    assert_eq!(s.destroyed(10), Some(10));
    assert_eq!(s.fht.root_surfaces, vec![(3, 11)]);
    assert_eq!(s.destroyed(99), None);
    s.new_toplevel(5, 50);
    assert_eq!(s.toplevel_destroyed(5, Some((1, 2))), ToplevelGone::NeverMapped);
    assert_eq!(s.toplevel_destroyed(5, None), ToplevelGone::Missing);
    assert_eq!(
        s.toplevel_destroyed(5, Some((1, 2))),
        ToplevelGone::Close { window: 1, output: 2 }
    );
    assert_eq!(redraws(&s.fht), vec![false, true]);
}

#[test]
fn popups_are_placed() {
    let f = fht();
    let target = Rectangle::new(0, 0, 100, 20);
    assert_eq!(padded_target(target), Rectangle::new(10, 0, 80, 20));
    let small = Rectangle::new(0, 0, 20, 20);
    assert_eq!(padded_target(small), small);
    let (a, b) = (Rectangle::new(10, 0, 5, 5), Rectangle::new(0, 0, 5, 5));
    assert_eq!(f.place_popup_inside(target, |_, resize| if resize { b } else { a }), a);
    let outside = Rectangle::new(9, 0, 5, 5);
    assert_eq!(f.place_popup_inside(target, |_, resize| if resize { b } else { outside }), b);
    assert_eq!(f.place_popup_inside(small, |_, resize| if resize { b } else { a }), b);
    // The positioner is told the padded target, or the target itself.
    let padded = padded_target(target);
    assert_eq!(f.place_popup_inside(target, |inside, _| inside), padded);
    assert_eq!(f.place_popup_inside(small, |inside, _| inside), small);
    let far = Rectangle::new(i32::MAX, 0, 20, 100);
    assert_eq!(padded_target(far), Rectangle::new(i32::MAX, 10, 20, 80));
    let size = Size { w: 300, h: 200 };
    let (offset, location) = (Point { x: 5, y: 6 }, Point { x: 50, y: -60 });
    assert_eq!(
        f.unconstrain_window_popup(size, offset, location),
        Rectangle::new(-55, 54, 300, 200)
    );
    let window = PopupParent::Window { output_size: size, location };
    assert_eq!(
        f.unconstrain_popup(Some(window), offset),
        Some(Rectangle::new(-55, 54, 300, 200))
    );
    let lost = PopupParent::Layer { output_size: size, location: None };
    assert_eq!(f.unconstrain_popup(Some(lost), offset), None);
    assert_eq!(f.unconstrain_popup(None, offset), None);
    assert_eq!(
        f.unconstrain_layer_popup(size, offset, Some(location)),
        Some(Rectangle::new(-55, 54, 300, 200))
    );
    assert!(Rectangle::new(0, 0, 10, 10).contains_rect(&Rectangle::new(0, 0, 10, 10)));
    assert!(!Rectangle::new(0, 0, 10, 10).contains_rect(&Rectangle::new(1, 0, 10, 10)));
}

fn hints() -> FloatHints {
    FloatHints {
        has_parent: false,
        min_height: 0,
        max_height: 0,
        content_type: ContentType::Unspecified,
        dialog: false,
    }
}

#[test]
fn some_windows_open_floating() {
    assert!(!should_open_window_floating(hints()));
    assert!(should_open_window_floating(FloatHints { has_parent: true, ..hints() }));
    assert!(should_open_window_floating(FloatHints { min_height: 5, max_height: 5, ..hints() }));
    assert!(!should_open_window_floating(FloatHints { min_height: 5, max_height: 6, ..hints() }));
    for content_type in [ContentType::Photo, ContentType::Video, ContentType::Game] {
        assert!(should_open_window_floating(FloatHints { content_type, ..hints() }));
    }
    assert!(should_open_window_floating(FloatHints { dialog: true, ..hints() }));
}

fn rules() -> OpenRules {
    OpenRules {
        location: None,
        open_on_output: None,
        open_on_workspace: None,
        decoration_mode: None,
        floating: None,
        fullscreen: None,
        maximized: None,
        centered: None,
        centered_in_parent: None,
    }
}

#[test]
fn windows_are_configured() {
    let monitors = vec![
        Monitor { output: 1, workspaces: (0..9).collect() },
        Monitor { output: 2, workspaces: (9..18).collect() },
    ];
    let active = WorkspaceRef { output: 1, id: 4 };
    let mode = DecorationMode::PreferServerSide;
    let mut f = fht();
    let c = f.send_initial_configure(20, 200, &monitors, rules(), None, active, mode, hints());
    assert_eq!((c.output, c.workspace), (1, 4));
    assert!(c.tiled && c.prepare && c.centered.is_none() && c.decoration.is_none());
    assert_eq!(
        f.unmapped_windows,
        vec![(
            20,
            UnmappedWindow::Configured { window: 200, workspace_id: 4, opening_location: None }
        )]
    );
    let r = OpenRules {
        open_on_output: Some(2),
        open_on_workspace: Some(30),
        decoration_mode: Some(DecorationMode::ForceClientSide),
        floating: Some(true),
        fullscreen: Some(false),
        location: Some(Point { x: 1, y: 2 }),
        ..rules()
    };
    let c = f.send_initial_configure(20, 200, &monitors, r, None, active, mode, hints());
    assert_eq!((c.output, c.workspace), (2, 17));
    assert_eq!(c.decoration, Some(Decoration::ClientSide));
    assert_eq!((c.fullscreen, c.maximized), (Some(false), None));
    assert!(!c.tiled && !c.prepare);
    assert_eq!((c.centered, c.centered_in_parent), (Some(true), None));
    assert_eq!(c.opening_location, Some(Point { x: 1, y: 2 }));
    let parent = Some(WorkspaceRef { output: 2, id: 12 });
    let child = FloatHints { has_parent: true, ..hints() };
    let force = DecorationMode::ForceServerSide;
    let c = f.send_initial_configure(20, 200, &monitors, rules(), parent, active, force, child);
    assert_eq!((c.output, c.workspace), (2, 12));
    assert_eq!(c.decoration, Some(Decoration::ServerSide));
    assert_eq!((c.centered, c.centered_in_parent), (None, Some(true)));
}

#[test]
fn windows_are_mapped() {
    let f = fht();
    let on = |output, id| WorkspaceRef { output, id };
    let at = Some(Point { x: 1, y: 2 });
    assert_eq!(
        f.map_window(4, Some(2), on(1, 4), false, at, true),
        MapWindow { workspace: 4, output: 2, opening_location: at, focus: true }
    );
    assert_eq!(
        f.map_window(4, None, on(1, 5), true, at, true),
        MapWindow { workspace: 5, output: 1, opening_location: None, focus: false }
    );
    assert!(!f.map_window(4, Some(1), on(1, 4), true, None, false).focus);
    let mut s = state();
    let mapped = s.map_committed_window(4, Some(2), on(1, 5), true, None, true);
    assert_eq!(mapped, f.map_window(4, Some(2), on(1, 5), true, None, true));
    assert_eq!(redraws(&s.fht), vec![false, true]);
}

#[test]
fn window_requests() {
    assert!(State::allows_interactive(Some(3), 3, true));
    assert!(!State::allows_interactive(Some(3), 4, true));
    assert!(!State::allows_interactive(Some(3), 3, false));
    assert!(!State::allows_interactive(None, 3, true));
    assert_eq!(maximize_request(true, Some(1)), Some(1));
    assert_eq!(maximize_request(false, Some(1)), None);
    assert_eq!(
        fullscreen_request(true, Some(1), Some(2)),
        Some(FullscreenPlan { window: 1, move_to: Some(2) })
    );
    assert_eq!(fullscreen_request(false, Some(1), Some(2)), None);
    assert_eq!(fullscreen_request(true, None, Some(2)), None);
    let free = GrabState { grabbed: false, by_serial: false, by_previous: false };
    let busy = GrabState { grabbed: true, ..free };
    let ours = GrabState { by_previous: true, ..busy };
    assert_eq!(popup_grab(Some(free), Some(ours)), PopupGrab::Granted);
    assert_eq!(popup_grab(Some(busy), Some(busy)), PopupGrab::KeyboardBusy);
    assert_eq!(popup_grab(Some(ours), Some(busy)), PopupGrab::PointerBusy);
    assert_eq!(popup_grab(None, None), PopupGrab::Granted);
}

fn window() -> Window {
    Window {
        id: 1,
        title: Some("Title".to_string()),
        app_id: Some("app".to_string()),
        foreign_toplevel_handle: None,
    }
}

#[test]
fn windows_are_announced() {
    let mut f = fht();
    let mut w = window();
    let a = f.adversite_new_foreign_window(&mut w, 9).unwrap();
    assert_eq!((a.title.as_str(), a.app_id.as_str()), ("Title", "app"));
    assert_eq!(w.foreign_toplevel_handle, Some(9));
    assert!(f.adversite_new_foreign_window(&mut w, 10).is_none());
    assert_eq!(w.foreign_toplevel_handle, Some(9));
    match f.send_foreign_window_details(&mut w, 11) {
        WindowDetails::Update { handle, title, app_id } => {
            assert_eq!(handle, 9);
            assert_eq!(title.as_deref(), Some("Title"));
            assert_eq!(app_id.as_deref(), Some("app"));
        }
        other => panic!("unexpected {other:?}"),
    }
    assert_eq!(f.close_foreign_handle(&mut w), Some(9));
    assert_eq!(f.close_foreign_handle(&mut w), None);
    let mut bare = Window { title: None, ..window() };
    match f.send_foreign_window_details(&mut bare, 11) {
        WindowDetails::Announce(a) => assert_eq!(a.title, "app"),
        other => panic!("unexpected {other:?}"),
    }
    assert_eq!(bare.foreign_toplevel_handle, Some(11));
    let mut nameless = Window { title: None, app_id: None, ..window() };
    let a = f.adversite_new_foreign_window(&mut nameless, 1).unwrap();
    assert_eq!((a.title.as_str(), a.app_id.as_str()), ("", ""));
}

#[test]
fn activity_is_notified_once() {
    let mut s = state();
    assert!(s.fht.idle_notify_activity());
    assert!(!s.fht.idle_notify_activity());
    s.inhibit(4);
    s.inhibit(5);
    s.inhibit(4);
    s.uninhibit(4);
    assert_eq!(s.fht.idle_inhibiting_surfaces, vec![5]);
}

#[test]
fn gamma_bytes_become_ramps() {
    let words: Vec<u16> = vec![1, 2, 0x0304, 4, 5, 0xffff];
    let bytes: Vec<u8> = words.iter().flat_map(|w| w.to_ne_bytes()).collect();
    assert_eq!(to_u16_vec(&bytes), words);
    assert_eq!(to_u16_vec(&[1]), Vec::<u16>::new());
    let little: Vec<u8> = words.iter().flat_map(|w| w.to_le_bytes()).collect();
    let big: Vec<u8> = words.iter().flat_map(|w| w.to_be_bytes()).collect();
    assert_eq!(words_in(&little, true), words);
    assert_eq!(words_in(&big, false), words);
    assert_eq!(words_in(&[1, 2], true), vec![0x0201]);
    assert_eq!(words_in(&[1, 2], false), vec![0x0102]);
    for request in [
        parse_gamma(2, Some(&little), true),
        parse_gamma(2, Some(&big), false),
        set_gamma_request(2, Some(&bytes)),
    ] {
        match request {
            GammaRequest::Ramps { r, g, b } => {
                assert_eq!((r, g, b), (vec![1, 2], vec![0x0304, 4], vec![5, 0xffff]))
            }
            other => panic!("unexpected {other:?}"),
        }
    }
    match parse_gamma(2, Some(&little), false) {
        GammaRequest::Ramps { r, g, b } => {
            assert_eq!((r, g, b), (vec![0x100, 0x200], vec![0x0403, 0x400], vec![0x500, 0xffff]))
        }
        other => panic!("unexpected {other:?}"),
    }
    assert!(matches!(parse_gamma(0, Some(&[]), true), GammaRequest::Failed));
    assert!(matches!(parse_gamma(2, None, true), GammaRequest::Failed));
    assert!(matches!(set_gamma_request(2, None), GammaRequest::Failed));
    assert_eq!(split_ramps(&[1, 2, 3], 1), (vec![1], vec![2], vec![3]));
    assert_eq!(
        get_gamma_control(Some(1), Some(256), Some(9)),
        Some(GammaControl { output: 1, size: Some(256) })
    );
    assert_eq!(
        get_gamma_control(Some(1), None, None),
        Some(GammaControl { output: 1, size: Some(0) })
    );
    assert_eq!(
        get_gamma_control(None, None, Some(9)),
        Some(GammaControl { output: 9, size: None })
    );
    assert_eq!(get_gamma_control(None, None, None), None);
}

#[test]
fn serials_and_activation() {
    assert!(is_no_older_than(5, 5) && is_no_older_than(6, 5) && !is_no_older_than(5, 6));
    assert!(is_no_older_than(3, u32::MAX - 2) && !is_no_older_than(u32::MAX - 2, 3));
    assert!(token_created(Some((6, true)), Some(5)));
    assert!(!token_created(Some((6, false)), Some(5)));
    assert!(!token_created(Some((4, true)), Some(5)));
    assert!(!token_created(Some((6, true)), None));
    assert!(!token_created(None, Some(5)));
    let w = Some((1, 2));
    assert_eq!(request_activation(Duration::new(9, 999_999_999), w), w);
    assert_eq!(request_activation(Duration::from_secs(10), w), None);
    assert_eq!(cursor_position_hint(true, Some(3), 3, Some(8)), Some(8));
    assert_eq!(cursor_position_hint(true, Some(4), 3, Some(8)), None);
    assert_eq!(cursor_position_hint(false, Some(3), 3, Some(8)), None);
    assert_eq!(cursor_position_hint(true, None, 3, Some(8)), None);
}

#[test]
fn dragging_and_dropping() {
    let mut s = state();
    assert_eq!(s.dnd_requested(Some(4), GrabType::Touch), GrabType::Touch);
    assert_eq!(s.fht.dnd_icon, Some(4));
    assert_eq!(redraws(&s.fht), vec![true, true]);
    s.fht.root_surfaces = vec![(1, 10)];
    let t = |surface, popup_root| Some(DropTarget { surface, popup_root });
    assert_eq!(s.drop_surface(t(1, Some(7)), true), Some(10));
    assert_eq!(s.drop_surface(t(2, Some(7)), true), Some(7));
    assert_eq!(s.drop_surface(t(2, None), true), Some(2));
    assert_eq!(s.drop_surface(t(2, None), false), None);
    assert_eq!(s.drop_surface(None, true), None);
    s.fht.focused_on_demand_layer_shell = Some(3);
    assert_eq!(s.dropped(None, Some(2)), None);
    assert_eq!((s.fht.focused_on_demand_layer_shell, s.fht.active_output), (Some(3), 1));
    assert_eq!(s.dropped(Some(8), Some(2)), Some(8));
    assert_eq!((s.fht.focused_on_demand_layer_shell, s.fht.active_output), (None, 2));
}

#[test]
fn layer_surfaces() {
    let f = fht();
    assert_eq!(
        f.new_layer_surface(None, Layer::Bottom),
        NewLayer { output: 1, blur_dirty: true }
    );
    assert_eq!(
        f.new_layer_surface(Some(2), Layer::Top),
        NewLayer { output: 2, blur_dirty: false }
    );
    let maps = [
        OutputLayers { output: 1, layers: vec![] },
        OutputLayers {
            output: 2,
            layers: vec![layer(5, Layer::Background, KeyboardInteractivity::Never)],
        },
    ];
    assert_eq!(f.layer_destroyed(&maps, 5), Some(NewLayer { output: 2, blur_dirty: true }));
    assert_eq!(f.layer_destroyed(&maps, 6), None);
    assert_eq!(
        State::process_layer_shell_commit(&maps, 5, false),
        Some(LayerCommit { output: 2, send_configure: true, blur_dirty: true })
    );
    assert_eq!(
        State::process_layer_shell_commit(&maps, 5, true),
        Some(LayerCommit { output: 2, send_configure: false, blur_dirty: false })
    );
    assert_eq!(State::process_layer_shell_commit(&maps, 6, true), None);
}

#[test]
fn small_protocols() {
    let mut s = state();
    assert!(s.new_screencopy_frame(1, true));
    assert_eq!(redraws(&s.fht), vec![false, false]);
    assert!(s.new_screencopy_frame(1, false));
    assert_eq!(redraws(&s.fht), vec![true, false]);
    assert!(!s.new_screencopy_frame(7, false));
    let mut blur = CachedBackgroundEffectState::new();
    assert!(get_cached_blur_region(&blur).is_none());
    blur.set_blur_region(vec![Rectangle::new(1, 2, 3, 4)]);
    assert_eq!(get_cached_blur_region(&blur), Some(&vec![Rectangle::new(1, 2, 3, 4)]));
    blur.unset_blur_region();
    assert!(get_cached_blur_region(&blur).is_none());
    let on = |primary, last_frame| ShownOn { primary, last_frame };
    let nowhere = on(None, None);
    assert_eq!(s.fht.new_fractional_scale(nowhere, nowhere, None), 1);
    assert_eq!(s.fht.new_fractional_scale(nowhere, nowhere, Some(4)), 4);
    assert_eq!(s.fht.new_fractional_scale(nowhere, on(None, Some(3)), Some(4)), 3);
    assert_eq!(s.fht.new_fractional_scale(nowhere, on(Some(2), Some(3)), Some(4)), 2);
    assert_eq!(s.fht.new_fractional_scale(on(None, Some(5)), on(Some(2), None), Some(4)), 5);
    assert_eq!(s.fht.new_fractional_scale(on(Some(6), Some(5)), on(Some(2), None), None), 6);
    let center = Point { x: 500, y: 300 };
    let size = Size { w: 101, h: 50 };
    assert_eq!(modal_changed(true, true, center, size), Some(Point { x: 449, y: 275 }));
    assert_eq!(modal_changed(true, false, center, size), None);
    assert_eq!(modal_changed(false, true, center, size), None);
}

#[test]
fn interactive_requests() {
    let mut s = state();
    assert_eq!(s.move_request(Some(3), 3, true, Some(5)), Some(5));
    assert_eq!(s.move_request(Some(3), 4, true, Some(5)), None);
    assert_eq!(s.move_request(Some(3), 3, true, None), None);
    assert_eq!(s.resize_request(Some(3), 3, true, Some((5, 2)), false), None);
    assert_eq!(s.resize_request(Some(3), 3, false, Some((5, 2)), true), None);
    assert_eq!(s.resize_request(Some(3), 3, true, None, true), None);
    assert_eq!(redraws(&s.fht), vec![false, false]);
    assert_eq!(s.resize_request(Some(3), 3, true, Some((5, 2)), true), Some(5));
    assert_eq!(redraws(&s.fht), vec![false, true]);
}

#[test]
fn popups_belong_to_windows_or_layers() {
    assert_eq!(popup_root(Some(1), Some(2)), Some(KeyboardFocus::Space { surface: Some(1) }));
    assert_eq!(popup_root(None, Some(2)), Some(KeyboardFocus::LayerSurface { layer: 2 }));
    assert_eq!(popup_root(None, None), None);
}

#[test]
fn pictures_of_closing_windows() {
    assert_eq!(
        window_pre_commit(true, true, None),
        BeforeCommit { window: Some(ClosePicture::Take), moved_tile: None }
    );
    assert_eq!(
        window_pre_commit(false, false, Some(Some(2))),
        BeforeCommit { window: None, moved_tile: Some((ClosePicture::Discard, 2)) }
    );
    assert_eq!(
        window_pre_commit(true, false, Some(None)),
        BeforeCommit {
            window: Some(ClosePicture::Discard),
            moved_tile: Some((ClosePicture::Discard, 1)),
        }
    );
}

#[test]
fn devices_are_plugged_in_and_out() {
    let keyboard = InputDevice { id: 1, keyboard: true, tablet: false };
    let tablet = InputDevice { id: 2, keyboard: false, tablet: true };
    let mut s = state();
    assert_eq!(s.on_device_added(keyboard), NewDevice { update_leds: true, add_tablet: false });
    assert_eq!(s.on_device_added(tablet), NewDevice { update_leds: false, add_tablet: true });
    assert_eq!(s.led_state_changed(), vec![keyboard]);
    assert!(!s.on_device_removed(tablet, 1));
    assert_eq!(s.fht.devices, vec![keyboard]);
    assert!(s.on_device_removed(tablet, 0));
    assert!(!s.on_device_removed(keyboard, 0));
    assert!(s.fht.devices.is_empty());
}

#[test]
fn cursors_of_tablet_tools() {
    let mut s = state();
    assert!(s.tablet_tool_image());
    s.fht.interactive_grab_active = true;
    assert!(!s.tablet_tool_image());
    s.fht.interactive_grab_active = false;
    s.fht.resize_grab_active = true;
    assert!(!s.tablet_tool_image());
}
