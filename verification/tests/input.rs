use fht_compositor::backend::headless::HeadlessData;
use fht_compositor::backend::Backend;
use fht_compositor::config::keybind::{
    ComplexKeyAction, Fraction, GestureAction, GestureDirection, GesturePattern, KeyActionDesc,
    KeyPattern, MouseAction, MouseInput, MousePattern, SimpleKeyAction,
};
use fht_compositor::config::maps::{KeyBinds, MouseBinds};
use fht_compositor::frame_clock::FrameClock;
use fht_compositor::geometry::{Point, Rectangle, Size};
use fht_compositor::handlers::layer_shell::{KeyboardInteractivity, Layer, LayerSurface};
use fht_compositor::handlers::session_lock::LockState;
use fht_compositor::input::actions::{
    after_activation, ActiveTile, ActiveWindow, FocusMove, KeyAction, KeyActionType, KeyContext,
    KeyEffect,
};
use fht_compositor::input::gesture::{find_gesture_action, SwipeOutcome, SwipeState};
use fht_compositor::input::keyboard::{
    find_keyaction, handle_vt_switch, keyboard_grabbing_layer, FilterResult, KeyEvent, KeyRoute,
    KeyState,
    KeyboardState, RepeatedKey,
};
use fht_compositor::input::pick_surface_grab::{
    LayerShell, PickAnswer, PickButton, PickCandidates, PickLayer, PickLayerShellResult,
    PickSurfaceGrab, PickSurfaceTarget, PickWindow, PickWindowResult,
};
use fht_compositor::input::pointer::{
    nearest_output, on_pointer_axis, on_pointer_button, output_under, pointer_hold, pointer_moves,
    AxisEvent, AxisOutcome, AxisPart, ButtonEvent, ButtonOutcome, Constraint, ConstraintKind,
    FollowFocus, Hold, MotionOutcome, MotionStart, MotionTarget, PointerTarget, RootOwner,
    WheelTurn,
};
use fht_compositor::input::tablet::Proximity;
use fht_compositor::input::InputEvent;
use fht_compositor::output::{OutputState, RedrawState};
use fht_compositor::state::{Fht, OutputEntry, State};

fn state() -> State {
    let mut fht = Fht::new(1);
    for id in [1, 2] {
        fht.outputs.push(OutputEntry {
            id,
            mode: None,
            state: OutputState::new(FrameClock::new(None, false)),
            lock_surface: None,
            lock_backdrop: false,
        });
    }
    State { fht, backend: Backend::from(HeadlessData::new(1).0) }
}

fn context() -> KeyContext {
    KeyContext {
        outputs: vec![1, 2, 3],
        active_output: 3,
        active_window: Some(ActiveWindow { window: 7, maximized: true, fullscreen: false }),
        active_tile: Some(ActiveTile {
            window: 7,
            tiled: false,
            location: Point { x: 10, y: 20 },
            size: Size { w: 100, h: 30 },
        }),
        active_workspace: 8,
    }
}

fn action(action_type: KeyActionType) -> KeyAction {
    KeyAction { action_type, allow_while_locked: false }
}

fn effect(action_type: KeyActionType) -> KeyEffect {
    state().process_key_action(action(action_type), &context())
}

#[test]
fn key_actions_have_effects() {
    assert!(matches!(effect(KeyActionType::ReloadConfig), KeyEffect::ReloadConfig));
    assert!(matches!(
        effect(KeyActionType::RunCommand("foot".to_string())),
        KeyEffect::Spawn(cmd) if cmd == "foot"
    ));
    assert!(matches!(effect(KeyActionType::SelectNextLayout), KeyEffect::SelectNextLayout));
    assert!(matches!(effect(KeyActionType::SelectPreviousLayout), KeyEffect::SelectPreviousLayout));
    assert!(matches!(
        effect(KeyActionType::ChangeMwfact(Fraction { bits: 5 })),
        KeyEffect::ChangeMwfact(Fraction { bits: 5 })
    ));
    assert!(matches!(effect(KeyActionType::ChangeNmaster(-1)), KeyEffect::ChangeNmaster(-1)));
    assert!(matches!(
        effect(KeyActionType::ChangeProportion(Fraction { bits: 6 })),
        KeyEffect::ChangeProportion { window: 7, delta: Fraction { bits: 6 } }
    ));
    assert!(matches!(
        effect(KeyActionType::MaximizeFocusedWindow),
        KeyEffect::Maximize { window: 7, maximized: false }
    ));
    assert!(matches!(
        effect(KeyActionType::FullscreenFocusedWindow),
        KeyEffect::Fullscreen { window: 7, fullscreen: true }
    ));
    assert!(matches!(
        effect(KeyActionType::FloatFocusedWindow),
        KeyEffect::ArrangeTiled { window: Some((7, true)) }
    ));
    assert!(matches!(
        effect(KeyActionType::MoveFloatingWindow([5, -7])),
        KeyEffect::MoveTile(Point { x: 15, y: 13 })
    ));
    assert!(matches!(
        effect(KeyActionType::ResizeFloatingWindow([5, -7])),
        KeyEffect::ResizeTile(Size { w: 105, h: 25 })
    ));
    assert!(matches!(effect(KeyActionType::FocusNextWindow), KeyEffect::ActivateNextTile));
    assert!(matches!(effect(KeyActionType::FocusPreviousWindow), KeyEffect::ActivatePreviousTile));
    assert!(matches!(effect(KeyActionType::SwapWithNextWindow), KeyEffect::SwapWithNextTile));
    assert!(matches!(
        effect(KeyActionType::SwapWithPreviousWindow),
        KeyEffect::SwapWithPreviousTile
    ));
    assert!(matches!(effect(KeyActionType::FocusNextOutput), KeyEffect::FocusOutput(1)));
    assert!(matches!(effect(KeyActionType::FocusPreviousOutput), KeyEffect::FocusOutput(2)));
    assert!(matches!(effect(KeyActionType::CloseFocusedWindow), KeyEffect::CloseWindow(7)));
    assert!(matches!(effect(KeyActionType::FocusWorkspace(4)), KeyEffect::FocusWorkspace(4)));
    assert!(matches!(effect(KeyActionType::FocusNextWorkspace), KeyEffect::FocusWorkspace(8)));
    assert!(matches!(effect(KeyActionType::FocusPreviousWorkspace), KeyEffect::FocusWorkspace(7)));
    assert!(matches!(
        effect(KeyActionType::SendFocusedWindowToWorkspace(9)),
        KeyEffect::SendToWorkspace { window: 7, workspace: 8 }
    ));
    assert!(matches!(
        effect(KeyActionType::SendFocusedWindowToWorkspace(3)),
        KeyEffect::SendToWorkspace { window: 7, workspace: 3 }
    ));
    assert!(matches!(effect(KeyActionType::Disabled), KeyEffect::Nothing));
}

#[test]
fn key_actions_without_a_window_do_nothing() {
    let empty = KeyContext {
        outputs: vec![1],
        active_output: 1,
        active_window: None,
        active_tile: None,
        active_workspace: 0,
    };
    for t in [
        KeyActionType::MaximizeFocusedWindow,
        KeyActionType::FullscreenFocusedWindow,
        KeyActionType::CloseFocusedWindow,
        KeyActionType::MoveFloatingWindow([1, 1]),
        KeyActionType::ResizeFloatingWindow([1, 1]),
        KeyActionType::SendFocusedWindowToWorkspace(1),
        KeyActionType::FocusNextOutput,
        KeyActionType::FocusPreviousOutput,
    ] {
        assert!(matches!(state().process_key_action(action(t), &empty), KeyEffect::Nothing));
    }
    assert!(matches!(
        state().process_key_action(action(KeyActionType::FocusPreviousWorkspace), &empty),
        KeyEffect::FocusWorkspace(0)
    ));
    let mut tiled = context();
    tiled.active_tile.as_mut().unwrap().tiled = true;
    let moved = state().process_key_action(action(KeyActionType::MoveFloatingWindow([1, 1])), &tiled);
    assert!(matches!(moved, KeyEffect::Nothing));
}

#[test]
fn locked_sessions_ignore_most_actions() {
    let mut s = state();
    s.fht.lock_state = LockState::Locked(1);
    s.process_key_action(action(KeyActionType::Quit), &context());
    assert!(!s.fht.stop);
    let allowed = KeyAction { action_type: KeyActionType::Quit, allow_while_locked: true };
    s.process_key_action(allowed, &context());
    assert!(s.fht.stop);
}

#[test]
fn descriptions_become_actions() {
    let a = KeyAction::from(KeyActionDesc::Simple(SimpleKeyAction::Quit));
    assert!(matches!(a.action_type, KeyActionType::Quit) && !a.allow_while_locked);
    let a = KeyAction::from(KeyActionDesc::Complex {
        action: ComplexKeyAction::ChangeWindowProportion(Fraction { bits: 1 }),
        allow_while_locked: true,
    });
    assert!(matches!(a.action_type, KeyActionType::ChangeProportion(_)) && a.allow_while_locked);
    let a = KeyAction::from(KeyActionDesc::Complex {
        action: ComplexKeyAction::SendToWorkspace(2),
        allow_while_locked: false,
    });
    assert!(matches!(a.action_type, KeyActionType::SendFocusedWindowToWorkspace(2)));
    let a = KeyAction::from(KeyActionDesc::Complex {
        action: ComplexKeyAction::RunCommand("x".to_string()),
        allow_while_locked: false,
    });
    assert!(matches!(a.clone().action_type, KeyActionType::RunCommand(c) if c == "x"));
    assert!(matches!(a.action_type, KeyActionType::RunCommand(c) if c == "x"));
    assert!(matches!(KeyAction::none().action_type, KeyActionType::Disabled));
}

#[test]
fn focus_follows_activation() {
    let geo = Rectangle::new(0, 0, 5, 5);
    assert_eq!(
        after_activation(Some((3, geo)), true),
        FocusMove { warp: Some(geo), focus: Some(3) }
    );
    assert_eq!(after_activation(Some((3, geo)), false), FocusMove { warp: None, focus: Some(3) });
    assert_eq!(after_activation(None, true), FocusMove { warp: None, focus: None });
}

#[test]
fn mouse_actions() {
    let mut s = state();
    assert_eq!(s.process_mouse_action(MouseAction::SwapTile, Some(4)), Some(4));
    assert_eq!(s.process_mouse_action(MouseAction::SwapTile, None), None);
    assert_eq!(s.process_mouse_action(MouseAction::ResizeTile, Some(4)), None);
    assert!(!s.begin_swap(true, false, true));
    assert!(!s.fht.interactive_grab_active);
    assert!(s.begin_swap(true, true, true));
    assert!(s.fht.interactive_grab_active);
}

fn binds() -> KeyBinds {
    let mut binds = KeyBinds::new();
    let pattern = KeyPattern { modifiers: 8, keysym: 113 };
    binds.insert(pattern.key(), KeyActionDesc::Simple(SimpleKeyAction::Quit));
    binds
}

fn mouse_binds(pattern: MousePattern) -> MouseBinds {
    let mut binds = MouseBinds::new();
    binds.insert(pattern.key(), MouseAction::SwapTile);
    binds
}

#[test]
fn patterns_are_told_apart_by_their_keys() {
    let inputs = [
        MouseInput::Button(0),
        MouseInput::Button(u32::MAX),
        MouseInput::WheelUp,
        MouseInput::WheelDown,
        MouseInput::WheelLeft,
        MouseInput::WheelRight,
    ];
    for (i, a) in inputs.iter().enumerate() {
        for (j, b) in inputs.iter().enumerate() {
            assert_eq!(a.code() == b.code(), i == j);
        }
    }
    assert_eq!(MouseInput::Button(272).code(), 272);
    assert_eq!(MousePattern { modifiers: 4, input: MouseInput::Button(272) }.key(), (4, 272));
    assert_eq!(KeyPattern { modifiers: 8, keysym: 113 }.key(), (8, 113));
    // A binding that is made again replaces the first one.
    let mut binds = binds();
    binds.insert((8, 113), KeyActionDesc::Simple(SimpleKeyAction::Disabled));
    let (pattern, action) = find_keyaction(&binds, 8, 113).unwrap();
    assert_eq!(pattern.key(), (8, 113));
    assert!(matches!(action.action_type, KeyActionType::Disabled));
}

fn key(state: KeyState, raw: u32, modifiers: u32) -> KeyEvent {
    KeyEvent { state, modified: raw, raw: Some(raw), modifiers }
}

#[test]
fn bound_keys_are_intercepted_both_ways() {
    let mut k = KeyboardState::new();
    let press = k.filter_key(&binds(), key(KeyState::Pressed, 113, 8), false, false);
    match press.filter {
        FilterResult::Intercept(p, a) => {
            assert_eq!(p, KeyPattern { modifiers: 8, keysym: 113 });
            assert!(matches!(a.action_type, KeyActionType::Quit));
        }
        other => panic!("unexpected {other:?}"),
    }
    assert!(k.suppressed_keys.contains(&113));
    let release = k.filter_key(&binds(), key(KeyState::Released, 113, 0), false, false);
    match release.filter {
        FilterResult::Intercept(p, a) => {
            assert_eq!(p, KeyPattern::default());
            assert!(matches!(a.action_type, KeyActionType::Disabled));
        }
        other => panic!("unexpected {other:?}"),
    }
    assert!(k.suppressed_keys.is_empty());
    let again = k.filter_key(&binds(), key(KeyState::Released, 113, 8), false, false);
    assert!(matches!(again.filter, FilterResult::Forward));
}

#[test]
fn unbound_keys_are_forwarded() {
    let mut k = KeyboardState::new();
    let r = k.filter_key(&binds(), key(KeyState::Pressed, 113, 0), false, false);
    assert!(matches!(r.filter, FilterResult::Forward));
    let unknown = KeyEvent { state: KeyState::Pressed, modified: 0, raw: None, modifiers: 8 };
    assert!(matches!(
        k.filter_key(&binds(), unknown, false, false).filter,
        FilterResult::Forward
    ));
    // A client that inhibits shortcuts gets bound keys, too.
    let r = k.filter_key(&binds(), key(KeyState::Pressed, 113, 8), false, true);
    assert!(matches!(r.filter, FilterResult::Forward));
    assert!(find_keyaction(&binds(), 8, 113).is_some());
    assert!(find_keyaction(&binds(), 9, 113).is_none());
}

#[test]
fn repeating_ends_with_the_key() {
    let mut k = KeyboardState::new();
    k.repeated = Some(RepeatedKey { token: 5, keysym: 113 });
    let r = k.filter_key(&binds(), key(KeyState::Released, 112, 0), false, false);
    assert_eq!(r.cancel_repeat, None);
    let r = k.filter_key(&binds(), key(KeyState::Released, 113, 0), false, false);
    assert_eq!(r.cancel_repeat, Some(5));
    assert_eq!(k.repeated, None);
}

#[test]
fn virtual_terminals() {
    assert_eq!(handle_vt_switch(true, KeyState::Pressed, 0x1008fe01), Some(1));
    assert_eq!(handle_vt_switch(true, KeyState::Pressed, 0x1008fe0c), Some(12));
    assert_eq!(handle_vt_switch(true, KeyState::Pressed, 0x1008fe0d), None);
    assert_eq!(handle_vt_switch(true, KeyState::Released, 0x1008fe01), None);
    assert_eq!(handle_vt_switch(false, KeyState::Pressed, 0x1008fe01), None);
    let mut k = KeyboardState::new();
    let r = k.filter_key(&KeyBinds::new(), key(KeyState::Pressed, 0x1008fe03, 0), true, true);
    assert_eq!(r.switch_vt, Some(3));
    assert!(matches!(r.filter, FilterResult::Intercept(_, _)));
    assert!(k.suppressed_keys.contains(&0x1008fe03));
}

fn layer(surface: u64, layer: Layer, interactivity: KeyboardInteractivity) -> LayerSurface {
    LayerSurface { surface, layer, interactivity, mapped: true }
}

#[test]
fn exclusive_layers_grab_the_keyboard() {
    let a = layer(1, Layer::Top, KeyboardInteractivity::Exclusive);
    let b = layer(2, Layer::Overlay, KeyboardInteractivity::OnDemand);
    let c = layer(3, Layer::Bottom, KeyboardInteractivity::Exclusive);
    assert_eq!(keyboard_grabbing_layer(&[a, b, c]), Some(a));
    assert_eq!(keyboard_grabbing_layer(&[b, c]), None);
    let d = layer(4, Layer::Overlay, KeyboardInteractivity::Exclusive);
    assert_eq!(keyboard_grabbing_layer(&[a, d]), Some(d));
    assert_eq!(keyboard_grabbing_layer(&[a, LayerSurface { mapped: false, ..d }]), Some(a));
}

#[test]
fn layers_come_before_bindings() {
    let mut k = KeyboardState::new();
    let grab = layer(4, Layer::Overlay, KeyboardInteractivity::Exclusive);
    let press = key(KeyState::Pressed, 113, 8);
    assert!(matches!(
        k.on_keyboard_input(&[grab], &binds(), press, false, false),
        KeyRoute::Layer(4)
    ));
    assert!(k.suppressed_keys.is_empty());
    match k.on_keyboard_input(&[], &binds(), press, false, false) {
        KeyRoute::Bindings(o) => assert!(matches!(o.filter, FilterResult::Intercept(_, _))),
        other => panic!("unexpected {other:?}"),
    }
}

#[test]
fn buttons() {
    let pattern = MousePattern { modifiers: 4, input: MouseInput::Button(272) };
    let binds = mouse_binds(pattern);
    let press = ButtonEvent { pressed: true, button: Some(272), modifiers: 4, grabbed: false };
    let top = layer(9, Layer::Top, KeyboardInteractivity::OnDemand);
    let low = layer(9, Layer::Bottom, KeyboardInteractivity::OnDemand);
    assert_eq!(
        on_pointer_button(&binds, press, Some(top), Some(5)),
        ButtonOutcome { focus_layer: Some(9), activate: None, action: Some(MouseAction::SwapTile) }
    );
    assert_eq!(
        on_pointer_button(&binds, ButtonEvent { modifiers: 0, ..press }, Some(low), Some(5)),
        ButtonOutcome { focus_layer: None, activate: Some(5), action: None }
    );
    let nothing = ButtonOutcome { focus_layer: None, activate: None, action: None };
    let release = ButtonEvent { pressed: false, ..press };
    assert_eq!(on_pointer_button(&binds, release, Some(top), Some(5)), nothing);
    let grabbed = ButtonEvent { grabbed: true, ..press };
    assert_eq!(on_pointer_button(&binds, grabbed, Some(top), Some(5)), nothing);
    let odd = ButtonEvent { button: None, ..press };
    assert_eq!(on_pointer_button(&binds, odd, None, None), nothing);
}

#[test]
fn wheels() {
    let event = AxisEvent {
        vertical_steps: Some(WheelTurn::Positive),
        horizontal_steps: Some(WheelTurn::Negative),
        vertical_moves: true,
        horizontal_moves: false,
        finger: false,
        vertical_rest: true,
        horizontal_rest: true,
        modifiers: 1,
    };
    let bind = |input| mouse_binds(MousePattern { modifiers: 1, input });
    let run = AxisOutcome::Run(MouseAction::SwapTile);
    assert_eq!(on_pointer_axis(&bind(MouseInput::WheelUp), event), run);
    assert_eq!(on_pointer_axis(&bind(MouseInput::WheelLeft), event), run);
    let none = AxisPart { value: false, steps: false, stop: false };
    let forwarded = AxisOutcome::Forward {
        horizontal: none,
        vertical: AxisPart { value: true, steps: true, stop: false },
    };
    assert_eq!(on_pointer_axis(&bind(MouseInput::WheelDown), event), forwarded);
    assert_eq!(on_pointer_axis(&bind(MouseInput::WheelRight), event), forwarded);
    let finger = AxisEvent {
        vertical_steps: None,
        horizontal_steps: None,
        vertical_moves: false,
        finger: true,
        ..event
    };
    let stop = AxisPart { value: false, steps: false, stop: true };
    assert_eq!(
        on_pointer_axis(&MouseBinds::new(), finger),
        AxisOutcome::Forward { horizontal: stop, vertical: stop }
    );
    let down = AxisEvent { vertical_steps: Some(WheelTurn::Negative), ..event };
    assert_eq!(on_pointer_axis(&bind(MouseInput::WheelDown), down), run);
    let right = AxisEvent { horizontal_steps: Some(WheelTurn::Positive), ..event };
    assert_eq!(on_pointer_axis(&bind(MouseInput::WheelRight), right), run);
    let zero = AxisEvent {
        vertical_steps: Some(WheelTurn::Zero),
        horizontal_steps: Some(WheelTurn::Zero),
        ..event
    };
    assert!(matches!(
        on_pointer_axis(&bind(MouseInput::WheelUp), zero),
        AxisOutcome::Forward { .. }
    ));
}

#[test]
fn constraints_hold_the_pointer() {
    let c = |kind, active, inside| Some(Constraint { kind, active, inside });
    let (locked, confined) = (ConstraintKind::Locked, ConstraintKind::Confined);
    assert_eq!(pointer_hold(None), Hold::Free);
    assert_eq!(pointer_hold(c(locked, false, None)), Hold::Free);
    assert_eq!(pointer_hold(c(locked, true, None)), Hold::Locked);
    assert_eq!(pointer_hold(c(locked, true, Some(false))), Hold::Free);
    assert_eq!(pointer_hold(c(confined, true, Some(true))), Hold::Confined);
    assert_eq!(pointer_hold(c(confined, true, None)), Hold::Free);
    let t = |same_surface, in_region| MotionTarget { same_surface, in_region };
    assert!(pointer_moves(Hold::Free, t(false, false)));
    assert!(!pointer_moves(Hold::Locked, t(true, true)));
    assert!(pointer_moves(Hold::Confined, t(true, true)));
    assert!(!pointer_moves(Hold::Confined, t(true, false)));
    let s = state();
    assert!(s.fht.activate_pointer_constraint(c(locked, false, None)));
    assert!(!s.fht.activate_pointer_constraint(c(locked, true, None)));
    assert!(!s.fht.activate_pointer_constraint(c(locked, false, Some(false))));
    assert!(!s.fht.activate_pointer_constraint(None));
}

#[test]
fn pointers_are_kept_on_outputs() {
    assert_eq!(output_under(&[false, true, true]), Some(1));
    assert_eq!(output_under(&[false]), None);
    assert_eq!(nearest_output(&[5, 3, 3]), Some(1));
    assert_eq!(nearest_output(&[]), None);
    let mut s = state();
    let locked = Constraint { kind: ConstraintKind::Locked, active: true, inside: None };
    assert_eq!(s.on_pointer_motion(Some(locked), &[false], &[4]), MotionStart::Locked);
    assert_eq!(
        s.on_pointer_motion(None, &[true, false], &[0, 7]),
        MotionStart::Clamp { output: 0, confined: false }
    );
    assert_eq!(s.on_pointer_motion(None, &[true], &[0]), MotionStart::Free { confined: false });
    assert_eq!(s.on_pointer_motion(None, &[], &[]), MotionStart::Free { confined: false });
    let inside = MotionTarget { same_surface: true, in_region: true };
    let outside = MotionTarget { same_surface: true, in_region: false };
    let under = Some(PointerTarget::Window(4));
    assert_eq!(
        s.finish_pointer_motion(Some(2), true, inside, under, None, true),
        MotionOutcome::Move(FollowFocus::ActivateWindow(4))
    );
    assert_eq!(s.fht.active_output, 2);
    assert_eq!(
        s.finish_pointer_motion(None, true, outside, under, None, true),
        MotionOutcome::Stay
    );
    assert_eq!(
        s.finish_pointer_motion(None, false, outside, under, None, false),
        MotionOutcome::Move(FollowFocus::Nothing)
    );
}

#[test]
fn focus_follows_the_pointer() {
    let s = state();
    let on_demand = layer(6, Layer::Top, KeyboardInteractivity::OnDemand);
    let surface = Some(PointerTarget::WlSurface(1));
    let owner = |window, layer| Some(RootOwner { window, layer });
    let follow = |under, root| s.handle_focus_follows_mouse(under, root);
    let window = Some(PointerTarget::Window(3));
    assert_eq!(
        s.on_pointer_motion_absolute(window, None, true, false),
        FollowFocus::ActivateWindow(3)
    );
    assert_eq!(s.on_pointer_motion_absolute(window, None, true, true), FollowFocus::Nothing);
    assert_eq!(s.on_pointer_motion_absolute(window, None, false, false), FollowFocus::Nothing);
    assert_eq!(follow(None, None), FollowFocus::Nothing);
    assert_eq!(follow(surface, None), FollowFocus::Nothing);
    assert_eq!(follow(surface, owner(Some(3), None)), FollowFocus::FocusWindow(3));
    assert_eq!(follow(surface, owner(None, Some(on_demand))), FollowFocus::FocusLayer(6));
    assert_eq!(follow(surface, owner(None, None)), FollowFocus::Nothing);
    assert_eq!(
        follow(Some(PointerTarget::LayerSurface(on_demand)), None),
        FollowFocus::FocusLayer(6)
    );
    let low = layer(6, Layer::Bottom, KeyboardInteractivity::OnDemand);
    assert_eq!(follow(Some(PointerTarget::LayerSurface(low)), None), FollowFocus::Nothing);
    let mut s = state();
    let window = Some(PointerTarget::Window(8));
    assert_eq!(s.move_pointer(window, None, true, false), FollowFocus::ActivateWindow(8));
    assert_eq!(s.move_pointer(window, None, true, true), FollowFocus::Nothing);
    assert!(s.fht.outputs.iter().all(|o| o.state.redraw_state == RedrawState::Queued));
}

fn swipe(distance: u64) -> SwipeState {
    SwipeState {
        direction: None,
        past_threshold: true,
        horizontal: true,
        rightwards: false,
        downwards: false,
        distance,
    }
}

fn pattern(direction: GestureDirection) -> GesturePattern {
    GesturePattern { fingers: 3, min_swipe_distance: 50, direction }
}

#[test]
fn swipe_directions() {
    let s = swipe(10);
    assert_eq!(s.detect_direction(), Some(GestureDirection::Left));
    let right = SwipeState { rightwards: true, ..s };
    assert_eq!(right.detect_direction(), Some(GestureDirection::Right));
    let up = SwipeState { horizontal: false, ..s };
    assert_eq!(up.detect_direction(), Some(GestureDirection::Up));
    let down = SwipeState { horizontal: false, downwards: true, ..s };
    assert_eq!(down.detect_direction(), Some(GestureDirection::Down));
    assert_eq!(SwipeState { past_threshold: false, ..s }.detect_direction(), None);
    let known = SwipeState {
        past_threshold: false,
        direction: Some(GestureDirection::Up),
        ..s
    };
    assert_eq!(known.detect_direction(), Some(GestureDirection::Up));
}

#[test]
fn swipes_switch_workspaces() {
    let next = (GestureAction::FocusNextWorkspace, pattern(GestureDirection::Any));
    let mut s = state();
    s.on_gesture_swipe_begin(3);
    assert_eq!(
        s.on_gesture_swipe_update(Some(swipe(60)), &[next], 4),
        SwipeOutcome::FollowSwipe(GestureDirection::Left)
    );
    assert_eq!(s.fht.outputs[0].state.redraw_state, RedrawState::Queued);
    assert_eq!(s.on_gesture_swipe_update(Some(swipe(60)), &[next], 8), SwipeOutcome::Swallow);
    let right = SwipeState { rightwards: true, ..swipe(60) };
    assert_eq!(s.on_gesture_swipe_update(Some(right), &[next], 4), SwipeOutcome::Swallow);
    let previous = (GestureAction::FocusPreviousWorkspace, pattern(GestureDirection::Right));
    assert_eq!(
        s.on_gesture_swipe_update(Some(right), &[previous], 1),
        SwipeOutcome::FollowSwipe(GestureDirection::Right)
    );
    assert_eq!(s.on_gesture_swipe_update(Some(right), &[previous], 0), SwipeOutcome::Swallow);
    assert_eq!(s.on_gesture_swipe_update(Some(swipe(49)), &[next], 4), SwipeOutcome::Forward);
    assert_eq!(s.on_gesture_swipe_update(None, &[next], 4), SwipeOutcome::Forward);
    let early = SwipeState { past_threshold: false, ..swipe(60) };
    assert_eq!(
        s.on_gesture_swipe_update(Some(early), &[next], 4),
        SwipeOutcome::TrackAndForward
    );
    s.on_gesture_swipe_end();
    assert_eq!(s.fht.current_swipe_fingers, None);
    assert_eq!(s.on_gesture_swipe_update(Some(swipe(60)), &[next], 4), SwipeOutcome::Forward);
}

#[test]
fn swipes_run_an_action_once() {
    let other = (GestureAction::Other(2), pattern(GestureDirection::Left));
    let mut s = state();
    s.on_gesture_swipe_begin(3);
    assert_eq!(
        s.on_gesture_swipe_update(Some(swipe(60)), &[other], 4),
        SwipeOutcome::Run(GestureAction::Other(2))
    );
    assert_eq!(s.on_gesture_swipe_update(Some(swipe(90)), &[other], 4), SwipeOutcome::Forward);
    s.on_gesture_swipe_begin(3);
    assert_eq!(
        s.on_gesture_swipe_update(Some(swipe(60)), &[other], 4),
        SwipeOutcome::Run(GestureAction::Other(2))
    );
    assert_eq!(find_gesture_action(&[other], 3, 60, GestureDirection::Up), None);
    assert_eq!(
        find_gesture_action(&[other], 3, 50, GestureDirection::Left),
        Some(GestureAction::Other(2))
    );
}

fn shell(namespace: &str) -> LayerShell {
    LayerShell {
        namespace: namespace.to_string(),
        output: "DP-1".to_string(),
        layer: Layer::Top,
        keyboard_interactivity: KeyboardInteractivity::Never,
    }
}

fn nothing() -> PickCandidates {
    PickCandidates {
        overlay: None,
        fullscreen: None,
        top: None,
        window: None,
        bottom: None,
        background: None,
    }
}

#[test]
fn picking_windows() {
    let fht = Fht::new(0);
    let grab = PickSurfaceGrab { target: PickSurfaceTarget::Window };
    let pick = |c| grab.button(&fht, 0x110, true, c);
    assert!(matches!(pick(nothing()), PickButton::EndGrab(None)));
    let c = PickCandidates { window: Some(5), ..nothing() };
    assert!(matches!(
        pick(c),
        PickButton::EndGrab(Some(PickAnswer::Window(PickWindowResult::Picked(5))))
    ));
    let c = PickCandidates {
        fullscreen: Some(PickWindow { window: 4, hit: true }),
        window: Some(5),
        ..nothing()
    };
    assert!(matches!(
        pick(c),
        PickButton::EndGrab(Some(PickAnswer::Window(PickWindowResult::Picked(4))))
    ));
    // What is there hides what is below, even where it is not hit.
    let c = PickCandidates {
        overlay: Some(PickLayer { layer: shell("bar"), hit: false }),
        window: Some(5),
        ..nothing()
    };
    assert!(matches!(pick(c), PickButton::EndGrab(None)));
    let c = PickCandidates {
        top: Some(PickLayer { layer: shell("bar"), hit: true }),
        ..nothing()
    };
    assert!(matches!(
        pick(c),
        PickButton::EndGrab(Some(PickAnswer::Window(PickWindowResult::NotAWindow)))
    ));
    assert!(matches!(
        grab.button(&fht, 0x111, true, nothing()),
        PickButton::PassThrough
    ));
    assert!(matches!(
        grab.button(&fht, 0x110, false, nothing()),
        PickButton::PassThrough
    ));
    assert!(matches!(
        grab.target.cancel(),
        PickAnswer::Window(PickWindowResult::Cancelled)
    ));
}

#[test]
fn picking_layers() {
    let mut fht = Fht::new(0);
    let grab = PickSurfaceGrab { target: PickSurfaceTarget::LayerSurface };
    let low = || PickCandidates {
        background: Some(PickLayer { layer: shell("wall"), hit: true }),
        ..nothing()
    };
    match grab.button(&fht, 0x110, true, low()) {
        PickButton::EndGrab(Some(PickAnswer::LayerShell(PickLayerShellResult::Picked(l)))) => {
            assert_eq!(l.namespace, "wall")
        }
        other => panic!("unexpected {other:?}"),
    }
    assert!(matches!(
        grab.target.picked_window(1),
        PickAnswer::LayerShell(PickLayerShellResult::NotALayerShell)
    ));
    assert!(matches!(
        grab.target.cancel(),
        PickAnswer::LayerShell(PickLayerShellResult::Cancelled)
    ));
    fht.lock_state = LockState::Locking(1);
    assert!(matches!(
        grab.button(&fht, 0x110, true, low()),
        PickButton::EndGrab(None)
    ));
}

#[test]
fn input_turns_outputs_on() {
    let mut s = state();
    let r = s.process_input_event(InputEvent::Keyboard { pressed: true });
    assert!(r.notify_activity && r.enable_outputs);
    let r = s.process_input_event(InputEvent::Keyboard { pressed: false });
    assert!(!r.notify_activity && !r.enable_outputs);
    assert!(s.process_input_event(InputEvent::PointerMotion).enable_outputs);
    assert!(s.process_input_event(InputEvent::DeviceAdded).enable_outputs);
    assert!(!s.process_input_event(InputEvent::DeviceRemoved).enable_outputs);
    assert!(!s.process_input_event(InputEvent::GestureSwipeUpdate).enable_outputs);
    assert!(s.fht.outputs.iter().all(|o| o.state.redraw_state == RedrawState::Queued));
}

#[test]
fn tablets() {
    let s = state();
    assert_eq!(s.tablet_target(), Some(1));
    assert_eq!(s.on_tablet_tool_axis(true, true), Some(true));
    assert_eq!(s.on_tablet_tool_axis(true, false), Some(false));
    assert_eq!(s.on_tablet_tool_proximity(Some(4), true, true, true), Proximity::In(4));
    assert_eq!(s.on_tablet_tool_proximity(Some(4), true, true, false), Proximity::Out);
    assert_eq!(s.on_tablet_tool_proximity(None, true, true, true), Proximity::Nothing);
    assert_eq!(s.on_tablet_tool_proximity(Some(4), false, true, true), Proximity::Nothing);
    assert!(s.on_tablet_tool_tip(true, true));
    assert!(!s.on_tablet_tool_tip(true, false));
    let empty = State { fht: Fht::new(0), backend: Backend::from(HeadlessData::new(1).0) };
    assert_eq!(empty.on_tablet_tool_axis(true, true), None);
}
