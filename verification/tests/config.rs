use fht_compositor::cli::{get_version_string, BackendType};
use fht_compositor::config::animation::{
    default_window_animation_duration, default_workspace_switch_animation_duration,
    AnimationConfig, WorkspaceSwitchAnimationDirection,
};
use fht_compositor::config::decoration::{
    default_thickness, deserialize, choose_color, BorderConfig, ColorConfig, DecorationConfig,
    InvalidColor, ParsedColor, Rgba, Single,
};
use fht_compositor::config::general::{
    config_changed, default_cursor_size, default_cursor_theme, default_disable_10bit,
    default_layouts, default_nmaster, CompositorConfig, CursorConfig, Environment,
    InsertWindowStrategy, RenderConfig, WorkspaceLayout,
};
use fht_compositor::config::input::{
    default_keyboard_layout, default_repeat_delay, default_repeat_rate, deserialize_accelprofile,
    deserialize_scrollmethod, deserialize_tap_to_click_behaviour, serialize_accelprofile,
    serialize_scrollmethod, serialize_tap_to_click_behaviour, AccelProfile, InputConfig,
    InvalidValue, KeyboardConfig, MouseConfig, PerDeviceInputConfig, ScrollMethod, TapButtonMap,
};
use fht_compositor::config::rules::{InvalidRegex, WindowPattern, WindowRules};
use fht_compositor::config::ui::{ConfigUi, Content, Slide, UiState};
use fht_compositor::egui::{
    convert_keysym, convert_modifiers, EguiElement, Event, Key, ModifiersState, MouseButton,
    PointerButton,
};
use fht_compositor::config::keybind::Fraction;
use fht_compositor::geometry::{Point, Size};
use fht_compositor::text::{output_name, parse_bool, parse_u32, push_decimal};
use fht_compositor::time::Duration;

#[test]
fn versions() {
    assert_eq!(get_version_string("25", "3", "0", Some("abc")), "25.03 (abc)");
    assert_eq!(get_version_string("25", "3", "1", Some("abc")), "25.03.1 (abc)");
    assert_eq!(get_version_string("25", "11", "0", None), "25.11 (unknown)");
    assert_eq!(get_version_string("25", "", "00", None), "25.00.00 (unknown)");
    assert_ne!(BackendType::Winit, BackendType::Udev);
}

#[test]
fn numbers_and_names() {
    let mut s = String::from("n=");
    push_decimal(&mut s, 0);
    push_decimal(&mut s, 18_446_744_073_709_551_615);
    assert_eq!(s, "n=018446744073709551615");
    assert_eq!(output_name("eDP", 1), "eDP-1");
    for (text, n) in [
        ("24", Some(24)),
        ("+7", Some(7)),
        ("007", Some(7)),
        ("4294967295", Some(u32::MAX)),
        ("4294967296", None),
        ("99999999999999999999999", None),
        ("", None),
        ("+", None),
        ("-1", None),
        ("1 ", None),
        ("1a", None),
        ("++1", None),
    ] {
        assert_eq!(parse_u32(text), n, "{text}");
        assert_eq!(parse_u32(text), text.parse::<u32>().ok(), "{text}");
    }
    assert_eq!(parse_bool("true"), Some(true));
    assert_eq!(parse_bool("false"), Some(false));
    assert_eq!(parse_bool("True"), None);
}

#[test]
fn animations_have_defaults() {
    let a = AnimationConfig::default();
    assert_eq!(a.workspace_switch.duration, 350);
    assert_eq!(a.workspace_switch.direction, WorkspaceSwitchAnimationDirection::Horizontal);
    assert_eq!((a.window_open_close.duration, a.window_geometry.duration), (300, 300));
    assert_eq!(default_workspace_switch_animation_duration(), 350);
    assert_eq!(default_window_animation_duration(), 300);
}

#[test]
fn decorations_have_defaults() {
    let d = DecorationConfig::default();
    assert_eq!(f32::from_bits(d.focused_window_opacity.bits), 1.0);
    assert_eq!(f32::from_bits(d.normal_window_opacity.bits), 1.0);
    assert!(!d.allow_csd);
    let b = BorderConfig::default();
    assert_eq!((b.thickness, default_thickness()), (2, 2));
    assert_eq!(f32::from_bits(b.radius.bits), 10.0);
    let color = |c: ColorConfig| {
        let c = c.components();
        [c.red, c.green, c.blue, c.alpha].map(|x| f32::from_bits(x.bits))
    };
    assert_eq!(color(b.focused_color), [1.0, 0.0, 0.0, 1.0]);
    assert_eq!(color(b.normal_color), [0.5, 0.5, 0.5, 0.5]);
    let one = Single { bits: 1 };
    let start = Rgba { red: one, green: one, blue: one, alpha: one };
    let end = Rgba { red: Single { bits: 2 }, ..start };
    assert_eq!(ColorConfig::Gradient { start, end, angle: one }.components(), start);
}

fn color(text: &str) -> Result<[f32; 4], InvalidColor> {
    deserialize(text).map(|c| [c.red, c.green, c.blue, c.alpha].map(f32::from_bits))
}

#[test]
fn white_space_around_colors_is_dropped() {
    let plain = color("rgb(1,2,3)");
    assert_eq!(plain, Ok([1.0, 2.0, 3.0, 1.0]));
    assert_eq!(color("\u{3000}\u{2003}\trgb(1,2,3)\u{a0}\u{85}\n"), plain);
    // A zero width space does not count as white space.
    assert_eq!(color("\u{200b}rgb(1,2,3)"), Err(InvalidColor));
}

#[test]
fn colors_are_read() {
    assert_eq!(color("#e76B2c"), Ok([231.0, 107.0, 44.0, 1.0]));
    assert_eq!(color("fc0"), Ok([255.0, 204.0, 0.0, 1.0]));
    assert_eq!(color("  rgb(12, 13, 14.5) "), Ok([12.0, 13.0, 14.5, 1.0]));
    assert_eq!(color("rgb(300,-5,0)"), Ok([255.0, 0.0, 0.0, 1.0]));
    // Green, and a gray, by their hue, saturation and lightness.
    assert_eq!(color(" HSL(0, 0%, 100%) "), Ok([255.0, 255.0, 255.0, 1.0]));
    let green = color("hsl(120, 100%, 50%)").unwrap();
    assert!(green[0] < 0.01 && green[1] > 254.9 && green[2] < 0.01, "{green:?}");
    // Without a name the numbers are red, green and blue.
    assert_eq!(color("10,20,30"), Ok([10.0, 20.0, 30.0, 1.0]));
    assert_eq!(color("hsl(1,2)"), Err(InvalidColor));
    assert_eq!(color("cyan"), Err(InvalidColor));
    assert_eq!(color("rgb(1,2)"), Err(InvalidColor));
    assert_eq!(color(""), Err(InvalidColor));
}

#[test]
fn colors_are_chosen_by_name() {
    let c = |n| Some(ParsedColor { red: n, green: n, blue: n, alpha: n });
    assert_eq!(choose_color(c(1), true, c(2), c(3)).ok(), c(1));
    assert_eq!(choose_color(None, true, c(2), c(3)).ok(), c(3));
    assert_eq!(choose_color(None, false, c(2), c(3)).ok(), c(2));
    assert_eq!(choose_color(None, true, c(2), None), Err(InvalidColor));
    assert_eq!(choose_color(None, false, None, c(3)), Err(InvalidColor));
}

#[test]
fn input_has_defaults() {
    let k = KeyboardConfig::default();
    assert_eq!((k.repeat_delay, k.repeat_rate), (250, 25));
    assert!(k.layout.is_empty() && k.rules.is_empty() && k.options.is_empty());
    let xkb = k.get_xkb_config();
    assert_eq!((xkb.layout, xkb.options.as_deref()), ("", Some("")));
    assert_eq!(default_keyboard_layout(), "us");
    assert_eq!((default_repeat_delay(), default_repeat_rate()), (250, 25));
    let m = MouseConfig::default();
    assert_eq!(m.acceleration_profile, AccelProfile::Adaptive);
    assert_eq!(f64::from_bits(m.acceleration_speed.bits), 1.0);
    assert_eq!(m.scroll_method, ScrollMethod::TwoFinger);
    assert_eq!(m.tap_to_click_behaviour, TapButtonMap::LeftRightMiddle);
    assert!(m.disable_while_typing && m.tap_and_drag);
    assert!(!m.left_handed && !m.natural_scrolling && !m.tap_to_click);
    assert!(!m.middle_button_emulation);
    assert!(!PerDeviceInputConfig::default().disable);
    assert!(InputConfig::default().per_device.is_empty());
}

#[test]
fn settings_are_stored_by_numbers() {
    for p in [AccelProfile::Flat, AccelProfile::Adaptive] {
        assert_eq!(deserialize_accelprofile(serialize_accelprofile(&p)), Ok(p));
    }
    for m in [
        ScrollMethod::NoScroll,
        ScrollMethod::TwoFinger,
        ScrollMethod::Edge,
        ScrollMethod::OnButtonDown,
    ] {
        assert_eq!(deserialize_scrollmethod(serialize_scrollmethod(&m)), Ok(m));
    }
    for t in [TapButtonMap::LeftRightMiddle, TapButtonMap::LeftMiddleRight] {
        let n = serialize_tap_to_click_behaviour(&t);
        assert_eq!(deserialize_tap_to_click_behaviour(n), Ok(t));
    }
    assert_eq!(deserialize_accelprofile(0), Ok(AccelProfile::Flat));
    assert_eq!(deserialize_scrollmethod(3), Ok(ScrollMethod::OnButtonDown));
    assert_eq!(deserialize_tap_to_click_behaviour(1), Ok(TapButtonMap::LeftMiddleRight));
    assert_eq!(deserialize_accelprofile(2), Err(InvalidValue { value: 2 }));
    assert_eq!(deserialize_scrollmethod(4), Err(InvalidValue { value: 4 }));
    assert_eq!(deserialize_tap_to_click_behaviour(9), Err(InvalidValue { value: 9 }));
}

fn env(size: Option<&str>, ten_bit: Option<&str>) -> Environment {
    Environment {
        cursor_theme: None,
        cursor_size: size.map(|s| s.to_string()),
        disable_10bit: ten_bit.map(|s| s.to_string()),
        disable_overlay_planes: None,
        render_node: Some("/dev/dri/renderD128".to_string()),
    }
}

#[test]
fn environment_gives_defaults() {
    let c = CursorConfig::from_environment(&env(Some("32"), None));
    assert_eq!((c.name.as_str(), c.size), ("default", 32));
    assert_eq!(CursorConfig::from_environment(&env(Some("big"), None)).size, 24);
    assert_eq!(default_cursor_size(&None), 24);
    assert_eq!(default_cursor_theme(&Some("Adwaita".to_string())), "Adwaita");
    assert!(default_disable_10bit(&Some("true".to_string())));
    assert!(!default_disable_10bit(&Some("1".to_string())));
    let r = RenderConfig::from_environment(&env(None, Some("true")));
    assert!(r.disable_10bit && !r.disable_overlay_planes);
    assert_eq!(r.render_node.as_deref(), Some("/dev/dri/renderD128"));
    assert!(r.damage_color.is_none() && !r.debug_overlay && !r.tile_debug_overlay);
    let c = CompositorConfig::from_environment(&env(None, Some("false")));
    assert!(c.general.cursor_warps && c.general.focus_new_windows && !c.greet);
    assert_eq!(c.general.insert_window_strategy, InsertWindowStrategy::EndOfSlaveStack);
    assert_eq!(c.general.layouts, vec![WorkspaceLayout::Tile]);
    assert_eq!((c.general.nmaster, c.general.outer_gaps, c.general.inner_gaps), (1, 0, 0));
    assert_eq!(f32::from_bits(c.general.mwfact.bits), 0.5);
    assert!(c.autostart.is_empty() && c.keybinds.is_empty() && c.rules.is_empty());
    assert!(c.mousebinds.is_empty() && c.input.per_device.is_empty());
    assert!(!c.renderer.disable_10bit);
    assert_eq!(default_layouts(), vec![WorkspaceLayout::Tile]);
    assert_eq!(default_nmaster(), 1);
}

#[test]
fn configuration_changes_are_noticed() {
    assert_eq!(config_changed(Some(1), Some(2)), (true, Some(2)));
    assert_eq!(config_changed(Some(2), Some(2)), (false, Some(2)));
    assert_eq!(config_changed(None, Some(2)), (true, Some(2)));
    assert_eq!(config_changed(Some(2), None), (false, Some(2)));
    assert_eq!(config_changed(None, None), (false, None));
}

fn pattern(workspace: Option<usize>, title: Option<&str>, app_id: Option<&str>) -> WindowPattern {
    let text = |t: Option<&str>| t.map(|t| t.to_string());
    WindowPattern::new(workspace, text(title), text(app_id)).unwrap()
}

#[test]
fn patterns_match_windows() {
    let p = pattern(None, Some("^fo+$"), None);
    assert!(p.matches("foo", "", 0));
    assert!(!p.matches("foot", "foo", 0));
    let p = pattern(Some(3), None, Some("fire"));
    assert!(p.matches("", "", 3));
    assert!(p.matches("", "org.firefox", 0));
    assert!(!p.matches("fire", "", 0));
    assert!(!pattern(None, None, None).matches("", "", 0));
    let copy = pattern(Some(3), Some("fire"), None);
    assert_eq!(copy.clone(), copy);
    assert_eq!(WindowPattern::default(), pattern(None, None, None));
    assert!(!WindowPattern::default().matches("a", "b", 0));
    assert!(WindowPattern::any_part_matches(Some(1), 1, None, None));
    assert!(WindowPattern::any_part_matches(None, 1, Some(true), Some(false)));
    assert!(WindowPattern::any_part_matches(None, 1, Some(false), Some(true)));
    assert!(!WindowPattern::any_part_matches(Some(2), 1, Some(false), None));
}

#[test]
fn patterns_have_to_be_regular_expressions() {
    let bad = || Some("(".to_string());
    assert_eq!(WindowPattern::new(None, bad(), bad()), Err(InvalidRegex::Title));
    assert_eq!(
        WindowPattern::new(None, Some("a".to_string()), bad()),
        Err(InvalidRegex::AppId)
    );
    let p = pattern(Some(1), Some("a"), None);
    assert_eq!(p.workspace(), Some(1));
    assert_eq!(p.title().as_deref(), Some("a"));
    assert_eq!(p.app_id(), None);
    assert!(p == pattern(Some(1), Some("a"), None));
    assert!(p != pattern(Some(1), Some("b"), None));
    assert!(p != pattern(None, Some("a"), None));
    assert!(p != pattern(Some(1), Some("a"), Some("a")));
    let r = WindowRules::default();
    assert!(r.output.is_none() && r.border.is_none() && r.allow_csd.is_none());
    assert!(r.workspace.is_none());
}

fn message(text: &str) -> Content {
    Content::ReloadError { error: text.to_string() }
}

fn text(ui: &ConfigUi) -> Option<&str> {
    ui.render().map(|c| match c {
        Content::ReloadError { error } => error.as_str(),
        Content::Reloaded { .. } => "",
    })
}

#[test]
fn messages_slide_in_and_out() {
    let at = Duration::from_secs;
    let mut ui = ConfigUi::new();
    assert!(ui.hidden() && text(&ui).is_none());
    assert_eq!(ui.show(message("a"), true, at(1)), Some(Slide::In));
    assert_eq!(text(&ui), Some("a"));
    let a = ui.advance_animations(at(2), true, false);
    assert!(a.ongoing && a.start.is_none());
    // A message that comes while another one moves takes its place.
    assert_eq!(ui.show(message("b"), true, at(2)), Some(Slide::InFromCurrent));
    assert_eq!(text(&ui), Some("b"));
    ui.advance_animations(at(3), true, true);
    assert!(matches!(ui.state, UiState::Shown { .. }));
    ui.advance_animations(at(12), true, false);
    // One that comes while another one is shown does not stay any longer.
    assert_eq!(ui.show(message("c"), true, at(12)), None);
    assert!(matches!(ui.state, UiState::Shown { .. }));
    ui.advance_animations(at(13), true, false);
    assert!(matches!(ui.state, UiState::Shown { .. }));
    let a = ui.advance_animations(at(14), true, false);
    assert_eq!(a.start, Some(Slide::Out));
    assert_eq!(text(&ui), Some("c"));
    let a = ui.advance_animations(at(15), true, true);
    assert!(a.ongoing && ui.hidden());
    assert!(!ui.advance_animations(at(16), true, true).ongoing);
}

#[test]
fn messages_without_animations() {
    let at = Duration::from_secs;
    let mut ui = ConfigUi::new();
    assert_eq!(ui.show(message("a"), false, at(1)), None);
    assert!(matches!(ui.state, UiState::Shown { .. }));
    ui.advance_animations(at(11), false, false);
    assert!(!ui.hidden());
    let a = ui.advance_animations(at(12), false, false);
    assert!(a.start.is_none() && ui.hidden());
}

fn modifiers(ctrl: bool) -> ModifiersState {
    ModifiersState {
        ctrl,
        alt: false,
        shift: true,
        caps_lock: false,
        logo: true,
        num_lock: false,
    }
}

#[test]
fn keys_are_converted() {
    for (raw, key) in [
        (0xff54, Key::ArrowDown),
        (0xff51, Key::ArrowLeft),
        (0xff53, Key::ArrowRight),
        (0xff52, Key::ArrowUp),
        (0xff1b, Key::Escape),
        (0xff09, Key::Tab),
        (0xff08, Key::Backspace),
        (0xff0d, Key::Enter),
        (0x20, Key::Space),
        (0xff63, Key::Insert),
        (0xffff, Key::Delete),
        (0xff50, Key::Home),
        (0xff57, Key::End),
        (0xff55, Key::PageUp),
        (0xff56, Key::PageDown),
        (0x30, Key::Num0),
        (0x39, Key::Num9),
        (0x41, Key::A),
        (0x5a, Key::Z),
    ] {
        assert_eq!(convert_keysym(raw), Some(key));
    }
    assert_eq!(convert_keysym(0x61), None);
    let m = convert_modifiers(modifiers(true));
    assert!(m.ctrl && m.command && m.shift && !m.alt && !m.mac_cmd);
}

#[test]
fn user_interface_gets_events() {
    let mut e = EguiElement::new(Size { w: 10, h: 10 });
    let number = |bits| Fraction { bits };
    assert!(!e.inner.input_event_pointer_button(MouseButton::Left, true, true));
    e.inner.input_event_pointer_position(Point { x: 1, y: 2 });
    assert!(!e.inner.input_event_pointer_axis(number(1), number(2), false));
    assert!(e.inner.input_event_pointer_axis(number(1), number(2), true));
    assert!(!e.inner.input_event_pointer_button(MouseButton::Left, true, false));
    assert!(!e.inner.input_event_pointer_button(MouseButton::Other, true, true));
    assert!(e.inner.input_event_pointer_button(MouseButton::Right, false, true));
    assert!(!e.inner.input_event_keyboard(0x41, true, modifiers(false), "A".to_string(), false));
    assert!(e.inner.input_event_keyboard(0x61, false, modifiers(true), String::new(), true));
    assert!(e.inner.last_modifiers.ctrl);
    let events = e.run();
    assert_eq!(events.len(), 5);
    assert!(matches!(events[0], Event::PointerMoved(Point { x: 1, y: 2 })));
    assert!(matches!(events[1], Event::Scroll { x: Fraction { bits: 1 }, y: Fraction { bits: 2 } }));
    assert!(matches!(
        events[2],
        Event::PointerButton { button: PointerButton::Secondary, pressed: false, .. }
    ));
    assert!(matches!(events[3], Event::Key { key: Key::A, pressed: true, .. }));
    assert!(matches!(&events[4], Event::Text(t) if t == "A"));
    assert!(e.run().is_empty());
}

#[test]
fn user_interface_buffers_are_reused() {
    let mut e = EguiElement::new(Size { w: 10, h: 10 });
    let setup = e.render(1);
    assert!(setup.create_painter && setup.create_buffer);
    let setup = e.render(1);
    assert!(!setup.create_painter && !setup.create_buffer);
    assert!(e.render(2).create_buffer);
    e.set_size(Size { w: 20, h: 20 });
    let setup = e.render(2);
    assert!(!setup.create_painter && setup.create_buffer);
    assert_eq!(e.size, Size { w: 20, h: 20 });
}
