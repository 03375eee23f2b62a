//! Input for the user interface of the compositor itself.
use vstd::prelude::*;

use crate::config::keybind::Fraction;
use crate::geometry::{Point, Size};

verus! {

/// A key, as the user interface knows it.
#[derive(Clone, Copy, Debug, PartialEq, Eq, Structural)]
pub enum Key {
    ArrowDown,
    ArrowLeft,
    ArrowRight,
    ArrowUp,
    Escape,
    Tab,
    Backspace,
    Enter,
    Space,
    Insert,
    Delete,
    Home,
    End,
    PageUp,
    PageDown,
    Num0,
    Num1,
    Num2,
    Num3,
    Num4,
    Num5,
    Num6,
    Num7,
    Num8,
    Num9,
    A,
    B,
    C,
    D,
    E,
    F,
    G,
    H,
    I,
    J,
    K,
    L,
    M,
    N,
    O,
    P,
    Q,
    R,
    S,
    T,
    U,
    V,
    W,
    X,
    Y,
    Z,
}

/// The symbol of a key.
pub open spec fn key_symbol(key: Key) -> u32 {
    match key {
        Key::ArrowDown => 0xff54,
        Key::ArrowLeft => 0xff51,
        Key::ArrowRight => 0xff53,
        Key::ArrowUp => 0xff52,
        Key::Escape => 0xff1b,
        Key::Tab => 0xff09,
        Key::Backspace => 0xff08,
        Key::Enter => 0xff0d,
        Key::Space => 0x0020,
        Key::Insert => 0xff63,
        Key::Delete => 0xffff,
        Key::Home => 0xff50,
        Key::End => 0xff57,
        Key::PageUp => 0xff55,
        Key::PageDown => 0xff56,
        Key::Num0 => 0x0030,
        Key::Num1 => 0x0031,
        Key::Num2 => 0x0032,
        Key::Num3 => 0x0033,
        Key::Num4 => 0x0034,
        Key::Num5 => 0x0035,
        Key::Num6 => 0x0036,
        Key::Num7 => 0x0037,
        Key::Num8 => 0x0038,
        Key::Num9 => 0x0039,
        Key::A => 0x0041,
        Key::B => 0x0042,
        Key::C => 0x0043,
        Key::D => 0x0044,
        Key::E => 0x0045,
        Key::F => 0x0046,
        Key::G => 0x0047,
        Key::H => 0x0048,
        Key::I => 0x0049,
        Key::J => 0x004a,
        Key::K => 0x004b,
        Key::L => 0x004c,
        Key::M => 0x004d,
        Key::N => 0x004e,
        Key::O => 0x004f,
        Key::P => 0x0050,
        Key::Q => 0x0051,
        Key::R => 0x0052,
        Key::S => 0x0053,
        Key::T => 0x0054,
        Key::U => 0x0055,
        Key::V => 0x0056,
        Key::W => 0x0057,
        Key::X => 0x0058,
        Key::Y => 0x0059,
        Key::Z => 0x005a,
    }
}

/// Convert the symbol of a key to what the user interface knows it by. Most keys are not known.
pub fn convert_keysym(raw: u32) -> (key: Option<Key>)
    ensures
        key matches Some(key) ==> key_symbol(key) == raw,
        key is None ==> forall|k: Key| #[trigger] key_symbol(k) != raw,
{
    Some(match raw {
        0xff54 => Key::ArrowDown,
        0xff51 => Key::ArrowLeft,
        0xff53 => Key::ArrowRight,
        0xff52 => Key::ArrowUp,
        0xff1b => Key::Escape,
        0xff09 => Key::Tab,
        0xff08 => Key::Backspace,
        0xff0d => Key::Enter,
        0x0020 => Key::Space,
        0xff63 => Key::Insert,
        0xffff => Key::Delete,
        0xff50 => Key::Home,
        0xff57 => Key::End,
        0xff55 => Key::PageUp,
        0xff56 => Key::PageDown,
        0x0030 => Key::Num0,
        0x0031 => Key::Num1,
        0x0032 => Key::Num2,
        0x0033 => Key::Num3,
        0x0034 => Key::Num4,
        0x0035 => Key::Num5,
        0x0036 => Key::Num6,
        0x0037 => Key::Num7,
        0x0038 => Key::Num8,
        0x0039 => Key::Num9,
        0x0041 => Key::A,
        0x0042 => Key::B,
        0x0043 => Key::C,
        0x0044 => Key::D,
        0x0045 => Key::E,
        0x0046 => Key::F,
        0x0047 => Key::G,
        0x0048 => Key::H,
        0x0049 => Key::I,
        0x004a => Key::J,
        0x004b => Key::K,
        0x004c => Key::L,
        0x004d => Key::M,
        0x004e => Key::N,
        0x004f => Key::O,
        0x0050 => Key::P,
        0x0051 => Key::Q,
        0x0052 => Key::R,
        0x0053 => Key::S,
        0x0054 => Key::T,
        0x0055 => Key::U,
        0x0056 => Key::V,
        0x0057 => Key::W,
        0x0058 => Key::X,
        0x0059 => Key::Y,
        0x005a => Key::Z,
        _ => {
            return None;
        },
    })
}

/// The modifiers that are held down.
#[derive(Clone, Copy, Debug, PartialEq, Eq, Structural)]
pub struct ModifiersState {
    pub ctrl: bool,
    pub alt: bool,
    pub shift: bool,
    pub caps_lock: bool,
    pub logo: bool,
    pub num_lock: bool,
}

/// The modifiers that are held down, as the user interface knows them.
#[derive(Clone, Copy, Debug, PartialEq, Eq, Structural)]
pub struct Modifiers {
    pub alt: bool,
    pub ctrl: bool,
    pub shift: bool,
    pub mac_cmd: bool,
    pub command: bool,
}

/// The modifiers that are held down, as the user interface knows them.
pub open spec fn spec_convert_modifiers(modifiers: ModifiersState) -> Modifiers {
    Modifiers {
        alt: modifiers.alt,
        ctrl: modifiers.ctrl,
        shift: modifiers.shift,
        mac_cmd: false,
        command: modifiers.ctrl,
    }
}

/// Convert the modifiers that are held down to what the user interface knows them by.
pub fn convert_modifiers(modifiers: ModifiersState) -> (r: Modifiers)
    ensures
        r == spec_convert_modifiers(modifiers),
{
    Modifiers {
        alt: modifiers.alt,
        ctrl: modifiers.ctrl,
        shift: modifiers.shift,
        mac_cmd: false,
        command: modifiers.ctrl,
    }
}

/// A button of the mouse.
#[derive(Clone, Copy, Debug, PartialEq, Eq, Structural)]
pub enum MouseButton {
    Left,
    Middle,
    Right,
    Other,
}

/// A button of the mouse, as the user interface knows it.
#[derive(Clone, Copy, Debug, PartialEq, Eq, Structural)]
pub enum PointerButton {
    Primary,
    Middle,
    Secondary,
}

/// The button that the user interface knows, if it does.
pub open spec fn pointer_button(button: MouseButton) -> Option<PointerButton> {
    match button {
        MouseButton::Left => Some(PointerButton::Primary),
        MouseButton::Middle => Some(PointerButton::Middle),
        MouseButton::Right => Some(PointerButton::Secondary),
        MouseButton::Other => None,
    }
}

/// What the user interface is told.
#[derive(Debug)]
pub enum Event {
    PointerMoved(Point),
    Scroll { x: Fraction, y: Fraction },
    PointerButton { pos: Point, button: PointerButton, pressed: bool, modifiers: Modifiers },
    Key { key: Key, pressed: bool, modifiers: Modifiers },
    Text(String),
}

/// What the user interface was told, and what it draws with.
#[derive(Debug)]
pub struct EguiElementInner {
    /// Whether there is something to draw with. That is only made when it is first needed.
    pub painter: bool,
    /// The scale of the buffer that is drawn into, where there is one.
    pub buffer_scale: Option<i32>,
    /// The last pointer position on this element. `None` means that the pointer is elsewhere.
    pub last_pointer_position: Option<Point>,
    pub last_modifiers: ModifiersState,
    /// The events since the user interface was drawn last.
    pub events: Vec<Event>,
}

/// A user interface in an area of the screen.
#[derive(Debug)]
pub struct EguiElement {
    pub size: Size,
    pub inner: EguiElementInner,
}

/// What has to be made before the user interface can be drawn.
#[derive(Clone, Copy, Debug, PartialEq, Eq, Structural)]
pub struct RenderSetup {
    pub create_painter: bool,
    pub create_buffer: bool,
}

impl EguiElement {
    /// A user interface that was told nothing yet.
    pub fn new(size: Size) -> (element: EguiElement)
        ensures
            element.size == size,
            !element.inner.painter,
            element.inner.buffer_scale is None,
            element.inner.last_pointer_position is None,
            element.inner.events@.len() == 0,
            !element.inner.last_modifiers.ctrl && !element.inner.last_modifiers.alt
                && !element.inner.last_modifiers.shift && !element.inner.last_modifiers.caps_lock
                && !element.inner.last_modifiers.logo && !element.inner.last_modifiers.num_lock,
    {
        EguiElement {
            size,
            inner: EguiElementInner {
                painter: false,
                buffer_scale: None,
                last_pointer_position: None,
                last_modifiers: ModifiersState {
                    ctrl: false,
                    alt: false,
                    shift: false,
                    caps_lock: false,
                    logo: false,
                    num_lock: false,
                },
                events: Vec::new(),
            },
        }
    }

    /// Resize the area: the buffer that was drawn into is of no use any more.
    pub fn set_size(&mut self, new_size: Size)
        ensures
            final(self).size == new_size,
            final(self).inner == (EguiElementInner { buffer_scale: None, ..old(self).inner }),
    {
        self.size = new_size;
        self.inner.buffer_scale = None;
    }

    /// Hand all queued events to the user interface.
    pub fn run(&mut self) -> (events: Vec<Event>)
        ensures
            events@ == old(self).inner.events@,
            final(self).inner.events@.len() == 0,
            final(self).size == old(self).size,
            final(self).inner == (EguiElementInner {
                events: final(self).inner.events,
                ..old(self).inner
            }),
    {
        let mut events: Vec<Event> = Vec::new();
        std::mem::swap(&mut events, &mut self.inner.events);
        events
    }

    /// Get ready to draw the user interface at a scale: what is there already is used again, but
    /// a buffer only at the scale that it was made for.
    pub fn render(&mut self, scale: i32) -> (setup: RenderSetup)
        ensures
            setup == (RenderSetup {
                create_painter: !old(self).inner.painter,
                create_buffer: old(self).inner.buffer_scale != Some(scale),
            }),
            final(self).size == old(self).size,
            final(self).inner == (EguiElementInner {
                painter: true,
                buffer_scale: Some(scale),
                ..old(self).inner
            }),
    {
        let create_painter = !self.inner.painter;
        self.inner.painter = true;
        let create_buffer = match self.inner.buffer_scale {
            Some(s) => s != scale,
            None => true,
        };
        self.inner.buffer_scale = Some(scale);
        RenderSetup { create_painter, create_buffer }
    }
}

impl EguiElementInner {
    /// The pointer moved to a position relative to the element.
    pub fn input_event_pointer_position(&mut self, position: Point)
        ensures
            final(self).last_pointer_position == Some(position),
            final(self).events@ == old(self).events@.push(Event::PointerMoved(position)),
            *final(self) == (EguiElementInner {
                last_pointer_position: Some(position),
                events: final(self).events,
                ..*old(self)
            }),
    {
        self.last_pointer_position = Some(position);
        self.events.push(Event::PointerMoved(position));
    }

    /// Something was scrolled. If this returns true, don't send the event to the client below the
    /// pointer. `wanted` tells whether the user interface is interested in the pointer.
    pub fn input_event_pointer_axis(&mut self, x: Fraction, y: Fraction, wanted: bool) -> (taken:
        bool)
        ensures
            taken == wanted,
            *final(self) == (EguiElementInner { events: final(self).events, ..*old(self) }),
            final(self).events@ == if wanted {
                old(self).events@.push(Event::Scroll { x, y })
            } else {
                old(self).events@
            },
    {
        if !wanted {
            return false;
        }
        self.events.push(Event::Scroll { x, y });
        true
    }

    /// A button was pressed or released. If this returns true, don't send the event to the client
    /// below the pointer. `wanted` tells whether the user interface is interested in the pointer.
    pub fn input_event_pointer_button(
        &mut self,
        button: MouseButton,
        pressed: bool,
        wanted: bool,
    ) -> (taken: bool)
        ensures
            taken == (wanted && old(self).last_pointer_position is Some && pointer_button(button) is
                Some),
            *final(self) == (EguiElementInner { events: final(self).events, ..*old(self) }),
            final(self).events@ == if taken {
                old(self).events@.push(
                    Event::PointerButton {
                        pos: old(self).last_pointer_position->0,
                        button: pointer_button(button)->0,
                        pressed,
                        modifiers: spec_convert_modifiers(old(self).last_modifiers),
                    },
                )
            } else {
                old(self).events@
            },
    {
        if !wanted {
            return false;
        }
        let pos = match self.last_pointer_position {
            Some(pos) => pos,
            None => {
                return false;
            },
        };
        let button = match button {
            MouseButton::Left => PointerButton::Primary,
            MouseButton::Middle => PointerButton::Middle,
            MouseButton::Right => PointerButton::Secondary,
            MouseButton::Other => {
                return false;
            },
        };
        self.events.push(
            Event::PointerButton {
                pos,
                button,
                pressed,
                modifiers: convert_modifiers(self.last_modifiers),
            },
        );
        true
    }

    /// A key was pressed or released. If this returns true, don't send the event to the client.
    ///
    /// `text` is what pressing the key types, and `wanted` tells whether the user interface is
    /// interested in the keyboard. The user interface is told either way.
    pub fn input_event_keyboard(
        &mut self,
        key_code: u32,
        pressed: bool,
        modifiers: ModifiersState,
        text: String,
        wanted: bool,
    ) -> (taken: bool)
        ensures
            taken == wanted,
            *final(self) == (EguiElementInner {
                last_modifiers: modifiers,
                events: final(self).events,
                ..*old(self)
            }),
            ({
                let typed = if pressed {
                    seq![Event::Text(text)]
                } else {
                    Seq::empty()
                };
                ||| (forall|k: Key| #[trigger] key_symbol(k) != key_code) && final(self).events@
                    == old(self).events@ + typed
                ||| exists|key: Key| #[trigger]
                    key_symbol(key) == key_code && final(self).events@ == old(self).events@.push(
                        Event::Key { key, pressed, modifiers: spec_convert_modifiers(modifiers) },
                    ) + typed
            }),
    {
        self.last_modifiers = modifiers;
        let key = convert_keysym(key_code);
        if let Some(key) = key {
            self.events.push(
                Event::Key { key, pressed, modifiers: convert_modifiers(modifiers) },
            );
        }
        let ghost before = self.events@;
        if pressed {
            self.events.push(Event::Text(text));
            assert(self.events@ =~= before + seq![Event::Text(text)]);
        } else {
            assert(self.events@ =~= before + Seq::<Event>::empty());
        }
        if let Some(key) = key {
            assert(key_symbol(key) == key_code);
        }
        wanted
    }
}

/// Every key has a symbol of its own.
pub proof fn keys_have_different_symbols(a: Key, b: Key)
    ensures
        key_symbol(a) == key_symbol(b) ==> a == b,
{
}

/// Digits and letters are known by their characters, in order, and arrows and the other keys by the
/// symbols that the keyboard layout gives them.
pub proof fn keys_are_known_by_their_symbols(raw: u32, key: Option<Key>)
    requires
        call_ensures(convert_keysym, (raw,), key),
    ensures
        raw == 0xff51 ==> key == Some(Key::ArrowLeft),
        raw == 0xff52 ==> key == Some(Key::ArrowUp),
        raw == 0xff53 ==> key == Some(Key::ArrowRight),
        raw == 0xff54 ==> key == Some(Key::ArrowDown),
        raw == 0xff1b ==> key == Some(Key::Escape),
        raw == 0xff09 ==> key == Some(Key::Tab),
        raw == 0xff08 ==> key == Some(Key::Backspace),
        raw == 0xff0d ==> key == Some(Key::Enter),
        raw == 0x20 ==> key == Some(Key::Space),
        raw == 0xff63 ==> key == Some(Key::Insert),
        raw == 0xffff ==> key == Some(Key::Delete),
        raw == 0xff50 ==> key == Some(Key::Home),
        raw == 0xff57 ==> key == Some(Key::End),
        raw == 0xff55 ==> key == Some(Key::PageUp),
        raw == 0xff56 ==> key == Some(Key::PageDown),
        0x30 <= raw <= 0x39 || 0x41 <= raw <= 0x5a ==> key is Some,
        raw == 0x30 ==> key == Some(Key::Num0),
        raw == 0x39 ==> key == Some(Key::Num9),
        raw == 0x41 ==> key == Some(Key::A),
        raw == 0x5a ==> key == Some(Key::Z),
        raw < 0x20 || 0x20 < raw < 0x30 || 0x39 < raw < 0x41 || 0x5a < raw < 0xff08 ==> key is None,
{
    assert(key_symbol(Key::ArrowLeft) == 0xff51);
    assert(key_symbol(Key::ArrowUp) == 0xff52);
    assert(key_symbol(Key::ArrowRight) == 0xff53);
    assert(key_symbol(Key::ArrowDown) == 0xff54);
    assert(key_symbol(Key::Escape) == 0xff1b);
    assert(key_symbol(Key::Tab) == 0xff09);
    assert(key_symbol(Key::Backspace) == 0xff08);
    assert(key_symbol(Key::Enter) == 0xff0d);
    assert(key_symbol(Key::Space) == 0x20);
    assert(key_symbol(Key::Insert) == 0xff63);
    assert(key_symbol(Key::Delete) == 0xffff);
    assert(key_symbol(Key::Home) == 0xff50);
    assert(key_symbol(Key::End) == 0xff57);
    assert(key_symbol(Key::PageUp) == 0xff55);
    assert(key_symbol(Key::PageDown) == 0xff56);
    letters_and_digits_have_their_characters();
}

/// The symbol of a letter or a digit is its character.
pub proof fn letters_and_digits_have_their_characters()
    ensures
        key_symbol(Key::Num0) == '0' as u32 && key_symbol(Key::Num1) == '1' as u32,
        key_symbol(Key::Num2) == '2' as u32 && key_symbol(Key::Num3) == '3' as u32,
        key_symbol(Key::Num4) == '4' as u32 && key_symbol(Key::Num5) == '5' as u32,
        key_symbol(Key::Num6) == '6' as u32 && key_symbol(Key::Num7) == '7' as u32,
        key_symbol(Key::Num8) == '8' as u32 && key_symbol(Key::Num9) == '9' as u32,
        key_symbol(Key::A) == 'A' as u32 && key_symbol(Key::B) == 'B' as u32,
        key_symbol(Key::C) == 'C' as u32 && key_symbol(Key::D) == 'D' as u32,
        key_symbol(Key::E) == 'E' as u32 && key_symbol(Key::F) == 'F' as u32,
        key_symbol(Key::G) == 'G' as u32 && key_symbol(Key::H) == 'H' as u32,
        key_symbol(Key::I) == 'I' as u32 && key_symbol(Key::J) == 'J' as u32,
        key_symbol(Key::K) == 'K' as u32 && key_symbol(Key::L) == 'L' as u32,
        key_symbol(Key::M) == 'M' as u32 && key_symbol(Key::N) == 'N' as u32,
        key_symbol(Key::O) == 'O' as u32 && key_symbol(Key::P) == 'P' as u32,
        key_symbol(Key::Q) == 'Q' as u32 && key_symbol(Key::R) == 'R' as u32,
        key_symbol(Key::S) == 'S' as u32 && key_symbol(Key::T) == 'T' as u32,
        key_symbol(Key::U) == 'U' as u32 && key_symbol(Key::V) == 'V' as u32,
        key_symbol(Key::W) == 'W' as u32 && key_symbol(Key::X) == 'X' as u32,
        key_symbol(Key::Y) == 'Y' as u32 && key_symbol(Key::Z) == 'Z' as u32,
{
}

/// Modifiers are what they are called; the command key is the control key.
pub proof fn modifiers_keep_their_meaning(modifiers: ModifiersState, converted: Modifiers)
    requires
        call_ensures(convert_modifiers, (modifiers,), converted),
    ensures
        converted.alt == modifiers.alt,
        converted.ctrl == modifiers.ctrl,
        converted.shift == modifiers.shift,
        converted.command == modifiers.ctrl,
        !converted.mac_cmd,
{
}

/// The user interface takes a button that it knows, at the last position of the pointer, if it is
/// interested and the pointer is on it: left, middle and right are primary, middle and secondary.
/// What it does not take changes nothing.
pub proof fn buttons_are_told_where_the_pointer_is(
    element: &mut EguiElementInner,
    button: MouseButton,
    pressed: bool,
    wanted: bool,
    taken: bool,
)
    requires
        call_ensures(
            EguiElementInner::input_event_pointer_button,
            (element, button, pressed, wanted),
            taken,
        ),
    ensures
        taken <==> wanted && old(element).last_pointer_position is Some && !(button is Other),
        !taken ==> final(element).events@ == old(element).events@,
        taken ==> final(element).events@.len() == old(element).events@.len() + 1 && match final(
            element
        ).events@.last() {
            Event::PointerButton { pos, button: told, pressed: down, modifiers } => {
                &&& pos == old(element).last_pointer_position->0
                &&& down == pressed
                &&& button is Left <==> told is Primary
                &&& button is Middle <==> told is Middle
                &&& button is Right <==> told is Secondary
                &&& modifiers.alt == old(element).last_modifiers.alt
                &&& modifiers.ctrl == old(element).last_modifiers.ctrl
                &&& modifiers.shift == old(element).last_modifiers.shift
            },
            _ => false,
        },
{
}

/// The user interface is told where the pointer is, and what was scrolled if it is interested.
pub proof fn pointers_are_told_to_the_interface(
    moved: &mut EguiElementInner,
    position: Point,
    scrolled: &mut EguiElementInner,
    x: Fraction,
    y: Fraction,
    wanted: bool,
    taken: bool,
)
    requires
        call_ensures(
            EguiElementInner::input_event_pointer_position,
            (moved, position),
            (),
        ),
        call_ensures(
            EguiElementInner::input_event_pointer_axis,
            (scrolled, x, y, wanted),
            taken,
        ),
    ensures
        final(moved).last_pointer_position == Some(position),
        final(moved).events@ == old(moved).events@.push(Event::PointerMoved(position)),
        taken == wanted,
        wanted ==> final(scrolled).events@ == old(scrolled).events@.push(Event::Scroll { x, y }),
        !wanted ==> final(scrolled).events@ == old(scrolled).events@,
        final(scrolled).last_pointer_position == old(scrolled).last_pointer_position,
{
}

/// A key that the user interface knows is told to it, and so is what a press types, after the key.
/// The modifiers are remembered. Clients get the event unless the interface is interested.
pub proof fn keys_are_told_to_the_interface(
    element: &mut EguiElementInner,
    key_code: u32,
    pressed: bool,
    modifiers: ModifiersState,
    text: String,
    wanted: bool,
    taken: bool,
    key: Option<Key>,
)
    requires
        call_ensures(
            EguiElementInner::input_event_keyboard,
            (element, key_code, pressed, modifiers, text, wanted),
            taken,
        ),
        call_ensures(convert_keysym, (key_code,), key),
    ensures
        taken == wanted,
        final(element).last_modifiers == modifiers,
        final(element).last_pointer_position == old(element).last_pointer_position,
        final(element).events@.len() == old(element).events@.len() + (if key is Some {
            1int
        } else {
            0
        }) + (if pressed {
            1int
        } else {
            0
        }),
        pressed ==> final(element).events@.last() == Event::Text(text),
        key matches Some(known) ==> match final(element).events@[old(
            element,
        ).events@.len() as int] {
            Event::Key { key: told, pressed: down, modifiers: held } => told == known && down
                == pressed && held.alt == modifiers.alt && held.ctrl == modifiers.ctrl && held.shift
                == modifiers.shift,
            _ => false,
        },
        forall|i: int|
            0 <= i < old(element).events@.len() ==> #[trigger] final(element).events@[i] == old(
                element,
            ).events@[i],
{
    if let Some(known) = key {
        assert(key_symbol(known) == key_code);
        assert forall|k: Key| #[trigger] key_symbol(k) == key_code implies k == known by {
            keys_have_different_symbols(k, known);
        }
    }
}

/// What the user interface was told is handed over once, in order.
pub proof fn events_are_handed_over_once(element: &mut EguiElement, events: Vec<Event>)
    requires
        call_ensures(EguiElement::run, (element,), events),
    ensures
        events@ == old(element).inner.events@,
        final(element).inner.events@.len() == 0,
        final(element).size == old(element).size,
        final(element).inner.last_pointer_position == old(element).inner.last_pointer_position,
{
}

/// The painter is made once, and a buffer whenever there is none of the scale that is drawn at;
/// after a change of the size there is none.
pub proof fn buffers_are_made_when_needed(
    element: &mut EguiElement,
    scale: i32,
    setup: RenderSetup,
    resized: &mut EguiElement,
    size: Size,
)
    requires
        call_ensures(EguiElement::render, (element, scale), setup),
        call_ensures(EguiElement::set_size, (resized, size), ()),
    ensures
        setup.create_painter <==> !old(element).inner.painter,
        setup.create_buffer <==> old(element).inner.buffer_scale != Some(scale),
        final(element).inner.painter,
        final(element).inner.buffer_scale == Some(scale),
        final(element).inner.events == old(element).inner.events,
        final(resized).size == size,
        final(resized).inner.buffer_scale is None,
        final(resized).inner.events == old(resized).inner.events,
{
}

} // verus!
