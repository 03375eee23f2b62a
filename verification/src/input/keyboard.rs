//! Keys.
use std::collections::HashSet;

use vstd::prelude::*;

use super::actions::KeyAction;
use crate::config::keybind::{KeyActionDesc, KeyPattern};
use crate::config::maps::{get_keybind, keybinds_of, KeyBinds};
use crate::handlers::layer_shell::{KeyboardInteractivity, LayerSurface};

verus! {

/// The symbol of the key that switches to the first virtual terminal.
pub const KEY_SWITCH_VT_1: u32 = 0x1008_fe01;

/// The symbol of the key that switches to the twelfth virtual terminal.
pub const KEY_SWITCH_VT_12: u32 = 0x1008_fe0c;

/// Whether a key goes down or up.
#[derive(Clone, Copy, Debug, PartialEq, Eq, Structural)]
pub enum KeyState {
    Released,
    Pressed,
}

/// What becomes of a key event.
#[derive(Debug)]
pub enum FilterResult {
    /// The focused client gets it.
    Forward,
    /// No client gets it.
    Intercept(KeyPattern, KeyAction),
}

/// The action that a pattern is bound to.
pub open spec fn spec_find_keyaction(
    keybinds: Map<(u32, u32), KeyActionDesc>,
    pattern: KeyPattern,
) -> Option<KeyAction> {
    if keybinds.dom().contains(pattern.spec_key()) {
        Some(
            <KeyAction as vstd::std_specs::convert::FromSpec<KeyActionDesc>>::from_spec(
                keybinds[pattern.spec_key()],
            ),
        )
    } else {
        None
    }
}

/// Try to find the key action for the given modifiers and key.
///
/// Whether the action may run while the session is locked is settled when it is about to run, so
/// that the key is intercepted either way.
pub fn find_keyaction(
    keybinds: &KeyBinds,
    modifiers: u32,
    keysym: u32,
) -> (r: Option<(KeyPattern, KeyAction)>)
    ensures
        r == match spec_find_keyaction(keybinds_of(*keybinds), KeyPattern { modifiers, keysym }) {
            Some(action) => Some((KeyPattern { modifiers, keysym }, action)),
            None => None,
        },
{
    let pattern = KeyPattern { modifiers, keysym };
    match get_keybind(keybinds, pattern.key()) {
        Some(desc) => Some((pattern, KeyAction::from(desc.clone()))),
        None => None,
    }
}

/// What becomes of a key event with the symbol `keysym`, when the keys in `suppressed` are held
/// down without a client knowing.
pub open spec fn key_filter(
    keybinds: Map<(u32, u32), KeyActionDesc>,
    suppressed: Set<u32>,
    modifiers: u32,
    key_state: KeyState,
    keysym: Option<u32>,
) -> FilterResult {
    match keysym {
        None => FilterResult::Forward,
        Some(keysym) => {
            let pattern = KeyPattern { modifiers, keysym };
            let found = spec_find_keyaction(keybinds, pattern);
            match key_state {
                KeyState::Pressed => match found {
                    Some(action) => FilterResult::Intercept(pattern, action),
                    None => FilterResult::Forward,
                },
                KeyState::Released => if suppressed.contains(keysym) {
                    FilterResult::Intercept(
                        if found is Some {
                            pattern
                        } else {
                            KeyPattern { modifiers: 0, keysym: 0 }
                        },
                        KeyAction {
                            action_type: super::actions::KeyActionType::Disabled,
                            allow_while_locked: false,
                        },
                    )
                } else {
                    FilterResult::Forward
                },
            }
        },
    }
}

/// The keys that are held down without a client knowing, after a key event.
pub open spec fn suppressed_after(
    keybinds: Map<(u32, u32), KeyActionDesc>,
    suppressed: Set<u32>,
    modifiers: u32,
    key_state: KeyState,
    keysym: Option<u32>,
) -> Set<u32> {
    match keysym {
        None => suppressed,
        Some(keysym) => match key_state {
            KeyState::Pressed => if spec_find_keyaction(
                keybinds,
                KeyPattern { modifiers, keysym },
            ) is Some {
                suppressed.insert(keysym)
            } else {
                suppressed
            },
            KeyState::Released => suppressed.remove(keysym),
        },
    }
}

/// Decide what becomes of a key event.
///
/// A press that is bound to an action is intercepted, and so is the release that follows it,
/// which by then does nothing any more. Everything else goes to the focused client.
pub fn handle_key_action(
    keybinds: &KeyBinds,
    suppressed: &mut HashSet<u32>,
    modifiers: u32,
    key_state: KeyState,
    keysym: Option<u32>,
) -> (r: FilterResult)
    ensures
        r == key_filter(keybinds_of(*keybinds), old(suppressed)@, modifiers, key_state, keysym),
        final(suppressed)@ == suppressed_after(
            keybinds_of(*keybinds),
            old(suppressed)@,
            modifiers,
            key_state,
            keysym,
        ),
{
    broadcast use vstd::std_specs::hash::group_hash_axioms;

    let keysym: u32 = match keysym {
        Some(keysym) => keysym,
        None => {
            return FilterResult::Forward;
        },
    };
    let found = find_keyaction(keybinds, modifiers, keysym);
    match key_state {
        KeyState::Pressed => match found {
            Some((pattern, action)) => {
                suppressed.insert(keysym);
                FilterResult::Intercept(pattern, action)
            },
            None => FilterResult::Forward,
        },
        KeyState::Released => {
            let was_suppressed = suppressed.remove(&keysym);
            if was_suppressed {
                let pattern = match found {
                    Some((pattern, _)) => pattern,
                    None => KeyPattern::default(),
                };
                FilterResult::Intercept(pattern, KeyAction::none())
            } else {
                assert(suppressed@ =~= old(suppressed)@.remove(keysym));
                FilterResult::Forward
            }
        },
    }
}

/// The virtual terminal that a key switches to, if any.
pub open spec fn vt_number(udev: bool, key_state: KeyState, modified: u32) -> Option<i32> {
    if udev && key_state == KeyState::Pressed && KEY_SWITCH_VT_1 <= modified <= KEY_SWITCH_VT_12 {
        Some((modified - KEY_SWITCH_VT_1 + 1) as i32)
    } else {
        None
    }
}

/// The virtual terminal that a key switches to, if any. That only happens when the key is
/// pressed, and only while running on a TTY.
pub fn handle_vt_switch(udev: bool, key_state: KeyState, modified: u32) -> (vt: Option<i32>)
    ensures
        vt == vt_number(udev, key_state, modified),
{
    if let KeyState::Released = key_state {
        return None;
    }
    if udev && KEY_SWITCH_VT_1 <= modified && modified <= KEY_SWITCH_VT_12 {
        return Some((modified - KEY_SWITCH_VT_1 + 1) as i32);
    }
    None
}

/// A key event, as far as bindings look at it.
#[derive(Clone, Copy, Debug, PartialEq, Eq, Structural)]
pub struct KeyEvent {
    pub state: KeyState,
    /// The symbol of the key with the modifiers applied.
    pub modified: u32,
    /// The symbol of the key itself, where it has one.
    pub raw: Option<u32>,
    pub modifiers: u32,
}

/// The key whose action is being repeated.
#[derive(Clone, Copy, Debug, PartialEq, Eq, Structural)]
pub struct RepeatedKey {
    /// The registration of the timer in the event loop.
    pub token: u64,
    pub keysym: u32,
}

/// What becomes of a key event, and what it sets off on the way.
#[derive(Debug)]
pub struct KeyOutcome {
    pub filter: FilterResult,
    /// Switch to this virtual terminal.
    pub switch_vt: Option<i32>,
    /// Remove this timer, since the key that it repeats was released.
    pub cancel_repeat: Option<u64>,
}

/// What the keyboard remembers between events.
#[derive(Debug)]
pub struct KeyboardState {
    /// The keys that are held down without a client knowing.
    pub suppressed_keys: HashSet<u32>,
    pub repeated: Option<RepeatedKey>,
}

impl KeyboardState {
    /// A keyboard with no keys held down.
    pub fn new() -> (state: KeyboardState)
        ensures
            state.suppressed_keys@ == Set::<u32>::empty(),
            state.repeated is None,
    {
        KeyboardState { suppressed_keys: HashSet::new(), repeated: None }
    }

    /// The repeated key is the one that is released.
    pub open spec fn ends_repeat(&self, event: KeyEvent) -> bool {
        &&& event.state == KeyState::Released
        &&& self.repeated matches Some(repeated) && event.raw == Some(repeated.keysym)
    }

    /// Whether `outcome` is what becomes of a key event, and `after` what the keyboard remembers
    /// by then.
    pub open spec fn handled(
        &self,
        after: &KeyboardState,
        keybinds: Map<(u32, u32), KeyActionDesc>,
        event: KeyEvent,
        udev: bool,
        inhibited: bool,
        outcome: KeyOutcome,
    ) -> bool {
        &&& outcome.switch_vt == vt_number(udev, event.state, event.modified)
        &&& if outcome.switch_vt is Some {
            &&& outcome.filter == FilterResult::Intercept(
                KeyPattern { modifiers: 0, keysym: 0 },
                KeyAction {
                    action_type: super::actions::KeyActionType::Disabled,
                    allow_while_locked: false,
                },
            )
            &&& outcome.cancel_repeat is None
            &&& after.suppressed_keys@ == self.suppressed_keys@.insert(event.modified)
            &&& after.repeated == self.repeated
        } else if inhibited {
            &&& outcome.filter is Forward
            &&& outcome.cancel_repeat is None
            &&& after.suppressed_keys@ == self.suppressed_keys@
            &&& after.repeated == self.repeated
        } else {
            &&& outcome.filter == key_filter(
                keybinds,
                self.suppressed_keys@,
                event.modifiers,
                event.state,
                event.raw,
            )
            &&& after.suppressed_keys@ == suppressed_after(
                keybinds,
                self.suppressed_keys@,
                event.modifiers,
                event.state,
                event.raw,
            )
            &&& if self.ends_repeat(event) {
                &&& outcome.cancel_repeat == Some(self.repeated->0.token)
                &&& after.repeated is None
            } else {
                &&& outcome.cancel_repeat is None
                &&& after.repeated == self.repeated
            }
        }
    }

    /// Decide what becomes of a key event.
    ///
    /// Switching to another virtual terminal comes first. A client that inhibits shortcuts gets
    /// all other keys. Otherwise the bindings decide.
    pub fn filter_key(
        &mut self,
        keybinds: &KeyBinds,
        event: KeyEvent,
        udev: bool,
        inhibited: bool,
    ) -> (outcome: KeyOutcome)
        ensures
            old(self).handled(&*final(self), keybinds_of(*keybinds), event, udev, inhibited, outcome),
    {
        broadcast use vstd::std_specs::hash::group_hash_axioms;

        let switch_vt = handle_vt_switch(udev, event.state, event.modified);
        if switch_vt.is_some() {
            self.suppressed_keys.insert(event.modified);
            return KeyOutcome {
                filter: FilterResult::Intercept(KeyPattern::default(), KeyAction::none()),
                switch_vt,
                cancel_repeat: None,
            };
        }
        if inhibited {
            return KeyOutcome {
                filter: FilterResult::Forward,
                switch_vt: None,
                cancel_repeat: None,
            };
        }
        let mut cancel_repeat = None;
        if let KeyState::Released = event.state {
            if let (Some(repeated), Some(raw)) = (self.repeated, event.raw) {
                if repeated.keysym == raw {
                    cancel_repeat = Some(repeated.token);
                    self.repeated = None;
                }
            }
        }
        let filter = handle_key_action(
            keybinds,
            &mut self.suppressed_keys,
            event.modifiers,
            event.state,
            event.raw,
        );
        KeyOutcome { filter, switch_vt: None, cancel_repeat }
    }
}

/// Whether a layer surface takes all keys for itself.
pub open spec fn grabs_keyboard(layer: LayerSurface) -> bool {
    layer.interactivity is Exclusive && layer.layer.spec_above_windows() && layer.mapped
}

/// The layer surface that takes all keys for itself, the topmost one where there are several.
/// `layers` lists the surfaces from the lowest to the topmost.
pub fn keyboard_grabbing_layer(layers: &[LayerSurface]) -> (r: Option<LayerSurface>)
    ensures
        is_grabbing_layer(layers@, r),
{
    let mut i: usize = layers.len();
    while i > 0
        invariant
            0 <= i <= layers.len(),
            forall|j: int| i <= j < layers@.len() ==> !grabs_keyboard(#[trigger] layers@[j]),
        decreases i,
    {
        i -= 1;
        let layer = layers[i];
        if let KeyboardInteractivity::Exclusive = layer.interactivity {
            if layer.layer.above_windows() && layer.mapped {
                return Some(layer);
            }
        }
    }
    None
}

/// Whether `layer` is the one that takes all keys for itself, the topmost one where there are
/// several.
pub open spec fn is_grabbing_layer(layers: Seq<LayerSurface>, layer: Option<LayerSurface>) -> bool {
    match layer {
        Some(layer) => grabs_keyboard(layer) && exists|i: int|
            0 <= i < layers.len() && #[trigger] layers[i] == layer && forall|j: int|
                i < j < layers.len() ==> !grabs_keyboard(#[trigger] layers[j]),
        None => forall|j: int| 0 <= j < layers.len() ==> !grabs_keyboard(#[trigger] layers[j]),
    }
}

/// Who decides about a key event.
#[derive(Debug)]
pub enum KeyRoute {
    /// The layer surface gets the focus and the event.
    Layer(u64),
    /// The bindings decide.
    Bindings(KeyOutcome),
}

impl KeyboardState {
    /// React to a key event.
    ///
    /// A layer surface above the windows that takes all keys for itself comes first; `layers`
    /// lists the surfaces from the lowest to the topmost. Otherwise see
    /// [`KeyboardState::filter_key`].
    pub fn on_keyboard_input(
        &mut self,
        layers: &[LayerSurface],
        keybinds: &KeyBinds,
        event: KeyEvent,
        udev: bool,
        inhibited: bool,
    ) -> (route: KeyRoute)
        ensures
            match route {
                KeyRoute::Layer(surface) => {
                    &&& exists|layer: LayerSurface|
                        layer.surface == surface && #[trigger] is_grabbing_layer(
                            layers@,
                            Some(layer),
                        )
                    &&& *final(self) == *old(self)
                },
                KeyRoute::Bindings(outcome) => {
                    &&& is_grabbing_layer(layers@, None)
                    &&& old(self).handled(
                        &*final(self),
                        keybinds_of(*keybinds),
                        event,
                        udev,
                        inhibited,
                        outcome,
                    )
                },
            },
    {
        match keyboard_grabbing_layer(layers) {
            Some(layer) => KeyRoute::Layer(layer.surface),
            None => KeyRoute::Bindings(self.filter_key(keybinds, event, udev, inhibited)),
        }
    }
}

/// A client sees both the press and the release of a key, or neither: if a press is intercepted,
/// so is the release that follows, whatever the modifiers are by then; and if a press is
/// forwarded, so is its release, as long as the key was not held down before.
pub proof fn press_and_release_go_together(
    keybinds: Map<(u32, u32), KeyActionDesc>,
    suppressed: Set<u32>,
    press_modifiers: u32,
    release_modifiers: u32,
    keysym: u32,
)
    requires
        !suppressed.contains(keysym),
    ensures
        ({
            let press = key_filter(
                keybinds,
                suppressed,
                press_modifiers,
                KeyState::Pressed,
                Some(keysym),
            );
            let held = suppressed_after(
                keybinds,
                suppressed,
                press_modifiers,
                KeyState::Pressed,
                Some(keysym),
            );
            let release = key_filter(
                keybinds,
                held,
                release_modifiers,
                KeyState::Released,
                Some(keysym),
            );
            press is Forward <==> release is Forward
        }),
{
}

/// Pressing and releasing a key leaves the set of held down keys as it was.
pub proof fn release_undoes_press(
    keybinds: Map<(u32, u32), KeyActionDesc>,
    suppressed: Set<u32>,
    press_modifiers: u32,
    release_modifiers: u32,
    keysym: u32,
)
    requires
        !suppressed.contains(keysym),
    ensures
        suppressed_after(
            keybinds,
            suppressed_after(
                keybinds,
                suppressed,
                press_modifiers,
                KeyState::Pressed,
                Some(keysym),
            ),
            release_modifiers,
            KeyState::Released,
            Some(keysym),
        ) == suppressed,
{
    let held = suppressed_after(
        keybinds,
        suppressed,
        press_modifiers,
        KeyState::Pressed,
        Some(keysym),
    );
    assert(held.remove(keysym) =~= suppressed);
}

/// Releasing a key never runs an action.
pub proof fn releases_do_nothing(
    keybinds: Map<(u32, u32), KeyActionDesc>,
    suppressed: Set<u32>,
    modifiers: u32,
    keysym: Option<u32>,
)
    ensures
        key_filter(keybinds, suppressed, modifiers, KeyState::Released, keysym) matches
            FilterResult::Intercept(_, action) ==> action.action_type is Disabled,
{
}

/// The keys for virtual terminals lead to the terminals one to twelve.
pub proof fn vt_numbers_are_in_range(udev: bool, key_state: KeyState, modified: u32)
    ensures
        vt_number(udev, key_state, modified) matches Some(vt) ==> 1 <= vt <= 12,
{
}

/// A key combination does what it is bound to, with exactly these modifiers and this key, and
/// nothing if it is not bound.
pub proof fn bound_combinations_are_found(
    keybinds: &KeyBinds,
    modifiers: u32,
    keysym: u32,
    found: Option<(KeyPattern, KeyAction)>,
)
    requires
        call_ensures(find_keyaction, (keybinds, modifiers, keysym), found),
    ensures
        keybinds_of(*keybinds).dom().contains((modifiers, keysym)) <==> found is Some,
        found matches Some((pattern, action)) ==> pattern.modifiers == modifiers && pattern.keysym
            == keysym && action == <KeyAction as vstd::std_specs::convert::FromSpec<
            KeyActionDesc,
        >>::from_spec(keybinds_of(*keybinds)[(modifiers, keysym)]),
{
}

/// A press of a bound key runs what it is bound to, and no client sees it; a press of any other key
/// goes to the client. The key is held back from then on exactly if the press was.
pub proof fn bound_presses_run_their_action(
    keyboard: &mut KeyboardState,
    keybinds: &KeyBinds,
    event: KeyEvent,
    udev: bool,
    outcome: KeyOutcome,
    keysym: u32,
    found: Option<(KeyPattern, KeyAction)>,
)
    requires
        event.state is Pressed,
        event.raw == Some(keysym),
        !udev || event.modified < 0x1008_fe01 || event.modified > 0x1008_fe0c,
        call_ensures(find_keyaction, (keybinds, event.modifiers, keysym), found),
        call_ensures(KeyboardState::filter_key, (keyboard, keybinds, event, udev, false), outcome),
    ensures
        outcome.switch_vt is None,
        outcome.cancel_repeat is None,
        final(keyboard).repeated == old(keyboard).repeated,
        match found {
            Some((pattern, action)) => outcome.filter == FilterResult::Intercept(pattern, action)
                && final(keyboard).suppressed_keys@ == old(keyboard).suppressed_keys@.insert(
                keysym,
            ),
            None => outcome.filter is Forward && final(keyboard).suppressed_keys@ == old(
                keyboard,
            ).suppressed_keys@,
        },
{
}

/// A release is held back exactly if the press was, and runs nothing. The key is not held back any
/// more then, and if it was being repeated, that ends.
pub proof fn releases_follow_their_press(
    keyboard: &mut KeyboardState,
    keybinds: &KeyBinds,
    event: KeyEvent,
    udev: bool,
    outcome: KeyOutcome,
    keysym: u32,
)
    requires
        event.state is Released,
        event.raw == Some(keysym),
        call_ensures(KeyboardState::filter_key, (keyboard, keybinds, event, udev, false), outcome),
    ensures
        outcome.switch_vt is None,
        final(keyboard).suppressed_keys@ == old(keyboard).suppressed_keys@.remove(keysym),
        old(keyboard).suppressed_keys@.contains(keysym) ==> outcome.filter is Intercept
            && outcome.filter->Intercept_1.action_type is Disabled,
        !old(keyboard).suppressed_keys@.contains(keysym) ==> outcome.filter is Forward,
        match old(keyboard).repeated {
            Some(repeated) => if repeated.keysym == keysym {
                outcome.cancel_repeat == Some(repeated.token) && final(keyboard).repeated is None
            } else {
                outcome.cancel_repeat is None && final(keyboard).repeated == Some(repeated)
            },
            None => outcome.cancel_repeat is None && final(keyboard).repeated is None,
        },
{
}

/// While a client inhibits shortcuts, it gets every key but those for virtual terminals, and nothing
/// is remembered; a key without a symbol always goes to the client.
pub proof fn inhibiting_clients_get_the_keys(
    keyboard: &mut KeyboardState,
    keybinds: &KeyBinds,
    event: KeyEvent,
    udev: bool,
    inhibited: bool,
    outcome: KeyOutcome,
)
    requires
        inhibited || event.raw is None,
        !udev || event.state is Released || event.modified < 0x1008_fe01 || event.modified
            > 0x1008_fe0c,
        call_ensures(
            KeyboardState::filter_key,
            (keyboard, keybinds, event, udev, inhibited),
            outcome,
        ),
    ensures
        outcome.filter is Forward,
        outcome.switch_vt is None,
        outcome.cancel_repeat is None,
        final(keyboard).suppressed_keys@ == old(keyboard).suppressed_keys@,
        final(keyboard).repeated == old(keyboard).repeated,
{
}

/// On a terminal, the keys for virtual terminals switch to them, whoever inhibits shortcuts and
/// whatever is bound; no client sees them.
pub proof fn terminals_are_switched_first(
    keyboard: &mut KeyboardState,
    keybinds: &KeyBinds,
    event: KeyEvent,
    inhibited: bool,
    outcome: KeyOutcome,
    vt: u32,
)
    requires
        event.state is Pressed,
        1 <= vt <= 12,
        event.modified == 0x1008_fe00 + vt,
        call_ensures(
            KeyboardState::filter_key,
            (keyboard, keybinds, event, true, inhibited),
            outcome,
        ),
    ensures
        outcome.switch_vt == Some(vt as i32),
        outcome.filter is Intercept,
        outcome.filter->Intercept_1.action_type is Disabled,
        final(keyboard).suppressed_keys@ == old(keyboard).suppressed_keys@.insert(event.modified),
        final(keyboard).repeated == old(keyboard).repeated,
{
}

/// A key switches to a virtual terminal exactly when it is one of the twelve keys for that, is
/// pressed, and the compositor runs on a terminal.
pub proof fn twelve_keys_switch_terminals(
    udev: bool,
    key_state: KeyState,
    modified: u32,
    vt: Option<i32>,
)
    requires
        call_ensures(handle_vt_switch, (udev, key_state, modified), vt),
    ensures
        vt is Some <==> udev && key_state is Pressed && 0x1008_fe01 <= modified <= 0x1008_fe0c,
        vt matches Some(number) ==> number == modified - 0x1008_fe00,
{
}

/// The keyboard remembers nothing at first.
pub proof fn new_keyboards_hold_nothing(keyboard: KeyboardState, keysym: u32)
    requires
        call_ensures(KeyboardState::new, (), keyboard),
    ensures
        !keyboard.suppressed_keys@.contains(keysym),
        keyboard.repeated is None,
{
}

/// The topmost mapped surface above the windows that wants all keys gets them, and none gets them if
/// there is no such surface.
pub proof fn exclusive_layers_take_the_keys(
    layers: &[LayerSurface],
    taker: Option<LayerSurface>,
    i: int,
)
    requires
        call_ensures(keyboard_grabbing_layer, (layers,), taker),
        0 <= i < layers@.len(),
        layers@[i].interactivity is Exclusive,
        layers@[i].layer is Top || layers@[i].layer is Overlay,
        layers@[i].mapped,
    ensures
        taker matches Some(layer) && layer.interactivity is Exclusive && (layer.layer is Top
            || layer.layer is Overlay) && layer.mapped && exists|k: int|
            i <= k < layers@.len() && #[trigger] layers@[k] == layer,
{
    assert(grabs_keyboard(layers@[i]));
    let layer = taker->0;
    let k = choose|k: int|
        0 <= k < layers@.len() && #[trigger] layers@[k] == layer && forall|j: int|
            k < j < layers@.len() ==> !grabs_keyboard(#[trigger] layers@[j]);
    assert(i <= k);
    assert(layers@[k] == layer);
}

/// A layer surface only gets all keys if it is exclusive, above the windows and mapped. While one
/// does, the bindings are not asked, and the keyboard remembers nothing of the event.
pub proof fn bindings_decide_without_exclusive_layers(
    keyboard: &mut KeyboardState,
    layers: &[LayerSurface],
    keybinds: &KeyBinds,
    event: KeyEvent,
    udev: bool,
    inhibited: bool,
    route: KeyRoute,
)
    requires
        call_ensures(
            KeyboardState::on_keyboard_input,
            (keyboard, layers, keybinds, event, udev, inhibited),
            route,
        ),
    ensures
        match route {
            KeyRoute::Layer(surface) => *final(keyboard) == *old(keyboard) && exists|k: int|
                0 <= k < layers@.len() && (#[trigger] layers@[k]).surface == surface
                    && layers@[k].interactivity is Exclusive && (layers@[k].layer is Top
                    || layers@[k].layer is Overlay) && layers@[k].mapped,
            KeyRoute::Bindings(_) => forall|k: int|
                0 <= k < layers@.len() && (#[trigger] layers@[k]).interactivity is Exclusive
                    && layers@[k].mapped ==> layers@[k].layer is Bottom || layers@[k].layer is
                    Background,
        },
{
    match route {
        KeyRoute::Layer(surface) => {
            let layer = choose|layer: LayerSurface|
                layer.surface == surface && #[trigger] is_grabbing_layer(layers@, Some(layer));
            let k = choose|k: int|
                0 <= k < layers@.len() && #[trigger] layers@[k] == layer && forall|j: int|
                    k < j < layers@.len() ==> !grabs_keyboard(#[trigger] layers@[j]);
            assert(layers@[k].surface == surface);
        },
        KeyRoute::Bindings(_) => {
            assert forall|k: int|
                0 <= k < layers@.len() && (#[trigger] layers@[k]).interactivity is Exclusive
                    && layers@[k].mapped implies layers@[k].layer is Bottom || layers@[k].layer is
                Background by {
                assert(!grabs_keyboard(layers@[k]));
            }
        },
    }
}

/// Without such a layer surface, the bindings decide the same way as [`KeyboardState::filter_key`].
pub proof fn keys_are_filtered_by_the_bindings(
    keyboard: &mut KeyboardState,
    filtering: &mut KeyboardState,
    layers: &[LayerSurface],
    keybinds: &KeyBinds,
    event: KeyEvent,
    udev: bool,
    inhibited: bool,
    outcome: KeyOutcome,
    same: KeyOutcome,
)
    requires
        *old(filtering) == *old(keyboard),
        call_ensures(
            KeyboardState::on_keyboard_input,
            (keyboard, layers, keybinds, event, udev, inhibited),
            KeyRoute::Bindings(outcome),
        ),
        call_ensures(
            KeyboardState::filter_key,
            (filtering, keybinds, event, udev, inhibited),
            same,
        ),
    ensures
        outcome.switch_vt == same.switch_vt,
        outcome.cancel_repeat == same.cancel_repeat,
        outcome.filter is Forward <==> same.filter is Forward,
        final(keyboard).suppressed_keys@ == final(filtering).suppressed_keys@,
        final(keyboard).repeated == final(filtering).repeated,
{
}

} // verus!
