//! The devices of the user.
use vstd::prelude::*;

use crate::seqs::lemma_filter_take_succ;
use crate::state::{Fht, State};

verus! {

/// A device that the user has at hand, by its number.
#[derive(Clone, Copy, Debug, PartialEq, Eq, Structural)]
pub struct InputDevice {
    pub id: u64,
    /// Whether it has keys.
    pub keyboard: bool,
    /// Whether tools can draw on it.
    pub tablet: bool,
}

/// Whether a device has keys.
pub open spec fn is_keyboard() -> spec_fn(InputDevice) -> bool {
    |device: InputDevice| device.keyboard
}

/// Whether a device is another one than the given one.
pub open spec fn other_device(id: u64) -> spec_fn(InputDevice) -> bool {
    |device: InputDevice| device.id != id
}

/// What a new device calls for.
#[derive(Clone, Copy, Debug, PartialEq, Eq, Structural)]
pub struct NewDevice {
    /// Whether the lights of the device are set to the state of the keyboard.
    pub update_leds: bool,
    /// Whether clients are told about a tablet.
    pub add_tablet: bool,
}

impl State {
    /// A device was plugged in.
    pub fn on_device_added(&mut self, device: InputDevice) -> (new: NewDevice)
        ensures
            new == (NewDevice { update_leds: device.keyboard, add_tablet: device.tablet }),
            final(self).backend == old(self).backend,
            final(self).fht == (Fht { devices: final(self).fht.devices, ..old(self).fht }),
            final(self).fht.devices@ == old(self).fht.devices@.push(device),
    {
        self.fht.devices.push(device);
        NewDevice { update_leds: device.keyboard, add_tablet: device.tablet }
    }

    /// A device was unplugged. Returns what becomes of the tools of tablets: they go with the last
    /// tablet. `left` is how many tablets clients still know of.
    pub fn on_device_removed(&mut self, device: InputDevice, left: usize) -> (clear_tools: bool)
        ensures
            clear_tools == (device.tablet && left == 0),
            final(self).backend == old(self).backend,
            final(self).fht == (Fht { devices: final(self).fht.devices, ..old(self).fht }),
            final(self).fht.devices@ == old(self).fht.devices@.filter(other_device(device.id)),
    {
        let ghost before = self.fht.devices@;
        let mut kept: Vec<InputDevice> = Vec::new();
        let mut i: usize = 0;
        assert(before.take(0).filter(other_device(device.id)) =~= Seq::empty()) by {
            reveal(Seq::filter);
        }
        while i < self.fht.devices.len()
            invariant
                0 <= i <= self.fht.devices.len(),
                *self == *old(self),
                before == self.fht.devices@,
                kept@ == before.take(i as int).filter(other_device(device.id)),
            decreases self.fht.devices.len() - i,
        {
            proof {
                lemma_filter_take_succ(before, other_device(device.id), i as int);
            }
            if self.fht.devices[i].id != device.id {
                kept.push(self.fht.devices[i]);
            }
            i += 1;
        }
        assert(before.take(before.len() as int) =~= before);
        self.fht.devices = kept;
        device.tablet && left == 0
    }

    /// The lights of the keyboard changed. Returns the devices that show them: all with keys.
    pub fn led_state_changed(&self) -> (keyboards: Vec<InputDevice>)
        ensures
            keyboards@ == self.fht.devices@.filter(is_keyboard()),
    {
        let ghost all = self.fht.devices@;
        let mut keyboards: Vec<InputDevice> = Vec::new();
        let mut i: usize = 0;
        assert(all.take(0).filter(is_keyboard()) =~= Seq::empty()) by {
            reveal(Seq::filter);
        }
        while i < self.fht.devices.len()
            invariant
                0 <= i <= self.fht.devices.len(),
                all == self.fht.devices@,
                keyboards@ == all.take(i as int).filter(is_keyboard()),
            decreases self.fht.devices.len() - i,
        {
            proof {
                lemma_filter_take_succ(all, is_keyboard(), i as int);
            }
            if self.fht.devices[i].keyboard {
                keyboards.push(self.fht.devices[i]);
            }
            i += 1;
        }
        assert(all.take(all.len() as int) =~= all);
        keyboards
    }

    /// Whether a tool of a tablet changes the cursor: while the user moves or resizes something,
    /// the cursor shows that.
    pub fn tablet_tool_image(&self) -> (change: bool)
        ensures
            change == (!self.fht.resize_grab_active && !self.fht.interactive_grab_active),
    {
        !self.fht.resize_grab_active && !self.fht.interactive_grab_active
    }
}

/// Unplugging a device undoes plugging it in, unless it was there before.
pub proof fn unplugging_undoes_plugging_in(devices: Seq<InputDevice>, device: InputDevice)
    requires
        forall|i: int| 0 <= i < devices.len() ==> (#[trigger] devices[i]).id != device.id,
    ensures
        devices.push(device).filter(other_device(device.id)) == devices,
{
    devices.lemma_filter_push(device, other_device(device.id));
    lemma_filter_all(devices, other_device(device.id));
}

proof fn lemma_filter_all(devices: Seq<InputDevice>, p: spec_fn(InputDevice) -> bool)
    requires
        forall|i: int| 0 <= i < devices.len() ==> p(#[trigger] devices[i]),
    ensures
        devices.filter(p) == devices,
    decreases devices.len(),
{
    reveal(Seq::filter);
    if devices.len() > 0 {
        let rest = devices.drop_last();
        assert forall|i: int| 0 <= i < rest.len() implies p(#[trigger] rest[i]) by {
            assert(rest[i] == devices[i]);
        }
        lemma_filter_all(rest, p);
        assert(p(devices[devices.len() - 1]));
        assert(devices =~= rest.push(devices.last()));
    }
}

/// A device that was plugged in is there after the others. A keyboard has its lights set, and clients
/// are told about a tablet.
pub proof fn plugged_in_devices_are_there(
    state: &mut State,
    device: InputDevice,
    new: NewDevice,
)
    requires
        call_ensures(State::on_device_added, (state, device), new),
    ensures
        final(state).fht.devices@ == old(state).fht.devices@.push(device),
        new.update_leds <==> device.keyboard,
        new.add_tablet <==> device.tablet,
        final(state).fht.outputs == old(state).fht.outputs,
{
}

/// A device that was unplugged is not there any more, and every other one is. Tools go with the last
/// tablet.
pub proof fn unplugged_devices_are_gone(
    state: &mut State,
    device: InputDevice,
    left: usize,
    clear_tools: bool,
    other: InputDevice,
)
    requires
        call_ensures(State::on_device_removed, (state, device, left), clear_tools),
    ensures
        final(state).fht.devices@.contains(other) <==> old(state).fht.devices@.contains(other)
            && other.id != device.id,
        clear_tools <==> device.tablet && left == 0,
{
    let all = old(state).fht.devices@;
    let p = other_device(device.id);
    let kept = all.filter(p);
    if kept.contains(other) {
        let i = choose|i: int| 0 <= i < kept.len() && kept[i] == other;
        all.lemma_filter_pred(p, i);
        all.lemma_filter_contains_rev(p, other);
    }
    if all.contains(other) && p(other) {
        let i = choose|i: int| 0 <= i < all.len() && all[i] == other;
        all.lemma_filter_contains(p, i);
    }
}

/// The lights are shown by exactly the devices with keys.
pub proof fn keyboards_show_the_lights(
    state: &State,
    keyboards: Vec<InputDevice>,
    device: InputDevice,
)
    requires
        call_ensures(State::led_state_changed, (state,), keyboards),
    ensures
        keyboards@.contains(device) <==> state.fht.devices@.contains(device) && device.keyboard,
{
    let all = state.fht.devices@;
    let p = is_keyboard();
    let kept = all.filter(p);
    if kept.contains(device) {
        let i = choose|i: int| 0 <= i < kept.len() && kept[i] == device;
        all.lemma_filter_pred(p, i);
        all.lemma_filter_contains_rev(p, device);
    }
    if all.contains(device) && p(device) {
        let i = choose|i: int| 0 <= i < all.len() && all[i] == device;
        all.lemma_filter_contains(p, i);
    }
}

/// A tool changes the cursor unless the user is moving or resizing something.
pub proof fn tools_leave_the_cursor_of_grabs(state: &State, change: bool)
    requires
        call_ensures(State::tablet_tool_image, (state,), change),
    ensures
        change <==> !state.fht.resize_grab_active && !state.fht.interactive_grab_active,
{
}

} // verus!
