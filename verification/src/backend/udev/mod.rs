//! The DRM backend, for running on a TTY.
use vstd::prelude::*;

pub mod cleanup;
pub mod connector;
pub mod debug;
pub mod device;
pub mod mode;
pub mod properties;
pub mod reload;

use crate::config::output::{OutputConfig, OutputsConfig};
use crate::frame_clock::{ClockState, FrameClock};
use crate::output::{AfterRender, FrameOutcome, OutputState};
use crate::seqs::{
    first_index, is_first_index, lemma_filter_take_succ, lemma_first_index, lemma_first_index_is,
    lemma_first_index_none,
};
use crate::state::{draws_all, lemma_draws_all, Fht};
use crate::text::{decimal, spec_output_name};
use crate::time::Duration;
use cleanup::{cleanup_device, is_cleanup, scanned_connectors, CleanupPlan, DeviceState};
use connector::{Connected, ConnectorInfo, DisplayInfo};
use device::{
    on_crtc, shows, spec_lease, ClaimedPlanes, Device, DeviceRemoval, DrmScanEvent, LeaseRejected,
    LeasedConnector, RemovedConnector, Surface, Tables,
};
use mode::{can_request, Mode};
use reload::{
    connected_connectors_are_enabled, device_reload_wf, DeviceReload, ScannedInfo, SurfaceStatus,
};

verus! {

/// Where the primary GPU was found. Nodes go by their device numbers.
#[derive(Clone, Copy, Debug, PartialEq, Eq, Structural)]
#[allow(inconsistent_fields)]
pub enum PrimarySource {
    /// The user named a render node, of which `primary` is the primary node if it has one.
    Configured { render: u64, primary: Option<u64> },
    /// The seat has a primary node, of which `render` is the render node if it has one.
    Seat { primary: u64, render: Option<u64> },
}

/// A kind of DRM error.
#[derive(Clone, Copy, Debug, PartialEq, Eq, Structural)]
pub enum DrmErrorKind {
    DeviceInactive,
    /// The kernel refused access for want of permission.
    PermissionDenied,
    /// The kernel refused access for another reason.
    Access,
    TestFailed,
    Other,
}

/// Why a frame could not be drawn.
#[derive(Clone, Copy, Debug, PartialEq, Eq, Structural)]
pub enum SwapBuffersError {
    AlreadySwapped,
    TemporaryFailure(DrmErrorKind),
    ContextLost(DrmErrorKind),
}

/// Why an output was not rendered.
#[derive(Clone, Copy, Debug, PartialEq, Eq, Structural)]
pub enum RenderError {
    /// There was nothing to draw into.
    BindFailed,
    DeviceInactive,
    AlreadySwapped,
    TemporaryFailure,
}

/// Which device renders a surface.
#[derive(Clone, Copy, Debug, PartialEq, Eq, Structural)]
pub enum RendererChoice {
    /// The node that also shows it.
    Single(u64),
    /// The node `render`; the result is then copied to the node `target`.
    Copy { render: u64, target: u64 },
}

/// What to do after a frame was drawn, or could not be drawn.
#[derive(Clone, Copy, Debug)]
pub struct Rendered {
    /// Whether the state of the whole device has to be reset.
    pub reset_device: bool,
    pub after: AfterRender,
}

/// Why the gamma ramps of an output are not available.
#[derive(Clone, Copy, Debug, PartialEq, Eq, Structural)]
pub enum GammaError {
    /// The output does not belong to this backend.
    InvalidOutput,
    DeviceNotFound,
    SurfaceNotFound,
    /// The surface has no ramps.
    Unavailable,
    SizeMismatch { expected: usize, got: usize },
}

/// What adding a device calls for.
#[derive(Clone, Copy, Debug, PartialEq, Eq, Structural)]
pub struct DeviceAdded {
    /// Whether this is the device that does the rendering, which brings up buffer sharing.
    pub primary: bool,
    /// Whether explicit synchronization becomes available with this device.
    pub enable_syncobj: bool,
}

/// What follows from a scan of the connectors of a device.
#[derive(Debug)]
pub struct DeviceChange {
    /// What there is to do for the connectors that went away.
    pub removed: Vec<RemovedConnector>,
    /// How the device is cleaned up, if it is.
    pub cleanup: Option<CleanupPlan>,
    /// What the configuration means for each device.
    pub reloads: Vec<DeviceReload>,
}

/// No surface shows the output.
#[derive(Clone, Copy, Debug, PartialEq, Eq, Structural)]
pub struct NoMatchingOutput;

/// The udev session data.
#[derive(Debug)]
pub struct UdevData {
    /// The render node that does all drawing.
    pub primary_gpu: u64,
    pub primary_node: u64,
    /// The devices, each node once.
    pub devices: Vec<Device>,
    /// Whether clients can share buffers with the primary device.
    pub dmabuf_global: bool,
    /// Whether clients can synchronize explicitly.
    pub syncobj_state: bool,
}

/// Whether a device has the given node.
pub open spec fn on_node(node: u64) -> spec_fn(Device) -> bool {
    |device: Device| device.node == node
}

/// Whether a device has a surface that shows `output`.
pub open spec fn device_shows(output: u64) -> spec_fn(Device) -> bool {
    |device: Device| first_index(device.surfaces@, shows(output)) is Some
}

/// The CRTC of a surface.
pub open spec fn crtc_of() -> spec_fn(Surface) -> u32 {
    |surface: Surface| surface.crtc
}

/// Whether a device hands out leases.
pub open spec fn is_leasing() -> spec_fn(Device) -> bool {
    |device: Device| device.leasing
}

/// The node of a device.
pub open spec fn node_of() -> spec_fn(Device) -> u64 {
    |device: Device| device.node
}

/// Where a surface of the device `node` is.
pub open spec fn place_on(node: u64) -> spec_fn(Surface) -> (u64, u32) {
    |surface: Surface| (node, surface.crtc)
}

/// How a rendering error is dealt with: whether the device is reset, or the error to report.
///
/// A context that is lost for another reason than a failed test is beyond repair.
pub open spec fn swap_error_policy(err: SwapBuffersError) -> Result<bool, RenderError> {
    match err {
        SwapBuffersError::AlreadySwapped => Err(RenderError::AlreadySwapped),
        SwapBuffersError::TemporaryFailure(kind) => match kind {
            DrmErrorKind::DeviceInactive | DrmErrorKind::Access => Ok(false),
            _ => Err(RenderError::TemporaryFailure),
        },
        SwapBuffersError::ContextLost(_) => Ok(true),
    }
}

/// Whether rendering can go on after this error.
pub open spec fn recoverable(err: SwapBuffersError) -> bool {
    err matches SwapBuffersError::ContextLost(kind) ==> kind == DrmErrorKind::TestFailed
}

impl UdevData {
    /// Every device is well-formed, and no two have the same node.
    pub open spec fn wf(&self) -> bool {
        &&& forall|i: int| 0 <= i < self.devices@.len() ==> (#[trigger] self.devices@[i]).wf()
        &&& unique_nodes(self.devices@)
    }

    /// Whether there is a device with this node.
    pub open spec fn has_device(&self, node: u64) -> bool {
        first_index(self.devices@, on_node(node)) is Some
    }

    /// The device with this node.
    pub open spec fn device(&self, node: u64) -> Device {
        self.devices@[first_index(self.devices@, on_node(node))->0]
    }

    /// Nothing but the device with this node differs from `other`.
    pub open spec fn only_device_changed(&self, other: &UdevData, node: u64) -> bool {
        &&& self.primary_gpu == other.primary_gpu
        &&& self.primary_node == other.primary_node
        &&& self.dmabuf_global == other.dmabuf_global
        &&& self.syncobj_state == other.syncobj_state
        &&& self.devices@.len() == other.devices@.len()
        &&& forall|i: int|
            0 <= i < other.devices@.len() && other.devices@[i].node != node
                ==> #[trigger] self.devices@[i] == other.devices@[i]
    }

    /// Where a device that is plugged in goes: in place of the one with the same node, or else at
    /// the end.
    pub open spec fn place_for(&self, node: u64) -> int {
        match first_index(self.devices@, on_node(node)) {
            Some(i) => i,
            None => self.devices@.len() as int,
        }
    }

    /// The device and the surface that show `output`, by their indices.
    pub open spec fn location(&self, output: u64) -> Option<(int, int)> {
        match first_index(self.devices@, device_shows(output)) {
            Some(d) => Some((d, first_index(self.devices@[d].surfaces@, shows(output))->0)),
            None => None,
        }
    }

    /// Start without devices. A node that is missing is stood in for by its counterpart.
    pub fn new(source: PrimarySource) -> (data: UdevData)
        ensures
            data.wf(),
            data.devices@.len() == 0,
            !data.dmabuf_global,
            !data.syncobj_state,
            match source {
                PrimarySource::Configured { render, primary } => data.primary_gpu == render
                    && data.primary_node == match primary {
                    Some(node) => node,
                    None => render,
                },
                PrimarySource::Seat { primary, render } => data.primary_node == primary
                    && data.primary_gpu == match render {
                    Some(node) => node,
                    None => primary,
                },
            },
    {
        let (primary_gpu, primary_node) = match source {
            PrimarySource::Configured { render, primary } => (
                render,
                match primary {
                    Some(node) => node,
                    None => render,
                },
            ),
            PrimarySource::Seat { primary, render } => (
                match render {
                    Some(node) => node,
                    None => primary,
                },
                primary,
            ),
        };
        UdevData {
            primary_gpu,
            primary_node,
            devices: Vec::new(),
            dmabuf_global: false,
            syncobj_state: false,
        }
    }

    /// Where the device with this node stands.
    pub fn device_index(&self, node: u64) -> (r: Option<usize>)
        ensures
            r is Some <==> self.has_device(node),
            r matches Some(i) ==> {
                &&& i < self.devices@.len()
                &&& first_index(self.devices@, on_node(node)) == Some(i as int)
                &&& self.devices@[i as int].node == node
            },
            r is None ==> forall|j: int|
                0 <= j < self.devices@.len() ==> (#[trigger] self.devices@[j]).node != node,
    {
        let mut i: usize = 0;
        while i < self.devices.len()
            invariant
                0 <= i <= self.devices.len(),
                forall|j: int| 0 <= j < i ==> (#[trigger] self.devices@[j]).node != node,
            decreases self.devices.len() - i,
        {
            if self.devices[i].node == node {
                proof {
                    lemma_first_index_is(self.devices@, on_node(node), i as int);
                }
                return Some(i);
            }
            i += 1;
        }
        proof {
            lemma_first_index_none(self.devices@, on_node(node));
        }
        None
    }

    /// The device and the surface that show `output`, by their indices.
    pub fn find_output(&self, output: u64) -> (r: Option<(usize, usize)>)
        ensures
            r is Some <==> self.location(output) is Some,
            r matches Some((d, s)) ==> {
                &&& self.location(output) == Some((d as int, s as int))
                &&& d < self.devices@.len()
                &&& s < self.devices@[d as int].surfaces@.len()
                &&& self.devices@[d as int].surfaces@[s as int].output == output
            },
    {
        let mut i: usize = 0;
        while i < self.devices.len()
            invariant
                0 <= i <= self.devices.len(),
                forall|j: int|
                    0 <= j < i ==> !device_shows(output)(#[trigger] self.devices@[j]),
            decreases self.devices.len() - i,
        {
            if let Some(s) = self.devices[i].output_index(output) {
                proof {
                    assert(device_shows(output)(self.devices@[i as int]));
                    lemma_first_index_is(self.devices@, device_shows(output), i as int);
                }
                return Some((i, s));
            }
            i += 1;
        }
        proof {
            lemma_first_index_none(self.devices@, device_shows(output));
        }
        None
    }

    /// Add a device that was plugged in. While the session is inactive, nothing happens.
    ///
    /// A device without a render node of its own renders on `node`. The primary device brings up
    /// buffer sharing, and explicit synchronization where the kernel supports it; it cannot be
    /// added twice. What is connected to the device is brought up by [`UdevData::plug_in`].
    pub fn device_added(
        &mut self,
        session_active: bool,
        node: u64,
        render_node: Option<u64>,
        leasing: bool,
        registration_token: u64,
        syncobj_supported: bool,
    ) -> (added: Option<DeviceAdded>)
        requires
            old(self).wf(),
            session_active && node == old(self).primary_node ==> !old(self).dmabuf_global && (
            syncobj_supported ==> !old(self).syncobj_state),
        ensures
            final(self).wf(),
            final(self).primary_gpu == old(self).primary_gpu,
            final(self).primary_node == old(self).primary_node,
            !session_active ==> added is None && *final(self) == *old(self),
            session_active ==> {
                let primary = node == old(self).primary_node;
                &&& added == Some(
                    DeviceAdded { primary, enable_syncobj: primary && syncobj_supported },
                )
                &&& final(self).dmabuf_global == (old(self).dmabuf_global || primary)
                &&& final(self).syncobj_state == (old(self).syncobj_state || (primary
                    && syncobj_supported))
                &&& final(self).devices@.len() == if old(self).has_device(node) {
                    old(self).devices@.len()
                } else {
                    old(self).devices@.len() + 1
                }
                &&& first_index(final(self).devices@, on_node(node)) == Some(
                    old(self).place_for(node),
                )
                &&& final(self).device(node).render_node == match render_node {
                    Some(render) => render,
                    None => node,
                }
                &&& final(self).device(node).leasing == leasing
                &&& final(self).device(node).registration_token == registration_token
                &&& final(self).device(node).surfaces@.len() == 0
                &&& final(self).device(node).non_desktop_connectors@.len() == 0
                &&& final(self).device(node).active_leases@.len() == 0
                &&& final(self).device(node).known_crtcs@.len() == 0
                &&& forall|i: int|
                    0 <= i < old(self).devices@.len() && old(self).devices@[i].node != node
                        ==> #[trigger] final(self).devices@[i] == old(self).devices@[i]
            },
    {
        if !session_active {
            return None;
        }
        let render = match render_node {
            Some(render) => render,
            None => node,
        };
        let primary = node == self.primary_node;
        if primary {
            self.dmabuf_global = true;
            if syncobj_supported {
                self.syncobj_state = true;
            }
        }
        let device = Device::new(node, leasing, render, registration_token);
        match self.device_index(node) {
            Some(i) => {
                self.devices[i] = device;
                proof {
                    assert forall|j: int| 0 <= j < i implies (#[trigger] self.devices@[j]).node
                        != node by {
                        assert(old(self).devices@[j].node != old(self).devices@[i as int].node);
                    }
                    lemma_first_index_is(self.devices@, on_node(node), i as int);
                }
            },
            None => {
                self.devices.push(device);
                proof {
                    lemma_first_index_is(
                        self.devices@,
                        on_node(node),
                        old(self).devices@.len() as int,
                    );
                }
            },
        }
        proof {
            let before = old(self).devices@;
            let after = self.devices@;
            assert forall|i: int, j: int| 0 <= i < j < after.len() implies (
            #[trigger] after[i]).node != (#[trigger] after[j]).node by {
                if j < before.len() {
                    assert(before[i].node != before[j].node);
                }
            }
        }
        Some(DeviceAdded { primary, enable_syncobj: primary && syncobj_supported })
    }

    /// Take in a scan of the connectors of a device. While the session is inactive, and for a
    /// device that is not there, nothing happens. What follows from the scan is worked out by
    /// [`UdevData::update_device`].
    pub fn device_changed(
        &mut self,
        session_active: bool,
        node: u64,
        events: &[DrmScanEvent],
    ) -> (removed: Option<Vec<RemovedConnector>>)
        requires
            old(self).wf(),
        ensures
            final(self).wf(),
            final(self).only_device_changed(&*old(self), node),
            removed is Some <==> session_active && old(self).has_device(node),
            removed is None ==> *final(self) == *old(self),
            removed matches Some(removed) ==> {
                let gone = events@.filter_map(device::disconnected_pair());
                let before = old(self).device(node);
                &&& final(self).has_device(node)
                &&& final(self).device(node).same_but_tables(&before)
                &&& final(self).device(node).tables() == before.tables().without_all(gone)
                &&& final(self).device(node).known_crtcs@.to_set()
                    == before.known_crtcs@.to_set().difference(gone.to_set()).union(
                    events@.filter_map(device::connected_pair()).to_set(),
                )
                &&& removed@ == before.tables().removals(before.leasing, gone)
            },
    {
        if !session_active {
            return None;
        }
        match self.device_index(node) {
            Some(i) => {
                let ghost before = self.devices@;
                let device = &mut self.devices[i];
                let removed = device.scan_connectors(events);
                proof {
                    let after = self.devices@;
                    assert(after =~= before.update(i as int, after[i as int]));
                    lemma_same_node_update(before, i as int, after[i as int]);
                    lemma_first_index(before, on_node(node));
                    assert(is_first_index(after, on_node(node), i as int)) by {
                        assert forall|j: int| 0 <= j < i implies !on_node(node)(
                            #[trigger] after[j],
                        ) by {
                            assert(!on_node(node)(before[j]));
                        }
                    }
                    lemma_first_index_is(after, on_node(node), i as int);
                }
                Some(removed)
            },
            None => None,
        }
    }

    /// The surfaces that a device has once the connectors in `gone` went away from the device
    /// `node`.
    pub open spec fn surfaces_left(device: Device, node: u64, gone: Seq<(u32, u32)>) -> Seq<Surface> {
        if device.node == node {
            device.tables().without_all(gone).surfaces
        } else {
            device.surfaces@
        }
    }

    /// Whether modes can be picked for the surfaces that are left once the connectors in `gone`
    /// went away from the device `node`, and the cleanup, if there is one, is about the scan of
    /// that device.
    pub open spec fn can_update(
        &self,
        node: u64,
        gone: Seq<(u32, u32)>,
        cleanup: Option<DeviceState>,
        scans: Seq<Vec<ScannedInfo>>,
        statuses: Seq<SurfaceStatus>,
        outputs: OutputsConfig,
    ) -> bool {
        &&& scans.len() == self.devices@.len()
        &&& cleanup matches Some(state) ==> state.connectors@.len() == scans[first_index(
            self.devices@,
            on_node(node),
        )->0]@.len()
        &&& forall|d: int|
            0 <= d < self.devices@.len() ==> device_reload_wf(
                (#[trigger] self.devices@[d]).node,
                Self::surfaces_left(self.devices@[d], node, gone),
                scans[d]@,
                statuses,
                outputs,
            )
    }

    /// Whether `change` is what follows from new connectors on the device `node`, when the devices
    /// are up to date: what is cleaned up, and what the configuration means for all of them.
    pub open spec fn is_change(
        &self,
        change: DeviceChange,
        node: u64,
        cleanup: Option<DeviceState>,
        scans: Seq<Vec<ScannedInfo>>,
        statuses: Seq<SurfaceStatus>,
        outputs: OutputsConfig,
    ) -> bool {
        &&& match (cleanup, change.cleanup) {
            (Some(state), Some(plan)) => is_cleanup(
                plan,
                state.atomic,
                state.crtcs@,
                scanned_connectors(
                    scans[first_index(self.devices@, on_node(node))->0]@,
                    state.connectors@,
                    outputs,
                ),
                state.planes@,
            ),
            (None, None) => true,
            _ => false,
        }
        &&& change.reloads@.len() == self.devices@.len()
        &&& forall|d: int|
            0 <= d < self.devices@.len() ==> (#[trigger] change.reloads@[d]).is_for(
                self.devices@[d],
                scans[d]@,
                statuses,
                outputs,
                false,
            )
    }

    /// Take in a scan of the connectors of a device, and work out what follows from it; see
    /// [`UdevData::device_changed`]. Where `cleanup` is given, the device is brought back into a
    /// known state. Then the outputs are reloaded, which connects new connectors.
    ///
    /// `scans` tells about each device what its scanner knows by now, and `statuses` how the
    /// surfaces look.
    pub fn update_device(
        &mut self,
        session_active: bool,
        node: u64,
        events: &[DrmScanEvent],
        cleanup: Option<&DeviceState>,
        scans: &[Vec<ScannedInfo>],
        statuses: &[SurfaceStatus],
        outputs: &OutputsConfig,
    ) -> (change: Option<DeviceChange>)
        requires
            old(self).wf(),
            session_active && old(self).has_device(node) ==> old(self).can_update(
                node,
                events@.filter_map(device::disconnected_pair()),
                opt_deref(cleanup),
                scans@,
                statuses@,
                *outputs,
            ),
        ensures
            final(self).wf(),
            final(self).only_device_changed(&*old(self), node),
            change is Some <==> session_active && old(self).has_device(node),
            change is None ==> *final(self) == *old(self),
            change matches Some(change) ==> {
                let gone = events@.filter_map(device::disconnected_pair());
                let before = old(self).device(node);
                &&& final(self).has_device(node)
                &&& first_index(final(self).devices@, on_node(node)) == first_index(
                    old(self).devices@,
                    on_node(node),
                )
                &&& final(self).device(node).same_but_tables(&before)
                &&& final(self).device(node).tables() == before.tables().without_all(gone)
                &&& final(self).device(node).known_crtcs@.to_set()
                    == before.known_crtcs@.to_set().difference(gone.to_set()).union(
                    events@.filter_map(device::connected_pair()).to_set(),
                )
                &&& change.removed@ == before.tables().removals(before.leasing, gone)
                &&& final(self).is_change(
                    change,
                    node,
                    opt_deref(cleanup),
                    scans@,
                    statuses@,
                    *outputs,
                )
            },
    {
        let ghost devices = self.devices@;
        let removed = match self.device_changed(session_active, node, events) {
            Some(removed) => removed,
            None => {
                return None;
            },
        };
        let ghost gone = events@.filter_map(device::disconnected_pair());
        proof {
            let i = first_index(devices, on_node(node))->0;
            lemma_first_index(devices, on_node(node));
            lemma_first_index(self.devices@, on_node(node));
            let k = first_index(self.devices@, on_node(node))->0;
            lemma_same_place(devices, self.devices@, node, i, k);
            assert forall|d: int| 0 <= d < self.devices@.len() implies device_reload_wf(
                (#[trigger] self.devices@[d]).node,
                self.devices@[d].surfaces@,
                scans@[d]@,
                statuses@,
                *outputs,
            ) by {
                assert(device_reload_wf(
                    devices[d].node,
                    Self::surfaces_left(devices[d], node, gone),
                    scans@[d]@,
                    statuses@,
                    *outputs,
                ));
                if devices[d].node == node {
                    if d != i {
                        assert(devices[if d < i { d } else { i }].node != devices[if d < i {
                            i
                        } else {
                            d
                        }].node);
                    }
                    assert(self.devices@[d].surfaces@ == self.device(node).tables().surfaces);
                }
            }
        }
        let plan = match cleanup {
            Some(state) => match self.device_index(node) {
                Some(i) => Some(cleanup_device(scans[i].as_slice(), state, outputs)),
                None => None,
            },
            None => None,
        };
        let reloads = self.reload_output_configuration(scans, statuses, outputs, false);
        Some(DeviceChange { removed, cleanup: plan, reloads })
    }

    /// Add a device that was plugged in, and bring up what is connected to it; see
    /// [`UdevData::device_added`] and [`UdevData::update_device`]. The device is cleaned up, since
    /// another program may have used it before. While the session is inactive, nothing happens.
    ///
    /// `scans` tells about each device what its scanner knows, the new one at the place of the one
    /// that had its node before, or else at the end.
    pub fn plug_in(
        &mut self,
        session_active: bool,
        node: u64,
        render_node: Option<u64>,
        leasing: bool,
        registration_token: u64,
        syncobj_supported: bool,
        events: &[DrmScanEvent],
        state: &DeviceState,
        scans: &[Vec<ScannedInfo>],
        statuses: &[SurfaceStatus],
        outputs: &OutputsConfig,
    ) -> (r: Option<(DeviceAdded, DeviceChange)>)
        requires
            old(self).wf(),
            session_active && node == old(self).primary_node ==> !old(self).dmabuf_global && (
            syncobj_supported ==> !old(self).syncobj_state),
            session_active ==> {
                let place = old(self).place_for(node);
                &&& scans@.len() == if old(self).has_device(node) {
                    old(self).devices@.len()
                } else {
                    old(self).devices@.len() + 1
                }
                &&& state.connectors@.len() == scans@[place]@.len()
                &&& forall|d: int|
                    0 <= d < old(self).devices@.len() && (#[trigger] old(
                        self,
                    ).devices@[d]).node != node ==> device_reload_wf(
                        old(self).devices@[d].node,
                        old(self).devices@[d].surfaces@,
                        scans@[d]@,
                        statuses@,
                        *outputs,
                    )
            },
        ensures
            final(self).wf(),
            r is Some <==> session_active,
            r is None ==> *final(self) == *old(self),
            r matches Some((added, change)) ==> {
                let primary = node == old(self).primary_node;
                &&& added == (DeviceAdded { primary, enable_syncobj: primary && syncobj_supported })
                &&& final(self).primary_gpu == old(self).primary_gpu
                &&& final(self).primary_node == old(self).primary_node
                &&& final(self).dmabuf_global == (old(self).dmabuf_global || primary)
                &&& final(self).syncobj_state == (old(self).syncobj_state || (primary
                    && syncobj_supported))
                &&& final(self).devices@.len() == scans@.len()
                &&& first_index(final(self).devices@, on_node(node)) == Some(
                    old(self).place_for(node),
                )
                &&& final(self).device(node).render_node == match render_node {
                    Some(render) => render,
                    None => node,
                }
                &&& final(self).device(node).leasing == leasing
                &&& final(self).device(node).registration_token == registration_token
                &&& final(self).device(node).surfaces@.len() == 0
                &&& final(self).device(node).non_desktop_connectors@.len() == 0
                &&& final(self).device(node).active_leases@.len() == 0
                &&& final(self).device(node).known_crtcs@.to_set() == events@.filter_map(
                    device::connected_pair(),
                ).to_set()
                &&& forall|d: int|
                    0 <= d < old(self).devices@.len() && old(self).devices@[d].node != node
                        ==> #[trigger] final(self).devices@[d] == old(self).devices@[d]
                &&& final(self).is_change(
                    change,
                    node,
                    Some(*state),
                    scans@,
                    statuses@,
                    *outputs,
                )
            },
    {
        let ghost devices = self.devices@;
        let ghost place = self.place_for(node);
        let added = match self.device_added(
            session_active,
            node,
            render_node,
            leasing,
            registration_token,
            syncobj_supported,
        ) {
            Some(added) => added,
            None => {
                return None;
            },
        };
        let ghost gone = events@.filter_map(device::disconnected_pair());
        let ghost fresh = self.device(node);
        proof {
            lemma_first_index(self.devices@, on_node(node));
            lemma_without_all_empty(fresh.tables(), gone);
            assert forall|d: int| 0 <= d < self.devices@.len() implies device_reload_wf(
                (#[trigger] self.devices@[d]).node,
                Self::surfaces_left(self.devices@[d], node, gone),
                scans@[d]@,
                statuses@,
                *outputs,
            ) by {
                if d == place {
                    assert(self.devices@[d] == fresh);
                } else {
                    assert(d < devices.len());
                    if devices[d].node == node {
                        lemma_first_index(devices, on_node(node));
                        assert(devices[if d < place { d } else { place }].node != devices[if d
                            < place {
                            place
                        } else {
                            d
                        }].node);
                    }
                    assert(self.devices@[d] == devices[d]);
                }
            }
        }
        let change = match self.update_device(
            session_active,
            node,
            events,
            Some(state),
            scans,
            statuses,
            outputs,
        ) {
            Some(change) => change,
            None => {
                return None;
            },
        };
        proof {
            assert(fresh.known_crtcs@.to_set() =~= Set::empty());
            assert(Set::<(u32, u32)>::empty().difference(gone.to_set()) =~= Set::empty());
            let known = events@.filter_map(device::connected_pair()).to_set();
            assert(Set::<(u32, u32)>::empty().union(known) =~= known);
        }
        Some((added, change))
    }

    /// The surfaces of the device `node` that start over when its cleanup failed, by their CRTCs.
    /// They read the state of the device again, and their next frames are drawn in full.
    pub fn reset_surfaces(&self, node: u64) -> (crtcs: Vec<u32>)
        ensures
            crtcs@ == if self.has_device(node) {
                self.device(node).surfaces@.map_values(crtc_of())
            } else {
                Seq::empty()
            },
    {
        let mut crtcs: Vec<u32> = Vec::new();
        if let Some(i) = self.device_index(node) {
            let device = &self.devices[i];
            let mut s: usize = 0;
            while s < device.surfaces.len()
                invariant
                    0 <= s <= device.surfaces.len(),
                    crtcs@.len() == s,
                    forall|j: int| 0 <= j < s ==> #[trigger] crtcs@[j] == device.surfaces@[j].crtc,
                decreases device.surfaces.len() - s,
            {
                crtcs.push(device.surfaces[s].crtc);
                s += 1;
            }
            assert(crtcs@ =~= device.surfaces@.map_values(crtc_of()));
        }
        crtcs
    }

    /// The nodes of the devices that hand out leases.
    pub fn leasing_nodes(&self) -> (nodes: Vec<u64>)
        ensures
            nodes@ == self.devices@.filter(is_leasing()).map_values(node_of()),
    {
        let mut nodes: Vec<u64> = Vec::new();
        let mut i: usize = 0;
        assert(self.devices@.take(0).filter(is_leasing()) =~= Seq::empty()) by {
            reveal(Seq::filter);
        }
        while i < self.devices.len()
            invariant
                0 <= i <= self.devices.len(),
                nodes@ =~= self.devices@.take(i as int).filter(is_leasing()).map_values(node_of()),
            decreases self.devices.len() - i,
        {
            proof {
                lemma_filter_take_succ(self.devices@, is_leasing(), i as int);
            }
            if self.devices[i].leasing {
                nodes.push(self.devices[i].node);
            }
            i += 1;
        }
        assert(self.devices@.take(self.devices@.len() as int) =~= self.devices@);
        nodes
    }

    /// The session is paused: all devices are, and their leases end. Returns the nodes of the
    /// devices that hand out no leases for now.
    pub fn pause_session(&mut self) -> (suspended: Vec<u64>)
        requires
            old(self).wf(),
        ensures
            final(self).wf(),
            final(self).primary_gpu == old(self).primary_gpu,
            final(self).primary_node == old(self).primary_node,
            final(self).dmabuf_global == old(self).dmabuf_global,
            final(self).syncobj_state == old(self).syncobj_state,
            final(self).devices@.len() == old(self).devices@.len(),
            forall|i: int|
                0 <= i < old(self).devices@.len() ==> #[trigger] final(self).devices@[i].is_paused(
                    &old(self).devices@[i],
                ),
            suspended@ == old(self).devices@.filter(is_leasing()).map_values(node_of()),
    {
        let suspended = self.leasing_nodes();
        let ghost before = self.devices@;
        let mut i: usize = 0;
        while i < self.devices.len()
            invariant
                0 <= i <= self.devices.len(),
                before == old(self).devices@,
                *self == (UdevData { devices: self.devices, ..*old(self) }),
                self.devices@.len() == before.len(),
                forall|j: int| 0 <= j < before.len() ==> (#[trigger] before[j]).wf(),
                forall|j: int|
                    0 <= j < i ==> (#[trigger] self.devices@[j]).wf() && self.devices@[j].is_paused(
                        &before[j],
                    ),
                forall|j: int| i <= j < before.len() ==> #[trigger] self.devices@[j] == before[j],
            decreases self.devices.len() - i,
        {
            let device = &mut self.devices[i];
            device.pause();
            i += 1;
        }
        proof {
            assert forall|j: int, k: int| 0 <= j < k < self.devices@.len() implies (
            #[trigger] self.devices@[j]).node != (#[trigger] self.devices@[k]).node by {
                assert(before[j].node != before[k].node);
            }
        }
        suspended
    }

    /// The session is resumed: the user did something, and every output is redrawn. Returns whether
    /// clients have to be told about the activity, and the nodes of the devices that hand out
    /// leases again.
    pub fn resume_session(&self, fht: &mut Fht) -> (r: (bool, Vec<u64>))
        ensures
            r.0 == !old(fht).notified_idle_state,
            r.1@ == self.devices@.filter(is_leasing()).map_values(node_of()),
            *final(fht) == (Fht {
                notified_idle_state: true,
                outputs: final(fht).outputs,
                ..*old(fht)
            }),
            final(fht).all_queued(&*old(fht)),
    {
        let notify = fht.idle_notify_activity();
        fht.queue_redraw_all();
        (notify, self.leasing_nodes())
    }

    /// The output behind a connector is brought up: its surface is noted, and the output is shown,
    /// with the mode that was accepted and the refresh interval of that mode.
    pub fn output_connected(
        &mut self,
        fht: &mut Fht,
        node: u64,
        surface: Surface,
        mode: Mode,
        refresh_interval: Duration,
        vrr: bool,
    )
        requires
            old(self).wf(),
            old(self).has_device(node),
            0 < refresh_interval@ <= u64::MAX,
            mode.htotal != 0,
            mode.vtotal != 0,
        ensures
            final(self).wf(),
            final(self).only_device_changed(&*old(self), node),
            ({
                let i = first_index(old(self).devices@, on_node(node))->0;
                let before = old(self).devices@[i];
                let after = final(self).devices@[i];
                &&& after.same_but_tables(&before)
                &&& after.known_crtcs == before.known_crtcs
                &&& after.non_desktop_connectors == before.non_desktop_connectors
                &&& after.surfaces@ == match first_index(before.surfaces@, on_crtc(surface.crtc)) {
                    Some(s) => before.surfaces@.update(s, surface),
                    None => before.surfaces@.push(surface),
                }
            }),
            final(fht).same_but_outputs(&*old(fht)),
            final(fht).gained_output(
                &*old(fht),
                surface.output,
                ClockState { interval: Some(refresh_interval@), last: None, vrr },
                Some(mode::output_mode(mode)),
            ),
    {
        if let Some(i) = self.device_index(node) {
            let ghost before = self.devices@;
            let device = &mut self.devices[i];
            device.insert_surface(surface);
            proof {
                let after = self.devices@;
                assert(after =~= before.update(i as int, after[i as int]));
                lemma_same_node_update(before, i as int, after[i as int]);
            }
        }
        fht.add_output(
            surface.output,
            FrameClock::new(Some(refresh_interval), vrr),
            Some(mode::to_output_mode(&mode)),
        );
    }

    /// Take down a device that was unplugged; `crtcs` are its connectors with their CRTCs. While
    /// the session is inactive, and for a device that is not there, nothing happens.
    pub fn device_removed(
        &mut self,
        session_active: bool,
        node: u64,
        crtcs: &[(u32, u32)],
    ) -> (removal: Option<DeviceRemoval>)
        requires
            old(self).wf(),
        ensures
            final(self).wf(),
            final(self).primary_gpu == old(self).primary_gpu,
            final(self).primary_node == old(self).primary_node,
            final(self).dmabuf_global == old(self).dmabuf_global,
            final(self).syncobj_state == old(self).syncobj_state,
            removal is Some <==> session_active && old(self).has_device(node),
            removal is None ==> *final(self) == *old(self),
            removal matches Some(removal) ==> {
                let before = old(self).device(node);
                &&& final(self).devices@ == old(self).devices@.remove(
                    first_index(old(self).devices@, on_node(node))->0,
                )
                &&& !final(self).has_device(node)
                &&& removal.connectors@ == before.tables().removals(before.leasing, crtcs@)
                &&& removal.disable_leasing == before.leasing
                &&& removal.render_node == before.render_node
                &&& removal.registration_token == before.registration_token
            },
    {
        if !session_active {
            return None;
        }
        match self.device_index(node) {
            Some(i) => {
                let ghost before = self.devices@;
                let device = self.devices.remove(i);
                proof {
                    let after = self.devices@;
                    assert forall|j: int, k: int| 0 <= j < k < after.len() implies (
                    #[trigger] after[j]).node != (#[trigger] after[k]).node by {
                        let j0 = if j < i { j } else { j + 1 };
                        let k0 = if k < i { k } else { k + 1 };
                        assert(before[j0].node != before[k0].node);
                    }
                    assert forall|j: int| 0 <= j < after.len() implies (
                    #[trigger] after[j]).wf() by {
                        let j0 = if j < i { j } else { j + 1 };
                        assert(before[j0].wf());
                    }
                    assert forall|j: int| 0 <= j < after.len() implies !on_node(node)(
                        #[trigger] after[j],
                    ) by {
                        if j < i {
                            assert(before[j].node != before[i as int].node);
                        } else {
                            assert(before[i as int].node != before[j + 1].node);
                        }
                    }
                    lemma_first_index_none(after, on_node(node));
                }
                Some(device.remove(crtcs))
            },
            None => None,
        }
    }

    /// Bring up a connector that was plugged in on the device `node`.
    pub fn connector_connected(
        &mut self,
        node: u64,
        conn: &ConnectorInfo,
        crtc: u32,
        info: &DisplayInfo,
        non_desktop: bool,
        config: &OutputConfig,
        custom: Option<Mode>,
        nvidia: bool,
    ) -> (connected: Connected)
        requires
            old(self).wf(),
            old(self).has_device(node) && !non_desktop ==> can_request(conn.modes@, config.mode),
        ensures
            final(self).wf(),
            final(self).only_device_changed(&*old(self), node),
            connected is UnknownDevice <==> !old(self).has_device(node),
            connected is UnknownDevice ==> *final(self) == *old(self),
            old(self).has_device(node) ==> {
                &&& final(self).has_device(node)
                &&& final(self).device(node).same_but_tables(&old(self).device(node))
                &&& final(self).device(node).known_crtcs == old(self).device(node).known_crtcs
                &&& final(self).device(node).tables() == if non_desktop {
                    Tables {
                        non_desktop: old(self).device(node).tables().non_desktop.push(
                            (conn.handle, crtc),
                        ),
                        ..old(self).device(node).tables()
                    }
                } else {
                    old(self).device(node).tables()
                }
                &&& connected is NonDesktop <==> non_desktop
                &&& connected matches Connected::NonDesktop(offer) ==> {
                    &&& offer is Some <==> old(self).device(node).leasing
                    &&& offer matches Some(offer) ==> offer.offers(conn, info)
                }
                &&& connected matches Connected::Output(plan) ==> {
                    &&& plan.identity.describes(conn, info, config)
                    &&& connector::is_last_preferred(conn.modes@, plan.preferred)
                    &&& plan.custom == if config.mode is Some {
                        custom
                    } else {
                        None
                    }
                    &&& mode::is_requested_mode(conn.modes@, config.mode, plan.requested)
                    &&& plan.custom matches Some(mode) ==> plan.initial == mode
                    &&& plan.custom is None ==> exists|i: int| #[trigger]
                        mode::is_default_mode(conn.modes@, i) && conn.modes@[i] == plan.initial
                    &&& plan.overlay_planes == !nvidia
                }
            },
    {
        match self.device_index(node) {
            Some(i) => {
                let ghost before = self.devices@;
                let device = &mut self.devices[i];
                let connected = device.connector_connected(
                    crtc,
                    conn,
                    info,
                    non_desktop,
                    config,
                    custom,
                    nvidia,
                );
                proof {
                    let after = self.devices@;
                    assert(after =~= before.update(i as int, after[i as int]));
                    lemma_same_node_update(before, i as int, after[i as int]);
                    lemma_first_index(before, on_node(node));
                    assert(is_first_index(after, on_node(node), i as int)) by {
                        assert forall|j: int| 0 <= j < i implies !on_node(node)(
                            #[trigger] after[j],
                        ) by {
                            assert(!on_node(node)(before[j]));
                        }
                    }
                    lemma_first_index_is(after, on_node(node), i as int);
                }
                connected
            },
            None => Connected::UnknownDevice,
        }
    }

    /// Drop a connector that was unplugged from the device `node`; nothing happens for a device
    /// that is not there.
    pub fn connector_disconnected(&mut self, node: u64, connector: u32, crtc: u32) -> (removed:
        Option<RemovedConnector>)
        requires
            old(self).wf(),
        ensures
            final(self).wf(),
            final(self).only_device_changed(&*old(self), node),
            removed is Some <==> old(self).has_device(node),
            removed is None ==> *final(self) == *old(self),
            removed matches Some(removed) ==> {
                let before = old(self).device(node);
                &&& final(self).has_device(node)
                &&& final(self).device(node).same_but_tables(&before)
                &&& final(self).device(node).known_crtcs == before.known_crtcs
                &&& final(self).device(node).tables() == before.tables().without((connector, crtc))
                &&& removed == before.tables().removal(before.leasing, (connector, crtc))
            },
    {
        match self.device_index(node) {
            Some(i) => {
                let ghost before = self.devices@;
                let device = &mut self.devices[i];
                let removed = device.remove_connector(crtc, connector);
                proof {
                    let after = self.devices@;
                    assert(after =~= before.update(i as int, after[i as int]));
                    lemma_same_node_update(before, i as int, after[i as int]);
                    lemma_first_index(before, on_node(node));
                    assert(is_first_index(after, on_node(node), i as int)) by {
                        assert forall|j: int| 0 <= j < i implies !on_node(node)(
                            #[trigger] after[j],
                        ) by {
                            assert(!on_node(node)(before[j]));
                        }
                    }
                    lemma_first_index_is(after, on_node(node), i as int);
                }
                Some(removed)
            },
            None => None,
        }
    }

    /// Which device renders a surface: the primary one, with a copy where another one shows it.
    pub fn renderer_for(&self, render_node: u64) -> (choice: RendererChoice)
        ensures
            choice == if render_node == self.primary_gpu {
                RendererChoice::Single(render_node)
            } else {
                RendererChoice::Copy { render: self.primary_gpu, target: render_node }
            },
    {
        if render_node == self.primary_gpu {
            RendererChoice::Single(render_node)
        } else {
            RendererChoice::Copy { render: self.primary_gpu, target: render_node }
        }
    }

    /// How to render the surface of `crtc` on the device `node`: an inactive device is an error,
    /// and a surface that is already gone is passed over.
    pub fn render_target(&self, node: u64, crtc: u32, device_active: bool) -> (r: Result<
        Option<RendererChoice>,
        RenderError,
    >)
        requires
            self.has_device(node),
        ensures
            !device_active <==> r == Err::<Option<RendererChoice>, RenderError>(
                RenderError::DeviceInactive,
            ),
            r is Err ==> !device_active,
            r matches Ok(target) ==> match first_index(
                self.device(node).surfaces@,
                on_crtc(crtc),
            ) {
                Some(s) => {
                    let render_node = self.device(node).surfaces@[s].render_node;
                    target == Some(
                        if render_node == self.primary_gpu {
                            RendererChoice::Single(render_node)
                        } else {
                            RendererChoice::Copy { render: self.primary_gpu, target: render_node }
                        },
                    )
                },
                None => target is None,
            },
    {
        if !device_active {
            return Err(RenderError::DeviceInactive);
        }
        match self.device_index(node) {
            Some(i) => match self.devices[i].surface_index(crtc) {
                Some(s) => Ok(Some(self.renderer_for(self.devices[i].surfaces[s].render_node))),
                None => Ok(None),
            },
            None => Ok(None),
        }
    }

    /// Advance the redraw cycle of an output after an attempt to draw a frame.
    ///
    /// An error that will pass counts as a frame without damage. A test that failed means that
    /// another session changed the device, which is reset before the next attempt. Any other
    /// error ends this cycle and leaves the output as it is.
    pub fn render(
        &self,
        state: &mut OutputState,
        frame: Result<FrameOutcome, SwapBuffersError>,
        target: Duration,
        now: Duration,
    ) -> (r: Result<Rendered, RenderError>)
        requires
            match frame {
                Ok(outcome) => old(state).can_finish(outcome, target@, now@),
                Err(err) => recoverable(err) && (swap_error_policy(err) is Ok ==> old(
                    state,
                ).can_finish(FrameOutcome::NotSubmitted, target@, now@)),
            },
        ensures
            match frame {
                Ok(outcome) => r matches Ok(rendered) && !rendered.reset_device && old(
                    state,
                ).finished(*final(state), outcome, target@, now@, rendered.after),
                Err(err) => match swap_error_policy(err) {
                    Ok(reset) => r matches Ok(rendered) && rendered.reset_device == reset && old(
                        state,
                    ).finished(
                        *final(state),
                        FrameOutcome::NotSubmitted,
                        target@,
                        now@,
                        rendered.after,
                    ),
                    Err(e) => r == Err::<Rendered, RenderError>(e) && *final(state) == *old(state),
                },
            },
    {
        let (outcome, reset_device) = match frame {
            Ok(outcome) => (outcome, false),
            Err(SwapBuffersError::AlreadySwapped) => {
                return Err(RenderError::AlreadySwapped);
            },
            Err(SwapBuffersError::TemporaryFailure(kind)) => match kind {
                DrmErrorKind::DeviceInactive => (FrameOutcome::NotSubmitted, false),
                DrmErrorKind::Access => (FrameOutcome::NotSubmitted, false),
                _ => {
                    return Err(RenderError::TemporaryFailure);
                },
            },
            Err(SwapBuffersError::ContextLost(_)) => (FrameOutcome::NotSubmitted, true),
        };
        let after = state.finish_render(outcome, target, now);
        Ok(Rendered { reset_device, after })
    }

    /// The surface whose frame was shown, `None` where the device or the surface is gone.
    pub fn on_vblank(&self, node: u64, crtc: u32) -> (surface: Option<Surface>)
        ensures
            surface == if self.has_device(node) {
                match first_index(self.device(node).surfaces@, on_crtc(crtc)) {
                    Some(s) => Some(self.device(node).surfaces@[s]),
                    None => None,
                }
            } else {
                None
            },
    {
        match self.device_index(node) {
            Some(i) => match self.devices[i].surface_index(crtc) {
                Some(s) => Some(self.devices[i].surfaces[s]),
                None => None,
            },
            None => None,
        }
    }

    /// Take over the variable refresh rate setting that the surface of `output` ended up with.
    /// Returns whether there is such a surface; without one nothing happens.
    pub fn update_output_vrr(&self, output: u64, state: &mut OutputState, enabled: bool) -> (found:
        bool)
        ensures
            found == (self.location(output) is Some),
            !found ==> *final(state) == *old(state),
            found ==> {
                &&& final(state).redraw_state == old(state).redraw_state
                &&& final(state).current_frame_sequence == old(state).current_frame_sequence
                &&& final(state).animations_running == old(state).animations_running
                &&& final(state).frame_clock@ == old(state).frame_clock@.with_vrr(enabled)
            },
    {
        match self.find_output(output) {
            Some(_) => {
                state.frame_clock.set_vrr(enabled);
                true
            },
            None => false,
        }
    }

    /// Whether `output` uses a variable refresh rate; `surface_vrr` is what its surface says.
    pub fn vrr_enabled(&self, output: u64, surface_vrr: bool) -> (r: Result<bool, NoMatchingOutput>)
        ensures
            r == match self.location(output) {
                Some(_) => Ok(surface_vrr),
                None => Err(NoMatchingOutput),
            },
    {
        match self.find_output(output) {
            Some(_) => Ok(surface_vrr),
            None => Err(NoMatchingOutput),
        }
    }

    /// The length of the gamma ramps of an output. `place` is its device and CRTC, and `length`
    /// what the surface there says.
    pub open spec fn spec_gamma_size(
        &self,
        place: Option<(u64, u32)>,
        length: Option<usize>,
    ) -> Result<usize, GammaError> {
        match place {
            None => Err(GammaError::InvalidOutput),
            Some((node, crtc)) => if !self.has_device(node) {
                Err(GammaError::DeviceNotFound)
            } else if first_index(self.device(node).surfaces@, on_crtc(crtc)) is None {
                Err(GammaError::SurfaceNotFound)
            } else {
                match length {
                    Some(length) => Ok(length),
                    None => Err(GammaError::Unavailable),
                }
            },
        }
    }

    /// The length of the gamma ramps of an output. `place` is its device and CRTC, and `length`
    /// what the surface there says.
    pub fn gamma_size(&self, place: Option<(u64, u32)>, length: Option<usize>) -> (r: Result<
        usize,
        GammaError,
    >)
        ensures
            r == self.spec_gamma_size(place, length),
    {
        match place {
            None => Err(GammaError::InvalidOutput),
            Some((node, crtc)) => match self.device_index(node) {
                None => Err(GammaError::DeviceNotFound),
                Some(i) => match self.devices[i].surface_index(crtc) {
                    None => Err(GammaError::SurfaceNotFound),
                    Some(_) => match length {
                        Some(length) => Ok(length),
                        None => Err(GammaError::Unavailable),
                    },
                },
            },
        }
    }

    /// Check that gamma ramps can be set: the length of the red one has to be that of the
    /// surface. Returns the ramps to set.
    pub fn set_gamma(
        &self,
        place: Option<(u64, u32)>,
        length: Option<usize>,
        r: Vec<u16>,
        g: Vec<u16>,
        b: Vec<u16>,
    ) -> (result: Result<(Vec<u16>, Vec<u16>, Vec<u16>), GammaError>)
        ensures
            result == match self.spec_gamma_size(place, length) {
                Err(err) => Err(err),
                Ok(expected) => if expected == r@.len() {
                    Ok((r, g, b))
                } else {
                    Err(GammaError::SizeMismatch { expected, got: r@.len() as usize })
                },
            },
    {
        match self.gamma_size(place, length) {
            Err(err) => Err(err),
            Ok(expected) => if expected != r.len() {
                Err(GammaError::SizeMismatch { expected, got: r.len() })
            } else {
                Ok((r, g, b))
            },
        }
    }

    /// Note a lease that was given out on the device `node`.
    pub fn new_active_lease(&mut self, node: u64, lease: u32)
        requires
            old(self).wf(),
            old(self).has_device(node),
        ensures
            final(self).wf(),
            final(self).only_device_changed(&*old(self), node),
            ({
                let before = old(self).device(node);
                let i = first_index(old(self).devices@, on_node(node))->0;
                &&& final(self).devices@[i] == (Device {
                    active_leases: final(self).devices@[i].active_leases,
                    ..before
                })
                &&& final(self).devices@[i].active_leases@ == before.active_leases@.push(lease)
            }),
    {
        if let Some(i) = self.device_index(node) {
            let ghost before = self.devices@;
            let device = &mut self.devices[i];
            device.add_active_lease(lease);
            proof {
                let after = self.devices@;
                assert(after =~= before.update(i as int, after[i as int]));
                lemma_same_node_update(before, i as int, after[i as int]);
            }
        }
    }

    /// Forget a lease of the device `node` that ended.
    pub fn lease_destroyed(&mut self, node: u64, lease_id: u32)
        requires
            old(self).wf(),
            old(self).has_device(node),
        ensures
            final(self).wf(),
            final(self).only_device_changed(&*old(self), node),
            ({
                let before = old(self).device(node);
                let i = first_index(old(self).devices@, on_node(node))->0;
                &&& final(self).devices@[i] == (Device {
                    active_leases: final(self).devices@[i].active_leases,
                    ..before
                })
                &&& final(self).devices@[i].active_leases@ == before.active_leases@.filter(
                    device::other_lease(lease_id),
                )
            }),
    {
        if let Some(i) = self.device_index(node) {
            let ghost before = self.devices@;
            let device = &mut self.devices[i];
            device.remove_lease(lease_id);
            proof {
                let after = self.devices@;
                assert(after =~= before.update(i as int, after[i as int]));
                lemma_same_node_update(before, i as int, after[i as int]);
            }
        }
    }

    /// The surfaces of all devices, each by its device and its CRTC.
    pub open spec fn all_surfaces(devices: Seq<Device>) -> Seq<(u64, u32)>
        decreases devices.len(),
    {
        if devices.len() == 0 {
            Seq::empty()
        } else {
            let last = devices.last();
            Self::all_surfaces(devices.drop_last()) + last.surfaces@.map_values(place_on(last.node))
        }
    }

    /// The surfaces of all devices, each by its device and its CRTC. Turning off the outputs clears
    /// each of them, and the next frame turns it on again.
    pub fn disable_outputs(&self) -> (surfaces: Vec<(u64, u32)>)
        ensures
            surfaces@ == Self::all_surfaces(self.devices@),
    {
        let mut surfaces: Vec<(u64, u32)> = Vec::new();
        let mut d: usize = 0;
        assert(self.devices@.take(0) =~= Seq::empty());
        while d < self.devices.len()
            invariant
                0 <= d <= self.devices.len(),
                surfaces@ == Self::all_surfaces(self.devices@.take(d as int)),
            decreases self.devices.len() - d,
        {
            let device = &self.devices[d];
            let ghost before = surfaces@;
            let ghost place = place_on(device.node);
            let mut s: usize = 0;
            assert(surfaces@ =~= before + device.surfaces@.take(0).map_values(place));
            while s < device.surfaces.len()
                invariant
                    0 <= s <= device.surfaces.len(),
                    place == place_on(device.node),
                    surfaces@ == before + device.surfaces@.take(s as int).map_values(place),
                decreases device.surfaces.len() - s,
            {
                surfaces.push((device.node, device.surfaces[s].crtc));
                s += 1;
                assert(surfaces@ =~= before + device.surfaces@.take(s as int).map_values(place));
            }
            proof {
                assert(device.surfaces@.take(device.surfaces@.len() as int) =~= device.surfaces@);
                assert(self.devices@.take(d + 1).drop_last() =~= self.devices@.take(d as int));
                assert(self.devices@.take(d + 1).last() == *device);
            }
            d += 1;
        }
        assert(self.devices@.take(self.devices@.len() as int) =~= self.devices@);
        surfaces
    }

    /// What is reset before switching to another virtual terminal, since other compositors may not
    /// clean up after this one: every device, and the surfaces of all of them.
    pub fn switch_vt(&self) -> (r: (Vec<u64>, Vec<(u64, u32)>))
        ensures
            r.0@ == self.devices@.map_values(node_of()),
            r.1@ == Self::all_surfaces(self.devices@),
    {
        let mut nodes: Vec<u64> = Vec::new();
        let mut d: usize = 0;
        while d < self.devices.len()
            invariant
                0 <= d <= self.devices.len(),
                nodes@ =~= self.devices@.take(d as int).map_values(node_of()),
            decreases self.devices.len() - d,
        {
            nodes.push(self.devices[d].node);
            d += 1;
        }
        assert(self.devices@.take(self.devices@.len() as int) =~= self.devices@);
        (nodes, self.disable_outputs())
    }

    /// Handle a lease request on the device `node`; without the device it is rejected.
    pub fn lease_request(&self, node: u64, connectors: &[u32], claimed: &[ClaimedPlanes]) -> (r:
        Result<Vec<LeasedConnector>, LeaseRejected>)
        requires
            connectors@.len() == claimed@.len(),
        ensures
            r is Ok <==> self.has_device(node) && spec_lease(
                self.device(node).non_desktop_connectors@,
                connectors@,
                claimed@,
            ) is Some,
            r matches Ok(lease) ==> lease@ == spec_lease(
                self.device(node).non_desktop_connectors@,
                connectors@,
                claimed@,
            )->0,
    {
        match self.device_index(node) {
            Some(i) => self.devices[i].lease_request(connectors, claimed),
            None => Err(LeaseRejected),
        }
    }
}

/// No two devices have the same node.
pub open spec fn unique_nodes(devices: Seq<Device>) -> bool {
    forall|i: int, j: int|
        0 <= i < j < devices.len() ==> (#[trigger] devices[i]).node != (#[trigger] devices[j]).node
}

/// The value behind a reference that may be absent.
pub open spec fn opt_deref<T>(r: Option<&T>) -> Option<T> {
    match r {
        Some(value) => Some(*value),
        None => None,
    }
}

proof fn lemma_same_place(before: Seq<Device>, after: Seq<Device>, node: u64, i: int, k: int)
    requires
        before.len() == after.len(),
        unique_nodes(after),
        0 <= i < before.len(),
        0 <= k < after.len(),
        before[i].node == node,
        after[k].node == node,
        unique_nodes(before),
        forall|d: int|
            0 <= d < before.len() && before[d].node != node ==> #[trigger] after[d] == before[d],
    ensures
        i == k,
{
    if i != k {
        assert(before[if i < k { i } else { k }].node != before[if i < k { k } else { i }].node);
        assert(before[k].node != node);
        assert(after[k] == before[k]);
    }
}

proof fn lemma_without_all_empty(tables: Tables, gone: Seq<(u32, u32)>)
    requires
        tables.surfaces.len() == 0,
        tables.non_desktop.len() == 0,
    ensures
        tables.without_all(gone) == tables,
    decreases gone.len(),
{
    if gone.len() > 0 {
        lemma_without_all_empty(tables, gone.drop_last());
    }
}

proof fn lemma_same_node_update(devices: Seq<Device>, i: int, device: Device)
    requires
        0 <= i < devices.len(),
        unique_nodes(devices),
        devices[i].node == device.node,
    ensures
        unique_nodes(devices.update(i, device)),
{
    let after = devices.update(i, device);
    assert forall|j: int, k: int| 0 <= j < k < after.len() implies (#[trigger] after[j]).node != (
    #[trigger] after[k]).node by {
        assert(devices[j].node != devices[k].node);
    }
}

/// Everything that is connected to a device that is plugged in is brought up, unless the
/// configuration turns it off.
pub proof fn plugged_in_outputs_are_enabled(
    data: UdevData,
    change: DeviceChange,
    node: u64,
    cleanup: Option<DeviceState>,
    scans: Seq<Vec<ScannedInfo>>,
    statuses: Seq<SurfaceStatus>,
    outputs: OutputsConfig,
    i: int,
    crtc: u32,
)
    requires
        data.has_device(node),
        data.device(node).surfaces@.len() == 0,
        data.device(node).non_desktop_connectors@.len() == 0,
        data.is_change(change, node, cleanup, scans, statuses, outputs),
        ({
            let scan = scans[first_index(data.devices@, on_node(node))->0]@;
            &&& 0 <= i < scan.len()
            &&& scan[i].info.connected
            &&& scan[i].crtc == Some(crtc)
            &&& !outputs.spec_get(
                spec_output_name(scan[i].info.interface@, scan[i].info.interface_id as nat),
            ).disable
        }),
    ensures
        ({
            let d = first_index(data.devices@, on_node(node))->0;
            change.reloads@[d].enable@.contains((scans[d]@[i].info.handle, crtc))
        }),
{
    let d = first_index(data.devices@, on_node(node))->0;
    let device = data.devices@[d];
    lemma_first_index(data.devices@, on_node(node));
    lemma_first_index_none(device.surfaces@, on_crtc(crtc));
    assert(change.reloads@[d].is_for(device, scans[d]@, statuses, outputs, false));
    connected_connectors_are_enabled(
        change.reloads@[d],
        device,
        scans[d]@,
        statuses,
        outputs,
        false,
        i,
        crtc,
    );
}

/// The primary GPU and its node are those that were found; where one of the two is missing, the
/// other one stands in. There are no devices at first.
pub proof fn the_primary_gpu_is_found(source: PrimarySource, data: UdevData)
    requires
        call_ensures(UdevData::new, (source,), data),
    ensures
        source matches PrimarySource::Configured { render, primary } ==> data.primary_gpu == render
            && (primary matches Some(node) ==> data.primary_node == node) && (primary is None
            ==> data.primary_node == render),
        source matches PrimarySource::Seat { primary, render } ==> data.primary_node == primary && (
        render matches Some(node) ==> data.primary_gpu == node) && (render is None
            ==> data.primary_gpu == primary),
        data.devices@.len() == 0,
        !data.dmabuf_global,
        !data.syncobj_state,
{
}

/// The primary GPU renders everything; what another device shows is copied there.
pub proof fn the_primary_gpu_renders(data: &UdevData, render_node: u64, choice: RendererChoice)
    requires
        call_ensures(UdevData::renderer_for, (data, render_node), choice),
    ensures
        render_node == data.primary_gpu ==> choice == RendererChoice::Single(data.primary_gpu),
        render_node != data.primary_gpu ==> choice == (RendererChoice::Copy {
            render: data.primary_gpu,
            target: render_node,
        }),
{
}

/// A frame goes to the surface of its CRTC, if that is still there, and is an error on a device that
/// is not active; a frame that was shown is one of that surface, too.
pub proof fn frames_go_to_their_surface(
    data: &UdevData,
    node: u64,
    crtc: u32,
    active: bool,
    target: Result<Option<RendererChoice>, RenderError>,
    shown: Option<Surface>,
    d: int,
    s: int,
    choice: RendererChoice,
)
    requires
        data.wf(),
        0 <= d < data.devices@.len(),
        data.devices@[d].node == node,
        0 <= s < data.devices@[d].surfaces@.len(),
        data.devices@[d].surfaces@[s].crtc == crtc,
        call_ensures(UdevData::render_target, (data, node, crtc, active), target),
        call_ensures(UdevData::on_vblank, (data, node, crtc), shown),
        call_ensures(
            UdevData::renderer_for,
            (data, data.devices@[d].surfaces@[s].render_node),
            choice,
        ),
    ensures
        !active ==> target == Err::<Option<RendererChoice>, RenderError>(
            RenderError::DeviceInactive,
        ),
        active ==> target == Ok::<Option<RendererChoice>, RenderError>(Some(choice)),
        shown == Some(data.devices@[d].surfaces@[s]),
{
    lemma_device_at(*data, node, d);
    lemma_surface_at(data.devices@[d], crtc, s);
    assert(call_requires(UdevData::render_target, (data, node, crtc, active)));
}

proof fn lemma_device_at(data: UdevData, node: u64, d: int)
    requires
        data.wf(),
        0 <= d < data.devices@.len(),
        data.devices@[d].node == node,
    ensures
        first_index(data.devices@, on_node(node)) == Some(d),
{
    let p = on_node(node);
    assert forall|j: int| 0 <= j < d implies !p(#[trigger] data.devices@[j]) by {
        assert(data.devices@[j].node != data.devices@[d].node);
    }
    lemma_first_index_is(data.devices@, p, d);
}

proof fn lemma_surface_at(device: Device, crtc: u32, s: int)
    requires
        device.wf(),
        0 <= s < device.surfaces@.len(),
        device.surfaces@[s].crtc == crtc,
    ensures
        first_index(device.surfaces@, on_crtc(crtc)) == Some(s),
{
    let q = on_crtc(crtc);
    assert forall|j: int| 0 <= j < s implies !q(#[trigger] device.surfaces@[j]) by {
        assert(device.surfaces@[j].crtc != device.surfaces@[s].crtc);
    }
    lemma_first_index_is(device.surfaces@, q, s);
}

/// Without a device or a surface there is nothing to render or to show.
pub proof fn missing_surfaces_are_passed_over(
    data: &UdevData,
    node: u64,
    crtc: u32,
    shown: Option<Surface>,
)
    requires
        data.wf(),
        call_ensures(UdevData::on_vblank, (data, node, crtc), shown),
        forall|d: int, s: int|
            0 <= d < data.devices@.len() && data.devices@[d].node == node && 0 <= s
                < data.devices@[d].surfaces@.len() ==> (
            #[trigger] data.devices@[d].surfaces@[s]).crtc != crtc,
    ensures
        shown is None,
{
    lemma_first_index(data.devices@, on_node(node));
    if data.has_device(node) {
        let d = first_index(data.devices@, on_node(node))->0;
        assert(on_node(node)(data.devices@[d]));
        let q = on_crtc(crtc);
        assert forall|j: int| 0 <= j < data.devices@[d].surfaces@.len() implies !q(
            #[trigger] data.devices@[d].surfaces@[j],
        ) by {}
        lemma_first_index_none(data.devices@[d].surfaces@, q);
    }
}

/// A frame that was drawn advances the redraw cycle as [`OutputState::finish_render`] says. An error
/// that passes counts as a frame that was not submitted, and a lost context has the device reset as
/// well. Any other error is told and leaves the output as it is.
pub proof fn passing_errors_do_not_stop_the_cycle(
    data: &UdevData,
    state: &mut OutputState,
    same: &mut OutputState,
    frame: Result<FrameOutcome, SwapBuffersError>,
    target: Duration,
    now: Duration,
    rendered: Result<Rendered, RenderError>,
    counts_as: FrameOutcome,
    after: AfterRender,
)
    requires
        *old(same) == *old(state),
        match frame {
            Ok(outcome) => counts_as == outcome,
            Err(_) => counts_as is NotSubmitted,
        },
        frame matches Err(SwapBuffersError::ContextLost(kind)) ==> kind is TestFailed,
        old(state).can_finish(counts_as, target@, now@),
        call_ensures(UdevData::render, (data, state, frame, target, now), rendered),
        call_ensures(OutputState::finish_render, (same, counts_as, target, now), after),
    ensures
        ({
            let passes = match frame {
                Ok(_) => true,
                Err(SwapBuffersError::AlreadySwapped) => false,
                Err(SwapBuffersError::TemporaryFailure(kind)) => kind is DeviceInactive || kind is
                    Access,
                Err(SwapBuffersError::ContextLost(_)) => true,
            };
            &&& passes ==> rendered is Ok && final(state).redraw_state == final(same).redraw_state
                && final(state).current_frame_sequence == final(same).current_frame_sequence && (
            rendered->Ok_0.reset_device <==> frame is Err && frame->Err_0 is ContextLost)
            &&& passes ==> (rendered->Ok_0.after is WaitForVblank <==> after is WaitForVblank) && (
            rendered->Ok_0.after is KeepTimer <==> after is KeepTimer) && (
            rendered->Ok_0.after is StartTimer ==> after is StartTimer
                && rendered->Ok_0.after->StartTimer_0@ == after->StartTimer_0@)
            &&& !passes ==> rendered is Err && *final(state) == *old(state)
            &&& frame == Err::<FrameOutcome, SwapBuffersError>(SwapBuffersError::AlreadySwapped)
                ==> rendered == Err::<Rendered, RenderError>(RenderError::AlreadySwapped)
        }),
{
    assert(call_requires(UdevData::render, (data, state, frame, target, now)));
    assert(call_requires(OutputState::finish_render, (same, counts_as, target, now)));
}

/// An output is found where a surface shows it, and not at all if none does.
pub proof fn shown_outputs_are_found(
    data: &UdevData,
    output: u64,
    found: Option<(usize, usize)>,
    vrr: bool,
    enabled: Result<bool, NoMatchingOutput>,
)
    requires
        call_ensures(UdevData::find_output, (data, output), found),
        call_ensures(UdevData::vrr_enabled, (data, output, vrr), enabled),
    ensures
        found is Some <==> exists|d: int, s: int|
            0 <= d < data.devices@.len() && 0 <= s < data.devices@[d].surfaces@.len() && (
            #[trigger] data.devices@[d].surfaces@[s]).output == output,
        found matches Some((d, s)) ==> d < data.devices@.len() && s
            < data.devices@[d as int].surfaces@.len()
            && data.devices@[d as int].surfaces@[s as int].output == output,
        found is Some ==> enabled == Ok::<bool, NoMatchingOutput>(vrr),
        found is None ==> enabled is Err,
{
    let p = device_shows(output);
    let q = shows(output);
    lemma_first_index(data.devices@, p);
    if let Some((d, s)) = found {
        assert(data.devices@[d as int].surfaces@[s as int].output == output);
    }
    assert forall|d: int, s: int|
        0 <= d < data.devices@.len() && 0 <= s < data.devices@[d].surfaces@.len() && (
        #[trigger] data.devices@[d].surfaces@[s]).output == output implies found is Some by {
        lemma_first_index(data.devices@[d].surfaces@, q);
        assert(q(data.devices@[d].surfaces@[s]));
        assert(p(data.devices@[d]));
    }
}

/// What the surface of an output ended up with is taken over by the clock of the output: it has that
/// kind of rate, and starts over if that is another one. Nothing happens for an output that no
/// surface shows.
pub proof fn clocks_take_over_the_rate(
    data: &UdevData,
    output: u64,
    state: &mut OutputState,
    enabled: bool,
    found: bool,
    place: Option<(usize, usize)>,
)
    requires
        call_ensures(UdevData::update_output_vrr, (data, output, state, enabled), found),
        call_ensures(UdevData::find_output, (data, output), place),
    ensures
        found <==> place is Some,
        !found ==> *final(state) == *old(state),
        found ==> {
            &&& final(state).frame_clock@.vrr == enabled
            &&& final(state).frame_clock@.interval == old(state).frame_clock@.interval
            &&& old(state).frame_clock@.vrr != enabled ==> final(state).frame_clock@.last is None
            &&& old(state).frame_clock@.vrr == enabled ==> final(state).frame_clock@.last == old(
                state,
            ).frame_clock@.last
            &&& final(state).redraw_state == old(state).redraw_state
        },
{
}

/// Gamma ramps are available for a surface that has some, and can be set if they are as long as
/// those; for anything else the reason is told, and nothing is set.
pub proof fn gamma_ramps_fit_their_surface(
    data: &UdevData,
    node: u64,
    crtc: u32,
    length: Option<usize>,
    r: Vec<u16>,
    g: Vec<u16>,
    b: Vec<u16>,
    size: Result<usize, GammaError>,
    set: Result<(Vec<u16>, Vec<u16>, Vec<u16>), GammaError>,
    d: int,
)
    requires
        data.wf(),
        call_ensures(UdevData::gamma_size, (data, Some((node, crtc)), length), size),
        call_ensures(UdevData::set_gamma, (data, Some((node, crtc)), length, r, g, b), set),
        0 <= d < data.devices@.len(),
        data.devices@[d].node == node,
    ensures
        (forall|s: int|
            0 <= s < data.devices@[d].surfaces@.len() ==> (
            #[trigger] data.devices@[d].surfaces@[s]).crtc != crtc) ==> size == Err::<
            usize,
            GammaError,
        >(GammaError::SurfaceNotFound) && set is Err,
        (exists|s: int|
            0 <= s < data.devices@[d].surfaces@.len() && (
            #[trigger] data.devices@[d].surfaces@[s]).crtc == crtc) ==> match length {
            None => size == Err::<usize, GammaError>(GammaError::Unavailable) && set is Err,
            Some(n) => size == Ok::<usize, GammaError>(n) && (r@.len() == n ==> set == Ok::<
                (Vec<u16>, Vec<u16>, Vec<u16>),
                GammaError,
            >((r, g, b))) && (r@.len() != n ==> set is Err && set->Err_0 is SizeMismatch
                && set->Err_0->expected == n && set->Err_0->got == r@.len()),
        },
{
    lemma_device_at(*data, node, d);
    let q = on_crtc(crtc);
    let surfaces = data.devices@[d].surfaces@;
    lemma_first_index(surfaces, q);
    if first_index(surfaces, q) is Some {
        assert(q(surfaces[first_index(surfaces, q)->0]));
    }
    assert forall|s: int| 0 <= s < surfaces.len() && (#[trigger] surfaces[s]).crtc == crtc implies
        first_index(surfaces, q) is Some by {
        assert(q(surfaces[s]));
    }
    assert(r@.len() as usize == r@.len()) by {
        assert(r.len() == r@.len());
    }
}

/// There are no gamma ramps without an output of this backend, or without its device.
pub proof fn gamma_ramps_need_a_device(
    data: &UdevData,
    place: Option<(u64, u32)>,
    length: Option<usize>,
    size: Result<usize, GammaError>,
)
    requires
        call_ensures(UdevData::gamma_size, (data, place, length), size),
    ensures
        place is None ==> size == Err::<usize, GammaError>(GammaError::InvalidOutput),
        place matches Some((node, _)) ==> ((forall|d: int|
            0 <= d < data.devices@.len() ==> (#[trigger] data.devices@[d]).node != node)
            ==> size == Err::<usize, GammaError>(GammaError::DeviceNotFound)),
{
    if let Some((node, _)) = place {
        lemma_first_index(data.devices@, on_node(node));
        if data.has_device(node) {
            let d = first_index(data.devices@, on_node(node))->0;
            assert(on_node(node)(data.devices@[d]));
        }
    }
}

/// A device that was added has its node, its render node, which is the same if it has none of its
/// own, and nothing else yet; it takes the place of the one with its node, or comes last. The
/// primary one brings up buffer sharing, and explicit synchronization if it can. Other devices are
/// as before, and while the session is inactive nothing happens.
pub proof fn added_devices_are_there(
    data: &mut UdevData,
    active: bool,
    node: u64,
    render: Option<u64>,
    leasing: bool,
    token: u64,
    syncobj: bool,
    added: Option<DeviceAdded>,
    d: int,
    e: int,
)
    requires
        old(data).wf(),
        active && node == old(data).primary_node ==> !old(data).dmabuf_global && (syncobj ==> !old(
            data,
        ).syncobj_state),
        0 <= d <= old(data).devices@.len(),
        d < old(data).devices@.len() ==> old(data).devices@[d].node == node,
        d == old(data).devices@.len() ==> forall|k: int|
            0 <= k < d ==> (#[trigger] old(data).devices@[k]).node != node,
        0 <= e < old(data).devices@.len(),
        e != d,
        call_ensures(
            UdevData::device_added,
            (data, active, node, render, leasing, token, syncobj),
            added,
        ),
    ensures
        !active ==> added is None && *final(data) == *old(data),
        active ==> {
            let device = final(data).devices@[d];
            let primary = node == old(data).primary_node;
            &&& added == Some(DeviceAdded { primary, enable_syncobj: primary && syncobj })
            &&& d < final(data).devices@.len()
            &&& device.node == node
            &&& render matches Some(render) ==> device.render_node == render
            &&& render is None ==> device.render_node == node
            &&& device.leasing == leasing
            &&& device.registration_token == token
            &&& device.surfaces@.len() == 0
            &&& device.known_crtcs@.len() == 0
            &&& final(data).devices@[e] == old(data).devices@[e]
            &&& primary ==> final(data).dmabuf_global && (syncobj ==> final(data).syncobj_state)
            &&& !primary ==> final(data).dmabuf_global == old(data).dmabuf_global && final(
                data
            ).syncobj_state == old(data).syncobj_state
        },
{
    let p = on_node(node);
    if d < old(data).devices@.len() {
        lemma_device_at(*old(data), node, d);
        if e < d {
            assert(old(data).devices@[e].node != old(data).devices@[d].node);
        } else {
            assert(old(data).devices@[d].node != old(data).devices@[e].node);
        }
    } else {
        assert forall|k: int| 0 <= k < d implies !p(#[trigger] old(data).devices@[k]) by {}
        lemma_first_index_none(old(data).devices@, p);
    }
    assert(call_requires(
        UdevData::device_added,
        (data, active, node, render, leasing, token, syncobj),
    ));
    lemma_first_index(final(data).devices@, p);
    if active {
        assert(p(final(data).devices@[d]));
    }
}

/// A device takes in a scan of its connectors, and no other device changes; while the session is
/// inactive nothing happens.
pub proof fn scanned_devices_take_in_the_scan(
    data: &mut UdevData,
    active: bool,
    node: u64,
    events: &[DrmScanEvent],
    removed: Option<Vec<RemovedConnector>>,
    d: int,
    pair: (u32, u32),
)
    requires
        old(data).wf(),
        0 <= d < old(data).devices@.len(),
        old(data).devices@[d].node == node,
        call_ensures(UdevData::device_changed, (data, active, node, events), removed),
    ensures
        !active ==> removed is None && *final(data) == *old(data),
        active ==> removed is Some && final(data).devices@.len() == old(data).devices@.len() && {
            let known = events@.contains(
                DrmScanEvent::Connected { connector: pair.0, crtc: Some(pair.1) },
            ) || old(data).devices@[d].known_crtcs@.contains(pair) && !events@.contains(
                DrmScanEvent::Disconnected { connector: pair.0, crtc: Some(pair.1) },
            );
            &&& final(data).devices@[d].node == node
            &&& final(data).devices@[d].known_crtcs@.contains(pair) <==> known
            &&& final(data).devices@[d].leasing == old(data).devices@[d].leasing
        },
        forall|e: int|
            0 <= e < old(data).devices@.len() && e != d ==> #[trigger] final(data).devices@[e]
                == old(data).devices@[e],
{
    lemma_device_at(*old(data), node, d);
    assert(call_requires(UdevData::device_changed, (data, active, node, events)));
    assert forall|e: int| 0 <= e < old(data).devices@.len() && e != d implies #[trigger] final(
        data
    ).devices@[e] == old(data).devices@[e] by {
        if e < d {
            assert(old(data).devices@[e].node != old(data).devices@[d].node);
        } else {
            assert(old(data).devices@[d].node != old(data).devices@[e].node);
        }
    }
    if active {
        device::lemma_pairs_of_events(events@, pair);
        let k = first_index(final(data).devices@, on_node(node))->0;
        lemma_first_index(final(data).devices@, on_node(node));
        assert(on_node(node)(final(data).devices@[k]));
        lemma_same_place(old(data).devices@, final(data).devices@, node, d, k);
        let after = final(data).devices@[d].known_crtcs@;
        assert(after.to_set().contains(pair) == after.contains(pair));
        let before = old(data).devices@[d].known_crtcs@;
        assert(before.to_set().contains(pair) == before.contains(pair));
    }
}

/// A device that was removed is gone, and what it held is handed back: its leases are disabled, and
/// its render node and its event source are told. The other devices stay, in their order.
pub proof fn removed_devices_are_gone(
    data: &mut UdevData,
    active: bool,
    node: u64,
    crtcs: &[(u32, u32)],
    removal: Option<DeviceRemoval>,
    d: int,
    e: int,
)
    requires
        old(data).wf(),
        0 <= d < old(data).devices@.len(),
        old(data).devices@[d].node == node,
        0 <= e < old(data).devices@.len() - 1,
        call_ensures(UdevData::device_removed, (data, active, node, crtcs), removal),
    ensures
        !active ==> removal is None && *final(data) == *old(data),
        active ==> removal is Some && final(data).devices@.len() == old(data).devices@.len() - 1
            && final(data).devices@[e] == old(data).devices@[if e < d {
            e
        } else {
            e + 1
        }] && removal->0.disable_leasing == old(data).devices@[d].leasing
            && removal->0.render_node == old(data).devices@[d].render_node
            && removal->0.registration_token == old(data).devices@[d].registration_token,
        final(data).primary_gpu == old(data).primary_gpu,
{
    lemma_device_at(*old(data), node, d);
    assert(call_requires(UdevData::device_removed, (data, active, node, crtcs)));
}

/// Turning off the outputs, and switching to another terminal, concern every surface of every device,
/// and every device is reset for the latter.
pub proof fn everything_is_turned_off(
    data: &UdevData,
    surfaces: Vec<(u64, u32)>,
    reset: (Vec<u64>, Vec<(u64, u32)>),
    d: int,
    s: int,
)
    requires
        call_ensures(UdevData::disable_outputs, (data,), surfaces),
        call_ensures(UdevData::switch_vt, (data,), reset),
        0 <= d < data.devices@.len(),
    ensures
        reset.1@ == surfaces@,
        reset.0@.len() == data.devices@.len(),
        reset.0@[d] == data.devices@[d].node,
        0 <= s < data.devices@[d].surfaces@.len() ==> surfaces@.contains(
            (data.devices@[d].node, data.devices@[d].surfaces@[s].crtc),
        ),
{
    lemma_all_surfaces(data.devices@, d, s);
}

proof fn lemma_all_surfaces(devices: Seq<Device>, d: int, s: int)
    requires
        0 <= d < devices.len(),
    ensures
        0 <= s < devices[d].surfaces@.len() ==> UdevData::all_surfaces(devices).contains(
            (devices[d].node, devices[d].surfaces@[s].crtc),
        ),
    decreases devices.len(),
{
    if 0 <= s < devices[d].surfaces@.len() {
        let all = UdevData::all_surfaces(devices);
        let front = UdevData::all_surfaces(devices.drop_last());
        let place = (devices[d].node, devices[d].surfaces@[s].crtc);
        if d == devices.len() - 1 {
            assert(all[front.len() + s] == place);
        } else {
            lemma_all_surfaces(devices.drop_last(), d, s);
            let k = choose|k: int| 0 <= k < front.len() && front[k] == place;
            assert(all[k] == place);
        }
    }
}

/// An output that was brought up has its surface on its device, and is shown, with the mode that was
/// accepted and the interval of that mode; it is drawn as soon as possible. Other devices and
/// outputs are as before.
pub proof fn connected_outputs_are_shown(
    data: &mut UdevData,
    fht: &mut Fht,
    node: u64,
    surface: Surface,
    mode: Mode,
    interval: Duration,
    vrr: bool,
    d: int,
    told: crate::backend::OutputMode,
)
    requires
        old(data).wf(),
        0 <= d < old(data).devices@.len(),
        old(data).devices@[d].node == node,
        0 < interval@ <= u64::MAX,
        mode.htotal != 0,
        mode.vtotal != 0,
        call_ensures(
            UdevData::output_connected,
            (data, fht, node, surface, mode, interval, vrr),
            (),
        ),
        call_ensures(mode::to_output_mode, (&mode,), told),
    ensures
        final(data).devices@.len() == old(data).devices@.len(),
        final(data).devices@[d].surfaces@.contains(surface),
        final(fht).outputs@.len() == old(fht).outputs@.len() + 1,
        final(fht).outputs@.last().id == surface.output,
        final(fht).outputs@.last().mode == Some(told),
        final(fht).outputs@.last().state.frame_clock@.interval == Some(interval@),
        final(fht).outputs@.last().state.frame_clock@.last is None,
        final(fht).outputs@.last().state.frame_clock@.vrr == vrr,
        final(fht).outputs@.last().state.redraw_state is Queued,
        final(fht).outputs@.drop_last() == old(fht).outputs@,
        final(fht).active_output == old(fht).active_output,
{
    lemma_device_at(*old(data), node, d);
    assert(call_requires(
        UdevData::output_connected,
        (data, fht, node, surface, mode, interval, vrr),
    ));
    assert(call_requires(mode::to_output_mode, (&mode,)));
    let s = old(data).devices@[d].surfaces@;
    let q = on_crtc(surface.crtc);
    lemma_first_index(s, q);
    match first_index(s, q) {
        Some(k) => {
            assert(final(data).devices@[d].surfaces@[k] == surface);
        },
        None => {
            assert(final(data).devices@[d].surfaces@[s.len() as int] == surface);
        },
    }
}

/// A paused session has no leases on any device, and a resumed one shows that the user is there and
/// redraws every output. Both tell which devices hand out leases.
pub proof fn sessions_pause_and_resume(
    paused: &mut UdevData,
    suspended: Vec<u64>,
    data: &UdevData,
    fht: &mut Fht,
    resumed: (bool, Vec<u64>),
    d: int,
    leasing: Vec<u64>,
    leasing_before: Vec<u64>,
)
    requires
        call_ensures(UdevData::leasing_nodes, (data,), leasing),
        call_ensures(UdevData::leasing_nodes, (&*old(paused),), leasing_before),
        old(paused).wf(),
        call_ensures(UdevData::pause_session, (paused,), suspended),
        call_ensures(UdevData::resume_session, (data, fht), resumed),
        0 <= d < old(paused).devices@.len(),
    ensures
        final(paused).devices@.len() == old(paused).devices@.len(),
        final(paused).devices@[d].active_leases@.len() == 0,
        final(paused).devices@[d].node == old(paused).devices@[d].node,
        final(paused).devices@[d].surfaces@ == old(paused).devices@[d].surfaces@,
        old(paused).devices@[d].leasing <==> final(paused).devices@[d].leasing,
        suspended@ == leasing_before@,
        resumed.0 == !old(fht).notified_idle_state,
        resumed.1@ == leasing@,
        final(fht).notified_idle_state,
        draws_all(old(fht).outputs@, final(fht).outputs@),
{
    assert(call_requires(UdevData::pause_session, (paused,)));
    assert(final(paused).devices@[d].is_paused(&old(paused).devices@[d]));
    assert(final(paused).devices@[d].tables().surfaces == old(paused).devices@[d].tables().surfaces);
    lemma_draws_all(*old(fht), *final(fht));
}

/// The devices that hand out leases are told, and no other ones.
pub proof fn leasing_devices_are_told(data: &UdevData, nodes: Vec<u64>, node: u64)
    requires
        call_ensures(UdevData::leasing_nodes, (data,), nodes),
    ensures
        nodes@.contains(node) <==> exists|d: int|
            0 <= d < data.devices@.len() && (#[trigger] data.devices@[d]).node == node
                && data.devices@[d].leasing,
{
    let p = is_leasing();
    let all = data.devices@;
    let kept = all.filter(p);
    let told = kept.map_values(node_of());
    if told.contains(node) {
        let i = choose|i: int| 0 <= i < told.len() && told[i] == node;
        let device = kept[i];
        all.lemma_filter_pred(p, i);
        assert(kept.contains(device));
        all.lemma_filter_contains_rev(p, device);
        let d = choose|d: int| 0 <= d < all.len() && all[d] == device;
        assert(all[d].node == node);
    }
    assert forall|d: int|
        0 <= d < all.len() && (#[trigger] all[d]).node == node && all[d].leasing implies told.contains(
        node,
    ) by {
        all.lemma_filter_contains(p, d);
        let i = choose|i: int| 0 <= i < kept.len() && kept[i] == all[d];
        assert(told[i] == node);
    }
}

/// After a scan of a device, a new connector is brought up: one that the scan has connected, with a
/// CRTC that drives nothing by then, that is not for leasing and whose output is not turned off is
/// among those to enable. The connectors that went away are those that [`UdevData::device_changed`]
/// tells about, and the device is cleaned up if that was asked for.
pub proof fn updated_devices_bring_up_connectors(
    data: &mut UdevData,
    same: &mut UdevData,
    active: bool,
    node: u64,
    events: &[DrmScanEvent],
    cleanup: Option<&DeviceState>,
    scans: &[Vec<ScannedInfo>],
    statuses: &[SurfaceStatus],
    outputs: &OutputsConfig,
    change: Option<DeviceChange>,
    removed: Option<Vec<RemovedConnector>>,
    d: int,
    i: int,
    crtc: u32,
)
    requires
        old(data).wf(),
        *old(same) == *old(data),
        active && old(data).has_device(node) ==> old(data).can_update(
            node,
            events@.filter_map(device::disconnected_pair()),
            opt_deref(cleanup),
            scans@,
            statuses@,
            *outputs,
        ),
        call_ensures(
            UdevData::update_device,
            (data, active, node, events, cleanup, scans, statuses, outputs),
            change,
        ),
        call_ensures(UdevData::device_changed, (same, active, node, events), removed),
    ensures
        change is Some <==> removed is Some,
        change is None ==> *final(data) == *old(data),
        change is Some ==> change->0.removed@ == removed->0@ && (change->0.cleanup is Some
            <==> cleanup is Some) && change->0.reloads@.len() == final(data).devices@.len(),
        change is Some && 0 <= d < final(data).devices@.len() && 0 <= i < scans@[d]@.len()
            && scans@[d]@[i].info.connected && scans@[d]@[i].crtc == Some(crtc) && (forall|s: int|
            0 <= s < final(data).devices@[d].surfaces@.len() ==> (#[trigger] final(
                data
            ).devices@[d].surfaces@[s]).crtc != crtc) && !final(
            data
        ).devices@[d].non_desktop_connectors@.contains((scans@[d]@[i].info.handle, crtc))
            && !outputs.spec_get(
            scans@[d]@[i].info.interface@ + "-"@ + decimal(
                scans@[d]@[i].info.interface_id as nat,
            ),
        ).disable ==> change->0.reloads@[d].enable@.contains((scans@[d]@[i].info.handle, crtc)),
{
    assert(call_requires(
        UdevData::update_device,
        (data, active, node, events, cleanup, scans, statuses, outputs),
    ));
    assert(call_requires(UdevData::device_changed, (same, active, node, events)));
    if change is Some && 0 <= d < final(data).devices@.len() && 0 <= i < scans@[d]@.len()
        && scans@[d]@[i].info.connected && scans@[d]@[i].crtc == Some(crtc) && (forall|s: int|
        0 <= s < final(data).devices@[d].surfaces@.len() ==> (#[trigger] final(
            data
        ).devices@[d].surfaces@[s]).crtc != crtc) && !final(
        data
    ).devices@[d].non_desktop_connectors@.contains((scans@[d]@[i].info.handle, crtc))
        && !outputs.spec_get(
        scans@[d]@[i].info.interface@ + "-"@ + decimal(scans@[d]@[i].info.interface_id as nat),
    ).disable {
        let device = final(data).devices@[d];
        let q = on_crtc(crtc);
        assert forall|s: int| 0 <= s < device.surfaces@.len() implies !q(
            #[trigger] device.surfaces@[s],
        ) by {}
        lemma_first_index_none(device.surfaces@, q);
        assert(change->0.reloads@[d].is_for(device, scans@[d]@, statuses@, *outputs, false));
        connected_connectors_are_enabled(
            change->0.reloads@[d],
            device,
            scans@[d]@,
            statuses@,
            *outputs,
            false,
            i,
            crtc,
        );
    }
}

/// A device that is plugged in is added, cleaned up, and everything connected to it is brought up
/// that is not turned off; it knows the connectors that its scan found. While the session is
/// inactive nothing happens.
pub proof fn plugged_in_devices_are_brought_up(
    data: &mut UdevData,
    active: bool,
    node: u64,
    render: Option<u64>,
    leasing: bool,
    token: u64,
    syncobj: bool,
    events: &[DrmScanEvent],
    state: &DeviceState,
    scans: &[Vec<ScannedInfo>],
    statuses: &[SurfaceStatus],
    outputs: &OutputsConfig,
    plugged: Option<(DeviceAdded, DeviceChange)>,
    i: int,
    crtc: u32,
    pair: (u32, u32),
)
    requires
        old(data).wf(),
        node == old(data).primary_node ==> !old(data).dmabuf_global && (syncobj ==> !old(
            data,
        ).syncobj_state),
        scans@.len() == old(data).devices@.len() + 1,
        state.connectors@.len() == scans@[old(data).devices@.len() as int]@.len(),
        forall|d: int|
            0 <= d < old(data).devices@.len() ==> (#[trigger] old(data).devices@[d]).node != node
                && device_reload_wf(
                old(data).devices@[d].node,
                old(data).devices@[d].surfaces@,
                scans@[d]@,
                statuses@,
                *outputs,
            ),
        call_ensures(
            UdevData::plug_in,
            (
                data,
                active,
                node,
                render,
                leasing,
                token,
                syncobj,
                events,
                state,
                scans,
                statuses,
                outputs,
            ),
            plugged,
        ),
    ensures
        !active ==> plugged is None && *final(data) == *old(data),
        active ==> plugged is Some && final(data).devices@.len() == old(data).devices@.len() + 1 && {
            let d = old(data).devices@.len() as int;
            let device = final(data).devices@[d];
            let (added, change) = plugged->0;
            &&& device.node == node
            &&& device.surfaces@.len() == 0
            &&& device.leasing == leasing
            &&& added.primary == (node == old(data).primary_node)
            &&& change.cleanup is Some
            &&& device.known_crtcs@.contains(pair) <==> events@.contains(
                DrmScanEvent::Connected { connector: pair.0, crtc: Some(pair.1) },
            )
            &&& 0 <= i < scans@[d]@.len() && scans@[d]@[i].info.connected && scans@[d]@[i].crtc
                == Some(crtc) && !outputs.spec_get(
                scans@[d]@[i].info.interface@ + "-"@ + decimal(
                    scans@[d]@[i].info.interface_id as nat,
                ),
            ).disable ==> change.reloads@[d].enable@.contains((scans@[d]@[i].info.handle, crtc))
        },
{
    let p = on_node(node);
    assert forall|d: int| 0 <= d < old(data).devices@.len() implies !p(
        #[trigger] old(data).devices@[d],
    ) by {}
    lemma_first_index_none(old(data).devices@, p);
    assert(call_requires(
        UdevData::plug_in,
        (
            data,
            active,
            node,
            render,
            leasing,
            token,
            syncobj,
            events,
            state,
            scans,
            statuses,
            outputs,
        ),
    ));
    if active {
        let d = old(data).devices@.len() as int;
        lemma_first_index(final(data).devices@, p);
        assert(p(final(data).devices@[d]));
        let device = final(data).devices@[d];
        device::lemma_pairs_of_events(events@, pair);
        assert(device.known_crtcs@.to_set().contains(pair) == device.known_crtcs@.contains(pair));
        let (_, change) = plugged->0;
        if 0 <= i < scans@[d]@.len() && scans@[d]@[i].info.connected && scans@[d]@[i].crtc == Some(
            crtc,
        ) && !outputs.spec_get(
            scans@[d]@[i].info.interface@ + "-"@ + decimal(
                scans@[d]@[i].info.interface_id as nat,
            ),
        ).disable {
            plugged_in_outputs_are_enabled(
                *final(data),
                change,
                node,
                Some(*state),
                scans@,
                statuses@,
                *outputs,
                i,
                crtc,
            );
        }
    }
}

/// A connector that was plugged in on a device is what [`Device::connector_connected`] says; one on
/// a device that is not there changes nothing, and neither does one that went away from there.
pub proof fn connectors_belong_to_their_device(
    data: &mut UdevData,
    gone: &mut UdevData,
    node: u64,
    conn: &ConnectorInfo,
    crtc: u32,
    info: &DisplayInfo,
    non_desktop: bool,
    config: &OutputConfig,
    custom: Option<Mode>,
    nvidia: bool,
    connected: Connected,
    removed: Option<RemovedConnector>,
)
    requires
        old(data).wf(),
        old(gone).wf(),
        forall|d: int|
            0 <= d < old(data).devices@.len() ==> (#[trigger] old(data).devices@[d]).node != node,
        forall|d: int|
            0 <= d < old(gone).devices@.len() ==> (#[trigger] old(gone).devices@[d]).node != node,
        call_ensures(
            UdevData::connector_connected,
            (data, node, conn, crtc, info, non_desktop, config, custom, nvidia),
            connected,
        ),
        call_ensures(
            UdevData::connector_disconnected,
            (gone, node, conn.handle, crtc),
            removed,
        ),
    ensures
        connected is UnknownDevice,
        *final(data) == *old(data),
        removed is None,
        *final(gone) == *old(gone),
{
    let p = on_node(node);
    assert forall|d: int| 0 <= d < old(data).devices@.len() implies !p(
        #[trigger] old(data).devices@[d],
    ) by {}
    assert forall|d: int| 0 <= d < old(gone).devices@.len() implies !p(
        #[trigger] old(gone).devices@[d],
    ) by {}
    lemma_first_index_none(old(data).devices@, p);
    lemma_first_index_none(old(gone).devices@, p);
    assert(call_requires(
        UdevData::connector_connected,
        (data, node, conn, crtc, info, non_desktop, config, custom, nvidia),
    ));
    assert(call_requires(UdevData::connector_disconnected, (gone, node, conn.handle, crtc)));
}

/// On a device that is there, a connector outside of the desktop is offered for leasing where that is
/// possible, and any other one gets an output: the computed mode is tried first, if a mode is
/// configured, and then the one that the configuration asks for.
pub proof fn connectors_get_outputs_on_their_device(
    data: &mut UdevData,
    node: u64,
    conn: &ConnectorInfo,
    crtc: u32,
    info: &DisplayInfo,
    non_desktop: bool,
    config: &OutputConfig,
    custom: Option<Mode>,
    nvidia: bool,
    connected: Connected,
    d: int,
    modes: &[Mode],
    requested: Mode,
)
    requires
        old(data).wf(),
        0 <= d < old(data).devices@.len(),
        old(data).devices@[d].node == node,
        can_request(conn.modes@, config.mode),
        modes@ == conn.modes@,
        call_ensures(mode::get_requested_mode, (modes, config.mode), requested),
        call_ensures(
            UdevData::connector_connected,
            (data, node, conn, crtc, info, non_desktop, config, custom, nvidia),
            connected,
        ),
    ensures
        final(data).devices@.len() == old(data).devices@.len(),
        non_desktop ==> connected is NonDesktop && (connected->NonDesktop_0 is Some <==> old(
            data,
        ).devices@[d].leasing),
        !non_desktop ==> connected is Output && connected->Output_0.requested == requested
            && connected->Output_0.custom == (if config.mode is Some {
            custom
        } else {
            None
        }) && connected->Output_0.overlay_planes == !nvidia,
        forall|e: int|
            0 <= e < old(data).devices@.len() && e != d ==> #[trigger] final(data).devices@[e]
                == old(data).devices@[e],
{
    lemma_device_at(*old(data), node, d);
    assert(call_requires(
        UdevData::connector_connected,
        (data, node, conn, crtc, info, non_desktop, config, custom, nvidia),
    ));
    assert(call_requires(mode::get_requested_mode, (modes, config.mode)));
    if let Connected::Output(plan) = connected {
        mode::requested_mode_is_unique(modes@, config.mode, plan.requested, requested);
    }
    assert forall|e: int| 0 <= e < old(data).devices@.len() && e != d implies #[trigger] final(
        data
    ).devices@[e] == old(data).devices@[e] by {
        if e < d {
            assert(old(data).devices@[e].node != old(data).devices@[d].node);
        } else {
            assert(old(data).devices@[d].node != old(data).devices@[e].node);
        }
    }
}

/// A connector that went away from a device takes its surface with it, if it is not for leasing.
pub proof fn disconnected_outputs_are_removed(
    data: &mut UdevData,
    node: u64,
    connector: u32,
    removed: Option<RemovedConnector>,
    d: int,
    s: int,
)
    requires
        old(data).wf(),
        0 <= d < old(data).devices@.len(),
        old(data).devices@[d].node == node,
        0 <= s < old(data).devices@[d].surfaces@.len(),
        forall|j: int|
            0 <= j < old(data).devices@[d].non_desktop_connectors@.len() ==> (#[trigger] old(
                data,
            ).devices@[d].non_desktop_connectors@[j]).0 != connector,
        call_ensures(
            UdevData::connector_disconnected,
            (data, node, connector, old(data).devices@[d].surfaces@[s].crtc),
            removed,
        ),
    ensures
        removed == Some(RemovedConnector::Surface(old(data).devices@[d].surfaces@[s])),
        final(data).devices@.len() == old(data).devices@.len(),
        final(data).devices@[d].surfaces@ == old(data).devices@[d].surfaces@.remove(s),
{
    let device = old(data).devices@[d];
    let crtc = device.surfaces@[s].crtc;
    lemma_device_at(*old(data), node, d);
    lemma_surface_at(device, crtc, s);
    let p = device::on_connector(connector);
    assert forall|j: int| 0 <= j < device.non_desktop_connectors@.len() implies !p(
        #[trigger] device.non_desktop_connectors@[j],
    ) by {}
    lemma_first_index_none(device.non_desktop_connectors@, p);
    assert(call_requires(UdevData::connector_disconnected, (data, node, connector, crtc)));
    let k = first_index(final(data).devices@, on_node(node))->0;
    lemma_first_index(final(data).devices@, on_node(node));
    assert(on_node(node)(final(data).devices@[k]));
    lemma_same_place(old(data).devices@, final(data).devices@, node, d, k);
    assert(final(data).devices@[d].tables().surfaces == device.tables().without(
        (connector, crtc),
    ).surfaces);
}

/// Leases are noted on their device until they end, and no other device changes.
pub proof fn leases_belong_to_their_device(
    begin: &mut UdevData,
    end: &mut UdevData,
    node: u64,
    lease: u32,
    d: int,
    e: int,
)
    requires
        old(begin).wf(),
        old(end).wf(),
        0 <= d < old(begin).devices@.len(),
        old(begin).devices@[d].node == node,
        0 <= e < old(end).devices@.len(),
        old(end).devices@[e].node == node,
        call_ensures(UdevData::new_active_lease, (begin, node, lease), ()),
        call_ensures(UdevData::lease_destroyed, (end, node, lease), ()),
    ensures
        final(begin).devices@[d].active_leases@.contains(lease),
        final(begin).devices@[d].surfaces == old(begin).devices@[d].surfaces,
        final(begin).devices@.len() == old(begin).devices@.len(),
        !final(end).devices@[e].active_leases@.contains(lease),
        final(end).devices@[e].surfaces == old(end).devices@[e].surfaces,
        final(end).devices@.len() == old(end).devices@.len(),
{
    lemma_device_at(*old(begin), node, d);
    lemma_device_at(*old(end), node, e);
    assert(call_requires(UdevData::new_active_lease, (begin, node, lease)));
    assert(call_requires(UdevData::lease_destroyed, (end, node, lease)));
    let before = old(begin).devices@[d].active_leases@;
    assert(final(begin).devices@[d].active_leases@[before.len() as int] == lease);
    let all = old(end).devices@[e].active_leases@;
    let p = device::other_lease(lease);
    let kept = all.filter(p);
    if kept.contains(lease) {
        let i = choose|i: int| 0 <= i < kept.len() && kept[i] == lease;
        all.lemma_filter_pred(p, i);
    }
}

/// A lease request goes to its device, and is rejected without one.
pub proof fn lease_requests_go_to_their_device(
    data: &UdevData,
    node: u64,
    connectors: &[u32],
    claimed: &[ClaimedPlanes],
    lease: Result<Vec<LeasedConnector>, LeaseRejected>,
    d: int,
    same: Result<Vec<LeasedConnector>, LeaseRejected>,
)
    requires
        data.wf(),
        connectors@.len() == claimed@.len(),
        call_ensures(UdevData::lease_request, (data, node, connectors, claimed), lease),
        0 <= d < data.devices@.len() ==> data.devices@[d].node == node && call_ensures(
            Device::lease_request,
            (&data.devices@[d], connectors, claimed),
            same,
        ),
    ensures
        (forall|k: int| 0 <= k < data.devices@.len() ==> (#[trigger] data.devices@[k]).node != node)
            ==> lease is Err,
        0 <= d < data.devices@.len() ==> (lease is Ok <==> same is Ok) && (lease is Ok
            ==> lease->Ok_0@ == same->Ok_0@),
{
    assert(call_requires(UdevData::lease_request, (data, node, connectors, claimed)));
    if 0 <= d < data.devices@.len() {
        lemma_device_at(*data, node, d);
        assert(call_requires(
            Device::lease_request,
            (&data.devices@[d], connectors, claimed),
        ));
    } else {
        lemma_first_index(data.devices@, on_node(node));
        if data.has_device(node) {
            let k = first_index(data.devices@, on_node(node))->0;
            assert(on_node(node)(data.devices@[k]));
        }
    }
}

/// When the cleanup of a device failed, each of its surfaces starts over, and no other one.
pub proof fn surfaces_start_over_on_their_device(
    data: &UdevData,
    node: u64,
    crtcs: Vec<u32>,
    d: int,
    s: int,
)
    requires
        data.wf(),
        call_ensures(UdevData::reset_surfaces, (data, node), crtcs),
        0 <= d < data.devices@.len(),
        data.devices@[d].node == node,
        0 <= s < data.devices@[d].surfaces@.len(),
    ensures
        crtcs@.len() == data.devices@[d].surfaces@.len(),
        crtcs@[s] == data.devices@[d].surfaces@[s].crtc,
{
    lemma_device_at(*data, node, d);
}

} // verus!
