//! Applying a changed configuration to the outputs.
use vstd::prelude::*;
use vstd::string::*;

use super::connector::{settle, vrr_changed, ConnectorInfo, ModeAttempt, ModeOutcome};
use super::device::{on_crtc, Device, Surface};
use super::mode::{
    can_request, get_requested_mode, is_requested_mode, output_mode, requested_mode_is_unique,
    same_mode, to_output_mode, Mode,
};
use super::UdevData;
use crate::config::output::{OutputConfig, OutputsConfig, VrrMode};
use crate::seqs::{first_index, lemma_first_index, lemma_first_index_is, lemma_first_index_none};
use crate::state::{for_output, Fht, OutputEntry};
use crate::text::{decimal, output_name, spec_output_name};
use crate::time::Duration;

verus! {

/// A connector that the scanner knows, with the CRTC that it assigned.
#[derive(Debug)]
pub struct ScannedInfo {
    pub info: ConnectorInfo,
    pub crtc: Option<u32>,
}

/// What a surface looks like at the moment.
#[derive(Debug)]
pub struct SurfaceStatus {
    /// The node of its device.
    pub node: u64,
    /// The CRTC that drives it.
    pub crtc: u32,
    /// The name of its output.
    pub name: String,
    /// Whether a renderer could be had for it.
    pub renderer: bool,
    /// The mode computed for the size and rate that the configuration asks for.
    pub custom: Option<Mode>,
    /// The mode that the surface uses.
    pub pending: Mode,
    pub vrr_enabled: bool,
}

/// What the configuration means for one surface.
#[derive(Clone, Copy, Debug)]
pub enum SurfaceReload {
    /// Its connector or its renderer is missing, so that nothing can be done.
    Skip,
    /// Its output is turned off.
    Disable,
    /// It is as it should be.
    Keep,
    /// Its mode is set: `custom` if there is one and the display accepts it, else `requested`.
    Apply { custom: Option<Mode>, requested: Mode },
}

/// What the configuration means for one device.
#[derive(Debug)]
pub struct DeviceReload {
    /// What happens to each surface.
    pub surfaces: Vec<SurfaceReload>,
    /// The connectors, each with its CRTC, that are turned off.
    pub disable: Vec<(u32, u32)>,
    /// The connectors, each with its CRTC, that are brought up.
    pub enable: Vec<(u32, u32)>,
}

/// Whether a scanned connector has the given handle.
pub open spec fn with_handle(handle: u32) -> spec_fn(ScannedInfo) -> bool {
    |scanned: ScannedInfo| scanned.info.handle == handle
}

/// Whether a scanned connector is assigned the given CRTC.
pub open spec fn with_crtc(crtc: u32) -> spec_fn(ScannedInfo) -> bool {
    |scanned: ScannedInfo| scanned.crtc == Some(crtc)
}

/// Whether a mode can be picked for a surface on the connector `info`, where one is needed.
pub open spec fn can_reload(
    info: Option<ConnectorInfo>,
    status: SurfaceStatus,
    config: OutputConfig,
) -> bool {
    info is Some && status.renderer && !config.disable ==> can_request(
        info->0.modes@,
        config.mode,
    )
}

/// Whether a status is that of the surface of `crtc` on the device `node`.
pub open spec fn status_at(node: u64, crtc: u32) -> spec_fn(SurfaceStatus) -> bool {
    |status: SurfaceStatus| status.node == node && status.crtc == crtc
}

/// There is a status for the surface of `crtc` on the device `node`.
pub open spec fn has_status(statuses: Seq<SurfaceStatus>, node: u64, crtc: u32) -> bool {
    first_index(statuses, status_at(node, crtc)) is Some
}

/// The status of the surface of `crtc` on the device `node`.
pub open spec fn status_of(statuses: Seq<SurfaceStatus>, node: u64, crtc: u32) -> SurfaceStatus {
    statuses[first_index(statuses, status_at(node, crtc))->0]
}

/// Whether the status of a surface is known, and a mode can be picked for it.
pub open spec fn surface_reload_wf(
    node: u64,
    surface: Surface,
    scan: Seq<ScannedInfo>,
    statuses: Seq<SurfaceStatus>,
    outputs: OutputsConfig,
) -> bool {
    &&& has_status(statuses, node, surface.crtc)
    &&& can_reload(
        scanned_info(scan, surface.connector),
        status_of(statuses, node, surface.crtc),
        outputs.spec_get(status_of(statuses, node, surface.crtc).name@),
    )
}

/// The status of each surface of the device `node` is known, and a mode can be picked for it.
pub open spec fn device_reload_wf(
    node: u64,
    surfaces: Seq<Surface>,
    scan: Seq<ScannedInfo>,
    statuses: Seq<SurfaceStatus>,
    outputs: OutputsConfig,
) -> bool {
    forall|i: int|
        0 <= i < surfaces.len() ==> surface_reload_wf(
            node,
            #[trigger] surfaces[i],
            scan,
            statuses,
            outputs,
        )
}

/// The status of each surface is known, and a mode can be picked for it.
pub open spec fn reload_wf(
    devices: Seq<Device>,
    scans: Seq<Vec<ScannedInfo>>,
    statuses: Seq<SurfaceStatus>,
    outputs: OutputsConfig,
) -> bool {
    forall|d: int|
        0 <= d < devices.len() ==> device_reload_wf(
            (#[trigger] devices[d]).node,
            devices[d].surfaces@,
            scans[d]@,
            statuses,
            outputs,
        )
}

/// The computed mode only counts where the configuration asks for a mode.
pub open spec fn effective_custom(config: OutputConfig, custom: Option<Mode>) -> Option<Mode> {
    if config.mode is Some {
        custom
    } else {
        None
    }
}

/// Whether a surface that uses `pending` has to change to meet the configuration.
pub open spec fn needs_change(
    status: SurfaceStatus,
    config: OutputConfig,
    new_mode: Mode,
    force: bool,
) -> bool {
    ||| force
    ||| !same_mode(status.pending, new_mode)
    ||| config.vrr == VrrMode::On && !status.vrr_enabled
    ||| config.vrr == VrrMode::Off && status.vrr_enabled
}

/// Whether `reload` is what the configuration means for a surface on the connector `info`.
pub open spec fn is_surface_reload(
    reload: SurfaceReload,
    info: Option<ConnectorInfo>,
    status: SurfaceStatus,
    config: OutputConfig,
    force: bool,
) -> bool {
    if info is None || !status.renderer {
        reload is Skip
    } else if config.disable {
        reload is Disable
    } else {
        let custom = effective_custom(config, status.custom);
        exists|requested: Mode| #[trigger]
            is_requested_mode(info->0.modes@, config.mode, requested) && reload == {
                let new_mode = match custom {
                    Some(mode) => mode,
                    None => requested,
                };
                if needs_change(status, config, new_mode, force) {
                    SurfaceReload::Apply { custom, requested }
                } else {
                    SurfaceReload::Keep
                }
            }
    }
}

/// The connector of a surface, as the scanner knows it.
pub open spec fn scanned_info(scan: Seq<ScannedInfo>, handle: u32) -> Option<ConnectorInfo> {
    match first_index(scan, with_handle(handle)) {
        Some(i) => Some(scan[i].info),
        None => None,
    }
}

/// Whether `reload` is what the configuration means for a surface of the device `node`.
pub open spec fn is_surface_reload_of(
    reload: SurfaceReload,
    node: u64,
    surface: Surface,
    scan: Seq<ScannedInfo>,
    statuses: Seq<SurfaceStatus>,
    outputs: OutputsConfig,
    force: bool,
) -> bool {
    let status = status_of(statuses, node, surface.crtc);
    is_surface_reload(
        reload,
        scanned_info(scan, surface.connector),
        status,
        outputs.spec_get(status.name@),
        force,
    )
}

/// The connector to bring up, where a scanned connector is one: it is connected, has a CRTC that
/// drives nothing yet, is not up for leasing, and its output is not turned off.
pub open spec fn enable_pair(device: Device, outputs: OutputsConfig) -> spec_fn(
    ScannedInfo,
) -> Option<(u32, u32)> {
    |scanned: ScannedInfo|
        match scanned.crtc {
            Some(crtc) => if scanned.info.connected && first_index(
                device.surfaces@,
                on_crtc(crtc),
            ) is None && !device.non_desktop_connectors@.contains((scanned.info.handle, crtc))
                && !outputs.spec_get(
                spec_output_name(scanned.info.interface@, scanned.info.interface_id as nat),
            ).disable {
                Some((scanned.info.handle, crtc))
            } else {
                None
            },
            None => None,
        }
}

impl DeviceReload {
    /// The connectors of the surfaces that are turned off, among the first `n`.
    pub open spec fn disabled(
        device: Device,
        surfaces: Seq<SurfaceReload>,
        n: int,
    ) -> Seq<(u32, u32)>
        decreases n,
    {
        if n <= 0 {
            Seq::empty()
        } else {
            let rest = Self::disabled(device, surfaces, n - 1);
            if surfaces[n - 1] is Disable {
                rest.push((device.surfaces@[n - 1].connector, device.surfaces@[n - 1].crtc))
            } else {
                rest
            }
        }
    }

    /// Whether this is what the configuration means for `device`.
    pub open spec fn is_for(
        &self,
        device: Device,
        scan: Seq<ScannedInfo>,
        statuses: Seq<SurfaceStatus>,
        outputs: OutputsConfig,
        force: bool,
    ) -> bool {
        &&& self.surfaces@.len() == device.surfaces@.len()
        &&& forall|i: int|
            0 <= i < device.surfaces@.len() ==> is_surface_reload_of(
                #[trigger] self.surfaces@[i],
                device.node,
                device.surfaces@[i],
                scan,
                statuses,
                outputs,
                force,
            )
        &&& self.disable@ == Self::disabled(
            device,
            self.surfaces@,
            device.surfaces@.len() as int,
        )
        &&& self.enable@ == scan.filter_map(enable_pair(device, outputs))
    }
}

/// Where a connector stands in a scan.
fn scan_index(scan: &[ScannedInfo], handle: u32) -> (r: Option<usize>)
    ensures
        r matches Some(i) ==> i < scan@.len() && first_index(scan@, with_handle(handle)) == Some(
            i as int,
        ),
        r is None <==> first_index(scan@, with_handle(handle)) is None,
{
    let mut i: usize = 0;
    while i < scan.len()
        invariant
            0 <= i <= scan.len(),
            forall|j: int| 0 <= j < i ==> (#[trigger] scan@[j]).info.handle != handle,
        decreases scan.len() - i,
    {
        if scan[i].info.handle == handle {
            proof {
                lemma_first_index_is(scan@, with_handle(handle), i as int);
            }
            return Some(i);
        }
        i += 1;
    }
    proof {
        lemma_first_index_none(scan@, with_handle(handle));
    }
    None
}

/// Where the status of the surface of `crtc` on the device `node` stands.
fn status_index(statuses: &[SurfaceStatus], node: u64, crtc: u32) -> (i: usize)
    requires
        has_status(statuses@, node, crtc),
    ensures
        i < statuses@.len(),
        first_index(statuses@, status_at(node, crtc)) == Some(i as int),
{
    let mut i: usize = 0;
    while i < statuses.len()
        invariant
            0 <= i <= statuses.len(),
            forall|j: int| 0 <= j < i ==> !status_at(node, crtc)(#[trigger] statuses@[j]),
        decreases statuses.len() - i,
    {
        if statuses[i].node == node && statuses[i].crtc == crtc {
            proof {
                lemma_first_index_is(statuses@, status_at(node, crtc), i as int);
            }
            return i;
        }
        i += 1;
    }
    proof {
        lemma_first_index_none(statuses@, status_at(node, crtc));
    }
    0
}

/// Where the connector that is assigned `crtc` stands in a scan.
fn crtc_index(scan: &[ScannedInfo], crtc: u32) -> (r: Option<usize>)
    ensures
        r matches Some(i) ==> i < scan@.len() && first_index(scan@, with_crtc(crtc)) == Some(
            i as int,
        ),
        r is None <==> first_index(scan@, with_crtc(crtc)) is None,
{
    let mut i: usize = 0;
    while i < scan.len()
        invariant
            0 <= i <= scan.len(),
            forall|j: int| 0 <= j < i ==> (#[trigger] scan@[j]).crtc != Some(crtc),
        decreases scan.len() - i,
    {
        if let Some(c) = scan[i].crtc {
            if c == crtc {
                proof {
                    lemma_first_index_is(scan@, with_crtc(crtc), i as int);
                }
                return Some(i);
            }
        }
        i += 1;
    }
    proof {
        lemma_first_index_none(scan@, with_crtc(crtc));
    }
    None
}

/// Work out what the configuration means for one surface.
///
/// `info` is its connector, where the scanner still knows it.
pub fn surface_reload(
    info: Option<&ConnectorInfo>,
    status: &SurfaceStatus,
    config: &OutputConfig,
    force: bool,
) -> (reload: SurfaceReload)
    requires
        can_reload(
            match info {
                Some(info) => Some(*info),
                None => None,
            },
            *status,
            *config,
        ),
    ensures
        is_surface_reload(
            reload,
            match info {
                Some(info) => Some(*info),
                None => None,
            },
            *status,
            *config,
            force,
        ),
{
    let info = match info {
        Some(info) => info,
        None => {
            return SurfaceReload::Skip;
        },
    };
    if !status.renderer {
        return SurfaceReload::Skip;
    }
    if config.disable {
        return SurfaceReload::Disable;
    }
    let requested = get_requested_mode(info.modes.as_slice(), config.mode);
    let custom = match config.mode {
        Some(_) => status.custom,
        None => None,
    };
    let new_mode = match custom {
        Some(mode) => mode,
        None => requested,
    };
    let mode_changed = !status.pending.same(&new_mode);
    assert(is_requested_mode(info.modes@, config.mode, requested));
    if !mode_changed && !vrr_changed(config.vrr, status.vrr_enabled) && !force {
        return SurfaceReload::Keep;
    }
    SurfaceReload::Apply { custom, requested }
}

impl Device {
    /// Whether the connector with its CRTC is up for leasing.
    pub fn is_non_desktop(&self, connector: u32, crtc: u32) -> (b: bool)
        ensures
            b == self.non_desktop_connectors@.contains((connector, crtc)),
    {
        let mut i: usize = 0;
        while i < self.non_desktop_connectors.len()
            invariant
                0 <= i <= self.non_desktop_connectors.len(),
                forall|j: int| 0 <= j < i ==> self.non_desktop_connectors@[j] != (connector, crtc),
            decreases self.non_desktop_connectors.len() - i,
        {
            if self.non_desktop_connectors[i].0 == connector && self.non_desktop_connectors[i].1
                == crtc {
                assert(self.non_desktop_connectors@[i as int] == (connector, crtc));
                return true;
            }
            i += 1;
        }
        false
    }

    /// Work out what the configuration means for this device.
    ///
    /// `scan` holds the connectors that the scanner knows, `statuses` tells about the surfaces.
    pub fn reload_outputs(
        &self,
        scan: &[ScannedInfo],
        statuses: &[SurfaceStatus],
        outputs: &OutputsConfig,
        force: bool,
    ) -> (reload: DeviceReload)
        requires
            device_reload_wf(self.node, self.surfaces@, scan@, statuses@, *outputs),
        ensures
            reload.is_for(*self, scan@, statuses@, *outputs, force),
    {
        let mut surfaces: Vec<SurfaceReload> = Vec::new();
        let mut disable: Vec<(u32, u32)> = Vec::new();
        let mut i: usize = 0;
        while i < self.surfaces.len()
            invariant
                0 <= i <= self.surfaces.len(),
                device_reload_wf(self.node, self.surfaces@, scan@, statuses@, *outputs),
                surfaces@.len() == i,
                forall|j: int|
                    0 <= j < i ==> is_surface_reload_of(
                        #[trigger] surfaces@[j],
                        self.node,
                        self.surfaces@[j],
                        scan@,
                        statuses@,
                        *outputs,
                        force,
                    ),
                disable@ == DeviceReload::disabled(*self, surfaces@, i as int),
            decreases self.surfaces.len() - i,
        {
            let connector: u32 = self.surfaces[i].connector;
            let info = match scan_index(scan, connector) {
                Some(k) => Some(&scan[k].info),
                None => None,
            };
            assert(surface_reload_wf(
                self.node,
                self.surfaces@[i as int],
                scan@,
                statuses@,
                *outputs,
            ));
            let status = &statuses[status_index(statuses, self.node, self.surfaces[i].crtc)];
            let config = outputs.get(&status.name);
            let reload = surface_reload(info, status, &config, force);
            let ghost before = surfaces@;
            surfaces.push(reload);
            if let SurfaceReload::Disable = reload {
                disable.push((connector, self.surfaces[i].crtc));
            }
            proof {
                lemma_disabled_prefix(*self, before, surfaces@, i as int);
            }
            i += 1;
        }
        let mut enable: Vec<(u32, u32)> = Vec::new();
        let mut i: usize = 0;
        assert(scan@.take(0).filter_map(enable_pair(*self, *outputs)) =~= Seq::empty());
        while i < scan.len()
            invariant
                0 <= i <= scan.len(),
                enable@ == scan@.take(i as int).filter_map(enable_pair(*self, *outputs)),
            decreases scan.len() - i,
        {
            proof {
                scan@.lemma_filter_map_take_succ(enable_pair(*self, *outputs), i as int);
            }
            if let Some(crtc) = scan[i].crtc {
                let info = &scan[i].info;
                let free = match self.surface_index(crtc) {
                    Some(_) => false,
                    None => true,
                };
                if info.connected && free && !self.is_non_desktop(info.handle, crtc) {
                    let name = output_name(info.interface.as_str(), info.interface_id);
                    if !outputs.get(&name).disable {
                        enable.push((info.handle, crtc));
                    }
                }
            }
            i += 1;
            assert(enable@ =~= scan@.take(i as int).filter_map(enable_pair(*self, *outputs)));
        }
        assert(scan@.take(scan@.len() as int) =~= scan@);
        DeviceReload { surfaces, disable, enable }
    }
}

proof fn lemma_disabled_prefix(
    device: Device,
    before: Seq<SurfaceReload>,
    after: Seq<SurfaceReload>,
    n: int,
)
    requires
        n <= before.len() <= after.len(),
        forall|i: int| 0 <= i < n ==> before[i] == after[i],
    ensures
        DeviceReload::disabled(device, before, n) == DeviceReload::disabled(device, after, n),
    decreases n,
{
    if n > 0 {
        lemma_disabled_prefix(device, before, after, n - 1);
    }
}

/// Why the mode of an output was not set.
#[derive(Clone, Copy, Debug, PartialEq, Eq, Structural)]
pub enum SetModeError {
    /// No surface shows the output.
    NoSurface,
    NoRenderer,
}

/// The low 16 bits of `x`.
pub open spec fn wrap_u16(x: i32) -> int {
    x as int % 0x1_0000
}

fn low_u16(x: i32) -> (r: u16)
    ensures
        r == wrap_u16(x),
{
    let wide: i64 = x as i64;
    let low: i64 = if wide >= 0 {
        wide % 0x1_0000
    } else {
        let m: i64 = (wide + 0x8000_0000) % 0x1_0000;
        m
    };
    assert(low == x as int % 0x1_0000) by {
        if wide < 0 {
            vstd::arithmetic::div_mod::lemma_mod_multiples_vanish(
                0x8000int,
                wide as int,
                0x1_0000int,
            );
            assert(0x8000int * 0x1_0000 + wide == wide + 0x8000_0000);
        }
    }
    low as u16
}

impl UdevData {
    /// Work out what the configuration means for every device.
    ///
    /// `scans` tells about each device what the scanner found, and `statuses` how the surfaces
    /// look. First the modes are set, each attempt of which [`Fht::mode_attempted`] takes in, and
    /// the outputs in `disable` are turned off with [`Device::remove_connector`]. Then those in
    /// `enable` are brought up.
    pub fn reload_output_configuration(
        &self,
        scans: &[Vec<ScannedInfo>],
        statuses: &[SurfaceStatus],
        outputs: &OutputsConfig,
        force: bool,
    ) -> (reloads: Vec<DeviceReload>)
        requires
            scans@.len() == self.devices@.len(),
            reload_wf(self.devices@, scans@, statuses@, *outputs),
        ensures
            reloads@.len() == self.devices@.len(),
            forall|d: int|
                0 <= d < self.devices@.len() ==> (#[trigger] reloads@[d]).is_for(
                    self.devices@[d],
                    scans@[d]@,
                    statuses@,
                    *outputs,
                    force,
                ),
    {
        let mut reloads: Vec<DeviceReload> = Vec::new();
        let mut d: usize = 0;
        while d < self.devices.len()
            invariant
                0 <= d <= self.devices.len(),
                scans@.len() == self.devices@.len(),
                reload_wf(self.devices@, scans@, statuses@, *outputs),
                reloads@.len() == d,
                forall|k: int|
                    0 <= k < d ==> (#[trigger] reloads@[k]).is_for(
                        self.devices@[k],
                        scans@[k]@,
                        statuses@,
                        *outputs,
                        force,
                    ),
            decreases self.devices.len() - d,
        {
            assert(device_reload_wf(
                self.devices@[d as int].node,
                self.devices@[d as int].surfaces@,
                scans@[d as int]@,
                statuses@,
                *outputs,
            ));
            let reload = self.devices[d].reload_outputs(
                scans[d].as_slice(),
                statuses,
                outputs,
                force,
            );
            reloads.push(reload);
            d += 1;
        }
        reloads
    }

    /// Whether the scan holds the connector of `output`, and a mode can be picked from it, where
    /// some surface shows the output and can be rendered.
    pub open spec fn can_set_output_mode(
        &self,
        output: u64,
        scan: Seq<ScannedInfo>,
        size: (i32, i32),
        refresh: i32,
        status: SurfaceStatus,
    ) -> bool {
        status.renderer ==> match self.location(output) {
            Some((d, s)) => match first_index(
                scan,
                with_crtc(self.devices@[d].surfaces@[s].crtc),
            ) {
                Some(k) => can_request(
                    scan[k].info.modes@,
                    Some((wrap_u16(size.0) as u16, wrap_u16(size.1) as u16, Some(refresh))),
                ),
                None => false,
            },
            None => true,
        }
    }

    /// Whether `r` is the answer to setting the mode of `output`.
    pub open spec fn sets_output_mode(
        &self,
        output: u64,
        scan: Seq<ScannedInfo>,
        size: (i32, i32),
        refresh: i32,
        status: SurfaceStatus,
        r: Result<Option<(ModeAttempt, Mode)>, SetModeError>,
    ) -> bool {
        match self.location(output) {
            None => r == Err::<Option<(ModeAttempt, Mode)>, SetModeError>(SetModeError::NoSurface),
            Some((d, s)) => if !status.renderer {
                r == Err::<Option<(ModeAttempt, Mode)>, SetModeError>(SetModeError::NoRenderer)
            } else {
                let k = first_index(scan, with_crtc(self.devices@[d].surfaces@[s].crtc))->0;
                let wanted = Some((wrap_u16(size.0) as u16, wrap_u16(size.1) as u16, Some(refresh)));
                exists|requested: Mode| #[trigger]
                    is_requested_mode(scan[k].info.modes@, wanted, requested) && r == {
                        let new_mode = match status.custom {
                            Some(mode) => mode,
                            None => requested,
                        };
                        Ok::<Option<(ModeAttempt, Mode)>, SetModeError>(
                            if same_mode(status.pending, new_mode) {
                                None
                            } else {
                                Some((ModeAttempt::spec_first(status.custom, requested), requested))
                            },
                        )
                    }
            },
        }
    }

    /// Set the mode of an output: the first attempt to make, or `None` where the surface already
    /// uses the mode.
    ///
    /// `scan` is that of the device which shows the output, where there is one; `size` and
    /// `refresh`, in millihertz, describe the mode, and the computed mode of `status` is the one for
    /// them. How the attempt went is taken in by [`Fht::mode_attempted`].
    pub fn set_output_mode(
        &self,
        output: u64,
        scan: &[ScannedInfo],
        size: (i32, i32),
        refresh: i32,
        status: &SurfaceStatus,
    ) -> (r: Result<Option<(ModeAttempt, Mode)>, SetModeError>)
        requires
            self.can_set_output_mode(output, scan@, size, refresh, *status),
        ensures
            self.sets_output_mode(output, scan@, size, refresh, *status, r),
    {
        let (d, s) = match self.find_output(output) {
            Some(place) => place,
            None => {
                return Err(SetModeError::NoSurface);
            },
        };
        if !status.renderer {
            return Err(SetModeError::NoRenderer);
        }
        let crtc: u32 = self.devices[d].surfaces[s].crtc;
        let i: usize = match crtc_index(scan, crtc) {
            Some(i) => i,
            None => {
                return Ok(None);
            },
        };
        let wanted = Some((low_u16(size.0), low_u16(size.1), Some(refresh)));
        let requested = get_requested_mode(scan[i].info.modes.as_slice(), wanted);
        let new_mode = match status.custom {
            Some(mode) => mode,
            None => requested,
        };
        assert(is_requested_mode(scan@[i as int].info.modes@, wanted, requested));
        if status.pending.same(&new_mode) {
            return Ok(None);
        }
        Ok(Some((ModeAttempt::first(status.custom, requested), requested)))
    }
}

/// Whether an attempt leads from the entry `before` of an output to `after`: an accepted mode is in
/// effect, with its refresh interval, and a refused one changes nothing.
pub open spec fn attempt_takes_effect(
    before: OutputEntry,
    after: OutputEntry,
    attempt: ModeAttempt,
    accepted: bool,
    interval: nat,
    vrr: bool,
) -> bool {
    if accepted {
        after.uses_mode(before, output_mode(attempt.spec_mode()), interval, vrr)
    } else {
        after == before
    }
}

impl Fht {
    /// Take in how an attempt to drive `output` with a mode went. This is the last step of
    /// [`UdevData::reload_output_configuration`] for each surface whose mode is set, and of
    /// [`UdevData::set_output_mode`].
    ///
    /// Once the display accepted the mode, clients are told about it, and the frame clock starts
    /// over with `refresh_interval`, which is that of the mode, and with the variable refresh rate
    /// setting that the surface ended up with. Otherwise the output stays as it is, and there may
    /// be another mode to try.
    pub fn mode_attempted(
        &mut self,
        output: u64,
        attempt: &ModeAttempt,
        accepted: bool,
        requested: Mode,
        refresh_interval: Duration,
        vrr: bool,
    ) -> (outcome: ModeOutcome)
        requires
            accepted ==> {
                &&& old(self).has_output(output)
                &&& 0 < refresh_interval@ <= u64::MAX
                &&& attempt.spec_mode().htotal != 0
                &&& attempt.spec_mode().vtotal != 0
            },
        ensures
            outcome == attempt.spec_outcome(accepted, requested),
            final(self).same_but_outputs(&*old(self)),
            !accepted ==> final(self).outputs == old(self).outputs,
            accepted ==> {
                let i = old(self).index_of(output);
                &&& final(self).outputs@.len() == old(self).outputs@.len()
                &&& attempt_takes_effect(
                    old(self).outputs@[i],
                    final(self).outputs@[i],
                    *attempt,
                    true,
                    refresh_interval@,
                    vrr,
                )
                &&& forall|j: int|
                    0 <= j < old(self).outputs@.len() && j != i
                        ==> #[trigger] final(self).outputs@[j] == old(self).outputs@[j]
            },
    {
        let outcome = attempt.outcome(accepted, requested);
        if let ModeOutcome::Applied(mode) = outcome {
            if let Some(i) = self.output_index(output) {
                let told = to_output_mode(&mode);
                let entry = &mut self.outputs[i];
                entry.mode = Some(told);
                entry.state.mode_applied(refresh_interval, vrr);
            }
        }
        outcome
    }
}

/// When all attempts for an output are made, the mode that they settled on is in effect, with its
/// own refresh interval; if the display refused every mode, the output is as before.
pub proof fn settled_modes_are_in_effect(
    before: OutputEntry,
    middle: OutputEntry,
    after: OutputEntry,
    custom: Option<Mode>,
    requested: Mode,
    accepts: spec_fn(Mode) -> bool,
    interval: spec_fn(Mode) -> nat,
    vrr: bool,
)
    requires
        ({
            let first = ModeAttempt::spec_first(custom, requested);
            let mode = first.spec_mode();
            &&& attempt_takes_effect(before, middle, first, accepts(mode), interval(mode), vrr)
            &&& match first.spec_outcome(accepts(mode), requested) {
                ModeOutcome::Retry(next) => attempt_takes_effect(
                    middle,
                    after,
                    next,
                    accepts(next.spec_mode()),
                    interval(next.spec_mode()),
                    vrr,
                ),
                _ => after == middle,
            }
        }),
    ensures
        match settle(ModeAttempt::spec_first(custom, requested), requested, accepts) {
            Some(mode) => after.uses_mode(before, output_mode(mode), interval(mode), vrr),
            None => after == before,
        },
{
}

/// A configuration that asks for what a surface already does leaves the surface alone, unless
/// that is forced.
pub proof fn settled_surfaces_are_kept(
    reload: SurfaceReload,
    info: ConnectorInfo,
    status: SurfaceStatus,
    config: OutputConfig,
)
    requires
        status.renderer,
        !config.disable,
        config.vrr == VrrMode::OnDemand || status.vrr_enabled == (config.vrr == VrrMode::On),
        match effective_custom(config, status.custom) {
            Some(mode) => same_mode(status.pending, mode),
            None => exists|mode: Mode| #[trigger]
                is_requested_mode(info.modes@, config.mode, mode) && same_mode(
                    status.pending,
                    mode,
                ),
        },
        is_surface_reload(reload, Some(info), status, config, false),
    ensures
        reload is Keep,
{
    if effective_custom(config, status.custom) is None {
        let mode = choose|mode: Mode| #[trigger]
            is_requested_mode(info.modes@, config.mode, mode) && same_mode(status.pending, mode);
        assert forall|requested: Mode| #[trigger]
            is_requested_mode(info.modes@, config.mode, requested) implies requested == mode by {
            requested_mode_is_unique(info.modes@, config.mode, requested, mode);
        }
    }
}

/// No connector is both turned off and brought up: a CRTC that drives a surface is not brought up
/// again.
pub proof fn driven_connectors_are_not_enabled(
    device: Device,
    outputs: OutputsConfig,
    scan: Seq<ScannedInfo>,
    surface: int,
    pair: (u32, u32),
)
    requires
        0 <= surface < device.surfaces@.len(),
        scan.filter_map(enable_pair(device, outputs)).contains(pair),
    ensures
        device.surfaces@[surface].crtc != pair.1,
        !device.non_desktop_connectors@.contains(pair),
{
    lemma_enabled_origin(device, outputs, scan, pair);
    crate::seqs::lemma_first_index(device.surfaces@, on_crtc(pair.1));
}

/// A connector that was plugged in is brought up: if it is connected, its CRTC is free, and it is
/// neither for leasing nor turned off by the configuration, it is among those that are enabled.
pub proof fn connected_connectors_are_enabled(
    reload: DeviceReload,
    device: Device,
    scan: Seq<ScannedInfo>,
    statuses: Seq<SurfaceStatus>,
    outputs: OutputsConfig,
    force: bool,
    i: int,
    crtc: u32,
)
    requires
        reload.is_for(device, scan, statuses, outputs, force),
        0 <= i < scan.len(),
        scan[i].info.connected,
        scan[i].crtc == Some(crtc),
        first_index(device.surfaces@, on_crtc(crtc)) is None,
        !device.non_desktop_connectors@.contains((scan[i].info.handle, crtc)),
        !outputs.spec_get(
            spec_output_name(scan[i].info.interface@, scan[i].info.interface_id as nat),
        ).disable,
    ensures
        reload.enable@.contains((scan[i].info.handle, crtc)),
{
    lemma_enabled(device, outputs, scan, i, crtc);
}

proof fn lemma_enabled(
    device: Device,
    outputs: OutputsConfig,
    scan: Seq<ScannedInfo>,
    i: int,
    crtc: u32,
)
    requires
        0 <= i < scan.len(),
        scan[i].info.connected,
        scan[i].crtc == Some(crtc),
        first_index(device.surfaces@, on_crtc(crtc)) is None,
        !device.non_desktop_connectors@.contains((scan[i].info.handle, crtc)),
        !outputs.spec_get(
            spec_output_name(scan[i].info.interface@, scan[i].info.interface_id as nat),
        ).disable,
    ensures
        scan.filter_map(enable_pair(device, outputs)).contains((scan[i].info.handle, crtc)),
    decreases scan.len(),
{
    let f = enable_pair(device, outputs);
    let all = scan.filter_map(f);
    let rest = scan.drop_last().filter_map(f);
    let pair = (scan[i].info.handle, crtc);
    if i == scan.len() - 1 {
        assert(f(scan.last()) == Some(pair));
        assert(all[all.len() - 1] == pair);
    } else {
        lemma_enabled(device, outputs, scan.drop_last(), i, crtc);
        let k = choose|k: int| 0 <= k < rest.len() && rest[k] == pair;
        assert(all[k] == pair);
    }
}

proof fn lemma_enabled_origin(
    device: Device,
    outputs: OutputsConfig,
    scan: Seq<ScannedInfo>,
    pair: (u32, u32),
)
    requires
        scan.filter_map(enable_pair(device, outputs)).contains(pair),
    ensures
        first_index(device.surfaces@, on_crtc(pair.1)) is None,
        !device.non_desktop_connectors@.contains(pair),
    decreases scan.len(),
{
    let f = enable_pair(device, outputs);
    if scan.len() > 0 {
        let all = scan.filter_map(f);
        let rest = scan.drop_last().filter_map(f);
        if rest.contains(pair) {
            lemma_enabled_origin(device, outputs, scan.drop_last(), pair);
        } else {
            let k = choose|k: int| 0 <= k < all.len() && all[k] == pair;
            if k < rest.len() {
                assert(rest[k] == pair);
            }
            assert(f(scan.last()) == Some(pair));
        }
    }
}

/// A surface is passed over if its connector or its renderer is missing, and turned off if the
/// configuration says so. Else it gets the mode that the configuration asks for, the computed one
/// first where a mode is configured, unless it has that mode and the right kind of rate already and
/// nobody insists.
pub proof fn surfaces_follow_the_configuration(
    info: Option<&ConnectorInfo>,
    status: &SurfaceStatus,
    config: &OutputConfig,
    force: bool,
    reload: SurfaceReload,
    modes: &[Mode],
    requested: Mode,
    same: bool,
    vrr: bool,
)
    requires
        info matches Some(info) ==> can_request(info.modes@, config.mode) && modes@ == info.modes@
            && call_ensures(get_requested_mode, (modes, config.mode), requested),
        call_ensures(surface_reload, (info, status, config, force), reload),
        call_ensures(
            Mode::same,
            (
                &status.pending,
                &(if config.mode is Some && status.custom is Some {
                    status.custom->0
                } else {
                    requested
                }),
            ),
            same,
        ),
        call_ensures(vrr_changed, (config.vrr, status.vrr_enabled), vrr),
    ensures
        info is None || !status.renderer <==> reload is Skip,
        info is Some && status.renderer && config.disable <==> reload is Disable,
        info is Some && status.renderer && !config.disable ==> {
            &&& reload is Apply <==> force || !same || vrr
            &&& reload is Keep <==> !force && same && !vrr
            &&& reload is Apply ==> reload->requested == requested && reload->custom == (
            if config.mode is Some {
                status.custom
            } else {
                None
            })
        },
{
    let known = match info {
        Some(info) => Some(*info),
        None => None,
    };
    assert(can_reload(known, *status, *config));
    assert(call_requires(surface_reload, (info, status, config, force)));
    if info is Some {
        assert(call_requires(get_requested_mode, (modes, config.mode)));
    }
    if info is Some && status.renderer && !config.disable {
        let m = choose|m: Mode| #[trigger]
            is_requested_mode(known->0.modes@, config.mode, m) && reload == {
                let custom = effective_custom(*config, status.custom);
                let new_mode = match custom {
                    Some(mode) => mode,
                    None => m,
                };
                if needs_change(*status, *config, new_mode, force) {
                    SurfaceReload::Apply { custom, requested: m }
                } else {
                    SurfaceReload::Keep
                }
            };
        requested_mode_is_unique(modes@, config.mode, m, requested);
    }
}

/// The configuration means for each surface of each device what [`surface_reload`] says, with the
/// connector that the scan tells about, the status of the surface, and what is configured for its
/// output.
pub proof fn all_surfaces_follow_the_configuration(
    data: &UdevData,
    scans: &[Vec<ScannedInfo>],
    statuses: &[SurfaceStatus],
    outputs: &OutputsConfig,
    force: bool,
    reloads: Vec<DeviceReload>,
    d: int,
    s: int,
    k: int,
    t: int,
    config: &OutputConfig,
    reload: SurfaceReload,
)
    requires
        scans@.len() == data.devices@.len(),
        reload_wf(data.devices@, scans@, statuses@, *outputs),
        call_ensures(
            UdevData::reload_output_configuration,
            (data, scans, statuses, outputs, force),
            reloads,
        ),
        0 <= d < data.devices@.len(),
        0 <= s < data.devices@[d].surfaces@.len(),
        0 <= k < scans@[d]@.len(),
        scans@[d]@[k].info.handle == data.devices@[d].surfaces@[s].connector,
        forall|j: int|
            0 <= j < k ==> (#[trigger] scans@[d]@[j]).info.handle
                != data.devices@[d].surfaces@[s].connector,
        0 <= t < statuses@.len(),
        statuses@[t].node == data.devices@[d].node,
        statuses@[t].crtc == data.devices@[d].surfaces@[s].crtc,
        forall|j: int|
            0 <= j < t ==> !((#[trigger] statuses@[j]).node == data.devices@[d].node
                && statuses@[j].crtc == data.devices@[d].surfaces@[s].crtc),
        call_ensures(OutputsConfig::get, (outputs, &statuses@[t].name), *config),
        call_ensures(
            surface_reload,
            (Some(&scans@[d]@[k].info), &statuses@[t], config, force),
            reload,
        ),
    ensures
        reloads@.len() == data.devices@.len(),
        reloads@[d].surfaces@.len() == data.devices@[d].surfaces@.len(),
        reloads@[d].surfaces@[s] == reload,
{
    assert(call_requires(
        UdevData::reload_output_configuration,
        (data, scans, statuses, outputs, force),
    ));
    let device = data.devices@[d];
    let scan = scans@[d]@;
    let surface = device.surfaces@[s];
    let p = with_handle(surface.connector);
    assert forall|j: int| 0 <= j < k implies !p(#[trigger] scan[j]) by {}
    lemma_first_index_is(scan, p, k);
    let q = status_at(device.node, surface.crtc);
    assert forall|j: int| 0 <= j < t implies !q(#[trigger] statuses@[j]) by {}
    lemma_first_index_is(statuses@, q, t);
    assert(reloads@[d].is_for(device, scan, statuses@, *outputs, force));
    assert(device_reload_wf(device.node, device.surfaces@, scan, statuses@, *outputs));
    assert(surface_reload_wf(device.node, surface, scan, statuses@, *outputs));
    assert(is_surface_reload_of(
        reloads@[d].surfaces@[s],
        device.node,
        surface,
        scan,
        statuses@,
        *outputs,
        force,
    ));
    assert(call_requires(
        surface_reload,
        (Some(&scans@[d]@[k].info), &statuses@[t], config, force),
    ));
    let status = statuses@[t];
    if status.renderer && !config.disable {
        let custom = effective_custom(*config, status.custom);
        let a = choose|m: Mode| #[trigger]
            is_requested_mode(scan[k].info.modes@, config.mode, m) && reload == {
                let new_mode = match custom {
                    Some(mode) => mode,
                    None => m,
                };
                if needs_change(status, *config, new_mode, force) {
                    SurfaceReload::Apply { custom, requested: m }
                } else {
                    SurfaceReload::Keep
                }
            };
        let b = choose|m: Mode| #[trigger]
            is_requested_mode(scan[k].info.modes@, config.mode, m) && reloads@[d].surfaces@[s] == {
                let new_mode = match custom {
                    Some(mode) => mode,
                    None => m,
                };
                if needs_change(status, *config, new_mode, force) {
                    SurfaceReload::Apply { custom, requested: m }
                } else {
                    SurfaceReload::Keep
                }
            };
        requested_mode_is_unique(scan[k].info.modes@, config.mode, a, b);
    }
}

/// The connectors of the surfaces that are turned off are told, and a connector is brought up only if
/// the scan has it connected, with a CRTC that drives nothing, it is not for leasing, and its output
/// is not turned off.
pub proof fn reloads_turn_outputs_on_and_off(
    data: &UdevData,
    scans: &[Vec<ScannedInfo>],
    statuses: &[SurfaceStatus],
    outputs: &OutputsConfig,
    force: bool,
    reloads: Vec<DeviceReload>,
    d: int,
    s: int,
    pair: (u32, u32),
)
    requires
        scans@.len() == data.devices@.len(),
        reload_wf(data.devices@, scans@, statuses@, *outputs),
        call_ensures(
            UdevData::reload_output_configuration,
            (data, scans, statuses, outputs, force),
            reloads,
        ),
        0 <= d < data.devices@.len(),
        0 <= s < data.devices@[d].surfaces@.len(),
    ensures
        reloads@[d].surfaces@[s] is Disable ==> reloads@[d].disable@.contains(
            (data.devices@[d].surfaces@[s].connector, data.devices@[d].surfaces@[s].crtc),
        ),
        reloads@[d].disable@.len() <= data.devices@[d].surfaces@.len(),
        reloads@[d].disable@.contains(pair) ==> exists|k: int|
            0 <= k < data.devices@[d].surfaces@.len() && (
            #[trigger] data.devices@[d].surfaces@[k]).connector == pair.0
                && data.devices@[d].surfaces@[k].crtc == pair.1 && reloads@[d].surfaces@[k] is
                Disable,
        reloads@[d].enable@.contains(pair) <==> exists|i: int|
            0 <= i < scans@[d]@.len() && (#[trigger] scans@[d]@[i]).info.handle == pair.0
                && scans@[d]@[i].crtc == Some(pair.1) && scans@[d]@[i].info.connected
                && !data.devices@[d].non_desktop_connectors@.contains(pair) && !outputs.spec_get(
                scans@[d]@[i].info.interface@ + "-"@ + decimal(
                    scans@[d]@[i].info.interface_id as nat,
                ),
            ).disable && forall|j: int|
                0 <= j < data.devices@[d].surfaces@.len() ==> (
                #[trigger] data.devices@[d].surfaces@[j]).crtc != pair.1,
{
    assert(call_requires(
        UdevData::reload_output_configuration,
        (data, scans, statuses, outputs, force),
    ));
    let device = data.devices@[d];
    assert(reloads@[d].is_for(device, scans@[d]@, statuses@, *outputs, force));
    lemma_disabled(device, reloads@[d].surfaces@, device.surfaces@.len() as int, s);
    lemma_disabled_origin(device, reloads@[d].surfaces@, device.surfaces@.len() as int, pair);
    lemma_enabled_exactly(device, *outputs, scans@[d]@, pair);
    let q = on_crtc(pair.1);
    lemma_first_index(device.surfaces@, q);
    if first_index(device.surfaces@, q) is Some {
        assert(q(device.surfaces@[first_index(device.surfaces@, q)->0]));
    } else {
        assert forall|j: int| 0 <= j < device.surfaces@.len() implies (
        #[trigger] device.surfaces@[j]).crtc != pair.1 by {
            assert(!q(device.surfaces@[j]));
        }
    }
}

proof fn lemma_disabled(device: Device, surfaces: Seq<SurfaceReload>, n: int, s: int)
    ensures
        DeviceReload::disabled(device, surfaces, n).len() <= if n < 0 { 0 } else { n },
        0 <= s < n && surfaces[s] is Disable ==> DeviceReload::disabled(
            device,
            surfaces,
            n,
        ).contains((device.surfaces@[s].connector, device.surfaces@[s].crtc)),
    decreases n,
{
    if n > 0 {
        lemma_disabled(device, surfaces, n - 1, s);
        let all = DeviceReload::disabled(device, surfaces, n);
        let front = DeviceReload::disabled(device, surfaces, n - 1);
        if 0 <= s < n && surfaces[s] is Disable {
            let pair = (device.surfaces@[s].connector, device.surfaces@[s].crtc);
            if s == n - 1 {
                assert(all[all.len() - 1] == pair);
            } else {
                let k = choose|k: int| 0 <= k < front.len() && front[k] == pair;
                assert(all[k] == pair);
            }
        }
    }
}

proof fn lemma_disabled_origin(
    device: Device,
    surfaces: Seq<SurfaceReload>,
    n: int,
    pair: (u32, u32),
)
    requires
        n <= device.surfaces@.len(),
    ensures
        DeviceReload::disabled(device, surfaces, n).contains(pair) ==> exists|k: int|
            0 <= k < n && (#[trigger] device.surfaces@[k]).connector == pair.0
                && device.surfaces@[k].crtc == pair.1 && surfaces[k] is Disable,
    decreases n,
{
    if n > 0 {
        lemma_disabled_origin(device, surfaces, n - 1, pair);
        let all = DeviceReload::disabled(device, surfaces, n);
        let front = DeviceReload::disabled(device, surfaces, n - 1);
        if all.contains(pair) {
            let k = choose|k: int| 0 <= k < all.len() && all[k] == pair;
            if k < front.len() {
                assert(front[k] == pair);
            } else {
                assert(device.surfaces@[n - 1].connector == pair.0);
            }
        }
    }
}

proof fn lemma_enabled_exactly(
    device: Device,
    outputs: OutputsConfig,
    scan: Seq<ScannedInfo>,
    pair: (u32, u32),
)
    ensures
        scan.filter_map(enable_pair(device, outputs)).contains(pair) <==> exists|i: int|
            0 <= i < scan.len() && enable_pair(device, outputs)(#[trigger] scan[i]) == Some(pair),
    decreases scan.len(),
{
    let f = enable_pair(device, outputs);
    let all = scan.filter_map(f);
    if scan.len() > 0 {
        let shorter = scan.drop_last();
        let rest = shorter.filter_map(f);
        lemma_enabled_exactly(device, outputs, shorter, pair);
        if all.contains(pair) {
            let k = choose|k: int| 0 <= k < all.len() && all[k] == pair;
            if k < rest.len() {
                assert(rest[k] == pair);
                let i = choose|i: int| 0 <= i < shorter.len() && f(#[trigger] shorter[i]) == Some(pair);
                assert(f(scan[i]) == Some(pair));
            } else {
                assert(f(scan[scan.len() - 1]) == Some(pair));
            }
        }
        if exists|i: int| 0 <= i < scan.len() && f(#[trigger] scan[i]) == Some(pair) {
            let i = choose|i: int| 0 <= i < scan.len() && f(#[trigger] scan[i]) == Some(pair);
            if i < shorter.len() {
                assert(f(shorter[i]) == Some(pair));
                let k = choose|k: int| 0 <= k < rest.len() && rest[k] == pair;
                assert(all[k] == pair);
            } else {
                assert(all[all.len() - 1] == pair);
            }
        }
    }
}

/// The mode of an output is set to the computed one, where there is one, and else to the mode of its
/// display that matches the size and the rate the closest; nothing is done if it has that mode. Of a
/// size beyond the range of modes only the low bits count. An output that no surface shows, or that
/// cannot be rendered, is an error.
pub proof fn output_modes_are_set_as_asked(
    data: &UdevData,
    output: u64,
    scan: &[ScannedInfo],
    size: (i32, i32),
    width: u16,
    height: u16,
    refresh: i32,
    status: &SurfaceStatus,
    answer: Result<Option<(ModeAttempt, Mode)>, SetModeError>,
    place: Option<(usize, usize)>,
    k: int,
    modes: &[Mode],
    requested: Mode,
    same: bool,
)
    requires
        size.0 as int % 0x1_0000 == width,
        size.1 as int % 0x1_0000 == height,
        data.can_set_output_mode(output, scan@, size, refresh, *status),
        call_ensures(
            UdevData::set_output_mode,
            (data, output, scan, size, refresh, status),
            answer,
        ),
        call_ensures(UdevData::find_output, (data, output), place),
        place matches Some((d, s)) ==> {
            let crtc = data.devices@[d as int].surfaces@[s as int].crtc;
            &&& 0 <= k < scan@.len()
            &&& scan@[k].crtc == Some(crtc)
            &&& forall|j: int| 0 <= j < k ==> (#[trigger] scan@[j]).crtc != Some(crtc)
            &&& modes@ == scan@[k].info.modes@
            &&& can_request(modes@, Some((width, height, Some(refresh))))
            &&& call_ensures(
                get_requested_mode,
                (modes, Some((width, height, Some(refresh)))),
                requested,
            )
            &&& call_ensures(
                Mode::same,
                (
                    &status.pending,
                    &(match status.custom {
                        Some(mode) => mode,
                        None => requested,
                    }),
                ),
                same,
            )
        },
    ensures
        place is None ==> answer == Err::<Option<(ModeAttempt, Mode)>, SetModeError>(
            SetModeError::NoSurface,
        ),
        place is Some && !status.renderer ==> answer == Err::<
            Option<(ModeAttempt, Mode)>,
            SetModeError,
        >(SetModeError::NoRenderer),
        place is Some && status.renderer ==> answer is Ok && (same <==> answer->Ok_0 is None) && (
        answer->Ok_0 matches Some((attempt, fallback)) ==> fallback == requested && match status.custom {
            Some(mode) => attempt == ModeAttempt::Custom(mode),
            None => attempt == ModeAttempt::Requested(requested),
        }),
{
    assert(call_requires(
        UdevData::set_output_mode,
        (data, output, scan, size, refresh, status),
    ));
    if let Some((d, s)) = place {
        let crtc = data.devices@[d as int].surfaces@[s as int].crtc;
        let p = with_crtc(crtc);
        assert forall|j: int| 0 <= j < k implies !p(#[trigger] scan@[j]) by {}
        lemma_first_index_is(scan@, p, k);
        let wanted = Some((width, height, Some(refresh)));
        assert(call_requires(get_requested_mode, (modes, wanted)));
        if status.renderer {
            let m = choose|m: Mode| #[trigger]
                is_requested_mode(scan@[k].info.modes@, wanted, m) && answer == {
                    let new_mode = match status.custom {
                        Some(mode) => mode,
                        None => m,
                    };
                    Ok::<Option<(ModeAttempt, Mode)>, SetModeError>(
                        if same_mode(status.pending, new_mode) {
                            None
                        } else {
                            Some((ModeAttempt::spec_first(status.custom, m), m))
                        },
                    )
                };
            requested_mode_is_unique(modes@, wanted, m, requested);
        }
    }
}

/// A mode that the display accepted is in effect on its output: clients are told it, and the clock
/// starts over with its interval and the kind of its rate. A refused mode changes nothing, and no
/// attempt changes another output. What follows is what [`ModeAttempt::outcome`] says.
pub proof fn accepted_modes_are_in_effect(
    fht: &mut Fht,
    output: u64,
    attempt: &ModeAttempt,
    accepted: bool,
    requested: Mode,
    interval: Duration,
    vrr: bool,
    outcome: ModeOutcome,
    same: ModeOutcome,
    tried: Mode,
    told: crate::backend::OutputMode,
    i: int,
    j: int,
)
    requires
        0 < interval@ <= u64::MAX,
        0 <= i < old(fht).outputs@.len(),
        old(fht).outputs@[i].id == output,
        forall|k: int| 0 <= k < i ==> (#[trigger] old(fht).outputs@[k]).id != output,
        0 <= j < old(fht).outputs@.len(),
        j != i,
        call_ensures(ModeAttempt::mode, (attempt,), tried),
        tried.htotal != 0,
        tried.vtotal != 0,
        call_ensures(to_output_mode, (&tried,), told),
        call_ensures(
            Fht::mode_attempted,
            (fht, output, attempt, accepted, requested, interval, vrr),
            outcome,
        ),
        call_ensures(ModeAttempt::outcome, (attempt, accepted, requested), same),
    ensures
        outcome == same,
        !accepted ==> final(fht).outputs == old(fht).outputs,
        accepted ==> {
            let after = final(fht).outputs@[i];
            let before = old(fht).outputs@[i];
            &&& after.id == output
            &&& after.mode == Some(told)
            &&& after.state.frame_clock@.interval == Some(interval@)
            &&& after.state.frame_clock@.last is None
            &&& after.state.frame_clock@.vrr == vrr
            &&& after.state.redraw_state == before.state.redraw_state
            &&& after.lock_surface == before.lock_surface
            &&& final(fht).outputs@[j] == old(fht).outputs@[j]
        },
        final(fht).active_output == old(fht).active_output,
{
    lemma_first_index_is(old(fht).outputs@, for_output(output), i);
    assert(call_requires(to_output_mode, (&tried,)));
    assert(call_requires(
        Fht::mode_attempted,
        (fht, output, attempt, accepted, requested, interval, vrr),
    ));
}

} // verus!
