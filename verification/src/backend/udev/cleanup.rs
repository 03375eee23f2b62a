//! Bringing a device back into a known state.
use vstd::prelude::*;

use super::reload::ScannedInfo;
use crate::config::output::OutputsConfig;
use crate::seqs::lemma_filter_take_succ;
use crate::text::{decimal, output_name, spec_output_name};

verus! {

/// What drives a connector at the moment.
#[derive(Clone, Copy, Debug, PartialEq, Eq, Structural)]
pub enum CurrentEncoder {
    /// Nothing does.
    Absent,
    /// The encoder could not be read.
    Unreadable,
    /// An encoder, on this CRTC where it is on one.
    Crtc(Option<u32>),
}

/// A connector that the scanner knows.
#[derive(Clone, Copy, Debug, PartialEq, Eq, Structural)]
pub struct ScannedConnector {
    pub handle: u32,
    /// The CRTC that the scanner assigned.
    pub crtc: Option<u32>,
    pub encoder: CurrentEncoder,
    /// Whether the configuration turns the output off.
    pub should_be_off: bool,
    /// The property `CRTC_ID`, where it was found.
    pub crtc_id: Option<u32>,
}

/// A plane of the device.
#[derive(Clone, Copy, Debug, PartialEq, Eq, Structural)]
pub struct PlaneState {
    pub handle: u32,
    /// The CRTC that shows the plane; absent also where the plane could not be read.
    pub crtc: Option<u32>,
    pub primary: bool,
    /// The property `CRTC_ID`, where it was found.
    pub crtc_id: Option<u32>,
    /// The property `FB_ID`, where it was found.
    pub fb_id: Option<u32>,
}

/// A CRTC of the device.
#[derive(Clone, Copy, Debug, PartialEq, Eq, Structural)]
pub struct CrtcState {
    pub handle: u32,
    /// The property `MODE_ID`, where it was found.
    pub mode_id: Option<u32>,
    /// The property `ACTIVE`, where it was found.
    pub active: Option<u32>,
}

/// The values that a cleanup sets.
#[derive(Clone, Copy, Debug, PartialEq, Eq, Structural)]
pub enum ResetValue {
    NoCrtc,
    NoFramebuffer,
    NoMode,
    Inactive,
}

/// One property that a cleanup sets.
#[derive(Clone, Copy, Debug, PartialEq, Eq, Structural)]
pub struct PropertyReset {
    pub object: u32,
    pub property: u32,
    pub value: ResetValue,
}

/// What a cleanup does.
#[derive(Debug)]
pub enum CleanupPlan {
    /// Without atomic mode setting: remove the cursor from these CRTCs, then turn those off.
    Legacy { cursors: Vec<u32>, disable: Vec<u32> },
    /// Commit these properties at once.
    Atomic(Vec<PropertyReset>),
}

impl ScannedConnector {
    /// Whether the connector is driven by another CRTC than the one it is meant to have. An
    /// unreadable encoder counts as another one.
    pub open spec fn spec_has_different_crtc(&self, crtc: u32) -> bool {
        match self.encoder {
            CurrentEncoder::Absent => false,
            CurrentEncoder::Unreadable => true,
            CurrentEncoder::Crtc(current) => current matches Some(c) && c != crtc,
        }
    }

    /// Whether the connector stays as it is.
    pub open spec fn spec_kept(&self) -> bool {
        self.crtc matches Some(crtc) && !self.spec_has_different_crtc(crtc) && !self.should_be_off
    }

    /// Whether the connector stays as it is: it has its CRTC and is not turned off.
    pub fn kept(&self) -> (b: bool)
        ensures
            b == self.spec_kept(),
    {
        match self.crtc {
            Some(crtc) => {
                let different = match self.encoder {
                    CurrentEncoder::Absent => false,
                    CurrentEncoder::Unreadable => true,
                    CurrentEncoder::Crtc(Some(current)) => current != crtc,
                    CurrentEncoder::Crtc(None) => false,
                };
                !different && !self.should_be_off
            },
            None => false,
        }
    }
}

/// Whether a connector that stays uses this CRTC.
pub open spec fn crtc_in_use(connectors: Seq<ScannedConnector>, crtc: u32) -> bool {
    exists|i: int|
        0 <= i < connectors.len() && (#[trigger] connectors[i]).spec_kept() && connectors[i].crtc
            == Some(crtc)
}

/// Whether a CRTC is to be turned off.
pub open spec fn stale_crtc(connectors: Seq<ScannedConnector>) -> spec_fn(CrtcState) -> bool {
    |crtc: CrtcState| !crtc_in_use(connectors, crtc.handle)
}

/// Whether `crtc` is one of the device that is to be turned off.
pub open spec fn cleaned_up(
    crtcs: Seq<CrtcState>,
    connectors: Seq<ScannedConnector>,
    crtc: u32,
) -> bool {
    !crtc_in_use(connectors, crtc) && exists|i: int|
        0 <= i < crtcs.len() && (#[trigger] crtcs[i]).handle == crtc
}

/// The reset of a connector that does not stay.
pub open spec fn connector_reset() -> spec_fn(ScannedConnector) -> Option<PropertyReset> {
    |conn: ScannedConnector|
        if conn.spec_kept() || conn.crtc_id is None {
            None
        } else {
            Some(
                PropertyReset {
                    object: conn.handle,
                    property: conn.crtc_id->0,
                    value: ResetValue::NoCrtc,
                },
            )
        }
}

/// The resets of one plane: it is disabled unless it is the primary plane of a CRTC that is not
/// turned off.
pub open spec fn plane_resets(
    plane: PlaneState,
    crtcs: Seq<CrtcState>,
    connectors: Seq<ScannedConnector>,
) -> Seq<PropertyReset> {
    match (plane.crtc, plane.crtc_id, plane.fb_id) {
        (Some(crtc), Some(crtc_id), Some(fb_id)) => if plane.primary && !cleaned_up(
            crtcs,
            connectors,
            crtc,
        ) {
            Seq::empty()
        } else {
            seq![
                PropertyReset {
                    object: plane.handle,
                    property: crtc_id,
                    value: ResetValue::NoCrtc,
                },
                PropertyReset {
                    object: plane.handle,
                    property: fb_id,
                    value: ResetValue::NoFramebuffer,
                },
            ]
        },
        _ => Seq::empty(),
    }
}

/// The resets of all planes, in order.
pub open spec fn all_plane_resets(
    planes: Seq<PlaneState>,
    crtcs: Seq<CrtcState>,
    connectors: Seq<ScannedConnector>,
) -> Seq<PropertyReset>
    decreases planes.len(),
{
    if planes.len() == 0 {
        Seq::empty()
    } else {
        all_plane_resets(planes.drop_last(), crtcs, connectors) + plane_resets(
            planes.last(),
            crtcs,
            connectors,
        )
    }
}

/// The resets of one CRTC: it loses its mode and is turned off, unless it is in use.
pub open spec fn crtc_resets(crtc: CrtcState, connectors: Seq<ScannedConnector>) -> Seq<
    PropertyReset,
> {
    match (crtc.mode_id, crtc.active) {
        (Some(mode_id), Some(active)) => if crtc_in_use(connectors, crtc.handle) {
            Seq::empty()
        } else {
            seq![
                PropertyReset { object: crtc.handle, property: mode_id, value: ResetValue::NoMode },
                PropertyReset { object: crtc.handle, property: active, value: ResetValue::Inactive },
            ]
        },
        _ => Seq::empty(),
    }
}

/// The resets of all CRTCs, in order.
pub open spec fn all_crtc_resets(
    crtcs: Seq<CrtcState>,
    connectors: Seq<ScannedConnector>,
) -> Seq<PropertyReset>
    decreases crtcs.len(),
{
    if crtcs.len() == 0 {
        Seq::empty()
    } else {
        all_crtc_resets(crtcs.drop_last(), connectors) + crtc_resets(crtcs.last(), connectors)
    }
}

/// The handle of a CRTC.
pub open spec fn crtc_handle() -> spec_fn(CrtcState) -> u32 {
    |crtc: CrtcState| crtc.handle
}

fn is_in_use(connectors: &[ScannedConnector], crtc: u32) -> (b: bool)
    ensures
        b == crtc_in_use(connectors@, crtc),
{
    let mut i: usize = 0;
    while i < connectors.len()
        invariant
            0 <= i <= connectors.len(),
            forall|j: int|
                0 <= j < i ==> !((#[trigger] connectors@[j]).spec_kept() && connectors@[j].crtc
                    == Some(crtc)),
        decreases connectors.len() - i,
    {
        if connectors[i].kept() {
            if let Some(used) = connectors[i].crtc {
                if used == crtc {
                    assert(connectors@[i as int].spec_kept());
                    return true;
                }
            }
        }
        i += 1;
    }
    false
}

fn is_cleaned_up(crtcs: &[CrtcState], connectors: &[ScannedConnector], crtc: u32) -> (b: bool)
    ensures
        b == cleaned_up(crtcs@, connectors@, crtc),
{
    if is_in_use(connectors, crtc) {
        return false;
    }
    let mut i: usize = 0;
    while i < crtcs.len()
        invariant
            0 <= i <= crtcs.len(),
            !crtc_in_use(connectors@, crtc),
            forall|j: int| 0 <= j < i ==> (#[trigger] crtcs@[j]).handle != crtc,
        decreases crtcs.len() - i,
    {
        if crtcs[i].handle == crtc {
            return true;
        }
        i += 1;
    }
    false
}

/// Whether `plan` turns off everything that the configured outputs do not need.
pub open spec fn is_cleanup(
    plan: CleanupPlan,
    atomic: bool,
    crtcs: Seq<CrtcState>,
    connectors: Seq<ScannedConnector>,
    planes: Seq<PlaneState>,
) -> bool {
    match plan {
        CleanupPlan::Legacy { cursors, disable } => {
            &&& !atomic
            &&& cursors@ == crtcs.map_values(crtc_handle())
            &&& disable@ == crtcs.filter(stale_crtc(connectors)).map_values(crtc_handle())
        },
        CleanupPlan::Atomic(resets) => {
            &&& atomic
            &&& resets@ == connectors.filter_map(connector_reset()) + all_plane_resets(
                planes,
                crtcs,
                connectors,
            ) + all_crtc_resets(crtcs, connectors)
        },
    }
}

/// Work out how to turn off everything that the configured outputs do not need.
///
/// A connector stays if it has its assigned CRTC and its output is not turned off; all others are
/// taken off their CRTC. CRTCs that no remaining connector uses are turned off, together with
/// their planes. Of the CRTCs in use only the primary plane stays. An object without the needed
/// properties is passed over.
pub fn cleanup_mismatching_resources(
    atomic: bool,
    crtcs: &[CrtcState],
    connectors: &[ScannedConnector],
    planes: &[PlaneState],
) -> (plan: CleanupPlan)
    ensures
        is_cleanup(plan, atomic, crtcs@, connectors@, planes@),
{
    if !atomic {
        let mut cursors: Vec<u32> = Vec::new();
        let mut disable: Vec<u32> = Vec::new();
        let mut i: usize = 0;
        assert(crtcs@.take(0).filter(stale_crtc(connectors@)) =~= Seq::empty()) by {
            reveal(Seq::filter);
        }
        assert(disable@ =~= crtcs@.take(0).filter(stale_crtc(connectors@)).map_values(
            crtc_handle(),
        ));
        while i < crtcs.len()
            invariant
                0 <= i <= crtcs.len(),
                cursors@ =~= crtcs@.take(i as int).map_values(crtc_handle()),
                disable@ == crtcs@.take(i as int).filter(stale_crtc(connectors@)).map_values(
                    crtc_handle(),
                ),
            decreases crtcs.len() - i,
        {
            proof {
                lemma_filter_take_succ(crtcs@, stale_crtc(connectors@), i as int);
            }
            let crtc: u32 = crtcs[i].handle;
            cursors.push(crtc);
            if !is_in_use(connectors, crtc) {
                disable.push(crtc);
            }
            i += 1;
            assert(disable@ =~= crtcs@.take(i as int).filter(stale_crtc(connectors@)).map_values(
                crtc_handle(),
            ));
        }
        assert(crtcs@.take(crtcs@.len() as int) =~= crtcs@);
        return CleanupPlan::Legacy { cursors, disable };
    }
    let mut resets: Vec<PropertyReset> = Vec::new();

    let mut i: usize = 0;
    assert(connectors@.take(0).filter_map(connector_reset()) =~= Seq::empty());
    while i < connectors.len()
        invariant
            0 <= i <= connectors.len(),
            resets@ == connectors@.take(i as int).filter_map(connector_reset()),
        decreases connectors.len() - i,
    {
        proof {
            connectors@.lemma_filter_map_take_succ(connector_reset(), i as int);
        }
        let conn = connectors[i];
        if !conn.kept() {
            if let Some(property) = conn.crtc_id {
                resets.push(
                    PropertyReset { object: conn.handle, property, value: ResetValue::NoCrtc },
                );
            }
        }
        i += 1;
        assert(resets@ =~= connectors@.take(i as int).filter_map(connector_reset()));
    }
    assert(connectors@.take(connectors@.len() as int) =~= connectors@);
    let ghost first = resets@;

    let mut i: usize = 0;
    assert(planes@.take(0) =~= Seq::empty());
    assert(first + all_plane_resets(planes@.take(0), crtcs@, connectors@) =~= first);
    while i < planes.len()
        invariant
            0 <= i <= planes.len(),
            resets@ == first + all_plane_resets(planes@.take(i as int), crtcs@, connectors@),
        decreases planes.len() - i,
    {
        let ghost before = resets@;
        let plane = planes[i];
        if let (Some(crtc), Some(crtc_id), Some(fb_id)) = (plane.crtc, plane.crtc_id, plane.fb_id) {
            if !plane.primary || is_cleaned_up(crtcs, connectors, crtc) {
                resets.push(
                    PropertyReset {
                        object: plane.handle,
                        property: crtc_id,
                        value: ResetValue::NoCrtc,
                    },
                );
                resets.push(
                    PropertyReset {
                        object: plane.handle,
                        property: fb_id,
                        value: ResetValue::NoFramebuffer,
                    },
                );
            }
        }
        proof {
            assert(resets@ =~= before + plane_resets(plane, crtcs@, connectors@));
            assert(planes@.take(i + 1).drop_last() =~= planes@.take(i as int));
            assert(planes@.take(i + 1).last() == plane);
            assert(resets@ =~= first + all_plane_resets(planes@.take(i + 1), crtcs@, connectors@));
        }
        i += 1;
    }
    assert(planes@.take(planes@.len() as int) =~= planes@);
    let ghost second = resets@;

    let mut i: usize = 0;
    assert(crtcs@.take(0) =~= Seq::empty());
    assert(second + all_crtc_resets(crtcs@.take(0), connectors@) =~= second);
    while i < crtcs.len()
        invariant
            0 <= i <= crtcs.len(),
            resets@ == second + all_crtc_resets(crtcs@.take(i as int), connectors@),
        decreases crtcs.len() - i,
    {
        let ghost before = resets@;
        let crtc = crtcs[i];
        if let (Some(mode_id), Some(active)) = (crtc.mode_id, crtc.active) {
            if !is_in_use(connectors, crtc.handle) {
                resets.push(
                    PropertyReset {
                        object: crtc.handle,
                        property: mode_id,
                        value: ResetValue::NoMode,
                    },
                );
                resets.push(
                    PropertyReset {
                        object: crtc.handle,
                        property: active,
                        value: ResetValue::Inactive,
                    },
                );
            }
        }
        proof {
            assert(resets@ =~= before + crtc_resets(crtc, connectors@));
            assert(crtcs@.take(i + 1).drop_last() =~= crtcs@.take(i as int));
            assert(crtcs@.take(i + 1).last() == crtc);
            assert(resets@ =~= second + all_crtc_resets(crtcs@.take(i + 1), connectors@));
        }
        i += 1;
    }
    assert(crtcs@.take(crtcs@.len() as int) =~= crtcs@);
    CleanupPlan::Atomic(resets)
}

/// What the kernel tells about a connector that the scanner knows.
#[derive(Clone, Copy, Debug, PartialEq, Eq, Structural)]
pub struct ConnectorState {
    pub encoder: CurrentEncoder,
    /// The property `CRTC_ID`, where it was found.
    pub crtc_id: Option<u32>,
}

/// What the kernel tells about a device that is to be cleaned up.
#[derive(Debug)]
pub struct DeviceState {
    /// Whether the device supports atomic mode setting.
    pub atomic: bool,
    pub crtcs: Vec<CrtcState>,
    /// The connectors, in the order in which the scanner lists them.
    pub connectors: Vec<ConnectorState>,
    pub planes: Vec<PlaneState>,
}

/// A connector that is to be cleaned up: it is turned off where the configuration says so.
pub open spec fn scanned_connector(
    scanned: ScannedInfo,
    state: ConnectorState,
    outputs: OutputsConfig,
) -> ScannedConnector {
    ScannedConnector {
        handle: scanned.info.handle,
        crtc: scanned.crtc,
        encoder: state.encoder,
        should_be_off: outputs.spec_get(
            spec_output_name(scanned.info.interface@, scanned.info.interface_id as nat),
        ).disable,
        crtc_id: state.crtc_id,
    }
}

/// The connectors that are to be cleaned up.
pub open spec fn scanned_connectors(
    scan: Seq<ScannedInfo>,
    states: Seq<ConnectorState>,
    outputs: OutputsConfig,
) -> Seq<ScannedConnector> {
    Seq::new(scan.len(), |i: int| scanned_connector(scan[i], states[i], outputs))
}

/// Work out how to clean up a device whose connectors were scanned; see
/// [`cleanup_mismatching_resources`]. The configuration tells which outputs are turned off.
pub fn cleanup_device(scan: &[ScannedInfo], state: &DeviceState, outputs: &OutputsConfig) -> (plan:
    CleanupPlan)
    requires
        state.connectors@.len() == scan@.len(),
    ensures
        is_cleanup(
            plan,
            state.atomic,
            state.crtcs@,
            scanned_connectors(scan@, state.connectors@, *outputs),
            state.planes@,
        ),
{
    let mut connectors: Vec<ScannedConnector> = Vec::new();
    let mut i: usize = 0;
    while i < scan.len()
        invariant
            0 <= i <= scan.len(),
            state.connectors@.len() == scan@.len(),
            connectors@.len() == i,
            forall|j: int|
                0 <= j < i ==> #[trigger] connectors@[j] == scanned_connector(
                    scan@[j],
                    state.connectors@[j],
                    *outputs,
                ),
        decreases scan.len() - i,
    {
        let info = &scan[i].info;
        let name = output_name(info.interface.as_str(), info.interface_id);
        connectors.push(
            ScannedConnector {
                handle: info.handle,
                crtc: scan[i].crtc,
                encoder: state.connectors[i].encoder,
                should_be_off: outputs.get(&name).disable,
                crtc_id: state.connectors[i].crtc_id,
            },
        );
        i += 1;
    }
    assert(connectors@ =~= scanned_connectors(scan@, state.connectors@, *outputs));
    cleanup_mismatching_resources(
        state.atomic,
        state.crtcs.as_slice(),
        connectors.as_slice(),
        state.planes.as_slice(),
    )
}

/// A connector whose output is turned off is cleared, if it has the property for that.
pub proof fn disabled_outputs_are_cleared(
    scanned: ScannedInfo,
    state: ConnectorState,
    outputs: OutputsConfig,
)
    requires
        outputs.spec_get(
            spec_output_name(scanned.info.interface@, scanned.info.interface_id as nat),
        ).disable,
        state.crtc_id is Some,
    ensures
        connector_reset()(scanned_connector(scanned, state, outputs)) == Some(
            PropertyReset {
                object: scanned.info.handle,
                property: state.crtc_id->0,
                value: ResetValue::NoCrtc,
            },
        ),
{
}

/// The CRTC of a connector that stays is not turned off, whichever way the cleanup is done.
pub proof fn used_crtcs_stay_on(
    crtcs: Seq<CrtcState>,
    connectors: Seq<ScannedConnector>,
    conn: int,
    crtc: CrtcState,
)
    requires
        0 <= conn < connectors.len(),
        connectors[conn].spec_kept(),
        connectors[conn].crtc == Some(crtc.handle),
    ensures
        !stale_crtc(connectors)(crtc),
        crtc_resets(crtc, connectors).len() == 0,
        !cleaned_up(crtcs, connectors, crtc.handle),
{
}

/// A CRTC that no remaining connector uses is turned off, if it has the properties for it.
pub proof fn unused_crtcs_are_turned_off(connectors: Seq<ScannedConnector>, crtc: CrtcState)
    requires
        forall|i: int|
            0 <= i < connectors.len() ==> (#[trigger] connectors[i]).crtc != Some(crtc.handle)
                || !connectors[i].spec_kept(),
        crtc.mode_id is Some,
        crtc.active is Some,
    ensures
        stale_crtc(connectors)(crtc),
        crtc_resets(crtc, connectors).contains(
            PropertyReset {
                object: crtc.handle,
                property: crtc.active->0,
                value: ResetValue::Inactive,
            },
        ),
{
    let resets = crtc_resets(crtc, connectors);
    assert(resets[1] == (PropertyReset {
        object: crtc.handle,
        property: crtc.active->0,
        value: ResetValue::Inactive,
    }));
}

/// The primary plane of a CRTC in use keeps its content.
pub proof fn used_primary_planes_stay(
    plane: PlaneState,
    crtcs: Seq<CrtcState>,
    connectors: Seq<ScannedConnector>,
)
    requires
        plane.primary,
        plane.crtc matches Some(crtc) && crtc_in_use(connectors, crtc),
    ensures
        plane_resets(plane, crtcs, connectors).len() == 0,
{
}

/// A connector stays exactly if it has a CRTC, is on no other one, and its output is not turned off;
/// an encoder that cannot be read counts as being on another one, and none counts as being on none.
pub proof fn connectors_stay_on_their_crtc(connector: &ScannedConnector, kept: bool)
    requires
        call_ensures(ScannedConnector::kept, (connector,), kept),
    ensures
        connector.crtc is None || connector.should_be_off ==> !kept,
        connector.encoder is Unreadable ==> !kept,
        connector.crtc is Some && !connector.should_be_off ==> match connector.encoder {
            CurrentEncoder::Absent => kept,
            CurrentEncoder::Crtc(None) => kept,
            CurrentEncoder::Crtc(Some(on)) => kept == (connector.crtc == Some(on)),
            CurrentEncoder::Unreadable => !kept,
        },
{
}

/// Without atomic mode setting, the cursor goes from every CRTC, and exactly those CRTCs are turned
/// off that no connector uses which stays.
pub proof fn unused_crtcs_go(
    crtcs: &[CrtcState],
    connectors: &[ScannedConnector],
    planes: &[PlaneState],
    plan: CleanupPlan,
    i: int,
)
    requires
        call_ensures(cleanup_mismatching_resources, (false, crtcs, connectors, planes), plan),
        0 <= i < crtcs@.len(),
    ensures
        plan is Legacy,
        plan->cursors@.len() == crtcs@.len(),
        plan->cursors@[i] == crtcs@[i].handle,
        plan->disable@.contains(crtcs@[i].handle) <==> forall|k: int|
            0 <= k < connectors@.len() && (#[trigger] connectors@[k]).spec_kept()
                ==> connectors@[k].crtc != Some(crtcs@[i].handle),
{
    let p = stale_crtc(connectors@);
    let kept = crtcs@.filter(p);
    let handles = kept.map_values(crtc_handle());
    if p(crtcs@[i]) {
        crtcs@.lemma_filter_contains(p, i);
        let k = choose|k: int| 0 <= k < kept.len() && kept[k] == crtcs@[i];
        assert(handles[k] == crtcs@[i].handle);
        assert forall|k: int|
            0 <= k < connectors@.len() && (#[trigger] connectors@[k]).spec_kept() implies
            connectors@[k].crtc != Some(crtcs@[i].handle) by {}
    } else if handles.contains(crtcs@[i].handle) {
        let k = choose|k: int| 0 <= k < handles.len() && handles[k] == crtcs@[i].handle;
        crtcs@.lemma_filter_pred(p, k);
        assert(p(kept[k]));
    }
    if !p(crtcs@[i]) {
        let k = choose|k: int|
            0 <= k < connectors@.len() && (#[trigger] connectors@[k]).spec_kept()
                && connectors@[k].crtc == Some(crtcs@[i].handle);
        assert(connectors@[k].spec_kept());
    }
}

/// With atomic mode setting, a property is reset for one of three reasons, and for no other: a
/// connector does not stay, and loses its CRTC; a plane is shown by a CRTC, and is not the primary
/// one of a CRTC that stays on, and loses its CRTC and its frame buffer; or a CRTC is in use by no
/// connector that stays, and loses its mode and is turned off. Each is passed over without the
/// properties for that.
pub proof fn stale_objects_are_reset(
    crtcs: &[CrtcState],
    connectors: &[ScannedConnector],
    planes: &[PlaneState],
    plan: CleanupPlan,
    reset: PropertyReset,
)
    requires
        call_ensures(cleanup_mismatching_resources, (true, crtcs, connectors, planes), plan),
    ensures
        plan is Atomic,
        plan->Atomic_0@.contains(reset) <==> {
            ||| exists|k: int|
                0 <= k < connectors@.len() && !(#[trigger] connectors@[k]).spec_kept()
                    && connectors@[k].crtc_id == Some(reset.property) && connectors@[k].handle
                    == reset.object && reset.value is NoCrtc
            ||| exists|k: int|
                0 <= k < planes@.len() && resets_plane(
                    #[trigger] planes@[k],
                    crtcs@,
                    connectors@,
                    reset,
                )
            ||| exists|k: int|
                0 <= k < crtcs@.len() && resets_crtc(#[trigger] crtcs@[k], connectors@, reset)
        },
{
    lemma_connector_resets(connectors@, reset);
    lemma_plane_resets(planes@, crtcs@, connectors@, reset);
    lemma_crtc_resets(crtcs@, connectors@, reset);
    let a = connectors@.filter_map(connector_reset());
    let b = all_plane_resets(planes@, crtcs@, connectors@);
    let c = all_crtc_resets(crtcs@, connectors@);
    lemma_sum_contains(a, b, reset);
    lemma_sum_contains(a + b, c, reset);
}

/// Whether a reset is one of a plane that does not stay: every plane that is shown goes, but the
/// primary one of a CRTC that some connector keeps using, or that is not one of the device.
pub open spec fn resets_plane(
    plane: PlaneState,
    crtcs: Seq<CrtcState>,
    connectors: Seq<ScannedConnector>,
    reset: PropertyReset,
) -> bool {
    &&& plane.crtc is Some && plane.crtc_id is Some && plane.fb_id is Some
    &&& !plane.primary || (forall|j: int|
        0 <= j < connectors.len() && (#[trigger] connectors[j]).spec_kept() ==> connectors[j].crtc
            != plane.crtc) && exists|j: int|
        0 <= j < crtcs.len() && (#[trigger] crtcs[j]).handle == plane.crtc->0
    &&& reset.object == plane.handle
    &&& reset.property == plane.crtc_id->0 && reset.value is NoCrtc || reset.property
        == plane.fb_id->0 && reset.value is NoFramebuffer
}

/// Whether a reset is one of a CRTC that no connector uses which stays.
pub open spec fn resets_crtc(
    crtc: CrtcState,
    connectors: Seq<ScannedConnector>,
    reset: PropertyReset,
) -> bool {
    &&& crtc.mode_id is Some && crtc.active is Some
    &&& forall|j: int|
        0 <= j < connectors.len() && (#[trigger] connectors[j]).spec_kept() ==> connectors[j].crtc
            != Some(crtc.handle)
    &&& reset.object == crtc.handle
    &&& reset.property == crtc.mode_id->0 && reset.value is NoMode || reset.property
        == crtc.active->0 && reset.value is Inactive
}

proof fn lemma_sum_contains(a: Seq<PropertyReset>, b: Seq<PropertyReset>, x: PropertyReset)
    ensures
        (a + b).contains(x) <==> a.contains(x) || b.contains(x),
{
    if a.contains(x) {
        let k = choose|k: int| 0 <= k < a.len() && a[k] == x;
        assert((a + b)[k] == x);
    }
    if b.contains(x) {
        let k = choose|k: int| 0 <= k < b.len() && b[k] == x;
        assert((a + b)[a.len() + k] == x);
    }
    if (a + b).contains(x) {
        let k = choose|k: int| 0 <= k < (a + b).len() && (a + b)[k] == x;
        if k < a.len() {
            assert(a[k] == x);
        } else {
            assert(b[k - a.len()] == x);
        }
    }
}

proof fn lemma_connector_resets(connectors: Seq<ScannedConnector>, reset: PropertyReset)
    ensures
        connectors.filter_map(connector_reset()).contains(reset) <==> exists|k: int|
            0 <= k < connectors.len() && !(#[trigger] connectors[k]).spec_kept()
                && connectors[k].crtc_id == Some(reset.property) && connectors[k].handle
                == reset.object && reset.value is NoCrtc,
    decreases connectors.len(),
{
    let f = connector_reset();
    let all = connectors.filter_map(f);
    if connectors.len() > 0 {
        let shorter = connectors.drop_last();
        let rest = shorter.filter_map(f);
        let last = connectors.last();
        lemma_connector_resets(shorter, reset);
        let hit = !last.spec_kept() && last.crtc_id == Some(reset.property) && last.handle
            == reset.object && reset.value is NoCrtc;
        assert(f(last) == Some(reset) <==> hit);
        if hit {
            assert(all[all.len() - 1] == reset);
            assert(connectors[connectors.len() - 1] == last);
        }
        if rest.contains(reset) {
            let k = choose|k: int| 0 <= k < rest.len() && rest[k] == reset;
            assert(all[k] == reset);
            let i = choose|i: int|
                0 <= i < shorter.len() && !(#[trigger] shorter[i]).spec_kept() && shorter[i].crtc_id
                    == Some(reset.property) && shorter[i].handle == reset.object && reset.value is
                    NoCrtc;
            assert(connectors[i] == shorter[i]);
        }
        if all.contains(reset) && !rest.contains(reset) {
            let k = choose|k: int| 0 <= k < all.len() && all[k] == reset;
            if k < rest.len() {
                assert(rest[k] == reset);
            }
        }
        if exists|k: int|
            0 <= k < connectors.len() && !(#[trigger] connectors[k]).spec_kept()
                && connectors[k].crtc_id == Some(reset.property) && connectors[k].handle
                == reset.object && reset.value is NoCrtc {
            let k = choose|k: int|
                0 <= k < connectors.len() && !(#[trigger] connectors[k]).spec_kept()
                    && connectors[k].crtc_id == Some(reset.property) && connectors[k].handle
                    == reset.object && reset.value is NoCrtc;
            if k < shorter.len() {
                assert(shorter[k] == connectors[k]);
            }
        }
    }
}

proof fn lemma_plane_resets(
    planes: Seq<PlaneState>,
    crtcs: Seq<CrtcState>,
    connectors: Seq<ScannedConnector>,
    reset: PropertyReset,
)
    ensures
        all_plane_resets(planes, crtcs, connectors).contains(reset) <==> exists|k: int|
            0 <= k < planes.len() && resets_plane(#[trigger] planes[k], crtcs, connectors, reset),
    decreases planes.len(),
{
    if planes.len() > 0 {
        let shorter = planes.drop_last();
        let last = planes.last();
        let rest = all_plane_resets(shorter, crtcs, connectors);
        let own = plane_resets(last, crtcs, connectors);
        lemma_plane_resets(shorter, crtcs, connectors, reset);
        lemma_sum_contains(rest, own, reset);
        assert(own.contains(reset) <==> resets_plane(last, crtcs, connectors, reset)) by {
            if own.len() == 2 {
                assert(own[0].value is NoCrtc && own[1].value is NoFramebuffer);
                if resets_plane(last, crtcs, connectors, reset) {
                    assert(own[0] == reset || own[1] == reset);
                }
            }
            if last.crtc is Some {
                lemma_in_use(connectors, last.crtc->0);
            }
        }
        if resets_plane(last, crtcs, connectors, reset) {
            assert(planes[planes.len() - 1] == last);
        }
        if rest.contains(reset) {
            let k = choose|k: int|
                0 <= k < shorter.len() && resets_plane(
                    #[trigger] shorter[k],
                    crtcs,
                    connectors,
                    reset,
                );
            assert(planes[k] == shorter[k]);
        }
        if exists|k: int|
            0 <= k < planes.len() && resets_plane(#[trigger] planes[k], crtcs, connectors, reset) {
            let k = choose|k: int|
                0 <= k < planes.len() && resets_plane(
                    #[trigger] planes[k],
                    crtcs,
                    connectors,
                    reset,
                );
            if k < shorter.len() {
                assert(shorter[k] == planes[k]);
            }
        }
    }
}

proof fn lemma_in_use(connectors: Seq<ScannedConnector>, crtc: u32)
    ensures
        !crtc_in_use(connectors, crtc) <==> forall|j: int|
            0 <= j < connectors.len() && (#[trigger] connectors[j]).spec_kept()
                ==> connectors[j].crtc != Some(crtc),
{
}

proof fn lemma_crtc_resets(
    crtcs: Seq<CrtcState>,
    connectors: Seq<ScannedConnector>,
    reset: PropertyReset,
)
    ensures
        all_crtc_resets(crtcs, connectors).contains(reset) <==> exists|k: int|
            0 <= k < crtcs.len() && resets_crtc(#[trigger] crtcs[k], connectors, reset),
    decreases crtcs.len(),
{
    if crtcs.len() > 0 {
        let shorter = crtcs.drop_last();
        let last = crtcs.last();
        let rest = all_crtc_resets(shorter, connectors);
        let own = crtc_resets(last, connectors);
        lemma_crtc_resets(shorter, connectors, reset);
        lemma_sum_contains(rest, own, reset);
        lemma_in_use(connectors, last.handle);
        assert(own.contains(reset) <==> resets_crtc(last, connectors, reset)) by {
            if own.len() == 2 {
                assert(own[0].value is NoMode && own[1].value is Inactive);
                if resets_crtc(last, connectors, reset) {
                    assert(own[0] == reset || own[1] == reset);
                }
            }
        }
        if resets_crtc(last, connectors, reset) {
            assert(crtcs[crtcs.len() - 1] == last);
        }
        if rest.contains(reset) {
            let k = choose|k: int|
                0 <= k < shorter.len() && resets_crtc(#[trigger] shorter[k], connectors, reset);
            assert(crtcs[k] == shorter[k]);
        }
        if exists|k: int|
            0 <= k < crtcs.len() && resets_crtc(#[trigger] crtcs[k], connectors, reset) {
            let k = choose|k: int|
                0 <= k < crtcs.len() && resets_crtc(#[trigger] crtcs[k], connectors, reset);
            if k < shorter.len() {
                assert(shorter[k] == crtcs[k]);
            }
        }
    }
}

/// A device is cleaned up as [`cleanup_mismatching_resources`] says, where an output is turned off
/// exactly if the configuration of its name says so.
pub proof fn devices_are_cleaned_up_as_configured(
    scan: &[ScannedInfo],
    state: &DeviceState,
    outputs: &OutputsConfig,
    plan: CleanupPlan,
    crtcs: &[CrtcState],
    connectors: &[ScannedConnector],
    planes: &[PlaneState],
    same: CleanupPlan,
)
    requires
        state.connectors@.len() == scan@.len(),
        call_ensures(cleanup_device, (scan, state, outputs), plan),
        crtcs@ == state.crtcs@,
        planes@ == state.planes@,
        connectors@.len() == scan@.len(),
        forall|i: int|
            0 <= i < scan@.len() ==> {
                let connector = #[trigger] connectors@[i];
                &&& connector.handle == scan@[i].info.handle
                &&& connector.crtc == scan@[i].crtc
                &&& connector.encoder == state.connectors@[i].encoder
                &&& connector.crtc_id == state.connectors@[i].crtc_id
                &&& connector.should_be_off == outputs.spec_get(
                    scan@[i].info.interface@ + "-"@ + decimal(scan@[i].info.interface_id as nat),
                ).disable
            },
        call_ensures(
            cleanup_mismatching_resources,
            (state.atomic, crtcs, connectors, planes),
            same,
        ),
    ensures
        plan is Atomic <==> same is Atomic,
        plan is Atomic ==> plan->Atomic_0@ == same->Atomic_0@,
        plan is Legacy ==> plan->cursors@ == same->cursors@ && plan->disable@ == same->disable@,
{
    assert(call_requires(cleanup_device, (scan, state, outputs)));
    let all = scanned_connectors(scan@, state.connectors@, *outputs);
    assert forall|i: int| 0 <= i < scan@.len() implies all[i] == #[trigger] connectors@[i] by {}
    assert(all =~= connectors@);
}

} // verus!
