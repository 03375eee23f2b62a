//! A DRM device with its connectors, surfaces and leases.
use vstd::prelude::*;

use crate::seqs::{first_index, lemma_first_index, lemma_first_index_is, lemma_first_index_none};

verus! {

/// An output that the device drives. Handles are the kernel's object numbers.
#[derive(Clone, Copy, Debug, PartialEq, Eq, Structural)]
pub struct Surface {
    pub crtc: u32,
    pub connector: u32,
    /// The output that shows this surface.
    pub output: u64,
    /// The device that renders for this surface.
    pub render_node: u64,
}

/// What a connector scan found out.
#[derive(Clone, Copy, Debug, PartialEq, Eq, Structural)]
pub enum DrmScanEvent {
    Connected { connector: u32, crtc: Option<u32> },
    Disconnected { connector: u32, crtc: Option<u32> },
}

/// What removing a connector comes down to.
#[derive(Clone, Copy, Debug, PartialEq, Eq, Structural)]
pub enum RemovedConnector {
    /// The connector was up for leasing: it is withdrawn where leasing is available.
    NonDesktop { withdraw: bool },
    /// The surface is disabled and its output removed.
    Surface(Surface),
    /// The connector never got a surface.
    Missing,
}

/// A lease request that was turned down.
#[derive(Clone, Copy, Debug, PartialEq, Eq, Structural)]
pub struct LeaseRejected;

/// The planes that could be claimed for a connector that is to be leased.
#[derive(Clone, Copy, Debug, PartialEq, Eq, Structural)]
pub enum ClaimedPlanes {
    /// The planes of the CRTC could not be listed.
    Failed,
    /// No primary plane could be claimed.
    NoPrimary,
    Planes { primary: u32, cursor: Option<u32> },
}

/// One connector of a lease.
#[derive(Clone, Copy, Debug, PartialEq, Eq, Structural)]
pub struct LeasedConnector {
    pub connector: u32,
    pub crtc: u32,
    pub primary: u32,
    pub cursor: Option<u32>,
}

/// A DRM device.
#[derive(Debug)]
pub struct Device {
    pub node: u64,
    pub render_node: u64,
    /// The surfaces, at most one for a CRTC.
    pub surfaces: Vec<Surface>,
    /// The connectors, each with its CRTC, that are not part of the desktop.
    pub non_desktop_connectors: Vec<(u32, u32)>,
    /// Whether connectors of this device can be leased.
    pub leasing: bool,
    /// The leases that were given out.
    pub active_leases: Vec<u32>,
    /// The connectors, each with its CRTC, that the device already encountered.
    pub known_crtcs: Vec<(u32, u32)>,
    /// The registration of the device in the event loop.
    pub registration_token: u64,
}

/// What the removal of a whole device leaves to do.
#[derive(Debug)]
pub struct DeviceRemoval {
    pub connectors: Vec<RemovedConnector>,
    /// Whether the global that offers leases is disabled.
    pub disable_leasing: bool,
    /// The node to take from the set of renderers.
    pub render_node: u64,
    /// The event source to remove.
    pub registration_token: u64,
}

/// The tables that connecting and disconnecting change.
pub ghost struct Tables {
    pub non_desktop: Seq<(u32, u32)>,
    pub surfaces: Seq<Surface>,
}

/// Whether an entry of a connector table belongs to `connector`.
pub open spec fn on_connector(connector: u32) -> spec_fn((u32, u32)) -> bool {
    |entry: (u32, u32)| entry.0 == connector
}

/// Whether a surface is driven by `crtc`.
pub open spec fn on_crtc(crtc: u32) -> spec_fn(Surface) -> bool {
    |surface: Surface| surface.crtc == crtc
}

/// Whether a surface shows `output`.
pub open spec fn shows(output: u64) -> spec_fn(Surface) -> bool {
    |surface: Surface| surface.output == output
}

impl Tables {
    /// The tables once a connector is gone: its lease entry where it has one, else its surface.
    pub open spec fn without(self, pair: (u32, u32)) -> Tables {
        match first_index(self.non_desktop, on_connector(pair.0)) {
            Some(i) => Tables { non_desktop: self.non_desktop.remove(i), ..self },
            None => match first_index(self.surfaces, on_crtc(pair.1)) {
                Some(i) => Tables { surfaces: self.surfaces.remove(i), ..self },
                None => self,
            },
        }
    }

    /// What there is to do for a connector that is gone.
    pub open spec fn removal(self, leasing: bool, pair: (u32, u32)) -> RemovedConnector {
        match first_index(self.non_desktop, on_connector(pair.0)) {
            Some(_) => RemovedConnector::NonDesktop { withdraw: leasing },
            None => match first_index(self.surfaces, on_crtc(pair.1)) {
                Some(i) => RemovedConnector::Surface(self.surfaces[i]),
                None => RemovedConnector::Missing,
            },
        }
    }

    /// The tables once several connectors are gone, one after the other.
    pub open spec fn without_all(self, pairs: Seq<(u32, u32)>) -> Tables
        decreases pairs.len(),
    {
        if pairs.len() == 0 {
            self
        } else {
            self.without_all(pairs.drop_last()).without(pairs.last())
        }
    }

    /// What there is to do for several connectors that are gone, in order.
    pub open spec fn removals(self, leasing: bool, pairs: Seq<(u32, u32)>) -> Seq<RemovedConnector>
        decreases pairs.len(),
    {
        if pairs.len() == 0 {
            Seq::empty()
        } else {
            self.removals(leasing, pairs.drop_last()).push(
                self.without_all(pairs.drop_last()).removal(leasing, pairs.last()),
            )
        }
    }
}

/// No CRTC drives two surfaces.
pub open spec fn unique_crtcs(surfaces: Seq<Surface>) -> bool {
    forall|i: int, j: int|
        0 <= i < j < surfaces.len() ==> (#[trigger] surfaces[i]).crtc != (
        #[trigger] surfaces[j]).crtc
}

/// The connector and CRTC that an event connects.
pub open spec fn connected_pair() -> spec_fn(DrmScanEvent) -> Option<(u32, u32)> {
    |event: DrmScanEvent|
        match event {
            DrmScanEvent::Connected { connector, crtc: Some(crtc) } => Some((connector, crtc)),
            _ => None,
        }
}

/// The connector and CRTC that an event disconnects.
pub open spec fn disconnected_pair() -> spec_fn(DrmScanEvent) -> Option<(u32, u32)> {
    |event: DrmScanEvent|
        match event {
            DrmScanEvent::Disconnected { connector, crtc: Some(crtc) } => Some((connector, crtc)),
            _ => None,
        }
}

/// The lease that a request asks for, if every connector can be leased.
pub open spec fn spec_lease(
    non_desktop: Seq<(u32, u32)>,
    connectors: Seq<u32>,
    claimed: Seq<ClaimedPlanes>,
) -> Option<Seq<LeasedConnector>>
    decreases connectors.len(),
{
    if connectors.len() == 0 {
        Some(Seq::empty())
    } else {
        let rest = spec_lease(non_desktop, connectors.drop_last(), claimed);
        let last = connectors.len() - 1;
        match (rest, first_index(non_desktop, on_connector(connectors[last])), claimed[last]) {
            (Some(rest), Some(i), ClaimedPlanes::Planes { primary, cursor }) => Some(
                rest.push(
                    LeasedConnector {
                        connector: connectors[last],
                        crtc: non_desktop[i].1,
                        primary,
                        cursor,
                    },
                ),
            ),
            _ => None,
        }
    }
}

/// Whether a lease is not the one with the given number.
pub open spec fn other_lease(id: u32) -> spec_fn(u32) -> bool {
    |lease: u32| lease != id
}

impl Device {
    /// The tables of the device.
    pub open spec fn tables(&self) -> Tables {
        Tables { non_desktop: self.non_desktop_connectors@, surfaces: self.surfaces@ }
    }

    /// No CRTC drives two surfaces, and no connector is known twice.
    pub open spec fn wf(&self) -> bool {
        unique_crtcs(self.surfaces@) && self.known_crtcs@.no_duplicates()
    }

    /// Nothing but the tables and the known connectors differs from `other`.
    pub open spec fn same_but_tables(&self, other: &Device) -> bool {
        &&& self.node == other.node
        &&& self.render_node == other.render_node
        &&& self.leasing == other.leasing
        &&& self.active_leases@ == other.active_leases@
        &&& self.registration_token == other.registration_token
    }

    /// A device that drives nothing yet.
    pub fn new(node: u64, leasing: bool, render_node: u64, registration_token: u64) -> (device:
        Device)
        ensures
            device.wf(),
            device.node == node,
            device.render_node == render_node,
            device.leasing == leasing,
            device.registration_token == registration_token,
            device.surfaces@.len() == 0,
            device.non_desktop_connectors@.len() == 0,
            device.active_leases@.len() == 0,
            device.known_crtcs@.len() == 0,
    {
        Device {
            node,
            render_node,
            surfaces: Vec::new(),
            non_desktop_connectors: Vec::new(),
            leasing,
            active_leases: Vec::new(),
            known_crtcs: Vec::new(),
            registration_token,
        }
    }

    /// Where the surface of `crtc` stands in the table.
    pub fn surface_index(&self, crtc: u32) -> (r: Option<usize>)
        ensures
            r matches Some(i) ==> first_index(self.surfaces@, on_crtc(crtc)) == Some(i as int) && i
                < self.surfaces@.len() && self.surfaces@[i as int].crtc == crtc,
            r is None <==> first_index(self.surfaces@, on_crtc(crtc)) is None,
            r is None <==> forall|j: int|
                0 <= j < self.surfaces@.len() ==> (#[trigger] self.surfaces@[j]).crtc != crtc,
    {
        let mut i: usize = 0;
        while i < self.surfaces.len()
            invariant
                0 <= i <= self.surfaces.len(),
                forall|j: int| 0 <= j < i ==> (#[trigger] self.surfaces@[j]).crtc != crtc,
            decreases self.surfaces.len() - i,
        {
            if self.surfaces[i].crtc == crtc {
                proof {
                    lemma_first_index_is(self.surfaces@, on_crtc(crtc), i as int);
                }
                return Some(i);
            }
            i += 1;
        }
        proof {
            lemma_first_index_none(self.surfaces@, on_crtc(crtc));
        }
        None
    }

    /// Where the surface that shows `output` stands in the table.
    pub fn output_index(&self, output: u64) -> (r: Option<usize>)
        ensures
            r matches Some(i) ==> first_index(self.surfaces@, shows(output)) == Some(i as int) && i
                < self.surfaces@.len() && self.surfaces@[i as int].output == output,
            r is None <==> first_index(self.surfaces@, shows(output)) is None,
    {
        let mut i: usize = 0;
        while i < self.surfaces.len()
            invariant
                0 <= i <= self.surfaces.len(),
                forall|j: int| 0 <= j < i ==> (#[trigger] self.surfaces@[j]).output != output,
            decreases self.surfaces.len() - i,
        {
            if self.surfaces[i].output == output {
                proof {
                    lemma_first_index_is(self.surfaces@, shows(output), i as int);
                }
                return Some(i);
            }
            i += 1;
        }
        proof {
            lemma_first_index_none(self.surfaces@, shows(output));
        }
        None
    }

    /// Where `connector` stands in the table of connectors outside the desktop.
    pub fn non_desktop_index(&self, connector: u32) -> (r: Option<usize>)
        ensures
            r matches Some(i) ==> first_index(
                self.non_desktop_connectors@,
                on_connector(connector),
            ) == Some(i as int) && i < self.non_desktop_connectors@.len()
                && self.non_desktop_connectors@[i as int].0 == connector,
            r is None <==> first_index(self.non_desktop_connectors@, on_connector(connector)) is
                None,
    {
        let mut i: usize = 0;
        while i < self.non_desktop_connectors.len()
            invariant
                0 <= i <= self.non_desktop_connectors.len(),
                forall|j: int|
                    0 <= j < i ==> (#[trigger] self.non_desktop_connectors@[j]).0 != connector,
            decreases self.non_desktop_connectors.len() - i,
        {
            if self.non_desktop_connectors[i].0 == connector {
                proof {
                    lemma_first_index_is(
                        self.non_desktop_connectors@,
                        on_connector(connector),
                        i as int,
                    );
                }
                return Some(i);
            }
            i += 1;
        }
        proof {
            lemma_first_index_none(self.non_desktop_connectors@, on_connector(connector));
        }
        None
    }

    /// Put a surface into the table, in place of the one that its CRTC drove before.
    pub fn insert_surface(&mut self, surface: Surface)
        requires
            old(self).wf(),
        ensures
            final(self).wf(),
            final(self).same_but_tables(&*old(self)),
            final(self).known_crtcs == old(self).known_crtcs,
            final(self).non_desktop_connectors == old(self).non_desktop_connectors,
            final(self).surfaces@ == match first_index(
                old(self).surfaces@,
                on_crtc(surface.crtc),
            ) {
                Some(i) => old(self).surfaces@.update(i, surface),
                None => old(self).surfaces@.push(surface),
            },
    {
        match self.surface_index(surface.crtc) {
            Some(i) => {
                self.surfaces[i] = surface;
            },
            None => {
                self.surfaces.push(surface);
            },
        }
        proof {
            let before = old(self).surfaces@;
            let after = self.surfaces@;
            assert forall|i: int, j: int| 0 <= i < j < after.len() implies (
            #[trigger] after[i]).crtc != (#[trigger] after[j]).crtc by {
                if j < before.len() {
                    assert(before[i].crtc != before[j].crtc);
                }
            }
        }
    }

    /// Drop a connector that was disconnected or disabled.
    ///
    /// A connector outside the desktop is no longer offered for leasing. Any other one loses its
    /// surface.
    pub fn remove_connector(&mut self, crtc: u32, connector: u32) -> (removed: RemovedConnector)
        requires
            old(self).wf(),
        ensures
            final(self).wf(),
            final(self).same_but_tables(&*old(self)),
            final(self).known_crtcs == old(self).known_crtcs,
            final(self).tables() == old(self).tables().without((connector, crtc)),
            removed == old(self).tables().removal(old(self).leasing, (connector, crtc)),
    {
        if let Some(i) = self.non_desktop_index(connector) {
            self.non_desktop_connectors.remove(i);
            return RemovedConnector::NonDesktop { withdraw: self.leasing };
        }
        match self.surface_index(crtc) {
            Some(i) => {
                let surface = self.surfaces.remove(i);
                RemovedConnector::Surface(surface)
            },
            None => RemovedConnector::Missing,
        }
    }

    /// Forget a known connector. Returns whether it was known.
    fn forget_crtc(&mut self, pair: (u32, u32)) -> (known: bool)
        requires
            old(self).wf(),
        ensures
            final(self).wf(),
            final(self).same_but_tables(&*old(self)),
            final(self).tables() == old(self).tables(),
            known == old(self).known_crtcs@.contains(pair),
            final(self).known_crtcs@.to_set() =~= old(self).known_crtcs@.to_set().remove(pair),
    {
        let mut i: usize = 0;
        while i < self.known_crtcs.len()
            invariant
                0 <= i <= self.known_crtcs.len(),
                *self == *old(self),
                self.wf(),
                forall|j: int| 0 <= j < i ==> self.known_crtcs@[j] != pair,
            decreases self.known_crtcs.len() - i,
        {
            if self.known_crtcs[i].0 == pair.0 && self.known_crtcs[i].1 == pair.1 {
                let ghost before = self.known_crtcs@;
                self.known_crtcs.remove(i);
                proof {
                    let after = self.known_crtcs@;
                    assert forall|x: (u32, u32)| after.contains(x) <==> before.contains(x) && x
                        != pair by {
                        if after.contains(x) {
                            let k = choose|k: int| 0 <= k < after.len() && after[k] == x;
                            if k < i {
                                assert(before[k] == x);
                            } else {
                                assert(before[k + 1] == x);
                            }
                        }
                        if before.contains(x) && x != pair {
                            let k = choose|k: int| 0 <= k < before.len() && before[k] == x;
                            if k < i {
                                assert(after[k] == x);
                            } else {
                                assert(after[k - 1] == x);
                            }
                        }
                    }
                }
                return true;
            }
            i += 1;
        }
        false
    }

    /// Remember a connector. Returns whether it was not known before.
    fn learn_crtc(&mut self, pair: (u32, u32)) -> (new: bool)
        requires
            old(self).wf(),
        ensures
            final(self).wf(),
            final(self).same_but_tables(&*old(self)),
            final(self).tables() == old(self).tables(),
            new == !old(self).known_crtcs@.contains(pair),
            final(self).known_crtcs@.to_set() =~= old(self).known_crtcs@.to_set().insert(pair),
    {
        let mut i: usize = 0;
        while i < self.known_crtcs.len()
            invariant
                0 <= i <= self.known_crtcs.len(),
                *self == *old(self),
                self.wf(),
                forall|j: int| 0 <= j < i ==> self.known_crtcs@[j] != pair,
            decreases self.known_crtcs.len() - i,
        {
            if self.known_crtcs[i].0 == pair.0 && self.known_crtcs[i].1 == pair.1 {
                assert(self.known_crtcs@.to_set() =~= self.known_crtcs@.to_set().insert(pair));
                return false;
            }
            i += 1;
        }
        let ghost before = self.known_crtcs@;
        self.known_crtcs.push(pair);
        proof {
            let after = self.known_crtcs@;
            assert forall|x: (u32, u32)| after.contains(x) <==> before.contains(x) || x == pair by {
                if before.contains(x) {
                    let k = choose|k: int| 0 <= k < before.len() && before[k] == x;
                    assert(after[k] == x);
                }
                assert(after[before.len() as int] == pair);
            }
        }
        true
    }

    /// Take in what a scan of the connectors found out.
    ///
    /// Events without a CRTC are passed over. Connectors that went away are removed first, then
    /// new ones are remembered. New ones get their surface with [`Device::insert_surface`] when
    /// they are set up.
    pub fn scan_connectors(&mut self, events: &[DrmScanEvent]) -> (removed: Vec<RemovedConnector>)
        requires
            old(self).wf(),
        ensures
            final(self).wf(),
            final(self).same_but_tables(&*old(self)),
            final(self).tables() == old(self).tables().without_all(
                events@.filter_map(disconnected_pair()),
            ),
            removed@ == old(self).tables().removals(
                old(self).leasing,
                events@.filter_map(disconnected_pair()),
            ),
            final(self).known_crtcs@.to_set() == old(self).known_crtcs@.to_set().difference(
                events@.filter_map(disconnected_pair()).to_set(),
            ).union(events@.filter_map(connected_pair()).to_set()),
    {
        let mut gone: Vec<(u32, u32)> = Vec::new();
        let mut added: Vec<(u32, u32)> = Vec::new();
        let mut i: usize = 0;
        assert(events@.take(0).filter_map(disconnected_pair()) =~= Seq::empty());
        assert(events@.take(0).filter_map(connected_pair()) =~= Seq::empty());
        while i < events.len()
            invariant
                0 <= i <= events.len(),
                gone@ == events@.take(i as int).filter_map(disconnected_pair()),
                added@ == events@.take(i as int).filter_map(connected_pair()),
            decreases events.len() - i,
        {
            proof {
                events@.lemma_filter_map_take_succ(disconnected_pair(), i as int);
                events@.lemma_filter_map_take_succ(connected_pair(), i as int);
            }
            match events[i] {
                DrmScanEvent::Connected { connector, crtc } => {
                    if let Some(crtc) = crtc {
                        added.push((connector, crtc));
                    }
                },
                DrmScanEvent::Disconnected { connector, crtc } => {
                    if let Some(crtc) = crtc {
                        gone.push((connector, crtc));
                    }
                },
            }
            i += 1;
            assert(gone@ =~= events@.take(i as int).filter_map(disconnected_pair()));
            assert(added@ =~= events@.take(i as int).filter_map(connected_pair()));
        }
        assert(events@.take(events@.len() as int) =~= events@);

        let mut removed: Vec<RemovedConnector> = Vec::new();
        let ghost tables = self.tables();
        let ghost known = self.known_crtcs@.to_set();
        let mut i: usize = 0;
        assert(gone@.take(0) =~= Seq::empty());
        assert(known.difference(gone@.take(0).to_set()) =~= known);
        while i < gone.len()
            invariant
                0 <= i <= gone.len(),
                self.wf(),
                self.same_but_tables(&*old(self)),
                self.tables() == tables.without_all(gone@.take(i as int)),
                removed@ == tables.removals(old(self).leasing, gone@.take(i as int)),
                self.known_crtcs@.to_set() == known.difference(gone@.take(i as int).to_set()),
            decreases gone.len() - i,
        {
            let (connector, crtc) = gone[i];
            let outcome = self.remove_connector(crtc, connector);
            removed.push(outcome);
            self.forget_crtc((connector, crtc));
            proof {
                assert(gone@.take(i + 1).drop_last() =~= gone@.take(i as int));
                assert(gone@.take(i + 1).last() == gone@[i as int]);
                lemma_take_succ_set(gone@, i as int);
                assert(self.known_crtcs@.to_set() =~= known.difference(gone@.take(i + 1).to_set()));
            }
            i += 1;
        }
        assert(gone@.take(gone@.len() as int) =~= gone@);

        let ghost rest = self.known_crtcs@.to_set();
        let mut i: usize = 0;
        assert(rest.union(added@.take(0).to_set()) =~= rest);
        while i < added.len()
            invariant
                0 <= i <= added.len(),
                self.wf(),
                self.same_but_tables(&*old(self)),
                self.tables() == tables.without_all(gone@),
                self.known_crtcs@.to_set() == rest.union(added@.take(i as int).to_set()),
            decreases added.len() - i,
        {
            self.learn_crtc(added[i]);
            proof {
                lemma_take_succ_set(added@, i as int);
                assert(self.known_crtcs@.to_set() =~= rest.union(added@.take(i + 1).to_set()));
            }
            i += 1;
        }
        assert(added@.take(added@.len() as int) =~= added@);
        removed
    }

    /// Take down the device: every connector that the scanner gave a CRTC goes away.
    pub fn remove(self, crtcs: &[(u32, u32)]) -> (removal: DeviceRemoval)
        requires
            self.wf(),
        ensures
            removal.connectors@ == self.tables().removals(self.leasing, crtcs@),
            removal.disable_leasing == self.leasing,
            removal.render_node == self.render_node,
            removal.registration_token == self.registration_token,
    {
        let ghost start = self;
        let mut device = self;
        let mut removed: Vec<RemovedConnector> = Vec::new();
        let mut i: usize = 0;
        assert(crtcs@.take(0) =~= Seq::empty());
        while i < crtcs.len()
            invariant
                0 <= i <= crtcs.len(),
                device.wf(),
                device.same_but_tables(&start),
                device.tables() == start.tables().without_all(crtcs@.take(i as int)),
                removed@ == start.tables().removals(start.leasing, crtcs@.take(i as int)),
            decreases crtcs.len() - i,
        {
            let (connector, crtc) = crtcs[i];
            let outcome = device.remove_connector(crtc, connector);
            removed.push(outcome);
            proof {
                assert(crtcs@.take(i + 1).drop_last() =~= crtcs@.take(i as int));
                assert(crtcs@.take(i + 1).last() == crtcs@[i as int]);
            }
            i += 1;
        }
        assert(crtcs@.take(crtcs@.len() as int) =~= crtcs@);
        DeviceRemoval {
            connectors: removed,
            disable_leasing: device.leasing,
            render_node: device.render_node,
            registration_token: device.registration_token,
        }
    }

    /// The device differs from `before` only in that no lease is left.
    pub open spec fn is_paused(&self, before: &Device) -> bool {
        &&& self.tables() == before.tables()
        &&& self.known_crtcs == before.known_crtcs
        &&& self.node == before.node
        &&& self.render_node == before.render_node
        &&& self.leasing == before.leasing
        &&& self.registration_token == before.registration_token
        &&& self.active_leases@.len() == 0
    }

    /// Pause the device: all leases end. Returns whether leasing has to be suspended.
    pub fn pause(&mut self) -> (suspend: bool)
        requires
            old(self).wf(),
        ensures
            final(self).wf(),
            final(self).is_paused(&*old(self)),
            suspend == old(self).leasing,
    {
        self.active_leases.clear();
        self.leasing
    }

    /// Whether leases can be handed out.
    pub fn lease_state(&self) -> (leasing: bool)
        ensures
            leasing == self.leasing,
    {
        self.leasing
    }

    /// Handle a lease request.
    ///
    /// `claimed` tells for each connector which planes could be claimed for it. The lease is
    /// granted exactly when every connector is outside the desktop and has a primary plane.
    pub fn lease_request(&self, connectors: &[u32], claimed: &[ClaimedPlanes]) -> (r: Result<
        Vec<LeasedConnector>,
        LeaseRejected,
    >)
        requires
            connectors@.len() == claimed@.len(),
        ensures
            match spec_lease(self.non_desktop_connectors@, connectors@, claimed@) {
                Some(lease) => r matches Ok(v) && v@ == lease,
                None => r == Err::<Vec<LeasedConnector>, LeaseRejected>(LeaseRejected),
            },
    {
        let mut lease: Vec<LeasedConnector> = Vec::new();
        let mut i: usize = 0;
        assert(connectors@.take(0) =~= Seq::empty());
        while i < connectors.len()
            invariant
                0 <= i <= connectors.len(),
                connectors@.len() == claimed@.len(),
                spec_lease(self.non_desktop_connectors@, connectors@.take(i as int), claimed@)
                    == Some(lease@),
            decreases connectors.len() - i,
        {
            let connector: u32 = connectors[i];
            let index = self.non_desktop_index(connector);
            let ghost step = connectors@.take(i + 1);
            proof {
                assert(step.drop_last() =~= connectors@.take(i as int));
                assert(step[i as int] == connector);
            }
            let granted = match (index, claimed[i]) {
                (Some(k), ClaimedPlanes::Planes { primary, cursor }) => {
                    lease.push(
                        LeasedConnector {
                            connector,
                            crtc: self.non_desktop_connectors[k].1,
                            primary,
                            cursor,
                        },
                    );
                    true
                },
                _ => false,
            };
            if !granted {
                proof {
                    assert(spec_lease(self.non_desktop_connectors@, step, claimed@) is None);
                    lemma_lease_prefix(
                        self.non_desktop_connectors@,
                        connectors@,
                        claimed@,
                        i as int + 1,
                    );
                }
                return Err(LeaseRejected);
            }
            i += 1;
        }
        assert(connectors@.take(connectors@.len() as int) =~= connectors@);
        Ok(lease)
    }

    /// Note a lease that was given out.
    pub fn add_active_lease(&mut self, lease: u32)
        ensures
            *final(self) == (Device { active_leases: final(self).active_leases, ..*old(self) }),
            final(self).active_leases@ == old(self).active_leases@.push(lease),
    {
        self.active_leases.push(lease);
    }

    /// Drop the lease with the given number.
    pub fn remove_lease(&mut self, lease_id: u32)
        ensures
            *final(self) == (Device { active_leases: final(self).active_leases, ..*old(self) }),
            final(self).active_leases@ == old(self).active_leases@.filter(other_lease(lease_id)),
    {
        let mut kept: Vec<u32> = Vec::new();
        let ghost leases = self.active_leases@;
        let mut i: usize = 0;
        assert(leases.take(0).filter(other_lease(lease_id)) =~= Seq::empty()) by {
            reveal(Seq::filter);
        }
        while i < self.active_leases.len()
            invariant
                0 <= i <= self.active_leases.len(),
                *self == *old(self),
                leases == self.active_leases@,
                kept@ == leases.take(i as int).filter(other_lease(lease_id)),
            decreases self.active_leases.len() - i,
        {
            proof {
                crate::seqs::lemma_filter_take_succ(leases, other_lease(lease_id), i as int);
            }
            if self.active_leases[i] != lease_id {
                kept.push(self.active_leases[i]);
            }
            i += 1;
        }
        assert(leases.take(leases.len() as int) =~= leases);
        self.active_leases = kept;
    }
}

proof fn lemma_take_succ_set(s: Seq<(u32, u32)>, i: int)
    requires
        0 <= i < s.len(),
    ensures
        s.take(i + 1).to_set() =~= s.take(i).to_set().insert(s[i]),
{
    let short = s.take(i);
    let long = s.take(i + 1);
    assert forall|x: (u32, u32)| long.contains(x) <==> short.contains(x) || x == s[i] by {
        if long.contains(x) {
            let k = choose|k: int| 0 <= k < long.len() && long[k] == x;
            if k < i {
                assert(short[k] == x);
            }
        }
        if short.contains(x) {
            let k = choose|k: int| 0 <= k < short.len() && short[k] == x;
            assert(long[k] == x);
        }
        assert(long[i] == s[i]);
    }
}

proof fn lemma_lease_prefix(
    non_desktop: Seq<(u32, u32)>,
    connectors: Seq<u32>,
    claimed: Seq<ClaimedPlanes>,
    n: int,
)
    requires
        0 <= n <= connectors.len(),
        spec_lease(non_desktop, connectors.take(n), claimed) is None,
    ensures
        spec_lease(non_desktop, connectors, claimed) is None,
    decreases connectors.len() - n,
{
    if n < connectors.len() {
        assert(connectors.take(n + 1).drop_last() =~= connectors.take(n));
        lemma_lease_prefix(non_desktop, connectors, claimed, n + 1);
    } else {
        assert(connectors.take(n) =~= connectors);
    }
}

/// A connector of the desktop is never leased: a granted lease only holds connectors that are
/// listed as being outside the desktop, each with the CRTC listed for it.
pub proof fn only_non_desktop_connectors_are_leased(
    non_desktop: Seq<(u32, u32)>,
    connectors: Seq<u32>,
    claimed: Seq<ClaimedPlanes>,
)
    requires
        spec_lease(non_desktop, connectors, claimed) is Some,
    ensures
        spec_lease(non_desktop, connectors, claimed)->0.len() == connectors.len(),
        forall|k: int|
            0 <= k < connectors.len() ==> {
                let leased = #[trigger] spec_lease(non_desktop, connectors, claimed)->0[k];
                leased.connector == connectors[k] && non_desktop.contains(
                    (leased.connector, leased.crtc),
                )
            },
    decreases connectors.len(),
{
    if connectors.len() > 0 {
        let rest = connectors.drop_last();
        only_non_desktop_connectors_are_leased(non_desktop, rest, claimed);
        let last = connectors.len() - 1;
        lemma_first_index(non_desktop, on_connector(connectors[last]));
        let i = first_index(non_desktop, on_connector(connectors[last]))->0;
        let full = spec_lease(non_desktop, connectors, claimed)->0;
        let part = spec_lease(non_desktop, rest, claimed)->0;
        assert(full[last].connector == connectors[last]);
        assert(non_desktop[i] == (full[last].connector, full[last].crtc));
        assert forall|k: int| 0 <= k < connectors.len() implies {
            let leased = #[trigger] full[k];
            leased.connector == connectors[k] && non_desktop.contains(
                (leased.connector, leased.crtc),
            )
        } by {
            if k < last {
                assert(full[k] == part[k]);
                assert(rest[k] == connectors[k]);
            }
        }
    }
}

/// A surface that is set up for a free CRTC and removed again leaves the tables as they were.
pub proof fn removing_undoes_inserting(tables: Tables, surface: Surface)
    requires
        first_index(tables.surfaces, on_crtc(surface.crtc)) is None,
        first_index(tables.non_desktop, on_connector(surface.connector)) is None,
    ensures
        ({
            let with = Tables { surfaces: tables.surfaces.push(surface), ..tables };
            &&& with.without((surface.connector, surface.crtc)) == tables
            &&& with.removal(true, (surface.connector, surface.crtc)) == RemovedConnector::Surface(
                surface,
            )
        }),
{
    let with = Tables { surfaces: tables.surfaces.push(surface), ..tables };
    lemma_first_index(tables.surfaces, on_crtc(surface.crtc));
    assert(is_last_first(with.surfaces, surface));
    lemma_first_index_is(with.surfaces, on_crtc(surface.crtc), tables.surfaces.len() as int);
    assert(with.surfaces.remove(tables.surfaces.len() as int) =~= tables.surfaces);
}

spec fn is_last_first(surfaces: Seq<Surface>, surface: Surface) -> bool {
    forall|j: int| 0 <= j < surfaces.len() - 1 ==> !on_crtc(surface.crtc)(#[trigger] surfaces[j])
}

/// A connector that is offered for leasing and removed again leaves the tables as they were.
pub proof fn removing_undoes_offering(tables: Tables, connector: u32, crtc: u32)
    requires
        first_index(tables.non_desktop, on_connector(connector)) is None,
    ensures
        ({
            let with = Tables { non_desktop: tables.non_desktop.push((connector, crtc)), ..tables };
            with.without((connector, crtc)) == tables
        }),
{
    let with = Tables { non_desktop: tables.non_desktop.push((connector, crtc)), ..tables };
    let n = tables.non_desktop.len() as int;
    lemma_first_index(tables.non_desktop, on_connector(connector));
    assert forall|j: int| 0 <= j < n implies !on_connector(connector)(
        #[trigger] with.non_desktop[j],
    ) by {
        assert(with.non_desktop[j] == tables.non_desktop[j]);
    }
    assert(with.non_desktop[n] == (connector, crtc));
    lemma_first_index_is(with.non_desktop, on_connector(connector), n);
    assert(with.non_desktop.remove(n) =~= tables.non_desktop);
}

/// Once a connector is removed, its CRTC drives no surface, unless the connector was only up for
/// leasing.
pub proof fn removed_crtc_is_free(tables: Tables, connector: u32, crtc: u32)
    requires
        unique_crtcs(tables.surfaces),
        first_index(tables.non_desktop, on_connector(connector)) is None,
    ensures
        first_index(tables.without((connector, crtc)).surfaces, on_crtc(crtc)) is None,
{
    let after = tables.without((connector, crtc));
    lemma_first_index(tables.surfaces, on_crtc(crtc));
    lemma_first_index(after.surfaces, on_crtc(crtc));
    if let Some(k) = first_index(after.surfaces, on_crtc(crtc)) {
        let i = first_index(tables.surfaces, on_crtc(crtc))->0;
        if k < i {
            assert(tables.surfaces[k] == after.surfaces[k]);
        } else {
            assert(tables.surfaces[k + 1] == after.surfaces[k]);
        }
    }
}

/// A connector that goes away takes its place in the table for leases with it, if it has one; else
/// the surface of its CRTC goes, if there is one. Only that one entry goes.
pub proof fn removed_connectors_lose_their_place(
    device: &mut Device,
    crtc: u32,
    connector: u32,
    removed: RemovedConnector,
    i: int,
)
    requires
        old(device).wf(),
        call_ensures(Device::remove_connector, (device, crtc, connector), removed),
    ensures
        0 <= i < old(device).non_desktop_connectors@.len() && old(
            device,
        ).non_desktop_connectors@[i].0 == connector && (forall|j: int|
            0 <= j < i ==> (#[trigger] old(device).non_desktop_connectors@[j]).0 != connector)
            ==> removed == (RemovedConnector::NonDesktop { withdraw: old(device).leasing })
            && final(device).non_desktop_connectors@ == old(device).non_desktop_connectors@.remove(
            i,
        ) && final(device).surfaces@ == old(device).surfaces@,
        (forall|j: int|
            0 <= j < old(device).non_desktop_connectors@.len() ==> (#[trigger] old(
                device,
            ).non_desktop_connectors@[j]).0 != connector) && 0 <= i < old(device).surfaces@.len()
            && old(device).surfaces@[i].crtc == crtc ==> removed == RemovedConnector::Surface(
            old(device).surfaces@[i],
        ) && final(device).surfaces@ == old(device).surfaces@.remove(i) && final(
            device
        ).non_desktop_connectors@ == old(device).non_desktop_connectors@,
        (forall|j: int|
            0 <= j < old(device).non_desktop_connectors@.len() ==> (#[trigger] old(
                device,
            ).non_desktop_connectors@[j]).0 != connector) && (forall|j: int|
            0 <= j < old(device).surfaces@.len() ==> (#[trigger] old(device).surfaces@[j]).crtc
                != crtc) ==> removed is Missing && final(device).surfaces@ == old(
            device,
        ).surfaces@ && final(device).non_desktop_connectors@ == old(
            device,
        ).non_desktop_connectors@,
        final(device).known_crtcs == old(device).known_crtcs,
        final(device).active_leases@ == old(device).active_leases@,
{
    let c = old(device).non_desktop_connectors@;
    let s = old(device).surfaces@;
    let p = on_connector(connector);
    let q = on_crtc(crtc);
    assert(call_requires(Device::remove_connector, (device, crtc, connector)));
    assert(final(device).tables().surfaces == final(device).surfaces@);
    assert(final(device).tables().non_desktop == final(device).non_desktop_connectors@);
    lemma_first_index(c, p);
    lemma_first_index(s, q);
    if first_index(c, p) is Some {
        assert(p(c[first_index(c, p)->0]));
    }
    if first_index(s, q) is Some {
        assert(q(s[first_index(s, q)->0]));
    }
    if 0 <= i < c.len() && c[i].0 == connector && (forall|j: int|
        0 <= j < i ==> (#[trigger] c[j]).0 != connector) {
        assert forall|j: int| 0 <= j < i implies !p(#[trigger] c[j]) by {}
        lemma_first_index_is(c, p, i);
    }
    if 0 <= i < s.len() && s[i].crtc == crtc {
        assert forall|j: int| 0 <= j < i implies !q(#[trigger] s[j]) by {
            assert(s[j].crtc != s[i].crtc);
        }
        lemma_first_index_is(s, q, i);
    }
}

/// A surface is found by its CRTC, and an output by its surface.
pub proof fn surfaces_are_found_by_crtc(
    device: &Device,
    crtc: u32,
    found: Option<usize>,
    output: u64,
    shown: Option<usize>,
    i: int,
)
    requires
        device.wf(),
        call_ensures(Device::surface_index, (device, crtc), found),
        call_ensures(Device::output_index, (device, output), shown),
        0 <= i < device.surfaces@.len(),
    ensures
        device.surfaces@[i].crtc == crtc ==> found == Some(i as usize) && i == i as usize,
        found matches Some(k) ==> k < device.surfaces@.len() && device.surfaces@[k as int].crtc
            == crtc,
        device.surfaces@[i].output == output ==> shown is Some && shown->0 <= i,
        shown matches Some(k) ==> k < device.surfaces@.len() && device.surfaces@[k as int].output
            == output,
{
    let q = on_crtc(crtc);
    let p = shows(output);
    lemma_first_index(device.surfaces@, p);
    assert(p(device.surfaces@[i]) == (device.surfaces@[i].output == output));
    if device.surfaces@[i].crtc == crtc {
        assert forall|j: int| 0 <= j < i implies !q(#[trigger] device.surfaces@[j]) by {
            assert(device.surfaces@[j].crtc != device.surfaces@[i].crtc);
        }
        lemma_first_index_is(device.surfaces@, q, i);
    }
}

/// A new surface takes the place of the one of its CRTC, or comes after the others.
pub proof fn new_surfaces_take_their_crtc(device: &mut Device, surface: Surface, i: int)
    requires
        old(device).wf(),
        call_ensures(Device::insert_surface, (device, surface), ()),
        0 <= i < old(device).surfaces@.len(),
    ensures
        final(device).surfaces@.contains(surface),
        old(device).surfaces@[i].crtc != surface.crtc ==> final(device).surfaces@[i] == old(
            device,
        ).surfaces@[i],
        old(device).surfaces@[i].crtc == surface.crtc ==> final(device).surfaces@[i] == surface
            && final(device).surfaces@.len() == old(device).surfaces@.len(),
        final(device).non_desktop_connectors@ == old(device).non_desktop_connectors@,
{
    assert(call_requires(Device::insert_surface, (device, surface)));
    let s = old(device).surfaces@;
    let q = on_crtc(surface.crtc);
    lemma_first_index(s, q);
    if s[i].crtc == surface.crtc {
        assert forall|j: int| 0 <= j < i implies !q(#[trigger] s[j]) by {
            assert(s[j].crtc != s[i].crtc);
        }
        lemma_first_index_is(s, q, i);
    }
    match first_index(s, q) {
        Some(k) => {
            assert(q(s[k]));
            assert(final(device).surfaces@[k] == surface);
        },
        None => {
            assert(final(device).surfaces@[s.len() as int] == surface);
        },
    }
}

pub(crate) proof fn lemma_pairs_of_events(events: Seq<DrmScanEvent>, pair: (u32, u32))
    ensures
        events.filter_map(connected_pair()).contains(pair) <==> events.contains(
            DrmScanEvent::Connected { connector: pair.0, crtc: Some(pair.1) },
        ),
        events.filter_map(disconnected_pair()).contains(pair) <==> events.contains(
            DrmScanEvent::Disconnected { connector: pair.0, crtc: Some(pair.1) },
        ),
    decreases events.len(),
{
    let plugged = DrmScanEvent::Connected { connector: pair.0, crtc: Some(pair.1) };
    let unplugged = DrmScanEvent::Disconnected { connector: pair.0, crtc: Some(pair.1) };
    if events.len() > 0 {
        let front = events.drop_last();
        let last = events.last();
        lemma_pairs_of_events(front, pair);
        assert(events =~= front.push(last));
        assert(events.contains(plugged) <==> front.contains(plugged) || last == plugged) by {
            if front.contains(plugged) {
                let k = choose|k: int| 0 <= k < front.len() && front[k] == plugged;
                assert(events[k] == plugged);
            }
            assert(events[events.len() - 1] == last);
            if events.contains(plugged) && last != plugged {
                let k = choose|k: int| 0 <= k < events.len() && events[k] == plugged;
                assert(front[k] == plugged);
            }
        }
        assert(events.contains(unplugged) <==> front.contains(unplugged) || last == unplugged) by {
            if front.contains(unplugged) {
                let k = choose|k: int| 0 <= k < front.len() && front[k] == unplugged;
                assert(events[k] == unplugged);
            }
            assert(events[events.len() - 1] == last);
            if events.contains(unplugged) && last != unplugged {
                let k = choose|k: int| 0 <= k < events.len() && events[k] == unplugged;
                assert(front[k] == unplugged);
            }
        }
        lemma_filter_map_contains(events, connected_pair(), pair);
        lemma_filter_map_contains(events, disconnected_pair(), pair);
    }
}

proof fn lemma_filter_map_contains(
    events: Seq<DrmScanEvent>,
    f: spec_fn(DrmScanEvent) -> Option<(u32, u32)>,
    pair: (u32, u32),
)
    requires
        events.len() > 0,
    ensures
        events.filter_map(f).contains(pair) <==> events.drop_last().filter_map(f).contains(pair)
            || f(events.last()) == Some(pair),
{
    let front = events.drop_last().filter_map(f);
    let all = events.filter_map(f);
    match f(events.last()) {
        Some(x) => {
            assert(all =~= front.push(x));
            assert(all[front.len() as int] == x);
            if front.contains(pair) {
                let k = choose|k: int| 0 <= k < front.len() && front[k] == pair;
                assert(all[k] == pair);
            }
            if all.contains(pair) && x != pair {
                let k = choose|k: int| 0 <= k < all.len() && all[k] == pair;
                assert(front[k] == pair);
            }
        },
        None => {
            assert(all =~= front);
        },
    }
}

/// After a scan, a connector with its CRTC is known exactly if the scan found it, or it was known
/// before and did not go away. For every connector that went away something is told, in order.
pub proof fn scans_update_the_known_connectors(
    device: &mut Device,
    events: &[DrmScanEvent],
    removed: Vec<RemovedConnector>,
    pair: (u32, u32),
)
    requires
        old(device).wf(),
        call_ensures(Device::scan_connectors, (device, events), removed),
    ensures
        final(device).known_crtcs@.contains(pair) <==> {
            ||| events@.contains(
                DrmScanEvent::Connected { connector: pair.0, crtc: Some(pair.1) },
            )
            ||| old(device).known_crtcs@.contains(pair) && !events@.contains(
                DrmScanEvent::Disconnected { connector: pair.0, crtc: Some(pair.1) },
            )
        },
        final(device).leasing == old(device).leasing,
        final(device).active_leases@ == old(device).active_leases@,
{
    assert(call_requires(Device::scan_connectors, (device, events)));
    lemma_pairs_of_events(events@, pair);
    let known = final(device).known_crtcs@.to_set();
    assert(known.contains(pair) == final(device).known_crtcs@.contains(pair));
    assert(old(device).known_crtcs@.to_set().contains(pair) == old(
        device,
    ).known_crtcs@.contains(pair));
}

proof fn lemma_without_keeps(tables: Tables, gone: Seq<(u32, u32)>, surface: Surface)
    requires
        tables.surfaces.contains(surface),
        forall|k: int| 0 <= k < gone.len() ==> (#[trigger] gone[k]).1 != surface.crtc,
    ensures
        tables.without_all(gone).surfaces.contains(surface),
    decreases gone.len(),
{
    if gone.len() > 0 {
        let front = gone.drop_last();
        assert forall|k: int| 0 <= k < front.len() implies (#[trigger] front[k]).1
            != surface.crtc by {
            assert(front[k] == gone[k]);
        }
        lemma_without_keeps(tables, front, surface);
        let t = tables.without_all(front);
        let pair = gone.last();
        assert(gone[gone.len() - 1].1 != surface.crtc);
        let q = on_crtc(pair.1);
        lemma_first_index(t.surfaces, q);
        if first_index(t.non_desktop, on_connector(pair.0)) is None {
            if let Some(i) = first_index(t.surfaces, q) {
                assert(q(t.surfaces[i]));
                let k = choose|k: int| 0 <= k < t.surfaces.len() && t.surfaces[k] == surface;
                let at = if k < i { k } else { k - 1 };
                assert(t.surfaces.remove(i)[at] == surface);
            }
        }
    }
}

/// A scan leaves the surfaces alone whose CRTCs no connector lost.
pub proof fn scans_keep_other_surfaces(
    device: &mut Device,
    events: &[DrmScanEvent],
    removed: Vec<RemovedConnector>,
    surface: Surface,
)
    requires
        old(device).wf(),
        call_ensures(Device::scan_connectors, (device, events), removed),
        old(device).surfaces@.contains(surface),
        forall|connector: u32|
            !events@.contains(
                #[trigger] unplugged(connector, surface.crtc),
            ),
    ensures
        final(device).surfaces@.contains(surface),
{
    assert(call_requires(Device::scan_connectors, (device, events)));
    let gone = events@.filter_map(disconnected_pair());
    assert forall|k: int| 0 <= k < gone.len() implies (#[trigger] gone[k]).1 != surface.crtc by {
        lemma_pairs_of_events(events@, gone[k]);
        assert(gone.contains(gone[k]));
        if gone[k].1 == surface.crtc {
            assert(!events@.contains(unplugged(gone[k].0, surface.crtc)));
        }
    }
    lemma_without_keeps(old(device).tables(), gone, surface);
    assert(final(device).tables().surfaces == final(device).surfaces@);
}

/// The event of a connector that lost its CRTC.
pub open spec fn unplugged(connector: u32, crtc: u32) -> DrmScanEvent {
    DrmScanEvent::Disconnected { connector, crtc: Some(crtc) }
}

/// A connector that alone went away, and is not for leasing, takes the surface of its CRTC with it.
pub proof fn unplugged_connectors_lose_their_surface(
    device: &mut Device,
    events: &[DrmScanEvent],
    removed: Vec<RemovedConnector>,
    connector: u32,
    i: int,
)
    requires
        old(device).wf(),
        call_ensures(Device::scan_connectors, (device, events), removed),
        0 <= i < old(device).surfaces@.len(),
        events@ == seq![unplugged(connector, old(device).surfaces@[i].crtc)],
        forall|j: int|
            0 <= j < old(device).non_desktop_connectors@.len() ==> (#[trigger] old(
                device,
            ).non_desktop_connectors@[j]).0 != connector,
    ensures
        removed@ == seq![RemovedConnector::Surface(old(device).surfaces@[i])],
        final(device).surfaces@ == old(device).surfaces@.remove(i),
{
    assert(call_requires(Device::scan_connectors, (device, events)));
    let crtc = old(device).surfaces@[i].crtc;
    let f = disconnected_pair();
    let gone = events@.filter_map(f);
    reveal_with_fuel(Seq::filter_map, 2);
    assert(events@.drop_last() =~= Seq::empty());
    assert(events@.last() == unplugged(connector, crtc));
    assert(gone =~= seq![(connector, crtc)]);
    assert(gone.drop_last() =~= Seq::empty());
    let tables = old(device).tables();
    reveal_with_fuel(Tables::without_all, 2);
    reveal_with_fuel(Tables::removals, 2);
    let s = old(device).surfaces@;
    let p = on_connector(connector);
    let q = on_crtc(crtc);
    lemma_first_index_none(tables.non_desktop, p);
    assert forall|j: int| 0 <= j < i implies !q(#[trigger] s[j]) by {
        assert(s[j].crtc != s[i].crtc);
    }
    lemma_first_index_is(s, q, i);
    assert(tables.without_all(Seq::empty()) == tables);
    assert(final(device).tables().surfaces == final(device).surfaces@);
    assert(removed@ =~= seq![RemovedConnector::Surface(s[i])]);
}

/// A lease is noted until it ends; no other one is affected.
pub proof fn leases_are_noted_until_they_end(
    begin: &mut Device,
    end: &mut Device,
    lease: u32,
    other: u32,
)
    requires
        call_ensures(Device::add_active_lease, (begin, lease), ()),
        call_ensures(Device::remove_lease, (end, lease), ()),
        other != lease,
    ensures
        final(begin).active_leases@ == old(begin).active_leases@.push(lease),
        !final(end).active_leases@.contains(lease),
        final(end).active_leases@.contains(other) <==> old(end).active_leases@.contains(other),
{
    let all = old(end).active_leases@;
    let p = other_lease(lease);
    let kept = all.filter(p);
    if kept.contains(lease) {
        let i = choose|i: int| 0 <= i < kept.len() && kept[i] == lease;
        all.lemma_filter_pred(p, i);
    }
    if kept.contains(other) {
        all.lemma_filter_contains_rev(p, other);
    }
    if all.contains(other) {
        let i = choose|i: int| 0 <= i < all.len() && all[i] == other;
        all.lemma_filter_contains(p, i);
    }
}

/// A lease request is granted for one connector exactly if the connector is outside of the desktop
/// and a primary plane could be claimed for it; the lease then holds the connector, its CRTC, and
/// the planes.
pub proof fn connectors_are_leased_with_their_planes(
    device: &Device,
    connectors: &[u32],
    claimed: &[ClaimedPlanes],
    lease: Result<Vec<LeasedConnector>, LeaseRejected>,
    i: int,
)
    requires
        connectors@.len() == 1,
        claimed@.len() == 1,
        call_ensures(Device::lease_request, (device, connectors, claimed), lease),
        0 <= i < device.non_desktop_connectors@.len(),
        device.non_desktop_connectors@[i].0 == connectors@[0],
        forall|j: int|
            0 <= j < i ==> (#[trigger] device.non_desktop_connectors@[j]).0 != connectors@[0],
    ensures
        lease is Ok <==> claimed@[0] is Planes,
        lease matches Ok(lease) ==> {
            &&& lease@.len() == 1
            &&& lease@[0].connector == connectors@[0]
            &&& lease@[0].crtc == device.non_desktop_connectors@[i].1
            &&& lease@[0].primary == claimed@[0]->primary
            &&& lease@[0].cursor == claimed@[0]->cursor
        },
{
    assert(call_requires(Device::lease_request, (device, connectors, claimed)));
    let c = device.non_desktop_connectors@;
    let p = on_connector(connectors@[0]);
    assert forall|j: int| 0 <= j < i implies !p(#[trigger] c[j]) by {}
    lemma_first_index_is(c, p, i);
    reveal_with_fuel(spec_lease, 2);
    assert(connectors@.drop_last() =~= Seq::empty());
}

/// A connector of the desktop is never leased, whatever else is asked for with it.
pub proof fn desktop_connectors_are_not_leased(
    device: &Device,
    connectors: &[u32],
    claimed: &[ClaimedPlanes],
    lease: Result<Vec<LeasedConnector>, LeaseRejected>,
    k: int,
)
    requires
        connectors@.len() == claimed@.len(),
        call_ensures(Device::lease_request, (device, connectors, claimed), lease),
        0 <= k < connectors@.len(),
        !(claimed@[k] is Planes) || forall|j: int|
            0 <= j < device.non_desktop_connectors@.len() ==> (
            #[trigger] device.non_desktop_connectors@[j]).0 != connectors@[k],
    ensures
        lease is Err,
{
    assert(call_requires(Device::lease_request, (device, connectors, claimed)));
    lemma_no_lease(device.non_desktop_connectors@, connectors@, claimed@, k);
}

proof fn lemma_no_lease(
    non_desktop: Seq<(u32, u32)>,
    connectors: Seq<u32>,
    claimed: Seq<ClaimedPlanes>,
    k: int,
)
    requires
        0 <= k < connectors.len() <= claimed.len(),
        !(claimed[k] is Planes) || forall|j: int|
            0 <= j < non_desktop.len() ==> (#[trigger] non_desktop[j]).0 != connectors[k],
    ensures
        spec_lease(non_desktop, connectors, claimed) is None,
    decreases connectors.len(),
{
    if k < connectors.len() - 1 {
        lemma_no_lease(non_desktop, connectors.drop_last(), claimed, k);
    } else if claimed[k] is Planes {
        lemma_first_index_none(non_desktop, on_connector(connectors[k]));
    }
}

/// A paused device has no leases left, and everything else stays.
pub proof fn paused_devices_end_their_leases(device: &mut Device, suspend: bool)
    requires
        old(device).wf(),
        call_ensures(Device::pause, (device,), suspend),
    ensures
        final(device).active_leases@.len() == 0,
        suspend == old(device).leasing,
        final(device).surfaces@ == old(device).surfaces@,
        final(device).non_desktop_connectors@ == old(device).non_desktop_connectors@,
        final(device).known_crtcs == old(device).known_crtcs,
        final(device).node == old(device).node,
        final(device).leasing == old(device).leasing,
{
    assert(call_requires(Device::pause, (device,)));
    assert(final(device).tables().surfaces == old(device).tables().surfaces);
    assert(final(device).tables().non_desktop == old(device).tables().non_desktop);
}

/// A new device drives nothing, and knows no connectors and no leases.
pub proof fn new_devices_drive_nothing(
    node: u64,
    leasing: bool,
    render_node: u64,
    token: u64,
    device: Device,
)
    requires
        call_ensures(Device::new, (node, leasing, render_node, token), device),
    ensures
        device.node == node,
        device.render_node == render_node,
        device.leasing == leasing,
        device.registration_token == token,
        device.surfaces@.len() == 0,
        device.non_desktop_connectors@.len() == 0,
        device.active_leases@.len() == 0,
        device.known_crtcs@.len() == 0,
{
}

/// A device that is taken down tells for each of its connectors, in order, what there is to do; for a
/// single one with a surface that is the surface.
pub proof fn removed_devices_drop_their_connectors(
    device: Device,
    crtcs: &[(u32, u32)],
    removal: DeviceRemoval,
    s: int,
)
    requires
        device.wf(),
        call_ensures(Device::remove, (device, crtcs), removal),
        0 <= s < device.surfaces@.len(),
        crtcs@.len() == 1,
        crtcs@[0].1 == device.surfaces@[s].crtc,
        forall|j: int|
            0 <= j < device.non_desktop_connectors@.len() ==> (
            #[trigger] device.non_desktop_connectors@[j]).0 != crtcs@[0].0,
    ensures
        removal.connectors@ == seq![RemovedConnector::Surface(device.surfaces@[s])],
        removal.disable_leasing == device.leasing,
        removal.render_node == device.render_node,
        removal.registration_token == device.registration_token,
{
    assert(call_requires(Device::remove, (device, crtcs)));
    let tables = device.tables();
    let q = on_crtc(crtcs@[0].1);
    lemma_first_index_none(tables.non_desktop, on_connector(crtcs@[0].0));
    assert forall|j: int| 0 <= j < s implies !q(#[trigger] device.surfaces@[j]) by {
        assert(device.surfaces@[j].crtc != device.surfaces@[s].crtc);
    }
    lemma_first_index_is(device.surfaces@, q, s);
    reveal_with_fuel(Tables::without_all, 2);
    reveal_with_fuel(Tables::removals, 2);
    assert(crtcs@.drop_last() =~= Seq::empty());
    assert(tables.without_all(Seq::empty()) == tables);
    assert(removal.connectors@ =~= seq![RemovedConnector::Surface(device.surfaces@[s])]);
}

/// A lease request is granted exactly if each connector is outside of the desktop and has a primary
/// plane; the lease then holds each of them in order, with its CRTC and its planes.
pub proof fn leases_hold_every_connector(
    device: &Device,
    connectors: &[u32],
    claimed: &[ClaimedPlanes],
    lease: Result<Vec<LeasedConnector>, LeaseRejected>,
    k: int,
)
    requires
        connectors@.len() == claimed@.len(),
        call_ensures(Device::lease_request, (device, connectors, claimed), lease),
        0 <= k < connectors@.len(),
    ensures
        (forall|j: int|
            0 <= j < connectors@.len() ==> (#[trigger] claimed@[j]) is Planes && exists|i: int|
                0 <= i < device.non_desktop_connectors@.len() && (
                #[trigger] device.non_desktop_connectors@[i]).0 == connectors@[j]) ==> lease is Ok,
        lease matches Ok(lease) ==> {
            &&& lease@.len() == connectors@.len()
            &&& lease@[k].connector == connectors@[k]
            &&& device.non_desktop_connectors@.contains((connectors@[k], lease@[k].crtc))
            &&& claimed@[k] == (ClaimedPlanes::Planes {
                primary: lease@[k].primary,
                cursor: lease@[k].cursor,
            })
        },
{
    assert(call_requires(Device::lease_request, (device, connectors, claimed)));
    let table = device.non_desktop_connectors@;
    lemma_lease(table, connectors@, claimed@, k);
    if forall|j: int|
        0 <= j < connectors@.len() ==> (#[trigger] claimed@[j]) is Planes && exists|i: int|
            0 <= i < table.len() && (#[trigger] table[i]).0 == connectors@[j] {
        assert forall|j: int| 0 <= j < connectors@.len() implies (#[trigger] claimed@[j]) is Planes
            && first_index(table, on_connector(connectors@[j])) is Some by {
            let p = on_connector(connectors@[j]);
            let i = choose|i: int| 0 <= i < table.len() && (#[trigger] table[i]).0 == connectors@[j];
            lemma_first_index(table, p);
            assert(p(table[i]));
        }
        lemma_granted(table, connectors@, claimed@);
    }
}

proof fn lemma_lease(
    table: Seq<(u32, u32)>,
    connectors: Seq<u32>,
    claimed: Seq<ClaimedPlanes>,
    k: int,
)
    requires
        connectors.len() <= claimed.len(),
    ensures
        spec_lease(table, connectors, claimed) matches Some(lease) ==> {
            &&& lease.len() == connectors.len()
            &&& 0 <= k < connectors.len() ==> lease[k].connector == connectors[k]
                && table.contains((connectors[k], lease[k].crtc)) && claimed[k]
                == (ClaimedPlanes::Planes { primary: lease[k].primary, cursor: lease[k].cursor })
        },
    decreases connectors.len(),
{
    if connectors.len() > 0 {
        let last = connectors.len() - 1;
        lemma_lease(table, connectors.drop_last(), claimed, k);
        let p = on_connector(connectors[last]);
        lemma_first_index(table, p);
        if let Some(i) = first_index(table, p) {
            assert(p(table[i]));
            assert(table[i] == (connectors[last], table[i].1));
        }
    }
}

proof fn lemma_granted(
    table: Seq<(u32, u32)>,
    connectors: Seq<u32>,
    claimed: Seq<ClaimedPlanes>,
)
    requires
        connectors.len() <= claimed.len(),
        forall|j: int|
            0 <= j < connectors.len() ==> (#[trigger] claimed[j]) is Planes && first_index(
                table,
                on_connector(connectors[j]),
            ) is Some,
    ensures
        spec_lease(table, connectors, claimed) is Some,
    decreases connectors.len(),
{
    if connectors.len() > 0 {
        let front = connectors.drop_last();
        assert forall|j: int| 0 <= j < front.len() implies (#[trigger] claimed[j]) is Planes
            && first_index(table, on_connector(front[j])) is Some by {
            assert(front[j] == connectors[j]);
        }
        lemma_granted(table, front, claimed);
        assert(claimed[connectors.len() - 1] is Planes);
    }
}

proof fn lemma_removals(tables: Tables, leasing: bool, pairs: Seq<(u32, u32)>, k: int)
    requires
        0 <= k < pairs.len(),
    ensures
        tables.removals(leasing, pairs).len() == pairs.len(),
        tables.removals(leasing, pairs)[k] == tables.without_all(pairs.take(k)).removal(
            leasing,
            pairs[k],
        ),
    decreases pairs.len(),
{
    let front = pairs.drop_last();
    if k == pairs.len() - 1 {
        assert(pairs.take(k) =~= front);
        if front.len() > 0 {
            lemma_removals(tables, leasing, front, 0);
        } else {
            assert(tables.removals(leasing, front).len() == 0);
        }
    } else {
        lemma_removals(tables, leasing, front, k);
        assert(front.take(k) =~= pairs.take(k));
        assert(front[k] == pairs[k]);
    }
}

proof fn lemma_without_shrinks(tables: Tables, gone: Seq<(u32, u32)>)
    requires
        unique_crtcs(tables.surfaces),
        tables.non_desktop.len() == 0,
    ensures
        unique_crtcs(tables.without_all(gone).surfaces),
        tables.without_all(gone).non_desktop.len() == 0,
    decreases gone.len(),
{
    if gone.len() > 0 {
        lemma_without_shrinks(tables, gone.drop_last());
        let t = tables.without_all(gone.drop_last());
        let q = on_crtc(gone.last().1);
        lemma_first_index(t.surfaces, q);
        if let Some(i) = first_index(t.surfaces, q) {
            let after = t.surfaces.remove(i);
            assert forall|a: int, b: int| 0 <= a < b < after.len() implies (
            #[trigger] after[a]).crtc != (#[trigger] after[b]).crtc by {
                let a0 = if a < i { a } else { a + 1 };
                let b0 = if b < i { b } else { b + 1 };
                assert(t.surfaces[a0].crtc != t.surfaces[b0].crtc);
            }
        }
    }
}

/// Each connector that went away with a surface has that surface told, in the order in which the
/// connectors went away.
pub proof fn lost_surfaces_are_told_in_order(
    device: &mut Device,
    events: &[DrmScanEvent],
    removed: Vec<RemovedConnector>,
    k: int,
    s: int,
)
    requires
        old(device).wf(),
        old(device).non_desktop_connectors@.len() == 0,
        call_ensures(Device::scan_connectors, (device, events), removed),
        0 <= k < events@.filter_map(disconnected_pair()).len(),
        0 <= s < old(device).surfaces@.len(),
        old(device).surfaces@[s].crtc == events@.filter_map(disconnected_pair())[k].1,
        forall|j: int|
            0 <= j < k ==> (#[trigger] events@.filter_map(disconnected_pair())[j]).1
                != old(device).surfaces@[s].crtc,
    ensures
        removed@.len() == events@.filter_map(disconnected_pair()).len(),
        removed@[k] == RemovedConnector::Surface(old(device).surfaces@[s]),
{
    assert(call_requires(Device::scan_connectors, (device, events)));
    let tables = old(device).tables();
    let gone = events@.filter_map(disconnected_pair());
    let surface = old(device).surfaces@[s];
    lemma_removals(tables, old(device).leasing, gone, k);
    let before = gone.take(k);
    assert forall|j: int| 0 <= j < before.len() implies (#[trigger] before[j]).1
        != surface.crtc by {
        assert(before[j] == gone[j]);
    }
    assert(tables.surfaces[s] == surface);
    lemma_without_keeps(tables, before, surface);
    lemma_without_shrinks(tables, before);
    let t = tables.without_all(before);
    let q = on_crtc(surface.crtc);
    let i = choose|i: int| 0 <= i < t.surfaces.len() && t.surfaces[i] == surface;
    assert forall|j: int| 0 <= j < i implies !q(#[trigger] t.surfaces[j]) by {
        assert(t.surfaces[j].crtc != t.surfaces[i].crtc);
    }
    lemma_first_index_is(t.surfaces, q, i);
    lemma_first_index_none(t.non_desktop, on_connector(gone[k].0));
}

} // verus!
