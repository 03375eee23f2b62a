//! Setting up the output behind a connector.
use vstd::prelude::*;
use vstd::string::*;

use super::device::{Device, Tables};
use super::mode::{
    best_match_is_unique, can_request, default_mode_is_unique, get_default_mode, get_matching_mode,
    get_requested_mode, has_size_in, is_best_match, is_default_mode, is_requested_mode,
    requested_mode_is_unique, wrap_i32, Mode,
};
use crate::config::output::{OutputConfig, OutputTransform, VrrMode};
use crate::text::{decimal, output_name, spec_output_name};

verus! {

/// The bits for each color channel that outputs are driven with.
pub const MAX_BPC: u64 = 8;

/// How the kernel describes the pixel geometry of a display.
#[derive(Clone, Copy, Debug, PartialEq, Eq, Structural)]
pub enum ConnectorSubPixel {
    Unknown,
    HorizontalRgb,
    HorizontalBgr,
    VerticalRgb,
    VerticalBgr,
    /// The pixels are not made of stripes.
    NoGeometry,
    NotImplemented,
}

/// How clients are told about the pixel geometry of an output.
#[derive(Clone, Copy, Debug, PartialEq, Eq, Structural)]
pub enum Subpixel {
    Unknown,
    HorizontalRgb,
    HorizontalBgr,
    VerticalRgb,
    VerticalBgr,
    /// The pixels are not made of stripes.
    NoGeometry,
}

/// A connector, as a scan found it.
#[derive(Debug)]
pub struct ConnectorInfo {
    pub handle: u32,
    /// The kind of the connector, such as `HDMI-A`.
    pub interface: String,
    pub interface_id: u32,
    pub connected: bool,
    pub modes: Vec<Mode>,
    /// The size of the display in millimeters.
    pub size: Option<(u32, u32)>,
    pub subpixel: ConnectorSubPixel,
}

/// What the display told about itself.
#[derive(Debug)]
pub struct DisplayInfo {
    pub make: Option<String>,
    pub model: Option<String>,
    pub serial: Option<String>,
}

/// How an output presents itself to clients.
#[derive(Debug)]
pub struct OutputIdentity {
    pub name: String,
    pub make: String,
    pub model: String,
    pub serial_number: String,
    pub size: (i32, i32),
    pub subpixel: Subpixel,
    pub transform: Option<OutputTransform>,
    pub scale: Option<i32>,
}

/// A connector that is offered to clients for leasing.
#[derive(Debug)]
pub struct LeaseOffer {
    pub connector: u32,
    pub name: String,
    pub description: String,
}

/// How to bring up an output: initialize it with the mode `init`, then switch to `switch_to`.
#[derive(Debug)]
pub struct AddPlan {
    pub lease: Option<LeaseOffer>,
    pub identity: OutputIdentity,
    /// The mode that clients are told about first, and the preferred one.
    pub current: Mode,
    pub init: Mode,
    pub switch_to: Option<Mode>,
    /// Whether overlay planes are used.
    pub overlay_planes: bool,
    pub max_bpc: u64,
}

/// How to bring up an output by trying out modes.
#[derive(Debug)]
pub struct ConnectPlan {
    pub identity: OutputIdentity,
    /// The mode that the display prefers.
    pub preferred: Option<Mode>,
    /// The mode that clients are told about first.
    pub initial: Mode,
    /// The mode to try first.
    pub custom: Option<Mode>,
    /// The mode to try next.
    pub requested: Mode,
    pub overlay_planes: bool,
}

/// What a connector that was plugged in turned out to be.
#[derive(Debug)]
pub enum Connected {
    /// It is on a device that is not there.
    UnknownDevice,
    /// It is not part of the desktop, and offered for leasing where that is possible.
    NonDesktop(Option<LeaseOffer>),
    /// It drives an output.
    Output(ConnectPlan),
}

/// The text of `t`, or `Unknown`.
pub open spec fn or_unknown(t: Option<String>) -> Seq<char> {
    match t {
        Some(s) => s@,
        None => "Unknown"@,
    }
}

/// How clients are told about a pixel geometry.
pub open spec fn spec_subpixel(s: ConnectorSubPixel) -> Subpixel {
    match s {
        ConnectorSubPixel::HorizontalRgb => Subpixel::HorizontalRgb,
        ConnectorSubPixel::HorizontalBgr => Subpixel::HorizontalBgr,
        ConnectorSubPixel::VerticalRgb => Subpixel::VerticalRgb,
        ConnectorSubPixel::VerticalBgr => Subpixel::VerticalBgr,
        ConnectorSubPixel::NoGeometry => Subpixel::NoGeometry,
        _ => Subpixel::Unknown,
    }
}

impl OutputIdentity {
    /// Whether this is the identity of the output behind `conn`.
    pub open spec fn describes(
        &self,
        conn: &ConnectorInfo,
        info: &DisplayInfo,
        config: &OutputConfig,
    ) -> bool {
        &&& self.name@ == spec_output_name(conn.interface@, conn.interface_id as nat)
        &&& self.make@ == or_unknown(info.make)
        &&& self.model@ == or_unknown(info.model)
        &&& self.serial_number@ == or_unknown(info.serial)
        &&& match conn.size {
            Some((w, h)) => self.size.0 == wrap_i32(w as nat) && self.size.1 == wrap_i32(h as nat),
            None => self.size == (0i32, 0i32),
        }
        &&& self.subpixel == spec_subpixel(conn.subpixel)
        &&& self.transform == config.transform
        &&& self.scale == config.scale
    }
}

impl LeaseOffer {
    /// Whether this offers the connector `conn`, described by its make and model.
    pub open spec fn offers(&self, conn: &ConnectorInfo, info: &DisplayInfo) -> bool {
        &&& self.connector == conn.handle
        &&& self.name@ == spec_output_name(conn.interface@, conn.interface_id as nat)
        &&& self.description@ == or_unknown(info.make) + "-"@ + or_unknown(info.model)
    }
}

fn text_or_unknown(t: &Option<String>) -> (s: String)
    ensures
        s@ == or_unknown(*t),
{
    match t {
        Some(s) => s.clone(),
        None => "Unknown".to_string(),
    }
}

fn signed(x: u32) -> (r: i32)
    ensures
        r == wrap_i32(x as nat),
{
    if x < 0x8000_0000 {
        x as i32
    } else {
        (x as i64 - 0x1_0000_0000) as i32
    }
}

fn convert_subpixel(s: ConnectorSubPixel) -> (r: Subpixel)
    ensures
        r == spec_subpixel(s),
{
    match s {
        ConnectorSubPixel::HorizontalRgb => Subpixel::HorizontalRgb,
        ConnectorSubPixel::HorizontalBgr => Subpixel::HorizontalBgr,
        ConnectorSubPixel::VerticalRgb => Subpixel::VerticalRgb,
        ConnectorSubPixel::VerticalBgr => Subpixel::VerticalBgr,
        ConnectorSubPixel::NoGeometry => Subpixel::NoGeometry,
        _ => Subpixel::Unknown,
    }
}

/// How the output behind a connector presents itself.
pub fn output_identity(conn: &ConnectorInfo, info: &DisplayInfo, config: &OutputConfig) -> (r:
    OutputIdentity)
    ensures
        r.describes(conn, info, config),
{
    let size = match conn.size {
        Some((w, h)) => (signed(w), signed(h)),
        None => (0i32, 0i32),
    };
    OutputIdentity {
        name: output_name(conn.interface.as_str(), conn.interface_id),
        make: text_or_unknown(&info.make),
        model: text_or_unknown(&info.model),
        serial_number: text_or_unknown(&info.serial),
        size,
        subpixel: convert_subpixel(conn.subpixel),
        transform: config.transform,
        scale: config.scale,
    }
}

/// The offer of a connector for leasing.
pub fn lease_offer(conn: &ConnectorInfo, info: &DisplayInfo) -> (offer: LeaseOffer)
    ensures
        offer.offers(conn, info),
{
    let mut description = text_or_unknown(&info.make);
    description.append("-");
    let model = text_or_unknown(&info.model);
    description.append(model.as_str());
    LeaseOffer {
        connector: conn.handle,
        name: output_name(conn.interface.as_str(), conn.interface_id),
        description,
    }
}

/// Whether `mode` is the last one that the display prefers.
pub open spec fn is_last_preferred(modes: Seq<Mode>, mode: Option<Mode>) -> bool {
    match mode {
        Some(mode) => exists|i: int|
            0 <= i < modes.len() && #[trigger] modes[i] == mode && mode.spec_is_preferred()
                && forall|j: int|
                i < j < modes.len() ==> !(#[trigger] modes[j]).spec_is_preferred(),
        None => forall|j: int| 0 <= j < modes.len() ==> !(#[trigger] modes[j]).spec_is_preferred(),
    }
}

fn last_preferred(modes: &[Mode]) -> (mode: Option<Mode>)
    ensures
        is_last_preferred(modes@, mode),
{
    let mut i: usize = modes.len();
    while i > 0
        invariant
            0 <= i <= modes.len(),
            forall|j: int| i <= j < modes.len() ==> !(#[trigger] modes@[j]).spec_is_preferred(),
        decreases i,
    {
        i -= 1;
        if modes[i].is_preferred() {
            return Some(modes[i]);
        }
    }
    None
}

/// The mode that the configuration asks for: the closest one of the display, else the computed
/// one.
pub open spec fn is_wanted_mode(
    modes: Seq<Mode>,
    config: OutputConfig,
    custom: Option<Mode>,
    mode: Option<Mode>,
) -> bool {
    match config.mode {
        Some(w) => if has_size_in(modes, w.0, w.1) {
            mode matches Some(m) && exists|i: int| #[trigger]
                is_best_match(modes, w.0, w.1, w.2, i) && modes[i] == m
        } else {
            mode == custom
        },
        None => mode is None,
    }
}

impl Device {
    /// Bring up a connector that a scan found.
    ///
    /// `custom` is the mode computed for the size and rate that the configuration asks for. A
    /// connector that does not count as part of the desktop is offered for leasing as well, where
    /// leasing is available. The output starts with the default mode, since initializing with
    /// another one may fail, and switches to the requested mode afterwards.
    pub fn add_connector(
        &mut self,
        crtc: u32,
        conn: &ConnectorInfo,
        info: &DisplayInfo,
        desktop: bool,
        config: &OutputConfig,
        custom: Option<Mode>,
        nvidia: bool,
    ) -> (plan: AddPlan)
        requires
            old(self).wf(),
            can_request(conn.modes@, config.mode),
        ensures
            final(self).wf(),
            final(self).same_but_tables(&*old(self)),
            final(self).known_crtcs == old(self).known_crtcs,
            final(self).tables() == if !desktop && old(self).leasing {
                Tables {
                    non_desktop: old(self).tables().non_desktop.push((conn.handle, crtc)),
                    ..old(self).tables()
                }
            } else {
                old(self).tables()
            },
            plan.lease is Some <==> !desktop && old(self).leasing,
            plan.lease matches Some(offer) ==> offer.offers(conn, info),
            plan.identity.describes(conn, info, config),
            exists|i: int| #[trigger]
                is_default_mode(conn.modes@, i) && conn.modes@[i] == plan.init,
            is_wanted_mode(conn.modes@, *config, custom, plan.switch_to),
            plan.current == match plan.switch_to {
                Some(mode) => mode,
                None => plan.init,
            },
            plan.overlay_planes == !nvidia,
            plan.max_bpc == MAX_BPC,
    {
        let lease = if !desktop && self.leasing {
            self.non_desktop_connectors.push((conn.handle, crtc));
            Some(lease_offer(conn, info))
        } else {
            None
        };
        let init = get_default_mode(conn.modes.as_slice());
        let switch_to = match config.mode {
            Some((width, height, refresh)) => match get_matching_mode(
                conn.modes.as_slice(),
                width,
                height,
                refresh,
            ) {
                Some(mode) => Some(mode),
                None => custom,
            },
            None => None,
        };
        let current = match switch_to {
            Some(mode) => mode,
            None => init,
        };
        AddPlan {
            lease,
            identity: output_identity(conn, info, config),
            current,
            init,
            switch_to,
            overlay_planes: !nvidia,
            max_bpc: MAX_BPC,
        }
    }

    /// Tell what a connector that was plugged in is, and how its output is brought up.
    ///
    /// `custom` is the mode computed for the size and rate that the configuration asks for, which
    /// is tried before the modes of the display.
    pub fn connector_connected(
        &mut self,
        crtc: u32,
        conn: &ConnectorInfo,
        info: &DisplayInfo,
        non_desktop: bool,
        config: &OutputConfig,
        custom: Option<Mode>,
        nvidia: bool,
    ) -> (connected: Connected)
        requires
            old(self).wf(),
            !non_desktop ==> can_request(conn.modes@, config.mode),
        ensures
            final(self).wf(),
            final(self).same_but_tables(&*old(self)),
            final(self).known_crtcs == old(self).known_crtcs,
            final(self).tables() == if non_desktop {
                Tables {
                    non_desktop: old(self).tables().non_desktop.push((conn.handle, crtc)),
                    ..old(self).tables()
                }
            } else {
                old(self).tables()
            },
            match connected {
                Connected::UnknownDevice => false,
                Connected::NonDesktop(offer) => {
                    &&& non_desktop
                    &&& offer is Some <==> old(self).leasing
                    &&& offer matches Some(offer) ==> offer.offers(conn, info)
                },
                Connected::Output(plan) => {
                    &&& !non_desktop
                    &&& plan.identity.describes(conn, info, config)
                    &&& is_last_preferred(conn.modes@, plan.preferred)
                    &&& plan.custom == if config.mode is Some {
                        custom
                    } else {
                        None
                    }
                    &&& is_requested_mode(conn.modes@, config.mode, plan.requested)
                    &&& plan.custom matches Some(mode) ==> plan.initial == mode
                    &&& plan.custom is None ==> exists|i: int| #[trigger]
                        is_default_mode(conn.modes@, i) && conn.modes@[i] == plan.initial
                    &&& plan.overlay_planes == !nvidia
                },
            },
    {
        if non_desktop {
            self.non_desktop_connectors.push((conn.handle, crtc));
            let offer = if self.leasing {
                Some(lease_offer(conn, info))
            } else {
                None
            };
            return Connected::NonDesktop(offer);
        }
        let modes = conn.modes.as_slice();
        let custom = match config.mode {
            Some(_) => custom,
            None => None,
        };
        let initial = match custom {
            Some(mode) => mode,
            None => get_default_mode(modes),
        };
        Connected::Output(
            ConnectPlan {
                identity: output_identity(conn, info, config),
                preferred: last_preferred(modes),
                initial,
                custom,
                requested: get_requested_mode(modes, config.mode),
                overlay_planes: !nvidia,
            },
        )
    }
}

/// An attempt to drive an output with a mode.
#[derive(Clone, Copy, Debug)]
pub enum ModeAttempt {
    /// With the computed mode.
    Custom(Mode),
    /// With the mode that was picked from those of the display.
    Requested(Mode),
}

/// What follows from an attempt.
#[derive(Clone, Copy, Debug)]
pub enum ModeOutcome {
    /// The output now uses this mode.
    Applied(Mode),
    /// Another mode is worth a try.
    Retry(ModeAttempt),
    Failed,
}

impl ModeAttempt {
    pub open spec fn spec_mode(self) -> Mode {
        match self {
            ModeAttempt::Custom(mode) => mode,
            ModeAttempt::Requested(mode) => mode,
        }
    }

    /// The computed mode is tried first, where there is one.
    pub open spec fn spec_first(custom: Option<Mode>, requested: Mode) -> ModeAttempt {
        match custom {
            Some(mode) => ModeAttempt::Custom(mode),
            None => ModeAttempt::Requested(requested),
        }
    }

    /// What follows once the display accepted or refused the mode.
    pub open spec fn spec_outcome(self, accepted: bool, requested: Mode) -> ModeOutcome {
        if accepted {
            ModeOutcome::Applied(self.spec_mode())
        } else if self is Custom {
            ModeOutcome::Retry(ModeAttempt::Requested(requested))
        } else {
            ModeOutcome::Failed
        }
    }

    /// The first mode to try.
    pub fn first(custom: Option<Mode>, requested: Mode) -> (attempt: ModeAttempt)
        ensures
            attempt == ModeAttempt::spec_first(custom, requested),
    {
        match custom {
            Some(mode) => ModeAttempt::Custom(mode),
            None => ModeAttempt::Requested(requested),
        }
    }

    /// The mode of this attempt.
    pub fn mode(&self) -> (mode: Mode)
        ensures
            mode == self.spec_mode(),
    {
        match self {
            ModeAttempt::Custom(mode) => *mode,
            ModeAttempt::Requested(mode) => *mode,
        }
    }

    /// What follows from this attempt: a computed mode that was refused falls back to the
    /// requested one.
    pub fn outcome(&self, accepted: bool, requested: Mode) -> (outcome: ModeOutcome)
        ensures
            outcome == self.spec_outcome(accepted, requested),
    {
        if accepted {
            return ModeOutcome::Applied(self.mode());
        }
        match self {
            ModeAttempt::Custom(_) => ModeOutcome::Retry(ModeAttempt::Requested(requested)),
            ModeAttempt::Requested(_) => ModeOutcome::Failed,
        }
    }
}

/// How the attempts end on a display that accepts the modes in `accepts`.
pub open spec fn settle(
    attempt: ModeAttempt,
    requested: Mode,
    accepts: spec_fn(Mode) -> bool,
) -> Option<Mode> {
    match attempt.spec_outcome(accepts(attempt.spec_mode()), requested) {
        ModeOutcome::Applied(mode) => Some(mode),
        ModeOutcome::Retry(next) => match next.spec_outcome(
            accepts(next.spec_mode()),
            requested,
        ) {
            ModeOutcome::Applied(mode) => Some(mode),
            _ => None,
        },
        ModeOutcome::Failed => None,
    }
}

/// The computed mode is used whenever the display accepts it, else the requested mode whenever
/// the display accepts that one; otherwise the attempts fail. They never take more than two
/// tries.
pub proof fn mode_attempts_settle(
    custom: Option<Mode>,
    requested: Mode,
    accepts: spec_fn(Mode) -> bool,
)
    ensures
        settle(ModeAttempt::spec_first(custom, requested), requested, accepts) == match custom {
            Some(mode) if accepts(mode) => Some(mode),
            _ => if accepts(requested) {
                Some(requested)
            } else {
                None
            },
        },
        forall|attempt: ModeAttempt, accepted: bool|
            (#[trigger] attempt.spec_outcome(accepted, requested)) matches ModeOutcome::Retry(next)
                ==> attempt is Custom && next is Requested,
{
}

/// What the kernel knows about variable refresh rate on a connector.
#[derive(Clone, Copy, Debug, PartialEq, Eq, Structural)]
pub enum VrrSupport {
    NotSupported,
    RequiresModeset,
    Supported,
}

/// Whether a connector supports variable refresh rate; `None` stands for a failed query.
pub open spec fn spec_vrr_supported(support: Option<VrrSupport>) -> bool {
    match support {
        Some(VrrSupport::RequiresModeset) | Some(VrrSupport::Supported) => true,
        _ => false,
    }
}

/// Whether a connector supports variable refresh rate; `None` stands for a failed query.
pub fn vrr_supported(support: Option<VrrSupport>) -> (b: bool)
    ensures
        b == spec_vrr_supported(support),
{
    match support {
        Some(VrrSupport::RequiresModeset) => true,
        Some(VrrSupport::Supported) => true,
        _ => false,
    }
}

/// What to set variable refresh rate to on a new output, if anything.
///
/// It is only turned on where the configuration says so for good: on demand it follows the
/// windows later. Without support it cannot be set.
pub fn initial_vrr(config: VrrMode, support: Option<VrrSupport>) -> (enable: Option<bool>)
    ensures
        enable == if spec_vrr_supported(support) {
            Some(config == VrrMode::On)
        } else {
            None
        },
{
    if vrr_supported(support) {
        Some(config == VrrMode::On)
    } else {
        None
    }
}

/// What a new output reports about variable refresh rate, when `enabled` is what the display
/// ended up with: nothing without support.
pub fn reported_vrr(support: Option<VrrSupport>, enabled: bool) -> (mode: Option<VrrMode>)
    ensures
        mode == if !spec_vrr_supported(support) {
            None
        } else if enabled {
            Some(VrrMode::On)
        } else {
            Some(VrrMode::Off)
        },
{
    if !vrr_supported(support) {
        None
    } else if enabled {
        Some(VrrMode::On)
    } else {
        Some(VrrMode::Off)
    }
}

/// Whether the user is warned that variable refresh rate was asked for in vain.
pub fn vrr_unavailable(config: VrrMode, support: Option<VrrSupport>) -> (warn: bool)
    ensures
        warn == (!spec_vrr_supported(support) && config != VrrMode::Off),
{
    !vrr_supported(support) && config != VrrMode::Off
}

/// Whether a configuration change asks for another variable refresh rate setting than the one in
/// effect. On demand, the next redraw settles that.
pub fn vrr_changed(config: VrrMode, enabled: bool) -> (changed: bool)
    ensures
        changed == ((config == VrrMode::On && !enabled) || (config == VrrMode::Off && enabled)),
{
    (config == VrrMode::On && !enabled) || (config == VrrMode::Off && enabled)
}

/// An output presents itself by the name of its connector, what its display told, or `Unknown`, the
/// size of the display, or zero, its pixel geometry, and the transform and scale of its
/// configuration.
pub proof fn outputs_present_themselves(
    conn: &ConnectorInfo,
    info: &DisplayInfo,
    config: &OutputConfig,
    identity: OutputIdentity,
    name: String,
)
    requires
        call_ensures(output_identity, (conn, info, config), identity),
        name@ == conn.interface@ + "-"@ + decimal(conn.interface_id as nat),
    ensures
        identity.name@ == name@,
        info.make matches Some(make) ==> identity.make@ == make@,
        info.make is None ==> identity.make@ == "Unknown"@,
        info.model matches Some(model) ==> identity.model@ == model@,
        info.model is None ==> identity.model@ == "Unknown"@,
        info.serial matches Some(serial) ==> identity.serial_number@ == serial@,
        info.serial is None ==> identity.serial_number@ == "Unknown"@,
        conn.size is None ==> identity.size == (0i32, 0i32),
        conn.size matches Some((w, h)) ==> (w <= i32::MAX ==> identity.size.0 == w) && (h
            <= i32::MAX ==> identity.size.1 == h) && (w > i32::MAX ==> identity.size.0 == w
            - 0x1_0000_0000) && (h > i32::MAX ==> identity.size.1 == h - 0x1_0000_0000),
        identity.transform == config.transform,
        identity.scale == config.scale,
        conn.subpixel is HorizontalRgb <==> identity.subpixel is HorizontalRgb,
        conn.subpixel is HorizontalBgr <==> identity.subpixel is HorizontalBgr,
        conn.subpixel is VerticalRgb <==> identity.subpixel is VerticalRgb,
        conn.subpixel is VerticalBgr <==> identity.subpixel is VerticalBgr,
        conn.subpixel is NoGeometry <==> identity.subpixel is NoGeometry,
{
}

/// A connector is offered for leasing by its handle and name, described by the make and the model of
/// its display.
pub proof fn leases_are_described(conn: &ConnectorInfo, info: &DisplayInfo, offer: LeaseOffer)
    requires
        call_ensures(lease_offer, (conn, info), offer),
        info.make is Some,
        info.model is Some,
    ensures
        offer.connector == conn.handle,
        offer.name@ == conn.interface@ + "-"@ + decimal(conn.interface_id as nat),
        offer.description@ == info.make->0@ + "-"@ + info.model->0@,
{
}

/// A connector that was plugged in starts with the default mode of its display, and switches to the
/// mode that matches the configuration, or to the computed one where the display has none of that
/// size; it stays with the default mode if none is configured. Clients are told the mode that it
/// ends up with.
pub proof fn added_connectors_get_the_configured_mode(
    device: &mut Device,
    crtc: u32,
    conn: &ConnectorInfo,
    info: &DisplayInfo,
    desktop: bool,
    config: &OutputConfig,
    custom: Option<Mode>,
    nvidia: bool,
    plan: AddPlan,
    modes: &[Mode],
    default_mode: Mode,
    matched: Option<Mode>,
)
    requires
        old(device).wf(),
        can_request(conn.modes@, config.mode),
        modes@ == conn.modes@,
        call_ensures(
            Device::add_connector,
            (device, crtc, conn, info, desktop, config, custom, nvidia),
            plan,
        ),
        call_ensures(get_default_mode, (modes,), default_mode),
        config.mode matches Some(w) ==> call_ensures(
            get_matching_mode,
            (modes, w.0, w.1, w.2),
            matched,
        ),
    ensures
        plan.init == default_mode,
        config.mode is None ==> plan.switch_to is None && plan.current == default_mode,
        config.mode is Some && matched is Some ==> plan.switch_to == matched && plan.current
            == matched->0,
        config.mode is Some && matched is None ==> plan.switch_to == custom,
        plan.switch_to is None ==> plan.current == default_mode,
        plan.switch_to matches Some(mode) ==> plan.current == mode,
        plan.overlay_planes == !nvidia,
        plan.max_bpc == 8,
{
    assert(call_requires(
        Device::add_connector,
        (device, crtc, conn, info, desktop, config, custom, nvidia),
    ));
    let i = choose|i: int| #[trigger]
        is_default_mode(conn.modes@, i) && conn.modes@[i] == plan.init;
    let j = choose|j: int| #[trigger] is_default_mode(modes@, j) && modes@[j] == default_mode;
    default_mode_is_unique(modes@, i, j);
    if let Some(w) = config.mode {
        assert(call_requires(get_matching_mode, (modes, w.0, w.1, w.2)));
        if has_size_in(modes@, w.0, w.1) {
            let k = choose|k: int| #[trigger]
                is_best_match(modes@, w.0, w.1, w.2, k) && modes@[k] == plan.switch_to->0;
            assert(modes@[k].spec_has_size(w.0, w.1));
            let l = choose|l: int| #[trigger]
                is_best_match(modes@, w.0, w.1, w.2, l) && modes@[l] == matched->0;
            best_match_is_unique(modes@, w.0, w.1, w.2, k, l);
        } else if let Some(m) = matched {
            let l = choose|l: int| #[trigger]
                is_best_match(modes@, w.0, w.1, w.2, l) && modes@[l] == m;
            assert(modes@[l].spec_has_size(w.0, w.1));
        }
    }
}

/// A connector outside of the desktop is offered for leasing, and noted, where leasing is available;
/// any other one is neither. No surface changes.
pub proof fn added_connectors_are_offered(
    device: &mut Device,
    crtc: u32,
    conn: &ConnectorInfo,
    info: &DisplayInfo,
    desktop: bool,
    config: &OutputConfig,
    custom: Option<Mode>,
    nvidia: bool,
    plan: AddPlan,
)
    requires
        old(device).wf(),
        can_request(conn.modes@, config.mode),
        call_ensures(
            Device::add_connector,
            (device, crtc, conn, info, desktop, config, custom, nvidia),
            plan,
        ),
    ensures
        plan.lease is Some <==> !desktop && old(device).leasing,
        plan.lease matches Some(offer) ==> offer.connector == conn.handle,
        !desktop && old(device).leasing ==> final(device).non_desktop_connectors@ == old(
            device,
        ).non_desktop_connectors@.push((conn.handle, crtc)),
        desktop || !old(device).leasing ==> final(device).non_desktop_connectors@ == old(
            device,
        ).non_desktop_connectors@,
        final(device).surfaces@ == old(device).surfaces@,
        plan.identity.scale == config.scale,
        plan.identity.transform == config.transform,
{
    assert(call_requires(
        Device::add_connector,
        (device, crtc, conn, info, desktop, config, custom, nvidia),
    ));
    assert(final(device).tables().surfaces == old(device).tables().surfaces);
    assert(final(device).tables().non_desktop == if !desktop && old(device).leasing {
        old(device).tables().non_desktop.push((conn.handle, crtc))
    } else {
        old(device).tables().non_desktop
    });
}

/// The output of a connector is tried with the computed mode first, where one is configured and could
/// be computed, then with the mode that the configuration asks for among those of its display. A
/// connector outside of the desktop has no output.
pub proof fn connected_outputs_try_modes(
    device: &mut Device,
    crtc: u32,
    conn: &ConnectorInfo,
    info: &DisplayInfo,
    non_desktop: bool,
    config: &OutputConfig,
    custom: Option<Mode>,
    nvidia: bool,
    connected: Connected,
    modes: &[Mode],
    requested: Mode,
    default_mode: Mode,
)
    requires
        old(device).wf(),
        can_request(conn.modes@, config.mode),
        modes@ == conn.modes@,
        call_ensures(
            Device::connector_connected,
            (device, crtc, conn, info, non_desktop, config, custom, nvidia),
            connected,
        ),
        call_ensures(get_requested_mode, (modes, config.mode), requested),
        call_ensures(get_default_mode, (modes,), default_mode),
    ensures
        non_desktop ==> connected is NonDesktop && (connected->NonDesktop_0 is Some <==> old(
            device,
        ).leasing) && final(device).non_desktop_connectors@ == old(
            device,
        ).non_desktop_connectors@.push((conn.handle, crtc)),
        !non_desktop ==> connected is Output && final(device).non_desktop_connectors@ == old(
            device,
        ).non_desktop_connectors@ && {
            let plan = connected->Output_0;
            &&& plan.requested == requested
            &&& config.mode is None ==> plan.custom is None
            &&& config.mode is Some ==> plan.custom == custom
            &&& plan.custom matches Some(mode) ==> plan.initial == mode
            &&& plan.custom is None ==> plan.initial == default_mode
            &&& plan.overlay_planes == !nvidia
            &&& plan.preferred matches Some(mode) ==> mode.mode_type & 0x8 != 0
                && conn.modes@.contains(mode)
            &&& plan.preferred is None ==> forall|j: int|
                0 <= j < conn.modes@.len() ==> (#[trigger] conn.modes@[j]).mode_type & 0x8 == 0
        },
        final(device).surfaces@ == old(device).surfaces@,
{
    assert(call_requires(
        Device::connector_connected,
        (device, crtc, conn, info, non_desktop, config, custom, nvidia),
    ));
    assert(call_requires(get_requested_mode, (modes, config.mode)));
    assert(final(device).tables().surfaces == old(device).tables().surfaces);
    assert(final(device).tables().non_desktop == if non_desktop {
        old(device).tables().non_desktop.push((conn.handle, crtc))
    } else {
        old(device).tables().non_desktop
    });
    if let Connected::Output(plan) = connected {
        requested_mode_is_unique(modes@, config.mode, plan.requested, requested);
        let j = choose|j: int| #[trigger] is_default_mode(modes@, j) && modes@[j] == default_mode;
        if plan.custom is None {
            let i = choose|i: int| #[trigger]
                is_default_mode(conn.modes@, i) && conn.modes@[i] == plan.initial;
            default_mode_is_unique(modes@, i, j);
        }
        if let Some(mode) = plan.preferred {
            let k = choose|k: int|
                0 <= k < modes@.len() && #[trigger] modes@[k] == mode && mode.spec_is_preferred()
                    && forall|l: int|
                    k < l < modes@.len() ==> !(#[trigger] modes@[l]).spec_is_preferred();
            assert(conn.modes@[k] == mode);
        } else {
            assert forall|l: int| 0 <= l < conn.modes@.len() implies (
            #[trigger] conn.modes@[l]).mode_type & 0x8 == 0 by {
                assert(!conn.modes@[l].spec_is_preferred());
            }
        }
    }
}

/// The computed mode comes first where there is one. A mode that the display accepts is used; a
/// computed one that it refuses gives way to the requested one, and after that nothing is left to
/// try.
pub proof fn refused_modes_fall_back(
    custom: Option<Mode>,
    requested: Mode,
    first: ModeAttempt,
    mode: Mode,
    accepted: bool,
    outcome: ModeOutcome,
)
    requires
        call_ensures(ModeAttempt::first, (custom, requested), first),
        call_ensures(ModeAttempt::mode, (&first,), mode),
        call_ensures(ModeAttempt::outcome, (&first, accepted, requested), outcome),
    ensures
        custom matches Some(computed) ==> mode == computed,
        custom is None ==> mode == requested,
        accepted ==> outcome == ModeOutcome::Applied(mode),
        !accepted && custom is Some ==> outcome == ModeOutcome::Retry(
            ModeAttempt::Requested(requested),
        ),
        !accepted && custom is None ==> outcome is Failed,
{
}

/// Variable refresh rate is set only where the connector supports it: on exactly if it is configured
/// to be always on. What the output reports is what it ended up with. A wish that cannot be
/// granted is warned about.
pub proof fn variable_rates_need_support(
    config: VrrMode,
    support: Option<VrrSupport>,
    enabled: bool,
    supported: bool,
    initial: Option<bool>,
    reported: Option<VrrMode>,
    warned: bool,
)
    requires
        call_ensures(vrr_supported, (support,), supported),
        call_ensures(initial_vrr, (config, support), initial),
        call_ensures(reported_vrr, (support, enabled), reported),
        call_ensures(vrr_unavailable, (config, support), warned),
    ensures
        supported <==> support == Some(VrrSupport::Supported) || support == Some(
            VrrSupport::RequiresModeset,
        ),
        !supported ==> initial is None && reported is None,
        supported ==> initial == Some(config is On),
        supported && enabled ==> reported == Some(VrrMode::On),
        supported && !enabled ==> reported == Some(VrrMode::Off),
        warned <==> !supported && (config is On || config is OnDemand),
{
}

/// A configuration changes the variable refresh rate if it says for good what is not so; on demand
/// nothing is changed.
pub proof fn variable_rates_change_for_good(config: VrrMode, enabled: bool, changed: bool)
    requires
        call_ensures(vrr_changed, (config, enabled), changed),
    ensures
        config is On ==> changed == !enabled,
        config is Off ==> changed == enabled,
        config is OnDemand ==> !changed,
{
}

} // verus!
