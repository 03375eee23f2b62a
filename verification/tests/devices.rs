use fht_compositor::backend::udev::cleanup::{
    cleanup_mismatching_resources, CleanupPlan, CrtcState, CurrentEncoder, PlaneState,
    PropertyReset, ResetValue, ScannedConnector,
};
use fht_compositor::backend::udev::connector::{
    initial_vrr, lease_offer, output_identity, reported_vrr, vrr_changed, vrr_supported,
    vrr_unavailable, Connected, ConnectorInfo, ConnectorSubPixel, DisplayInfo, ModeAttempt,
    ModeOutcome, Subpixel, VrrSupport,
};
use fht_compositor::backend::udev::debug::{
    draw_damage, draw_opaque_regions, opaque_regions, ElementRegions, FrameElement,
};
use fht_compositor::backend::udev::device::{
    ClaimedPlanes, Device, DrmScanEvent, LeaseRejected, LeasedConnector, RemovedConnector, Surface,
};
use fht_compositor::backend::udev::mode::{Mode, DRM_MODE_TYPE_PREFERRED};
use fht_compositor::backend::udev::properties::{
    color_formats, get_property_val, is_desktop_connector, is_nvidia, mentions_nvidia,
    scanout_formats, set_max_bpc, BpcError, BpcProperty, DrmFormat, Fourcc, PropertyError,
    PropertyName,
};
use fht_compositor::config::output::{OutputConfig, OutputTransform, OutputsConfig, VrrMode};
use fht_compositor::geometry::{Point, Rectangle};

fn mode(w: u16, h: u16, vrefresh: u32) -> Mode {
    Mode {
        clock: 148_500,
        hdisplay: w,
        hsync_start: w,
        hsync_end: w,
        htotal: 2200,
        hskew: 0,
        vdisplay: h,
        vsync_start: h,
        vsync_end: h,
        vtotal: 1125,
        vscan: 0,
        vrefresh,
        flags: 0,
        mode_type: 0,
        name: [0; 32],
    }
}

fn connector() -> ConnectorInfo {
    ConnectorInfo {
        handle: 30,
        interface: "HDMI-A".to_string(),
        interface_id: 12,
        connected: true,
        modes: vec![
            mode(1280, 720, 60),
            Mode { mode_type: DRM_MODE_TYPE_PREFERRED, ..mode(1920, 1080, 60) },
            mode(1920, 1080, 75),
        ],
        size: Some((600, 340)),
        subpixel: ConnectorSubPixel::HorizontalBgr,
    }
}

fn info() -> DisplayInfo {
    DisplayInfo { make: Some("ACME".to_string()), model: None, serial: Some("42".to_string()) }
}

fn surface(crtc: u32, connector: u32) -> Surface {
    Surface { crtc, connector, output: crtc as u64 * 10, render_node: 1 }
}

fn device() -> Device {
    let mut d = Device::new(5, true, 1, 99);
    d.insert_surface(surface(40, 30));
    d.insert_surface(surface(41, 31));
    d.non_desktop_connectors.push((32, 42));
    d
}

#[test]
fn output_names_and_identity() {
    let config = OutputConfig {
        transform: Some(OutputTransform::Rotate90),
        scale: Some(2),
        ..OutputConfig::default()
    };
    let id = output_identity(&connector(), &info(), &config);
    assert_eq!(id.name, "HDMI-A-12");
    assert_eq!((id.make.as_str(), id.model.as_str()), ("ACME", "Unknown"));
    assert_eq!(id.serial_number, "42");
    assert_eq!(id.size, (600, 340));
    assert_eq!(id.subpixel, Subpixel::HorizontalBgr);
    assert_eq!(id.transform, Some(OutputTransform::Rotate90));
    assert_eq!(id.scale, Some(2));
    let mut bare = connector();
    bare.size = None;
    bare.subpixel = ConnectorSubPixel::NotImplemented;
    let id = output_identity(&bare, &info(), &OutputConfig::default());
    assert_eq!(id.size, (0, 0));
    assert_eq!(id.subpixel, Subpixel::Unknown);
    let offer = lease_offer(&connector(), &info());
    assert_eq!(offer.connector, 30);
    assert_eq!(offer.name, "HDMI-A-12");
    assert_eq!(offer.description, "ACME-Unknown");
}

#[test]
fn removing_connectors() {
    let mut d = device();
    assert_eq!(d.remove_connector(42, 32), RemovedConnector::NonDesktop { withdraw: true });
    assert!(d.non_desktop_connectors.is_empty());
    assert_eq!(d.remove_connector(41, 31), RemovedConnector::Surface(surface(41, 31)));
    assert_eq!(d.surfaces, vec![surface(40, 30)]);
    assert_eq!(d.remove_connector(41, 31), RemovedConnector::Missing);
    let mut d = device();
    d.leasing = false;
    assert_eq!(d.remove_connector(42, 32), RemovedConnector::NonDesktop { withdraw: false });
}

#[test]
fn inserting_a_surface_replaces_the_one_on_its_crtc() {
    let mut d = device();
    d.insert_surface(surface(40, 77));
    assert_eq!(d.surfaces, vec![surface(40, 77), surface(41, 31)]);
    assert_eq!(d.surface_index(41), Some(1));
    assert_eq!(d.surface_index(9), None);
    assert_eq!(d.output_index(410), Some(1));
    assert_eq!(d.output_index(1), None);
}

#[test]
fn scanning_removes_first_and_then_adds() {
    let mut d = device();
    d.known_crtcs = vec![(30, 40), (31, 41)];
    let removed = d.scan_connectors(&[
        DrmScanEvent::Connected { connector: 33, crtc: Some(43) },
        DrmScanEvent::Disconnected { connector: 31, crtc: Some(41) },
        DrmScanEvent::Connected { connector: 34, crtc: None },
        DrmScanEvent::Disconnected { connector: 35, crtc: None },
        DrmScanEvent::Connected { connector: 30, crtc: Some(40) },
    ]);
    assert_eq!(removed, vec![RemovedConnector::Surface(surface(41, 31))]);
    let mut known = d.known_crtcs.clone();
    known.sort();
    assert_eq!(known, vec![(30, 40), (33, 43)]);
    assert_eq!(d.surfaces, vec![surface(40, 30)]);
}

#[test]
fn removing_a_device_removes_its_connectors() {
    let removal = device().remove(&[(30, 40), (32, 42), (36, 46)]);
    assert_eq!(
        removal.connectors,
        vec![
            RemovedConnector::Surface(surface(40, 30)),
            RemovedConnector::NonDesktop { withdraw: true },
            RemovedConnector::Missing,
        ]
    );
    assert!(removal.disable_leasing);
    assert_eq!((removal.render_node, removal.registration_token), (1, 99));
}

#[test]
fn leases_are_for_connectors_outside_the_desktop() {
    let d = device();
    let planes = ClaimedPlanes::Planes { primary: 7, cursor: Some(8) };
    assert_eq!(
        d.lease_request(&[32], &[planes]),
        Ok(vec![LeasedConnector { connector: 32, crtc: 42, primary: 7, cursor: Some(8) }])
    );
    assert_eq!(d.lease_request(&[32, 30], &[planes, planes]), Err(LeaseRejected));
    assert_eq!(d.lease_request(&[32], &[ClaimedPlanes::NoPrimary]), Err(LeaseRejected));
    assert_eq!(d.lease_request(&[32], &[ClaimedPlanes::Failed]), Err(LeaseRejected));
    assert_eq!(d.lease_request(&[], &[]), Ok(vec![]));
}

#[test]
fn leases_end() {
    let mut d = device();
    d.add_active_lease(1);
    d.add_active_lease(2);
    d.add_active_lease(1);
    d.remove_lease(1);
    assert_eq!(d.active_leases, vec![2]);
    assert!(d.lease_state());
    assert!(d.pause());
    assert!(d.active_leases.is_empty());
}

#[test]
fn adding_connectors() {
    let mut d = device();
    let config =
        OutputConfig { mode: Some((1920, 1080, None)), ..OutputConfig::default() };
    let plan = d.add_connector(43, &connector(), &info(), true, &config, None, true);
    assert!(plan.lease.is_none());
    assert_eq!(plan.init.mode_type, DRM_MODE_TYPE_PREFERRED);
    assert_eq!(plan.switch_to.unwrap().vrefresh, 75);
    assert_eq!(plan.current.vrefresh, 75);
    assert!(!plan.overlay_planes);
    assert_eq!(plan.max_bpc, 8);
    assert_eq!(d.non_desktop_connectors, vec![(32, 42)]);

    // Without a match the computed mode is used.
    let custom = mode(800, 600, 61);
    let config = OutputConfig { mode: Some((800, 600, None)), ..OutputConfig::default() };
    let plan = d.add_connector(43, &connector(), &info(), false, &config, Some(custom), false);
    assert!(plan.switch_to.unwrap().same(&custom));
    assert_eq!(plan.lease.unwrap().connector, 30);
    assert!(plan.overlay_planes);
    assert_eq!(d.non_desktop_connectors, vec![(32, 42), (30, 43)]);

    // Without a wish the default mode stays.
    let plan =
        d.add_connector(43, &connector(), &info(), true, &OutputConfig::default(), None, false);
    assert!(plan.switch_to.is_none());
    assert!(plan.current.same(&plan.init));
}

#[test]
fn connecting_connectors() {
    let mut d = device();
    match d.connector_connected(
        43,
        &connector(),
        &info(),
        true,
        &OutputConfig::default(),
        None,
        false,
    ) {
        Connected::NonDesktop(Some(offer)) => assert_eq!(offer.name, "HDMI-A-12"),
        other => panic!("unexpected {other:?}"),
    }
    assert_eq!(d.non_desktop_connectors, vec![(32, 42), (30, 43)]);
    let custom = mode(1920, 1080, 61);
    let config = OutputConfig { mode: Some((1920, 1080, None)), ..OutputConfig::default() };
    match d.connector_connected(43, &connector(), &info(), false, &config, Some(custom), true) {
        Connected::Output(plan) => {
            assert!(plan.initial.same(&custom));
            assert!(plan.custom.unwrap().same(&custom));
            assert_eq!(plan.requested.vrefresh, 75);
            assert_eq!(plan.preferred.unwrap().mode_type, DRM_MODE_TYPE_PREFERRED);
            assert!(!plan.overlay_planes);
        }
        other => panic!("unexpected {other:?}"),
    }
    // The computed mode only counts where one is asked for.
    let none = OutputConfig::default();
    match d.connector_connected(43, &connector(), &info(), false, &none, Some(custom), true) {
        Connected::Output(plan) => {
            assert!(plan.custom.is_none());
            assert_eq!(plan.initial.mode_type, DRM_MODE_TYPE_PREFERRED);
        }
        other => panic!("unexpected {other:?}"),
    }
}

#[test]
fn modes_are_tried_in_order() {
    let (a, b) = (mode(1, 1, 1), mode(2, 2, 2));
    let first = ModeAttempt::first(Some(a), b);
    assert!(matches!(first, ModeAttempt::Custom(m) if m.same(&a)));
    assert!(matches!(first.outcome(true, b), ModeOutcome::Applied(m) if m.same(&a)));
    let retry = match first.outcome(false, b) {
        ModeOutcome::Retry(next) => next,
        other => panic!("unexpected {other:?}"),
    };
    assert!(retry.mode().same(&b));
    assert!(matches!(retry.outcome(true, b), ModeOutcome::Applied(m) if m.same(&b)));
    assert!(matches!(retry.outcome(false, b), ModeOutcome::Failed));
    assert!(matches!(ModeAttempt::first(None, b), ModeAttempt::Requested(_)));
}

#[test]
fn variable_refresh_rate() {
    assert!(vrr_supported(Some(VrrSupport::Supported)));
    assert!(vrr_supported(Some(VrrSupport::RequiresModeset)));
    assert!(!vrr_supported(Some(VrrSupport::NotSupported)));
    assert!(!vrr_supported(None));
    assert_eq!(initial_vrr(VrrMode::On, Some(VrrSupport::Supported)), Some(true));
    assert_eq!(initial_vrr(VrrMode::OnDemand, Some(VrrSupport::Supported)), Some(false));
    assert_eq!(initial_vrr(VrrMode::On, None), None);
    assert_eq!(reported_vrr(Some(VrrSupport::Supported), true), Some(VrrMode::On));
    assert_eq!(reported_vrr(Some(VrrSupport::Supported), false), Some(VrrMode::Off));
    assert_eq!(reported_vrr(Some(VrrSupport::NotSupported), true), None);
    assert!(vrr_unavailable(VrrMode::OnDemand, None));
    assert!(!vrr_unavailable(VrrMode::Off, None));
    assert!(vrr_changed(VrrMode::On, false) && vrr_changed(VrrMode::Off, true));
    assert!(!vrr_changed(VrrMode::OnDemand, false) && !vrr_changed(VrrMode::OnDemand, true));
}

#[test]
fn properties_are_found_by_name() {
    let props = [
        PropertyName::Named("a".to_string()),
        PropertyName::Garbled,
        PropertyName::Named("b".to_string()),
        PropertyName::Unreadable,
        PropertyName::Named("c".to_string()),
    ];
    assert_eq!(get_property_val(&props, &"b".to_string()), Ok(2));
    assert_eq!(get_property_val(&props, &"c".to_string()), Err(PropertyError::Unreadable));
    assert_eq!(get_property_val(&props[..3], &"c".to_string()), Err(PropertyError::NotFound));
}

#[test]
fn nvidia_is_recognized() {
    assert!(is_nvidia(Some(("NVIDIA-drm", "something"))));
    assert!(is_nvidia(Some(("x", "driver of nVidia cards"))));
    assert!(!is_nvidia(Some(("i915", "Intel Graphics"))));
    assert!(!is_nvidia(None));
    assert!(mentions_nvidia("", "nvidia"));
    assert!(!mentions_nvidia("NVIDIA", "NVIDIA"));
    assert!(is_desktop_connector(None));
    assert!(!is_desktop_connector(Some(true)));
    assert!(is_desktop_connector(Some(false)));
}

fn bpc(name: &str, range: Option<(u64, u64)>, value: Option<u64>) -> BpcProperty {
    BpcProperty { handle: 3, name: PropertyName::Named(name.to_string()), range, value }
}

#[test]
fn max_bpc_is_clamped() {
    let other = || bpc("other", None, None);
    let wide = || bpc("max bpc", Some((6, 12)), Some(12));
    assert_eq!(set_max_bpc(&[other(), wide()], 8), (vec![(3, 8)], Ok(())));
    let high = bpc("max bpc", Some((10, 12)), Some(12));
    assert_eq!(set_max_bpc(&[high], 8), (vec![(3, 10)], Ok(())));
    let low = bpc("max bpc", Some((4, 6)), Some(4));
    assert_eq!(set_max_bpc(&[low], 8), (vec![(3, 6)], Ok(())));
    let set = bpc("max bpc", Some((6, 12)), Some(8));
    assert_eq!(set_max_bpc(&[set, wide()], 8), (vec![], Ok(())));
    assert_eq!(set_max_bpc(&[other()], 8), (vec![], Ok(())));
    let untyped = bpc("max bpc", None, Some(8));
    assert_eq!(set_max_bpc(&[untyped], 8), (vec![], Err(BpcError::WrongValueType)));
    let signed = bpc("max bpc", Some((6, 12)), None);
    assert_eq!(set_max_bpc(&[signed], 8), (vec![], Err(BpcError::WrongPropertyType)));
    let unreadable =
        BpcProperty { handle: 1, name: PropertyName::Unreadable, range: None, value: None };
    // What was set before the error stays set.
    assert_eq!(set_max_bpc(&[wide(), unreadable], 8), (vec![(3, 8)], Err(BpcError::Unreadable)));
}

#[test]
fn formats() {
    assert_eq!(color_formats(true), vec![Fourcc::Abgr8888, Fourcc::Argb8888]);
    assert_eq!(color_formats(false).len(), 4);
    let f = |code, modifier| DrmFormat { code, modifier };
    let planes = [f(1, 0), f(2, 0), f(1, 0), f(3, 0), f(4, 1)];
    let formats = scanout_formats(&planes, &[f(1, 0), f(4, 0)], &[f(3, 0), f(9, 9)]);
    assert_eq!(formats, vec![f(1, 0), f(3, 0)]);
}

#[test]
fn cleanup_without_atomic_modesetting() {
    let crtcs = [
        CrtcState { handle: 40, mode_id: Some(1), active: Some(2) },
        CrtcState { handle: 41, mode_id: Some(1), active: Some(2) },
    ];
    let kept = ScannedConnector {
        handle: 30,
        crtc: Some(40),
        encoder: CurrentEncoder::Crtc(Some(40)),
        should_be_off: false,
        crtc_id: Some(20),
    };
    match cleanup_mismatching_resources(false, &crtcs, &[kept], &[]) {
        CleanupPlan::Legacy { cursors, disable } => {
            assert_eq!(cursors, vec![40, 41]);
            assert_eq!(disable, vec![41]);
        }
        other => panic!("unexpected {other:?}"),
    }
}

#[test]
fn cleanup_with_atomic_modesetting() {
    let crtcs = [
        CrtcState { handle: 40, mode_id: Some(1), active: Some(2) },
        CrtcState { handle: 41, mode_id: Some(1), active: Some(2) },
        CrtcState { handle: 42, mode_id: None, active: Some(2) },
    ];
    let base = ScannedConnector {
        handle: 30,
        crtc: Some(40),
        encoder: CurrentEncoder::Absent,
        should_be_off: false,
        crtc_id: Some(20),
    };
    let connectors = [
        base,
        ScannedConnector { handle: 31, crtc: Some(41), encoder: CurrentEncoder::Crtc(Some(42)), ..base },
        ScannedConnector { handle: 32, crtc: Some(41), encoder: CurrentEncoder::Unreadable, ..base },
        ScannedConnector { handle: 33, crtc: Some(41), should_be_off: true, crtc_id: None, ..base },
        ScannedConnector { handle: 34, crtc: None, ..base },
    ];
    assert!(connectors[0].kept());
    assert!(!connectors[1].kept() && !connectors[2].kept() && !connectors[3].kept());
    let plane = PlaneState {
        handle: 50,
        crtc: Some(40),
        primary: true,
        crtc_id: Some(5),
        fb_id: Some(6),
    };
    let planes = [
        plane,
        PlaneState { handle: 51, primary: false, ..plane },
        PlaneState { handle: 52, crtc: Some(41), ..plane },
        PlaneState { handle: 53, crtc: None, ..plane },
        PlaneState { handle: 54, primary: false, fb_id: None, ..plane },
    ];
    let reset = |object, property, value| PropertyReset { object, property, value };
    match cleanup_mismatching_resources(true, &crtcs, &connectors, &planes) {
        CleanupPlan::Atomic(resets) => assert_eq!(
            resets,
            vec![
                reset(31, 20, ResetValue::NoCrtc),
                reset(32, 20, ResetValue::NoCrtc),
                reset(34, 20, ResetValue::NoCrtc),
                reset(51, 5, ResetValue::NoCrtc),
                reset(51, 6, ResetValue::NoFramebuffer),
                reset(52, 5, ResetValue::NoCrtc),
                reset(52, 6, ResetValue::NoFramebuffer),
                reset(41, 1, ResetValue::NoMode),
                reset(41, 2, ResetValue::Inactive),
            ]
        ),
        other => panic!("unexpected {other:?}"),
    }
}

#[test]
fn debug_highlights() {
    let r = |x| Rectangle::new(x, 0, 10, 10);
    let mut elements = vec![FrameElement::Content(1)];
    draw_damage(&mut elements, &[r(1), r(2)]);
    assert_eq!(
        elements,
        vec![FrameElement::Damage(r(2)), FrameElement::Damage(r(1)), FrameElement::Content(1)]
    );
    let mut elements = vec![FrameElement::Content(1), FrameElement::Content(2)];
    let regions = [
        ElementRegions {
            extra_damage: false,
            geometry: Rectangle::new(100, 0, 30, 10),
            opaque: vec![r(1), r(2)],
        },
        ElementRegions { extra_damage: true, geometry: r(4), opaque: vec![r(4)] },
    ];
    draw_opaque_regions(&mut elements, &regions, |geometry, opaque| {
        assert_eq!(geometry, Rectangle::new(100, 0, 30, 10));
        assert_eq!(*opaque, vec![r(101), r(102)]);
        vec![r(112)]
    });
    assert_eq!(
        elements,
        vec![
            FrameElement::OpaqueRegion(r(101)),
            FrameElement::OpaqueRegion(r(102)),
            FrameElement::Semitransparent(r(112)),
            FrameElement::Content(1),
            FrameElement::Content(2),
        ]
    );
    assert_eq!(
        opaque_regions(Point { x: 5, y: 7 }, &[r(1)]),
        vec![Rectangle::new(6, 7, 10, 10)]
    );
}

#[test]
fn output_configuration_is_looked_up() {
    let off = OutputConfig { disable: true, ..OutputConfig::default() };
    let mut outputs = OutputsConfig { entries: vec![("DP-1".to_string(), off)] };
    assert!(outputs.get(&"DP-1".to_string()).disable);
    assert!(!outputs.get(&"DP-2".to_string()).disable);
    assert!(outputs.contains(&"DP-1".to_string()));
    assert!(!outputs.contains(&"DP-2".to_string()));
    let same = OutputsConfig { entries: vec![("DP-1".to_string(), off)] };
    assert!(!outputs.apply_configuration(same));
    let on = OutputsConfig { entries: vec![("DP-1".to_string(), OutputConfig::default())] };
    assert!(outputs.apply_configuration(on));
    assert!(!outputs.get(&"DP-1".to_string()).disable);
    assert!(outputs.apply_configuration(OutputsConfig { entries: vec![] }));
    assert!(!outputs.contains(&"DP-1".to_string()));
}
