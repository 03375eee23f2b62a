use fht_compositor::backend::headless::HeadlessData;
use fht_compositor::backend::udev::cleanup::{
    CleanupPlan, ConnectorState, CrtcState, CurrentEncoder, DeviceState, PropertyReset, ResetValue,
};
use fht_compositor::backend::udev::connector::{
    Connected, ConnectorInfo, ConnectorSubPixel, DisplayInfo, ModeAttempt, ModeOutcome,
};
use fht_compositor::backend::udev::device::{
    ClaimedPlanes, DrmScanEvent, LeaseRejected, RemovedConnector, Surface,
};
use fht_compositor::backend::udev::mode::Mode;
use fht_compositor::backend::udev::reload::{
    surface_reload, ScannedInfo, SetModeError, SurfaceReload, SurfaceStatus,
};
use fht_compositor::backend::udev::{
    DeviceAdded, DrmErrorKind, GammaError, NoMatchingOutput, PrimarySource, RenderError,
    RendererChoice, SwapBuffersError, UdevData,
};
use fht_compositor::backend::winit::{DmabufVersion, WinitAction, WinitData, WinitEvent};
use fht_compositor::backend::x11::{X11Action, X11Data, X11Event, X11RenderError};
use fht_compositor::backend::{Backend, BackendFrame, BackendRenderer, OutputMode};
use fht_compositor::config::keybind::Fraction;
use fht_compositor::config::output::{OutputConfig, OutputTransform, OutputsConfig, VrrMode};
use fht_compositor::frame_clock::FrameClock;
use fht_compositor::output::{AfterRender, FrameOutcome, OutputState, RedrawState};
use fht_compositor::state::Fht;
use fht_compositor::time::Duration;

fn ms(n: u64) -> Duration {
    Duration::from_millis(n)
}

fn queued(animations_running: bool) -> OutputState {
    let mut s = OutputState::new(FrameClock::new(Some(ms(10)), false));
    s.redraw_state = RedrawState::Queued;
    s.animations_running = animations_running;
    s
}

fn mode(w: u16, h: u16, vrefresh: u32) -> Mode {
    Mode {
        clock: 148_500,
        hdisplay: w,
        hsync_start: w,
        hsync_end: w,
        htotal: 2200,
        hskew: 0,
        vdisplay: h,
        vsync_start: h,
        vsync_end: h,
        vtotal: 1125,
        vscan: 0,
        vrefresh,
        flags: 0,
        mode_type: 0,
        name: [0; 32],
    }
}

fn connector(handle: u32, interface_id: u32) -> ConnectorInfo {
    ConnectorInfo {
        handle,
        interface: "DP".to_string(),
        interface_id,
        connected: true,
        modes: vec![mode(1920, 1080, 60), mode(1920, 1080, 75)],
        size: None,
        subpixel: ConnectorSubPixel::Unknown,
    }
}

fn udev() -> UdevData {
    let mut data = UdevData::new(PrimarySource::Seat { primary: 5, render: Some(1) });
    data.device_added(true, 5, Some(1), true, 9, true);
    data.device_added(true, 6, None, false, 8, true);
    data.devices[0].insert_surface(Surface { crtc: 40, connector: 30, output: 100, render_node: 1 });
    data.devices[1].insert_surface(Surface { crtc: 40, connector: 31, output: 101, render_node: 6 });
    data
}

#[test]
fn headless_backend() {
    let (mut data, output) = HeadlessData::new(3);
    assert_eq!(output.name, "headless-0");
    assert_eq!(output.make, "fht-compositor");
    assert_eq!(output.model, "headless-output");
    assert_eq!(output.mode, OutputMode { width: 1920, height: 1080, refresh: 60_000 });
    assert_eq!(output.transform, Some(OutputTransform::Normal));
    assert_eq!(output.location, Some((0, 0)));
    let mut s = queued(true);
    assert!(data.render(&mut s));
    assert_eq!(s.redraw_state, RedrawState::Queued);
    assert_eq!(s.current_frame_sequence, 1);
    let mut s = queued(false);
    assert!(data.render(&mut s));
    assert_eq!(s.redraw_state, RedrawState::Idle);
}

#[test]
fn winit_backend() {
    let (mut data, output) = WinitData::new(3, 800, 640);
    assert_eq!(output.name, "winit-0");
    assert_eq!(output.transform, Some(OutputTransform::Flipped180));
    let old = OutputMode { width: 800, height: 640, refresh: 60_000 };
    let new = OutputMode { width: 1000, height: 700, refresh: 60_000 };
    let scale = Fraction { bits: 1.25f64.to_bits() };
    assert_eq!(
        data.handle_event(WinitEvent::Resized { width: 1000, height: 700, scale }),
        WinitAction::ChangeMode { old, new, scale }
    );
    assert_eq!(data.mode, new);
    assert_eq!(data.handle_event(WinitEvent::Input), WinitAction::ProcessInput);
    assert_eq!(data.handle_event(WinitEvent::CloseRequested), WinitAction::Stop);
    assert_eq!(data.handle_event(WinitEvent::Redraw), WinitAction::QueueRedraw(3));
    assert_eq!(data.handle_event(WinitEvent::Focus), WinitAction::Nothing);
    let mut s = queued(true);
    assert_eq!(data.render(&mut s, None), Err(RenderError::BindFailed));
    assert_eq!(s.redraw_state, RedrawState::Queued);
    let frame = data.render(&mut s, Some(false)).unwrap();
    assert!(!frame.drawn && !frame.submit && frame.request_redraw);
    assert_eq!(s.redraw_state, RedrawState::Idle);
    assert_eq!(WinitData::dmabuf_version(Some(4)), DmabufVersion::Feedback(4));
    assert_eq!(WinitData::dmabuf_version(None), DmabufVersion::Formats);
}

#[test]
fn x11_backend() {
    let mut fht = Fht::new(0);
    let (mut data, a, b) = X11Data::new(&mut fht, (1, 10), (2, 11), 680, 480);
    assert_eq!(a.name, "X11-0");
    assert_eq!(b.name, "X11-1");
    assert_eq!(data.next_title(), "fht-compositor (X11-2)");
    let mut more = X11Data { surfaces: vec![] };
    assert_eq!(more.next_title(), "fht-compositor (X11-0)");
    assert_eq!(more.new_surface(&mut fht, 1, 12, 700, 480).name, "X11-0");
    let old = OutputMode { width: 680, height: 480, refresh: 60_000 };
    // The last window has the focus, and each output waits to be drawn.
    assert_eq!(fht.active_output, 12);
    let ids: Vec<u64> = fht.outputs.iter().map(|entry| entry.id).collect();
    assert_eq!(ids, vec![10, 11, 12]);
    assert_eq!(fht.outputs[0].mode, Some(old));
    assert_eq!(fht.outputs[2].mode, Some(OutputMode { width: 700, ..old }));
    assert!(fht.outputs.iter().all(|entry| entry.state.redraw_state == RedrawState::Queued));
    let new = OutputMode { width: 700, height: 500, refresh: 60_000 };
    assert_eq!(
        data.handle_event(X11Event::Resized { window: 2, width: 700, height: 500 }),
        X11Action::ChangeMode { output: 11, old, new }
    );
    assert_eq!(data.handle_event(X11Event::Refresh { window: 1 }), X11Action::QueueRedraw(10));
    assert_eq!(
        data.handle_event(X11Event::PresentCompleted { window: 2 }),
        X11Action::QueueRedraw(11)
    );
    assert_eq!(
        data.handle_event(X11Event::Input { window: Some(1) }),
        X11Action::ProcessInput { focus: Some(10) }
    );
    assert_eq!(
        data.handle_event(X11Event::Input { window: None }),
        X11Action::ProcessInput { focus: None }
    );
    assert_eq!(
        data.handle_event(X11Event::Focus { window: 2, focused: true }),
        X11Action::FocusOutput(11)
    );
    assert_eq!(
        data.handle_event(X11Event::Focus { window: 9, focused: false }),
        X11Action::Nothing
    );
    let mut s = queued(false);
    assert_eq!(data.render(11, &mut s, Some(true)), Ok(true));
    assert_eq!(s.redraw_state, RedrawState::Queued);
    assert_eq!(data.render(11, &mut s, Some(false)), Ok(false));
    assert_eq!(s.redraw_state, RedrawState::Idle);
    let mut s = queued(false);
    assert_eq!(data.render(12, &mut s, Some(true)), Err(X11RenderError::NonExistingSurface));
    assert_eq!(data.render(11, &mut s, None), Err(X11RenderError::RenderFailed));
    assert_eq!(s.redraw_state, RedrawState::Queued);
    assert_eq!(
        data.handle_event(X11Event::CloseRequested { window: 1 }),
        X11Action::RemoveOutput { window: 1, output: 10 }
    );
    fht.remove_output(10);
    let ids: Vec<u64> = fht.outputs.iter().map(|entry| entry.id).collect();
    assert_eq!(ids, vec![11, 12]);
    assert_eq!(data.surfaces.len(), 1);
}

#[test]
fn primary_gpu_is_selected() {
    let d = UdevData::new(PrimarySource::Configured { render: 1, primary: Some(2) });
    assert_eq!((d.primary_gpu, d.primary_node), (1, 2));
    let d = UdevData::new(PrimarySource::Configured { render: 1, primary: None });
    assert_eq!((d.primary_gpu, d.primary_node), (1, 1));
    let d = UdevData::new(PrimarySource::Seat { primary: 2, render: None });
    assert_eq!((d.primary_gpu, d.primary_node), (2, 2));
}

#[test]
fn devices_come_and_go() {
    let mut d = UdevData::new(PrimarySource::Seat { primary: 5, render: Some(1) });
    assert_eq!(d.device_added(false, 5, None, true, 0, true), None);
    assert_eq!(
        d.device_added(true, 5, None, true, 7, true),
        Some(DeviceAdded { primary: true, enable_syncobj: true })
    );
    assert!(d.dmabuf_global && d.syncobj_state);
    assert_eq!(d.devices[0].render_node, 5);
    assert_eq!(
        d.device_added(true, 6, Some(2), true, 8, true),
        Some(DeviceAdded { primary: false, enable_syncobj: false })
    );
    assert_eq!(d.device_index(6), Some(1));
    assert!(d.device_changed(false, 6, &[]).is_none());
    assert!(d.device_changed(true, 77, &[]).is_none());
    let removed =
        d.device_changed(true, 6, &[DrmScanEvent::Connected { connector: 3, crtc: Some(4) }]);
    assert_eq!(removed, Some(vec![]));
    assert_eq!(d.devices[1].known_crtcs, vec![(3, 4)]);
    assert!(d.device_removed(false, 6, &[]).is_none());
    let removal = d.device_removed(true, 6, &[(3, 4)]).unwrap();
    assert_eq!(removal.connectors, vec![RemovedConnector::Missing]);
    assert_eq!(removal.registration_token, 8);
    assert!(d.device_removed(true, 6, &[]).is_none());
    assert_eq!(d.devices.len(), 1);
}

#[test]
fn connectors_of_devices() {
    let mut d = udev();
    let info = DisplayInfo { make: None, model: None, serial: None };
    let config = OutputConfig::default();
    let c = connector(33, 1);
    let r = d.connector_connected(77, &c, 1, &info, false, &config, None, false);
    assert!(matches!(r, Connected::UnknownDevice));
    let r = d.connector_connected(6, &c, 41, &info, true, &config, None, false);
    assert!(matches!(r, Connected::NonDesktop(None)));
    assert_eq!(d.devices[1].non_desktop_connectors, vec![(33, 41)]);
    let r = d.connector_connected(5, &c, 41, &info, false, &config, None, false);
    assert!(matches!(r, Connected::Output(_)));
    assert_eq!(
        d.connector_disconnected(6, 33, 41),
        Some(RemovedConnector::NonDesktop { withdraw: false })
    );
    assert!(matches!(
        d.connector_disconnected(5, 30, 40),
        Some(RemovedConnector::Surface(_))
    ));
    assert_eq!(d.connector_disconnected(7, 30, 40), None);
}

#[test]
fn render_targets() {
    let d = udev();
    assert_eq!(d.render_target(5, 40, true), Ok(Some(RendererChoice::Single(1))));
    assert_eq!(
        d.render_target(6, 40, true),
        Ok(Some(RendererChoice::Copy { render: 1, target: 6 }))
    );
    assert_eq!(d.render_target(6, 41, true), Ok(None));
    assert_eq!(d.render_target(6, 40, false), Err(RenderError::DeviceInactive));
    assert_eq!(d.on_vblank(5, 40).unwrap().output, 100);
    assert!(d.on_vblank(5, 41).is_none());
    assert!(d.on_vblank(7, 40).is_none());
}

#[test]
fn rendering_errors() {
    let d = udev();
    let render = |err| {
        let mut s = queued(false);
        let r = d.render(&mut s, Err(err), ms(20), ms(10));
        (r.map(|r| r.reset_device), s.redraw_state)
    };
    let temporary = SwapBuffersError::TemporaryFailure;
    assert_eq!(
        render(SwapBuffersError::AlreadySwapped),
        (Err(RenderError::AlreadySwapped), RedrawState::Queued)
    );
    assert_eq!(render(temporary(DrmErrorKind::DeviceInactive)), (Ok(false), RedrawState::Idle));
    assert_eq!(render(temporary(DrmErrorKind::Access)), (Ok(false), RedrawState::Idle));
    assert_eq!(
        render(temporary(DrmErrorKind::PermissionDenied)),
        (Err(RenderError::TemporaryFailure), RedrawState::Queued)
    );
    assert_eq!(
        render(temporary(DrmErrorKind::Other)),
        (Err(RenderError::TemporaryFailure), RedrawState::Queued)
    );
    assert_eq!(
        render(SwapBuffersError::ContextLost(DrmErrorKind::TestFailed)),
        (Ok(true), RedrawState::Idle)
    );
    let mut s = queued(false);
    let r = d.render(&mut s, Ok(FrameOutcome::Submitted), ms(20), ms(10)).unwrap();
    assert!(!r.reset_device);
    assert!(matches!(r.after, AfterRender::WaitForVblank { cancel: None }));
}

#[test]
fn gamma_ramps() {
    let d = udev();
    let place = Some((5, 40));
    assert_eq!(d.gamma_size(place, Some(256)), Ok(256));
    assert_eq!(d.gamma_size(None, Some(256)), Err(GammaError::InvalidOutput));
    assert_eq!(d.gamma_size(Some((9, 40)), Some(256)), Err(GammaError::DeviceNotFound));
    assert_eq!(d.gamma_size(Some((5, 44)), Some(256)), Err(GammaError::SurfaceNotFound));
    assert_eq!(d.gamma_size(place, None), Err(GammaError::Unavailable));
    let ramp = vec![1u16, 2];
    assert_eq!(
        d.set_gamma(place, Some(2), ramp.clone(), vec![3, 4], vec![5, 6]),
        Ok((vec![1, 2], vec![3, 4], vec![5, 6]))
    );
    assert_eq!(
        d.set_gamma(place, Some(3), ramp, vec![], vec![]),
        Err(GammaError::SizeMismatch { expected: 3, got: 2 })
    );
    assert_eq!(d.lease_request(9, &[], &[]), Err(LeaseRejected));
    assert_eq!(d.lease_request(5, &[], &[]), Ok(vec![]));
    assert_eq!(d.lease_request(5, &[30], &[ClaimedPlanes::Failed]), Err(LeaseRejected));
}

#[test]
fn outputs_are_found() {
    let d = udev();
    assert_eq!(d.find_output(101), Some((1, 0)));
    assert_eq!(d.find_output(55), None);
    assert_eq!(d.vrr_enabled(100, true), Ok(true));
    assert_eq!(d.vrr_enabled(55, true), Err(NoMatchingOutput));
    let mut s = queued(false);
    s.frame_clock.present(ms(100));
    assert!(!d.update_output_vrr(55, &mut s, true));
    assert_eq!(s.frame_clock.next_presentation_time(ms(101)), ms(110));
    assert!(d.update_output_vrr(100, &mut s, true));
    assert_eq!(s.frame_clock.next_presentation_time(ms(101)), ms(101));
}

fn status(pending: Mode, vrr_enabled: bool) -> SurfaceStatus {
    SurfaceStatus {
        node: 5,
        crtc: 40,
        name: "DP-1".to_string(),
        renderer: true,
        custom: None,
        pending,
        vrr_enabled,
    }
}

#[test]
fn surfaces_follow_the_configuration() {
    let c = connector(30, 1);
    let config = OutputConfig { mode: Some((1920, 1080, None)), ..OutputConfig::default() };
    let m60 = mode(1920, 1080, 60);
    let m75 = mode(1920, 1080, 75);
    let reload = |s: &SurfaceStatus, c: Option<&ConnectorInfo>, o: &OutputConfig, force| {
        surface_reload(c, s, o, force)
    };
    // The mode is as it should be.
    let s = status(m75, false);
    assert!(matches!(reload(&s, Some(&c), &config, false), SurfaceReload::Keep));
    assert!(matches!(reload(&s, Some(&c), &config, true), SurfaceReload::Apply { .. }));
    // The mode differs.
    match reload(&status(m60, false), Some(&c), &config, false) {
        SurfaceReload::Apply { custom: None, requested } => assert!(requested.same(&m75)),
        other => panic!("unexpected {other:?}"),
    }
    // Variable refresh rate differs.
    assert!(matches!(
        reload(&status(m75, true), Some(&c), &config, false),
        SurfaceReload::Apply { .. }
    ));
    let on_demand = OutputConfig { vrr: VrrMode::OnDemand, ..config };
    assert!(matches!(
        reload(&status(m75, true), Some(&c), &on_demand, false),
        SurfaceReload::Keep
    ));
    // A computed mode comes first.
    let mut s = status(m75, false);
    s.custom = Some(m60);
    assert!(matches!(
        reload(&s, Some(&c), &config, false),
        SurfaceReload::Apply { custom: Some(_), .. }
    ));
    let off = OutputConfig { disable: true, ..config };
    assert!(matches!(reload(&s, Some(&c), &off, false), SurfaceReload::Disable));
    assert!(matches!(reload(&s, None, &off, false), SurfaceReload::Skip));
    s.renderer = false;
    assert!(matches!(reload(&s, Some(&c), &off, false), SurfaceReload::Skip));
}

#[test]
fn reloading_enables_and_disables_outputs() {
    let d = udev();
    let off = OutputConfig { disable: true, ..OutputConfig::default() };
    let outputs =
        OutputsConfig { entries: vec![("DP-1".to_string(), off), ("DP-9".to_string(), off)] };
    let mut unplugged = connector(36, 6);
    unplugged.connected = false;
    let scans = vec![
        vec![
            ScannedInfo { info: connector(30, 1), crtc: Some(40) },
            ScannedInfo { info: connector(34, 4), crtc: Some(44) },
            ScannedInfo { info: connector(35, 9), crtc: Some(45) },
            ScannedInfo { info: unplugged, crtc: Some(46) },
            ScannedInfo { info: connector(37, 7), crtc: None },
        ],
        vec![],
    ];
    let statuses = vec![
        SurfaceStatus { node: 6, ..status(mode(1920, 1080, 60), false) },
        status(mode(1920, 1080, 60), false),
    ];
    let reloads = d.reload_output_configuration(&scans, &statuses, &outputs, false);
    assert_eq!(reloads.len(), 2);
    assert!(matches!(reloads[0].surfaces[0], SurfaceReload::Disable));
    assert_eq!(reloads[0].disable, vec![(30, 40)]);
    assert_eq!(reloads[0].enable, vec![(34, 44)]);
    assert!(matches!(reloads[1].surfaces[0], SurfaceReload::Skip));
    assert!(reloads[1].enable.is_empty());
    assert!(d.devices[0].is_non_desktop(1, 1) == false);
}

#[test]
fn new_connectors_are_brought_up() {
    let mut d = udev();
    let off = OutputConfig { disable: true, ..OutputConfig::default() };
    let outputs = OutputsConfig { entries: vec![("DP-9".to_string(), off)] };
    let statuses = vec![
        status(mode(1920, 1080, 60), false),
        SurfaceStatus { node: 6, ..status(mode(1920, 1080, 60), false) },
    ];
    let scans = vec![
        vec![
            ScannedInfo { info: connector(30, 1), crtc: Some(40) },
            ScannedInfo { info: connector(34, 4), crtc: Some(44) },
            ScannedInfo { info: connector(35, 9), crtc: Some(45) },
        ],
        vec![],
    ];
    let events = [
        DrmScanEvent::Connected { connector: 34, crtc: Some(44) },
        DrmScanEvent::Connected { connector: 35, crtc: Some(45) },
    ];
    assert!(d.update_device(false, 5, &events, None, &scans, &statuses, &outputs).is_none());
    assert!(d.update_device(true, 77, &events, None, &scans, &statuses, &outputs).is_none());
    let change =
        d.update_device(true, 5, &events, None, &scans, &statuses, &outputs).unwrap();
    assert!(change.removed.is_empty() && change.cleanup.is_none());
    assert_eq!(change.reloads[0].enable, vec![(34, 44)]);
    assert!(change.reloads[0].disable.is_empty() && change.reloads[1].enable.is_empty());
    assert!(d.devices[0].known_crtcs.contains(&(34, 44)));

    // Its output is shown, and drawn soon.
    let mut fht = Fht::new(100);
    let surface = Surface { output: 104, connector: 34, crtc: 44, render_node: 1 };
    d.output_connected(&mut fht, 5, surface, mode(1920, 1080, 60), ms(16), true);
    assert_eq!(d.find_output(104), Some((0, 1)));
    assert_eq!(fht.outputs[0].id, 104);
    assert_eq!(
        fht.outputs[0].mode,
        Some(OutputMode { width: 1920, height: 1080, refresh: 60_000 })
    );
    assert_eq!(fht.outputs[0].state.redraw_state, RedrawState::Queued);
    assert_eq!(fht.outputs[0].state.frame_clock.refresh_interval(), Some(ms(16)));

    // It is unplugged again, and a cleanup is asked for.
    let state = DeviceState {
        atomic: false,
        crtcs: vec![
            CrtcState { handle: 40, mode_id: None, active: None },
            CrtcState { handle: 45, mode_id: None, active: None },
        ],
        connectors: vec![
            ConnectorState { encoder: CurrentEncoder::Crtc(Some(40)), crtc_id: None },
            ConnectorState { encoder: CurrentEncoder::Crtc(Some(45)), crtc_id: None },
        ],
        planes: vec![],
    };
    let scans = vec![
        vec![
            ScannedInfo { info: connector(30, 1), crtc: Some(40) },
            ScannedInfo { info: connector(35, 9), crtc: Some(45) },
        ],
        vec![],
    ];
    let events = [DrmScanEvent::Disconnected { connector: 34, crtc: Some(44) }];
    let change =
        d.update_device(true, 5, &events, Some(&state), &scans, &statuses, &outputs).unwrap();
    assert!(matches!(change.removed[0], RemovedConnector::Surface(s) if s.output == 104));
    assert!(change.reloads[0].enable.is_empty());
    // The CRTC of the output that is turned off goes, the other one stays.
    match change.cleanup {
        Some(CleanupPlan::Legacy { cursors, disable }) => {
            assert_eq!(cursors, vec![40, 45]);
            assert_eq!(disable, vec![45]);
        }
        other => panic!("unexpected {other:?}"),
    }
    assert_eq!(d.find_output(104), None);
}

#[test]
fn devices_are_plugged_in() {
    let mut d = UdevData::new(PrimarySource::Seat { primary: 5, render: Some(1) });
    let off = OutputConfig { disable: true, ..OutputConfig::default() };
    let outputs = OutputsConfig { entries: vec![("DP-2".to_string(), off)] };
    let state = DeviceState {
        atomic: true,
        crtcs: vec![],
        connectors: vec![
            ConnectorState { encoder: CurrentEncoder::Crtc(Some(40)), crtc_id: Some(3) },
            ConnectorState { encoder: CurrentEncoder::Absent, crtc_id: Some(4) },
        ],
        planes: vec![],
    };
    let scans = vec![vec![
        ScannedInfo { info: connector(30, 1), crtc: Some(40) },
        ScannedInfo { info: connector(31, 2), crtc: Some(41) },
    ]];
    let events = [
        DrmScanEvent::Connected { connector: 30, crtc: Some(40) },
        DrmScanEvent::Connected { connector: 31, crtc: Some(41) },
    ];
    let r = d.plug_in(false, 5, None, true, 7, true, &events, &state, &scans, &[], &outputs);
    assert!(r.is_none() && d.devices.is_empty());
    let (added, change) = d
        .plug_in(true, 5, None, true, 7, true, &events, &state, &scans, &[], &outputs)
        .unwrap();
    assert_eq!(added, DeviceAdded { primary: true, enable_syncobj: true });
    assert_eq!(d.devices[0].known_crtcs, vec![(30, 40), (31, 41)]);
    // The connector that is turned off is cleared, the other one is enabled.
    match change.cleanup {
        Some(CleanupPlan::Atomic(resets)) => assert_eq!(
            resets,
            vec![PropertyReset { object: 31, property: 4, value: ResetValue::NoCrtc }]
        ),
        other => panic!("unexpected {other:?}"),
    }
    assert_eq!(change.reloads.len(), 1);
    assert_eq!(change.reloads[0].enable, vec![(30, 40)]);
}

#[test]
fn sessions_are_paused_and_resumed() {
    let mut d = udev();
    d.new_active_lease(5, 7);
    d.new_active_lease(6, 8);
    assert_eq!(d.pause_session(), vec![5]);
    assert!(d.devices.iter().all(|device| device.active_leases.is_empty()));
    assert_eq!(d.find_output(100), Some((0, 0)));
    let mut fht = Fht::new(100);
    fht.add_output(100, FrameClock::new(None, false), None);
    fht.outputs[0].state.redraw_state = RedrawState::Idle;
    assert_eq!(d.resume_session(&mut fht), (true, vec![5]));
    assert_eq!(fht.outputs[0].state.redraw_state, RedrawState::Queued);
    assert_eq!(d.resume_session(&mut fht), (false, vec![5]));
    assert_eq!(d.reset_surfaces(6), vec![40]);
    assert!(d.reset_surfaces(77).is_empty());
}

#[test]
fn accepted_modes_take_effect() {
    let mut fht = Fht::new(1);
    fht.add_output(1, FrameClock::new(Some(ms(10)), false), None);
    fht.add_output(2, FrameClock::new(None, false), None);
    fht.outputs[0].state.frame_clock.present(ms(100));
    let (custom, requested) = (mode(1280, 720, 60), mode(1920, 1080, 60));
    let attempt = ModeAttempt::Custom(custom);
    let outcome = fht.mode_attempted(1, &attempt, false, requested, ms(16), true);
    let retry = match outcome {
        ModeOutcome::Retry(retry) => retry,
        other => panic!("unexpected {other:?}"),
    };
    assert_eq!(fht.outputs[0].mode, None);
    assert_eq!(fht.outputs[0].state.frame_clock.refresh_interval(), Some(ms(10)));
    let outcome = fht.mode_attempted(1, &retry, true, requested, ms(16), true);
    assert!(matches!(outcome, ModeOutcome::Applied(m) if m.same(&requested)));
    assert_eq!(
        fht.outputs[0].mode,
        Some(OutputMode { width: 1920, height: 1080, refresh: 60_000 })
    );
    // The clock starts over: nothing was presented yet.
    let clock = &fht.outputs[0].state.frame_clock;
    assert_eq!(clock.refresh_interval(), Some(ms(16)));
    assert_eq!(clock.next_presentation_time(ms(101)), ms(101));
    assert_eq!(fht.outputs[1].mode, None);
    fht.remove_output(9);
    fht.add_output(3, FrameClock::new(None, false), None);
    fht.remove_output(3);
    assert_eq!(fht.outputs.len(), 2);
    let outcome = fht.mode_attempted(2, &retry, false, requested, ms(16), true);
    assert!(matches!(outcome, ModeOutcome::Failed));
    assert_eq!(fht.outputs[1].mode, None);
    assert_eq!(fht.outputs[1].state.frame_clock.refresh_interval(), None);
}

#[test]
fn setting_the_mode_of_an_output() {
    let d = udev();
    let scan = vec![ScannedInfo { info: connector(30, 1), crtc: Some(40) }];
    let s = status(mode(1920, 1080, 60), false);
    assert!(matches!(
        d.set_output_mode(55, &scan, (1920, 1080), 60_000, &s),
        Err(SetModeError::NoSurface)
    ));
    // Both modes have the same timings, so that the first one is the closest.
    assert!(matches!(d.set_output_mode(100, &scan, (1920, 1080), 60_000, &s), Ok(None)));
    let mut s = status(mode(1280, 720, 60), false);
    match d.set_output_mode(100, &scan, (1920, 1080), 60_000, &s) {
        Ok(Some((ModeAttempt::Requested(a), b))) => assert!(a.same(&b)),
        other => panic!("unexpected {other:?}"),
    }
    s.custom = Some(mode(640, 480, 60));
    assert!(matches!(
        d.set_output_mode(100, &scan, (1920 - 65536, 1080), 60_000, &s),
        Ok(Some((ModeAttempt::Custom(_), _)))
    ));
    s.renderer = false;
    assert!(matches!(
        d.set_output_mode(100, &scan, (1920, 1080), 60_000, &s),
        Err(SetModeError::NoRenderer)
    ));
}

#[test]
fn backends_are_told_apart() {
    let mut b = Backend::from(HeadlessData::new(1).0);
    assert_eq!(b.with_renderer(), None);
    assert_eq!(b.vrr_enabled(1, true), Ok(false));
    assert_eq!(b.gamma_size(Some((5, 40)), Some(4)), None);
    let mut s = queued(false);
    assert!(matches!(
        b.render(&mut s, Ok(FrameOutcome::Submitted), ms(2), ms(1)),
        Ok(BackendFrame::Headless { drawn: true })
    ));
    assert!(!b.update_output_vrr(1, &mut s, true));

    let mut b = Backend::from(WinitData::new(1, 800, 640).0);
    assert_eq!(b.with_renderer(), Some(BackendRenderer::Window));
    b.winit().output = 6;
    assert_eq!(b.winit().output, 6);
    let mut s = queued(false);
    assert!(matches!(
        b.render(&mut s, Ok(FrameOutcome::Submitted), ms(2), ms(1)),
        Ok(BackendFrame::Winit(f)) if f.drawn
    ));
    let st = status(mode(1, 1, 1), false);
    assert!(matches!(b.set_output_mode(1, &[], (1, 1), 1, &st), Ok(None)));

    let mut b = Backend::from(udev());
    assert_eq!(b.with_renderer(), Some(BackendRenderer::Gpu(1)));
    assert_eq!(b.udev().devices.len(), 2);
    assert_eq!(b.vrr_enabled(100, true), Ok(true));
    assert_eq!(b.gamma_size(Some((5, 40)), Some(4)), Some(4));
    assert_eq!(b.set_gamma(Some((5, 40)), Some(1), vec![1], vec![2], vec![3]).is_ok(), true);
    let mut s = queued(false);
    assert!(matches!(
        b.render(&mut s, Err(SwapBuffersError::AlreadySwapped), ms(2), ms(1)),
        Err(RenderError::AlreadySwapped)
    ));
    assert!(b.update_output_vrr(100, &mut s, true));
    assert!(matches!(
        b.set_output_mode(55, &[], (1, 1), 1, &st),
        Err(SetModeError::NoSurface)
    ));
}

#[test]
fn leases_of_devices() {
    let mut d = udev();
    d.new_active_lease(5, 7);
    d.new_active_lease(5, 8);
    d.lease_destroyed(5, 7);
    let i = d.device_index(5).unwrap();
    assert_eq!(d.devices[i].active_leases, vec![8]);
}

#[test]
fn everything_is_reset_for_another_terminal() {
    let d = udev();
    assert_eq!(d.switch_vt(), (vec![5, 6], vec![(5, 40), (6, 40)]));
    assert_eq!(d.disable_outputs(), vec![(5, 40), (6, 40)]);
}
