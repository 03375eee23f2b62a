use fht_compositor::backend::OutputMode;
use fht_compositor::ipc::{
    dispatch_command, handle_ipc_command, respond, Command, Dispatch, Handler, IpcAction, IpcCommand,
    IpcFailure, IpcReply, Response, ResponseData, Space, SpaceMonitor, SpaceOutput, SpaceWindow,
    SpaceWorkspace,
};
use fht_compositor::time::Duration;

fn window(id: u64, app_id: &str, title: &str) -> SpaceWindow {
    SpaceWindow {
        id,
        app_id: Some(app_id.to_string()),
        title: Some(title.to_string()),
        maximized: id == 2,
        fullscreen: false,
    }
}

fn output(name: &str, mode: Option<OutputMode>) -> SpaceOutput {
    SpaceOutput {
        name: name.to_string(),
        make: "ACME".to_string(),
        model: "X".to_string(),
        mode,
    }
}

fn space() -> Space {
    Space {
        outputs: vec![
            output("DP-1", Some(OutputMode { width: 1920, height: 1080, refresh: 59_940 })),
            output("DP-2", None),
        ],
        monitors: vec![
            SpaceMonitor {
                output: 1,
                output_name: "DP-1".to_string(),
                workspaces: vec![
                    SpaceWorkspace { id: 0, windows: vec![window(1, "foot", "sh")] },
                    SpaceWorkspace { id: 1, windows: vec![] },
                ],
            },
            SpaceMonitor {
                output: 2,
                output_name: "DP-2".to_string(),
                workspaces: vec![
                    SpaceWorkspace { id: 2, windows: vec![] },
                    SpaceWorkspace {
                        id: 3,
                        windows: vec![window(2, "web", "news"), window(3, "foot", "vim")],
                    },
                ],
            },
        ],
        active_workspace: 3,
        active_window: Some(3),
    }
}

fn done(r: (IpcReply, IpcAction)) -> (Result<(), String>, IpcAction) {
    match r {
        (IpcReply::Done(r), a) => (r, a),
        other => panic!("unexpected {other:?}"),
    }
}

#[test]
fn outputs_are_told() {
    match handle_ipc_command(IpcCommand::GetOutputs, &space()) {
        (IpcReply::Outputs(o), IpcAction::Nothing) => {
            assert_eq!(o.len(), 2);
            assert_eq!((o[0].name.as_str(), o[0].make.as_str(), o[0].model.as_str()), ("DP-1", "ACME", "X"));
            assert_eq!((o[0].width, o[0].height, o[0].refresh_rate), (1920, 1080, 59_940));
            assert_eq!((o[1].width, o[1].height, o[1].refresh_rate), (0, 0, 0));
            assert!(o[0].active && o[1].active);
        }
        other => panic!("unexpected {other:?}"),
    }
}

#[test]
fn workspaces_are_told() {
    match handle_ipc_command(IpcCommand::GetWorkspaces, &space()) {
        (IpcReply::Workspaces(w), IpcAction::Nothing) => {
            let names: Vec<_> = w.iter().map(|w| w.name.as_str()).collect();
            assert_eq!(names, vec!["Workspace 1", "Workspace 2", "Workspace 3", "Workspace 4"]);
            let active: Vec<_> = w.iter().map(|w| w.active).collect();
            assert_eq!(active, vec![false, false, false, true]);
            assert_eq!((w[3].id, w[3].output.as_str(), w[3].window_count), (3, "DP-2", 2));
        }
        other => panic!("unexpected {other:?}"),
    }
}

#[test]
fn windows_are_told() {
    match handle_ipc_command(IpcCommand::GetWindows, &space()) {
        (IpcReply::Windows(w), IpcAction::Nothing) => {
            assert_eq!(w.len(), 3);
            assert_eq!(w[1].app_id.as_deref(), Some("web"));
            assert_eq!(w[1].title.as_deref(), Some("news"));
            assert!(w[1].maximized && !w[0].maximized);
            assert!(w[2].focused && !w[1].focused);
            assert_eq!((w[0].workspace_id, w[2].workspace_id), (0, 3));
            assert_eq!(w[0].pid, None);
        }
        other => panic!("unexpected {other:?}"),
    }
}

fn focus(app_id: Option<&str>, title: Option<&str>) -> (Result<(), String>, IpcAction) {
    let text = |t: Option<&str>| t.map(|t| t.to_string());
    done(handle_ipc_command(
        IpcCommand::FocusWindow { app_id: text(app_id), title: text(title) },
        &space(),
    ))
}

#[test]
fn windows_are_focused() {
    let show = |output, index| (Ok(()), IpcAction::ShowWorkspace { output, index });
    assert_eq!(focus(Some("foot"), None), show(1, 0));
    assert_eq!(focus(Some("foot"), Some("vim")), show(2, 1));
    assert_eq!(focus(None, Some("news")), show(2, 1));
    assert_eq!(focus(None, None), show(1, 0));
    assert_eq!(
        focus(Some("foot"), Some("news")),
        (Err("Window not found".to_string()), IpcAction::Nothing)
    );
}

#[test]
fn windows_are_closed() {
    assert_eq!(
        done(handle_ipc_command(IpcCommand::CloseWindow, &space())),
        (Ok(()), IpcAction::CloseWindow(3))
    );
    let empty = Space { active_window: None, ..space() };
    assert_eq!(
        done(handle_ipc_command(IpcCommand::CloseWindow, &empty)),
        (Err("No active window to close".to_string()), IpcAction::Nothing)
    );
}

#[test]
fn workspaces_are_switched() {
    let switch = |id| done(handle_ipc_command(IpcCommand::SwitchWorkspace { id }, &space()));
    assert_eq!(switch(2), (Ok(()), IpcAction::ShowWorkspace { output: 2, index: 0 }));
    assert_eq!(switch(1), (Ok(()), IpcAction::ShowWorkspace { output: 1, index: 1 }));
    assert_eq!(
        switch(120),
        (Err("Workspace 120 not found".to_string()), IpcAction::Nothing)
    );
}

#[test]
fn commands_are_dispatched() {
    let (start, now) = (Duration::from_secs(10), Duration::new(75, 5));
    let version = || "25.3.1".to_string();
    match dispatch_command(Handler::GetState, Command::GetState, version(), start, now) {
        Dispatch::Respond(Response::Success(Some(ResponseData::State { version, uptime }))) => {
            assert_eq!((version.as_str(), uptime), ("25.3.1", 65))
        }
        other => panic!("unexpected {other:?}"),
    }
    match dispatch_command(Handler::GetState, Command::GetState, version(), now, start) {
        Dispatch::Respond(Response::Success(Some(ResponseData::State { uptime, .. }))) => {
            assert_eq!(uptime, 0)
        }
        other => panic!("unexpected {other:?}"),
    }
    let ask = |h, c| dispatch_command(h, c, version(), start, now);
    assert!(matches!(
        ask(Handler::GetOutputs, Command::GetOutputs),
        Dispatch::Ask(IpcCommand::GetOutputs)
    ));
    assert!(matches!(
        ask(Handler::GetWorkspaces, Command::GetWorkspaces),
        Dispatch::Ask(IpcCommand::GetWorkspaces)
    ));
    assert!(matches!(
        ask(Handler::GetWindows, Command::GetWindows),
        Dispatch::Ask(IpcCommand::GetWindows)
    ));
    assert!(matches!(
        ask(Handler::CloseWindow, Command::CloseWindow),
        Dispatch::Ask(IpcCommand::CloseWindow)
    ));
    assert!(matches!(
        ask(Handler::SwitchWorkspace, Command::SwitchWorkspace { id: 4 }),
        Dispatch::Ask(IpcCommand::SwitchWorkspace { id: 4 })
    ));
    assert!(matches!(
        ask(
            Handler::FocusWindow,
            Command::FocusWindow { app_id: Some("a".to_string()), title: None }
        ),
        Dispatch::Ask(IpcCommand::FocusWindow { app_id: Some(a), title: None }) if a == "a"
    ));
    for handler in [Handler::FocusWindow, Handler::SwitchWorkspace] {
        match ask(handler, Command::GetState) {
            Dispatch::Respond(Response::Error(e)) => assert_eq!(e, "Invalid command"),
            other => panic!("unexpected {other:?}"),
        }
    }
}

#[test]
fn answers_become_responses() {
    let error = |r| match r {
        Response::Error(e) => e,
        other => panic!("unexpected {other:?}"),
    };
    assert!(matches!(
        respond(Ok(IpcReply::Outputs(vec![]))),
        Response::Success(Some(ResponseData::Outputs(_)))
    ));
    assert!(matches!(
        respond(Ok(IpcReply::Workspaces(vec![]))),
        Response::Success(Some(ResponseData::Workspaces(_)))
    ));
    assert!(matches!(
        respond(Ok(IpcReply::Windows(vec![]))),
        Response::Success(Some(ResponseData::Windows(_)))
    ));
    assert!(matches!(respond(Ok(IpcReply::Done(Ok(())))), Response::Success(None)));
    assert_eq!(error(respond(Ok(IpcReply::Done(Err("x".to_string()))))), "x");
    assert_eq!(
        error(respond(Err(IpcFailure::Send("full".to_string())))),
        "Failed to send command: full"
    );
    assert_eq!(
        error(respond(Err(IpcFailure::Receive("closed".to_string())))),
        "Failed to receive response: closed"
    );
}
