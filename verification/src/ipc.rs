//! The socket by which other programs ask about and control the compositor.
use vstd::prelude::*;
use vstd::string::*;

use crate::backend::OutputMode;
use crate::seqs::{first_index, lemma_first_index, lemma_first_index_is, lemma_first_index_none};
use crate::text::{
    decimal, decimal_reads_back, digits_value, is_number, push_decimal, without_plus,
};
use crate::time::{max_nanos, Duration, NANOS_PER_SEC};

verus! {

/// An output.
#[derive(Debug)]
pub struct SpaceOutput {
    pub name: String,
    pub make: String,
    pub model: String,
    /// The mode, where one is set.
    pub mode: Option<OutputMode>,
}

/// A window on a workspace.
#[derive(Debug)]
pub struct SpaceWindow {
    pub id: u64,
    pub app_id: Option<String>,
    pub title: Option<String>,
    pub maximized: bool,
    pub fullscreen: bool,
}

/// A workspace with its windows.
#[derive(Debug)]
pub struct SpaceWorkspace {
    pub id: usize,
    pub windows: Vec<SpaceWindow>,
}

/// An output with its workspaces.
#[derive(Debug)]
pub struct SpaceMonitor {
    pub output: u64,
    pub output_name: String,
    pub workspaces: Vec<SpaceWorkspace>,
}

/// Everything that is shown or could be.
#[derive(Debug)]
pub struct Space {
    pub outputs: Vec<SpaceOutput>,
    pub monitors: Vec<SpaceMonitor>,
    /// The active workspace, by its number.
    pub active_workspace: usize,
    /// The active window, by its number.
    pub active_window: Option<u64>,
}

/// What other programs can ask for.
#[derive(Debug)]
pub enum IpcCommand {
    GetOutputs,
    GetWorkspaces,
    GetWindows,
    FocusWindow { app_id: Option<String>, title: Option<String> },
    CloseWindow,
    SwitchWorkspace { id: usize },
}

/// What is told about an output.
#[derive(Debug)]
pub struct Output {
    pub name: String,
    pub make: String,
    pub model: String,
    pub width: u32,
    pub height: u32,
    /// In millihertz.
    pub refresh_rate: i32,
    pub active: bool,
}

/// What is told about a workspace.
#[derive(Debug)]
pub struct Workspace {
    pub id: usize,
    pub name: String,
    pub active: bool,
    /// The name of its output.
    pub output: String,
    pub window_count: usize,
}

/// What is told about a window.
#[derive(Debug)]
pub struct Window {
    pub app_id: Option<String>,
    pub title: Option<String>,
    pub workspace_id: usize,
    pub focused: bool,
    pub maximized: bool,
    pub fullscreen: bool,
    pub pid: Option<u32>,
}

/// The answer to a command.
#[derive(Debug)]
pub enum IpcReply {
    Outputs(Vec<Output>),
    Workspaces(Vec<Workspace>),
    Windows(Vec<Window>),
    Done(Result<(), String>),
}

/// What a command sets off.
#[derive(Clone, Copy, Debug, PartialEq, Eq, Structural)]
pub enum IpcAction {
    Nothing,
    /// Focus the output, and show its workspace with this index.
    ShowWorkspace { output: u64, index: usize },
    CloseWindow(u64),
}

/// A number with a sign, read as one without.
pub open spec fn as_unsigned(x: i32) -> int {
    x as int % 0x1_0000_0000
}

fn unsigned(x: i32) -> (r: u32)
    ensures
        r == as_unsigned(x),
{
    if x >= 0 {
        x as u32
    } else {
        (x as i64 + 0x1_0000_0000) as u32
    }
}

impl Output {
    /// Whether this tells about `output`.
    pub open spec fn tells(&self, output: SpaceOutput) -> bool {
        &&& self.name@ == output.name@
        &&& self.make@ == output.make@
        &&& self.model@ == output.model@
        &&& self.active
        &&& match output.mode {
            Some(mode) => self.width == as_unsigned(mode.width) && self.height == as_unsigned(
                mode.height,
            ) && self.refresh_rate == mode.refresh,
            None => self.width == 0 && self.height == 0 && self.refresh_rate == 0,
        }
    }
}

/// What is told about a workspace, in mathematical terms.
pub ghost struct WorkspaceInfo {
    pub id: int,
    pub name: Seq<char>,
    pub active: bool,
    pub output: Seq<char>,
    pub window_count: int,
}

impl View for Workspace {
    type V = WorkspaceInfo;

    open spec fn view(&self) -> WorkspaceInfo {
        WorkspaceInfo {
            id: self.id as int,
            name: self.name@,
            active: self.active,
            output: self.output@,
            window_count: self.window_count as int,
        }
    }
}

/// What a workspace is told about, in mathematical terms.
pub open spec fn told() -> spec_fn(Workspace) -> WorkspaceInfo {
    |w: Workspace| w@
}

/// What is told about a workspace of the output `output`, when `active` is the active one.
pub open spec fn workspace_info(output: Seq<char>, active: usize) -> spec_fn(
    SpaceWorkspace,
) -> WorkspaceInfo {
    |w: SpaceWorkspace|
        WorkspaceInfo {
            id: w.id as int,
            name: "Workspace "@ + decimal((w.id + 1) as nat),
            active: w.id == active,
            output,
            window_count: w.windows@.len() as int,
        }
}

/// What is told about all workspaces, output by output.
pub open spec fn workspace_infos(monitors: Seq<SpaceMonitor>, active: usize) -> Seq<WorkspaceInfo>
    decreases monitors.len(),
{
    if monitors.len() == 0 {
        Seq::empty()
    } else {
        workspace_infos(monitors.drop_last(), active) + monitors.last().workspaces@.map_values(
            workspace_info(monitors.last().output_name@, active),
        )
    }
}

/// What is told about a window of the workspace `workspace`, when `active` is the active one.
pub open spec fn window_info(workspace: usize, active: Option<u64>) -> spec_fn(
    SpaceWindow,
) -> Window {
    |w: SpaceWindow|
        Window {
            app_id: w.app_id,
            title: w.title,
            workspace_id: workspace,
            focused: active == Some(w.id),
            maximized: w.maximized,
            fullscreen: w.fullscreen,
            pid: None,
        }
}

/// What is told about the windows of several workspaces.
pub open spec fn workspace_windows(workspaces: Seq<SpaceWorkspace>, active: Option<u64>) -> Seq<
    Window,
>
    decreases workspaces.len(),
{
    if workspaces.len() == 0 {
        Seq::empty()
    } else {
        workspace_windows(workspaces.drop_last(), active) + workspaces.last().windows@.map_values(
            window_info(workspaces.last().id, active),
        )
    }
}

/// What is told about all windows, output by output and workspace by workspace.
pub open spec fn all_windows(monitors: Seq<SpaceMonitor>, active: Option<u64>) -> Seq<Window>
    decreases monitors.len(),
{
    if monitors.len() == 0 {
        Seq::empty()
    } else {
        all_windows(monitors.drop_last(), active) + workspace_windows(
            monitors.last().workspaces@,
            active,
        )
    }
}

/// Whether a text is the one that is asked for, where one is asked for.
pub open spec fn text_matches(wanted: Option<String>, text: Option<String>) -> bool {
    match wanted {
        None => true,
        Some(wanted) => text matches Some(text) && text@ == wanted@,
    }
}

/// Whether a window is one that is asked for.
pub open spec fn window_matches(app_id: Option<String>, title: Option<String>) -> spec_fn(
    SpaceWindow,
) -> bool {
    |w: SpaceWindow| text_matches(app_id, w.app_id) && text_matches(title, w.title)
}

/// Whether a workspace has a window that is asked for.
pub open spec fn has_window(app_id: Option<String>, title: Option<String>) -> spec_fn(
    SpaceWorkspace,
) -> bool {
    |w: SpaceWorkspace| first_index(w.windows@, window_matches(app_id, title)) is Some
}

/// Whether a workspace has the given number.
pub open spec fn has_id(id: usize) -> spec_fn(SpaceWorkspace) -> bool {
    |w: SpaceWorkspace| w.id == id
}

/// Whether an output has a workspace with the given property.
pub open spec fn has_workspace(p: spec_fn(SpaceWorkspace) -> bool) -> spec_fn(SpaceMonitor) -> bool {
    |m: SpaceMonitor| first_index(m.workspaces@, p) is Some
}

/// The first workspace with the given property, as the output and its index there.
pub open spec fn find_workspace(
    monitors: Seq<SpaceMonitor>,
    p: spec_fn(SpaceWorkspace) -> bool,
) -> Option<(u64, int)> {
    match first_index(monitors, has_workspace(p)) {
        Some(m) => Some((monitors[m].output, first_index(monitors[m].workspaces@, p)->0)),
        None => None,
    }
}

fn opt_text(t: &Option<String>) -> (r: Option<String>)
    ensures
        r == *t,
{
    match t {
        Some(s) => Some(s.clone()),
        None => None,
    }
}

fn matches_text(wanted: &Option<String>, text: &Option<String>) -> (b: bool)
    ensures
        b == text_matches(*wanted, *text),
{
    match wanted {
        None => true,
        Some(wanted) => match text {
            Some(text) => *text == *wanted,
            None => false,
        },
    }
}

fn workspace_has_window(
    workspace: &SpaceWorkspace,
    app_id: &Option<String>,
    title: &Option<String>,
) -> (b: bool)
    ensures
        b == has_window(*app_id, *title)(*workspace),
{
    let ghost p = window_matches(*app_id, *title);
    let mut i: usize = 0;
    while i < workspace.windows.len()
        invariant
            0 <= i <= workspace.windows.len(),
            p == window_matches(*app_id, *title),
            forall|j: int| 0 <= j < i ==> !p(#[trigger] workspace.windows@[j]),
        decreases workspace.windows.len() - i,
    {
        let window = &workspace.windows[i];
        if matches_text(app_id, &window.app_id) && matches_text(title, &window.title) {
            proof {
                lemma_first_index_is(workspace.windows@, p, i as int);
            }
            return true;
        }
        i += 1;
    }
    proof {
        lemma_first_index_none(workspace.windows@, p);
    }
    false
}

/// Which workspace is looked for.
#[derive(Clone, Copy, Debug)]
pub enum WorkspaceQuery<'a> {
    /// One with a window of this application and title, as far as they are asked for.
    WithWindow { app_id: &'a Option<String>, title: &'a Option<String> },
    /// The one with this number.
    Numbered(usize),
}

impl<'a> WorkspaceQuery<'a> {
    /// Whether a workspace is one that is looked for.
    pub open spec fn wanted(self) -> spec_fn(SpaceWorkspace) -> bool {
        match self {
            WorkspaceQuery::WithWindow { app_id, title } => has_window(*app_id, *title),
            WorkspaceQuery::Numbered(id) => has_id(id),
        }
    }

    fn is_for(&self, workspace: &SpaceWorkspace) -> (b: bool)
        ensures
            b == self.wanted()(*workspace),
    {
        match self {
            WorkspaceQuery::WithWindow { app_id, title } => workspace_has_window(
                workspace,
                app_id,
                title,
            ),
            WorkspaceQuery::Numbered(id) => workspace.id == *id,
        }
    }
}

impl Space {
    /// The number of every workspace has a successor, by which the workspace is named.
    pub open spec fn wf(&self) -> bool {
        forall|m: int, w: int|
            0 <= m < self.monitors@.len() && 0 <= w < self.monitors@[m].workspaces@.len() ==> (
            #[trigger] self.monitors@[m].workspaces@[w]).id < usize::MAX
    }

    /// Tell about all outputs.
    pub fn get_outputs(&self) -> (outputs: Vec<Output>)
        ensures
            outputs@.len() == self.outputs@.len(),
            forall|i: int|
                0 <= i < outputs@.len() ==> (#[trigger] outputs@[i]).tells(self.outputs@[i]),
    {
        let mut outputs: Vec<Output> = Vec::new();
        let mut i: usize = 0;
        while i < self.outputs.len()
            invariant
                0 <= i <= self.outputs.len(),
                outputs@.len() == i,
                forall|j: int| 0 <= j < i ==> (#[trigger] outputs@[j]).tells(self.outputs@[j]),
            decreases self.outputs.len() - i,
        {
            let output = &self.outputs[i];
            let (width, height, refresh_rate) = match output.mode {
                Some(mode) => (unsigned(mode.width), unsigned(mode.height), mode.refresh),
                None => (0u32, 0u32, 0i32),
            };
            outputs.push(
                Output {
                    name: output.name.clone(),
                    make: output.make.clone(),
                    model: output.model.clone(),
                    width,
                    height,
                    refresh_rate,
                    active: true,
                },
            );
            i += 1;
        }
        outputs
    }

    /// Tell about all workspaces.
    pub fn get_workspaces(&self) -> (workspaces: Vec<Workspace>)
        requires
            self.wf(),
        ensures
            workspaces@.map_values(told()) == workspace_infos(
                self.monitors@,
                self.active_workspace,
            ),
    {
        let mut out: Vec<Workspace> = Vec::new();
        let mut m: usize = 0;
        assert(self.monitors@.take(0) =~= Seq::empty());
        assert(out@.map_values(told()) =~= Seq::empty());
        while m < self.monitors.len()
            invariant
                0 <= m <= self.monitors.len(),
                self.wf(),
                out@.map_values(told()) == workspace_infos(
                    self.monitors@.take(m as int),
                    self.active_workspace,
                ),
            decreases self.monitors.len() - m,
        {
            let monitor = &self.monitors[m];
            let ghost before = out@.map_values(told());
            let ghost info = workspace_info(monitor.output_name@, self.active_workspace);
            let mut w: usize = 0;
            assert(out@.map_values(told()) =~= before + monitor.workspaces@.take(0).map_values(info));
            while w < monitor.workspaces.len()
                invariant
                    0 <= w <= monitor.workspaces.len(),
                    self.wf(),
                    0 <= m < self.monitors@.len(),
                    *monitor == self.monitors@[m as int],
                    info == workspace_info(monitor.output_name@, self.active_workspace),
                    out@.map_values(told()) == before + monitor.workspaces@.take(
                        w as int,
                    ).map_values(info),
                decreases monitor.workspaces.len() - w,
            {
                let workspace = &monitor.workspaces[w];
                let ghost previous = out@;
                assert(self.monitors@[m as int].workspaces@[w as int].id < usize::MAX);
                let mut name = "Workspace ".to_string();
                push_decimal(&mut name, (workspace.id + 1) as u64);
                out.push(
                    Workspace {
                        id: workspace.id,
                        name,
                        active: workspace.id == self.active_workspace,
                        output: monitor.output_name.clone(),
                        window_count: workspace.windows.len(),
                    },
                );
                proof {
                    let short = monitor.workspaces@.take(w as int).map_values(info);
                    let long = monitor.workspaces@.take(w + 1).map_values(info);
                    assert(out@.last()@ == info(*workspace));
                    assert(out@.map_values(told()) =~= previous.map_values(told()).push(
                        out@.last()@,
                    ));
                    assert(long =~= short.push(info(*workspace)));
                    assert(out@.map_values(told()) =~= before + long);
                }
                w += 1;
            }
            assert(monitor.workspaces@.take(monitor.workspaces@.len() as int)
                =~= monitor.workspaces@);
            proof {
                assert(self.monitors@.take(m + 1).drop_last() =~= self.monitors@.take(m as int));
                assert(self.monitors@.take(m + 1).last() == *monitor);
            }
            m += 1;
        }
        assert(self.monitors@.take(self.monitors@.len() as int) =~= self.monitors@);
        out
    }

    /// Tell about all windows.
    pub fn get_windows(&self) -> (windows: Vec<Window>)
        ensures
            windows@ == all_windows(self.monitors@, self.active_window),
    {
        let mut out: Vec<Window> = Vec::new();
        let mut m: usize = 0;
        assert(self.monitors@.take(0) =~= Seq::empty());
        while m < self.monitors.len()
            invariant
                0 <= m <= self.monitors.len(),
                out@ == all_windows(self.monitors@.take(m as int), self.active_window),
            decreases self.monitors.len() - m,
        {
            let monitor = &self.monitors[m];
            let ghost first = out@;
            let mut w: usize = 0;
            assert(monitor.workspaces@.take(0) =~= Seq::empty());
            assert(out@ =~= first + workspace_windows(
                monitor.workspaces@.take(0),
                self.active_window,
            ));
            while w < monitor.workspaces.len()
                invariant
                    0 <= w <= monitor.workspaces.len(),
                    out@ == first + workspace_windows(
                        monitor.workspaces@.take(w as int),
                        self.active_window,
                    ),
                decreases monitor.workspaces.len() - w,
            {
                let workspace = &monitor.workspaces[w];
                let ghost second = out@;
                let ghost info = window_info(workspace.id, self.active_window);
                let mut i: usize = 0;
                assert(out@ =~= second + workspace.windows@.take(0).map_values(info));
                while i < workspace.windows.len()
                    invariant
                        0 <= i <= workspace.windows.len(),
                        info == window_info(workspace.id, self.active_window),
                        out@ == second + workspace.windows@.take(i as int).map_values(info),
                    decreases workspace.windows.len() - i,
                {
                    let window = &workspace.windows[i];
                    let focused = match self.active_window {
                        Some(active) => active == window.id,
                        None => false,
                    };
                    out.push(
                        Window {
                            app_id: opt_text(&window.app_id),
                            title: opt_text(&window.title),
                            workspace_id: workspace.id,
                            focused,
                            maximized: window.maximized,
                            fullscreen: window.fullscreen,
                            pid: None,
                        },
                    );
                    i += 1;
                    assert(out@ =~= second + workspace.windows@.take(i as int).map_values(info));
                }
                proof {
                    assert(workspace.windows@.take(workspace.windows@.len() as int)
                        =~= workspace.windows@);
                    assert(monitor.workspaces@.take(w + 1).drop_last() =~= monitor.workspaces@.take(
                        w as int,
                    ));
                    assert(monitor.workspaces@.take(w + 1).last() == *workspace);
                    assert(out@ =~= first + workspace_windows(
                        monitor.workspaces@.take(w + 1),
                        self.active_window,
                    ));
                }
                w += 1;
            }
            proof {
                assert(monitor.workspaces@.take(monitor.workspaces@.len() as int)
                    =~= monitor.workspaces@);
                assert(self.monitors@.take(m + 1).drop_last() =~= self.monitors@.take(m as int));
                assert(self.monitors@.take(m + 1).last() == *monitor);
            }
            m += 1;
        }
        assert(self.monitors@.take(self.monitors@.len() as int) =~= self.monitors@);
        out
    }

    /// The first workspace that is looked for, as the output and its index there.
    pub fn find_workspace(&self, query: WorkspaceQuery) -> (r: Option<(u64, usize)>)
        ensures
            r is Some <==> find_workspace(self.monitors@, query.wanted()) is Some,
            r matches Some((output, index)) ==> find_workspace(self.monitors@, query.wanted())
                == Some((output, index as int)),
    {
        let ghost p = query.wanted();
        let mut m: usize = 0;
        while m < self.monitors.len()
            invariant
                0 <= m <= self.monitors.len(),
                p == query.wanted(),
                forall|j: int| 0 <= j < m ==> !has_workspace(p)(#[trigger] self.monitors@[j]),
            decreases self.monitors.len() - m,
        {
            let monitor = &self.monitors[m];
            let mut w: usize = 0;
            while w < monitor.workspaces.len()
                invariant
                    0 <= w <= monitor.workspaces.len(),
                    0 <= m < self.monitors.len(),
                    *monitor == self.monitors@[m as int],
                    p == query.wanted(),
                    forall|j: int| 0 <= j < m ==> !has_workspace(p)(#[trigger] self.monitors@[j]),
                    forall|j: int| 0 <= j < w ==> !p(#[trigger] monitor.workspaces@[j]),
                decreases monitor.workspaces.len() - w,
            {
                if query.is_for(&monitor.workspaces[w]) {
                    proof {
                        lemma_first_index_is(monitor.workspaces@, p, w as int);
                        assert(has_workspace(p)(self.monitors@[m as int]));
                        lemma_first_index_is(self.monitors@, has_workspace(p), m as int);
                    }
                    return Some((monitor.output, w));
                }
                w += 1;
            }
            proof {
                lemma_first_index_none(monitor.workspaces@, p);
                assert(!has_workspace(p)(self.monitors@[m as int]));
            }
            m += 1;
        }
        proof {
            lemma_first_index_none(self.monitors@, has_workspace(p));
        }
        None
    }
}

/// Whether `reply` and `action` are what a command asks for.
pub open spec fn is_answer(
    space: Space,
    command: IpcCommand,
    reply: IpcReply,
    action: IpcAction,
) -> bool {
    match command {
        IpcCommand::GetOutputs => {
            &&& action == IpcAction::Nothing
            &&& reply matches IpcReply::Outputs(outputs) && outputs@.len() == space.outputs@.len()
                && forall|i: int|
                0 <= i < outputs@.len() ==> (#[trigger] outputs@[i]).tells(space.outputs@[i])
        },
        IpcCommand::GetWorkspaces => {
            &&& action == IpcAction::Nothing
            &&& reply matches IpcReply::Workspaces(workspaces) && workspaces@.map_values(
                told(),
            ) == workspace_infos(space.monitors@, space.active_workspace)
        },
        IpcCommand::GetWindows => {
            &&& action == IpcAction::Nothing
            &&& reply matches IpcReply::Windows(windows) && windows@ == all_windows(
                space.monitors@,
                space.active_window,
            )
        },
        IpcCommand::FocusWindow { app_id, title } => match find_workspace(
            space.monitors@,
            has_window(app_id, title),
        ) {
            Some((output, index)) => {
                &&& action == (IpcAction::ShowWorkspace { output, index: index as usize })
                &&& index == index as usize
                &&& reply matches IpcReply::Done(Ok(()))
            },
            None => {
                &&& action == IpcAction::Nothing
                &&& reply matches IpcReply::Done(Err(e)) && e@ == "Window not found"@
            },
        },
        IpcCommand::CloseWindow => match space.active_window {
            Some(window) => {
                &&& action == IpcAction::CloseWindow(window)
                &&& reply matches IpcReply::Done(Ok(()))
            },
            None => {
                &&& action == IpcAction::Nothing
                &&& reply matches IpcReply::Done(Err(e)) && e@ == "No active window to close"@
            },
        },
        IpcCommand::SwitchWorkspace { id } => match find_workspace(space.monitors@, has_id(id)) {
            Some((output, index)) => {
                &&& action == (IpcAction::ShowWorkspace { output, index: index as usize })
                &&& index == index as usize
                &&& reply matches IpcReply::Done(Ok(()))
            },
            None => {
                &&& action == IpcAction::Nothing
                &&& reply matches IpcReply::Done(Err(e)) && e@ == "Workspace "@ + decimal(id as nat)
                    + " not found"@
            },
        },
    }
}

/// Answer a command of another program.
pub fn handle_ipc_command(command: IpcCommand, space: &Space) -> (r: (IpcReply, IpcAction))
    requires
        command is GetWorkspaces ==> space.wf(),
    ensures
        is_answer(*space, command, r.0, r.1),
{
    match command {
        IpcCommand::GetOutputs => (IpcReply::Outputs(space.get_outputs()), IpcAction::Nothing),
        IpcCommand::GetWorkspaces => (
            IpcReply::Workspaces(space.get_workspaces()),
            IpcAction::Nothing,
        ),
        IpcCommand::GetWindows => (IpcReply::Windows(space.get_windows()), IpcAction::Nothing),
        IpcCommand::FocusWindow { app_id, title } => match space.find_workspace(
            WorkspaceQuery::WithWindow { app_id: &app_id, title: &title },
        ) {
            Some((output, index)) => (
                IpcReply::Done(Ok(())),
                IpcAction::ShowWorkspace { output, index },
            ),
            None => (
                IpcReply::Done(Err("Window not found".to_string())),
                IpcAction::Nothing,
            ),
        },
        IpcCommand::CloseWindow => match space.active_window {
            Some(window) => (IpcReply::Done(Ok(())), IpcAction::CloseWindow(window)),
            None => (
                IpcReply::Done(Err("No active window to close".to_string())),
                IpcAction::Nothing,
            ),
        },
        IpcCommand::SwitchWorkspace { id } => match space.find_workspace(
            WorkspaceQuery::Numbered(id),
        ) {
            Some((output, index)) => (
                IpcReply::Done(Ok(())),
                IpcAction::ShowWorkspace { output, index },
            ),
            None => {
                let mut message = "Workspace ".to_string();
                push_decimal(&mut message, id as u64);
                message.append(" not found");
                (IpcReply::Done(Err(message)), IpcAction::Nothing)
            },
        },
    }
}

/// What another program sends.
#[derive(Debug)]
pub enum Command {
    GetState,
    GetOutputs,
    GetWorkspaces,
    GetWindows,
    FocusWindow { app_id: Option<String>, title: Option<String> },
    CloseWindow,
    SwitchWorkspace { id: usize },
}

/// What another program gets back.
#[derive(Debug)]
pub enum ResponseData {
    State { version: String, uptime: u64 },
    Outputs(Vec<Output>),
    Workspaces(Vec<Workspace>),
    Windows(Vec<Window>),
}

/// The response to a command.
#[derive(Debug)]
pub enum Response {
    Success(Option<ResponseData>),
    Error(String),
}

/// What is to be done about a command.
#[derive(Debug)]
pub enum Dispatch {
    /// It is answered at once.
    Respond(Response),
    /// It is handed to the compositor.
    Ask(IpcCommand),
}

/// What a handler of the socket is registered for.
#[derive(Clone, Copy, Debug, PartialEq, Eq, Structural)]
pub enum Handler {
    GetState,
    GetOutputs,
    GetWorkspaces,
    GetWindows,
    FocusWindow,
    CloseWindow,
    SwitchWorkspace,
}

/// The seconds between two readings of a clock that may have been set back in between.
pub open spec fn uptime_secs(start: nat, now: nat) -> u64 {
    if now >= start {
        ((now - start) as nat / NANOS_PER_SEC as nat) as u64
    } else {
        0
    }
}

/// Whether `d` is what a handler does about a command.
pub open spec fn is_dispatch(
    handler: Handler,
    command: Command,
    version: String,
    start: nat,
    now: nat,
    d: Dispatch,
) -> bool {
    match handler {
        Handler::GetState => d == Dispatch::Respond(
            Response::Success(
                Some(ResponseData::State { version, uptime: uptime_secs(start, now) }),
            ),
        ),
        Handler::GetOutputs => d == Dispatch::Ask(IpcCommand::GetOutputs),
        Handler::GetWorkspaces => d == Dispatch::Ask(IpcCommand::GetWorkspaces),
        Handler::GetWindows => d == Dispatch::Ask(IpcCommand::GetWindows),
        Handler::CloseWindow => d == Dispatch::Ask(IpcCommand::CloseWindow),
        Handler::FocusWindow => match command {
            Command::FocusWindow { app_id, title } => d == Dispatch::Ask(
                IpcCommand::FocusWindow { app_id, title },
            ),
            _ => d matches Dispatch::Respond(Response::Error(e)) && e@ == "Invalid command"@,
        },
        Handler::SwitchWorkspace => match command {
            Command::SwitchWorkspace { id } => d == Dispatch::Ask(
                IpcCommand::SwitchWorkspace { id },
            ),
            _ => d matches Dispatch::Respond(Response::Error(e)) && e@ == "Invalid command"@,
        },
    }
}

/// Decide what a handler does about a command. `start` and `now` are readings of the system clock.
///
/// The state is told at once, with the version and for how many seconds the compositor has been
/// running. Everything else is up to the compositor. A handler that needs parameters turns down a
/// command that does not have them.
pub fn dispatch_command(
    handler: Handler,
    command: Command,
    version: String,
    start: Duration,
    now: Duration,
) -> (d: Dispatch)
    ensures
        is_dispatch(handler, command, version, start@, now@, d),
{
    match handler {
        Handler::GetState => {
            let uptime: u64 = now.saturating_sub(&start).as_secs();
            Dispatch::Respond(Response::Success(Some(ResponseData::State { version, uptime })))
        },
        Handler::GetOutputs => Dispatch::Ask(IpcCommand::GetOutputs),
        Handler::GetWorkspaces => Dispatch::Ask(IpcCommand::GetWorkspaces),
        Handler::GetWindows => Dispatch::Ask(IpcCommand::GetWindows),
        Handler::CloseWindow => Dispatch::Ask(IpcCommand::CloseWindow),
        Handler::FocusWindow => match command {
            Command::FocusWindow { app_id, title } => Dispatch::Ask(
                IpcCommand::FocusWindow { app_id, title },
            ),
            _ => Dispatch::Respond(Response::Error("Invalid command".to_string())),
        },
        Handler::SwitchWorkspace => match command {
            Command::SwitchWorkspace { id } => Dispatch::Ask(IpcCommand::SwitchWorkspace { id }),
            _ => Dispatch::Respond(Response::Error("Invalid command".to_string())),
        },
    }
}

/// Why the compositor gave no answer.
#[derive(Debug)]
pub enum IpcFailure {
    /// The command could not be handed over, with the reason.
    Send(String),
    /// No answer came back, with the reason.
    Receive(String),
}

/// Whether `response` is what another program is told about the answer of the compositor.
pub open spec fn is_response(answer: Result<IpcReply, IpcFailure>, response: Response) -> bool {
    match answer {
        Ok(IpcReply::Outputs(outputs)) => response == Response::Success(
            Some(ResponseData::Outputs(outputs)),
        ),
        Ok(IpcReply::Workspaces(workspaces)) => response == Response::Success(
            Some(ResponseData::Workspaces(workspaces)),
        ),
        Ok(IpcReply::Windows(windows)) => response == Response::Success(
            Some(ResponseData::Windows(windows)),
        ),
        Ok(IpcReply::Done(Ok(()))) => response == Response::Success(None),
        Ok(IpcReply::Done(Err(e))) => response == Response::Error(e),
        Err(IpcFailure::Send(reason)) => response matches Response::Error(e) && e@
            == "Failed to send command: "@ + reason@,
        Err(IpcFailure::Receive(reason)) => response matches Response::Error(e) && e@
            == "Failed to receive response: "@ + reason@,
    }
}

/// What another program is told about the answer of the compositor.
pub fn respond(answer: Result<IpcReply, IpcFailure>) -> (response: Response)
    ensures
        is_response(answer, response),
{
    match answer {
        Ok(IpcReply::Outputs(outputs)) => Response::Success(Some(ResponseData::Outputs(outputs))),
        Ok(IpcReply::Workspaces(workspaces)) => Response::Success(
            Some(ResponseData::Workspaces(workspaces)),
        ),
        Ok(IpcReply::Windows(windows)) => Response::Success(Some(ResponseData::Windows(windows))),
        Ok(IpcReply::Done(Ok(()))) => Response::Success(None),
        Ok(IpcReply::Done(Err(e))) => Response::Error(e),
        Err(IpcFailure::Send(reason)) => {
            let mut message = "Failed to send command: ".to_string();
            message.append(reason.as_str());
            Response::Error(message)
        },
        Err(IpcFailure::Receive(reason)) => {
            let mut message = "Failed to receive response: ".to_string();
            message.append(reason.as_str());
            Response::Error(message)
        },
    }
}

/// Asking about the compositor never changes anything.
pub proof fn queries_change_nothing(
    space: Space,
    command: IpcCommand,
    reply: IpcReply,
    action: IpcAction,
)
    requires
        command is GetOutputs || command is GetWorkspaces || command is GetWindows,
        is_answer(space, command, reply, action),
    ensures
        action == IpcAction::Nothing,
{
}

/// A command that cannot be carried out is answered with an error, and changes nothing.
pub proof fn failures_change_nothing(
    space: Space,
    command: IpcCommand,
    reply: IpcReply,
    action: IpcAction,
)
    requires
        is_answer(space, command, reply, action),
        reply matches IpcReply::Done(r) && r is Err,
    ensures
        action == IpcAction::Nothing,
{
}

proof fn lemma_workspace_told(
    workspaces: Seq<SpaceWorkspace>,
    active: Option<u64>,
    w: int,
    i: int,
)
    requires
        0 <= w < workspaces.len(),
        0 <= i < workspaces[w].windows@.len(),
    ensures
        workspace_windows(workspaces, active).contains(
            window_info(workspaces[w].id, active)(workspaces[w].windows@[i]),
        ),
    decreases workspaces.len(),
{
    let all = workspace_windows(workspaces, active);
    let rest = workspace_windows(workspaces.drop_last(), active);
    let info = window_info(workspaces[w].id, active);
    if w == workspaces.len() - 1 {
        let last = workspaces.last().windows@.map_values(info);
        assert(all[rest.len() + i] == last[i]);
    } else {
        lemma_workspace_told(workspaces.drop_last(), active, w, i);
        let wanted = info(workspaces[w].windows@[i]);
        let k = choose|k: int| 0 <= k < rest.len() && rest[k] == wanted;
        assert(all[k] == wanted);
    }
}

/// No window is left out when windows are told about, on whichever output and workspace it is.
pub proof fn all_windows_are_told_about(
    monitors: Seq<SpaceMonitor>,
    active: Option<u64>,
    m: int,
    w: int,
    i: int,
)
    requires
        0 <= m < monitors.len(),
        0 <= w < monitors[m].workspaces@.len(),
        0 <= i < monitors[m].workspaces@[w].windows@.len(),
    ensures
        all_windows(monitors, active).contains(
            window_info(monitors[m].workspaces@[w].id, active)(
                monitors[m].workspaces@[w].windows@[i],
            ),
        ),
    decreases monitors.len(),
{
    let all = all_windows(monitors, active);
    let rest = all_windows(monitors.drop_last(), active);
    let workspaces = monitors[m].workspaces@;
    let wanted = window_info(workspaces[w].id, active)(workspaces[w].windows@[i]);
    if m == monitors.len() - 1 {
        let last = workspace_windows(workspaces, active);
        lemma_workspace_told(workspaces, active, w, i);
        let k = choose|k: int| 0 <= k < last.len() && last[k] == wanted;
        assert(all[rest.len() + k] == wanted);
    } else {
        all_windows_are_told_about(monitors.drop_last(), active, m, w, i);
        let k = choose|k: int| 0 <= k < rest.len() && rest[k] == wanted;
        assert(all[k] == wanted);
    }
}

/// A workspace that is shown on command is one that was asked for: it has the number, or one of
/// the windows.
pub proof fn shown_workspaces_were_asked_for(
    space: Space,
    command: IpcCommand,
    reply: IpcReply,
    output: u64,
    index: usize,
)
    requires
        is_answer(space, command, reply, IpcAction::ShowWorkspace { output, index }),
    ensures
        exists|m: int|
            0 <= m < space.monitors@.len() && (#[trigger] space.monitors@[m]).output == output
                && index < space.monitors@[m].workspaces@.len() && match command {
                IpcCommand::FocusWindow { app_id, title } => has_window(app_id, title)(
                    space.monitors@[m].workspaces@[index as int],
                ),
                IpcCommand::SwitchWorkspace { id } => has_id(id)(
                    space.monitors@[m].workspaces@[index as int],
                ),
                _ => false,
            },
{
    let p = match command {
        IpcCommand::FocusWindow { app_id, title } => has_window(app_id, title),
        IpcCommand::SwitchWorkspace { id } => has_id(id),
        _ => has_id(0),
    };
    lemma_first_index(space.monitors@, has_workspace(p));
    let m = first_index(space.monitors@, has_workspace(p))->0;
    assert(has_workspace(p)(space.monitors@[m]));
    lemma_first_index(space.monitors@[m].workspaces@, p);
    assert(space.monitors@[m].output == output);
}

/// How many windows several workspaces hold.
pub open spec fn windows_on(workspaces: Seq<SpaceWorkspace>) -> nat
    decreases workspaces.len(),
{
    if workspaces.len() == 0 {
        0
    } else {
        windows_on(workspaces.drop_last()) + workspaces.last().windows@.len()
    }
}

/// How many windows there are on several outputs.
pub open spec fn windows_of(monitors: Seq<SpaceMonitor>) -> nat
    decreases monitors.len(),
{
    if monitors.len() == 0 {
        0
    } else {
        windows_of(monitors.drop_last()) + windows_on(monitors.last().workspaces@)
    }
}

/// How many workspaces there are on several outputs.
pub open spec fn workspaces_of(monitors: Seq<SpaceMonitor>) -> nat
    decreases monitors.len(),
{
    if monitors.len() == 0 {
        0
    } else {
        workspaces_of(monitors.drop_last()) + monitors.last().workspaces@.len()
    }
}

proof fn lemma_windows_on(workspaces: Seq<SpaceWorkspace>, active: Option<u64>, w: int, i: int)
    ensures
        workspace_windows(workspaces, active).len() == windows_on(workspaces),
        0 <= w < workspaces.len() && 0 <= i < workspaces[w].windows@.len() ==> windows_on(
            workspaces.take(w),
        ) + i < windows_on(workspaces) && workspace_windows(workspaces, active)[windows_on(
            workspaces.take(w),
        ) + i] == window_info(workspaces[w].id, active)(workspaces[w].windows@[i]),
    decreases workspaces.len(),
{
    if workspaces.len() > 0 {
        let front = workspaces.drop_last();
        lemma_windows_on(front, active, w, i);
        if w == workspaces.len() - 1 {
            assert(workspaces.take(w) =~= front);
        } else if 0 <= w < workspaces.len() {
            assert(workspaces.take(w) =~= front.take(w));
        }
    }
}

proof fn lemma_windows_of(
    monitors: Seq<SpaceMonitor>,
    active: Option<u64>,
    m: int,
    w: int,
    i: int,
)
    ensures
        all_windows(monitors, active).len() == windows_of(monitors),
        0 <= m < monitors.len() && 0 <= w < monitors[m].workspaces@.len() && 0 <= i
            < monitors[m].workspaces@[w].windows@.len() ==> windows_of(monitors.take(m))
            + windows_on(monitors[m].workspaces@.take(w)) + i < windows_of(monitors) && all_windows(
            monitors,
            active,
        )[windows_of(monitors.take(m)) + windows_on(monitors[m].workspaces@.take(w)) + i]
            == window_info(monitors[m].workspaces@[w].id, active)(
            monitors[m].workspaces@[w].windows@[i],
        ),
    decreases monitors.len(),
{
    if monitors.len() > 0 {
        let front = monitors.drop_last();
        lemma_windows_of(front, active, m, w, i);
        lemma_windows_on(monitors.last().workspaces@, active, w, i);
        if m == monitors.len() - 1 {
            assert(monitors.take(m) =~= front);
        } else if 0 <= m < monitors.len() {
            assert(monitors.take(m) =~= front.take(m));
        }
    }
}

/// Whoever asks for the windows is told about each of them once, output by output, workspace by
/// workspace and in the order of each workspace: its application and title, the number of its
/// workspace, whether it has the focus, and whether it is maximized and fills the output, all as
/// they are.
pub proof fn windows_are_told_as_they_are(
    space: &Space,
    answer: (IpcReply, IpcAction),
    m: int,
    w: int,
    i: int,
)
    requires
        call_ensures(handle_ipc_command, (IpcCommand::GetWindows, space), answer),
        0 <= m < space.monitors@.len(),
        0 <= w < space.monitors@[m].workspaces@.len(),
        0 <= i < space.monitors@[m].workspaces@[w].windows@.len(),
    ensures
        answer.0 matches IpcReply::Windows(told) && told@.len() == windows_of(space.monitors@) && {
            let window = space.monitors@[m].workspaces@[w].windows@[i];
            let entry = told@[windows_of(space.monitors@.take(m)) + windows_on(
                space.monitors@[m].workspaces@.take(w),
            ) + i];
            &&& windows_of(space.monitors@.take(m)) + windows_on(
                space.monitors@[m].workspaces@.take(w),
            ) + i < told@.len()
            &&& entry.app_id == window.app_id
            &&& entry.title == window.title
            &&& entry.workspace_id == space.monitors@[m].workspaces@[w].id
            &&& entry.maximized == window.maximized
            &&& entry.fullscreen == window.fullscreen
            &&& entry.focused == (space.active_window == Some(window.id))
            &&& entry.pid is None
        },
{
    assert(call_requires(handle_ipc_command, (IpcCommand::GetWindows, space)));
    lemma_windows_of(space.monitors@, space.active_window, m, w, i);
}

/// The same list is told when the windows are asked for directly, and it is as long as there are
/// windows.
pub proof fn listed_windows_are_all_windows(
    space: &Space,
    windows: Vec<Window>,
    answer: (IpcReply, IpcAction),
)
    requires
        call_ensures(Space::get_windows, (space,), windows),
        call_ensures(handle_ipc_command, (IpcCommand::GetWindows, space), answer),
    ensures
        windows@.len() == windows_of(space.monitors@),
        answer.0 matches IpcReply::Windows(told) && told@ == windows@,
{
    assert(call_requires(handle_ipc_command, (IpcCommand::GetWindows, space)));
    lemma_windows_of(space.monitors@, space.active_window, 0, 0, 0);
}

proof fn lemma_workspaces_of(monitors: Seq<SpaceMonitor>, active: usize, m: int, w: int)
    ensures
        workspace_infos(monitors, active).len() == workspaces_of(monitors),
        0 <= m < monitors.len() && 0 <= w < monitors[m].workspaces@.len() ==> workspaces_of(
            monitors.take(m),
        ) + w < workspaces_of(monitors) && workspace_infos(monitors, active)[workspaces_of(
            monitors.take(m),
        ) + w] == workspace_info(monitors[m].output_name@, active)(monitors[m].workspaces@[w]),
    decreases monitors.len(),
{
    if monitors.len() > 0 {
        let front = monitors.drop_last();
        lemma_workspaces_of(front, active, m, w);
        if m == monitors.len() - 1 {
            assert(monitors.take(m) =~= front);
        } else if 0 <= m < monitors.len() {
            assert(monitors.take(m) =~= front.take(m));
        }
    }
}

/// Whoever asks for the workspaces is told about each of them once, output by output: its number,
/// a name with the number that follows it in decimal digits, the name of its output, how many
/// windows it holds, and whether it is the active one.
pub proof fn workspaces_are_told_as_they_are(
    space: &Space,
    answer: (IpcReply, IpcAction),
    m: int,
    w: int,
)
    requires
        space.wf(),
        call_ensures(handle_ipc_command, (IpcCommand::GetWorkspaces, space), answer),
        0 <= m < space.monitors@.len(),
        0 <= w < space.monitors@[m].workspaces@.len(),
    ensures
        answer.0 matches IpcReply::Workspaces(told) && told@.len() == workspaces_of(space.monitors@)
            && {
            let workspace = space.monitors@[m].workspaces@[w];
            let entry = told@[workspaces_of(space.monitors@.take(m)) + w];
            &&& workspaces_of(space.monitors@.take(m)) + w < told@.len()
            &&& entry.id == workspace.id
            &&& entry.output@ == space.monitors@[m].output_name@
            &&& entry.window_count == workspace.windows@.len()
            &&& entry.active == (workspace.id == space.active_workspace)
            &&& entry.name@.take(10) == "Workspace "@
            &&& digits_value(entry.name@.skip(10)) == workspace.id + 1
            &&& is_number(entry.name@.skip(10))
        },
{
    assert(call_requires(handle_ipc_command, (IpcCommand::GetWorkspaces, space)));
    lemma_workspaces_of(space.monitors@, space.active_workspace, m, w);
    let workspace = space.monitors@[m].workspaces@[w];
    let told = answer.0->Workspaces_0;
    let k = workspaces_of(space.monitors@.take(m)) + w;
    assert(told@.map_values(self::told()).len() == told@.len());
    assert(told@.map_values(self::told())[k] == told@[k]@);
    let number = decimal((workspace.id + 1) as nat);
    decimal_reads_back((workspace.id + 1) as nat);
    reveal_strlit("Workspace ");
    assert(told@[k].name@.take(10) =~= "Workspace "@);
    assert(told@[k].name@.skip(10) =~= number);
}

/// Whoever asks for the outputs is told about each of them in their order, all of them active: its
/// name, make and model, and the size and refresh rate of its mode; all zero without a mode.
pub proof fn outputs_are_told_as_they_are(space: &Space, answer: (IpcReply, IpcAction), i: int)
    requires
        call_ensures(handle_ipc_command, (IpcCommand::GetOutputs, space), answer),
        0 <= i < space.outputs@.len(),
    ensures
        answer.0 matches IpcReply::Outputs(told) && told@.len() == space.outputs@.len() && {
            let output = space.outputs@[i];
            &&& told@[i].active
            &&& told@[i].name@ == output.name@
            &&& told@[i].make@ == output.make@
            &&& told@[i].model@ == output.model@
            &&& output.mode matches Some(mode) ==> told@[i].refresh_rate == mode.refresh && (
            mode.width >= 0 ==> told@[i].width == mode.width) && (mode.height >= 0
                ==> told@[i].height == mode.height) && (mode.width < 0 ==> told@[i].width
                == mode.width + 0x1_0000_0000) && (mode.height < 0 ==> told@[i].height
                == mode.height + 0x1_0000_0000)
            &&& output.mode is None ==> told@[i].width == 0 && told@[i].height == 0
                && told@[i].refresh_rate == 0
        },
{
    assert(call_requires(handle_ipc_command, (IpcCommand::GetOutputs, space)));
    let told = answer.0->Outputs_0;
    assert(told@[i].tells(space.outputs@[i]));
}

/// Whether a window is of the application and has the title that are asked for, as far as they are.
pub open spec fn window_is_wanted(
    window: SpaceWindow,
    app_id: Option<String>,
    title: Option<String>,
) -> bool {
    &&& app_id matches Some(wanted) ==> window.app_id is Some && window.app_id->0@ == wanted@
    &&& title matches Some(wanted) ==> window.title is Some && window.title->0@ == wanted@
}

/// A window that is asked for by its application and title is found if there is one: the workspace
/// that holds it is shown, or one with another such window that comes before it.
pub proof fn wanted_windows_are_focused(
    space: &Space,
    app_id: Option<String>,
    title: Option<String>,
    answer: (IpcReply, IpcAction),
    m: int,
    w: int,
    i: int,
)
    requires
        call_ensures(
            handle_ipc_command,
            (IpcCommand::FocusWindow { app_id, title }, space),
            answer,
        ),
        0 <= m < space.monitors@.len(),
        0 <= w < space.monitors@[m].workspaces@.len(),
        0 <= i < space.monitors@[m].workspaces@[w].windows@.len(),
        window_is_wanted(space.monitors@[m].workspaces@[w].windows@[i], app_id, title),
    ensures
        answer.0 is Done && answer.0->Done_0 is Ok,
        exists|n: int, index: usize, k: int|
            0 <= n <= m && 0 <= index < space.monitors@[n].workspaces@.len() && (n == m ==> index
                <= w) && 0 <= k < space.monitors@[n].workspaces@[index as int].windows@.len()
                && window_is_wanted(
                #[trigger] space.monitors@[n].workspaces@[index as int].windows@[k],
                app_id,
                title,
            ) && answer.1 == (IpcAction::ShowWorkspace {
                output: space.monitors@[n].output,
                index,
            }),
{
    let command = IpcCommand::FocusWindow { app_id, title };
    assert(call_requires(handle_ipc_command, (command, space)));
    let q = window_matches(app_id, title);
    let p = has_window(app_id, title);
    let h = has_workspace(p);
    assert(q(space.monitors@[m].workspaces@[w].windows@[i]));
    lemma_first_index(space.monitors@[m].workspaces@[w].windows@, q);
    assert(p(space.monitors@[m].workspaces@[w]));
    lemma_first_index(space.monitors@[m].workspaces@, p);
    assert(h(space.monitors@[m]));
    lemma_first_index(space.monitors@, h);
    let n = first_index(space.monitors@, h)->0;
    assert(h(space.monitors@[n]));
    lemma_first_index(space.monitors@[n].workspaces@, p);
    let index = first_index(space.monitors@[n].workspaces@, p)->0;
    assert(p(space.monitors@[n].workspaces@[index]));
    let windows = space.monitors@[n].workspaces@[index].windows@;
    lemma_first_index(windows, q);
    let k = first_index(windows, q)->0;
    assert(q(windows[k]));
    let exact = index as usize;
    assert(window_is_wanted(
        space.monitors@[n].workspaces@[exact as int].windows@[k],
        app_id,
        title,
    ));
}

/// Where no window is of the application and has the title that are asked for, that is told, and
/// nothing happens.
pub proof fn unknown_windows_are_not_focused(
    space: &Space,
    app_id: Option<String>,
    title: Option<String>,
    answer: (IpcReply, IpcAction),
)
    requires
        call_ensures(
            handle_ipc_command,
            (IpcCommand::FocusWindow { app_id, title }, space),
            answer,
        ),
        forall|m: int, w: int, i: int|
            0 <= m < space.monitors@.len() && 0 <= w < space.monitors@[m].workspaces@.len() && 0
                <= i < space.monitors@[m].workspaces@[w].windows@.len() ==> !window_is_wanted(
                #[trigger] space.monitors@[m].workspaces@[w].windows@[i],
                app_id,
                title,
            ),
    ensures
        answer.0 matches IpcReply::Done(Err(message)) && message@ == "Window not found"@,
        answer.1 is Nothing,
{
    let command = IpcCommand::FocusWindow { app_id, title };
    assert(call_requires(handle_ipc_command, (command, space)));
    let q = window_matches(app_id, title);
    let p = has_window(app_id, title);
    let h = has_workspace(p);
    assert forall|m: int| 0 <= m < space.monitors@.len() implies !h(
        #[trigger] space.monitors@[m],
    ) by {
        assert forall|w: int| 0 <= w < space.monitors@[m].workspaces@.len() implies !p(
            #[trigger] space.monitors@[m].workspaces@[w],
        ) by {
            let windows = space.monitors@[m].workspaces@[w].windows@;
            assert forall|i: int| 0 <= i < windows.len() implies !q(#[trigger] windows[i]) by {
                assert(!window_is_wanted(
                    space.monitors@[m].workspaces@[w].windows@[i],
                    app_id,
                    title,
                ));
            }
            lemma_first_index_none(windows, q);
        }
        lemma_first_index_none(space.monitors@[m].workspaces@, p);
    }
    lemma_first_index_none(space.monitors@, h);
}

/// A workspace is switched to by its number, if some output has it: the first such workspace is
/// shown, by its place on its output. If there is none, that is told with the number, and nothing
/// happens.
pub proof fn workspaces_are_switched_to_by_number(
    space: &Space,
    id: usize,
    answer: (IpcReply, IpcAction),
)
    requires
        call_ensures(handle_ipc_command, (IpcCommand::SwitchWorkspace { id }, space), answer),
    ensures
        match answer.1 {
            IpcAction::ShowWorkspace { output, index } => answer.0 is Done && answer.0->Done_0 is Ok
                && exists|n: int|
                0 <= n < space.monitors@.len() && (#[trigger] space.monitors@[n]).output == output
                    && index < space.monitors@[n].workspaces@.len()
                    && space.monitors@[n].workspaces@[index as int].id == id && forall|
                    m: int,
                    w: int,
                |
                    0 <= m < space.monitors@.len() && 0 <= w < space.monitors@[m].workspaces@.len()
                        && (#[trigger] space.monitors@[m].workspaces@[w]).id == id ==> n < m || n
                        == m && index <= w,
            IpcAction::Nothing => (forall|m: int, w: int|
                0 <= m < space.monitors@.len() && 0 <= w < space.monitors@[m].workspaces@.len()
                    ==> (#[trigger] space.monitors@[m].workspaces@[w]).id != id)
                && answer.0 is Done && answer.0->Done_0 is Err,
            IpcAction::CloseWindow(_) => false,
        },
{
    let command = IpcCommand::SwitchWorkspace { id };
    assert(call_requires(handle_ipc_command, (command, space)));
    let p = has_id(id);
    let h = has_workspace(p);
    lemma_first_index(space.monitors@, h);
    assert forall|m: int, w: int|
        0 <= m < space.monitors@.len() && 0 <= w < space.monitors@[m].workspaces@.len() && (
        #[trigger] space.monitors@[m].workspaces@[w]).id == id implies h(space.monitors@[m])
        && first_index(space.monitors@[m].workspaces@, p)->0 <= w by {
        lemma_first_index(space.monitors@[m].workspaces@, p);
        assert(p(space.monitors@[m].workspaces@[w]));
    }
    if let Some(n) = first_index(space.monitors@, h) {
        assert(h(space.monitors@[n]));
        lemma_first_index(space.monitors@[n].workspaces@, p);
        let index = first_index(space.monitors@[n].workspaces@, p)->0;
        assert(p(space.monitors@[n].workspaces@[index]));
        assert(space.monitors@[n].output == answer.1->output);
    } else {
        assert forall|m: int, w: int|
            0 <= m < space.monitors@.len() && 0 <= w
                < space.monitors@[m].workspaces@.len() implies (
        #[trigger] space.monitors@[m].workspaces@[w]).id != id by {
            assert(!h(space.monitors@[m]));
        }
    }
}

/// The message about a workspace that does not exist names it.
pub proof fn missing_workspaces_are_named(
    space: &Space,
    id: usize,
    answer: (IpcReply, IpcAction),
    message: String,
)
    requires
        call_ensures(handle_ipc_command, (IpcCommand::SwitchWorkspace { id }, space), answer),
        answer.0 == IpcReply::Done(Err(message)),
    ensures
        message@.len() > 20,
        message@.take(10) == "Workspace "@,
        message@.skip(message@.len() - 10) == " not found"@,
        digits_value(message@.subrange(10, message@.len() - 10)) == id,
        answer.1 is Nothing,
{
    let command = IpcCommand::SwitchWorkspace { id };
    assert(call_requires(handle_ipc_command, (command, space)));
    decimal_reads_back(id as nat);
    reveal_strlit("Workspace ");
    reveal_strlit(" not found");
    let number = decimal(id as nat);
    assert(message@ == "Workspace "@ + number + " not found"@);
    assert(message@.take(10) =~= "Workspace "@);
    assert(message@.skip(message@.len() - 10) =~= " not found"@);
    assert(message@.subrange(10, message@.len() - 10) =~= number);
    assert(without_plus(number).len() > 0);
}

/// The window that has the focus is closed on command, and no other one; without one, that is told.
pub proof fn the_focused_window_is_closed(space: &Space, answer: (IpcReply, IpcAction))
    requires
        call_ensures(handle_ipc_command, (IpcCommand::CloseWindow, space), answer),
    ensures
        space.active_window matches Some(window) ==> answer.1 == IpcAction::CloseWindow(window)
            && answer.0 is Done && answer.0->Done_0 is Ok,
        space.active_window is None ==> answer.1 is Nothing && answer.0 is Done
            && answer.0->Done_0 is Err && answer.0->Done_0->Err_0@ == "No active window to close"@,
{
    assert(call_requires(handle_ipc_command, (IpcCommand::CloseWindow, space)));
}

/// A command reaches the compositor as it was sent, with its parameters, by the handler that is for
/// it.
pub proof fn commands_reach_the_compositor(
    handler: Handler,
    command: Command,
    version: String,
    start: Duration,
    now: Duration,
    dispatch: Dispatch,
)
    requires
        call_ensures(dispatch_command, (handler, command, version, start, now), dispatch),
    ensures
        handler is GetOutputs ==> dispatch == Dispatch::Ask(IpcCommand::GetOutputs),
        handler is GetWorkspaces ==> dispatch == Dispatch::Ask(IpcCommand::GetWorkspaces),
        handler is GetWindows ==> dispatch == Dispatch::Ask(IpcCommand::GetWindows),
        handler is CloseWindow ==> dispatch == Dispatch::Ask(IpcCommand::CloseWindow),
        handler is FocusWindow ==> match command {
            Command::FocusWindow { app_id, title } => dispatch == Dispatch::Ask(
                IpcCommand::FocusWindow { app_id, title },
            ),
            _ => dispatch is Respond && dispatch->Respond_0 is Error
                && dispatch->Respond_0->Error_0@ == "Invalid command"@,
        },
        handler is SwitchWorkspace ==> match command {
            Command::SwitchWorkspace { id } => dispatch == Dispatch::Ask(
                IpcCommand::SwitchWorkspace { id },
            ),
            _ => dispatch is Respond && dispatch->Respond_0 is Error
                && dispatch->Respond_0->Error_0@ == "Invalid command"@,
        },
{
}

/// The state is told at once, with the version and the whole seconds since the start; a clock that
/// was set back counts as no time at all.
pub proof fn uptime_counts_whole_seconds(
    command: Command,
    version: String,
    start: Duration,
    now: Duration,
    dispatch: Dispatch,
)
    requires
        call_ensures(
            dispatch_command,
            (Handler::GetState, command, version, start, now),
            dispatch,
        ),
        now@ <= max_nanos(),
    ensures
        dispatch matches Dispatch::Respond(Response::Success(Some(ResponseData::State {
            version: told,
            uptime,
        }))) && told == version && (now@ < start@ ==> uptime == 0) && (now@ >= start@ ==> uptime
            * 1_000_000_000 <= now@ - start@ < (uptime + 1) * 1_000_000_000),
{
}

/// What the compositor answers is handed on as it is; its errors and failures to reach it are told
/// as errors, with the reason at the end.
pub proof fn answers_are_handed_on(
    answer: Result<IpcReply, IpcFailure>,
    response: Response,
)
    requires
        call_ensures(respond, (answer,), response),
    ensures
        match answer {
            Ok(IpcReply::Outputs(outputs)) => response == Response::Success(
                Some(ResponseData::Outputs(outputs)),
            ),
            Ok(IpcReply::Workspaces(workspaces)) => response == Response::Success(
                Some(ResponseData::Workspaces(workspaces)),
            ),
            Ok(IpcReply::Windows(windows)) => response == Response::Success(
                Some(ResponseData::Windows(windows)),
            ),
            Ok(IpcReply::Done(Ok(_))) => response == Response::Success(None),
            Ok(IpcReply::Done(Err(message))) => response == Response::Error(message),
            Err(IpcFailure::Send(reason)) => response is Error && response->Error_0@
                == "Failed to send command: "@ + reason@,
            Err(IpcFailure::Receive(reason)) => response is Error && response->Error_0@
                == "Failed to receive response: "@ + reason@,
        },
{
}

} // verus!
