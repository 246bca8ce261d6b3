//! Replies of the workspace daemon, and what multi-step commands (running a
//! command to completion, profile setup, opening a profile workspace) conclude
//! from them.
use crate::apps::{app_matches_id, matches_app_id};
use crate::text::{decimal, u32_to_string};
use crate::workspace::{
    LaunchPreview,
    WorkspaceApp, WorkspaceAppLog, WorkspaceClipboard, WorkspaceIpcInfo, WorkspaceScreenshot,
    WorkspaceStatus, WorkspaceWindow,
};
use vstd::prelude::*;
use vstd::string::*;

verus! {

/// The window a window-targeted text action went to, and how it was matched.
#[derive(Clone, Debug)]
pub struct WindowEventTarget {
    pub window_id: String,
    pub title_contains: Option<String>,
    pub class_contains: Option<String>,
    pub pid: Option<u32>,
    pub app_id: Option<String>,
    pub timeout_ms: u64,
}

/// The detail of an event. Text actions (typing, setting the clipboard, pasting)
/// have variants of their own that hold only metadata such as character counts:
/// none of them has a field for the text itself. Other events carry their fields
/// as JSON text (empty when there are none).
#[derive(Clone, Debug)]
pub enum EventDetail {
    TypeText { char_count: usize },
    TypeWindow { target: WindowEventTarget, char_count: usize },
    SetClipboard { selection: String, char_count: usize, bytes: u64 },
    PasteText { selection: String, char_count: usize, bytes: u64, key: String },
    PasteWindow {
        target: WindowEventTarget,
        selection: String,
        char_count: usize,
        bytes: u64,
        key: String,
    },
    Record { json: String },
}

/// One entry of the workspace event log.
#[derive(Clone, Debug)]
pub struct WorkspaceEvent {
    pub sequence: u64,
    pub timestamp_unix: u64,
    pub kind: String,
    pub detail: EventDetail,
}

/// A reply of the workspace daemon.
#[derive(Clone, Debug)]
pub struct IpcResponse {
    pub ok: bool,
    pub message: String,
    pub status: Option<WorkspaceStatus>,
    pub ipc: Option<WorkspaceIpcInfo>,
    pub apps: Option<Vec<WorkspaceApp>>,
    pub windows: Option<Vec<WorkspaceWindow>>,
    pub active_window: Option<WorkspaceWindow>,
    pub screenshot: Option<WorkspaceScreenshot>,
    pub app_log: Option<WorkspaceAppLog>,
    pub clipboard: Option<WorkspaceClipboard>,
    pub events: Option<Vec<WorkspaceEvent>>,
    pub launch_preview: Option<LaunchPreview>,
}

/// The id of the last app in a reply's status: the app a launch added.
pub open spec fn last_status_app_id(r: IpcResponse) -> Option<Seq<char>> {
    match r.status {
        Some(s) => if s.apps@.len() > 0 {
            Some(s.apps@.last().id@)
        } else {
            None
        },
        None => None,
    }
}

/// The id of the app a launch reply reports: the last app of its status.
pub fn launched_app_id(response: &IpcResponse) -> (r: Option<String>)
    ensures
        match r {
            Some(id) => last_status_app_id(*response) == Some(id@),
            None => last_status_app_id(*response) is None,
        },
{
    match &response.status {
        Some(s) => {
            let n = s.apps.len();
            if n > 0 {
                Some(s.apps[n - 1].id.clone())
            } else {
                None
            }
        },
        None => None,
    }
}

/// The id of the app a reply is about: the last of its `apps`, or else the last
/// app of its status.
pub open spec fn last_app_id(r: IpcResponse) -> Option<Seq<char>> {
    match r.apps {
        Some(a) => if a@.len() > 0 {
            Some(a@.last().id@)
        } else {
            last_status_app_id(r)
        },
        None => last_status_app_id(r),
    }
}

/// The id of the app a reply is about.
pub fn response_last_app_id(response: &IpcResponse) -> (r: Option<String>)
    ensures
        match r {
            Some(id) => last_app_id(*response) == Some(id@),
            None => last_app_id(*response) is None,
        },
{
    if let Some(a) = &response.apps {
        let n = a.len();
        if n > 0 {
            return Some(a[n - 1].id.clone());
        }
    }
    launched_app_id(response)
}

/// The index of the first app answering to `app_id` by id or decimal pid.
pub open spec fn id_or_pid_index(apps: Seq<WorkspaceApp>, app_id: Seq<char>) -> Option<int>
    decreases apps.len(),
{
    if apps.len() == 0 {
        None
    } else {
        match id_or_pid_index(apps.drop_last(), app_id) {
            Some(k) => Some(k),
            None => if apps.last().id@ == app_id || decimal(apps.last().pid as nat) == app_id {
                Some(apps.len() - 1)
            } else {
                None
            },
        }
    }
}

/// The exit code of the app `app_id` (by id or pid) in a reply's status.
pub open spec fn status_exit_code(r: IpcResponse, app_id: Seq<char>) -> Option<i32> {
    match r.status {
        Some(s) => match id_or_pid_index(s.apps@, app_id) {
            Some(k) => s.apps@[k].exit_code,
            None => None,
        },
        None => None,
    }
}

/// The exit code a reply reports for an app, by id or pid.
pub fn response_app_exit_code(response: &IpcResponse, app_id: &str) -> (r: Option<i32>)
    ensures
        r == status_exit_code(*response, app_id@),
{
    let s = match &response.status {
        Some(s) => s,
        None => {
            return None;
        },
    };
    let mut i: usize = 0;
    assert(s.apps@.subrange(0, 0) =~= Seq::<WorkspaceApp>::empty());
    while i < s.apps.len()
        invariant
            response.status == Some(*s),
            i <= s.apps@.len(),
            id_or_pid_index(s.apps@.subrange(0, i as int), app_id@) is None,
        decreases s.apps.len() - i,
    {
        let app = &s.apps[i];
        proof {
            let t = s.apps@.subrange(0, i + 1);
            assert(t.drop_last() =~= s.apps@.subrange(0, i as int));
            assert(t.last() == s.apps@[i as int]);
        }
        let pid = u32_to_string(app.pid);
        if crate::permissions::str_eq(app.id.as_str(), app_id) || crate::permissions::str_eq(
            pid.as_str(),
            app_id,
        ) {
            proof {
                lemma_index_prefix(s.apps@, app_id@, i + 1);
            }
            return app.exit_code;
        }
        i += 1;
    }
    proof {
        assert(s.apps@.subrange(0, s.apps@.len() as int) =~= s.apps@);
    }
    None
}

proof fn lemma_index_prefix(apps: Seq<WorkspaceApp>, app_id: Seq<char>, k: int)
    requires
        0 <= k <= apps.len(),
        id_or_pid_index(apps.subrange(0, k), app_id) is Some,
    ensures
        id_or_pid_index(apps, app_id) == id_or_pid_index(apps.subrange(0, k), app_id),
    decreases apps.len() - k,
{
    if k == apps.len() {
        assert(apps.subrange(0, k) =~= apps);
    } else {
        assert(apps.subrange(0, k + 1).drop_last() =~= apps.subrange(0, k));
        lemma_index_prefix(apps, app_id, k + 1);
    }
}

proof fn lemma_index_bounds(apps: Seq<WorkspaceApp>, app_id: Seq<char>)
    ensures
        match id_or_pid_index(apps, app_id) {
            Some(k) => 0 <= k < apps.len(),
            None => true,
        },
    decreases apps.len(),
{
    if apps.len() > 0 {
        lemma_index_bounds(apps.drop_last(), app_id);
    }
}

/// The index of the first app answering to `app_id` (by id, pid or name).
pub open spec fn named_index(apps: Seq<WorkspaceApp>, app_id: Seq<char>) -> Option<int>
    decreases apps.len(),
{
    if apps.len() == 0 {
        None
    } else {
        match named_index(apps.drop_last(), app_id) {
            Some(k) => Some(k),
            None => if app_matches_id(apps.last(), app_id) {
                Some(apps.len() - 1)
            } else {
                None
            },
        }
    }
}

proof fn lemma_named_prefix(apps: Seq<WorkspaceApp>, app_id: Seq<char>, k: int)
    requires
        0 <= k <= apps.len(),
        named_index(apps.subrange(0, k), app_id) is Some,
    ensures
        named_index(apps, app_id) == named_index(apps.subrange(0, k), app_id),
    decreases apps.len() - k,
{
    if k == apps.len() {
        assert(apps.subrange(0, k) =~= apps);
    } else {
        assert(apps.subrange(0, k + 1).drop_last() =~= apps.subrange(0, k));
        lemma_named_prefix(apps, app_id, k + 1);
    }
}

proof fn lemma_named_bounds(apps: Seq<WorkspaceApp>, app_id: Seq<char>)
    ensures
        match named_index(apps, app_id) {
            Some(k) => 0 <= k < apps.len(),
            None => true,
        },
    decreases apps.len(),
{
    if apps.len() > 0 {
        lemma_named_bounds(apps.drop_last(), app_id);
    }
}

fn find_named(apps: &Vec<WorkspaceApp>, app_id: &str) -> (r: Option<usize>)
    ensures
        match r {
            Some(k) => named_index(apps@, app_id@) == Some(k as int),
            None => named_index(apps@, app_id@) is None,
        },
{
    let mut i: usize = 0;
    assert(apps@.subrange(0, 0) =~= Seq::<WorkspaceApp>::empty());
    while i < apps.len()
        invariant
            i <= apps@.len(),
            named_index(apps@.subrange(0, i as int), app_id@) is None,
        decreases apps.len() - i,
    {
        proof {
            let t = apps@.subrange(0, i + 1);
            assert(t.drop_last() =~= apps@.subrange(0, i as int));
            assert(t.last() == apps@[i as int]);
        }
        if matches_app_id(&apps[i], app_id) {
            proof {
                lemma_named_prefix(apps@, app_id@, i + 1);
            }
            return Some(i);
        }
        i += 1;
    }
    proof {
        assert(apps@.subrange(0, apps@.len() as int) =~= apps@);
    }
    None
}

/// The exit code and signal a reply reports for the app `app_id`: from its `apps`
/// if one answers to the id there, else from its status.
pub open spec fn reported_exit(r: IpcResponse, app_id: Seq<char>) -> Option<(Option<i32>, Option<i32>)> {
    let from_apps = match r.apps {
        Some(a) => match named_index(a@, app_id) {
            Some(k) => Some((a@[k].exit_code, a@[k].exit_signal)),
            None => None,
        },
        None => None,
    };
    if from_apps is Some {
        from_apps
    } else {
        match r.status {
            Some(s) => match named_index(s.apps@, app_id) {
                Some(k) => Some((s.apps@[k].exit_code, s.apps@[k].exit_signal)),
                None => None,
            },
            None => None,
        }
    }
}

/// The exit code and signal a reply reports for an app.
pub fn response_app_exit(response: &IpcResponse, app_id: &str) -> (r: Option<(Option<i32>, Option<i32>)>)
    ensures
        r == reported_exit(*response, app_id@),
{
    if let Some(a) = &response.apps {
        proof {
            lemma_named_bounds(a@, app_id@);
        }
        if let Some(k) = find_named(a, app_id) {
            return Some((a[k].exit_code, a[k].exit_signal));
        }
    }
    match &response.status {
        Some(s) => {
            proof {
                lemma_named_bounds(s.apps@, app_id@);
            }
            match find_named(&s.apps, app_id) {
                Some(k) => Some((s.apps[k].exit_code, s.apps[k].exit_signal)),
                None => None,
            }
        },
        None => None,
    }
}

/// What running a command to completion concludes: whether it completed, timed
/// out, was killed for that, and succeeded (completed with exit code 0).
pub open spec fn run_conclusion(wait_ok: bool, kill_on_timeout: bool, exit_code: Option<i32>) -> (
    bool,
    bool,
    bool,
    bool,
) {
    (wait_ok, !wait_ok, !wait_ok && kill_on_timeout, wait_ok && exit_code == Some(0i32))
}

/// Concludes a run from its wait reply and the exit code reported: completed,
/// timed out, killed on timeout, succeeded.
pub fn run_outcome(wait_ok: bool, kill_on_timeout: bool, exit_code: Option<i32>) -> (r: (
    bool,
    bool,
    bool,
    bool,
))
    ensures
        r == run_conclusion(wait_ok, kill_on_timeout, exit_code),
{
    let completed = wait_ok;
    let timed_out = !completed;
    let succeeded = completed && match exit_code {
        Some(c) => c == 0,
        None => false,
    };
    (completed, timed_out, timed_out && kill_on_timeout, succeeded)
}

/// Every reply is ok.
pub open spec fn all_ok(rs: Seq<IpcResponse>) -> bool {
    forall|i: int| 0 <= i < rs.len() ==> (#[trigger] rs[i]).ok
}

fn all_ok_exec(rs: &Vec<IpcResponse>) -> (r: bool)
    ensures
        r == all_ok(rs@),
{
    let mut i: usize = 0;
    while i < rs.len()
        invariant
            i <= rs@.len(),
            forall|j: int| 0 <= j < i ==> (#[trigger] rs@[j]).ok,
        decreases rs.len() - i,
    {
        if !rs[i].ok {
            return false;
        }
        i += 1;
    }
    true
}

/// Whether setup completed: every launch and every wait answered ok, and each
/// launch was waited for.
pub open spec fn setup_completed(launched: Seq<IpcResponse>, waited: Seq<IpcResponse>) -> bool {
    all_ok(launched) && all_ok(waited) && waited.len() == launched.len()
}

/// Whether every waited setup command exited with code 0 (pairing each wait reply
/// with the app id it waited for).
pub open spec fn setup_exit_zero(waited: Seq<IpcResponse>, app_ids: Seq<String>) -> bool {
    forall|i: int|
        0 <= i < waited.len() && i < app_ids.len() ==> status_exit_code(
            #[trigger] waited[i],
            app_ids[i]@,
        ) == Some(0i32)
}

/// What profile setup concludes when it waited (nothing when it did not): whether
/// it completed, and whether it succeeded (completed, every command exiting 0).
pub fn setup_outcome(
    wait: bool,
    launched: &Vec<IpcResponse>,
    waited: &Vec<IpcResponse>,
    app_ids: &Vec<String>,
) -> (r: (Option<bool>, Option<bool>))
    ensures
        !wait ==> r == (None::<bool>, None::<bool>),
        wait ==> r == (
            Some(setup_completed(launched@, waited@)),
            Some(setup_completed(launched@, waited@) && setup_exit_zero(waited@, app_ids@)),
        ),
{
    if !wait {
        return (None, None);
    }
    let completed = all_ok_exec(launched) && all_ok_exec(waited) && waited.len() == launched.len();
    if !completed {
        return (Some(false), Some(false));
    }
    let mut i: usize = 0;
    while i < waited.len() && i < app_ids.len()
        invariant
            wait,
            setup_completed(launched@, waited@),
            i <= waited@.len(),
            forall|j: int|
                0 <= j < i && j < app_ids@.len() ==> status_exit_code(
                    #[trigger] waited@[j],
                    app_ids@[j]@,
                ) == Some(0i32),
        decreases waited.len() - i,
    {
        if response_app_exit_code(&waited[i], app_ids[i].as_str()) != Some(0i32) {
            assert(status_exit_code(waited@[i as int], app_ids@[i as int]@) != Some(0i32));
            assert(!setup_exit_zero(waited@, app_ids@));
            return (Some(true), Some(false));
        }
        i += 1;
    }
    (Some(true), Some(true))
}

/// Whether a profile workspace is ready: it started, setup did not fail, and the
/// startup apps all launched.
pub open spec fn open_ready(start_ok: bool, setup_succeeded: Option<bool>, startup_launched: bool) -> bool {
    start_ok && setup_succeeded != Some(false) && startup_launched
}

/// What opening a profile workspace concludes from the start reply, the setup
/// result (if setup ran) and the startup launch replies (if startup ran):
/// whether the startup apps all launched, and whether the workspace is ready.
pub fn open_outcome(
    start_ok: bool,
    setup_succeeded: Option<bool>,
    startup: Option<&Vec<IpcResponse>>,
) -> (r: (bool, bool))
    ensures
        r.0 == match startup {
            Some(s) => all_ok(s@),
            None => false,
        },
        r.1 == open_ready(start_ok, setup_succeeded, r.0),
{
    let startup_launched = match startup {
        Some(s) => all_ok_exec(s),
        None => false,
    };
    let ready = start_ok && match setup_succeeded {
        Some(b) => b,
        None => true,
    } && startup_launched;
    (startup_launched, ready)
}

/// What running a command to completion gathered and concluded.
#[derive(Clone, Debug)]
pub struct WorkspaceRun {
    pub app_id: String,
    pub launch: IpcResponse,
    pub wait: IpcResponse,
    pub kill: Option<IpcResponse>,
    pub stdout: WorkspaceAppLog,
    pub stderr: WorkspaceAppLog,
    pub completed: bool,
    pub succeeded: bool,
    pub timed_out: bool,
    pub killed_on_timeout: bool,
    pub exit_code: Option<i32>,
    pub exit_signal: Option<i32>,
}

/// The reply that reports how a run ended: the kill reply when the app was
/// killed, else the wait reply.
pub open spec fn exit_source(wait: IpcResponse, kill: Option<IpcResponse>) -> IpcResponse {
    match kill {
        Some(k) => k,
        None => wait,
    }
}

/// Assembles a run from its replies: the exit code and signal come from the kill
/// reply if there is one, else from the wait reply; the run completed when the
/// wait answered ok, timed out otherwise, and succeeded when it completed with
/// exit code 0.
pub fn workspace_run(
    app_id: String,
    launch: IpcResponse,
    wait: IpcResponse,
    kill: Option<IpcResponse>,
    stdout: WorkspaceAppLog,
    stderr: WorkspaceAppLog,
    kill_on_timeout: bool,
) -> (r: WorkspaceRun)
    ensures
        r.app_id == app_id,
        r.launch == launch,
        r.wait == wait,
        r.kill == kill,
        r.stdout == stdout,
        r.stderr == stderr,
        (r.exit_code, r.exit_signal) == match reported_exit(exit_source(wait, kill), app_id@) {
            Some(e) => e,
            None => (None::<i32>, None::<i32>),
        },
        (r.completed, r.timed_out, r.killed_on_timeout, r.succeeded) == run_conclusion(
            wait.ok,
            kill_on_timeout,
            r.exit_code,
        ),
{
    let exit = match &kill {
        Some(k) => response_app_exit(k, app_id.as_str()),
        None => response_app_exit(&wait, app_id.as_str()),
    };
    let (exit_code, exit_signal) = match exit {
        Some(e) => e,
        None => (None, None),
    };
    let (completed, timed_out, killed_on_timeout, succeeded) = run_outcome(
        wait.ok,
        kill_on_timeout,
        exit_code,
    );
    WorkspaceRun {
        app_id,
        launch,
        wait,
        kill,
        stdout,
        stderr,
        completed,
        succeeded,
        timed_out,
        killed_on_timeout,
        exit_code,
        exit_signal,
    }
}

/// What profile setup does after one launch reply.
#[derive(Clone, Debug)]
pub enum SetupStep {
    /// The launch failed: setup stops here.
    Stop,
    /// Wait for the launched app before the next command.
    Wait { app_id: String },
    /// Go on with the next command.
    Next,
    /// The launch answered ok but named no app to wait for.
    NoAppId,
}

/// Decides the step after a setup launch: stop after a failed launch; when
/// waiting, wait for the app the launch added; else go on.
pub fn setup_step(wait: bool, launch: &IpcResponse) -> (r: SetupStep)
    ensures
        !launch.ok ==> r is Stop,
        launch.ok && !wait ==> r is Next,
        launch.ok && wait ==> match last_status_app_id(*launch) {
            Some(id) => r matches SetupStep::Wait { app_id } && app_id@ == id,
            None => r is NoAppId,
        },
{
    if !launch.ok {
        return SetupStep::Stop;
    }
    if !wait {
        return SetupStep::Next;
    }
    match launched_app_id(launch) {
        Some(app_id) => SetupStep::Wait { app_id },
        None => SetupStep::NoAppId,
    }
}

/// What running a profile's setup commands launched, waited for and concluded.
#[derive(Clone, Debug)]
pub struct ProfileSetupRun {
    pub workspace_id: String,
    pub profile_id: String,
    pub wait: bool,
    pub timeout_ms: Option<u64>,
    pub launched: Vec<IpcResponse>,
    pub waited: Vec<IpcResponse>,
    pub completed: Option<bool>,
    pub succeeded: Option<bool>,
}

/// Assembles a setup run from its replies (`app_ids[i]` is the app `waited[i]`
/// waited for); what it concludes is that of `setup_outcome`.
pub fn profile_setup_run(
    workspace_id: String,
    profile_id: String,
    wait: bool,
    timeout_ms: Option<u64>,
    launched: Vec<IpcResponse>,
    waited: Vec<IpcResponse>,
    app_ids: &Vec<String>,
) -> (r: ProfileSetupRun)
    ensures
        r.workspace_id == workspace_id,
        r.profile_id == profile_id,
        r.wait == wait,
        r.timeout_ms == timeout_ms,
        r.launched@ == launched@,
        r.waited@ == waited@,
        !wait ==> r.completed is None && r.succeeded is None,
        wait ==> r.completed == Some(setup_completed(launched@, waited@)),
        wait ==> r.succeeded == Some(
            setup_completed(launched@, waited@) && setup_exit_zero(waited@, app_ids@),
        ),
{
    let (completed, succeeded) = setup_outcome(wait, &launched, &waited, app_ids);
    ProfileSetupRun {
        workspace_id,
        profile_id,
        wait,
        timeout_ms,
        launched,
        waited,
        completed,
        succeeded,
    }
}

/// The launch replies of a profile's startup apps.
#[derive(Clone, Debug)]
pub struct ProfileStartupRun {
    pub workspace_id: String,
    pub profile_id: String,
    pub launched: Vec<IpcResponse>,
}

/// Whether the startup apps run after the setup that ran (if any): unless the
/// setup reported that it did not succeed.
pub fn runs_startup_after(setup: &Option<ProfileSetupRun>) -> (r: bool)
    ensures
        r == match setup {
            Some(s) => s.succeeded != Some(false),
            None => true,
        },
{
    match setup {
        Some(s) => match s.succeeded {
            Some(b) => b,
            None => true,
        },
        None => true,
    }
}

/// What opening a profile workspace did and concluded.
#[derive(Clone, Debug)]
pub struct ProfileWorkspaceOpen {
    pub workspace_id: String,
    pub profile_id: String,
    pub ready: bool,
    pub setup_succeeded: Option<bool>,
    pub startup_launched: bool,
    pub start: IpcResponse,
    pub setup: Option<ProfileSetupRun>,
    pub startup: Option<ProfileStartupRun>,
}

/// Assembles the opening of a profile workspace: setup success is that the setup
/// run reported; the startup apps launched when every startup launch answered
/// ok; the workspace is ready when it started, setup did not fail and the
/// startup apps launched.
pub fn profile_workspace_open(
    workspace_id: String,
    profile_id: String,
    start: IpcResponse,
    setup: Option<ProfileSetupRun>,
    startup: Option<ProfileStartupRun>,
) -> (r: ProfileWorkspaceOpen)
    ensures
        r.workspace_id == workspace_id,
        r.profile_id == profile_id,
        r.start == start,
        r.setup == setup,
        r.startup == startup,
        r.setup_succeeded == match setup {
            Some(s) => s.succeeded,
            None => None,
        },
        r.startup_launched == match startup {
            Some(s) => all_ok(s.launched@),
            None => false,
        },
        r.ready == open_ready(start.ok, r.setup_succeeded, r.startup_launched),
{
    let setup_succeeded = match &setup {
        Some(s) => s.succeeded,
        None => None,
    };
    let (startup_launched, ready) = match &startup {
        Some(s) => open_outcome(start.ok, setup_succeeded, Some(&s.launched)),
        None => open_outcome(start.ok, setup_succeeded, None),
    };
    ProfileWorkspaceOpen {
        workspace_id,
        profile_id,
        ready,
        setup_succeeded,
        startup_launched,
        start,
        setup,
        startup,
    }
}

/// A run either completes or times out; it is killed only after a timeout, and it
/// succeeds only when it completed with exit code 0.
pub proof fn law_run_conclusion_consistent(wait_ok: bool, kill_on_timeout: bool, exit_code: Option<i32>)
    ensures
        run_conclusion(wait_ok, kill_on_timeout, exit_code).1 == !run_conclusion(
            wait_ok,
            kill_on_timeout,
            exit_code,
        ).0,
        run_conclusion(wait_ok, kill_on_timeout, exit_code).2 ==> run_conclusion(
            wait_ok,
            kill_on_timeout,
            exit_code,
        ).1,
        run_conclusion(wait_ok, kill_on_timeout, exit_code).3 ==> run_conclusion(
            wait_ok,
            kill_on_timeout,
            exit_code,
        ).0 && exit_code == Some(0i32),
{
}

/// A profile workspace is ready only when it started, no setup failed, and its
/// startup apps launched; setup that did not run does not hold it back.
pub proof fn law_open_ready(start_ok: bool, setup_succeeded: Option<bool>, startup_launched: bool)
    ensures
        open_ready(start_ok, setup_succeeded, startup_launched) ==> start_ok && startup_launched
            && setup_succeeded != Some(false),
        open_ready(start_ok, None, startup_launched) == (start_ok && startup_launched),
{
}

/// A reply with the given outcome and message, carrying the workspace status and
/// nothing else.
pub fn response_with_status(ok: bool, message: String, status: WorkspaceStatus) -> (r: IpcResponse)
    ensures
        r.ok == ok,
        r.message == message,
        r.status == Some(status),
        r.ipc is None && r.apps is None && r.windows is None && r.active_window is None,
        r.screenshot is None && r.app_log is None && r.clipboard is None && r.events is None,
        r.launch_preview is None,
{
    IpcResponse {
        ok,
        message,
        status: Some(status),
        ipc: None,
        apps: None,
        windows: None,
        active_window: None,
        screenshot: None,
        app_log: None,
        clipboard: None,
        events: None,
        launch_preview: None,
    }
}

/// A failed reply with the given message, carrying the status when there is one.
pub fn error_response(message: String, status: Option<WorkspaceStatus>) -> (r: IpcResponse)
    ensures
        !r.ok,
        r.message == message,
        r.status == status,
        r.ipc is None && r.apps is None && r.windows is None && r.active_window is None,
        r.screenshot is None && r.app_log is None && r.clipboard is None && r.events is None,
        r.launch_preview is None,
{
    IpcResponse {
        ok: false,
        message,
        status,
        ipc: None,
        apps: None,
        windows: None,
        active_window: None,
        screenshot: None,
        app_log: None,
        clipboard: None,
        events: None,
        launch_preview: None,
    }
}

/// Setup succeeds only when every command it waited for exited 0: if any waited
/// reply (paired with the app id it waited for) reports another exit code, or none,
/// setup did not succeed; and when every one reports 0, it did.
pub proof fn law_setup_success_needs_every_exit_zero(
    waited: Seq<IpcResponse>,
    app_ids: Seq<String>,
    i: int,
)
    ensures
        0 <= i < waited.len() && i < app_ids.len() && status_exit_code(waited[i], app_ids[i]@)
            != Some(0i32) ==> !setup_exit_zero(waited, app_ids),
        setup_exit_zero(waited, app_ids) && 0 <= i < waited.len() && i < app_ids.len()
            ==> status_exit_code(waited[i], app_ids[i]@) == Some(0i32),
        (forall|k: int|
            0 <= k < waited.len() && k < app_ids.len() ==> status_exit_code(waited[k], app_ids[k]@)
                == Some(0i32)) ==> setup_exit_zero(waited, app_ids),
{
}

} // verus!
