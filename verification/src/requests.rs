//! Requests to the workspace daemon: what each client command asks for, built only
//! after its arguments pass their checks.
use crate::checks::{
    app_filters_issue, app_name_issue, blank_filter, click_issue, clipboard_issue, default_paste_key,
    launch_ack_issue, launch_spec_issue, normalize_paste_key, sanitize_workspace_id,
    sanitize_x11_id, validate_app_list_filters, validate_clipboard_text, validate_click_options,
    validate_key_text, validate_launch_policy_ack, validate_launch_spec, validate_log_stream,
    validate_relative_click_coordinates, validate_scroll_options, validate_window_list_filters,
    validate_window_match_options, validate_window_size, validate_window_target_options,
    window_match_issue, window_target_issue, workspace_id_issue, x11_id_issue, WorkspaceError,
    WorkspaceIssue, MAX_SCROLL_AMOUNT,
};
use crate::policy::AppliedWorkspacePolicy;
use crate::text::{chars_eq, chars_of, is_blank, lower_chars, lower_seq, owned, trim, trim_str};
use crate::workspace::{EnvVar, LaunchSpec};
use vstd::prelude::*;
use vstd::string::*;

verus! {

/// A scroll direction.
#[derive(Clone, Copy, Debug, PartialEq, Eq, Structural)]
pub enum ScrollDirection {
    Up,
    Down,
    Left,
    Right,
}

/// The name of a scroll direction.
pub open spec fn scroll_direction_name(d: ScrollDirection) -> Seq<char> {
    match d {
        ScrollDirection::Up => "up"@,
        ScrollDirection::Down => "down"@,
        ScrollDirection::Left => "left"@,
        ScrollDirection::Right => "right"@,
    }
}

/// The X11 mouse button that scrolls in a direction.
pub open spec fn scroll_button(d: ScrollDirection) -> u8 {
    match d {
        ScrollDirection::Up => 4,
        ScrollDirection::Down => 5,
        ScrollDirection::Left => 6,
        ScrollDirection::Right => 7,
    }
}

impl ScrollDirection {
    /// The direction's name.
    pub fn as_str(self) -> (r: &'static str)
        ensures
            r@ == scroll_direction_name(self),
    {
        match self {
            ScrollDirection::Up => "up",
            ScrollDirection::Down => "down",
            ScrollDirection::Left => "left",
            ScrollDirection::Right => "right",
        }
    }

    /// The X11 button (4 to 7) that scrolls this way.
    pub fn x11_button(self) -> (r: u8)
        ensures
            r == scroll_button(self),
    {
        match self {
            ScrollDirection::Up => 4,
            ScrollDirection::Down => 5,
            ScrollDirection::Left => 6,
            ScrollDirection::Right => 7,
        }
    }

    /// Reads a direction name, trimmed and in any ASCII case.
    pub fn parse(value: &str) -> (r: Result<ScrollDirection, WorkspaceError>)
        ensures
            match r {
                Ok(d) => lower_seq(trim(value@)) == scroll_direction_name(d),
                Err(e) => e@ == WorkspaceIssue::ScrollDirectionInvalid && forall|d: ScrollDirection|
                    lower_seq(trim(value@)) != #[trigger] scroll_direction_name(d),
            },
    {
        let t = trim_str(value);
        let lowered = lower_chars(t.as_str());
        if chars_eq(&lowered, &chars_of("up")) {
            return Ok(ScrollDirection::Up);
        }
        if chars_eq(&lowered, &chars_of("down")) {
            return Ok(ScrollDirection::Down);
        }
        if chars_eq(&lowered, &chars_of("left")) {
            return Ok(ScrollDirection::Left);
        }
        if chars_eq(&lowered, &chars_of("right")) {
            return Ok(ScrollDirection::Right);
        }
        proof {
            assert forall|d: ScrollDirection|
                lower_seq(trim(value@)) != #[trigger] scroll_direction_name(d) by {
                match d {
                    ScrollDirection::Up => {},
                    ScrollDirection::Down => {},
                    ScrollDirection::Left => {},
                    ScrollDirection::Right => {},
                }
            }
        }
        Err(WorkspaceError::ScrollDirectionInvalid)
    }
}

/// A request sent to the workspace daemon.
#[derive(Clone, Debug)]
pub enum IpcRequest {
    IpcInfo,
    Status,
    LaunchApp {
        command: Vec<String>,
        name: Option<String>,
        profile_id: Option<String>,
        applied_policy: Option<AppliedWorkspacePolicy>,
        user_acknowledged_unenforced_policy: bool,
        cwd: Option<String>,
        env: Vec<EnvVar>,
        dry_run: bool,
    },
    ListApps {
        app_id: Option<String>,
        name_contains: Option<String>,
        command_contains: Option<String>,
        profile_id: Option<String>,
        running: Option<bool>,
    },
    ListWindows {
        include_hidden: bool,
        title_contains: Option<String>,
        class_contains: Option<String>,
        pid: Option<u32>,
        app_id: Option<String>,
    },
    ActiveWindow,
    Observe { screenshot: bool, include_hidden: bool, output_path: Option<String> },
    WaitWindow {
        title_contains: Option<String>,
        class_contains: Option<String>,
        pid: Option<u32>,
        app_id: Option<String>,
        timeout_ms: u64,
    },
    Screenshot { output_path: Option<String> },
    ScreenshotWindow {
        window_id: Option<String>,
        title_contains: Option<String>,
        class_contains: Option<String>,
        pid: Option<u32>,
        app_id: Option<String>,
        output_path: Option<String>,
        timeout_ms: u64,
    },
    FocusWindow { window_id: String },
    FocusMatchingWindow {
        title_contains: Option<String>,
        class_contains: Option<String>,
        pid: Option<u32>,
        app_id: Option<String>,
        timeout_ms: u64,
    },
    CloseWindow { window_id: String, dry_run: bool },
    CloseMatchingWindow {
        title_contains: Option<String>,
        class_contains: Option<String>,
        pid: Option<u32>,
        app_id: Option<String>,
        timeout_ms: u64,
        dry_run: bool,
    },
    MoveWindow {
        window_id: Option<String>,
        title_contains: Option<String>,
        class_contains: Option<String>,
        pid: Option<u32>,
        app_id: Option<String>,
        x: i32,
        y: i32,
        timeout_ms: u64,
    },
    ResizeWindow {
        window_id: Option<String>,
        title_contains: Option<String>,
        class_contains: Option<String>,
        pid: Option<u32>,
        app_id: Option<String>,
        width: u32,
        height: u32,
        timeout_ms: u64,
    },
    RaiseWindow {
        window_id: Option<String>,
        title_contains: Option<String>,
        class_contains: Option<String>,
        pid: Option<u32>,
        app_id: Option<String>,
        timeout_ms: u64,
    },
    MinimizeWindow {
        window_id: Option<String>,
        title_contains: Option<String>,
        class_contains: Option<String>,
        pid: Option<u32>,
        app_id: Option<String>,
        timeout_ms: u64,
    },
    ShowWindow {
        window_id: Option<String>,
        title_contains: Option<String>,
        class_contains: Option<String>,
        pid: Option<u32>,
        app_id: Option<String>,
        timeout_ms: u64,
    },
    Click { x: i32, y: i32, button: u8, count: u8 },
    ClickWindow {
        window_id: Option<String>,
        title_contains: Option<String>,
        class_contains: Option<String>,
        pid: Option<u32>,
        app_id: Option<String>,
        x: i32,
        y: i32,
        button: u8,
        count: u8,
        timeout_ms: u64,
    },
    MovePointer { x: i32, y: i32 },
    MovePointerWindow {
        window_id: Option<String>,
        title_contains: Option<String>,
        class_contains: Option<String>,
        pid: Option<u32>,
        app_id: Option<String>,
        x: i32,
        y: i32,
        timeout_ms: u64,
    },
    Drag { from_x: i32, from_y: i32, to_x: i32, to_y: i32, button: u8 },
    DragWindow {
        window_id: Option<String>,
        title_contains: Option<String>,
        class_contains: Option<String>,
        pid: Option<u32>,
        app_id: Option<String>,
        from_x: i32,
        from_y: i32,
        to_x: i32,
        to_y: i32,
        button: u8,
        timeout_ms: u64,
    },
    Scroll { x: i32, y: i32, direction: ScrollDirection, amount: u8 },
    ScrollWindow {
        window_id: Option<String>,
        title_contains: Option<String>,
        class_contains: Option<String>,
        pid: Option<u32>,
        app_id: Option<String>,
        x: i32,
        y: i32,
        direction: ScrollDirection,
        amount: u8,
        timeout_ms: u64,
    },
    Key { key: String },
    KeyWindow {
        window_id: Option<String>,
        title_contains: Option<String>,
        class_contains: Option<String>,
        pid: Option<u32>,
        app_id: Option<String>,
        key: String,
        timeout_ms: u64,
    },
    TypeText { text: String },
    TypeWindow {
        window_id: Option<String>,
        title_contains: Option<String>,
        class_contains: Option<String>,
        pid: Option<u32>,
        app_id: Option<String>,
        text: String,
        timeout_ms: u64,
    },
    SetClipboard { text: String },
    GetClipboard,
    PasteText { text: String, key: String },
    PasteWindow {
        window_id: Option<String>,
        title_contains: Option<String>,
        class_contains: Option<String>,
        pid: Option<u32>,
        app_id: Option<String>,
        text: String,
        key: String,
        timeout_ms: u64,
    },
    ReadAppLog { app_id: String, stream: String, tail_bytes: Option<u64> },
    WaitApp { app_id: String, timeout_ms: u64, kill_on_timeout: bool },
    ReadEvents { tail: Option<usize> },
    KillApp { app_id: String, dry_run: bool },
    Stop { dry_run: bool },
}

/// A request and the (checked, trimmed) id of the workspace it goes to.
#[derive(Clone, Debug)]
pub struct WorkspaceRequest {
    pub workspace_id: String,
    pub request: IpcRequest,
}

/// The first of two problems.
pub open spec fn first_of(a: Option<WorkspaceIssue>, b: Option<WorkspaceIssue>) -> Option<
    WorkspaceIssue,
> {
    if a is Some {
        a
    } else {
        b
    }
}

/// `r` is `request` for workspace `id` when neither the id nor the request's own
/// `issue` is a problem, and otherwise the first problem.
pub open spec fn built(
    r: Result<WorkspaceRequest, WorkspaceError>,
    id: Seq<char>,
    issue: Option<WorkspaceIssue>,
    request: IpcRequest,
) -> bool {
    match r {
        Ok(w) => first_of(workspace_id_issue(id), issue) is None && w.workspace_id@ == trim(id)
            && w.request == request,
        Err(e) => first_of(workspace_id_issue(id), issue) == Some(e@),
    }
}

/// How long a request waits for a window or an app when no timeout is given.
pub const DEFAULT_APP_WAIT_TIMEOUT_MS: u64 = 30000;

/// The timeout given, or the default wait.
pub open spec fn timeout_or_default(t: Option<u64>) -> u64 {
    match t {
        Some(v) => v,
        None => DEFAULT_APP_WAIT_TIMEOUT_MS,
    }
}

fn timeout_or(t: Option<u64>) -> (r: u64)
    ensures
        r == timeout_or_default(t),
{
    match t {
        Some(v) => v,
        None => DEFAULT_APP_WAIT_TIMEOUT_MS,
    }
}

/// The mouse button given, or the left button.
pub open spec fn button_or_default(b: Option<u8>) -> u8 {
    match b {
        Some(v) => v,
        None => 1,
    }
}

/// The click count given, or a single click.
pub open spec fn count_or_default(c: Option<u8>) -> u8 {
    match c {
        Some(v) => v,
        None => 1,
    }
}

/// The scroll amount given, or one step.
pub open spec fn amount_or_default(a: Option<u8>) -> u8 {
    match a {
        Some(v) => v,
        None => 1,
    }
}

/// A point relative to a window must not be negative.
pub open spec fn relative_point_issue(x: i32, y: i32) -> Option<WorkspaceIssue> {
    if x < 0 || y < 0 {
        Some(WorkspaceIssue::WindowCoordinatesNegative)
    } else {
        None
    }
}

/// A scroll amount must be 1 to 100 steps.
pub open spec fn scroll_issue(amount: u8) -> Option<WorkspaceIssue> {
    if amount == 0 || amount > MAX_SCROLL_AMOUNT {
        Some(WorkspaceIssue::ScrollAmountRange)
    } else {
        None
    }
}

/// A request that carries nothing but the workspace id.
fn plain(id: &str, request: IpcRequest) -> (r: Result<WorkspaceRequest, WorkspaceError>)
    ensures
        built(r, id@, None, request),
{
    match sanitize_workspace_id(id) {
        Ok(workspace_id) => Ok(WorkspaceRequest { workspace_id, request }),
        Err(e) => Err(e),
    }
}

/// A request for the workspace's status.
pub fn status_workspace(id: &str) -> (r: Result<WorkspaceRequest, WorkspaceError>)
    ensures
        built(r, id@, None, IpcRequest::Status),
{
    plain(id, IpcRequest::Status)
}

/// A request for how to talk to the workspace daemon.
pub fn ipc_info(id: &str) -> (r: Result<WorkspaceRequest, WorkspaceError>)
    ensures
        built(r, id@, None, IpcRequest::IpcInfo),
{
    plain(id, IpcRequest::IpcInfo)
}

/// A request for the focused window.
pub fn active_window(id: &str) -> (r: Result<WorkspaceRequest, WorkspaceError>)
    ensures
        built(r, id@, None, IpcRequest::ActiveWindow),
{
    plain(id, IpcRequest::ActiveWindow)
}

/// A request for the workspace clipboard.
pub fn get_clipboard(id: &str) -> (r: Result<WorkspaceRequest, WorkspaceError>)
    ensures
        built(r, id@, None, IpcRequest::GetClipboard),
{
    plain(id, IpcRequest::GetClipboard)
}

/// A request for the recent workspace events.
pub fn read_events(id: &str, tail: Option<usize>) -> (r: Result<WorkspaceRequest, WorkspaceError>)
    ensures
        built(r, id@, None, IpcRequest::ReadEvents { tail }),
{
    plain(id, IpcRequest::ReadEvents { tail })
}

/// A request to stop the workspace, or on a dry run to report its running apps.
pub fn stop_workspace(id: &str, dry_run: bool) -> (r: Result<WorkspaceRequest, WorkspaceError>)
    ensures
        built(r, id@, None, IpcRequest::Stop { dry_run }),
{
    plain(id, IpcRequest::Stop { dry_run })
}

/// A request for an observation of the workspace: status, windows and optionally
/// a screenshot.
pub fn observe(id: &str, screenshot: bool, include_hidden: bool, output_path: Option<String>) -> (r:
    Result<WorkspaceRequest, WorkspaceError>)
    ensures
        built(r, id@, None, IpcRequest::Observe { screenshot, include_hidden, output_path }),
{
    plain(id, IpcRequest::Observe { screenshot, include_hidden, output_path })
}

/// A request for a screenshot of the whole display.
pub fn screenshot(id: &str, output_path: Option<String>) -> (r: Result<WorkspaceRequest, WorkspaceError>)
    ensures
        built(r, id@, None, IpcRequest::Screenshot { output_path }),
{
    plain(id, IpcRequest::Screenshot { output_path })
}

/// A request to move the pointer to `x`, `y` on the display.
pub fn move_pointer(id: &str, x: i32, y: i32) -> (r: Result<WorkspaceRequest, WorkspaceError>)
    ensures
        built(r, id@, None, IpcRequest::MovePointer { x, y }),
{
    plain(id, IpcRequest::MovePointer { x, y })
}

/// A request to launch an app as `spec` describes, once the launch passes its
/// checks and acknowledges any unenforced policy. `cwd_is_dir` tells whether the
/// launch cwd is a directory on the host.
pub fn launch_app_with_spec(id: &str, spec: LaunchSpec, cwd_is_dir: bool) -> (r: Result<
    WorkspaceRequest,
    WorkspaceError,
>)
    ensures
        built(
            r,
            id@,
            first_of(launch_spec_issue(spec, cwd_is_dir), launch_ack_issue(spec)),
            IpcRequest::LaunchApp {
                command: spec.command,
                name: spec.name,
                profile_id: spec.profile_id,
                applied_policy: spec.applied_policy,
                user_acknowledged_unenforced_policy: spec.user_acknowledged_unenforced_policy,
                cwd: spec.cwd,
                env: spec.env,
                dry_run: false,
            },
        ),
{
    let workspace_id = match sanitize_workspace_id(id) {
        Ok(w) => w,
        Err(e) => {
            return Err(e);
        },
    };
    match validate_launch_spec(&spec, cwd_is_dir) {
        Ok(()) => {},
        Err(e) => {
            return Err(e);
        },
    }
    match validate_launch_policy_ack(&spec) {
        Ok(()) => {},
        Err(e) => {
            return Err(e);
        },
    }
    Ok(
        WorkspaceRequest {
            workspace_id,
            request: IpcRequest::LaunchApp {
                command: spec.command,
                name: spec.name,
                profile_id: spec.profile_id,
                applied_policy: spec.applied_policy,
                user_acknowledged_unenforced_policy: spec.user_acknowledged_unenforced_policy,
                cwd: spec.cwd,
                env: spec.env,
                dry_run: false,
            },
        },
    )
}

/// A request to preview a launch in the workspace: the daemon plans it and reports
/// the process it would start, or why it would be refused, without starting it.
/// Only the workspace id is checked here; the launch's own checks are part of the
/// preview.
pub fn preview_launch(id: &str, spec: LaunchSpec) -> (r: Result<WorkspaceRequest, WorkspaceError>)
    ensures
        built(
            r,
            id@,
            None,
            IpcRequest::LaunchApp {
                command: spec.command,
                name: spec.name,
                profile_id: spec.profile_id,
                applied_policy: spec.applied_policy,
                user_acknowledged_unenforced_policy: spec.user_acknowledged_unenforced_policy,
                cwd: spec.cwd,
                env: spec.env,
                dry_run: true,
            },
        ),
{
    plain(
        id,
        IpcRequest::LaunchApp {
            command: spec.command,
            name: spec.name,
            profile_id: spec.profile_id,
            applied_policy: spec.applied_policy,
            user_acknowledged_unenforced_policy: spec.user_acknowledged_unenforced_policy,
            cwd: spec.cwd,
            env: spec.env,
            dry_run: true,
        },
    )
}

/// A request for the apps that match the given filters.
pub fn list_apps(
    id: &str,
    app_id: Option<String>,
    name_contains: Option<String>,
    command_contains: Option<String>,
    profile_id: Option<String>,
    running: Option<bool>,
) -> (r: Result<WorkspaceRequest, WorkspaceError>)
    ensures
        built(
            r,
            id@,
            app_filters_issue(app_id, name_contains, command_contains, profile_id),
            IpcRequest::ListApps { app_id, name_contains, command_contains, profile_id, running },
        ),
{
    let workspace_id = match sanitize_workspace_id(id) {
        Ok(w) => w,
        Err(e) => {
            return Err(e);
        },
    };
    match validate_app_list_filters(&app_id, &name_contains, &command_contains, &profile_id) {
        Ok(()) => {},
        Err(e) => {
            return Err(e);
        },
    }
    Ok(
        WorkspaceRequest {
            workspace_id,
            request: IpcRequest::ListApps {
                app_id,
                name_contains,
                command_contains,
                profile_id,
                running,
            },
        },
    )
}

/// A request for the windows that match the given filters.
pub fn list_windows(
    id: &str,
    include_hidden: bool,
    title_contains: Option<String>,
    class_contains: Option<String>,
    pid: Option<u32>,
    app_id: Option<String>,
) -> (r: Result<WorkspaceRequest, WorkspaceError>)
    ensures
        built(
            r,
            id@,
            window_match_issue(title_contains, class_contains, pid, app_id, false),
            IpcRequest::ListWindows { include_hidden, title_contains, class_contains, pid, app_id },
        ),
{
    let workspace_id = match sanitize_workspace_id(id) {
        Ok(w) => w,
        Err(e) => {
            return Err(e);
        },
    };
    match validate_window_list_filters(&title_contains, &class_contains, pid, &app_id) {
        Ok(()) => {},
        Err(e) => {
            return Err(e);
        },
    }
    Ok(
        WorkspaceRequest {
            workspace_id,
            request: IpcRequest::ListWindows {
                include_hidden,
                title_contains,
                class_contains,
                pid,
                app_id,
            },
        },
    )
}

/// A request to wait for a window that matches the filters (none are required).
pub fn wait_window(
    id: &str,
    title_contains: Option<String>,
    class_contains: Option<String>,
    pid: Option<u32>,
    app_id: Option<String>,
    timeout_ms: Option<u64>,
) -> (r: Result<WorkspaceRequest, WorkspaceError>)
    ensures
        built(
            r,
            id@,
            window_match_issue(title_contains, class_contains, pid, app_id, false),
            IpcRequest::WaitWindow {
                title_contains,
                class_contains,
                pid,
                app_id,
                timeout_ms: timeout_or_default(timeout_ms),
            },
        ),
{
    let workspace_id = match sanitize_workspace_id(id) {
        Ok(w) => w,
        Err(e) => {
            return Err(e);
        },
    };
    match validate_window_match_options(&title_contains, &class_contains, pid, &app_id, false) {
        Ok(()) => {},
        Err(e) => {
            return Err(e);
        },
    }
    Ok(
        WorkspaceRequest {
            workspace_id,
            request: IpcRequest::WaitWindow {
                title_contains,
                class_contains,
                pid,
                app_id,
                timeout_ms: timeout_or(timeout_ms),
            },
        },
    )
}

/// A request to focus the first window that matches the filters (at least one).
pub fn focus_matching_window(
    id: &str,
    title_contains: Option<String>,
    class_contains: Option<String>,
    pid: Option<u32>,
    app_id: Option<String>,
    timeout_ms: Option<u64>,
) -> (r: Result<WorkspaceRequest, WorkspaceError>)
    ensures
        built(
            r,
            id@,
            window_match_issue(title_contains, class_contains, pid, app_id, true),
            IpcRequest::FocusMatchingWindow {
                title_contains,
                class_contains,
                pid,
                app_id,
                timeout_ms: timeout_or_default(timeout_ms),
            },
        ),
{
    let workspace_id = match sanitize_workspace_id(id) {
        Ok(w) => w,
        Err(e) => {
            return Err(e);
        },
    };
    match validate_window_match_options(&title_contains, &class_contains, pid, &app_id, true) {
        Ok(()) => {},
        Err(e) => {
            return Err(e);
        },
    }
    Ok(
        WorkspaceRequest {
            workspace_id,
            request: IpcRequest::FocusMatchingWindow {
                title_contains,
                class_contains,
                pid,
                app_id,
                timeout_ms: timeout_or(timeout_ms),
            },
        },
    )
}

/// A request to close the first window that matches the filters (at least one).
pub fn close_matching_window(
    id: &str,
    title_contains: Option<String>,
    class_contains: Option<String>,
    pid: Option<u32>,
    app_id: Option<String>,
    timeout_ms: Option<u64>,
    dry_run: bool,
) -> (r: Result<WorkspaceRequest, WorkspaceError>)
    ensures
        built(
            r,
            id@,
            window_match_issue(title_contains, class_contains, pid, app_id, true),
            IpcRequest::CloseMatchingWindow {
                title_contains,
                class_contains,
                pid,
                app_id,
                timeout_ms: timeout_or_default(timeout_ms),
                dry_run,
            },
        ),
{
    let workspace_id = match sanitize_workspace_id(id) {
        Ok(w) => w,
        Err(e) => {
            return Err(e);
        },
    };
    match validate_window_match_options(&title_contains, &class_contains, pid, &app_id, true) {
        Ok(()) => {},
        Err(e) => {
            return Err(e);
        },
    }
    Ok(
        WorkspaceRequest {
            workspace_id,
            request: IpcRequest::CloseMatchingWindow {
                title_contains,
                class_contains,
                pid,
                app_id,
                timeout_ms: timeout_or(timeout_ms),
                dry_run,
            },
        },
    )
}

/// What a request naming a window by id carries: the trimmed decimal id.
pub open spec fn window_id_request(
    r: Result<WorkspaceRequest, WorkspaceError>,
    id: Seq<char>,
    window_id: Seq<char>,
    focus: bool,
    dry_run: bool,
) -> bool {
    match r {
        Ok(w) => first_of(workspace_id_issue(id), x11_id_issue(window_id, "window id"@)) is None
            && w.workspace_id@ == trim(id) && if focus {
            w.request matches IpcRequest::FocusWindow { window_id: k } && k@ == trim(window_id)
        } else {
            w.request matches IpcRequest::CloseWindow { window_id: k, dry_run: d } && k@ == trim(
                window_id,
            ) && d == dry_run
        },
        Err(e) => first_of(workspace_id_issue(id), x11_id_issue(window_id, "window id"@)) == Some(
            e@,
        ),
    }
}

/// A request to focus a window by id.
pub fn focus_window(id: &str, window_id: String) -> (r: Result<WorkspaceRequest, WorkspaceError>)
    ensures
        window_id_request(r, id@, window_id@, true, false),
{
    let workspace_id = match sanitize_workspace_id(id) {
        Ok(w) => w,
        Err(e) => {
            return Err(e);
        },
    };
    proof {
        reveal_strlit("window id");
    }
    let window_id = match sanitize_x11_id(window_id.as_str(), "window id") {
        Ok(w) => w,
        Err(e) => {
            return Err(e);
        },
    };
    Ok(WorkspaceRequest { workspace_id, request: IpcRequest::FocusWindow { window_id } })
}

/// A request to close a window by id, or on a dry run to resolve it only.
pub fn close_window(id: &str, window_id: String, dry_run: bool) -> (r: Result<WorkspaceRequest, WorkspaceError>)
    ensures
        window_id_request(r, id@, window_id@, false, dry_run),
{
    let workspace_id = match sanitize_workspace_id(id) {
        Ok(w) => w,
        Err(e) => {
            return Err(e);
        },
    };
    proof {
        reveal_strlit("window id");
    }
    let window_id = match sanitize_x11_id(window_id.as_str(), "window id") {
        Ok(w) => w,
        Err(e) => {
            return Err(e);
        },
    };
    Ok(WorkspaceRequest { workspace_id, request: IpcRequest::CloseWindow { window_id, dry_run } })
}

/// A request to click at `x`, `y` on the display; the button defaults to 1 and the
/// count to 1.
pub fn click(id: &str, x: i32, y: i32, button: Option<u8>, count: Option<u8>) -> (r: Result<
    WorkspaceRequest,
    WorkspaceError,
>)
    ensures
        built(
            r,
            id@,
            click_issue(button_or_default(button), count_or_default(count)),
            IpcRequest::Click {
                x,
                y,
                button: button_or_default(button),
                count: count_or_default(count),
            },
        ),
{
    let workspace_id = match sanitize_workspace_id(id) {
        Ok(w) => w,
        Err(e) => {
            return Err(e);
        },
    };
    let b = match button {
        Some(v) => v,
        None => 1,
    };
    let c = match count {
        Some(v) => v,
        None => 1,
    };
    match validate_click_options(b, c) {
        Ok(()) => {},
        Err(e) => {
            return Err(e);
        },
    }
    Ok(WorkspaceRequest { workspace_id, request: IpcRequest::Click { x, y, button: b, count: c } })
}

/// A request to drag on the display from one point to another; the button
/// defaults to 1.
pub fn drag(id: &str, from_x: i32, from_y: i32, to_x: i32, to_y: i32, button: Option<u8>) -> (r:
    Result<WorkspaceRequest, WorkspaceError>)
    ensures
        built(
            r,
            id@,
            click_issue(button_or_default(button), 1),
            IpcRequest::Drag { from_x, from_y, to_x, to_y, button: button_or_default(button) },
        ),
{
    let workspace_id = match sanitize_workspace_id(id) {
        Ok(w) => w,
        Err(e) => {
            return Err(e);
        },
    };
    let b = match button {
        Some(v) => v,
        None => 1,
    };
    match validate_click_options(b, 1) {
        Ok(()) => {},
        Err(e) => {
            return Err(e);
        },
    }
    Ok(
        WorkspaceRequest {
            workspace_id,
            request: IpcRequest::Drag { from_x, from_y, to_x, to_y, button: b },
        },
    )
}

/// A request to scroll at `x`, `y` on the display; the amount defaults to 1.
pub fn scroll(id: &str, x: i32, y: i32, direction: ScrollDirection, amount: Option<u8>) -> (r:
    Result<WorkspaceRequest, WorkspaceError>)
    ensures
        built(
            r,
            id@,
            scroll_issue(amount_or_default(amount)),
            IpcRequest::Scroll { x, y, direction, amount: amount_or_default(amount) },
        ),
{
    let workspace_id = match sanitize_workspace_id(id) {
        Ok(w) => w,
        Err(e) => {
            return Err(e);
        },
    };
    let a = match amount {
        Some(v) => v,
        None => 1,
    };
    match validate_scroll_options(a) {
        Ok(()) => {},
        Err(e) => {
            return Err(e);
        },
    }
    Ok(WorkspaceRequest { workspace_id, request: IpcRequest::Scroll { x, y, direction, amount: a } })
}

/// A request to send a key chord to the focused window.
pub fn key(id: &str, chord: String) -> (r: Result<WorkspaceRequest, WorkspaceError>)
    ensures
        built(
            r,
            id@,
            if trim(chord@).len() == 0 {
                Some(WorkspaceIssue::KeyEmpty)
            } else {
                None
            },
            IpcRequest::Key { key: chord },
        ),
{
    let workspace_id = match sanitize_workspace_id(id) {
        Ok(w) => w,
        Err(e) => {
            return Err(e);
        },
    };
    if is_blank(chord.as_str()) {
        return Err(WorkspaceError::KeyEmpty);
    }
    Ok(WorkspaceRequest { workspace_id, request: IpcRequest::Key { key: chord } })
}

/// A request to type text into the focused window.
pub fn type_text(id: &str, text: String) -> (r: Result<WorkspaceRequest, WorkspaceError>)
    ensures
        built(
            r,
            id@,
            if text@.len() == 0 {
                Some(WorkspaceIssue::TextEmpty)
            } else {
                None
            },
            IpcRequest::TypeText { text },
        ),
{
    let workspace_id = match sanitize_workspace_id(id) {
        Ok(w) => w,
        Err(e) => {
            return Err(e);
        },
    };
    if text.as_str().unicode_len() == 0 {
        return Err(WorkspaceError::TextEmpty);
    }
    Ok(WorkspaceRequest { workspace_id, request: IpcRequest::TypeText { text } })
}

/// A request to set the workspace clipboard.
pub fn set_clipboard(id: &str, text: String) -> (r: Result<WorkspaceRequest, WorkspaceError>)
    ensures
        built(r, id@, clipboard_issue(text@), IpcRequest::SetClipboard { text }),
{
    let workspace_id = match sanitize_workspace_id(id) {
        Ok(w) => w,
        Err(e) => {
            return Err(e);
        },
    };
    match validate_clipboard_text(text.as_str()) {
        Ok(()) => {},
        Err(e) => {
            return Err(e);
        },
    }
    Ok(WorkspaceRequest { workspace_id, request: IpcRequest::SetClipboard { text } })
}

/// The paste key a request carries: the one given, or `ctrl+v`.
pub open spec fn paste_key_text(key: Option<String>) -> Seq<char> {
    match key {
        Some(k) => k@,
        None => default_paste_key(),
    }
}

/// A problem with a paste key: it is blank.
pub open spec fn paste_key_issue(key: Option<String>) -> Option<WorkspaceIssue> {
    if trim(paste_key_text(key)).len() == 0 {
        Some(WorkspaceIssue::KeyEmpty)
    } else {
        None
    }
}

/// A request to paste `text` through the clipboard with a key chord (trimmed;
/// `ctrl+v` when none is given).
pub fn paste_text(id: &str, text: String, key: Option<String>) -> (r: Result<
    WorkspaceRequest,
    WorkspaceError,
>)
    ensures
        match r {
            Ok(w) => {
                &&& first_of(
                    workspace_id_issue(id@),
                    first_of(clipboard_issue(text@), paste_key_issue(key)),
                ) is None
                &&& w.workspace_id@ == trim(id@)
                &&& w.request matches IpcRequest::PasteText { text: t, key: k } && t == text && k@
                    == trim(paste_key_text(key))
            },
            Err(e) => first_of(
                workspace_id_issue(id@),
                first_of(clipboard_issue(text@), paste_key_issue(key)),
            ) == Some(e@),
        },
{
    let workspace_id = match sanitize_workspace_id(id) {
        Ok(w) => w,
        Err(e) => {
            return Err(e);
        },
    };
    match validate_clipboard_text(text.as_str()) {
        Ok(()) => {},
        Err(e) => {
            return Err(e);
        },
    }
    let key = match normalize_paste_key(key) {
        Ok(k) => k,
        Err(e) => {
            return Err(e);
        },
    };
    Ok(WorkspaceRequest { workspace_id, request: IpcRequest::PasteText { text, key } })
}

/// A request to paste `text` into the targeted window with a key chord (trimmed;
/// `ctrl+v` when none is given).
pub fn paste_window(
    id: &str,
    window_id: Option<String>,
    title_contains: Option<String>,
    class_contains: Option<String>,
    pid: Option<u32>,
    app_id: Option<String>,
    text: String,
    key: Option<String>,
    timeout_ms: Option<u64>,
) -> (r: Result<WorkspaceRequest, WorkspaceError>)
    ensures
        ({
            let issue = first_of(
                workspace_id_issue(id@),
                first_of(
                    window_target_issue(window_id, title_contains, class_contains, pid, app_id),
                    first_of(clipboard_issue(text@), paste_key_issue(key)),
                ),
            );
            match r {
                Ok(w) => {
                    &&& issue is None
                    &&& w.workspace_id@ == trim(id@)
                    &&& w.request matches IpcRequest::PasteWindow {
                    window_id: wi,
                    title_contains: tc,
                    class_contains: cc,
                    pid: p,
                    app_id: a,
                    text: t,
                    key: k,
                    timeout_ms: tm,
                } && wi == window_id && tc == title_contains && cc == class_contains && p == pid
                    && a == app_id && t == text && k@ == trim(paste_key_text(key)) && tm
                    == timeout_or_default(timeout_ms)
                },
                Err(e) => issue == Some(e@),
            }
        }),
{
    let workspace_id = match sanitize_workspace_id(id) {
        Ok(w) => w,
        Err(e) => {
            return Err(e);
        },
    };
    match validate_window_target_options(&window_id, &title_contains, &class_contains, pid, &app_id) {
        Ok(()) => {},
        Err(e) => {
            return Err(e);
        },
    }
    match validate_clipboard_text(text.as_str()) {
        Ok(()) => {},
        Err(e) => {
            return Err(e);
        },
    }
    let key = match normalize_paste_key(key) {
        Ok(k) => k,
        Err(e) => {
            return Err(e);
        },
    };
    Ok(
        WorkspaceRequest {
            workspace_id,
            request: IpcRequest::PasteWindow {
                window_id,
                title_contains,
                class_contains,
                pid,
                app_id,
                text,
                key,
                timeout_ms: timeout_or(timeout_ms),
            },
        },
    )
}

/// A blank app id is refused.
pub open spec fn app_id_issue(app_id: Seq<char>) -> Option<WorkspaceIssue> {
    if trim(app_id).len() == 0 {
        Some(WorkspaceIssue::AppIdEmpty)
    } else {
        None
    }
}

/// The stream names a log request accepts, once trimmed.
pub open spec fn log_stream_issue(stream: Seq<char>) -> Option<WorkspaceIssue> {
    if trim(stream) == "stdout"@ || trim(stream) == "stderr"@ {
        None
    } else {
        Some(WorkspaceIssue::LogStreamInvalid)
    }
}

/// A request for the tail of an app's stdout or stderr log.
pub fn read_app_log(id: &str, app_id: String, stream: String, tail_bytes: Option<u64>) -> (r:
    Result<WorkspaceRequest, WorkspaceError>)
    ensures
        built(
            r,
            id@,
            first_of(app_id_issue(app_id@), log_stream_issue(stream@)),
            IpcRequest::ReadAppLog { app_id, stream, tail_bytes },
        ),
{
    let workspace_id = match sanitize_workspace_id(id) {
        Ok(w) => w,
        Err(e) => {
            return Err(e);
        },
    };
    if is_blank(app_id.as_str()) {
        return Err(WorkspaceError::AppIdEmpty);
    }
    match validate_log_stream(stream.as_str()) {
        Ok(_) => {},
        Err(e) => {
            return Err(e);
        },
    }
    Ok(WorkspaceRequest { workspace_id, request: IpcRequest::ReadAppLog { app_id, stream, tail_bytes } })
}

/// A request to wait for an app to exit.
pub fn wait_app(id: &str, app_id: String, timeout_ms: Option<u64>, kill_on_timeout: bool) -> (r:
    Result<WorkspaceRequest, WorkspaceError>)
    ensures
        built(
            r,
            id@,
            app_id_issue(app_id@),
            IpcRequest::WaitApp {
                app_id,
                timeout_ms: timeout_or_default(timeout_ms),
                kill_on_timeout,
            },
        ),
{
    let workspace_id = match sanitize_workspace_id(id) {
        Ok(w) => w,
        Err(e) => {
            return Err(e);
        },
    };
    if is_blank(app_id.as_str()) {
        return Err(WorkspaceError::AppIdEmpty);
    }
    Ok(
        WorkspaceRequest {
            workspace_id,
            request: IpcRequest::WaitApp { app_id, timeout_ms: timeout_or(timeout_ms), kill_on_timeout },
        },
    )
}

/// A request to kill an app, or on a dry run to resolve it only.
pub fn kill_app(id: &str, app_id: String, dry_run: bool) -> (r: Result<WorkspaceRequest, WorkspaceError>)
    ensures
        built(r, id@, app_id_issue(app_id@), IpcRequest::KillApp { app_id, dry_run }),
{
    let workspace_id = match sanitize_workspace_id(id) {
        Ok(w) => w,
        Err(e) => {
            return Err(e);
        },
    };
    if is_blank(app_id.as_str()) {
        return Err(WorkspaceError::AppIdEmpty);
    }
    Ok(WorkspaceRequest { workspace_id, request: IpcRequest::KillApp { app_id, dry_run } })
}

/// A request to move the targeted window to `x`, `y`.
pub fn move_window(
    id: &str,
    window_id: Option<String>,
    title_contains: Option<String>,
    class_contains: Option<String>,
    pid: Option<u32>,
    app_id: Option<String>,
    x: i32,
    y: i32,
    timeout_ms: Option<u64>,
) -> (r: Result<WorkspaceRequest, WorkspaceError>)
    ensures
        built(
            r,
            id@,
            first_of(
                window_target_issue(window_id, title_contains, class_contains, pid, app_id),
                None::<WorkspaceIssue>,
            ),
            IpcRequest::MoveWindow {
                window_id, title_contains, class_contains, pid, app_id, x, y,
                timeout_ms: timeout_or_default(timeout_ms),
            },
        ),
{
    let workspace_id = match sanitize_workspace_id(id) {
        Ok(w) => w,
        Err(e) => {
            return Err(e);
        },
    };
    match validate_window_target_options(&window_id, &title_contains, &class_contains, pid, &app_id) {
        Ok(()) => {},
        Err(e) => {
            return Err(e);
        },
    }
    Ok(
        WorkspaceRequest {
            workspace_id,
            request: IpcRequest::MoveWindow {
                window_id, title_contains, class_contains, pid, app_id, x, y,
                timeout_ms: timeout_or(timeout_ms),
            },
        },
    )
}

/// A request to resize the targeted window; both sides must be positive.
pub fn resize_window(
    id: &str,
    window_id: Option<String>,
    title_contains: Option<String>,
    class_contains: Option<String>,
    pid: Option<u32>,
    app_id: Option<String>,
    width: u32,
    height: u32,
    timeout_ms: Option<u64>,
) -> (r: Result<WorkspaceRequest, WorkspaceError>)
    ensures
        built(
            r,
            id@,
            first_of(
                window_target_issue(window_id, title_contains, class_contains, pid, app_id),
                if width == 0 || height == 0 { Some(WorkspaceIssue::WindowSizeNotPositive) } else { None },
            ),
            IpcRequest::ResizeWindow {
                window_id, title_contains, class_contains, pid, app_id, width, height,
                timeout_ms: timeout_or_default(timeout_ms),
            },
        ),
{
    let workspace_id = match sanitize_workspace_id(id) {
        Ok(w) => w,
        Err(e) => {
            return Err(e);
        },
    };
    match validate_window_target_options(&window_id, &title_contains, &class_contains, pid, &app_id) {
        Ok(()) => {},
        Err(e) => {
            return Err(e);
        },
    }
    match validate_window_size(width, height) {
        Ok(()) => {},
        Err(e) => {
            return Err(e);
        },
    }
    Ok(
        WorkspaceRequest {
            workspace_id,
            request: IpcRequest::ResizeWindow {
                window_id, title_contains, class_contains, pid, app_id, width, height,
                timeout_ms: timeout_or(timeout_ms),
            },
        },
    )
}

/// A request to raise the targeted window.
pub fn raise_window(
    id: &str,
    window_id: Option<String>,
    title_contains: Option<String>,
    class_contains: Option<String>,
    pid: Option<u32>,
    app_id: Option<String>,
    timeout_ms: Option<u64>,
) -> (r: Result<WorkspaceRequest, WorkspaceError>)
    ensures
        built(
            r,
            id@,
            first_of(
                window_target_issue(window_id, title_contains, class_contains, pid, app_id),
                None::<WorkspaceIssue>,
            ),
            IpcRequest::RaiseWindow {
                window_id, title_contains, class_contains, pid, app_id,
                timeout_ms: timeout_or_default(timeout_ms),
            },
        ),
{
    let workspace_id = match sanitize_workspace_id(id) {
        Ok(w) => w,
        Err(e) => {
            return Err(e);
        },
    };
    match validate_window_target_options(&window_id, &title_contains, &class_contains, pid, &app_id) {
        Ok(()) => {},
        Err(e) => {
            return Err(e);
        },
    }
    Ok(
        WorkspaceRequest {
            workspace_id,
            request: IpcRequest::RaiseWindow {
                window_id, title_contains, class_contains, pid, app_id,
                timeout_ms: timeout_or(timeout_ms),
            },
        },
    )
}

/// A request to minimize the targeted window.
pub fn minimize_window(
    id: &str,
    window_id: Option<String>,
    title_contains: Option<String>,
    class_contains: Option<String>,
    pid: Option<u32>,
    app_id: Option<String>,
    timeout_ms: Option<u64>,
) -> (r: Result<WorkspaceRequest, WorkspaceError>)
    ensures
        built(
            r,
            id@,
            first_of(
                window_target_issue(window_id, title_contains, class_contains, pid, app_id),
                None::<WorkspaceIssue>,
            ),
            IpcRequest::MinimizeWindow {
                window_id, title_contains, class_contains, pid, app_id,
                timeout_ms: timeout_or_default(timeout_ms),
            },
        ),
{
    let workspace_id = match sanitize_workspace_id(id) {
        Ok(w) => w,
        Err(e) => {
            return Err(e);
        },
    };
    match validate_window_target_options(&window_id, &title_contains, &class_contains, pid, &app_id) {
        Ok(()) => {},
        Err(e) => {
            return Err(e);
        },
    }
    Ok(
        WorkspaceRequest {
            workspace_id,
            request: IpcRequest::MinimizeWindow {
                window_id, title_contains, class_contains, pid, app_id,
                timeout_ms: timeout_or(timeout_ms),
            },
        },
    )
}

/// A request to show (map and raise) the targeted window.
pub fn show_window(
    id: &str,
    window_id: Option<String>,
    title_contains: Option<String>,
    class_contains: Option<String>,
    pid: Option<u32>,
    app_id: Option<String>,
    timeout_ms: Option<u64>,
) -> (r: Result<WorkspaceRequest, WorkspaceError>)
    ensures
        built(
            r,
            id@,
            first_of(
                window_target_issue(window_id, title_contains, class_contains, pid, app_id),
                None::<WorkspaceIssue>,
            ),
            IpcRequest::ShowWindow {
                window_id, title_contains, class_contains, pid, app_id,
                timeout_ms: timeout_or_default(timeout_ms),
            },
        ),
{
    let workspace_id = match sanitize_workspace_id(id) {
        Ok(w) => w,
        Err(e) => {
            return Err(e);
        },
    };
    match validate_window_target_options(&window_id, &title_contains, &class_contains, pid, &app_id) {
        Ok(()) => {},
        Err(e) => {
            return Err(e);
        },
    }
    Ok(
        WorkspaceRequest {
            workspace_id,
            request: IpcRequest::ShowWindow {
                window_id, title_contains, class_contains, pid, app_id,
                timeout_ms: timeout_or(timeout_ms),
            },
        },
    )
}

/// A request to capture the targeted window.
pub fn screenshot_window(
    id: &str,
    window_id: Option<String>,
    title_contains: Option<String>,
    class_contains: Option<String>,
    pid: Option<u32>,
    app_id: Option<String>,
    output_path: Option<String>,
    timeout_ms: Option<u64>,
) -> (r: Result<WorkspaceRequest, WorkspaceError>)
    ensures
        built(
            r,
            id@,
            first_of(
                window_target_issue(window_id, title_contains, class_contains, pid, app_id),
                None::<WorkspaceIssue>,
            ),
            IpcRequest::ScreenshotWindow {
                window_id, title_contains, class_contains, pid, app_id, output_path,
                timeout_ms: timeout_or_default(timeout_ms),
            },
        ),
{
    let workspace_id = match sanitize_workspace_id(id) {
        Ok(w) => w,
        Err(e) => {
            return Err(e);
        },
    };
    match validate_window_target_options(&window_id, &title_contains, &class_contains, pid, &app_id) {
        Ok(()) => {},
        Err(e) => {
            return Err(e);
        },
    }
    Ok(
        WorkspaceRequest {
            workspace_id,
            request: IpcRequest::ScreenshotWindow {
                window_id, title_contains, class_contains, pid, app_id, output_path,
                timeout_ms: timeout_or(timeout_ms),
            },
        },
    )
}

/// A request to click at `x`, `y` inside the targeted window; the button defaults to 1 and the count to 1.
pub fn click_window(
    id: &str,
    window_id: Option<String>,
    title_contains: Option<String>,
    class_contains: Option<String>,
    pid: Option<u32>,
    app_id: Option<String>,
    x: i32,
    y: i32,
    button: Option<u8>,
    count: Option<u8>,
    timeout_ms: Option<u64>,
) -> (r: Result<WorkspaceRequest, WorkspaceError>)
    ensures
        built(
            r,
            id@,
            first_of(
                window_target_issue(window_id, title_contains, class_contains, pid, app_id),
                first_of(relative_point_issue(x, y), click_issue(button_or_default(button), count_or_default(count))),
            ),
            IpcRequest::ClickWindow {
                window_id, title_contains, class_contains, pid, app_id, x, y, button: button_or_default(button), count: count_or_default(count),
                timeout_ms: timeout_or_default(timeout_ms),
            },
        ),
{
    let b = match button {
        Some(v) => v,
        None => 1,
    };
    let c = match count {
        Some(v) => v,
        None => 1,
    };
    let workspace_id = match sanitize_workspace_id(id) {
        Ok(w) => w,
        Err(e) => {
            return Err(e);
        },
    };
    match validate_window_target_options(&window_id, &title_contains, &class_contains, pid, &app_id) {
        Ok(()) => {},
        Err(e) => {
            return Err(e);
        },
    }
    match validate_relative_click_coordinates(x, y) {
        Ok(()) => {},
        Err(e) => {
            return Err(e);
        },
    }
    match validate_click_options(b, c) {
        Ok(()) => {},
        Err(e) => {
            return Err(e);
        },
    }
    Ok(
        WorkspaceRequest {
            workspace_id,
            request: IpcRequest::ClickWindow {
                window_id, title_contains, class_contains, pid, app_id, x, y, button: b, count: c,
                timeout_ms: timeout_or(timeout_ms),
            },
        },
    )
}

/// A request to move the pointer to `x`, `y` inside the targeted window.
pub fn move_pointer_window(
    id: &str,
    window_id: Option<String>,
    title_contains: Option<String>,
    class_contains: Option<String>,
    pid: Option<u32>,
    app_id: Option<String>,
    x: i32,
    y: i32,
    timeout_ms: Option<u64>,
) -> (r: Result<WorkspaceRequest, WorkspaceError>)
    ensures
        built(
            r,
            id@,
            first_of(
                window_target_issue(window_id, title_contains, class_contains, pid, app_id),
                relative_point_issue(x, y),
            ),
            IpcRequest::MovePointerWindow {
                window_id, title_contains, class_contains, pid, app_id, x, y,
                timeout_ms: timeout_or_default(timeout_ms),
            },
        ),
{
    let workspace_id = match sanitize_workspace_id(id) {
        Ok(w) => w,
        Err(e) => {
            return Err(e);
        },
    };
    match validate_window_target_options(&window_id, &title_contains, &class_contains, pid, &app_id) {
        Ok(()) => {},
        Err(e) => {
            return Err(e);
        },
    }
    match validate_relative_click_coordinates(x, y) {
        Ok(()) => {},
        Err(e) => {
            return Err(e);
        },
    }
    Ok(
        WorkspaceRequest {
            workspace_id,
            request: IpcRequest::MovePointerWindow {
                window_id, title_contains, class_contains, pid, app_id, x, y,
                timeout_ms: timeout_or(timeout_ms),
            },
        },
    )
}

/// A request to drag inside the targeted window from one point to another; the button defaults to 1.
pub fn drag_window(
    id: &str,
    window_id: Option<String>,
    title_contains: Option<String>,
    class_contains: Option<String>,
    pid: Option<u32>,
    app_id: Option<String>,
    from_x: i32,
    from_y: i32,
    to_x: i32,
    to_y: i32,
    button: Option<u8>,
    timeout_ms: Option<u64>,
) -> (r: Result<WorkspaceRequest, WorkspaceError>)
    ensures
        built(
            r,
            id@,
            first_of(
                window_target_issue(window_id, title_contains, class_contains, pid, app_id),
                first_of(relative_point_issue(from_x, from_y), first_of(relative_point_issue(to_x, to_y), click_issue(button_or_default(button), 1))),
            ),
            IpcRequest::DragWindow {
                window_id, title_contains, class_contains, pid, app_id, from_x, from_y, to_x, to_y, button: button_or_default(button),
                timeout_ms: timeout_or_default(timeout_ms),
            },
        ),
{
    let b = match button {
        Some(v) => v,
        None => 1,
    };
    let workspace_id = match sanitize_workspace_id(id) {
        Ok(w) => w,
        Err(e) => {
            return Err(e);
        },
    };
    match validate_window_target_options(&window_id, &title_contains, &class_contains, pid, &app_id) {
        Ok(()) => {},
        Err(e) => {
            return Err(e);
        },
    }
    match validate_relative_click_coordinates(from_x, from_y) {
        Ok(()) => {},
        Err(e) => {
            return Err(e);
        },
    }
    match validate_relative_click_coordinates(to_x, to_y) {
        Ok(()) => {},
        Err(e) => {
            return Err(e);
        },
    }
    match validate_click_options(b, 1) {
        Ok(()) => {},
        Err(e) => {
            return Err(e);
        },
    }
    Ok(
        WorkspaceRequest {
            workspace_id,
            request: IpcRequest::DragWindow {
                window_id, title_contains, class_contains, pid, app_id, from_x, from_y, to_x, to_y, button: b,
                timeout_ms: timeout_or(timeout_ms),
            },
        },
    )
}

/// A request to scroll at `x`, `y` inside the targeted window; the amount defaults to 1.
pub fn scroll_window(
    id: &str,
    window_id: Option<String>,
    title_contains: Option<String>,
    class_contains: Option<String>,
    pid: Option<u32>,
    app_id: Option<String>,
    x: i32,
    y: i32,
    direction: ScrollDirection,
    amount: Option<u8>,
    timeout_ms: Option<u64>,
) -> (r: Result<WorkspaceRequest, WorkspaceError>)
    ensures
        built(
            r,
            id@,
            first_of(
                window_target_issue(window_id, title_contains, class_contains, pid, app_id),
                first_of(relative_point_issue(x, y), scroll_issue(amount_or_default(amount))),
            ),
            IpcRequest::ScrollWindow {
                window_id, title_contains, class_contains, pid, app_id, x, y, direction, amount: amount_or_default(amount),
                timeout_ms: timeout_or_default(timeout_ms),
            },
        ),
{
    let a = match amount {
        Some(v) => v,
        None => 1,
    };
    let workspace_id = match sanitize_workspace_id(id) {
        Ok(w) => w,
        Err(e) => {
            return Err(e);
        },
    };
    match validate_window_target_options(&window_id, &title_contains, &class_contains, pid, &app_id) {
        Ok(()) => {},
        Err(e) => {
            return Err(e);
        },
    }
    match validate_relative_click_coordinates(x, y) {
        Ok(()) => {},
        Err(e) => {
            return Err(e);
        },
    }
    match validate_scroll_options(a) {
        Ok(()) => {},
        Err(e) => {
            return Err(e);
        },
    }
    Ok(
        WorkspaceRequest {
            workspace_id,
            request: IpcRequest::ScrollWindow {
                window_id, title_contains, class_contains, pid, app_id, x, y, direction, amount: a,
                timeout_ms: timeout_or(timeout_ms),
            },
        },
    )
}

/// A request to send a key chord to the targeted window.
pub fn key_window(
    id: &str,
    window_id: Option<String>,
    title_contains: Option<String>,
    class_contains: Option<String>,
    pid: Option<u32>,
    app_id: Option<String>,
    key: String,
    timeout_ms: Option<u64>,
) -> (r: Result<WorkspaceRequest, WorkspaceError>)
    ensures
        built(
            r,
            id@,
            first_of(
                window_target_issue(window_id, title_contains, class_contains, pid, app_id),
                if trim(key@).len() == 0 { Some(WorkspaceIssue::KeyEmpty) } else { None },
            ),
            IpcRequest::KeyWindow {
                window_id, title_contains, class_contains, pid, app_id, key,
                timeout_ms: timeout_or_default(timeout_ms),
            },
        ),
{
    let workspace_id = match sanitize_workspace_id(id) {
        Ok(w) => w,
        Err(e) => {
            return Err(e);
        },
    };
    match validate_window_target_options(&window_id, &title_contains, &class_contains, pid, &app_id) {
        Ok(()) => {},
        Err(e) => {
            return Err(e);
        },
    }
    match validate_key_text(key.as_str()) {
        Ok(()) => {},
        Err(e) => {
            return Err(e);
        },
    }
    Ok(
        WorkspaceRequest {
            workspace_id,
            request: IpcRequest::KeyWindow {
                window_id, title_contains, class_contains, pid, app_id, key,
                timeout_ms: timeout_or(timeout_ms),
            },
        },
    )
}

/// A request to type text into the targeted window.
pub fn type_window(
    id: &str,
    window_id: Option<String>,
    title_contains: Option<String>,
    class_contains: Option<String>,
    pid: Option<u32>,
    app_id: Option<String>,
    text: String,
    timeout_ms: Option<u64>,
) -> (r: Result<WorkspaceRequest, WorkspaceError>)
    ensures
        built(
            r,
            id@,
            first_of(
                window_target_issue(window_id, title_contains, class_contains, pid, app_id),
                if text@.len() == 0 { Some(WorkspaceIssue::TextEmpty) } else { None },
            ),
            IpcRequest::TypeWindow {
                window_id, title_contains, class_contains, pid, app_id, text,
                timeout_ms: timeout_or_default(timeout_ms),
            },
        ),
{
    let workspace_id = match sanitize_workspace_id(id) {
        Ok(w) => w,
        Err(e) => {
            return Err(e);
        },
    };
    match validate_window_target_options(&window_id, &title_contains, &class_contains, pid, &app_id) {
        Ok(()) => {},
        Err(e) => {
            return Err(e);
        },
    }
    if text.as_str().unicode_len() == 0 {
        return Err(WorkspaceError::TextEmpty);
    }
    Ok(
        WorkspaceRequest {
            workspace_id,
            request: IpcRequest::TypeWindow {
                window_id, title_contains, class_contains, pid, app_id, text,
                timeout_ms: timeout_or(timeout_ms),
            },
        },
    )
}

/// Scrolling uses the X11 wheel buttons: up is button 4, down 5, left 6, right 7,
/// so no two directions share a button.
pub proof fn law_scroll_buttons(a: ScrollDirection, b: ScrollDirection)
    ensures
        scroll_button(ScrollDirection::Up) == 4,
        scroll_button(ScrollDirection::Down) == 5,
        scroll_button(ScrollDirection::Left) == 6,
        scroll_button(ScrollDirection::Right) == 7,
        a != b ==> scroll_button(a) != scroll_button(b),
        4 <= scroll_button(a) <= 7,
{
}

} // verus!
