//! Decisions of the workspace daemon around its I/O: where a workspace lives,
//! which X11 display it takes, what `xdotool search` found, how clients reach the
//! daemon, and which events a reader asked for.
use crate::paths::{join_path, join_path_str};
use crate::policy::clone_opt_string;
use crate::requests::IpcRequest;
use crate::responses::{EventDetail, WindowEventTarget, WorkspaceEvent};
use crate::text::{decimal, lines_of, owned, strs, text_lines, trim, trim_str, u32_to_string};
use crate::workspace::{WorkspaceIpcInfo, WorkspaceStatus};
use vstd::prelude::*;
use vstd::string::*;

verus! {

/// The directory that holds every workspace: `agent-workspace-linux` under
/// `$XDG_RUNTIME_DIR`; else under `/run/user/<uid>` when that directory exists and
/// belongs to the user (`run_user_dir_owned`); else under
/// `/tmp/agent-workspace-linux-$USER` (`user` when `USER` is unset).
pub open spec fn runtime_base_dir_spec(
    xdg_runtime_dir: Option<Seq<char>>,
    uid: u32,
    run_user_dir_owned: bool,
    user: Option<Seq<char>>,
) -> Seq<char> {
    let base = match xdg_runtime_dir {
        Some(d) => d,
        None => if run_user_dir_owned {
            run_user_dir_spec(uid)
        } else {
            "/tmp/agent-workspace-linux-"@ + match user {
                Some(u) => u,
                None => "user"@,
            }
        },
    };
    join_path(base, "agent-workspace-linux"@)
}

/// `/run/user/<uid>`.
pub open spec fn run_user_dir_spec(uid: u32) -> Seq<char> {
    "/run/user/"@ + decimal(uid as nat)
}

/// The per-user runtime directory `/run/user/<uid>`, whose existence and owner the
/// caller checks.
pub fn run_user_dir(uid: u32) -> (r: String)
    ensures
        r@ == run_user_dir_spec(uid),
{
    let mut s = owned("/run/user/");
    s.append(u32_to_string(uid).as_str());
    s
}

/// The directory that holds every workspace, from `XDG_RUNTIME_DIR`, the user's
/// uid and whether `/run/user/<uid>` exists and belongs to the user, and `USER`.
pub fn runtime_base_dir(
    xdg_runtime_dir: Option<String>,
    uid: u32,
    run_user_dir_owned: bool,
    user: Option<String>,
) -> (r: String)
    ensures
        r@ == runtime_base_dir_spec(
            match xdg_runtime_dir {
                Some(d) => Some(d@),
                None => None,
            },
            uid,
            run_user_dir_owned,
            match user {
                Some(u) => Some(u@),
                None => None,
            },
        ),
{
    let base = match xdg_runtime_dir {
        Some(d) => d,
        None => if run_user_dir_owned {
            run_user_dir(uid)
        } else {
            let mut s = owned("/tmp/agent-workspace-linux-");
            match user {
                Some(u) => s.append(u.as_str()),
                None => s.append("user"),
            }
            s
        },
    };
    join_path_str(base.as_str(), "agent-workspace-linux")
}

/// The runtime directory of a workspace.
pub fn workspace_dir(base: &str, id: &str) -> (r: String)
    ensures
        r@ == join_path(base@, id@),
{
    join_path_str(base, id)
}

/// The control socket of a workspace.
pub fn workspace_socket_path(base: &str, id: &str) -> (r: String)
    ensures
        r@ == join_path(join_path(base@, id@), "control.sock"@),
{
    let dir = workspace_dir(base, id);
    join_path_str(dir.as_str(), "control.sock")
}

/// The name of X11 display `number`.
pub fn display_name(number: u32) -> (r: String)
    ensures
        r@ == ":"@ + decimal(number as nat),
{
    let mut s = owned(":");
    s.append(u32_to_string(number).as_str());
    s
}

/// What to do with a candidate display.
#[derive(Clone, Copy, Debug, PartialEq, Eq, Structural)]
pub enum DisplayDecision {
    Use,
    Skip,
    UseIfStaleRemoved,
}

/// A display is used when nothing claims it and nothing answers on it; one whose
/// socket or lock file is left by a dead server is used once those are removed;
/// a display that answers is skipped.
pub fn display_decision(artifacts_exist: bool, reachable: bool) -> (r: DisplayDecision)
    ensures
        reachable ==> r == DisplayDecision::Skip,
        !reachable && artifacts_exist ==> r == DisplayDecision::UseIfStaleRemoved,
        !reachable && !artifacts_exist ==> r == DisplayDecision::Use,
{
    if artifacts_exist {
        if reachable {
            DisplayDecision::Skip
        } else {
            DisplayDecision::UseIfStaleRemoved
        }
    } else if reachable {
        DisplayDecision::Skip
    } else {
        DisplayDecision::Use
    }
}

/// The window ids in `xdotool search` output: one per non-blank line, trimmed.
pub open spec fn window_ids_in(lines: Seq<Seq<char>>) -> Seq<Seq<char>>
    decreases lines.len(),
{
    if lines.len() == 0 {
        Seq::empty()
    } else {
        let before = window_ids_in(lines.drop_last());
        if trim(lines.last()).len() > 0 {
            before.push(trim(lines.last()))
        } else {
            before
        }
    }
}

/// Reads the window ids of `xdotool search` output.
pub fn parse_window_ids(stdout: &str) -> (r: Vec<String>)
    ensures
        strs(r@) == window_ids_in(text_lines(stdout@)),
{
    let lines = lines_of(stdout);
    let ghost ls = strs(lines@);
    let mut out: Vec<String> = Vec::new();
    let mut i: usize = 0;
    assert(ls.subrange(0, 0) =~= Seq::<Seq<char>>::empty());
    assert(strs(out@) =~= Seq::<Seq<char>>::empty());
    while i < lines.len()
        invariant
            ls == strs(lines@),
            i <= lines@.len(),
            strs(out@) == window_ids_in(ls.subrange(0, i as int)),
        decreases lines.len() - i,
    {
        proof {
            let t = ls.subrange(0, i + 1);
            assert(t.drop_last() =~= ls.subrange(0, i as int));
            assert(t.last() == lines@[i as int]@);
        }
        let id = trim_str(lines[i].as_str());
        if id.as_str().unicode_len() > 0 {
            let ghost before = strs(out@);
            out.push(id);
            assert(strs(out@) =~= before.push(id@));
        }
        i += 1;
    }
    assert(ls.subrange(0, lines@.len() as int) =~= ls);
    out
}

/// How a client talks to the daemon of a workspace.
pub fn workspace_ipc_info(status: &WorkspaceStatus, server_version: &str) -> (r: WorkspaceIpcInfo)
    ensures
        r.protocol@ == "agent-workspace-linux.ipc"@,
        r.protocol_version == 1,
        r.server_version@ == server_version@,
        r.workspace_id == status.id,
        r.socket_path == status.socket_path,
        r.transport@ == "unix_socket"@,
        r.framing@ == "newline_delimited_json"@,
        r.encoding@ == "utf-8"@,
{
    WorkspaceIpcInfo {
        protocol: owned("agent-workspace-linux.ipc"),
        protocol_version: 1,
        server_version: owned(server_version),
        workspace_id: status.id.clone(),
        socket_path: status.socket_path.clone(),
        transport: owned("unix_socket"),
        framing: owned("newline_delimited_json"),
        encoding: owned("utf-8"),
    }
}

/// The events a reader asked for: the last `tail` of them, or all.
pub open spec fn event_tail(events: Seq<WorkspaceEvent>, tail: Option<usize>) -> Seq<WorkspaceEvent> {
    match tail {
        Some(t) => if t >= events.len() {
            events
        } else {
            events.subrange(events.len() - t, events.len() as int)
        },
        None => events,
    }
}

/// Keeps the last `tail` events (all of them when no tail is asked for).
pub fn tail_events(events: Vec<WorkspaceEvent>, tail: Option<usize>) -> (r: Vec<WorkspaceEvent>)
    ensures
        r@ == event_tail(events@, tail),
{
    match tail {
        Some(t) => {
            if t >= events.len() {
                events
            } else {
                let mut events = events;
                let start: usize = events.len() - t;
                let kept = events.split_off(start);
                kept
            }
        },
        None => events,
    }
}

/// The next event of the log: it carries the next sequence number, which then
/// moves on by one.
pub fn next_event(next_sequence: u64, timestamp_unix: u64, kind: &str, detail: EventDetail) -> (r: (
    WorkspaceEvent,
    u64,
))
    requires
        next_sequence < u64::MAX,
    ensures
        r.0.sequence == next_sequence,
        r.0.timestamp_unix == timestamp_unix,
        r.0.kind@ == kind@,
        r.0.detail == detail,
        r.1 == next_sequence + 1,
{
    (
        WorkspaceEvent {
            sequence: next_sequence,
            timestamp_unix,
            kind: owned(kind),
            detail,
        },
        next_sequence + 1,
    )
}

/// The target of a window-targeted event: the window acted on, and the match the
/// request asked for.
pub open spec fn event_target(
    target: WindowEventTarget,
    window_id: Seq<char>,
    title_contains: Option<String>,
    class_contains: Option<String>,
    pid: Option<u32>,
    app_id: Option<String>,
    timeout_ms: u64,
) -> bool {
    &&& target.window_id@ == window_id
    &&& target.title_contains == title_contains
    &&& target.class_contains == class_contains
    &&& target.pid == pid
    &&& target.app_id == app_id
    &&& target.timeout_ms == timeout_ms
}

/// What the event of a text request records, without the text: for typing, the
/// number of characters (and the window); for setting the clipboard or pasting, the
/// selection and the byte size the clipboard reported, the number of characters,
/// and for pasting the trimmed key chord (and the window). `window_id` is the
/// window a window-targeted request went to; `selection` and `bytes` are what the
/// clipboard reported. Requests that carry no text get `None`.
pub open spec fn text_event_matches(
    request: IpcRequest,
    window_id: Seq<char>,
    selection: Seq<char>,
    bytes: u64,
    r: Option<EventDetail>,
) -> bool {
    match request {
        IpcRequest::TypeText { text } => r matches Some(EventDetail::TypeText { char_count })
            && char_count == text@.len(),
        IpcRequest::TypeWindow { title_contains, class_contains, pid, app_id, text, timeout_ms, .. } =>
            r matches Some(EventDetail::TypeWindow { target, char_count }) && char_count
            == text@.len() && event_target(
            target,
            window_id,
            title_contains,
            class_contains,
            pid,
            app_id,
            timeout_ms,
        ),
        IpcRequest::SetClipboard { text } => r matches Some(
            EventDetail::SetClipboard { selection: sel, char_count, bytes: b },
        ) && sel@ == selection && char_count == text@.len() && b == bytes,
        IpcRequest::PasteText { text, key } => r matches Some(
            EventDetail::PasteText { selection: sel, char_count, bytes: b, key: k },
        ) && sel@ == selection && char_count == text@.len() && b == bytes && k@ == trim(key@),
        IpcRequest::PasteWindow {
            title_contains,
            class_contains,
            pid,
            app_id,
            text,
            key,
            timeout_ms,
            ..
        } => r matches Some(
            EventDetail::PasteWindow { target, selection: sel, char_count, bytes: b, key: k },
        ) && sel@ == selection && char_count == text@.len() && b == bytes && k@ == trim(key@)
            && event_target(target, window_id, title_contains, class_contains, pid, app_id, timeout_ms),
        _ => r is None,
    }
}

/// The event detail of a text request (see `text_event_matches`): the text itself is
/// never part of it.
pub fn text_event_detail(request: &IpcRequest, window_id: &str, selection: &str, bytes: u64) -> (r:
    Option<EventDetail>)
    ensures
        text_event_matches(*request, window_id@, selection@, bytes, r),
{
    match request {
        IpcRequest::TypeText { text } => Some(EventDetail::TypeText { char_count: text.unicode_len() }),
        IpcRequest::TypeWindow { title_contains, class_contains, pid, app_id, text, timeout_ms, .. } => {
            Some(
                EventDetail::TypeWindow {
                    target: WindowEventTarget {
                        window_id: owned(window_id),
                        title_contains: clone_opt_string(title_contains),
                        class_contains: clone_opt_string(class_contains),
                        pid: *pid,
                        app_id: clone_opt_string(app_id),
                        timeout_ms: *timeout_ms,
                    },
                    char_count: text.unicode_len(),
                },
            )
        },
        IpcRequest::SetClipboard { text } => Some(
            EventDetail::SetClipboard {
                selection: owned(selection),
                char_count: text.unicode_len(),
                bytes,
            },
        ),
        IpcRequest::PasteText { text, key } => Some(
            EventDetail::PasteText {
                selection: owned(selection),
                char_count: text.unicode_len(),
                bytes,
                key: trim_str(key.as_str()),
            },
        ),
        IpcRequest::PasteWindow {
            title_contains,
            class_contains,
            pid,
            app_id,
            text,
            key,
            timeout_ms,
            ..
        } => Some(
            EventDetail::PasteWindow {
                target: WindowEventTarget {
                    window_id: owned(window_id),
                    title_contains: clone_opt_string(title_contains),
                    class_contains: clone_opt_string(class_contains),
                    pid: *pid,
                    app_id: clone_opt_string(app_id),
                    timeout_ms: *timeout_ms,
                },
                selection: owned(selection),
                char_count: text.unicode_len(),
                bytes,
                key: trim_str(key.as_str()),
            },
        ),
        _ => None,
    }
}

/// The events handed to a reader are the newest ones of the log, in log order:
/// a suffix of it, as long as the tail asked for (or the whole log).
pub proof fn law_event_tail_is_suffix(events: Seq<WorkspaceEvent>, tail: Option<usize>)
    ensures
        event_tail(events, tail).len() <= events.len(),
        event_tail(events, tail) =~= events.subrange(
            events.len() - event_tail(events, tail).len(),
            events.len() as int,
        ),
        tail is None ==> event_tail(events, tail) == events,
        tail is Some ==> event_tail(events, tail).len() == if tail->0 >= events.len() {
            events.len() as int
        } else {
            tail->0 as int
        },
{
}

/// The longest pause between two polls of a wait, in milliseconds.
pub open spec fn poll_interval_ms() -> u64 {
    100
}

/// What a wait does next.
#[derive(Clone, Copy, Debug, PartialEq, Eq, Structural)]
pub enum WaitStep {
    /// What was waited for happened.
    Finished,
    /// The time is up and the app is to be killed.
    KillAfterTimeout,
    /// The time is up.
    TimedOut,
    /// Poll again after this many milliseconds.
    Poll { sleep_ms: u64 },
}

/// The pause before the next poll: what is left of the timeout, at most the poll
/// interval.
pub open spec fn poll_pause(elapsed_ms: u64, timeout_ms: u64) -> u64 {
    if timeout_ms - elapsed_ms < poll_interval_ms() {
        (timeout_ms - elapsed_ms) as u64
    } else {
        poll_interval_ms()
    }
}

/// The next step of waiting for an app to exit: done once it stopped; when the
/// timeout has passed, kill it if asked to, else give up; otherwise poll again.
pub fn app_wait_step(running: bool, elapsed_ms: u64, timeout_ms: u64, kill_on_timeout: bool) -> (r:
    WaitStep)
    ensures
        r == if !running {
            WaitStep::Finished
        } else if elapsed_ms >= timeout_ms {
            if kill_on_timeout {
                WaitStep::KillAfterTimeout
            } else {
                WaitStep::TimedOut
            }
        } else {
            WaitStep::Poll { sleep_ms: poll_pause(elapsed_ms, timeout_ms) }
        },
{
    if !running {
        WaitStep::Finished
    } else if elapsed_ms >= timeout_ms {
        if kill_on_timeout {
            WaitStep::KillAfterTimeout
        } else {
            WaitStep::TimedOut
        }
    } else {
        let left: u64 = timeout_ms - elapsed_ms;
        WaitStep::Poll { sleep_ms: if left < 100 { left } else { 100 } }
    }
}

/// The next step of waiting for a matching window: done once one is found; when
/// the timeout has passed, give up; otherwise poll again.
pub fn window_wait_step(found: bool, elapsed_ms: u64, timeout_ms: u64) -> (r: WaitStep)
    ensures
        r == if found {
            WaitStep::Finished
        } else if elapsed_ms >= timeout_ms {
            WaitStep::TimedOut
        } else {
            WaitStep::Poll { sleep_ms: poll_pause(elapsed_ms, timeout_ms) }
        },
{
    app_wait_step(!found, elapsed_ms, timeout_ms, false)
}

/// What killing an app does.
#[derive(Clone, Copy, Debug, PartialEq, Eq, Structural)]
pub enum KillStep {
    /// The app had already stopped, as the workspace knew.
    AlreadyStopped,
    /// The app had exited unnoticed: record its exit status.
    RecordExit,
    /// The app runs: terminate its process group.
    Terminate,
}

/// Decides a kill from what is known of the app: whether the workspace still
/// counts it as running, and whether its process has exited meanwhile.
pub fn kill_step(running: bool, exited: bool) -> (r: KillStep)
    ensures
        r == if !running {
            KillStep::AlreadyStopped
        } else if exited {
            KillStep::RecordExit
        } else {
            KillStep::Terminate
        },
{
    if !running {
        KillStep::AlreadyStopped
    } else if exited {
        KillStep::RecordExit
    } else {
        KillStep::Terminate
    }
}

/// The message of a kill reply: `workspace app ID killed`, or `... is already
/// stopped` when nothing had to be terminated.
pub fn kill_message(app_id: &str, killed: bool) -> (r: String)
    ensures
        r@ == "workspace app "@ + app_id@ + if killed {
            " killed"@
        } else {
            " is already stopped"@
        },
{
    let mut s = owned("workspace app ");
    s.append(app_id);
    if killed {
        s.append(" killed");
    } else {
        s.append(" is already stopped");
    }
    s
}

/// The message of a kill dry run: the app that would be killed, or that it has
/// already stopped.
pub fn kill_preview_message(app_id: &str, running: bool) -> (r: String)
    ensures
        r@ == "workspace app "@ + app_id@ + if running {
            " would be killed"@
        } else {
            " is already stopped"@
        },
{
    let mut s = owned("workspace app ");
    s.append(app_id);
    if running {
        s.append(" would be killed");
    } else {
        s.append(" is already stopped");
    }
    s
}

/// The message of a wait reply: the app was killed after the timeout, stopped, or
/// still runs.
pub fn wait_app_message(stopped: bool, killed_on_timeout: bool) -> (r: &'static str)
    ensures
        r@ == if killed_on_timeout {
            "workspace app killed after timeout"@
        } else if stopped {
            "workspace app stopped"@
        } else {
            "workspace app still running after timeout"@
        },
{
    if killed_on_timeout {
        "workspace app killed after timeout"
    } else if stopped {
        "workspace app stopped"
    } else {
        "workspace app still running after timeout"
    }
}

/// A wait never sleeps past its timeout, and always sleeps a little while it polls.
pub proof fn law_poll_pause_within_timeout(elapsed_ms: u64, timeout_ms: u64)
    requires
        elapsed_ms < timeout_ms,
    ensures
        0 < poll_pause(elapsed_ms, timeout_ms) <= poll_interval_ms(),
        elapsed_ms + poll_pause(elapsed_ms, timeout_ms) <= timeout_ms,
{
}

} // verus!
