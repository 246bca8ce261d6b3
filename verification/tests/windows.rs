use agent_workspace_linux::daemon::{
    app_wait_step, display_decision, display_name, kill_message, kill_step, next_event,
    parse_window_ids, runtime_base_dir, tail_events, window_wait_step, workspace_dir,
    kill_preview_message, text_event_detail, wait_app_message, workspace_ipc_info, workspace_socket_path, DisplayDecision, KillStep,
    WaitStep,
};
use agent_workspace_linux::listing::{
    cleanup_entry, cleanup_step, cleanup_target, is_workspace_dir_name, removed_reason,
    would_remove_reason,
    running_reason, workspace_list, CleanupStep,
};
use agent_workspace_linux::requests::IpcRequest;
use agent_workspace_linux::responses::{EventDetail, WorkspaceEvent};
use agent_workspace_linux::windows::{
    filter_matching_windows, log_tail, parse_window_geometry, parse_window_pid,
    parse_xprop_string, resolve_screenshot_path, resolve_window_screenshot_path,
    window_class_from_xprop, window_pid_from_xprop,
};
use agent_workspace_linux::workspace::{
    WindowGeometry, WorkspaceListEntry, WorkspaceStatus, WorkspaceWindow,
};

fn window(id: &str, title: &str, class: Option<&str>, pid: Option<u32>) -> WorkspaceWindow {
    WorkspaceWindow {
        id: id.to_string(),
        title: title.to_string(),
        wm_class: class.map(|c| c.to_string()),
        wm_instance: None,
        pid,
        app_id: None,
        visible: true,
        geometry: WindowGeometry {
            x: 0,
            y: 0,
            width: 100,
            height: 100,
            screen: Some(0),
        },
    }
}

fn event(sequence: u64) -> WorkspaceEvent {
    WorkspaceEvent {
        sequence,
        timestamp_unix: 1_700_000_000 + sequence,
        kind: "app_launch".to_string(),
        detail: EventDetail::Record { json: String::new() },
    }
}

#[test]
fn window_geometry_is_read_from_shell_output() {
    let geometry =
        parse_window_geometry("WINDOW=4194307\nX=10\nY=-20\nWIDTH=640\nHEIGHT=480\nSCREEN=0\n")
            .unwrap();
    assert_eq!(geometry.x, 10);
    assert_eq!(geometry.y, -20);
    assert_eq!(geometry.width, 640);
    assert_eq!(geometry.height, 480);
    assert_eq!(geometry.screen, Some(0));

    let no_screen = parse_window_geometry("X=1\nY=2\nWIDTH=3\nHEIGHT=4").unwrap();
    assert_eq!(no_screen.screen, None);

    assert_eq!(
        parse_window_geometry("Y=2\nWIDTH=3\nHEIGHT=4")
            .unwrap_err()
            .message(),
        "window geometry missing X"
    );
    assert_eq!(
        parse_window_geometry("X=1\nY=2\nWIDTH=-3\nHEIGHT=4")
            .unwrap_err()
            .message(),
        "window geometry missing WIDTH"
    );
}

#[test]
fn xprop_values_are_unquoted() {
    assert_eq!(parse_xprop_string(" \"xterm\" "), Some("xterm".to_string()));
    assert_eq!(parse_xprop_string("\"\""), None);
    assert_eq!(parse_xprop_string(" not found."), None);
    assert_eq!(
        window_class_from_xprop("WM_CLASS(STRING) = \"xterm\", \"XTerm\"\n"),
        (Some("xterm".to_string()), Some("XTerm".to_string()))
    );
    assert_eq!(window_class_from_xprop("WM_CLASS:  not found."), (None, None));
    assert_eq!(
        window_pid_from_xprop("_NET_WM_PID(CARDINAL) = 4242\n"),
        Some(4242)
    );
    assert_eq!(window_pid_from_xprop("_NET_WM_PID:  not found."), None);
    assert_eq!(parse_window_pid(" 77\n"), Some(77));
    assert_eq!(parse_window_pid("x"), None);
}

#[test]
fn window_filters_combine() {
    let windows = vec![
        window("1", "Terminal", Some("XTerm"), Some(100)),
        window("2", "Browser", Some("Chromium"), Some(200)),
        window("3", "Terminal 2", None, None),
    ];
    let by_title = filter_matching_windows(
        windows.clone(),
        &Some("Terminal".to_string()),
        &None,
        None,
        None,
        &vec![false, false, false],
    );
    assert_eq!(
        by_title.iter().map(|w| w.id.as_str()).collect::<Vec<_>>(),
        vec!["1", "3"]
    );
    let by_class = filter_matching_windows(
        windows.clone(),
        &None,
        &Some("xterm".to_string()),
        None,
        None,
        &vec![false, false, false],
    );
    assert_eq!(
        by_class.iter().map(|w| w.id.as_str()).collect::<Vec<_>>(),
        vec!["1"]
    );
    let by_pid = filter_matching_windows(
        windows.clone(),
        &None,
        &None,
        Some(200),
        None,
        &vec![false, false, false],
    );
    assert_eq!(
        by_pid.iter().map(|w| w.id.as_str()).collect::<Vec<_>>(),
        vec!["2"]
    );
    let by_app = filter_matching_windows(
        windows,
        &None,
        &None,
        None,
        Some(100),
        &vec![true, false, true],
    );
    assert_eq!(
        by_app.iter().map(|w| w.id.as_str()).collect::<Vec<_>>(),
        vec!["1"]
    );
}

#[test]
fn screenshot_paths_resolve_under_the_runtime_dir() {
    assert_eq!(
        resolve_screenshot_path("/run/ws", None, 1700000000),
        "/run/ws/screenshot-1700000000.png"
    );
    assert_eq!(
        resolve_screenshot_path("/run/ws", Some("shots/a.png".to_string()), 5),
        "/run/ws/shots/a.png"
    );
    assert_eq!(
        resolve_screenshot_path("/run/ws", Some("/tmp/a.png".to_string()), 5),
        "/tmp/a.png"
    );
    assert_eq!(
        resolve_window_screenshot_path("/run/ws", "4194307", None, 12),
        "/run/ws/screenshot-window-4194307-12.png"
    );
}

#[test]
fn log_tails_keep_the_last_bytes() {
    assert_eq!(log_tail(100, None), (0, 100, false));
    assert_eq!(log_tail(100, Some(30)), (70, 30, true));
    assert_eq!(log_tail(100, Some(500)), (0, 100, false));
    assert_eq!(log_tail(0, Some(0)), (0, 0, false));
}

#[test]
fn runtime_paths() {
    assert_eq!(
        runtime_base_dir(Some("/xdg".to_string()), 1000, true, Some("me".to_string())),
        "/xdg/agent-workspace-linux"
    );
    assert_eq!(
        runtime_base_dir(None, 1000, true, Some("me".to_string())),
        "/run/user/1000/agent-workspace-linux"
    );
    assert_eq!(
        runtime_base_dir(None, 1000, false, Some("me".to_string())),
        "/tmp/agent-workspace-linux-me/agent-workspace-linux"
    );
    assert_eq!(
        runtime_base_dir(None, 1000, false, None),
        "/tmp/agent-workspace-linux-user/agent-workspace-linux"
    );
    assert_eq!(workspace_dir("/run/base", "qa"), "/run/base/qa");
    assert_eq!(
        workspace_socket_path("/run/base", "qa"),
        "/run/base/qa/control.sock"
    );
    assert_eq!(display_name(90), ":90");
    assert_eq!(display_name(179), ":179");
}

#[test]
fn displays_in_use_are_skipped() {
    assert_eq!(display_decision(false, false), DisplayDecision::Use);
    assert_eq!(display_decision(true, false), DisplayDecision::UseIfStaleRemoved);
    assert_eq!(display_decision(true, true), DisplayDecision::Skip);
    assert_eq!(display_decision(false, true), DisplayDecision::Skip);
}

#[test]
fn window_ids_skip_blank_lines() {
    assert_eq!(
        parse_window_ids("4194307\n\n  4194310 \n"),
        vec!["4194307".to_string(), "4194310".to_string()]
    );
    assert!(parse_window_ids("").is_empty());
}

#[test]
fn ipc_info_describes_the_socket() {
    let status = WorkspaceStatus {
        id: "qa".to_string(),
        purpose: None,
        profile_id: None,
        applied_policy: None,
        user_acknowledged_hidden_workspace: true,
        user_acknowledged_unenforced_policy: false,
        ready: true,
        started_at_unix: 0,
        display: ":90".to_string(),
        width: 1280,
        height: 720,
        runtime_dir: "/run/base/qa".to_string(),
        socket_path: "/run/base/qa/control.sock".to_string(),
        xauthority_path: "/run/base/qa/Xauthority".to_string(),
        x_server_pid: 1,
        window_manager_pid: None,
        apps: Vec::new(),
    };
    let info = workspace_ipc_info(&status, "0.1.0");
    assert_eq!(info.protocol, "agent-workspace-linux.ipc");
    assert_eq!(info.protocol_version, 1);
    assert_eq!(info.server_version, "0.1.0");
    assert_eq!(info.workspace_id, "qa");
    assert_eq!(info.socket_path, "/run/base/qa/control.sock");
    assert_eq!(info.transport, "unix_socket");
    assert_eq!(info.framing, "newline_delimited_json");
    assert_eq!(info.encoding, "utf-8");
}

#[test]
fn event_tails_and_sequence_numbers() {
    let events = vec![event(1), event(2), event(3)];
    let last_two = tail_events(events.clone(), Some(2));
    assert_eq!(
        last_two.iter().map(|e| e.sequence).collect::<Vec<_>>(),
        vec![2, 3]
    );
    assert_eq!(tail_events(events.clone(), Some(10)).len(), 3);
    assert_eq!(tail_events(events.clone(), Some(0)).len(), 0);
    assert_eq!(tail_events(events, None).len(), 3);

    let (first, next) =
        next_event(1, 99, "workspace_started", EventDetail::Record { json: String::new() });
    assert_eq!(first.sequence, 1);
    assert_eq!(first.timestamp_unix, 99);
    assert_eq!(first.kind, "workspace_started");
    assert_eq!(next, 2);
    let (second, after) = next_event(
        next,
        100,
        "type_text",
        EventDetail::TypeText { char_count: 5 },
    );
    assert_eq!(second.sequence, 2);
    assert!(matches!(second.detail, EventDetail::TypeText { char_count: 5 }));
    assert_eq!(after, 3);
}

fn entry(id: &str, running: bool) -> WorkspaceListEntry {
    WorkspaceListEntry {
        id: id.to_string(),
        runtime_dir: format!("/run/base/{id}"),
        socket_path: format!("/run/base/{id}/control.sock"),
        running,
        status: None,
        error: if running { None } else { Some("connection refused".to_string()) },
    }
}

#[test]
fn listings_are_sorted_by_id() {
    let list = workspace_list(
        "/run/base".to_string(),
        vec![entry("qa", true), entry("default", false), entry("build", true)],
    );
    assert_eq!(list.runtime_base_dir, "/run/base");
    assert_eq!(
        list.workspaces.iter().map(|e| e.id.as_str()).collect::<Vec<_>>(),
        vec!["build", "default", "qa"]
    );
    assert!(is_workspace_dir_name("qa-1"));
    assert!(!is_workspace_dir_name("not a workspace"));
}

#[test]
fn cleanups_remove_only_stale_targets() {
    assert_eq!(cleanup_target(None).unwrap(), None);
    assert_eq!(cleanup_target(Some(" qa ".to_string())).unwrap(), Some("qa".to_string()));
    assert!(cleanup_target(Some("a b".to_string())).is_err());
    let running = entry("qa", true);
    let stale = entry("old", false);
    assert_eq!(cleanup_step(&running, &None, false), CleanupStep::KeepRunning);
    assert_eq!(cleanup_step(&stale, &None, false), CleanupStep::Remove);
    assert_eq!(cleanup_step(&stale, &None, true), CleanupStep::WouldRemove);
    assert_eq!(cleanup_step(&running, &None, true), CleanupStep::KeepRunning);
    assert_eq!(
        cleanup_step(&stale, &Some("qa".to_string()), false),
        CleanupStep::NotTargeted
    );
    assert_eq!(cleanup_step(&stale, &Some("old".to_string()), false), CleanupStep::Remove);
    assert_eq!(
        cleanup_entry(&stale, would_remove_reason()).reason,
        "stale workspace runtime would be removed"
    );
    assert_eq!(kill_preview_message("app-1", true), "workspace app app-1 would be killed");
    assert_eq!(kill_preview_message("app-1", false), "workspace app app-1 is already stopped");
    let skipped = cleanup_entry(&running, running_reason());
    assert_eq!(skipped.reason, "workspace is running");
    assert_eq!(skipped.runtime_dir, "/run/base/qa");
    assert_eq!(cleanup_entry(&stale, removed_reason()).reason, "removed stale workspace runtime");
}

#[test]
fn waits_poll_until_done_or_timed_out() {
    assert_eq!(app_wait_step(false, 0, 100, false), WaitStep::Finished);
    assert_eq!(app_wait_step(true, 20, 1000, false), WaitStep::Poll { sleep_ms: 100 });
    assert_eq!(app_wait_step(true, 950, 1000, false), WaitStep::Poll { sleep_ms: 50 });
    assert_eq!(app_wait_step(true, 1000, 1000, false), WaitStep::TimedOut);
    assert_eq!(app_wait_step(true, 1200, 1000, true), WaitStep::KillAfterTimeout);
    assert_eq!(window_wait_step(true, 5000, 10), WaitStep::Finished);
    assert_eq!(window_wait_step(false, 10, 10), WaitStep::TimedOut);
    assert_eq!(window_wait_step(false, 0, 30), WaitStep::Poll { sleep_ms: 30 });
}

#[test]
fn kills_decide_from_what_is_known() {
    assert_eq!(kill_step(false, false), KillStep::AlreadyStopped);
    assert_eq!(kill_step(true, true), KillStep::RecordExit);
    assert_eq!(kill_step(true, false), KillStep::Terminate);
    assert_eq!(kill_message("app-1", true), "workspace app app-1 killed");
    assert_eq!(kill_message("app-1", false), "workspace app app-1 is already stopped");
}

#[test]
fn wait_replies_say_how_the_wait_ended() {
    assert_eq!(wait_app_message(true, false), "workspace app stopped");
    assert_eq!(wait_app_message(false, false), "workspace app still running after timeout");
    assert_eq!(wait_app_message(true, true), "workspace app killed after timeout");
    assert_eq!(wait_app_message(false, true), "workspace app killed after timeout");
}

#[test]
fn text_events_record_counts_not_text() {
    let typed = text_event_detail(&IpcRequest::TypeText { text: "héllo".to_string() }, "", "", 0);
    assert!(matches!(typed, Some(EventDetail::TypeText { char_count: 5 })));
    let set = text_event_detail(
        &IpcRequest::SetClipboard { text: "secret".to_string() },
        "",
        "clipboard",
        6,
    );
    match set {
        Some(EventDetail::SetClipboard { selection, char_count, bytes }) => {
            assert_eq!(selection, "clipboard");
            assert_eq!(char_count, 6);
            assert_eq!(bytes, 6);
        }
        other => panic!("unexpected detail {other:?}"),
    }
    let pasted = text_event_detail(
        &IpcRequest::PasteWindow {
            window_id: None,
            title_contains: Some("Editor".to_string()),
            class_contains: None,
            pid: None,
            app_id: None,
            text: "pass word".to_string(),
            key: " ctrl+v ".to_string(),
            timeout_ms: 500,
        },
        "0x200001",
        "clipboard",
        9,
    );
    match pasted {
        Some(EventDetail::PasteWindow { target, selection, char_count, bytes, key }) => {
            assert_eq!(target.window_id, "0x200001");
            assert_eq!(target.title_contains, Some("Editor".to_string()));
            assert_eq!(target.timeout_ms, 500);
            assert_eq!(selection, "clipboard");
            assert_eq!(char_count, 9);
            assert_eq!(bytes, 9);
            assert_eq!(key, "ctrl+v");
        }
        other => panic!("unexpected detail {other:?}"),
    }
    assert!(text_event_detail(&IpcRequest::GetClipboard, "", "clipboard", 3).is_none());
}
