use agent_workspace_linux::apps::{
    app_label, command_matches, filter_workspace_apps, launch_description, matches_app_id,
    resolve_workspace_app,
};
use agent_workspace_linux::checks::WorkspaceError;
use agent_workspace_linux::requests::{
    click, drag, key, kill_app, launch_app_with_spec, list_apps, paste_text, read_app_log,
    read_events, scroll, status_workspace, stop_workspace, close_window, wait_app, wait_window,
    IpcRequest, ScrollDirection,
};
use agent_workspace_linux::workspace::{LaunchSpec, WorkspaceApp};

fn app(id: &str, pid: u32, name: Option<&str>, command: &[&str], running: bool) -> WorkspaceApp {
    WorkspaceApp {
        id: id.to_string(),
        name: name.map(|n| n.to_string()),
        pid,
        profile_id: None,
        mount_isolation: "none".to_string(),
        network_isolation: "none".to_string(),
        command: command.iter().map(|c| c.to_string()).collect(),
        cwd: None,
        env: Vec::new(),
        stdout_path: None,
        stderr_path: None,
        started_at_unix: 0,
        running,
        exit_status: None,
        exit_code: None,
        exit_signal: None,
    }
}

#[test]
fn scroll_directions_parse_in_any_case() {
    assert_eq!(ScrollDirection::parse(" Up ").unwrap(), ScrollDirection::Up);
    assert_eq!(ScrollDirection::parse("DOWN").unwrap(), ScrollDirection::Down);
    assert_eq!(ScrollDirection::parse("left").unwrap().x11_button(), 6);
    assert_eq!(ScrollDirection::Right.x11_button(), 7);
    assert_eq!(ScrollDirection::Up.x11_button(), 4);
    assert_eq!(ScrollDirection::Down.as_str(), "down");
    assert_eq!(
        ScrollDirection::parse("sideways").unwrap_err().message(),
        "scroll direction must be up, down, left, or right"
    );
}

#[test]
fn requests_carry_the_trimmed_workspace_id() {
    let request = status_workspace("  qa ").unwrap();
    assert_eq!(request.workspace_id, "qa");
    assert!(matches!(request.request, IpcRequest::Status));
    assert!(matches!(
        status_workspace("bad id"),
        Err(WorkspaceError::WorkspaceIdInvalid)
    ));
    let events = read_events("qa", Some(5)).unwrap();
    assert!(matches!(events.request, IpcRequest::ReadEvents { tail: Some(5) }));
}

#[test]
fn input_requests_fill_defaults_and_check_ranges() {
    let request = click("default", 10, 20, None, None).unwrap();
    assert!(matches!(
        request.request,
        IpcRequest::Click {
            x: 10,
            y: 20,
            button: 1,
            count: 1
        }
    ));
    assert!(matches!(
        click("default", 1, 1, Some(9), None),
        Err(WorkspaceError::ClickButtonRange)
    ));
    let dragged = drag("default", 1, 2, 3, 4, Some(3)).unwrap();
    assert!(matches!(
        dragged.request,
        IpcRequest::Drag {
            from_x: 1,
            from_y: 2,
            to_x: 3,
            to_y: 4,
            button: 3
        }
    ));
    let scrolled = scroll("default", 5, 5, ScrollDirection::Down, None).unwrap();
    assert!(matches!(
        scrolled.request,
        IpcRequest::Scroll {
            direction: ScrollDirection::Down,
            amount: 1,
            ..
        }
    ));
    assert!(matches!(
        scroll("default", 5, 5, ScrollDirection::Up, Some(0)),
        Err(WorkspaceError::ScrollAmountRange)
    ));
    assert!(matches!(key("default", " ".to_string()), Err(WorkspaceError::KeyEmpty)));
    let pasted = paste_text("default", "hello".to_string(), None).unwrap();
    match pasted.request {
        IpcRequest::PasteText { text, key } => {
            assert_eq!(text, "hello");
            assert_eq!(key, "ctrl+v");
        }
        other => panic!("unexpected request {other:?}"),
    }
    assert!(matches!(
        paste_text("default", String::new(), None),
        Err(WorkspaceError::ClipboardTextEmpty)
    ));
}

#[test]
fn app_requests_check_targets_and_streams() {
    let wait = wait_app("default", "app-1".to_string(), None, true).unwrap();
    assert!(matches!(
        wait.request,
        IpcRequest::WaitApp {
            timeout_ms: 30000,
            kill_on_timeout: true,
            ..
        }
    ));
    assert!(matches!(
        kill_app("default", " ".to_string(), false),
        Err(WorkspaceError::AppIdEmpty)
    ));
    let log = read_app_log("default", "app-1".to_string(), " stderr ".to_string(), Some(10))
        .unwrap();
    match log.request {
        IpcRequest::ReadAppLog {
            stream, tail_bytes, ..
        } => {
            assert_eq!(stream, " stderr ");
            assert_eq!(tail_bytes, Some(10));
        }
        other => panic!("unexpected request {other:?}"),
    }
    assert!(matches!(
        read_app_log("default", "app-1".to_string(), "both".to_string(), None),
        Err(WorkspaceError::LogStreamInvalid)
    ));
    assert!(matches!(
        list_apps("default", None, Some(" ".to_string()), None, None, None),
        Err(WorkspaceError::AppNameFilterEmpty)
    ));
    let wait_any = wait_window("default", None, None, None, None, None).unwrap();
    assert!(matches!(
        wait_any.request,
        IpcRequest::WaitWindow {
            timeout_ms: 30000,
            ..
        }
    ));
    assert!(matches!(
        wait_window("default", Some(" ".to_string()), None, None, None, None),
        Err(WorkspaceError::WindowTitleFilterEmpty)
    ));
}

#[test]
fn launch_requests_need_acknowledged_policy() {
    let spec = LaunchSpec {
        command: vec!["xterm".to_string()],
        name: Some("term".to_string()),
        profile_id: None,
        applied_policy: None,
        user_acknowledged_unenforced_policy: false,
        cwd: None,
        env: Vec::new(),
    };
    let request = launch_app_with_spec("default", spec.clone(), true).unwrap();
    match request.request {
        IpcRequest::LaunchApp { command, name, .. } => {
            assert_eq!(command, vec!["xterm".to_string()]);
            assert_eq!(name, Some("term".to_string()));
        }
        other => panic!("unexpected request {other:?}"),
    }
    let mut empty = spec;
    empty.command.clear();
    assert!(matches!(
        launch_app_with_spec("default", empty, true),
        Err(WorkspaceError::LaunchCommandEmpty)
    ));
}

#[test]
fn apps_answer_to_id_pid_and_name() {
    let term = app("app-1", 4242, Some("term"), &["xterm", "-e", "bash"], true);
    assert!(matches_app_id(&term, "app-1"));
    assert!(matches_app_id(&term, "4242"));
    assert!(matches_app_id(&term, "term"));
    assert!(!matches_app_id(&term, "app-2"));
    assert_eq!(app_label(&term), "app-1 (name \"term\", pid 4242)");
    let unnamed = app("app-2", 7, None, &[], false);
    assert_eq!(app_label(&unnamed), "app-2 (pid 7)");
    let quoted = app("app-3", 9, Some("say \"hi\""), &[], true);
    assert_eq!(app_label(&quoted), "app-3 (name \"say \\\"hi\\\"\", pid 9)");
    assert!(command_matches(&term.command, "XTERM"));
    assert!(command_matches(&term.command, "-e bash"));
    assert!(!command_matches(&term.command, "zsh"));
    assert_eq!(launch_description(&term.command), "xterm -e bash");
    assert_eq!(launch_description(&Vec::new()), "<empty command>");
}

#[test]
fn app_targets_resolve_to_exactly_one_app() {
    let apps = vec![
        app("app-1", 100, Some("editor"), &["gedit"], true),
        app("app-2", 200, Some("editor"), &["gedit"], false),
        app("app-3", 300, None, &["xterm"], true),
    ];
    assert_eq!(resolve_workspace_app(&apps, "300").unwrap(), 2);
    assert_eq!(resolve_workspace_app(&apps, "app-2").unwrap(), 1);
    assert_eq!(
        resolve_workspace_app(&apps, "missing").unwrap_err().message(),
        "workspace app \"missing\" was not found"
    );
    assert_eq!(
        resolve_workspace_app(&apps, "tab\there").unwrap_err().message(),
        "workspace app \"tab\\there\" was not found"
    );
    assert_eq!(
        resolve_workspace_app(&apps, "editor").unwrap_err().message(),
        "workspace app target \"editor\" matched multiple apps: app-1 (name \"editor\", pid 100), app-2 (name \"editor\", pid 200)"
    );
}

#[test]
fn app_listings_apply_every_filter() {
    let apps = vec![
        app("app-1", 100, Some("Editor"), &["gedit"], true),
        app("app-2", 200, Some("editor"), &["gedit"], false),
        app("app-3", 300, None, &["xterm"], true),
    ];
    let running = filter_workspace_apps(apps.clone(), &None, &None, &None, &None, Some(true));
    assert_eq!(
        running.iter().map(|a| a.id.as_str()).collect::<Vec<_>>(),
        vec!["app-1", "app-3"]
    );
    let named = filter_workspace_apps(
        apps.clone(),
        &None,
        &Some("EDIT".to_string()),
        &None,
        &None,
        None,
    );
    assert_eq!(named.len(), 2);
    let by_command = filter_workspace_apps(
        apps.clone(),
        &None,
        &None,
        &Some("term".to_string()),
        &None,
        None,
    );
    assert_eq!(
        by_command.iter().map(|a| a.id.as_str()).collect::<Vec<_>>(),
        vec!["app-3"]
    );
    let none = filter_workspace_apps(apps, &None, &None, &None, &Some("p".to_string()), None);
    assert!(none.is_empty());
}

#[test]
fn previews_carry_the_dry_run_choice() {
    assert!(matches!(
        kill_app("default", "app-1".to_string(), true).unwrap().request,
        IpcRequest::KillApp { dry_run: true, .. }
    ));
    assert!(matches!(
        stop_workspace("default", true).unwrap().request,
        IpcRequest::Stop { dry_run: true }
    ));
    assert!(matches!(
        close_window("default", " 4194307 ".to_string(), true).unwrap().request,
        IpcRequest::CloseWindow { dry_run: true, .. }
    ));
}
