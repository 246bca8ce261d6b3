use agent_workspace_linux::responses::{
    error_response, launched_app_id, open_outcome, response_with_status, profile_setup_run, profile_workspace_open,
    response_app_exit, response_app_exit_code, response_last_app_id, run_outcome,
    runs_startup_after, setup_outcome, setup_step, workspace_run, IpcResponse, ProfileStartupRun,
    SetupStep,
};
use agent_workspace_linux::workspace::{WorkspaceApp, WorkspaceAppLog, WorkspaceStatus};

fn app(id: &str, pid: u32, exit_code: Option<i32>) -> WorkspaceApp {
    WorkspaceApp {
        id: id.to_string(),
        name: None,
        pid,
        profile_id: None,
        mount_isolation: "none".to_string(),
        network_isolation: "none".to_string(),
        command: vec!["true".to_string()],
        cwd: None,
        env: Vec::new(),
        stdout_path: None,
        stderr_path: None,
        started_at_unix: 0,
        running: exit_code.is_none(),
        exit_status: None,
        exit_code,
        exit_signal: None,
    }
}

fn status(apps: Vec<WorkspaceApp>) -> WorkspaceStatus {
    WorkspaceStatus {
        id: "default".to_string(),
        purpose: None,
        profile_id: None,
        applied_policy: None,
        user_acknowledged_hidden_workspace: true,
        user_acknowledged_unenforced_policy: false,
        ready: true,
        started_at_unix: 0,
        display: ":90".to_string(),
        width: 1280,
        height: 720,
        runtime_dir: "/run/ws".to_string(),
        socket_path: "/run/ws/control.sock".to_string(),
        xauthority_path: "/run/ws/Xauthority".to_string(),
        x_server_pid: 1,
        window_manager_pid: None,
        apps,
    }
}

fn response(ok: bool, apps: Option<Vec<WorkspaceApp>>, status_apps: Option<Vec<WorkspaceApp>>) -> IpcResponse {
    IpcResponse {
        ok,
        message: String::new(),
        status: status_apps.map(status),
        ipc: None,
        apps,
        windows: None,
        active_window: None,
        screenshot: None,
        app_log: None,
        clipboard: None,
        events: None,
        launch_preview: None,
    }
}

fn log(stream: &str) -> WorkspaceAppLog {
    WorkspaceAppLog {
        app_id: "app-1".to_string(),
        stream: stream.to_string(),
        path: format!("/run/ws/apps/1.{stream}.log"),
        content: String::new(),
        bytes_read: 0,
        truncated: false,
    }
}

#[test]
fn launch_replies_name_the_last_app() {
    let launch = response(true, None, Some(vec![app("app-1", 10, None), app("app-2", 20, None)]));
    assert_eq!(launched_app_id(&launch), Some("app-2".to_string()));
    assert_eq!(response_last_app_id(&launch), Some("app-2".to_string()));
    let listing = response(true, Some(vec![app("app-9", 90, None)]), Some(vec![app("app-1", 10, None)]));
    assert_eq!(response_last_app_id(&listing), Some("app-9".to_string()));
    assert_eq!(launched_app_id(&listing), Some("app-1".to_string()));
    assert_eq!(launched_app_id(&response(false, None, None)), None);
}

#[test]
fn exit_codes_come_from_apps_then_status() {
    let reply = response(
        true,
        Some(vec![app("app-1", 10, Some(3))]),
        Some(vec![app("app-1", 10, Some(0)), app("app-2", 20, Some(1))]),
    );
    assert_eq!(response_app_exit(&reply, "app-1"), Some((Some(3), None)));
    assert_eq!(response_app_exit(&reply, "20"), Some((Some(1), None)));
    assert_eq!(response_app_exit(&reply, "app-7"), None);
    assert_eq!(response_app_exit_code(&reply, "app-1"), Some(0));
    assert_eq!(response_app_exit_code(&reply, "20"), Some(1));
}

#[test]
fn runs_conclude_from_the_wait_reply() {
    assert_eq!(run_outcome(true, false, Some(0)), (true, false, false, true));
    assert_eq!(run_outcome(true, false, Some(2)), (true, false, false, false));
    assert_eq!(run_outcome(false, true, None), (false, true, true, false));
    assert_eq!(run_outcome(false, false, Some(0)), (false, true, false, false));

    let launch = response(true, None, Some(vec![app("app-1", 10, None)]));
    let wait = response(true, None, Some(vec![app("app-1", 10, Some(0))]));
    let run = workspace_run(
        "app-1".to_string(),
        launch.clone(),
        wait,
        None,
        log("stdout"),
        log("stderr"),
        false,
    );
    assert!(run.completed && run.succeeded && !run.timed_out);
    assert_eq!(run.exit_code, Some(0));

    let timed_out = response(false, None, Some(vec![app("app-1", 10, None)]));
    let killed = response(true, Some(vec![app("app-1", 10, Some(137))]), None);
    let run = workspace_run(
        "app-1".to_string(),
        launch,
        timed_out,
        Some(killed),
        log("stdout"),
        log("stderr"),
        true,
    );
    assert!(!run.completed && run.timed_out && run.killed_on_timeout && !run.succeeded);
    assert_eq!(run.exit_code, Some(137));
}

#[test]
fn setup_steps_and_outcomes() {
    let failed = response(false, None, None);
    assert!(matches!(setup_step(true, &failed), SetupStep::Stop));
    let launched = response(true, None, Some(vec![app("app-1", 10, None)]));
    assert!(matches!(setup_step(false, &launched), SetupStep::Next));
    match setup_step(true, &launched) {
        SetupStep::Wait { app_id } => assert_eq!(app_id, "app-1"),
        other => panic!("unexpected step {other:?}"),
    }
    assert!(matches!(
        setup_step(true, &response(true, None, None)),
        SetupStep::NoAppId
    ));

    let waited_ok = response(true, None, Some(vec![app("app-1", 10, Some(0))]));
    let waited_bad = response(true, None, Some(vec![app("app-1", 10, Some(4))]));
    let ids = vec!["app-1".to_string()];
    assert_eq!(setup_outcome(false, &vec![launched.clone()], &vec![], &vec![]), (None, None));
    assert_eq!(
        setup_outcome(true, &vec![launched.clone()], &vec![waited_ok.clone()], &ids),
        (Some(true), Some(true))
    );
    assert_eq!(
        setup_outcome(true, &vec![launched.clone()], &vec![waited_bad], &ids),
        (Some(true), Some(false))
    );
    assert_eq!(
        setup_outcome(true, &vec![launched.clone(), failed], &vec![waited_ok.clone()], &ids),
        (Some(false), Some(false))
    );

    let run = profile_setup_run(
        "default".to_string(),
        "dev".to_string(),
        true,
        Some(1000),
        vec![launched],
        vec![waited_ok],
        &ids,
    );
    assert_eq!(run.completed, Some(true));
    assert_eq!(run.succeeded, Some(true));
    assert!(runs_startup_after(&Some(run.clone())));
    let mut failed_run = run;
    failed_run.succeeded = Some(false);
    assert!(!runs_startup_after(&Some(failed_run)));
    assert!(runs_startup_after(&None));
}

#[test]
fn profile_workspaces_are_ready_when_every_step_worked() {
    let ok = response(true, None, None);
    let bad = response(false, None, None);
    assert_eq!(open_outcome(true, None, Some(&vec![ok.clone()])), (true, true));
    assert_eq!(open_outcome(true, Some(false), Some(&vec![ok.clone()])), (true, false));
    assert_eq!(open_outcome(true, None, Some(&vec![ok.clone(), bad.clone()])), (false, false));
    assert_eq!(open_outcome(false, None, None), (false, false));

    let startup = ProfileStartupRun {
        workspace_id: "default".to_string(),
        profile_id: "dev".to_string(),
        launched: vec![ok.clone()],
    };
    let opened = profile_workspace_open(
        "default".to_string(),
        "dev".to_string(),
        ok,
        None,
        Some(startup),
    );
    assert!(opened.ready);
    assert!(opened.startup_launched);
    assert_eq!(opened.setup_succeeded, None);
    let refused = profile_workspace_open("default".to_string(), "dev".to_string(), bad, None, None);
    assert!(!refused.ready);
    assert!(!refused.startup_launched);
}

#[test]
fn replies_carry_the_status_they_are_given() {
    let reply = response_with_status(true, "workspace is running".to_string(), status(vec![]));
    assert!(reply.ok);
    assert_eq!(reply.message, "workspace is running");
    assert_eq!(reply.status.as_ref().map(|s| s.id.as_str()), Some("default"));
    assert!(reply.apps.is_none() && reply.windows.is_none() && reply.events.is_none());
    let failed = error_response("boom".to_string(), None);
    assert!(!failed.ok);
    assert_eq!(failed.message, "boom");
    assert!(failed.status.is_none());
}
