use agent_workspace_linux::checks::WorkspaceError;
use agent_workspace_linux::doctor::{
    command_path_check, doctor_report, first_available_command, plan_workspace_start, preview_workspace_start,
    policy_runtime_capabilities, WorkspaceStartPlan,
};
use agent_workspace_linux::policy::{
    AppliedWorkspacePolicy, MountMode, NetworkPolicy, PolicyRuntimeCapabilities, ProfileMount,
};
use agent_workspace_linux::workspace::{Check, RuntimeReport, WorkspaceStartOptions};

fn check(ok: bool) -> Check {
    Check {
        ok,
        detail: if ok { "/usr/bin/tool".to_string() } else { "missing: tool".to_string() },
    }
}

fn runtime(all_ok: bool) -> RuntimeReport {
    RuntimeReport {
        xvfb: check(all_ok),
        xephyr: check(false),
        xauth: check(all_ok),
        xdpyinfo: check(all_ok),
        xprop: check(all_ok),
        window_manager: check(all_ok),
        xdotool: check(all_ok),
        screenshot: check(all_ok),
        clipboard: check(all_ok),
        policy: PolicyRuntimeCapabilities::default(),
    }
}

#[test]
fn probes_become_checks() {
    let found = command_path_check("xdotool", true, "/usr/bin/xdotool\n", "");
    assert!(found.ok);
    assert_eq!(found.detail, "/usr/bin/xdotool");
    let quiet = command_path_check("xdotool", true, "  ", "");
    assert_eq!(quiet.detail, "ok");
    let failed = command_path_check("xdotool", false, "", " not here ");
    assert!(!failed.ok);
    assert_eq!(failed.detail, "not here");
    let missing = command_path_check("xdotool", false, "", "");
    assert_eq!(missing.detail, "missing: xdotool");
}

#[test]
fn the_first_available_alternative_wins() {
    let commands = vec!["import".to_string(), "scrot".to_string()];
    let chosen = first_available_command(
        &commands,
        &vec![
            Check {
                ok: false,
                detail: "missing: import".to_string(),
            },
            Check {
                ok: true,
                detail: "/usr/bin/scrot".to_string(),
            },
        ],
    );
    assert!(chosen.ok);
    assert_eq!(chosen.detail, "/usr/bin/scrot");
    let none = first_available_command(&commands, &vec![check(false), check(false)]);
    assert!(!none.ok);
    assert_eq!(none.detail, "missing all of: import, scrot");
}

#[test]
fn policy_capabilities_prefer_bubblewrap() {
    let caps = policy_runtime_capabilities(check(true), check(false), check(true), check(false));
    assert!(caps.bubblewrap.ok);
    assert!(caps.can_candidate_mounts);
    assert!(caps.can_candidate_disable_network);
    assert!(!caps.can_candidate_network_allowlist);
    assert_eq!(caps.preferred_mount_backend, Some("bubblewrap".to_string()));
    assert_eq!(
        caps.notes,
        vec!["bubblewrap is the preferred candidate for mount and network namespace enforcement"
            .to_string()]
    );
    let none = policy_runtime_capabilities(check(false), check(false), check(false), check(false));
    assert!(!none.can_candidate_mounts);
    assert_eq!(none.preferred_mount_backend, None);
}

#[test]
fn doctor_reports_blockers_in_order() {
    let ready = doctor_report(runtime(true), None, None);
    assert!(ready.ready_for_x11_workspace);
    assert!(ready.blockers.is_empty());
    assert_eq!(
        ready.recommended_next_step,
        "Run `agent-workspace-linux workspace start`, then launch apps into the workspace."
    );
    let bare = doctor_report(runtime(false), None, None);
    assert!(!bare.ready_for_x11_workspace);
    assert_eq!(bare.blockers.len(), 7);
    assert_eq!(
        bare.blockers[0],
        "Install Xvfb or Xephyr to create the isolated X11 display."
    );
    assert_eq!(
        bare.blockers[6],
        "Install ImageMagick import or scrot for workspace screenshots."
    );
    assert_eq!(
        bare.recommended_next_step,
        "Install the missing X11 workspace dependencies, then rerun `agent-workspace-linux doctor`."
    );
}

#[test]
fn starts_need_acknowledgement_and_a_ready_runtime() {
    let mut options = WorkspaceStartOptions::default();
    options.id = " qa ".to_string();
    let ready = doctor_report(runtime(true), None, None);
    assert!(matches!(
        plan_workspace_start(&options, false, &ready),
        Err(WorkspaceError::HiddenWorkspaceUnacknowledged)
    ));
    match plan_workspace_start(&options, true, &ready).unwrap() {
        WorkspaceStartPlan::AlreadyRunning { id } => assert_eq!(id, "qa"),
        other => panic!("unexpected plan {other:?}"),
    }
    options.user_acknowledged_hidden_workspace = true;
    match plan_workspace_start(&options, false, &ready).unwrap() {
        WorkspaceStartPlan::Start { id } => assert_eq!(id, "qa"),
        other => panic!("unexpected plan {other:?}"),
    }
    let not_ready = doctor_report(runtime(false), None, None);
    let err = plan_workspace_start(&options, false, &not_ready).unwrap_err();
    assert!(err
        .message()
        .starts_with("workspace runtime is not ready: Install Xvfb or Xephyr"));
    options.id = "bad id".to_string();
    assert!(matches!(
        plan_workspace_start(&options, true, &ready),
        Err(WorkspaceError::WorkspaceIdInvalid)
    ));
}

#[test]
fn fail_closed_policies_refuse_even_acknowledged_starts() {
    let mut strict = AppliedWorkspacePolicy::new_with_capabilities(
        "dev".to_string(),
        vec![ProfileMount {
            host_path: "/home/me/project".to_string(),
            workspace_path: "/workspace/project".to_string(),
            mode: MountMode::ReadOnly,
        }],
        NetworkPolicy::default(),
        true,
        0,
        PolicyRuntimeCapabilities::default(),
    );
    let mut options = WorkspaceStartOptions::default();
    options.user_acknowledged_hidden_workspace = true;
    options.user_acknowledged_unenforced_policy = true;
    options.applied_policy = Some(strict.clone());
    let ready = doctor_report(runtime(true), None, None);
    assert!(matches!(
        plan_workspace_start(&options, false, &ready),
        Err(WorkspaceError::StartPolicyNotEnforced)
    ));
    strict.require_enforced_policy = false;
    options.applied_policy = Some(strict);
    assert!(plan_workspace_start(&options, false, &ready).is_ok());
    options.user_acknowledged_unenforced_policy = false;
    assert!(matches!(
        plan_workspace_start(&options, false, &ready),
        Err(WorkspaceError::StartPolicyUnacknowledged)
    ));
}

#[test]
fn host_viewer_readiness_follows_the_host_display() {
    let headless = doctor_report(runtime(true), None, Some(String::new()));
    assert!(!headless.ready_for_host_viewer);
    assert!(headless.ready_for_x11_workspace);
    assert!(doctor_report(runtime(false), Some(":0".to_string()), None).ready_for_host_viewer);
    assert!(doctor_report(runtime(false), None, Some("wayland-0".to_string())).ready_for_host_viewer);
}

#[test]
fn start_previews_list_missing_approval_and_blockers() {
    let policy = AppliedWorkspacePolicy::new_with_capabilities(
        "dev".to_string(),
        vec![ProfileMount {
            host_path: "/home/me/project".to_string(),
            workspace_path: "/workspace/project".to_string(),
            mode: MountMode::ReadOnly,
        }],
        NetworkPolicy::default(),
        false,
        0,
        PolicyRuntimeCapabilities::default(),
    );
    let mut options = WorkspaceStartOptions::default();
    options.applied_policy = Some(policy.clone());
    let not_ready = doctor_report(runtime(false), None, None);
    let preview = preview_workspace_start(&options, false, &not_ready).unwrap();
    assert!(!preview.would_start && !preview.already_running);
    assert!(preview.requires_unenforced_policy_ack);
    assert_eq!(
        preview.approval.missing_acknowledgements,
        vec!["hidden_workspace".to_string(), "unenforced_policy".to_string()]
    );
    assert_eq!(
        preview.approval.approval_flags,
        vec!["--ack-hidden-workspace".to_string(), "--ack-unenforced-policy".to_string()]
    );
    assert_eq!(preview.approval.blockers.len(), 1);
    assert!(preview.approval.blockers[0].starts_with("workspace runtime is not ready"));

    options.user_acknowledged_hidden_workspace = true;
    options.user_acknowledged_unenforced_policy = true;
    let ready = doctor_report(runtime(true), None, None);
    let go = preview_workspace_start(&options, false, &ready).unwrap();
    assert!(go.would_start);
    assert!(go.approval.missing_acknowledgements.is_empty() && go.approval.blockers.is_empty());
    assert!(!preview_workspace_start(&options, true, &ready).unwrap().would_start);

    let mut strict = policy;
    strict.require_enforced_policy = true;
    options.applied_policy = Some(strict);
    let refused = preview_workspace_start(&options, false, &ready).unwrap();
    assert!(!refused.would_start && refused.approval.missing_acknowledgements.is_empty());
    assert_eq!(
        refused.approval.blockers,
        vec!["profile sets require_enforced_policy, but its mount or network policy is not enforced by this X11 runtime".to_string()]
    );
}
