use agent_workspace_linux::checks::{validate_launch_policy_ack, WorkspaceError};
use agent_workspace_linux::launch::{
    apply_app_exit_status, launch_preview, launched_app, mark_app_exit_error, plan_launch,
};
use agent_workspace_linux::policy::{
    AppliedWorkspacePolicy, MountMode, NetworkMode, NetworkPolicy, PolicyRuntimeCapabilities,
    PolicyToolCheck, ProfileMount,
};
use agent_workspace_linux::sandbox::{
    bubblewrap_sandbox_for_launch, restricted_mount_namespace_args, SandboxHost,
};
use agent_workspace_linux::workspace::{EnvVar, LaunchSpec, WorkspaceStatus};

const XAUTH: &str = "/run/user/1000/ws/Xauthority";

fn tool(ok: bool) -> PolicyToolCheck {
    PolicyToolCheck {
        ok,
        detail: if ok { "/usr/bin/tool".to_string() } else { "missing".to_string() },
    }
}

fn caps(bubblewrap: bool) -> PolicyRuntimeCapabilities {
    PolicyRuntimeCapabilities::from_tools(tool(bubblewrap), tool(false), tool(false), tool(false))
}

fn policy(mounts: Vec<ProfileMount>, mode: NetworkMode, bubblewrap: bool) -> AppliedWorkspacePolicy {
    AppliedWorkspacePolicy::new_with_capabilities(
        "dev".to_string(),
        mounts,
        NetworkPolicy {
            mode,
            allow_hosts: Vec::new(),
        },
        false,
        0,
        caps(bubblewrap),
    )
}

fn project_mount() -> ProfileMount {
    ProfileMount {
        host_path: "/home/me/project".to_string(),
        workspace_path: "/workspace/project".to_string(),
        mode: MountMode::ReadOnly,
    }
}

fn host(mounts: usize) -> SandboxHost {
    SandboxHost {
        system_dirs_present: vec![true; 6],
        x11_socket_dir_present: true,
        mount_host_paths_present: vec![true; mounts],
    }
}

fn strings(parts: &[&str]) -> Vec<String> {
    parts.iter().map(|p| p.to_string()).collect()
}

fn status(applied_policy: Option<AppliedWorkspacePolicy>) -> WorkspaceStatus {
    WorkspaceStatus {
        id: "default".to_string(),
        purpose: None,
        profile_id: None,
        applied_policy,
        user_acknowledged_hidden_workspace: true,
        user_acknowledged_unenforced_policy: false,
        ready: true,
        started_at_unix: 0,
        display: ":90".to_string(),
        width: 1280,
        height: 720,
        runtime_dir: "/run/user/1000/ws".to_string(),
        socket_path: "/run/user/1000/ws/control.sock".to_string(),
        xauthority_path: XAUTH.to_string(),
        x_server_pid: 1,
        window_manager_pid: None,
        apps: Vec::new(),
    }
}

#[test]
fn mount_namespaces_bind_system_dirs_parents_and_mounts() {
    let p = policy(vec![project_mount()], NetworkMode::InheritHost, true);
    let args = restricted_mount_namespace_args(XAUTH, Some(&p), None, false, &host(1)).unwrap();
    assert_eq!(
        args,
        strings(&[
            "--ro-bind", "/usr", "/usr", "--ro-bind", "/bin", "/bin", "--ro-bind", "/lib", "/lib",
            "--ro-bind", "/lib64", "/lib64", "--ro-bind", "/etc", "/etc", "--ro-bind", "/opt",
            "/opt", "--proc", "/proc", "--dev-bind", "/dev", "/dev", "--dir", "/run", "--dir",
            "/run/user", "--dir", "/run/user/1000", "--dir", "/run/user/1000/ws", "--dir", "/tmp",
            "--dir", "/workspace", "--ro-bind", "/tmp/.X11-unix", "/tmp/.X11-unix", "--ro-bind",
            XAUTH, XAUTH, "--ro-bind", "/home/me/project", "/workspace/project", "--chdir", "/tmp",
        ])
    );
}

#[test]
fn mount_namespaces_skip_missing_host_dirs_and_add_the_network() {
    let mut rw = project_mount();
    rw.mode = MountMode::ReadWrite;
    let p = policy(vec![rw], NetworkMode::Disabled, true);
    let sparse = SandboxHost {
        system_dirs_present: vec![true, true, true, false, true, false],
        x11_socket_dir_present: false,
        mount_host_paths_present: vec![true],
    };
    let args = restricted_mount_namespace_args(
        "/tmp/ws/Xauthority",
        Some(&p),
        Some("/workspace/project"),
        true,
        &sparse,
    )
    .unwrap();
    assert_eq!(
        args,
        strings(&[
            "--ro-bind", "/usr", "/usr", "--ro-bind", "/bin", "/bin", "--ro-bind", "/lib", "/lib",
            "--ro-bind", "/etc", "/etc", "--proc", "/proc", "--dev-bind", "/dev", "/dev", "--dir",
            "/tmp", "--dir", "/tmp/ws", "--dir", "/workspace", "--ro-bind", "/tmp/ws/Xauthority",
            "/tmp/ws/Xauthority", "--bind", "/home/me/project", "/workspace/project",
            "--unshare-net", "--chdir", "/workspace/project",
        ])
    );
}

#[test]
fn mount_namespaces_refuse_bad_mounts() {
    let p = policy(vec![project_mount()], NetworkMode::InheritHost, true);
    let missing = SandboxHost {
        system_dirs_present: vec![true; 6],
        x11_socket_dir_present: true,
        mount_host_paths_present: vec![false],
    };
    assert_eq!(
        restricted_mount_namespace_args(XAUTH, Some(&p), None, false, &missing)
            .unwrap_err()
            .message(),
        "profile mount host_path /home/me/project does not exist"
    );
    assert!(matches!(
        restricted_mount_namespace_args(XAUTH, None, None, false, &host(0)),
        Err(WorkspaceError::MountPolicyMissing)
    ));
}

#[test]
fn sandboxes_follow_what_is_enforced() {
    let open = policy(Vec::new(), NetworkMode::InheritHost, true);
    assert!(bubblewrap_sandbox_for_launch(XAUTH, Some(&open), None, &host(0))
        .unwrap()
        .is_none());
    assert!(bubblewrap_sandbox_for_launch(XAUTH, None, None, &host(0))
        .unwrap()
        .is_none());

    let offline = policy(Vec::new(), NetworkMode::Disabled, true);
    let sandbox = bubblewrap_sandbox_for_launch(XAUTH, Some(&offline), Some("/srv"), &host(0))
        .unwrap()
        .unwrap();
    assert_eq!(
        sandbox.args,
        strings(&["--dev-bind", "/", "/", "--unshare-net", "--chdir", "/srv"])
    );
    assert_eq!(sandbox.mount_isolation, "host");
    assert_eq!(sandbox.network_isolation, "bubblewrap_unshare_net");

    let local = policy(Vec::new(), NetworkMode::LocalOnly, true);
    let sandbox = bubblewrap_sandbox_for_launch(XAUTH, Some(&local), None, &host(0))
        .unwrap()
        .unwrap();
    assert_eq!(sandbox.network_isolation, "bubblewrap_unshare_net");

    let no_bwrap = policy(vec![project_mount()], NetworkMode::Disabled, false);
    assert!(bubblewrap_sandbox_for_launch(XAUTH, Some(&no_bwrap), None, &host(1))
        .unwrap()
        .is_none());

    let mounted = policy(vec![project_mount()], NetworkMode::InheritHost, true);
    let sandbox = bubblewrap_sandbox_for_launch(XAUTH, Some(&mounted), None, &host(1))
        .unwrap()
        .unwrap();
    assert_eq!(sandbox.mount_isolation, "bubblewrap_mount_namespace");
    assert_eq!(sandbox.network_isolation, "host");
}

#[test]
fn launches_run_directly_or_inside_bubblewrap() {
    let spec = LaunchSpec {
        command: strings(&["xterm", "-e", "bash"]),
        name: None,
        profile_id: None,
        applied_policy: None,
        user_acknowledged_unenforced_policy: false,
        cwd: Some("/home/me".to_string()),
        env: vec![EnvVar {
            name: "LANG".to_string(),
            value: "C".to_string(),
        }],
    };
    let plan = plan_launch(&status(None), &spec, true, &host(0)).unwrap();
    assert_eq!(plan.program, "xterm");
    assert_eq!(plan.args, strings(&["-e", "bash"]));
    assert_eq!(plan.current_dir, Some("/home/me".to_string()));
    let env: Vec<(String, String)> = plan.env.iter().map(|v| (v.name.clone(), v.value.clone())).collect();
    assert_eq!(
        env,
        vec![
            ("DISPLAY".to_string(), ":90".to_string()),
            ("XAUTHORITY".to_string(), XAUTH.to_string()),
            ("LANG".to_string(), "C".to_string()),
        ]
    );
    assert_eq!(plan.mount_isolation, "host");

    let offline = policy(Vec::new(), NetworkMode::Disabled, true);
    let mut sandboxed = spec.clone();
    sandboxed.applied_policy = Some(offline);
    sandboxed.cwd = None;
    let plan = plan_launch(&status(None), &sandboxed, true, &host(0)).unwrap();
    assert_eq!(plan.program, "bwrap");
    assert_eq!(
        plan.args,
        strings(&["--dev-bind", "/", "/", "--unshare-net", "--", "xterm", "-e", "bash"])
    );
    assert_eq!(plan.current_dir, None);
    assert_eq!(plan.network_isolation, "bubblewrap_unshare_net");

    let unacknowledged = policy(vec![project_mount()], NetworkMode::InheritHost, false);
    let mut refused = spec.clone();
    refused.applied_policy = Some(unacknowledged);
    assert!(matches!(
        plan_launch(&status(None), &refused, true, &host(1)),
        Err(WorkspaceError::LaunchPolicyUnacknowledged)
    ));

    let preview = launch_preview(plan_launch(&status(None), &spec, true, &host(0)));
    assert!(preview.would_launch && preview.blocker.is_none());
    assert_eq!(preview.program, "xterm");
    assert_eq!(preview.args, strings(&["-e", "bash"]));
    let blocked = launch_preview(plan_launch(&status(None), &refused, true, &host(1)));
    assert!(!blocked.would_launch && blocked.args.is_empty());
    assert!(blocked
        .blocker
        .unwrap()
        .starts_with("launch profile requests mount or network policy that is not enforced"));
}

#[test]
fn launched_apps_track_their_exit() {
    let spec = LaunchSpec {
        command: strings(&["xterm"]),
        name: Some("term".to_string()),
        profile_id: None,
        applied_policy: None,
        user_acknowledged_unenforced_policy: false,
        cwd: None,
        env: Vec::new(),
    };
    let plan = plan_launch(&status(None), &spec, true, &host(0)).unwrap();
    let mut app = launched_app(
        spec,
        &plan,
        4242,
        "/run/ws/apps/4242.stdout.log".to_string(),
        "/run/ws/apps/4242.stderr.log".to_string(),
        1_700_000_000,
    );
    assert_eq!(app.id, "app-4242");
    assert_eq!(app.name, Some("term".to_string()));
    assert!(app.running);
    apply_app_exit_status(&mut app, "exit status: 3".to_string(), Some(3), None);
    assert!(!app.running);
    assert_eq!(app.exit_code, Some(3));
    assert_eq!(app.exit_status, Some("exit status: 3".to_string()));
    mark_app_exit_error(&mut app, "wait failed".to_string());
    assert_eq!(app.exit_code, None);
    assert_eq!(app.exit_status, Some("wait failed".to_string()));
    assert_eq!(app.id, "app-4242");
}

#[test]
fn fail_closed_policies_refuse_even_acknowledged_launches() {
    let mut strict = policy(vec![project_mount()], NetworkMode::Disabled, false);
    strict.require_enforced_policy = true;
    let mut spec = LaunchSpec {
        command: strings(&["xterm"]),
        name: None,
        profile_id: Some("dev".to_string()),
        applied_policy: Some(strict.clone()),
        user_acknowledged_unenforced_policy: true,
        cwd: None,
        env: Vec::new(),
    };
    assert!(matches!(
        validate_launch_policy_ack(&spec),
        Err(WorkspaceError::LaunchPolicyNotEnforced)
    ));
    spec.user_acknowledged_unenforced_policy = false;
    assert!(matches!(
        validate_launch_policy_ack(&spec),
        Err(WorkspaceError::LaunchPolicyNotEnforced)
    ));
    let mut lenient = strict;
    lenient.require_enforced_policy = false;
    spec.applied_policy = Some(lenient);
    assert!(matches!(
        validate_launch_policy_ack(&spec),
        Err(WorkspaceError::LaunchPolicyUnacknowledged)
    ));
    spec.user_acknowledged_unenforced_policy = true;
    assert!(validate_launch_policy_ack(&spec).is_ok());
    spec.applied_policy = Some(policy(vec![project_mount()], NetworkMode::Disabled, true));
    spec.user_acknowledged_unenforced_policy = false;
    assert!(validate_launch_policy_ack(&spec).is_ok());
}
