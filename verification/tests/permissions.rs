use agent_workspace_linux::permissions::{
    template_permission_ceiling, AppPermissionCeiling, HostLookup, McpPermissionCeiling,
    McpPermissionState,
};
use agent_workspace_linux::policy::{
    AppliedWorkspacePolicy, MountMode, NetworkMode, NetworkPolicy, PolicyRuntimeCapabilities,
    ProfileMount,
};
use agent_workspace_linux::workspace::{EnvVar, LaunchSpec, WorkspaceStartOptions};

fn launch_spec(command: &[&str], policy: Option<AppliedWorkspacePolicy>) -> LaunchSpec {
    LaunchSpec {
        command: command.iter().map(|part| part.to_string()).collect(),
        name: None,
        profile_id: policy.as_ref().map(|policy| policy.profile_id.clone()),
        applied_policy: policy,
        user_acknowledged_unenforced_policy: false,
        cwd: None,
        env: Vec::<EnvVar>::new(),
    }
}

fn policy(mounts: Vec<ProfileMount>, network: NetworkPolicy) -> AppliedWorkspacePolicy {
    AppliedWorkspacePolicy::new_with_capabilities(
        "test-profile".to_string(),
        mounts,
        network,
        false,
        0,
        PolicyRuntimeCapabilities::default(),
    )
}

fn mount(host_path: &str, workspace_path: &str, mode: MountMode) -> ProfileMount {
    ProfileMount {
        host_path: host_path.to_string(),
        workspace_path: workspace_path.to_string(),
        mode,
    }
}

fn configured_state(ceiling: McpPermissionCeiling) -> McpPermissionState {
    McpPermissionState::from_ceiling(Some("/tmp/mcp-permissions.json".to_string()), ceiling)
}

#[test]
fn permission_templates_cover_open_closed_and_local() {
    let open = template_permission_ceiling("open", Vec::new(), Vec::new(), Vec::new()).unwrap();
    assert!(open.network.is_none());
    assert!(!open.is_restricted());

    let closed =
        template_permission_ceiling("closed", Vec::new(), Vec::new(), vec!["sh".to_string()])
            .unwrap();
    assert!(matches!(
        closed.network.as_ref().map(|network| &network.mode),
        Some(NetworkMode::Disabled)
    ));
    assert_eq!(closed.apps.allow, vec!["sh".to_string()]);
    assert!(closed.is_restricted());

    let local = template_permission_ceiling(
        "local",
        vec!["localhost:3000".to_string()],
        vec![mount("/home/me/project", "/workspace/project", MountMode::ReadWrite)],
        Vec::new(),
    )
    .unwrap();
    assert!(matches!(
        local.network.as_ref().map(|network| &network.mode),
        Some(NetworkMode::LocalOnly)
    ));
    assert_eq!(local.network.unwrap().allow_hosts, vec!["localhost:3000".to_string()]);
    assert_eq!(local.mounts.len(), 1);
}

#[test]
fn permission_template_rejects_hosts_for_non_local_modes() {
    let error = template_permission_ceiling(
        "closed",
        vec!["localhost:3000".to_string()],
        Vec::new(),
        Vec::new(),
    )
    .expect_err("closed template should reject allow-host")
    .message();
    assert!(error.contains("does not accept --allow-host"));
}

#[test]
fn default_ceiling_allows_unprofiled_launch() {
    let state = McpPermissionState::default();
    state
        .validate_launch_spec(&launch_spec(&["sh", "-c", "true"], None), &HostLookup::empty())
        .unwrap();
}

#[test]
fn configured_empty_ceiling_reports_open_and_allows_launch() {
    let ceiling = McpPermissionCeiling::default();
    let state = configured_state(ceiling);

    assert!(state.configured);
    assert!(!state.restricted);
    state
        .validate_launch_spec(&launch_spec(&["bash", "-lc", "true"], None), &HostLookup::empty())
        .unwrap();
}

#[test]
fn unconfigured_state_drops_accidental_ceiling() {
    let state = McpPermissionState::from_ceiling(
        None,
        McpPermissionCeiling {
            network: Some(NetworkPolicy { mode: NetworkMode::Disabled, allow_hosts: Vec::new() }),
            mounts: vec![mount("/home/me/project", "/workspace/project", MountMode::ReadOnly)],
            apps: AppPermissionCeiling { allow: vec!["xterm".to_string()] },
        },
    );

    assert!(!state.configured);
    assert!(!state.restricted);
    assert!(state.ceiling.network.is_none());
    assert!(state.ceiling.mounts.is_empty());
    assert!(state.ceiling.apps.allow.is_empty());
    state
        .validate_launch_spec(&launch_spec(&["bash", "-lc", "true"], None), &HostLookup::empty())
        .unwrap();
}

#[test]
fn disabled_network_ceiling_rejects_unprofiled_launch() {
    let state = configured_state(McpPermissionCeiling {
        network: Some(NetworkPolicy { mode: NetworkMode::Disabled, allow_hosts: Vec::new() }),
        mounts: Vec::new(),
        apps: AppPermissionCeiling::default(),
    });

    let error = state
        .validate_launch_spec(
            &launch_spec(&["curl", "https://example.com"], None),
            &HostLookup::empty(),
        )
        .unwrap_err()
        .message();
    assert!(error.contains("exceeds MCP permission ceiling"));
}

#[test]
fn disabled_network_ceiling_allows_disabled_profile_launch() {
    let state = configured_state(McpPermissionCeiling {
        network: Some(NetworkPolicy { mode: NetworkMode::Disabled, allow_hosts: Vec::new() }),
        mounts: Vec::new(),
        apps: AppPermissionCeiling::default(),
    });
    let applied =
        policy(Vec::new(), NetworkPolicy { mode: NetworkMode::Disabled, allow_hosts: Vec::new() });

    state
        .validate_launch_spec(
            &launch_spec(&["curl", "https://example.com"], Some(applied)),
            &HostLookup::empty(),
        )
        .unwrap();
}

#[test]
fn local_only_ceiling_rejects_inherited_network() {
    let state = configured_state(McpPermissionCeiling {
        network: Some(NetworkPolicy {
            mode: NetworkMode::LocalOnly,
            allow_hosts: vec!["localhost:3000".to_string()],
        }),
        mounts: Vec::new(),
        apps: AppPermissionCeiling::default(),
    });

    let error = state
        .validate_launch_spec(
            &launch_spec(&["curl", "https://example.com"], None),
            &HostLookup::empty(),
        )
        .unwrap_err()
        .message();
    assert!(error.contains("network.mode=inherit_host"));
}

#[test]
fn allowlist_ceiling_requires_requested_hosts_to_be_subset() {
    let ceiling = McpPermissionCeiling {
        network: Some(NetworkPolicy {
            mode: NetworkMode::Allowlist,
            allow_hosts: vec!["example.com".to_string()],
        }),
        mounts: Vec::new(),
        apps: AppPermissionCeiling::default(),
    };
    let allowed = NetworkPolicy {
        mode: NetworkMode::Allowlist,
        allow_hosts: vec!["EXAMPLE.com".to_string()],
    };
    let blocked = NetworkPolicy {
        mode: NetworkMode::Allowlist,
        allow_hosts: vec!["example.org".to_string()],
    };

    ceiling.validate_network(&allowed, "test").unwrap();
    assert!(ceiling.validate_network(&blocked, "test").is_err());
}

#[test]
fn mount_ceiling_rejects_missing_or_broader_mount_policy() {
    let state = configured_state(McpPermissionCeiling {
        network: None,
        mounts: vec![mount("/home/me/project", "/workspace/project", MountMode::ReadOnly)],
        apps: AppPermissionCeiling::default(),
    });

    assert!(state
        .validate_launch_spec(&launch_spec(&["ls"], None), &HostLookup::empty())
        .unwrap_err()
        .message()
        .contains("does not request a mount policy"));

    let broader = policy(
        vec![mount("/home/me", "/workspace", MountMode::ReadOnly)],
        NetworkPolicy::default(),
    );
    assert!(state
        .validate_launch_spec(&launch_spec(&["ls"], Some(broader)), &HostLookup::empty())
        .is_err());
}

#[test]
fn mount_ceiling_allows_child_read_only_mount() {
    let state = configured_state(McpPermissionCeiling {
        network: None,
        mounts: vec![mount("/home/me/project", "/workspace/project", MountMode::ReadOnly)],
        apps: AppPermissionCeiling::default(),
    });
    let narrowed = policy(
        vec![mount("/home/me/project/src", "/workspace/project/src", MountMode::ReadOnly)],
        NetworkPolicy::default(),
    );

    state
        .validate_launch_spec(&launch_spec(&["ls"], Some(narrowed)), &HostLookup::empty())
        .unwrap();
}

#[test]
fn mount_ceiling_rejects_read_write_when_ceiling_is_read_only() {
    let ceiling = McpPermissionCeiling {
        network: None,
        mounts: vec![mount("/home/me/project", "/workspace/project", MountMode::ReadOnly)],
        apps: AppPermissionCeiling::default(),
    };
    let requested = vec![mount("/home/me/project", "/workspace/project", MountMode::ReadWrite)];

    assert!(ceiling.validate_mounts(&requested, "test").is_err());
}

#[test]
fn app_allowlist_limits_launch_programs() {
    let state = configured_state(McpPermissionCeiling {
        network: None,
        mounts: Vec::new(),
        apps: AppPermissionCeiling { allow: vec!["xterm".to_string()] },
    });

    state
        .validate_launch_spec(&launch_spec(&["xterm"], None), &HostLookup::empty())
        .unwrap();
    assert!(state
        .validate_launch_spec(&launch_spec(&["bash"], None), &HostLookup::empty())
        .is_err());
}

#[test]
fn refused_program_and_unknown_template_are_quoted_in_messages() {
    let state = configured_state(McpPermissionCeiling {
        network: None,
        mounts: Vec::new(),
        apps: AppPermissionCeiling { allow: vec!["xterm".to_string()] },
    });
    let err = state
        .validate_launch_spec(&launch_spec(&["my \"sh\""], None), &HostLookup::empty())
        .unwrap_err();
    assert_eq!(
        err.message(),
        "workspace launch command program \"my \\\"sh\\\"\" is not allowed by the MCP app allowlist [xterm]"
    );
    let err = template_permission_ceiling("wide\topen", Vec::new(), Vec::new(), Vec::new())
        .unwrap_err();
    assert_eq!(
        err.message(),
        "unknown permissions template \"wide\\topen\". Expected: open, closed, or local"
    );
}

#[test]
fn allowlist_decision_ignores_program_arguments() {
    let state = configured_state(McpPermissionCeiling {
        network: None,
        mounts: Vec::new(),
        apps: AppPermissionCeiling { allow: vec!["xterm".to_string()] },
    });
    let host = HostLookup::empty();
    assert!(state.validate_launch_spec(&launch_spec(&["xterm"], None), &host).is_ok());
    assert!(state
        .validate_launch_spec(&launch_spec(&["xterm", "-e", "rm", "-rf", "/"], None), &host)
        .is_ok());
    assert!(state.validate_launch_spec(&launch_spec(&["bash"], None), &host).is_err());
    assert!(state
        .validate_launch_spec(&launch_spec(&["bash", "xterm"], None), &host)
        .is_err());
}

#[test]
fn start_options_are_checked_against_the_ceiling_only_with_a_profile() {
    let state = configured_state(McpPermissionCeiling {
        network: Some(NetworkPolicy { mode: NetworkMode::Disabled, allow_hosts: Vec::new() }),
        mounts: Vec::new(),
        apps: AppPermissionCeiling::default(),
    });
    assert!(state.validate_start_options(&WorkspaceStartOptions::default()).is_ok());
    let mut open_network = WorkspaceStartOptions::default();
    open_network.applied_policy = Some(policy(Vec::new(), NetworkPolicy::default()));
    assert!(state.validate_start_options(&open_network).is_err());
    let mut closed_network = WorkspaceStartOptions::default();
    closed_network.applied_policy = Some(policy(
        Vec::new(),
        NetworkPolicy { mode: NetworkMode::Disabled, allow_hosts: Vec::new() },
    ));
    assert!(state.validate_start_options(&closed_network).is_ok());

    let open = McpPermissionState::unconfigured();
    assert!(!open.configured && !open.restricted && open.source.is_none());
    assert!(open.message.starts_with("No MCP permission ceiling is configured"));
    assert!(open.validate_start_options(&open_network).is_ok());
}
