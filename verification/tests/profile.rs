use agent_workspace_linux::policy::{
    MountMode, NetworkMode, NetworkPolicy, PolicyRuntimeCapabilities, ProfileMount,
};
use agent_workspace_linux::profile::{
    apply_profile_to_launch_spec, apply_profile_to_start_options, check_export_target,
    check_profile, delete_profile, export_path,
    get_profile, list_profiles, merged_env, profile_path, profiles_path, put_profile,
    sanitize_profile_id, setup_launch_specs, startup_app_launch_specs, template_profile,
    validate_profile, ProfileError, ProfileSetupCommand, ProfileStartupApp, ProfileStore,
    WorkspaceProfile,
};
use agent_workspace_linux::workspace::{EnvVar, LaunchSpec, WorkspaceStartOptions};

fn env(name: &str, value: &str) -> EnvVar {
    EnvVar {
        name: name.to_string(),
        value: value.to_string(),
    }
}

fn profile(id: &str) -> WorkspaceProfile {
    WorkspaceProfile {
        id: id.to_string(),
        description: None,
        width: Some(1024),
        height: None,
        cwd: Some("/workspace/project".to_string()),
        env: vec![env("MODE", "profile"), env("KEEP", "1")],
        mounts: vec![ProfileMount {
            host_path: "/home/me/project".to_string(),
            workspace_path: "/workspace/project".to_string(),
            mode: MountMode::ReadOnly,
        }],
        network: NetworkPolicy::default(),
        require_enforced_policy: false,
        setup_commands: vec![ProfileSetupCommand {
            command: vec!["make".to_string(), "deps".to_string()],
            cwd: None,
            env: Vec::new(),
        }],
        startup_apps: vec![ProfileStartupApp {
            command: vec!["xterm".to_string()],
            cwd: Some("/workspace/project/sub".to_string()),
            env: vec![env("MODE", "app")],
            name: Some("term".to_string()),
        }],
    }
}

fn ids(store: &ProfileStore) -> Vec<String> {
    store.profiles.iter().map(|p| p.id.clone()).collect()
}

#[test]
fn profile_ids_are_checked() {
    assert_eq!(sanitize_profile_id(" dev_1 ").unwrap(), "dev_1");
    assert_eq!(
        sanitize_profile_id(" ").unwrap_err().message(),
        "profile id cannot be empty"
    );
    assert_eq!(
        sanitize_profile_id("a.b").unwrap_err().message(),
        "profile id may only contain ASCII letters, numbers, '-' and '_'"
    );
}

#[test]
fn profiles_are_validated() {
    assert!(validate_profile(&profile("dev")).is_ok());
    let mut zero = profile("dev");
    zero.width = Some(0);
    assert_eq!(
        validate_profile(&zero).unwrap_err().message(),
        "profile width must be greater than zero"
    );
    let mut outside = profile("dev");
    outside.mounts[0].workspace_path = "/etc".to_string();
    assert_eq!(
        validate_profile(&outside).unwrap_err().message(),
        "profile mount workspace_path /etc must be under /workspace/"
    );
    let mut relative = profile("dev");
    relative.mounts[0].host_path = "project".to_string();
    assert_eq!(
        validate_profile(&relative).unwrap_err().message(),
        "profile mount host_path project must be absolute"
    );
    let mut overlap = profile("dev");
    overlap.mounts.push(ProfileMount {
        host_path: "/home/me/other".to_string(),
        workspace_path: "/workspace/project/nested".to_string(),
        mode: MountMode::ReadWrite,
    });
    assert!(matches!(
        validate_profile(&overlap),
        Err(ProfileError::MountOverlap { .. })
    ));
    let mut empty_setup = profile("dev");
    empty_setup.setup_commands[0].command.clear();
    assert_eq!(
        validate_profile(&empty_setup).unwrap_err().message(),
        "profile setup command cannot be empty"
    );
}

#[test]
fn the_store_keeps_one_profile_per_id_in_id_order() {
    let mut store = ProfileStore {
        profiles: Vec::new(),
    };
    let created = put_profile(&mut store, profile("web"), false, false).unwrap();
    assert!(created.saved && !created.replaced && created.existing.is_none());
    assert_eq!(created.profile.id, "web");
    put_profile(&mut store, profile("api"), false, false).unwrap();
    let mut replacement = profile("web");
    replacement.description = Some("second".to_string());
    assert_eq!(
        put_profile(&mut store, replacement.clone(), false, false)
            .unwrap_err()
            .message(),
        "profile \"web\" already exists; pass --replace or replace=true to overwrite it"
    );
    let preview = put_profile(&mut store, replacement.clone(), true, true).unwrap();
    assert!(preview.dry_run && !preview.saved && preview.replaced);
    assert_eq!(preview.existing.unwrap().description, None);
    assert_eq!(get_profile(store.clone(), "web").unwrap().description, None);
    let replaced = put_profile(&mut store, replacement, true, false).unwrap();
    assert!(replaced.saved && replaced.replaced);
    assert_eq!(ids(&store), vec!["api".to_string(), "web".to_string()]);
    let web = get_profile(store.clone(), " web ").unwrap();
    assert_eq!(web.description, Some("second".to_string()));

    let mut invalid = profile("zzz");
    invalid.height = Some(0);
    assert!(put_profile(&mut store, invalid, true, false).is_err());
    assert_eq!(store.profiles.len(), 2);

    assert_eq!(
        get_profile(store.clone(), "nope").unwrap_err().message(),
        "profile \"nope\" was not found"
    );
    let preview = delete_profile(&mut store, "api", true).unwrap();
    assert!(preview.dry_run && preview.would_delete && !preview.deleted);
    assert_eq!(preview.profile.unwrap().id, "api");
    assert_eq!(store.profiles.len(), 2);
    let deleted = delete_profile(&mut store, "api", false).unwrap();
    assert!(deleted.deleted);
    assert_eq!(deleted.id, "api");
    let again = delete_profile(&mut store, "api", false).unwrap();
    assert!(!again.deleted && !again.would_delete && again.profile.is_none());
    assert_eq!(ids(&store), vec!["web".to_string()]);

    let listed = list_profiles("/home/me/.config/agent-workspace-linux/profiles.json".to_string(), store);
    assert_eq!(listed.profiles.len(), 1);
    assert_eq!(listed.path, "/home/me/.config/agent-workspace-linux/profiles.json");
}

#[test]
fn explicit_environment_overrides_profile_environment() {
    let merged = merged_env(
        vec![env("A", "1"), env("B", "2")],
        vec![env("B", "3"), env("C", "4")],
    );
    let pairs: Vec<(String, String)> = merged.into_iter().map(|v| (v.name, v.value)).collect();
    assert_eq!(
        pairs,
        vec![
            ("A".to_string(), "1".to_string()),
            ("B".to_string(), "3".to_string()),
            ("C".to_string(), "4".to_string()),
        ]
    );
}

#[test]
fn profiles_shape_starts_and_launches() {
    let store = ProfileStore {
        profiles: vec![profile("dev")],
    };
    let caps = PolicyRuntimeCapabilities::default();
    let mut options = WorkspaceStartOptions::default();
    apply_profile_to_start_options(store.clone(), "dev", &mut options, false, false, &caps).unwrap();
    assert_eq!(options.profile_id, Some("dev".to_string()));
    assert_eq!(options.width, 1024);
    assert_eq!(options.height, 720);
    assert!(options.applied_policy.is_some());

    let mut explicit = WorkspaceStartOptions::default();
    explicit.width = 640;
    apply_profile_to_start_options(store.clone(), "dev", &mut explicit, true, false, &caps).unwrap();
    assert_eq!(explicit.width, 640);

    let mut spec = LaunchSpec {
        command: vec!["xterm".to_string()],
        name: None,
        profile_id: None,
        applied_policy: None,
        user_acknowledged_unenforced_policy: false,
        cwd: None,
        env: vec![env("MODE", "cli")],
    };
    apply_profile_to_launch_spec(store.clone(), "dev", &mut spec, false, &caps).unwrap();
    assert_eq!(spec.cwd, Some("/workspace/project".to_string()));
    assert_eq!(spec.profile_id, Some("dev".to_string()));
    let pairs: Vec<(String, String)> = spec.env.into_iter().map(|v| (v.name, v.value)).collect();
    assert_eq!(
        pairs,
        vec![
            ("MODE".to_string(), "cli".to_string()),
            ("KEEP".to_string(), "1".to_string()),
        ]
    );

    let setup = setup_launch_specs(store.clone(), "dev", &caps).unwrap();
    assert_eq!(setup.len(), 1);
    assert_eq!(setup[0].command, vec!["make".to_string(), "deps".to_string()]);
    assert_eq!(setup[0].cwd, Some("/workspace/project".to_string()));
    let startup = startup_app_launch_specs(store.clone(), "dev", &caps).unwrap();
    assert_eq!(startup.len(), 1);
    assert_eq!(startup[0].cwd, Some("/workspace/project/sub".to_string()));

    let check = check_profile(store, "dev", &caps).unwrap();
    assert!(check.requires_hidden_workspace_ack);
    assert!(check.requires_unenforced_policy_ack);
    assert!(!check.warnings.is_empty());
}

#[test]
fn the_project_template_mounts_the_project() {
    let template = template_profile(" project-dev ", None, "/home/me/src".to_string()).unwrap();
    assert_eq!(template.id, "project-dev");
    assert_eq!(template.cwd, Some("/workspace/project".to_string()));
    assert_eq!(template.mounts.len(), 1);
    assert_eq!(template.mounts[0].host_path, "/home/me/src");
    assert_eq!(template.mounts[0].mode, MountMode::ReadWrite);
    assert_eq!(template.network.mode, NetworkMode::InheritHost);
    let named = template_profile("project_dev", Some("mine".to_string()), "/src".to_string()).unwrap();
    assert_eq!(named.id, "mine");
    assert_eq!(
        template_profile("browser", None, "/src".to_string())
            .unwrap_err()
            .message(),
        "unknown profile template \"browser\". Expected: project-dev"
    );
    assert_eq!(
        template_profile(" a\"b\\c ", None, "/src".to_string())
            .unwrap_err()
            .message(),
        "unknown profile template \"a\\\"b\\\\c\". Expected: project-dev"
    );
    assert!(template_profile("project-dev", None, "relative".to_string()).is_err());
}

#[test]
fn the_store_lives_under_the_config_dir() {
    assert_eq!(
        profiles_path(Some("/cfg".to_string()), Some("/home/me".to_string())),
        "/cfg/agent-workspace-linux/profiles.json"
    );
    assert_eq!(
        profiles_path(None, Some("/home/me".to_string())),
        "/home/me/.config/agent-workspace-linux/profiles.json"
    );
    assert_eq!(
        profile_path(None, None).path,
        "./agent-workspace-linux/profiles.json"
    );
}

#[test]
fn local_only_hosts_must_be_loopback_labels() {
    let mut p = profile("local");
    p.network = NetworkPolicy { mode: NetworkMode::LocalOnly, allow_hosts: Vec::new() };
    assert!(validate_profile(&p).is_ok());
    p.network.allow_hosts = vec![
        "localhost:3000".to_string(),
        " 127.0.0.1:5173 ".to_string(),
        "LOCALHOST".to_string(),
        "[::1]:8080".to_string(),
    ];
    assert!(validate_profile(&p).is_ok());
    p.network.allow_hosts.push("example.com".to_string());
    assert_eq!(
        validate_profile(&p).unwrap_err().message(),
        "local_only network profiles only accept localhost or loopback allow_hosts entries, got \"example.com\""
    );
    p.network.allow_hosts = vec!["localhost:".to_string()];
    assert!(validate_profile(&p).is_err());
    p.network.mode = NetworkMode::InheritHost;
    p.network.allow_hosts = vec!["example.com".to_string()];
    assert!(validate_profile(&p).is_ok());
}

#[test]
fn startup_apps_launch_under_their_names() {
    let store = ProfileStore { profiles: vec![profile("named")] };
    let specs = startup_app_launch_specs(store, "named", &PolicyRuntimeCapabilities::default()).unwrap();
    assert_eq!(specs.len(), 1);
    assert_eq!(specs[0].name, Some("term".to_string()));
}

#[test]
fn export_targets_and_replacement() {
    assert_eq!(export_path("/tmp/out", true, "dev"), "/tmp/out/dev.json");
    assert_eq!(export_path("/tmp/out/", true, "dev"), "/tmp/out/dev.json");
    assert_eq!(export_path("/tmp/p.json", false, "dev"), "/tmp/p.json");
    assert!(check_export_target("/tmp/p.json", false, false).is_ok());
    assert!(check_export_target("/tmp/p.json", true, true).is_ok());
    assert_eq!(
        check_export_target("/tmp/p.json", true, false).unwrap_err().message(),
        "profile export target /tmp/p.json already exists; pass --replace or replace=true to overwrite it"
    );
}
