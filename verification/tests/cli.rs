use agent_workspace_linux::cli::{
    parse_click_options, parse_env_assignment, parse_events_options, parse_launch_options,
    parse_no_options, parse_open_profile_options, parse_profile_command, parse_required_id_arg,
    parse_run_options, parse_start_options, parse_text_command, parse_top_command,
    parse_workspace_command, parse_workspace_command_with_preview, CliError, ProfileCommand, TopCommand, WorkspaceCommand,
};

fn args(parts: &[&str]) -> Vec<String> {
    parts.iter().map(|p| p.to_string()).collect()
}

#[test]
fn top_level_commands() {
    assert!(matches!(parse_top_command(&args(&[])), Ok(TopCommand::Help)));
    assert!(matches!(parse_top_command(&args(&["-h"])), Ok(TopCommand::Help)));
    assert!(matches!(parse_top_command(&args(&["doctor"])), Ok(TopCommand::Doctor)));
    match parse_top_command(&args(&["workspace", "status", "--id", "qa"])).unwrap() {
        TopCommand::Workspace { args: rest } => assert_eq!(rest, args(&["status", "--id", "qa"])),
        other => panic!("unexpected command {other:?}"),
    }
    assert_eq!(
        parse_top_command(&args(&["frobnicate"])).unwrap_err().message(),
        "unknown command 'frobnicate'. Expected one of: doctor, mcp, profile, workspace, --help"
    );
}

#[test]
fn start_options_keep_defaults_and_flags() {
    let parsed = parse_start_options(&args(&[
        "--ack-hidden-workspace",
        "--id",
        "qa",
        "--width",
        "800",
        "--profile",
        "dev",
        "--purpose",
        "QA run",
    ]))
    .unwrap();
    assert_eq!(parsed.options.id, "qa");
    assert_eq!(parsed.options.width, 800);
    assert_eq!(parsed.options.height, 720);
    assert!(parsed.options.user_acknowledged_hidden_workspace);
    assert!(!parsed.options.user_acknowledged_unenforced_policy);
    assert_eq!(parsed.options.purpose, Some("QA run".to_string()));
    assert_eq!(parsed.profile_id, Some("dev".to_string()));
    assert!(parsed.width_explicit);
    assert!(!parsed.height_explicit);
    assert!(!parsed.foreground);

    let defaults = parse_start_options(&args(&[])).unwrap();
    assert_eq!(defaults.options.id, "default");
    assert_eq!(defaults.options.width, 1280);

    assert_eq!(
        parse_start_options(&args(&["--width", "wide"]))
            .unwrap_err()
            .message(),
        "--width must be a positive integer"
    );
    assert_eq!(
        parse_start_options(&args(&["--id"])).unwrap_err().message(),
        "--id requires a value"
    );
    assert_eq!(
        parse_start_options(&args(&["--bogus"])).unwrap_err().message(),
        "unknown workspace start option '--bogus'"
    );
}

#[test]
fn open_profile_requires_a_profile() {
    let parsed = parse_open_profile_options(&args(&[
        "--profile",
        "dev",
        "--setup-timeout-ms",
        "30000",
    ]))
    .unwrap();
    assert_eq!(parsed.profile_id, "dev");
    assert!(parsed.open.run_setup);
    assert!(parsed.open.setup.wait);
    assert_eq!(parsed.open.setup.timeout_ms, Some(30000));
    let setup_only = parse_open_profile_options(&args(&["--profile", "dev", "--setup"])).unwrap();
    assert!(setup_only.open.run_setup);
    assert!(!setup_only.open.setup.wait);
    assert_eq!(
        parse_open_profile_options(&args(&["--setup"]))
            .unwrap_err()
            .message(),
        "workspace open-profile requires --profile PROFILE"
    );
}

#[test]
fn launches_take_the_command_after_the_separator() {
    let parsed = parse_launch_options(&args(&[
        "--id", "qa", "--env", "A=1", "--cwd", "/tmp", "--", "xterm", "-e", "bash",
    ]))
    .unwrap();
    assert_eq!(parsed.id, "qa");
    assert_eq!(parsed.spec.command, args(&["xterm", "-e", "bash"]));
    assert_eq!(parsed.spec.cwd, Some("/tmp".to_string()));
    assert!(parsed.cwd_explicit);
    assert_eq!(parsed.spec.env.len(), 1);
    assert_eq!(parsed.spec.env[0].name, "A");
    assert_eq!(parsed.spec.env[0].value, "1");
    assert_eq!(
        parse_launch_options(&args(&["--"])).unwrap_err().message(),
        "workspace launch requires a command after --"
    );
    let run = parse_run_options(&args(&["--timeout-ms", "500", "--kill-on-timeout", "--", "make"]))
        .unwrap();
    assert_eq!(run.timeout_ms, Some(500));
    assert!(run.kill_on_timeout);
    assert_eq!(run.spec.command, args(&["make"]));
}

#[test]
fn small_argument_readers() {
    let var = parse_env_assignment("PATH=/bin:/usr/bin").unwrap();
    assert_eq!(var.name, "PATH");
    assert_eq!(var.value, "/bin:/usr/bin");
    let eq = parse_env_assignment("A==b").unwrap();
    assert_eq!(eq.value, "=b");
    assert_eq!(
        parse_env_assignment("NOVALUE").unwrap_err().message(),
        "--env requires NAME=VALUE"
    );
    assert_eq!(
        parse_env_assignment("=x").unwrap_err().message(),
        "--env requires a non-empty variable name"
    );
    assert!(parse_no_options(&args(&[]), "profile path").is_ok());
    assert_eq!(
        parse_no_options(&args(&["-x"]), "profile path")
            .unwrap_err()
            .message(),
        "profile path does not accept option '-x'"
    );
    assert_eq!(
        parse_required_id_arg(&args(&["dev"]), "profile get requires an id").unwrap(),
        "dev"
    );
    assert!(matches!(
        parse_required_id_arg(&args(&["a", "b"]), "profile get requires an id"),
        Err(CliError::Missing { .. })
    ));
    assert_eq!(
        parse_click_options(&args(&["--id", "qa", "10", "-5"])).unwrap(),
        ("qa".to_string(), 10, -5)
    );
    assert_eq!(
        parse_click_options(&args(&["10"])).unwrap_err().message(),
        "workspace click requires X and Y coordinates"
    );
    assert_eq!(
        parse_click_options(&args(&["x", "1"])).unwrap_err().message(),
        "click X must be an integer"
    );
    assert_eq!(
        parse_text_command(&args(&["hello", "world"])).unwrap(),
        ("default".to_string(), "hello world".to_string())
    );
    assert_eq!(
        parse_events_options(&args(&["--tail", "3"])).unwrap(),
        ("default".to_string(), Some(3))
    );
    assert_eq!(
        parse_events_options(&args(&["--tail", "-1"]))
            .unwrap_err()
            .message(),
        "--tail must be a non-negative integer"
    );
}

#[test]
fn workspace_and_profile_subcommands() {
    match parse_workspace_command(&args(&["status", "--id", "qa"])).unwrap() {
        WorkspaceCommand::Status { id } => assert_eq!(id, "qa"),
        other => panic!("unexpected command {other:?}"),
    }
    match parse_workspace_command(&args(&["kill-app", "app-1"])).unwrap() {
        WorkspaceCommand::KillApp { id, app_id } => {
            assert_eq!(id, "default");
            assert_eq!(app_id, "app-1");
        }
        other => panic!("unexpected command {other:?}"),
    }
    assert!(matches!(
        parse_workspace_command(&args(&["list"])),
        Ok(WorkspaceCommand::List)
    ));
    assert!(parse_workspace_command(&args(&["teleport"]))
        .unwrap_err()
        .message()
        .starts_with("unknown workspace command 'teleport'. Expected: start, open-profile"));

    assert!(matches!(
        parse_profile_command(&args(&["path"])),
        Ok(ProfileCommand::Path)
    ));
    match parse_profile_command(&args(&["delete", "dev"])).unwrap() {
        ProfileCommand::Delete { id, dry_run } => assert!(id == "dev" && !dry_run),
        other => panic!("unexpected command {other:?}"),
    }
    match parse_profile_command(&args(&["delete", "--dry-run", "dev"])).unwrap() {
        ProfileCommand::Delete { id, dry_run } => assert!(id == "dev" && dry_run),
        other => panic!("unexpected command {other:?}"),
    }
    match parse_profile_command(&args(&["put", "--json", "p.json"])).unwrap() {
        ProfileCommand::Put { json_path, replace, dry_run } => {
            assert!(json_path == "p.json" && !replace && !dry_run)
        }
        other => panic!("unexpected command {other:?}"),
    }
    match parse_profile_command(&args(&["put", "--replace", "--json", "p.json", "--dry-run"])).unwrap() {
        ProfileCommand::Put { json_path, replace, dry_run } => {
            assert!(json_path == "p.json" && replace && dry_run)
        }
        other => panic!("unexpected command {other:?}"),
    }
    assert_eq!(
        parse_profile_command(&args(&["put", "--yaml", "p"]))
            .unwrap_err()
            .message(),
        "unknown profile put option '--yaml'. Expected: --json PATH, --replace, --dry-run"
    );
    assert_eq!(
        parse_profile_command(&args(&[])).unwrap_err().message(),
        "missing profile command. Expected: path, list, get, check, template, put, delete, export"
    );
}

#[test]
fn previewable_commands_take_dry_run_anywhere() {
    match parse_workspace_command_with_preview(&args(&["kill-app", "--dry-run", "app-1"])).unwrap() {
        (WorkspaceCommand::KillApp { id, app_id }, true) => {
            assert_eq!(id, "default");
            assert_eq!(app_id, "app-1");
        }
        other => panic!("unexpected command {other:?}"),
    }
    match parse_workspace_command_with_preview(&args(&["stop", "--id", "qa", "--dry-run"])).unwrap() {
        (WorkspaceCommand::Stop { id }, true) => assert_eq!(id, "qa"),
        other => panic!("unexpected command {other:?}"),
    }
    match parse_workspace_command_with_preview(&args(&["stop", "--id", "qa"])).unwrap() {
        (WorkspaceCommand::Stop { id }, false) => assert_eq!(id, "qa"),
        other => panic!("unexpected command {other:?}"),
    }
    assert!(parse_workspace_command_with_preview(&args(&["status", "--dry-run"])).is_err());
}

#[test]
fn profile_export_reads_output_and_replace() {
    match parse_profile_command(&args(&["export", "dev", "--replace", "--output", "out"])).unwrap() {
        ProfileCommand::Export { id, output, replace } => {
            assert_eq!(id, "dev");
            assert_eq!(output, Some("out".to_string()));
            assert!(replace);
        }
        other => panic!("unexpected command {other:?}"),
    }
    assert_eq!(
        parse_profile_command(&args(&["export"])).unwrap_err().message(),
        "profile export requires an id"
    );
    assert_eq!(
        parse_profile_command(&args(&["export", "dev", "--output"])).unwrap_err().message(),
        "--output requires a value"
    );
    assert_eq!(
        parse_profile_command(&args(&["export", "dev", "--force"])).unwrap_err().message(),
        "unknown profile export option '--force'"
    );
}

#[test]
fn launch_and_profile_commands_take_dry_run() {
    match parse_workspace_command(&args(&["launch-profile-apps", "--dry-run", "--profile", "dev"])).unwrap() {
        WorkspaceCommand::LaunchProfileApps { profile_id, options, .. } => {
            assert_eq!(profile_id, "dev");
            assert!(options.dry_run);
        }
        other => panic!("unexpected command {other:?}"),
    }
    match parse_workspace_command(&args(&["setup", "--profile", "dev", "--dry-run"])).unwrap() {
        WorkspaceCommand::Setup { options, .. } => assert!(options.dry_run && !options.wait),
        other => panic!("unexpected command {other:?}"),
    }
    match parse_workspace_command(&args(&["launch", "--dry-run", "--", "xterm"])).unwrap() {
        WorkspaceCommand::Launch(parsed) => {
            assert!(parsed.dry_run);
            assert_eq!(parsed.spec.command, vec!["xterm".to_string()]);
        }
        other => panic!("unexpected command {other:?}"),
    }
    match parse_workspace_command(&args(&["start", "--dry-run"])).unwrap() {
        WorkspaceCommand::Start(parsed) => assert!(parsed.dry_run && !parsed.foreground),
        other => panic!("unexpected command {other:?}"),
    }
}
