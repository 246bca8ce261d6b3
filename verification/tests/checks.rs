use agent_workspace_linux::checks::{
    normalize_paste_key, sanitize_workspace_id, sanitize_x11_id, validate_app_list_filters,
    validate_click_options, validate_clipboard_text, validate_key_text, validate_launch_spec,
    validate_log_stream, validate_optional_app_name, validate_relative_click_coordinates,
    validate_scroll_options, validate_window_list_filters, validate_window_match_options,
    validate_type_text, validate_window_size, validate_window_size_for_workspace,
    validate_window_target_options,
    validate_workspace_coordinates, window_drag_points, window_point, WorkspaceError,
};
use agent_workspace_linux::workspace::{LaunchSpec, WindowGeometry, WorkspaceStatus};

fn status(width: u32, height: u32) -> WorkspaceStatus {
    WorkspaceStatus {
        id: "default".to_string(),
        purpose: None,
        profile_id: None,
        applied_policy: None,
        user_acknowledged_hidden_workspace: true,
        user_acknowledged_unenforced_policy: false,
        ready: true,
        started_at_unix: 0,
        display: ":90".to_string(),
        width,
        height,
        runtime_dir: "/run/user/1000/agent-workspace-linux/default".to_string(),
        socket_path: "/run/user/1000/agent-workspace-linux/default/control.sock".to_string(),
        xauthority_path: "/run/user/1000/agent-workspace-linux/default/Xauthority".to_string(),
        x_server_pid: 10,
        window_manager_pid: None,
        apps: Vec::new(),
    }
}

fn spec(command: &[&str]) -> LaunchSpec {
    LaunchSpec {
        command: command.iter().map(|part| part.to_string()).collect(),
        name: None,
        profile_id: None,
        applied_policy: None,
        user_acknowledged_unenforced_policy: false,
        cwd: None,
        env: Vec::new(),
    }
}

#[test]
fn workspace_ids_are_trimmed_and_restricted() {
    assert_eq!(sanitize_workspace_id("  qa-run_1 ").unwrap(), "qa-run_1");
    assert_eq!(
        sanitize_workspace_id("   ").unwrap_err().message(),
        "workspace id cannot be empty"
    );
    assert_eq!(
        sanitize_workspace_id("a/b").unwrap_err().message(),
        "workspace id may only contain ASCII letters, numbers, '-' and '_'"
    );
}

#[test]
fn x11_ids_must_be_decimal() {
    assert_eq!(sanitize_x11_id(" 4194307 ", "window id").unwrap(), "4194307");
    assert_eq!(
        sanitize_x11_id("", "window id").unwrap_err().message(),
        "window id cannot be empty"
    );
    assert_eq!(
        sanitize_x11_id("0x40", "window id").unwrap_err().message(),
        "window id must be a decimal X11 id"
    );
}

#[test]
fn click_and_scroll_ranges() {
    assert!(validate_click_options(1, 1).is_ok());
    assert!(validate_click_options(5, 20).is_ok());
    assert_eq!(
        validate_click_options(0, 1).unwrap_err().message(),
        "click button must be between 1 and 5"
    );
    assert_eq!(
        validate_click_options(6, 1).unwrap_err().message(),
        "click button must be between 1 and 5"
    );
    assert_eq!(
        validate_click_options(1, 21).unwrap_err().message(),
        "click count must be between 1 and 20"
    );
    assert!(validate_scroll_options(100).is_ok());
    assert_eq!(
        validate_scroll_options(0).unwrap_err().message(),
        "scroll amount must be between 1 and 100"
    );
    assert!(matches!(
        validate_scroll_options(101),
        Err(WorkspaceError::ScrollAmountRange)
    ));
}

#[test]
fn workspace_coordinates_must_lie_inside_the_display() {
    let s = status(1280, 720);
    assert!(validate_workspace_coordinates(&s, 0, 0, "click").is_ok());
    assert!(validate_workspace_coordinates(&s, 1279, 719, "click").is_ok());
    assert_eq!(
        validate_workspace_coordinates(&s, 1280, 10, "click")
            .unwrap_err()
            .message(),
        "click coordinates 1280,10 are outside workspace bounds 1280x720"
    );
    assert_eq!(
        validate_workspace_coordinates(&s, -1, 10, "drag start")
            .unwrap_err()
            .message(),
        "drag start coordinates -1,10 are outside workspace bounds 1280x720"
    );
    assert_eq!(
        validate_relative_click_coordinates(0, -3).unwrap_err().message(),
        "window click coordinates must be non-negative"
    );
    assert!(validate_relative_click_coordinates(0, 0).is_ok());
}

#[test]
fn window_sizes_must_be_positive_and_fit() {
    let s = status(800, 600);
    assert!(validate_window_size(1, 1).is_ok());
    assert_eq!(
        validate_window_size(0, 10).unwrap_err().message(),
        "window size must be positive"
    );
    assert!(validate_window_size_for_workspace(&s, 800, 600).is_ok());
    assert_eq!(
        validate_window_size_for_workspace(&s, 801, 600)
            .unwrap_err()
            .message(),
        "window size 801x600 is outside workspace bounds 800x600"
    );
}

#[test]
fn text_inputs_are_checked() {
    assert!(validate_clipboard_text("hello").is_ok());
    assert_eq!(
        validate_clipboard_text("").unwrap_err().message(),
        "clipboard text cannot be empty"
    );
    assert_eq!(
        validate_clipboard_text("a\0b").unwrap_err().message(),
        "clipboard text cannot contain NUL bytes"
    );
    assert_eq!(validate_key_text("  ").unwrap_err().message(), "key cannot be empty");
    assert_eq!(normalize_paste_key(None).unwrap(), "ctrl+v");
    assert_eq!(
        normalize_paste_key(Some(" shift+Insert ".to_string())).unwrap(),
        "shift+Insert"
    );
    assert!(normalize_paste_key(Some(" ".to_string())).is_err());
    assert!(validate_optional_app_name(&None).is_ok());
    assert_eq!(
        validate_optional_app_name(&Some(" ".to_string()))
            .unwrap_err()
            .message(),
        "app name cannot be empty"
    );
    assert_eq!(
        validate_optional_app_name(&Some("x\0".to_string()))
            .unwrap_err()
            .message(),
        "app name cannot contain NUL bytes"
    );
}

#[test]
fn log_streams_are_normalized() {
    assert_eq!(validate_log_stream(" stdout ").unwrap(), "stdout");
    assert_eq!(validate_log_stream("stderr").unwrap(), "stderr");
    assert_eq!(
        validate_log_stream("both").unwrap_err().message(),
        "log stream must be 'stdout' or 'stderr'"
    );
}

#[test]
fn filters_reject_blank_values() {
    assert!(validate_app_list_filters(&None, &None, &None, &None).is_ok());
    assert!(validate_app_list_filters(&Some(" ".to_string()), &None, &None, &None).is_err());
    assert!(validate_window_list_filters(&None, &None, None, &None).is_ok());
    assert!(
        validate_window_list_filters(&Some("".to_string()), &None, None, &None).is_err()
    );
    assert!(validate_window_match_options(&None, &None, None, &None, true).is_err());
    assert!(
        validate_window_match_options(&Some("Term".to_string()), &None, None, &None, true)
            .is_ok()
    );
    assert!(validate_window_match_options(&None, &None, Some(42), &None, true).is_ok());
    assert!(validate_window_target_options(
        &Some("123".to_string()),
        &Some("Term".to_string()),
        &None,
        None,
        &None
    )
    .is_err());
    assert!(
        validate_window_target_options(&Some("123".to_string()), &None, &None, None, &None)
            .is_ok()
    );
}

#[test]
fn launch_specs_need_a_command_and_an_existing_cwd() {
    assert!(validate_launch_spec(&spec(&["xterm"]), true).is_ok());
    assert!(validate_launch_spec(&spec(&[]), true).is_err());
    let mut with_cwd = spec(&["xterm"]);
    with_cwd.cwd = Some("/no/such/dir".to_string());
    assert!(validate_launch_spec(&with_cwd, false).is_err());
    assert!(validate_launch_spec(&with_cwd, true).is_ok());
}

#[test]
fn window_points_are_offset_by_the_window_origin() {
    let geometry = WindowGeometry {
        x: 100,
        y: 50,
        width: 200,
        height: 100,
        screen: Some(0),
    };
    assert_eq!(window_point(&geometry, 10, 20, "click").unwrap(), (110, 70));
    assert_eq!(window_point(&geometry, 199, 99, "click").unwrap(), (299, 149));
    assert_eq!(
        window_point(&geometry, 200, 0, "drag start")
            .unwrap_err()
            .message(),
        "window drag start coordinates 200,0 are outside window bounds 200x100"
    );
    let far = WindowGeometry {
        x: i32::MAX,
        y: 0,
        width: 10,
        height: 10,
        screen: None,
    };
    assert!(matches!(
        window_point(&far, 1, 0, "click"),
        Err(WorkspaceError::CoordinateOverflow { .. })
    ));
    assert_eq!(window_point(&far, 0, 0, "click").unwrap(), (i32::MAX, 0));
}

#[test]
fn drag_checks_both_bounds_before_any_overflow() {
    let geometry = WindowGeometry {
        x: 10,
        y: 20,
        width: 100,
        height: 50,
        screen: None,
    };
    assert_eq!(
        window_drag_points(&geometry, 1, 2, 99, 49).unwrap(),
        ((11, 22), (109, 69))
    );
    assert_eq!(
        window_drag_points(&geometry, 1, 2, 100, 0).unwrap_err().message(),
        "window drag end coordinates 100,0 are outside window bounds 100x50"
    );
    let far = WindowGeometry {
        x: i32::MAX,
        y: 0,
        width: 10,
        height: 10,
        screen: None,
    };
    // The start overflows, but the end lies outside the window: that is reported first.
    assert_eq!(
        window_drag_points(&far, 1, 0, 0, 10).unwrap_err().message(),
        "window drag end coordinates 0,10 are outside window bounds 10x10"
    );
    assert_eq!(
        window_drag_points(&far, 1, 0, 0, 0).unwrap_err().message(),
        "window drag start X coordinate overflow"
    );
    assert_eq!(
        window_drag_points(&far, 0, 0, 0, 9).unwrap(),
        ((i32::MAX, 0), (i32::MAX, 9))
    );
}

#[test]
fn typed_text_must_not_be_empty() {
    assert!(validate_type_text("hello").is_ok());
    assert!(matches!(validate_type_text(""), Err(WorkspaceError::TextEmpty)));
    assert_eq!(validate_type_text("").unwrap_err().message(), "text cannot be empty");
}
