use agent_workspace_linux::guardrails::{guardrail_summary, rule};
use agent_workspace_linux::paths::{
    is_absolute_path, join_path_str, path_components, path_eq_str, path_has_parent_dir,
    path_is_single_name, path_starts_with_str,
};
use agent_workspace_linux::text::{
    contains_ascii_case_insensitive, i32_to_string, join_strings, lines_of,
    parse_i32_str, parse_unsigned_str, rsplit_once_text, split_once_text, split_text, trim_str,
    u32_to_string, u64_to_string,
};

fn ids(rules: &[agent_workspace_linux::guardrails::GuardrailRule]) -> Vec<&str> {
    rules.iter().map(|r| r.id.as_str()).collect()
}

#[test]
fn guardrail_summary_lists_every_rule_by_group() {
    let summary = guardrail_summary();
    assert_eq!(summary.version, 1);
    assert_eq!(
        ids(&summary.acknowledgements),
        vec!["hidden-workspace-start", "unenforced-profile-policy"]
    );
    assert_eq!(
        ids(&summary.previews),
        vec![
            "profile-put-preview",
            "profile-delete-preview",
            "stale-cleanup-preview",
            "window-close-preview",
            "app-kill-preview",
            "workspace-stop-preview",
        ]
    );
    assert_eq!(
        ids(&summary.explicit_overrides),
        vec!["profile-replace", "profile-export-replace"]
    );
    assert_eq!(
        ids(&summary.timeout_terminations),
        vec![
            "run-app-kill-on-timeout",
            "wait-app-kill-on-timeout",
            "profile-setup-kill-on-timeout",
        ]
    );
    assert_eq!(
        ids(&summary.scope_notes),
        vec!["workspace-local-actions", "event-log-redaction"]
    );
    assert!(summary.acknowledgements.iter().all(|r| r.kind == "acknowledgement"));
    assert!(summary.previews.iter().all(|r| r.kind == "dry_run"));
    let hidden = &summary.acknowledgements[0];
    assert_eq!(hidden.opt_in, "--ack-hidden-workspace or acknowledge_hidden_workspace=true");
    assert_eq!(
        hidden.surfaces,
        vec![
            "workspace start".to_string(),
            "workspace open-profile".to_string(),
            "workspace_start".to_string(),
            "workspace_open_profile".to_string(),
        ]
    );
    assert_eq!(summary.previews[0].surfaces, vec!["profile put".to_string(), "profile_put".to_string()]);
}

#[test]
fn rules_copy_their_parts() {
    let r = rule("id", "kind", vec!["a", "b"], "default", "opt", "effect");
    assert_eq!(r.id, "id");
    assert_eq!(r.kind, "kind");
    assert_eq!(r.surfaces, vec!["a".to_string(), "b".to_string()]);
    assert_eq!(r.default_behavior, "default");
    assert_eq!(r.opt_in, "opt");
    assert_eq!(r.effect, "effect");
}

#[test]
fn text_helpers() {
    assert_eq!(trim_str(" \t a b \n"), "a b");
    assert!(contains_ascii_case_insensitive("XTerm", "term"));
    assert!(!contains_ascii_case_insensitive("XTerm", "zsh"));
    assert_eq!(u32_to_string(0), "0");
    assert_eq!(u32_to_string(4294967295), "4294967295");
    assert_eq!(u64_to_string(18446744073709551615), "18446744073709551615");
    assert_eq!(i32_to_string(-2147483648), "-2147483648");
    assert_eq!(i32_to_string(42), "42");
    assert_eq!(parse_i32_str("-17"), Some(-17));
    assert_eq!(parse_i32_str("+5"), Some(5));
    assert_eq!(parse_i32_str("2147483648"), None);
    assert_eq!(parse_i32_str(""), None);
    assert_eq!(parse_unsigned_str("65535", 65535), Some(65535));
    assert_eq!(parse_unsigned_str("65536", 65535), None);
    assert_eq!(parse_unsigned_str("1x", 65535), None);
    assert_eq!(
        join_strings(&vec!["a".to_string(), "b".to_string(), "c".to_string()], ", "),
        "a, b, c"
    );
    assert_eq!(split_text("a,,b", ','), vec!["a".to_string(), "".to_string(), "b".to_string()]);
    assert_eq!(
        split_once_text("k=v=w", '='),
        Some(("k".to_string(), "v=w".to_string()))
    );
    assert_eq!(
        rsplit_once_text("k=v=w", '='),
        Some(("k=v".to_string(), "w".to_string()))
    );
    assert_eq!(split_once_text("kv", '='), None);
    assert_eq!(
        lines_of("a\r\nb\n\nc\n"),
        vec!["a".to_string(), "b".to_string(), "".to_string(), "c".to_string()]
    );
}

#[test]
fn path_helpers() {
    assert_eq!(
        path_components("/a//b/./c/"),
        vec!["/".to_string(), "a".to_string(), "b".to_string(), "c".to_string()]
    );
    assert!(is_absolute_path("/tmp"));
    assert!(!is_absolute_path("tmp"));
    assert!(path_has_parent_dir("/a/../b"));
    assert!(!path_has_parent_dir("/a/..b"));
    assert!(path_is_single_name("bash"));
    assert!(!path_is_single_name("/bin/bash"));
    assert!(path_starts_with_str("/workspace/project/src", "/workspace/project"));
    assert!(!path_starts_with_str("/workspace/projects", "/workspace/project"));
    assert!(path_eq_str("/a/b/", "/a//b"));
    assert_eq!(join_path_str("/run/ws", "control.sock"), "/run/ws/control.sock");
}

#[test]
fn policy_modes_list_mounts_and_each_network_mode() {
    let summary = guardrail_summary();
    let modes: Vec<(&str, &str, bool, bool)> = summary
        .policy_modes
        .iter()
        .map(|m| {
            (
                m.dimension.as_str(),
                m.mode.as_str(),
                m.enforced_with_bubblewrap,
                m.enforced_without_bubblewrap,
            )
        })
        .collect();
    assert_eq!(
        modes,
        vec![
            ("mounts", "bind", true, false),
            ("network", "inherit_host", true, true),
            ("network", "disabled", true, false),
            ("network", "local_only", true, false),
            ("network", "allowlist", false, false),
        ]
    );
    assert_eq!(summary.policy_modes[1].acknowledgement, "none");
}
