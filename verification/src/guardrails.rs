//! The guardrails of the workspace tools: which actions need an acknowledgement,
//! offer a preview, need an explicit override or an explicit termination, and how
//! actions are scoped.
use vstd::prelude::*;
use vstd::string::*;

verus! {

/// One guardrail: what a surface does by default, how a caller opts in, and what
/// opting in does.
#[derive(Clone, Debug)]
pub struct GuardrailRule {
    pub id: String,
    pub kind: String,
    pub surfaces: Vec<String>,
    pub default_behavior: String,
    pub opt_in: String,
    pub effect: String,
}

/// All guardrails, grouped by kind.
#[derive(Clone, Debug)]
pub struct GuardrailSummary {
    pub version: u32,
    pub acknowledgements: Vec<GuardrailRule>,
    pub previews: Vec<GuardrailRule>,
    pub explicit_overrides: Vec<GuardrailRule>,
    pub timeout_terminations: Vec<GuardrailRule>,
    pub scope_notes: Vec<GuardrailRule>,
    pub policy_modes: Vec<PolicyModeRule>,
}

/// How one profile policy choice maps to what `profile_check` reports: whether the
/// runtime enforces it with and without bubblewrap, the backend, its limitation,
/// and the acknowledgement it needs when it is not enforced.
#[derive(Clone, Debug)]
pub struct PolicyModeRule {
    pub dimension: String,
    pub mode: String,
    pub enforced_with_bubblewrap: bool,
    pub enforced_without_bubblewrap: bool,
    pub backend: String,
    pub limitation: String,
    pub acknowledgement: String,
}

/// `r` is the policy mode rule with these fields.
pub open spec fn is_mode_rule(
    r: PolicyModeRule,
    dimension: Seq<char>,
    mode: Seq<char>,
    with_bwrap: bool,
    without_bwrap: bool,
    backend: Seq<char>,
    limitation: Seq<char>,
    acknowledgement: Seq<char>,
) -> bool {
    &&& r.dimension@ == dimension
    &&& r.mode@ == mode
    &&& r.enforced_with_bubblewrap == with_bwrap
    &&& r.enforced_without_bubblewrap == without_bwrap
    &&& r.backend@ == backend
    &&& r.limitation@ == limitation
    &&& r.acknowledgement@ == acknowledgement
}

/// A policy mode rule from its fields.
pub fn mode_rule(
    dimension: &str,
    mode: &str,
    with_bwrap: bool,
    without_bwrap: bool,
    backend: &str,
    limitation: &str,
    acknowledgement: &str,
) -> (r: PolicyModeRule)
    ensures
        is_mode_rule(r, dimension@, mode@, with_bwrap, without_bwrap, backend@, limitation@, acknowledgement@),
{
    PolicyModeRule {
        dimension: String::from_str(dimension),
        mode: String::from_str(mode),
        enforced_with_bubblewrap: with_bwrap,
        enforced_without_bubblewrap: without_bwrap,
        backend: String::from_str(backend),
        limitation: String::from_str(limitation),
        acknowledgement: String::from_str(acknowledgement),
    }
}

/// The acknowledgement a policy choice needs while it is not enforced.
pub open spec fn unenforced_ack() -> Seq<char> {
    "--ack-unenforced-policy or acknowledge_unenforced_policy=true while not enforced; refused when require_enforced_policy=true"@
}

/// The network modes, in the order the policy modes list them.
pub open spec fn listed_network_modes() -> Seq<crate::policy::NetworkMode> {
    seq![
        crate::policy::NetworkMode::InheritHost,
        crate::policy::NetworkMode::Disabled,
        crate::policy::NetworkMode::LocalOnly,
        crate::policy::NetworkMode::Allowlist,
    ]
}

/// The policy modes: profile mounts, then each network mode.
pub open spec fn is_policy_modes(v: Seq<PolicyModeRule>) -> bool {
    &&& v.len() == 5
    &&& is_mode_rule(
        v[0],
        "mounts"@,
        "bind"@,
        true,
        false,
        "bubblewrap"@,
        "Without bubblewrap, profile mounts are declared intent only."@,
        unenforced_ack(),
    )
    &&& is_mode_rule(
        v[1],
        "network"@,
        "inherit_host"@,
        true,
        true,
        "host"@,
        "Apps share the host network."@,
        "none"@,
    )
    &&& is_mode_rule(
        v[2],
        "network"@,
        "disabled"@,
        true,
        false,
        "bubblewrap --unshare-net"@,
        "Without bubblewrap, a disabled network is declared intent only."@,
        unenforced_ack(),
    )
    &&& is_mode_rule(
        v[3],
        "network"@,
        "local_only"@,
        true,
        false,
        "bubblewrap loopback-only network namespace"@,
        "Host-loopback services are not bridged into the namespace; allow_hosts entries are loopback labels only."@,
        unenforced_ack(),
    )
    &&& is_mode_rule(
        v[4],
        "network"@,
        "allowlist"@,
        false,
        false,
        "none"@,
        "Host filtering is not enforced; allow_hosts entries are declared intent only."@,
        unenforced_ack(),
    )
}

/// The policy modes say what the runtime does: each network mode is listed under
/// its name and as enforced, with and without bubblewrap, exactly when an applied
/// policy reports it enforced; profile mounts are enforced exactly when bubblewrap
/// is available.
pub proof fn law_policy_modes_match_enforcement(v: Seq<PolicyModeRule>, k: int)
    requires
        is_policy_modes(v),
        0 <= k < 4,
    ensures
        v[k + 1].mode@ == crate::permissions::network_mode_name(listed_network_modes()[k]),
        v[k + 1].enforced_with_bubblewrap == crate::policy::network_enforced(
            listed_network_modes()[k],
            true,
        ),
        v[k + 1].enforced_without_bubblewrap == crate::policy::network_enforced(
            listed_network_modes()[k],
            false,
        ),
        !v[k + 1].enforced_without_bubblewrap ==> v[k + 1].acknowledgement@ == unenforced_ack(),
        v[0].enforced_with_bubblewrap && !v[0].enforced_without_bubblewrap,
{
}

/// The text of each string slice.
pub open spec fn texts(v: Seq<&str>) -> Seq<Seq<char>> {
    v.map_values(|s: &str| s@)
}

/// The text of each string.
pub open spec fn string_texts(v: Seq<String>) -> Seq<Seq<char>> {
    v.map_values(|s: String| s@)
}

/// `r` is the rule with these fields.
pub open spec fn is_rule(
    r: GuardrailRule,
    id: Seq<char>,
    kind: Seq<char>,
    surfaces: Seq<Seq<char>>,
    default_behavior: Seq<char>,
    opt_in: Seq<char>,
    effect: Seq<char>,
) -> bool {
    &&& r.id@ == id
    &&& r.kind@ == kind
    &&& string_texts(r.surfaces@) == surfaces
    &&& r.default_behavior@ == default_behavior
    &&& r.opt_in@ == opt_in
    &&& r.effect@ == effect
}

/// A guardrail rule from its fields.
pub fn rule(
    id: &str,
    kind: &str,
    surfaces: Vec<&str>,
    default_behavior: &str,
    opt_in: &str,
    effect: &str,
) -> (r: GuardrailRule)
    ensures
        is_rule(r, id@, kind@, texts(surfaces@), default_behavior@, opt_in@, effect@),
{
    let mut owned_surfaces: Vec<String> = Vec::new();
    let mut i: usize = 0;
    while i < surfaces.len()
        invariant
            i <= surfaces@.len(),
            string_texts(owned_surfaces@) == texts(surfaces@.subrange(0, i as int)),
        decreases surfaces.len() - i,
    {
        let ghost prev = owned_surfaces@;
        owned_surfaces.push(String::from_str(surfaces[i]));
        proof {
            assert(string_texts(owned_surfaces@) =~= string_texts(prev).push(surfaces@[i as int]@));
            assert(texts(surfaces@.subrange(0, i + 1)) =~= texts(surfaces@.subrange(0, i as int)).push(
                surfaces@[i as int]@,
            ));
        }
        i += 1;
    }
    assert(surfaces@.subrange(0, surfaces@.len() as int) =~= surfaces@);
    GuardrailRule {
        id: String::from_str(id),
        kind: String::from_str(kind),
        surfaces: owned_surfaces,
        default_behavior: String::from_str(default_behavior),
        opt_in: String::from_str(opt_in),
        effect: String::from_str(effect),
    }
}
/// The guardrails this version of the tools applies, in the order they are
/// listed.
pub open spec fn is_guardrail_summary(s: GuardrailSummary) -> bool {
    &&& s.version == 1
    &&& s.acknowledgements@.len() == 2
    &&& is_rule(
        s.acknowledgements@[0],
        "hidden-workspace-start"@,
        "acknowledgement"@,
        seq!["workspace start"@, "workspace open-profile"@, "workspace_start"@, "workspace_open_profile"@],
        "Starting a hidden agent-controlled workspace is rejected."@,
        "--ack-hidden-workspace or acknowledge_hidden_workspace=true"@,
        "Records explicit user awareness that a separate workspace exists outside the visible desktop."@,
    )
    &&& is_rule(
        s.acknowledgements@[1],
        "unenforced-profile-policy"@,
        "acknowledgement"@,
        seq!["workspace start --profile"@, "workspace open-profile"@, "workspace launch --profile"@, "workspace run --profile"@, "workspace setup"@, "workspace launch-profile-apps"@, "profile_check"@],
        "Profiles that request mount or network policy not enforced by the runtime are rejected at action time."@,
        "--ack-unenforced-policy or acknowledge_unenforced_policy=true"@,
        "Records that the user accepted running with declared policy that is visible but not fully enforced."@,
    )
    &&& s.previews@.len() == 6
    &&& is_rule(
        s.previews@[0],
        "profile-put-preview"@,
        "dry_run"@,
        seq!["profile put"@, "profile_put"@],
        "Profile save writes to the profile store only when dry_run is false."@,
        "--dry-run or dry_run=true"@,
        "Returns whether the profile would be created, replaced, or rejected, including any existing profile."@,
    )
    &&& is_rule(
        s.previews@[1],
        "profile-delete-preview"@,
        "dry_run"@,
        seq!["profile delete"@, "profile_delete"@],
        "Profile delete removes a saved profile only when dry_run is false."@,
        "--dry-run or dry_run=true"@,
        "Returns the profile that would be removed without deleting it."@,
    )
    &&& is_rule(
        s.previews@[2],
        "stale-cleanup-preview"@,
        "dry_run"@,
        seq!["workspace cleanup"@, "workspace_cleanup_stale"@],
        "Cleanup removes stale runtime directories only when dry_run is false."@,
        "--dry-run or dry_run=true"@,
        "Returns stale runtime directory candidates without deleting them."@,
    )
    &&& is_rule(
        s.previews@[3],
        "window-close-preview"@,
        "dry_run"@,
        seq!["workspace close-window"@, "workspace_close_window"@, "workspace_close_matching_window"@],
        "Window close requests are sent only when dry_run is false."@,
        "--dry-run or dry_run=true"@,
        "Resolves and returns the targeted window without closing it."@,
    )
    &&& is_rule(
        s.previews@[4],
        "app-kill-preview"@,
        "dry_run"@,
        seq!["workspace kill-app"@, "workspace_kill_app"@],
        "App termination is sent only when dry_run is false."@,
        "--dry-run or dry_run=true"@,
        "Resolves and returns the matched app without terminating it."@,
    )
    &&& is_rule(
        s.previews@[5],
        "workspace-stop-preview"@,
        "dry_run"@,
        seq!["workspace stop"@, "workspace_stop"@],
        "Workspace shutdown and app termination happen only when dry_run is false."@,
        "--dry-run or dry_run=true"@,
        "Returns currently running apps without stopping the workspace."@,
    )
    &&& s.explicit_overrides@.len() == 2
    &&& is_rule(
        s.explicit_overrides@[0],
        "profile-replace"@,
        "explicit_override"@,
        seq!["profile put"@, "profile_put"@],
        "Saving a profile with an existing id is rejected."@,
        "--replace or replace=true"@,
        "Allows intentional overwrite of a saved environment profile."@,
    )
    &&& is_rule(
        s.explicit_overrides@[1],
        "profile-export-replace"@,
        "explicit_override"@,
        seq!["profile export"@, "profile_export"@],
        "Exporting to an existing output file is rejected."@,
        "--replace or replace=true"@,
        "Allows intentional overwrite of an existing exported profile JSON file."@,
    )
    &&& s.timeout_terminations@.len() == 3
    &&& is_rule(
        s.timeout_terminations@[0],
        "run-app-kill-on-timeout"@,
        "explicit_termination"@,
        seq!["workspace run"@, "workspace_run_app"@],
        "Timed-out commands are left running unless the caller opts into cleanup."@,
        "--kill-on-timeout or kill_on_timeout=true"@,
        "Terminates the launched app process group when the wait timeout elapses."@,
    )
    &&& is_rule(
        s.timeout_terminations@[1],
        "wait-app-kill-on-timeout"@,
        "explicit_termination"@,
        seq!["workspace wait-app"@, "workspace_wait_app"@],
        "Timed-out existing apps are left running unless the caller opts into cleanup."@,
        "--kill-on-timeout or kill_on_timeout=true"@,
        "Terminates the matched app process group when the wait timeout elapses."@,
    )
    &&& is_rule(
        s.timeout_terminations@[2],
        "profile-setup-kill-on-timeout"@,
        "explicit_termination"@,
        seq!["workspace setup"@, "workspace open-profile --setup"@, "workspace_run_profile_setup"@, "workspace_open_profile"@],
        "Timed-out setup commands are left running unless the caller opts into cleanup."@,
        "--kill-on-timeout, --setup-kill-on-timeout, kill_on_timeout=true, or setup_kill_on_timeout=true"@,
        "Terminates timed-out setup command process groups."@,
    )
    &&& s.scope_notes@.len() == 2
    &&& is_rule(
        s.scope_notes@[0],
        "workspace-local-actions"@,
        "scope"@,
        seq!["workspace input tools"@, "workspace window tools"@, "workspace app tools"@],
        "Tools attach to the isolated workspace display and control socket, not the host desktop."@,
        "workspace start creates DISPLAY/XAUTHORITY/AGENT_WORKSPACE_SOCKET for the hidden workspace"@,
        "Pointer, keyboard, window, clipboard, and app controls are scoped to the isolated X11 workspace."@,
    )
    &&& is_rule(
        s.scope_notes@[1],
        "event-log-redaction"@,
        "privacy"@,
        seq!["workspace events"@, "workspace_events"@],
        "Event logs do not store raw typed text, raw pasted text, or raw clipboard-set text."@,
        "workspace events or workspace_events"@,
        "Sensitive text actions are recorded as metadata such as character counts."@,
    )
    &&& is_policy_modes(s.policy_modes@)
}

/// Every guardrail of the workspace tools.
pub fn guardrail_summary() -> (r: GuardrailSummary)
    ensures
        is_guardrail_summary(r),
{
    let mut acknowledgements: Vec<GuardrailRule> = Vec::new();
    let mut surfaces_1: Vec<&str> = Vec::new();
    surfaces_1.push("workspace start");
    surfaces_1.push("workspace open-profile");
    surfaces_1.push("workspace_start");
    surfaces_1.push("workspace_open_profile");
    assert(texts(surfaces_1@) =~= seq!["workspace start"@, "workspace open-profile"@, "workspace_start"@, "workspace_open_profile"@]);
    acknowledgements.push(
        rule(
            "hidden-workspace-start",
            "acknowledgement",
            surfaces_1,
            "Starting a hidden agent-controlled workspace is rejected.",
            "--ack-hidden-workspace or acknowledge_hidden_workspace=true",
            "Records explicit user awareness that a separate workspace exists outside the visible desktop.",
        ),
    );
    let mut surfaces_2: Vec<&str> = Vec::new();
    surfaces_2.push("workspace start --profile");
    surfaces_2.push("workspace open-profile");
    surfaces_2.push("workspace launch --profile");
    surfaces_2.push("workspace run --profile");
    surfaces_2.push("workspace setup");
    surfaces_2.push("workspace launch-profile-apps");
    surfaces_2.push("profile_check");
    assert(texts(surfaces_2@) =~= seq!["workspace start --profile"@, "workspace open-profile"@, "workspace launch --profile"@, "workspace run --profile"@, "workspace setup"@, "workspace launch-profile-apps"@, "profile_check"@]);
    acknowledgements.push(
        rule(
            "unenforced-profile-policy",
            "acknowledgement",
            surfaces_2,
            "Profiles that request mount or network policy not enforced by the runtime are rejected at action time.",
            "--ack-unenforced-policy or acknowledge_unenforced_policy=true",
            "Records that the user accepted running with declared policy that is visible but not fully enforced.",
        ),
    );
    let mut previews: Vec<GuardrailRule> = Vec::new();
    let mut surfaces_3: Vec<&str> = Vec::new();
    surfaces_3.push("profile put");
    surfaces_3.push("profile_put");
    assert(texts(surfaces_3@) =~= seq!["profile put"@, "profile_put"@]);
    previews.push(
        rule(
            "profile-put-preview",
            "dry_run",
            surfaces_3,
            "Profile save writes to the profile store only when dry_run is false.",
            "--dry-run or dry_run=true",
            "Returns whether the profile would be created, replaced, or rejected, including any existing profile.",
        ),
    );
    let mut surfaces_4: Vec<&str> = Vec::new();
    surfaces_4.push("profile delete");
    surfaces_4.push("profile_delete");
    assert(texts(surfaces_4@) =~= seq!["profile delete"@, "profile_delete"@]);
    previews.push(
        rule(
            "profile-delete-preview",
            "dry_run",
            surfaces_4,
            "Profile delete removes a saved profile only when dry_run is false.",
            "--dry-run or dry_run=true",
            "Returns the profile that would be removed without deleting it.",
        ),
    );
    let mut surfaces_5: Vec<&str> = Vec::new();
    surfaces_5.push("workspace cleanup");
    surfaces_5.push("workspace_cleanup_stale");
    assert(texts(surfaces_5@) =~= seq!["workspace cleanup"@, "workspace_cleanup_stale"@]);
    previews.push(
        rule(
            "stale-cleanup-preview",
            "dry_run",
            surfaces_5,
            "Cleanup removes stale runtime directories only when dry_run is false.",
            "--dry-run or dry_run=true",
            "Returns stale runtime directory candidates without deleting them.",
        ),
    );
    let mut surfaces_6: Vec<&str> = Vec::new();
    surfaces_6.push("workspace close-window");
    surfaces_6.push("workspace_close_window");
    surfaces_6.push("workspace_close_matching_window");
    assert(texts(surfaces_6@) =~= seq!["workspace close-window"@, "workspace_close_window"@, "workspace_close_matching_window"@]);
    previews.push(
        rule(
            "window-close-preview",
            "dry_run",
            surfaces_6,
            "Window close requests are sent only when dry_run is false.",
            "--dry-run or dry_run=true",
            "Resolves and returns the targeted window without closing it.",
        ),
    );
    let mut surfaces_7: Vec<&str> = Vec::new();
    surfaces_7.push("workspace kill-app");
    surfaces_7.push("workspace_kill_app");
    assert(texts(surfaces_7@) =~= seq!["workspace kill-app"@, "workspace_kill_app"@]);
    previews.push(
        rule(
            "app-kill-preview",
            "dry_run",
            surfaces_7,
            "App termination is sent only when dry_run is false.",
            "--dry-run or dry_run=true",
            "Resolves and returns the matched app without terminating it.",
        ),
    );
    let mut surfaces_8: Vec<&str> = Vec::new();
    surfaces_8.push("workspace stop");
    surfaces_8.push("workspace_stop");
    assert(texts(surfaces_8@) =~= seq!["workspace stop"@, "workspace_stop"@]);
    previews.push(
        rule(
            "workspace-stop-preview",
            "dry_run",
            surfaces_8,
            "Workspace shutdown and app termination happen only when dry_run is false.",
            "--dry-run or dry_run=true",
            "Returns currently running apps without stopping the workspace.",
        ),
    );
    let mut explicit_overrides: Vec<GuardrailRule> = Vec::new();
    let mut surfaces_9: Vec<&str> = Vec::new();
    surfaces_9.push("profile put");
    surfaces_9.push("profile_put");
    assert(texts(surfaces_9@) =~= seq!["profile put"@, "profile_put"@]);
    explicit_overrides.push(
        rule(
            "profile-replace",
            "explicit_override",
            surfaces_9,
            "Saving a profile with an existing id is rejected.",
            "--replace or replace=true",
            "Allows intentional overwrite of a saved environment profile.",
        ),
    );
    let mut surfaces_10: Vec<&str> = Vec::new();
    surfaces_10.push("profile export");
    surfaces_10.push("profile_export");
    assert(texts(surfaces_10@) =~= seq!["profile export"@, "profile_export"@]);
    explicit_overrides.push(
        rule(
            "profile-export-replace",
            "explicit_override",
            surfaces_10,
            "Exporting to an existing output file is rejected.",
            "--replace or replace=true",
            "Allows intentional overwrite of an existing exported profile JSON file.",
        ),
    );
    let mut timeout_terminations: Vec<GuardrailRule> = Vec::new();
    let mut surfaces_11: Vec<&str> = Vec::new();
    surfaces_11.push("workspace run");
    surfaces_11.push("workspace_run_app");
    assert(texts(surfaces_11@) =~= seq!["workspace run"@, "workspace_run_app"@]);
    timeout_terminations.push(
        rule(
            "run-app-kill-on-timeout",
            "explicit_termination",
            surfaces_11,
            "Timed-out commands are left running unless the caller opts into cleanup.",
            "--kill-on-timeout or kill_on_timeout=true",
            "Terminates the launched app process group when the wait timeout elapses.",
        ),
    );
    let mut surfaces_12: Vec<&str> = Vec::new();
    surfaces_12.push("workspace wait-app");
    surfaces_12.push("workspace_wait_app");
    assert(texts(surfaces_12@) =~= seq!["workspace wait-app"@, "workspace_wait_app"@]);
    timeout_terminations.push(
        rule(
            "wait-app-kill-on-timeout",
            "explicit_termination",
            surfaces_12,
            "Timed-out existing apps are left running unless the caller opts into cleanup.",
            "--kill-on-timeout or kill_on_timeout=true",
            "Terminates the matched app process group when the wait timeout elapses.",
        ),
    );
    let mut surfaces_13: Vec<&str> = Vec::new();
    surfaces_13.push("workspace setup");
    surfaces_13.push("workspace open-profile --setup");
    surfaces_13.push("workspace_run_profile_setup");
    surfaces_13.push("workspace_open_profile");
    assert(texts(surfaces_13@) =~= seq!["workspace setup"@, "workspace open-profile --setup"@, "workspace_run_profile_setup"@, "workspace_open_profile"@]);
    timeout_terminations.push(
        rule(
            "profile-setup-kill-on-timeout",
            "explicit_termination",
            surfaces_13,
            "Timed-out setup commands are left running unless the caller opts into cleanup.",
            "--kill-on-timeout, --setup-kill-on-timeout, kill_on_timeout=true, or setup_kill_on_timeout=true",
            "Terminates timed-out setup command process groups.",
        ),
    );
    let mut scope_notes: Vec<GuardrailRule> = Vec::new();
    let mut surfaces_14: Vec<&str> = Vec::new();
    surfaces_14.push("workspace input tools");
    surfaces_14.push("workspace window tools");
    surfaces_14.push("workspace app tools");
    assert(texts(surfaces_14@) =~= seq!["workspace input tools"@, "workspace window tools"@, "workspace app tools"@]);
    scope_notes.push(
        rule(
            "workspace-local-actions",
            "scope",
            surfaces_14,
            "Tools attach to the isolated workspace display and control socket, not the host desktop.",
            "workspace start creates DISPLAY/XAUTHORITY/AGENT_WORKSPACE_SOCKET for the hidden workspace",
            "Pointer, keyboard, window, clipboard, and app controls are scoped to the isolated X11 workspace.",
        ),
    );
    let mut surfaces_15: Vec<&str> = Vec::new();
    surfaces_15.push("workspace events");
    surfaces_15.push("workspace_events");
    assert(texts(surfaces_15@) =~= seq!["workspace events"@, "workspace_events"@]);
    scope_notes.push(
        rule(
            "event-log-redaction",
            "privacy",
            surfaces_15,
            "Event logs do not store raw typed text, raw pasted text, or raw clipboard-set text.",
            "workspace events or workspace_events",
            "Sensitive text actions are recorded as metadata such as character counts.",
        ),
    );
    let mut policy_modes: Vec<PolicyModeRule> = Vec::new();
    let ack = "--ack-unenforced-policy or acknowledge_unenforced_policy=true while not enforced; refused when require_enforced_policy=true";
    policy_modes.push(
        mode_rule(
            "mounts",
            "bind",
            true,
            false,
            "bubblewrap",
            "Without bubblewrap, profile mounts are declared intent only.",
            ack,
        ),
    );
    policy_modes.push(
        mode_rule("network", "inherit_host", true, true, "host", "Apps share the host network.", "none"),
    );
    policy_modes.push(
        mode_rule(
            "network",
            "disabled",
            true,
            false,
            "bubblewrap --unshare-net",
            "Without bubblewrap, a disabled network is declared intent only.",
            ack,
        ),
    );
    policy_modes.push(
        mode_rule(
            "network",
            "local_only",
            true,
            false,
            "bubblewrap loopback-only network namespace",
            "Host-loopback services are not bridged into the namespace; allow_hosts entries are loopback labels only.",
            ack,
        ),
    );
    policy_modes.push(
        mode_rule(
            "network",
            "allowlist",
            false,
            false,
            "none",
            "Host filtering is not enforced; allow_hosts entries are declared intent only.",
            ack,
        ),
    );
    GuardrailSummary {
        version: 1,
        acknowledgements,
        previews,
        explicit_overrides,
        timeout_terminations,
        scope_notes,
        policy_modes,
    }
}

} // verus!
