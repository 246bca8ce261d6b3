//! Readiness of the machine for a workspace: dependency probes turned into checks,
//! the doctor report, and the decision whether a start may go ahead.
use crate::checks::{sanitize_workspace_id, workspace_id_issue, WorkspaceError, WorkspaceIssue};
use crate::policy::{unenforced_policy, PolicyRuntimeCapabilities, PolicyToolCheck};
use crate::text::{
    concat2, concat3, debug_quoted, debug_text, is_blank, join, join_strings, owned, strs, trim,
    trim_str,
};
use crate::workspace::{Check, DoctorReport, RuntimeReport, WorkspaceStartOptions};
use vstd::prelude::*;
use vstd::string::*;

verus! {

/// The detail of a probe for `command`: on success its trimmed output (or `ok`);
/// on failure its trimmed error output, else its trimmed output, else
/// `missing: <command>`.
pub open spec fn probe_detail(command: Seq<char>, success: bool, stdout: Seq<char>, stderr: Seq<
    char,
>) -> Seq<char> {
    if success {
        if trim(stdout).len() == 0 {
            "ok"@
        } else {
            trim(stdout)
        }
    } else if trim(stderr).len() > 0 {
        trim(stderr)
    } else if trim(stdout).len() > 0 {
        trim(stdout)
    } else {
        "missing: "@ + command
    }
}

/// Turns the outcome of `command -v <command>` into a check.
pub fn command_path_check(command: &str, success: bool, stdout: &str, stderr: &str) -> (r: Check)
    ensures
        r.ok == success,
        r.detail@ == probe_detail(command@, success, stdout@, stderr@),
{
    if success {
        if is_blank(stdout) {
            Check { ok: true, detail: owned("ok") }
        } else {
            Check { ok: true, detail: trim_str(stdout) }
        }
    } else if !is_blank(stderr) {
        Check { ok: false, detail: trim_str(stderr) }
    } else if !is_blank(stdout) {
        Check { ok: false, detail: trim_str(stdout) }
    } else {
        Check { ok: false, detail: concat2("missing: ", command) }
    }
}

/// The index of the first check that passed.
pub open spec fn first_ok(checks: Seq<Check>) -> Option<int>
    decreases checks.len(),
{
    if checks.len() == 0 {
        None
    } else {
        match first_ok(checks.drop_last()) {
            Some(k) => Some(k),
            None => if checks.last().ok {
                Some(checks.len() - 1)
            } else {
                None
            },
        }
    }
}

proof fn lemma_first_ok(checks: Seq<Check>)
    ensures
        match first_ok(checks) {
            Some(k) => 0 <= k < checks.len() && checks[k].ok && forall|j: int|
                0 <= j < k ==> !(#[trigger] checks[j]).ok,
            None => forall|j: int| 0 <= j < checks.len() ==> !(#[trigger] checks[j]).ok,
        },
    decreases checks.len(),
{
    if checks.len() > 0 {
        lemma_first_ok(checks.drop_last());
        assert forall|j: int| 0 <= j < checks.len() - 1 implies checks.drop_last()[j] == checks[j] by {}
    }
}

proof fn lemma_first_ok_prefix(checks: Seq<Check>, k: int)
    requires
        0 <= k <= checks.len(),
        first_ok(checks.subrange(0, k)) is Some,
    ensures
        first_ok(checks) == first_ok(checks.subrange(0, k)),
    decreases checks.len() - k,
{
    if k == checks.len() {
        assert(checks.subrange(0, k) =~= checks);
    } else {
        assert(checks.subrange(0, k + 1).drop_last() =~= checks.subrange(0, k));
        lemma_first_ok_prefix(checks, k + 1);
    }
}

/// Of several alternative commands, the check of the first one available, or a
/// failed check naming them all.
pub fn first_available_command(commands: &Vec<String>, checks: &Vec<Check>) -> (r: Check)
    requires
        commands@.len() == checks@.len(),
    ensures
        match first_ok(checks@) {
            Some(k) => r == checks@[k],
            None => !r.ok && r.detail@ == "missing all of: "@ + join(strs(commands@), ", "@),
        },
{
    let mut i: usize = 0;
    assert(checks@.subrange(0, 0) =~= Seq::<Check>::empty());
    while i < checks.len()
        invariant
            i <= checks@.len(),
            first_ok(checks@.subrange(0, i as int)) is None,
        decreases checks.len() - i,
    {
        proof {
            assert(checks@.subrange(0, i + 1).drop_last() =~= checks@.subrange(0, i as int));
        }
        if checks[i].ok {
            proof {
                lemma_first_ok_prefix(checks@, i + 1);
            }
            return Check { ok: true, detail: checks[i].detail.clone() };
        }
        i += 1;
    }
    assert(checks@.subrange(0, checks@.len() as int) =~= checks@);
    let names = join_strings(commands, ", ");
    Check { ok: false, detail: concat2("missing all of: ", names.as_str()) }
}

/// The probe of a policy tool, as a policy check.
pub fn policy_tool_check(check: Check) -> (r: PolicyToolCheck)
    ensures
        r.ok == check.ok,
        r.detail == check.detail,
{
    PolicyToolCheck { ok: check.ok, detail: check.detail }
}

/// The policy backends of a machine, from the probes of `bwrap`, `firejail`,
/// `unshare` and `slirp4netns`.
pub fn policy_runtime_capabilities(
    bubblewrap: Check,
    firejail: Check,
    unshare: Check,
    slirp4netns: Check,
) -> (r: PolicyRuntimeCapabilities)
    ensures
        crate::policy::capabilities_from(
            r,
            PolicyToolCheck { ok: bubblewrap.ok, detail: bubblewrap.detail },
            PolicyToolCheck { ok: firejail.ok, detail: firejail.detail },
            PolicyToolCheck { ok: unshare.ok, detail: unshare.detail },
            PolicyToolCheck { ok: slirp4netns.ok, detail: slirp4netns.detail },
        ),
{
    PolicyRuntimeCapabilities::from_tools(
        policy_tool_check(bubblewrap),
        policy_tool_check(firejail),
        policy_tool_check(unshare),
        policy_tool_check(slirp4netns),
    )
}

/// What is missing for an X11 workspace, in the order the doctor reports it.
pub open spec fn doctor_blockers(rt: RuntimeReport) -> Seq<Seq<char>> {
    let display = if !rt.xvfb.ok && !rt.xephyr.ok {
        seq!["Install Xvfb or Xephyr to create the isolated X11 display."@]
    } else {
        Seq::empty()
    };
    let xauth = if !rt.xauth.ok {
        seq!["Install xauth so workspace displays can use a scoped authority file."@]
    } else {
        Seq::empty()
    };
    let xdpyinfo = if !rt.xdpyinfo.ok {
        seq!["Install xdpyinfo so workspace display readiness can be probed."@]
    } else {
        Seq::empty()
    };
    let xprop = if !rt.xprop.ok {
        seq!["Install xprop so workspace windows can be associated with app process ids."@]
    } else {
        Seq::empty()
    };
    let wm = if !rt.window_manager.ok {
        seq!["Install a lightweight window manager such as openbox, i3, or fluxbox."@]
    } else {
        Seq::empty()
    };
    let xdotool = if !rt.xdotool.ok {
        seq!["Install xdotool for scoped input and window control inside the workspace."@]
    } else {
        Seq::empty()
    };
    let shot = if !rt.screenshot.ok {
        seq!["Install ImageMagick import or scrot for workspace screenshots."@]
    } else {
        Seq::empty()
    };
    display + xauth + xdpyinfo + xprop + wm + xdotool + shot
}

/// The next step the doctor recommends.
pub open spec fn doctor_next_step(ready: bool) -> Seq<char> {
    if ready {
        "Run `agent-workspace-linux workspace start`, then launch apps into the workspace."@
    } else {
        "Install the missing X11 workspace dependencies, then rerun `agent-workspace-linux doctor`."@
    }
}

fn push_blocker(blockers: &mut Vec<String>, missing: bool, text: &str)
    ensures
        strs(final(blockers)@) == strs(old(blockers)@) + if missing {
            seq![text@]
        } else {
            Seq::<Seq<char>>::empty()
        },
{
    if missing {
        blockers.push(owned(text));
    }
    assert(strs(blockers@) =~= strs(old(blockers)@) + if missing {
        seq![text@]
    } else {
        Seq::<Seq<char>>::empty()
    });
}

/// An environment variable naming a display is set to a non-empty value.
pub open spec fn display_set(v: Option<String>) -> bool {
    v is Some && v->0@.len() > 0
}

/// The doctor report for the probed runtime: the blockers of an X11 workspace,
/// whether there are none, and what to do next; and, apart from that, whether the
/// environment has a host display (`DISPLAY` or `WAYLAND_DISPLAY`, given as
/// `display` and `wayland_display`) for a host-visible viewer.
pub fn doctor_report(runtime: RuntimeReport, display: Option<String>, wayland_display: Option<String>) -> (r:
    DoctorReport)
    ensures
        r.runtime == runtime,
        r.ready_for_host_viewer == (display_set(display) || display_set(wayland_display)),
        strs(r.blockers@) == doctor_blockers(runtime),
        r.ready_for_x11_workspace == (doctor_blockers(runtime).len() == 0),
        r.recommended_next_step@ == doctor_next_step(r.ready_for_x11_workspace),
{
    let mut blockers: Vec<String> = Vec::new();
    assert(strs(blockers@) =~= Seq::<Seq<char>>::empty());
    push_blocker(
        &mut blockers,
        !runtime.xvfb.ok && !runtime.xephyr.ok,
        "Install Xvfb or Xephyr to create the isolated X11 display.",
    );
    push_blocker(
        &mut blockers,
        !runtime.xauth.ok,
        "Install xauth so workspace displays can use a scoped authority file.",
    );
    push_blocker(
        &mut blockers,
        !runtime.xdpyinfo.ok,
        "Install xdpyinfo so workspace display readiness can be probed.",
    );
    push_blocker(
        &mut blockers,
        !runtime.xprop.ok,
        "Install xprop so workspace windows can be associated with app process ids.",
    );
    push_blocker(
        &mut blockers,
        !runtime.window_manager.ok,
        "Install a lightweight window manager such as openbox, i3, or fluxbox.",
    );
    push_blocker(
        &mut blockers,
        !runtime.xdotool.ok,
        "Install xdotool for scoped input and window control inside the workspace.",
    );
    push_blocker(
        &mut blockers,
        !runtime.screenshot.ok,
        "Install ImageMagick import or scrot for workspace screenshots.",
    );
    let ready = blockers.len() == 0;
    let next = if ready {
        owned("Run `agent-workspace-linux workspace start`, then launch apps into the workspace.")
    } else {
        owned(
            "Install the missing X11 workspace dependencies, then rerun `agent-workspace-linux doctor`.",
        )
    };
    let host_display = match &display {
        Some(d) => d.unicode_len() > 0,
        None => false,
    };
    let host_wayland = match &wayland_display {
        Some(d) => d.unicode_len() > 0,
        None => false,
    };
    DoctorReport {
        runtime,
        ready_for_x11_workspace: ready,
        ready_for_host_viewer: host_display || host_wayland,
        blockers,
        recommended_next_step: next,
    }
}

/// What starting a workspace does: report the one already running, or start a new
/// one under the checked id.
#[derive(Clone, Debug)]
pub enum WorkspaceStartPlan {
    AlreadyRunning { id: String },
    Start { id: String },
}

/// What keeps a start from going ahead, after the id: a missing hidden-workspace
/// acknowledgement, unenforced policy that is refused or unacknowledged, or a
/// runtime that is not ready.
pub open spec fn start_issue(options: WorkspaceStartOptions, report: DoctorReport) -> Option<
    WorkspaceIssue,
> {
    if !options.user_acknowledged_hidden_workspace {
        Some(WorkspaceIssue::HiddenWorkspaceUnacknowledged)
    } else if options.applied_policy is Some && unenforced_policy(options.applied_policy->0)
        && options.applied_policy->0.require_enforced_policy {
        Some(WorkspaceIssue::StartPolicyNotEnforced)
    } else if options.applied_policy is Some && unenforced_policy(options.applied_policy->0)
        && !options.user_acknowledged_unenforced_policy {
        Some(WorkspaceIssue::StartPolicyUnacknowledged)
    } else if !report.ready_for_x11_workspace {
        Some(WorkspaceIssue::RuntimeNotReady { blockers: join(strs(report.blockers@), "; "@) })
    } else {
        None
    }
}

/// Decides a workspace start: the id is checked first; a workspace that is
/// already running is reported as such; otherwise the start needs its
/// acknowledgements and a ready runtime.
pub fn plan_workspace_start(options: &WorkspaceStartOptions, running: bool, report: &DoctorReport) -> (r:
    Result<WorkspaceStartPlan, WorkspaceError>)
    ensures
        match r {
            Ok(WorkspaceStartPlan::AlreadyRunning { id }) => workspace_id_issue(options.id@) is None
                && running && id@ == trim(options.id@),
            Ok(WorkspaceStartPlan::Start { id }) => workspace_id_issue(options.id@) is None
                && !running && start_issue(*options, *report) is None && id@ == trim(options.id@),
            Err(e) => if workspace_id_issue(options.id@) is Some {
                workspace_id_issue(options.id@) == Some(e@)
            } else {
                !running && start_issue(*options, *report) == Some(e@)
            },
        },
{
    let id = match sanitize_workspace_id(options.id.as_str()) {
        Ok(i) => i,
        Err(e) => {
            return Err(e);
        },
    };
    if running {
        return Ok(WorkspaceStartPlan::AlreadyRunning { id });
    }
    if !options.user_acknowledged_hidden_workspace {
        return Err(WorkspaceError::HiddenWorkspaceUnacknowledged);
    }
    if let Some(p) = &options.applied_policy {
        let unenforced = p.has_requested_unenforced_policy();
        if unenforced && p.require_enforced_policy {
            return Err(WorkspaceError::StartPolicyNotEnforced);
        }
        if unenforced && !options.user_acknowledged_unenforced_policy {
            return Err(WorkspaceError::StartPolicyUnacknowledged);
        }
    }
    if !report.ready_for_x11_workspace {
        return Err(WorkspaceError::RuntimeNotReady { blockers: join_strings(&report.blockers, "; ") });
    }
    Ok(WorkspaceStartPlan::Start { id })
}

/// What a start still needs before it goes ahead: the acknowledgements that are
/// missing (by name, by command-line flag and by MCP parameter), and the blockers
/// that no acknowledgement lifts.
#[derive(Clone, Debug)]
pub struct ApprovalBundle {
    pub missing_acknowledgements: Vec<String>,
    pub approval_flags: Vec<String>,
    pub mcp_parameters: Vec<String>,
    pub blockers: Vec<String>,
}

/// A preview of a workspace start: whether the workspace already runs, whether a
/// new one would be created, and what approval it still needs.
#[derive(Clone, Debug)]
pub struct WorkspaceStartPreview {
    pub id: String,
    pub already_running: bool,
    pub would_start: bool,
    pub requires_unenforced_policy_ack: bool,
    pub approval: ApprovalBundle,
}

/// The start's policy requests something this runtime does not enforce.
pub open spec fn start_policy_unenforced(options: WorkspaceStartOptions) -> bool {
    options.applied_policy is Some && unenforced_policy(options.applied_policy->0)
}

/// The start's policy fails closed on what is not enforced.
pub open spec fn start_policy_strict(options: WorkspaceStartOptions) -> bool {
    start_policy_unenforced(options) && options.applied_policy->0.require_enforced_policy
}

/// The policy acknowledgement is needed and was not given.
pub open spec fn policy_ack_missing(options: WorkspaceStartOptions) -> bool {
    start_policy_unenforced(options) && !start_policy_strict(options)
        && !options.user_acknowledged_unenforced_policy
}

/// `e` holds `x` when `c` holds, and nothing otherwise.
pub open spec fn when(c: bool, x: Seq<char>) -> Seq<Seq<char>> {
    if c {
        seq![x]
    } else {
        Seq::empty()
    }
}

/// The approval bundle of a start (see `ApprovalBundle`).
pub open spec fn start_approval(a: ApprovalBundle, options: WorkspaceStartOptions, report: DoctorReport) -> bool {
    let hidden = !options.user_acknowledged_hidden_workspace;
    let policy = policy_ack_missing(options);
    &&& strs(a.missing_acknowledgements@) == when(hidden, "hidden_workspace"@) + when(
        policy,
        "unenforced_policy"@,
    )
    &&& strs(a.approval_flags@) == when(hidden, "--ack-hidden-workspace"@) + when(
        policy,
        "--ack-unenforced-policy"@,
    )
    &&& strs(a.mcp_parameters@) == when(hidden, "acknowledge_hidden_workspace=true"@) + when(
        policy,
        "acknowledge_unenforced_policy=true"@,
    )
    &&& strs(a.blockers@) == when(
        start_policy_strict(options),
        WorkspaceIssue::StartPolicyNotEnforced.text(),
    ) + when(
        !report.ready_for_x11_workspace,
        WorkspaceIssue::RuntimeNotReady { blockers: join(strs(report.blockers@), "; "@) }.text(),
    )
}

fn push_when(v: &mut Vec<String>, c: bool, x: String)
    ensures
        strs(final(v)@) == strs(old(v)@) + when(c, x@),
{
    if c {
        v.push(x);
    }
    assert(strs(v@) =~= strs(old(v)@) + when(c, x@));
}

/// Previews a workspace start without creating anything: the id is checked first;
/// then it reports whether the workspace already runs, whether a new one would be
/// created, and the approval the start still needs. A start would go ahead exactly
/// when nothing is missing and nothing blocks it.
pub fn preview_workspace_start(options: &WorkspaceStartOptions, running: bool, report: &DoctorReport) -> (r:
    Result<WorkspaceStartPreview, WorkspaceError>)
    ensures
        match workspace_id_issue(options.id@) {
            Some(x) => r matches Err(e) && e@ == x,
            None => r matches Ok(p) && {
                &&& p.id@ == trim(options.id@)
                &&& p.already_running == running
                &&& p.requires_unenforced_policy_ack == start_policy_unenforced(*options)
                &&& start_approval(p.approval, *options, *report)
                &&& p.would_start == (!running && start_issue(*options, *report) is None)
                &&& p.would_start == (!running && p.approval.missing_acknowledgements@.len() == 0
                    && p.approval.blockers@.len() == 0)
            },
        },
{
    let id = match sanitize_workspace_id(options.id.as_str()) {
        Ok(i) => i,
        Err(e) => {
            return Err(e);
        },
    };
    let hidden = !options.user_acknowledged_hidden_workspace;
    let (unenforced, strict) = match &options.applied_policy {
        Some(p) => {
            let u = p.has_requested_unenforced_policy();
            (u, u && p.require_enforced_policy)
        },
        None => (false, false),
    };
    let policy = unenforced && !strict && !options.user_acknowledged_unenforced_policy;
    let ready = report.ready_for_x11_workspace;
    let mut missing: Vec<String> = Vec::new();
    let mut flags: Vec<String> = Vec::new();
    let mut params: Vec<String> = Vec::new();
    let mut blockers: Vec<String> = Vec::new();
    assert(strs(missing@) =~= Seq::<Seq<char>>::empty());
    assert(strs(flags@) =~= Seq::<Seq<char>>::empty());
    assert(strs(params@) =~= Seq::<Seq<char>>::empty());
    assert(strs(blockers@) =~= Seq::<Seq<char>>::empty());
    push_when(&mut missing, hidden, owned("hidden_workspace"));
    push_when(&mut missing, policy, owned("unenforced_policy"));
    push_when(&mut flags, hidden, owned("--ack-hidden-workspace"));
    push_when(&mut flags, policy, owned("--ack-unenforced-policy"));
    push_when(&mut params, hidden, owned("acknowledge_hidden_workspace=true"));
    push_when(&mut params, policy, owned("acknowledge_unenforced_policy=true"));
    push_when(&mut blockers, strict, WorkspaceError::StartPolicyNotEnforced.message());
    let not_ready = WorkspaceError::RuntimeNotReady { blockers: join_strings(&report.blockers, "; ") };
    push_when(&mut blockers, !ready, not_ready.message());
    proof {
        reveal_strlit("hidden_workspace");
        reveal_strlit("unenforced_policy");
    }
    assert(strs(missing@).len() == missing@.len());
    assert(strs(blockers@).len() == blockers@.len());
    assert(hidden || policy ==> strs(missing@).len() > 0);
    assert(strict || !ready ==> strs(blockers@).len() > 0);
    assert(!hidden && !policy ==> strs(missing@).len() == 0);
    assert(!strict && ready ==> strs(blockers@).len() == 0);
    let would_start = !running && missing.len() == 0 && blockers.len() == 0;
    Ok(
        WorkspaceStartPreview {
            id,
            already_running: running,
            would_start,
            requires_unenforced_policy_ack: unenforced,
            approval: ApprovalBundle {
                missing_acknowledgements: missing,
                approval_flags: flags,
                mcp_parameters: params,
                blockers,
            },
        },
    )
}

/// The reply text when a start finds its workspace already running.
pub fn already_running_message(id: &str) -> (r: String)
    ensures
        r@ == "workspace "@ + debug_text(id@) + " is already running"@,
{
    let q = debug_quoted(id);
    concat3("workspace ", q.as_str(), " is already running")
}

/// The error text when a foreground start finds its workspace already running on
/// `display`.
pub fn already_running_on_message(id: &str, display: &str) -> (r: String)
    ensures
        r@ == "workspace "@ + debug_text(id@) + " is already running on "@ + display@,
{
    let q = debug_quoted(id);
    let mut s = concat3("workspace ", q.as_str(), " is already running on ");
    s.append(display);
    s
}

/// No workspace starts without the hidden-workspace acknowledgement.
pub proof fn law_start_needs_hidden_ack(options: WorkspaceStartOptions, report: DoctorReport)
    requires
        !options.user_acknowledged_hidden_workspace,
    ensures
        start_issue(options, report) == Some(WorkspaceIssue::HiddenWorkspaceUnacknowledged),
{
}

/// A start under a policy that fails closed is refused whenever some mount or
/// network policy it requests is not enforced, acknowledged or not.
pub proof fn law_fail_closed_start(options: WorkspaceStartOptions, report: DoctorReport)
    requires
        options.user_acknowledged_hidden_workspace,
        options.applied_policy is Some,
        options.applied_policy->0.require_enforced_policy,
        unenforced_policy(options.applied_policy->0),
    ensures
        start_issue(options, report) == Some(WorkspaceIssue::StartPolicyNotEnforced),
        start_issue(WorkspaceStartOptions { user_acknowledged_unenforced_policy: true, ..options }, report)
            == Some(WorkspaceIssue::StartPolicyNotEnforced),
{
}

} // verus!
