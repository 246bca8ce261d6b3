//! How the daemon launches an app: the checked launch becomes a process plan
//! (program, arguments, working directory, environment, sandbox), and the spawned
//! process becomes an app record.
use crate::checks::{
    launch_ack_issue, launch_spec_issue, validate_launch_policy_ack, validate_launch_spec,
    WorkspaceError, WorkspaceIssue,
};
use crate::policy::AppliedWorkspacePolicy;
use crate::requests::first_of;
use crate::sandbox::{bubblewrap_sandbox_for_launch, sandbox_outcome, BubblewrapSandbox, SandboxHost};
use crate::text::{decimal, owned, strs, u32_to_string};
use crate::workspace::{EnvVar, LaunchPreview, LaunchSpec, WorkspaceApp, WorkspaceStatus};
use vstd::prelude::*;
use vstd::string::*;

verus! {

/// The policy a launch runs under: its own, or else the workspace's.
pub open spec fn effective_policy(spec: LaunchSpec, status: WorkspaceStatus) -> Option<
    AppliedWorkspacePolicy,
> {
    if spec.applied_policy is Some {
        spec.applied_policy
    } else {
        status.applied_policy
    }
}

/// The text of an optional string.
pub open spec fn opt_text(o: Option<String>) -> Option<Seq<char>> {
    match o {
        Some(s) => Some(s@),
        None => None,
    }
}

/// How to start the process of a launch.
#[derive(Clone, Debug)]
pub struct LaunchPlan {
    pub program: String,
    pub args: Vec<String>,
    pub current_dir: Option<String>,
    pub env: Vec<EnvVar>,
    pub sandbox: Option<BubblewrapSandbox>,
    pub mount_isolation: String,
    pub network_isolation: String,
}

/// The process of a launch: inside bubblewrap (`bwrap ARGS -- COMMAND`, the
/// sandbox setting the working directory) or directly (`COMMAND` in the launch
/// cwd); the display and authority of the workspace come first in the
/// environment, then the launch's own variables.
pub open spec fn plan_matches(plan: LaunchPlan, spec: LaunchSpec, status: WorkspaceStatus) -> bool {
    &&& match plan.sandbox {
        Some(sb) => {
            &&& plan.program@ == "bwrap"@
            &&& strs(plan.args@) == strs(sb.args@) + seq!["--"@] + strs(spec.command@)
            &&& plan.current_dir is None
            &&& plan.mount_isolation@ == sb.mount_isolation@
            &&& plan.network_isolation@ == sb.network_isolation@
        },
        None => {
            &&& plan.program@ == spec.command@[0]@
            &&& strs(plan.args@) == strs(spec.command@).drop_first()
            &&& plan.current_dir == spec.cwd
            &&& plan.mount_isolation@ == "host"@
            &&& plan.network_isolation@ == "host"@
        },
    }
    &&& plan.env@.len() == spec.env@.len() + 2
    &&& plan.env@[0].name@ == "DISPLAY"@
    &&& plan.env@[0].value@ == status.display@
    &&& plan.env@[1].name@ == "XAUTHORITY"@
    &&& plan.env@[1].value@ == status.xauthority_path@
    &&& plan.env@.subrange(2, plan.env@.len() as int) == spec.env@
}

fn push_owned(v: &mut Vec<String>, s: &String)
    ensures
        strs(final(v)@) == strs(old(v)@).push(s@),
{
    v.push(s.clone());
    assert(strs(v@) =~= strs(old(v)@).push(s@));
}

/// Plans the process of a checked launch in a workspace. `cwd_is_dir` tells
/// whether the launch cwd is a directory on the host; `host` holds the host facts
/// the sandbox depends on.
pub fn plan_launch(status: &WorkspaceStatus, spec: &LaunchSpec, cwd_is_dir: bool, host: &SandboxHost) -> (r:
    Result<LaunchPlan, WorkspaceError>)
    requires
        host.system_dirs_present@.len() == 6,
        effective_policy(*spec, *status) is Some ==> host.mount_host_paths_present@.len()
            == effective_policy(*spec, *status)->0.mounts@.len(),
    ensures
        first_of(launch_spec_issue(*spec, cwd_is_dir), launch_ack_issue(*spec)) is Some ==> (
        r matches Err(e) && Some(e@) == first_of(
            launch_spec_issue(*spec, cwd_is_dir),
            launch_ack_issue(*spec),
        )),
        first_of(launch_spec_issue(*spec, cwd_is_dir), launch_ack_issue(*spec)) is None ==> match r {
            Ok(plan) => sandbox_outcome(
                Ok(plan.sandbox),
                status.xauthority_path@,
                effective_policy(*spec, *status),
                opt_text(spec.cwd),
                *host,
            ) && plan_matches(plan, *spec, *status),
            Err(e) => sandbox_outcome(
                Err(e),
                status.xauthority_path@,
                effective_policy(*spec, *status),
                opt_text(spec.cwd),
                *host,
            ),
        },
{
    match validate_launch_spec(spec, cwd_is_dir) {
        Ok(()) => {},
        Err(e) => {
            return Err(e);
        },
    }
    match validate_launch_policy_ack(spec) {
        Ok(()) => {},
        Err(e) => {
            return Err(e);
        },
    }
    let policy: Option<&AppliedWorkspacePolicy> = match &spec.applied_policy {
        Some(p) => Some(p),
        None => match &status.applied_policy {
            Some(p) => Some(p),
            None => None,
        },
    };
    let cwd: Option<&str> = match &spec.cwd {
        Some(c) => Some(c.as_str()),
        None => None,
    };
    let sandbox = match bubblewrap_sandbox_for_launch(
        status.xauthority_path.as_str(),
        policy,
        cwd,
        host,
    ) {
        Ok(s) => s,
        Err(e) => {
            return Err(e);
        },
    };
    let mut env: Vec<EnvVar> = Vec::new();
    env.push(EnvVar { name: owned("DISPLAY"), value: status.display.clone() });
    env.push(EnvVar { name: owned("XAUTHORITY"), value: status.xauthority_path.clone() });
    let mut i: usize = 0;
    while i < spec.env.len()
        invariant
            i <= spec.env@.len(),
            env@.len() == i + 2,
            env@[0].name@ == "DISPLAY"@,
            env@[0].value@ == status.display@,
            env@[1].name@ == "XAUTHORITY"@,
            env@[1].value@ == status.xauthority_path@,
            env@.subrange(2, env@.len() as int) == spec.env@.subrange(0, i as int),
        decreases spec.env.len() - i,
    {
        env.push(spec.env[i].duplicate());
        i += 1;
        assert(env@.subrange(2, env@.len() as int) =~= spec.env@.subrange(0, i as int));
    }
    assert(spec.env@.subrange(0, spec.env@.len() as int) =~= spec.env@);
    let mut args: Vec<String> = Vec::new();
    let program;
    let current_dir;
    let mount_isolation;
    let network_isolation;
    match &sandbox {
        Some(sb) => {
            program = owned("bwrap");
            let mut k: usize = 0;
            assert(strs(args@) =~= strs(sb.args@.subrange(0, 0)));
            while k < sb.args.len()
                invariant
                    k <= sb.args@.len(),
                    strs(args@) == strs(sb.args@.subrange(0, k as int)),
                decreases sb.args.len() - k,
            {
                push_owned(&mut args, &sb.args[k]);
                k += 1;
                assert(strs(sb.args@.subrange(0, k as int)) =~= strs(
                    sb.args@.subrange(0, k - 1),
                ).push(sb.args@[k - 1]@));
            }
            assert(sb.args@.subrange(0, sb.args@.len() as int) =~= sb.args@);
            let ghost with_sb = strs(args@);
            args.push(owned("--"));
            assert(strs(args@) =~= with_sb + seq!["--"@]);
            let ghost base = strs(args@);
            let mut c: usize = 0;
            assert(strs(args@) =~= base + strs(spec.command@.subrange(0, 0)));
            while c < spec.command.len()
                invariant
                    c <= spec.command@.len(),
                    strs(args@) == base + strs(spec.command@.subrange(0, c as int)),
                decreases spec.command.len() - c,
            {
                push_owned(&mut args, &spec.command[c]);
                c += 1;
                assert(strs(spec.command@.subrange(0, c as int)) =~= strs(
                    spec.command@.subrange(0, c - 1),
                ).push(spec.command@[c - 1]@));
            }
            assert(spec.command@.subrange(0, spec.command@.len() as int) =~= spec.command@);
            current_dir = None;
            mount_isolation = sb.mount_isolation.clone();
            network_isolation = sb.network_isolation.clone();
        },
        None => {
            program = spec.command[0].clone();
            let mut c: usize = 1;
            assert(strs(args@) =~= strs(spec.command@.subrange(1, 1)));
            while c < spec.command.len()
                invariant
                    1 <= c <= spec.command@.len(),
                    strs(args@) == strs(spec.command@.subrange(1, c as int)),
                decreases spec.command.len() - c,
            {
                push_owned(&mut args, &spec.command[c]);
                c += 1;
                assert(strs(spec.command@.subrange(1, c as int)) =~= strs(
                    spec.command@.subrange(1, c - 1),
                ).push(spec.command@[c - 1]@));
            }
            assert(strs(spec.command@.subrange(1, spec.command@.len() as int)) =~= strs(
                spec.command@,
            ).drop_first());
            current_dir = match &spec.cwd {
                Some(d) => Some(d.clone()),
                None => None,
            };
            mount_isolation = owned("host");
            network_isolation = owned("host");
        },
    }
    Ok(
        LaunchPlan {
            program,
            args,
            current_dir,
            env,
            sandbox,
            mount_isolation,
            network_isolation,
        },
    )
}

/// The preview of a planned launch: the process it would start (program,
/// arguments, working directory, environment and isolation labels), or, when the
/// plan was refused, why.
pub fn launch_preview(plan: Result<LaunchPlan, WorkspaceError>) -> (r: LaunchPreview)
    ensures
        match plan {
            Ok(p) => r.would_launch && r.blocker is None && r.program == p.program && r.args == p.args
                && r.current_dir == p.current_dir && r.env == p.env && r.mount_isolation
                == p.mount_isolation && r.network_isolation == p.network_isolation,
            Err(e) => !r.would_launch && r.args@.len() == 0 && r.env@.len() == 0 && r.current_dir
                is None && (r.blocker matches Some(b) && b@ == e@.text()),
        },
{
    match plan {
        Ok(p) => LaunchPreview {
            would_launch: true,
            blocker: None,
            program: p.program,
            args: p.args,
            current_dir: p.current_dir,
            env: p.env,
            mount_isolation: p.mount_isolation,
            network_isolation: p.network_isolation,
        },
        Err(e) => LaunchPreview {
            would_launch: false,
            blocker: Some(e.message()),
            program: String::new(),
            args: Vec::new(),
            current_dir: None,
            env: Vec::new(),
            mount_isolation: String::new(),
            network_isolation: String::new(),
        },
    }
}

/// The app record of a launch once its process started with `pid`: named
/// `app-<pid>`, running, with its log paths and the isolation it runs under.
pub fn launched_app(
    spec: LaunchSpec,
    plan: &LaunchPlan,
    pid: u32,
    stdout_path: String,
    stderr_path: String,
    started_at_unix: u64,
) -> (r: WorkspaceApp)
    ensures
        r.id@ == "app-"@ + decimal(pid as nat),
        r.name == spec.name,
        r.pid == pid,
        r.profile_id == spec.profile_id,
        r.mount_isolation@ == plan.mount_isolation@,
        r.network_isolation@ == plan.network_isolation@,
        r.command == spec.command,
        r.cwd == spec.cwd,
        r.env == spec.env,
        r.stdout_path == Some(stdout_path),
        r.stderr_path == Some(stderr_path),
        r.started_at_unix == started_at_unix,
        r.running,
        r.exit_status is None,
        r.exit_code is None,
        r.exit_signal is None,
{
    let mut id = owned("app-");
    id.append(u32_to_string(pid).as_str());
    WorkspaceApp {
        id,
        name: spec.name,
        pid,
        profile_id: spec.profile_id,
        mount_isolation: plan.mount_isolation.clone(),
        network_isolation: plan.network_isolation.clone(),
        command: spec.command,
        cwd: spec.cwd,
        env: spec.env,
        stdout_path: Some(stdout_path),
        stderr_path: Some(stderr_path),
        started_at_unix,
        running: true,
        exit_status: None,
        exit_code: None,
        exit_signal: None,
    }
}

/// Records how an app's process ended: its exit status text, code and signal.
pub fn apply_app_exit_status(
    app: &mut WorkspaceApp,
    exit_status: String,
    exit_code: Option<i32>,
    exit_signal: Option<i32>,
)
    ensures
        !final(app).running,
        final(app).exit_status == Some(exit_status),
        final(app).exit_code == exit_code,
        final(app).exit_signal == exit_signal,
        final(app).id == old(app).id,
        final(app).pid == old(app).pid,
        final(app).name == old(app).name,
        final(app).command == old(app).command,
{
    app.running = false;
    app.exit_status = Some(exit_status);
    app.exit_code = exit_code;
    app.exit_signal = exit_signal;
}

/// Records that waiting for an app's process failed: the app no longer runs and
/// the error stands in for its exit status.
pub fn mark_app_exit_error(app: &mut WorkspaceApp, error: String)
    ensures
        !final(app).running,
        final(app).exit_status == Some(error),
        final(app).exit_code is None,
        final(app).exit_signal is None,
        final(app).id == old(app).id,
        final(app).pid == old(app).pid,
        final(app).name == old(app).name,
        final(app).command == old(app).command,
{
    app.running = false;
    app.exit_status = Some(error);
    app.exit_code = None;
    app.exit_signal = None;
}

} // verus!
