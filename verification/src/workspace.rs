//! Workspace requests: the data the daemon is asked to act on and the checks a
//! request passes before it is sent.
use crate::policy::{AppliedWorkspacePolicy, PolicyRuntimeCapabilities};
use vstd::prelude::*;
use vstd::string::*;

verus! {

/// The id of the workspace used when none is given.
pub open spec fn default_workspace_id_spec() -> Seq<char> {
    "default"@
}

/// `"default"`, the id of the workspace used when none is given.
pub fn default_workspace_id() -> (r: String)
    ensures
        r@ == default_workspace_id_spec(),
{
    String::from_str("default")
}

/// An environment variable for a launched app.
#[derive(Clone, Debug)]
pub struct EnvVar {
    pub name: String,
    pub value: String,
}

impl EnvVar {
    /// An equal copy.
    pub fn duplicate(&self) -> (r: Self)
        ensures
            r == *self,
    {
        EnvVar { name: self.name.clone(), value: self.value.clone() }
    }
}

/// An equal copy of a list of environment variables.
pub fn clone_envs(v: &Vec<EnvVar>) -> (r: Vec<EnvVar>)
    ensures
        r@ == v@,
{
    let mut r: Vec<EnvVar> = Vec::new();
    let mut i: usize = 0;
    while i < v.len()
        invariant
            i <= v@.len(),
            r@ == v@.subrange(0, i as int),
        decreases v.len() - i,
    {
        r.push(v[i].duplicate());
        i += 1;
        assert(r@ =~= v@.subrange(0, i as int));
    }
    assert(v@.subrange(0, v@.len() as int) =~= v@);
    r
}

/// What to launch inside a workspace.
#[derive(Clone, Debug)]
pub struct LaunchSpec {
    pub command: Vec<String>,
    pub name: Option<String>,
    pub profile_id: Option<String>,
    pub applied_policy: Option<AppliedWorkspacePolicy>,
    pub user_acknowledged_unenforced_policy: bool,
    pub cwd: Option<String>,
    pub env: Vec<EnvVar>,
}

/// How to start a workspace.
#[derive(Clone, Debug)]
pub struct WorkspaceStartOptions {
    pub id: String,
    pub purpose: Option<String>,
    pub profile_id: Option<String>,
    pub applied_policy: Option<AppliedWorkspacePolicy>,
    pub user_acknowledged_hidden_workspace: bool,
    pub user_acknowledged_unenforced_policy: bool,
    pub width: u32,
    pub height: u32,
}

impl Default for WorkspaceStartOptions {
    fn default() -> (r: Self)
        ensures
            r.id@ == default_workspace_id_spec(),
            r.purpose is None,
            r.profile_id is None,
            r.applied_policy is None,
            !r.user_acknowledged_hidden_workspace,
            !r.user_acknowledged_unenforced_policy,
            r.width == 1280,
            r.height == 720,
    {
        WorkspaceStartOptions {
            id: default_workspace_id(),
            purpose: None,
            profile_id: None,
            applied_policy: None,
            user_acknowledged_hidden_workspace: false,
            user_acknowledged_unenforced_policy: false,
            width: 1280,
            height: 720,
        }
    }
}


/// Options the workspace daemon runs with.
#[derive(Clone, Debug)]
pub struct DaemonOptions {
    pub id: String,
    pub purpose: Option<String>,
    pub profile_id: Option<String>,
    pub applied_policy: Option<AppliedWorkspacePolicy>,
    pub user_acknowledged_hidden_workspace: bool,
    pub user_acknowledged_unenforced_policy: bool,
    pub display: String,
    pub width: u32,
    pub height: u32,
    pub runtime_dir: String,
    pub socket_path: String,
    pub xauthority_path: String,
}

/// An app launched inside a workspace.
#[derive(Clone, Debug)]
pub struct WorkspaceApp {
    pub id: String,
    pub name: Option<String>,
    pub pid: u32,
    pub profile_id: Option<String>,
    pub mount_isolation: String,
    pub network_isolation: String,
    pub command: Vec<String>,
    pub cwd: Option<String>,
    pub env: Vec<EnvVar>,
    pub stdout_path: Option<String>,
    pub stderr_path: Option<String>,
    pub started_at_unix: u64,
    pub running: bool,
    pub exit_status: Option<String>,
    pub exit_code: Option<i32>,
    pub exit_signal: Option<i32>,
}

/// The live state of a workspace.
#[derive(Clone, Debug)]
pub struct WorkspaceStatus {
    pub id: String,
    pub purpose: Option<String>,
    pub profile_id: Option<String>,
    pub applied_policy: Option<AppliedWorkspacePolicy>,
    pub user_acknowledged_hidden_workspace: bool,
    pub user_acknowledged_unenforced_policy: bool,
    pub ready: bool,
    pub started_at_unix: u64,
    pub display: String,
    pub width: u32,
    pub height: u32,
    pub runtime_dir: String,
    pub socket_path: String,
    pub xauthority_path: String,
    pub x_server_pid: u32,
    pub window_manager_pid: Option<u32>,
    pub apps: Vec<WorkspaceApp>,
}

/// Position and size of a window.
#[derive(Clone, Copy, Debug)]
pub struct WindowGeometry {
    pub x: i32,
    pub y: i32,
    pub width: u32,
    pub height: u32,
    pub screen: Option<i32>,
}

/// A window on the workspace display.
#[derive(Clone, Debug)]
pub struct WorkspaceWindow {
    pub id: String,
    pub title: String,
    pub wm_class: Option<String>,
    pub wm_instance: Option<String>,
    pub pid: Option<u32>,
    pub app_id: Option<String>,
    pub visible: bool,
    pub geometry: WindowGeometry,
}

/// Whether a runtime dependency is available, with the detail of the probe.
#[derive(Clone, Debug)]
pub struct Check {
    pub ok: bool,
    pub detail: String,
}

/// The runtime dependencies of the X11 workspace.
#[derive(Clone, Debug)]
pub struct RuntimeReport {
    pub xvfb: Check,
    pub xephyr: Check,
    pub xauth: Check,
    pub xdpyinfo: Check,
    pub xprop: Check,
    pub window_manager: Check,
    pub xdotool: Check,
    pub screenshot: Check,
    pub clipboard: Check,
    pub policy: PolicyRuntimeCapabilities,
}

/// Whether this machine can run a workspace, and what is missing.
#[derive(Clone, Debug)]
pub struct DoctorReport {
    pub runtime: RuntimeReport,
    pub ready_for_x11_workspace: bool,
    pub ready_for_host_viewer: bool,
    pub blockers: Vec<String>,
    pub recommended_next_step: String,
}

/// A workspace found in the runtime directory.
#[derive(Clone, Debug)]
pub struct WorkspaceListEntry {
    pub id: String,
    pub runtime_dir: String,
    pub socket_path: String,
    pub running: bool,
    pub status: Option<WorkspaceStatus>,
    pub error: Option<String>,
}

/// The workspaces found in the runtime directory.
#[derive(Clone, Debug)]
pub struct WorkspaceList {
    pub runtime_base_dir: String,
    pub workspaces: Vec<WorkspaceListEntry>,
}

/// A stale workspace runtime that was removed or skipped.
#[derive(Clone, Debug)]
pub struct WorkspaceCleanupEntry {
    pub id: String,
    pub runtime_dir: String,
    pub reason: String,
}

/// A preview of a launch: the process it would start, or why it would be refused.
#[derive(Clone, Debug)]
pub struct LaunchPreview {
    pub would_launch: bool,
    /// Why the launch would be refused.
    pub blocker: Option<String>,
    pub program: String,
    pub args: Vec<String>,
    pub current_dir: Option<String>,
    pub env: Vec<EnvVar>,
    pub mount_isolation: String,
    pub network_isolation: String,
}

/// What a cleanup of stale workspaces did.
#[derive(Clone, Debug)]
pub struct WorkspaceCleanup {
    pub runtime_base_dir: String,
    pub dry_run: bool,
    pub removed: Vec<WorkspaceCleanupEntry>,
    pub candidates: Vec<WorkspaceCleanupEntry>,
    pub skipped: Vec<WorkspaceCleanupEntry>,
}

/// A screenshot written to disk.
#[derive(Clone, Debug)]
pub struct WorkspaceScreenshot {
    pub path: String,
    pub width: u32,
    pub height: u32,
    pub format: String,
}

/// The tail of an app's log.
#[derive(Clone, Debug)]
pub struct WorkspaceAppLog {
    pub app_id: String,
    pub stream: String,
    pub path: String,
    pub content: String,
    pub bytes_read: u64,
    pub truncated: bool,
}

/// How a client talks to the workspace daemon.
#[derive(Clone, Debug)]
pub struct WorkspaceIpcInfo {
    pub protocol: String,
    pub protocol_version: u32,
    pub server_version: String,
    pub workspace_id: String,
    pub socket_path: String,
    pub transport: String,
    pub framing: String,
    pub encoding: String,
}

/// The workspace clipboard.
#[derive(Clone, Debug)]
pub struct WorkspaceClipboard {
    pub selection: String,
    pub content: Option<String>,
    pub bytes: u64,
}

} // verus!
