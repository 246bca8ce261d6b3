//! Saved workspace profiles: validation, the profile store, and how a profile
//! shapes starts and launches.
use crate::paths::{
    has_parent_dir, is_absolute, is_absolute_path, join_path, join_path_str, path_eq, path_eq_str,
    path_has_parent_dir,
    path_starts_with, path_starts_with_str,
};
use crate::policy::{
    clone_mounts, clone_opt_string, clone_strings, enforcement_consistent,
    requested_but_unenforced, requested_but_unenforced_status, same_capabilities, same_network,
    unenforced_policy, AppliedWorkspacePolicy, MountMode, NetworkMode, NetworkPolicy,
    PolicyRuntimeCapabilities, ProfileMount,
};
use crate::text::{
    all_ws, concat2, concat3, first_issue, is_id_char, lemma_first_issue_ends,
    lemma_first_issue_prefix, lemma_first_issue_step, owned, trim, trim_str, all_id_chars, debug_quoted, debug_text,
    all_digits, all_digit_chars, chars_eq, chars_of, lower_chars, lower_seq, rsplit_once, rsplit_once_text,
};
use crate::workspace::{clone_envs, EnvVar, LaunchSpec, WorkspaceStartOptions};
use vstd::prelude::*;
use vstd::string::*;

verus! {

/// The directory under which every profile mount must appear.
pub open spec fn workspace_mount_root() -> Seq<char> {
    "/workspace"@
}

/// A saved environment profile.
#[derive(Clone, Debug)]
pub struct WorkspaceProfile {
    pub id: String,
    pub description: Option<String>,
    pub width: Option<u32>,
    pub height: Option<u32>,
    pub cwd: Option<String>,
    pub env: Vec<EnvVar>,
    pub mounts: Vec<ProfileMount>,
    pub network: NetworkPolicy,
    pub require_enforced_policy: bool,
    pub setup_commands: Vec<ProfileSetupCommand>,
    pub startup_apps: Vec<ProfileStartupApp>,
}

/// A command run to prepare a workspace.
#[derive(Clone, Debug)]
pub struct ProfileSetupCommand {
    pub command: Vec<String>,
    pub cwd: Option<String>,
    pub env: Vec<EnvVar>,
}

/// An app opened when a profile workspace starts.
#[derive(Clone, Debug)]
pub struct ProfileStartupApp {
    pub command: Vec<String>,
    pub cwd: Option<String>,
    pub env: Vec<EnvVar>,
    pub name: Option<String>,
}

/// Two setup commands with the same command, cwd and environment.
pub open spec fn same_setup(a: ProfileSetupCommand, b: ProfileSetupCommand) -> bool {
    a.command@ == b.command@ && a.cwd == b.cwd && a.env@ == b.env@
}

/// Two startup apps with the same command, cwd, environment and name.
pub open spec fn same_startup(a: ProfileStartupApp, b: ProfileStartupApp) -> bool {
    a.command@ == b.command@ && a.cwd == b.cwd && a.env@ == b.env@ && a.name == b.name
}

/// Two profiles with the same content, field by field.
pub open spec fn same_profile(a: WorkspaceProfile, b: WorkspaceProfile) -> bool {
    &&& a.id@ == b.id@
    &&& a.description == b.description
    &&& a.width == b.width
    &&& a.height == b.height
    &&& a.cwd == b.cwd
    &&& a.env@ == b.env@
    &&& a.mounts@ == b.mounts@
    &&& crate::policy::same_network(a.network, b.network)
    &&& a.require_enforced_policy == b.require_enforced_policy
    &&& a.setup_commands@.len() == b.setup_commands@.len()
    &&& forall|i: int| 0 <= i < a.setup_commands@.len() ==> same_setup(
        #[trigger] a.setup_commands@[i],
        b.setup_commands@[i],
    )
    &&& a.startup_apps@.len() == b.startup_apps@.len()
    &&& forall|i: int| 0 <= i < a.startup_apps@.len() ==> same_startup(
        #[trigger] a.startup_apps@[i],
        b.startup_apps@[i],
    )
}

impl WorkspaceProfile {
    /// A copy with the same content.
    pub fn duplicate(&self) -> (r: Self)
        ensures
            same_profile(r, *self),
    {
        let mut setup: Vec<ProfileSetupCommand> = Vec::new();
        let mut i: usize = 0;
        while i < self.setup_commands.len()
            invariant
                i <= self.setup_commands@.len(),
                setup@.len() == i,
                forall|j: int| 0 <= j < i ==> same_setup(#[trigger] setup@[j], self.setup_commands@[j]),
            decreases self.setup_commands.len() - i,
        {
            let c = &self.setup_commands[i];
            setup.push(
                ProfileSetupCommand {
                    command: clone_strings(&c.command),
                    cwd: clone_opt_string(&c.cwd),
                    env: clone_envs(&c.env),
                },
            );
            i += 1;
        }
        let mut startup: Vec<ProfileStartupApp> = Vec::new();
        let mut i: usize = 0;
        while i < self.startup_apps.len()
            invariant
                i <= self.startup_apps@.len(),
                startup@.len() == i,
                forall|j: int| 0 <= j < i ==> same_startup(#[trigger] startup@[j], self.startup_apps@[j]),
            decreases self.startup_apps.len() - i,
        {
            let a = &self.startup_apps[i];
            startup.push(
                ProfileStartupApp {
                    command: clone_strings(&a.command),
                    cwd: clone_opt_string(&a.cwd),
                    env: clone_envs(&a.env),
                    name: clone_opt_string(&a.name),
                },
            );
            i += 1;
        }
        WorkspaceProfile {
            id: self.id.clone(),
            description: clone_opt_string(&self.description),
            width: self.width,
            height: self.height,
            cwd: clone_opt_string(&self.cwd),
            env: clone_envs(&self.env),
            mounts: clone_mounts(&self.mounts),
            network: self.network.duplicate(),
            require_enforced_policy: self.require_enforced_policy,
            setup_commands: setup,
            startup_apps: startup,
        }
    }
}

/// The saved profiles, in file order.
#[derive(Clone, Debug)]
pub struct ProfileStore {
    pub profiles: Vec<WorkspaceProfile>,
}

/// The result of deleting a profile.
#[derive(Clone, Debug)]
pub struct ProfileDeleteResult {
    pub id: String,
    /// Profiles were removed from the store.
    pub deleted: bool,
    /// A profile with the id is saved, so a delete removes it.
    pub would_delete: bool,
    pub dry_run: bool,
    /// The first saved profile with the id, when there is one.
    pub profile: Option<WorkspaceProfile>,
}

/// A profile preflight: its policy on this machine and what must be acknowledged.
#[derive(Clone, Debug)]
pub struct ProfileCheck {
    pub profile: WorkspaceProfile,
    pub applied_policy: AppliedWorkspacePolicy,
    pub requires_hidden_workspace_ack: bool,
    pub requires_unenforced_policy_ack: bool,
    pub warnings: Vec<String>,
}

/// How a profile's setup commands run: whether to wait for each (with an
/// optional timeout) and whether unenforced policy is acknowledged.
#[derive(Clone, Debug)]
pub struct ProfileSetupOptions {
    pub wait: bool,
    pub timeout_ms: Option<u64>,
    pub acknowledge_unenforced_policy: bool,
    /// Preview one launch per setup command instead of running them.
    pub dry_run: bool,
}

impl Default for ProfileSetupOptions {
    fn default() -> (r: Self)
        ensures
            !r.wait,
            r.timeout_ms is None,
            !r.acknowledge_unenforced_policy,
            !r.dry_run,
    {
        ProfileSetupOptions {
            wait: false,
            timeout_ms: None,
            acknowledge_unenforced_policy: false,
            dry_run: false,
        }
    }
}

/// How a profile's startup apps are launched.
#[derive(Clone, Debug)]
pub struct ProfileStartupOptions {
    pub acknowledge_unenforced_policy: bool,
    /// Preview one launch per startup app instead of launching them.
    pub dry_run: bool,
}

impl Default for ProfileStartupOptions {
    fn default() -> (r: Self)
        ensures
            !r.acknowledge_unenforced_policy,
            !r.dry_run,
    {
        ProfileStartupOptions { acknowledge_unenforced_policy: false, dry_run: false }
    }
}

/// How a profile-backed workspace opens: whether setup runs first, and how setup
/// and startup apps run.
#[derive(Clone, Debug)]
pub struct ProfileWorkspaceOpenOptions {
    pub run_setup: bool,
    pub setup: ProfileSetupOptions,
    pub startup: ProfileStartupOptions,
}

impl Default for ProfileWorkspaceOpenOptions {
    fn default() -> (r: Self)
        ensures
            !r.run_setup,
            !r.setup.wait,
            r.setup.timeout_ms is None,
            !r.setup.acknowledge_unenforced_policy,
            !r.startup.acknowledge_unenforced_policy,
    {
        ProfileWorkspaceOpenOptions {
            run_setup: false,
            setup: ProfileSetupOptions::default(),
            startup: ProfileStartupOptions::default(),
        }
    }
}

/// Why a profile is rejected or missing.
#[derive(Clone, Debug)]
pub enum ProfileError {
    IdEmpty,
    IdInvalid,
    WidthZero,
    HeightZero,
    EnvNameEmpty,
    EnvNameHasEquals,
    EnvHasNul,
    MountPathEmpty { field: String },
    MountPathParentDir { field: String, path: String },
    MountHostNotAbsolute { path: String },
    MountOutsideRoot { path: String },
    MountOverlap { path: String, existing: String },
    AllowlistWithoutHosts,
    SetupCommandEmpty,
    StartupAppEmpty,
    NotFound { id: String },
    UnknownTemplate { kind: String },
    AlreadyExists { id: String },
    LocalOnlyHostNotLoopback { host: String },
    ExportExists { path: String },
}

/// The content of a `ProfileError`, as text.
pub enum ProfileIssue {
    IdEmpty,
    IdInvalid,
    WidthZero,
    HeightZero,
    EnvNameEmpty,
    EnvNameHasEquals,
    EnvHasNul,
    MountPathEmpty { field: Seq<char> },
    MountPathParentDir { field: Seq<char>, path: Seq<char> },
    MountHostNotAbsolute { path: Seq<char> },
    MountOutsideRoot { path: Seq<char> },
    MountOverlap { path: Seq<char>, existing: Seq<char> },
    AllowlistWithoutHosts,
    SetupCommandEmpty,
    StartupAppEmpty,
    NotFound { id: Seq<char> },
    UnknownTemplate { kind: Seq<char> },
    AlreadyExists { id: Seq<char> },
    LocalOnlyHostNotLoopback { host: Seq<char> },
    ExportExists { path: Seq<char> },
}

impl View for ProfileError {
    type V = ProfileIssue;

    open spec fn view(&self) -> ProfileIssue {
        match self {
            ProfileError::IdEmpty => ProfileIssue::IdEmpty,
            ProfileError::IdInvalid => ProfileIssue::IdInvalid,
            ProfileError::WidthZero => ProfileIssue::WidthZero,
            ProfileError::HeightZero => ProfileIssue::HeightZero,
            ProfileError::EnvNameEmpty => ProfileIssue::EnvNameEmpty,
            ProfileError::EnvNameHasEquals => ProfileIssue::EnvNameHasEquals,
            ProfileError::EnvHasNul => ProfileIssue::EnvHasNul,
            ProfileError::MountPathEmpty { field } => ProfileIssue::MountPathEmpty { field: field@ },
            ProfileError::MountPathParentDir { field, path } => ProfileIssue::MountPathParentDir {
                field: field@,
                path: path@,
            },
            ProfileError::MountHostNotAbsolute { path } => ProfileIssue::MountHostNotAbsolute {
                path: path@,
            },
            ProfileError::MountOutsideRoot { path } => ProfileIssue::MountOutsideRoot {
                path: path@,
            },
            ProfileError::MountOverlap { path, existing } => ProfileIssue::MountOverlap {
                path: path@,
                existing: existing@,
            },
            ProfileError::AllowlistWithoutHosts => ProfileIssue::AllowlistWithoutHosts,
            ProfileError::SetupCommandEmpty => ProfileIssue::SetupCommandEmpty,
            ProfileError::StartupAppEmpty => ProfileIssue::StartupAppEmpty,
            ProfileError::NotFound { id } => ProfileIssue::NotFound { id: id@ },
            ProfileError::UnknownTemplate { kind } => ProfileIssue::UnknownTemplate { kind: kind@ },
            ProfileError::AlreadyExists { id } => ProfileIssue::AlreadyExists { id: id@ },
            ProfileError::LocalOnlyHostNotLoopback { host } => ProfileIssue::LocalOnlyHostNotLoopback {
                host: host@,
            },
            ProfileError::ExportExists { path } => ProfileIssue::ExportExists { path: path@ },
        }
    }
}

impl ProfileIssue {
    /// The message shown for this issue.
    pub open spec fn text(self) -> Seq<char> {
        match self {
            ProfileIssue::IdEmpty => "profile id cannot be empty"@,
            ProfileIssue::IdInvalid => "profile id may only contain ASCII letters, numbers, '-' and '_'"@,
            ProfileIssue::WidthZero => "profile width must be greater than zero"@,
            ProfileIssue::HeightZero => "profile height must be greater than zero"@,
            ProfileIssue::EnvNameEmpty => "environment variable name cannot be empty"@,
            ProfileIssue::EnvNameHasEquals => "environment variable name cannot contain '='"@,
            ProfileIssue::EnvHasNul => "environment variable cannot contain NUL bytes"@,
            ProfileIssue::MountPathEmpty { field } => "profile mount "@ + field + " cannot be empty"@,
            ProfileIssue::MountPathParentDir { field, path } => "profile mount "@ + field + " "@ + path
                + " cannot contain '..'"@,
            ProfileIssue::MountHostNotAbsolute { path } => "profile mount host_path "@ + path
                + " must be absolute"@,
            ProfileIssue::MountOutsideRoot { path } => "profile mount workspace_path "@ + path
                + " must be under /workspace/"@,
            ProfileIssue::MountOverlap { path, existing } => "profile mount workspace_path "@ + path
                + " overlaps "@ + existing,
            ProfileIssue::AllowlistWithoutHosts => "allowlist network profiles require at least one host"@,
            ProfileIssue::SetupCommandEmpty => "profile setup command cannot be empty"@,
            ProfileIssue::StartupAppEmpty => "profile startup app command cannot be empty"@,
            ProfileIssue::NotFound { id } => "profile "@ + debug_text(id) + " was not found"@,
            ProfileIssue::UnknownTemplate { kind } => "unknown profile template "@ + debug_text(kind)
                + ". Expected: project-dev"@,
            ProfileIssue::AlreadyExists { id } => "profile "@ + debug_text(id)
                + " already exists; pass --replace or replace=true to overwrite it"@,
            ProfileIssue::LocalOnlyHostNotLoopback { host } => "local_only network profiles only accept localhost or loopback allow_hosts entries, got "@
                + debug_text(host),
            ProfileIssue::ExportExists { path } => "profile export target "@ + path
                + " already exists; pass --replace or replace=true to overwrite it"@,
        }
    }
}

impl ProfileError {
    /// The message for this error.
    pub fn message(&self) -> (r: String)
        ensures
            r@ == self@.text(),
    {
        match self {
            ProfileError::IdEmpty => owned("profile id cannot be empty"),
            ProfileError::IdInvalid => owned(
                "profile id may only contain ASCII letters, numbers, '-' and '_'",
            ),
            ProfileError::WidthZero => owned("profile width must be greater than zero"),
            ProfileError::HeightZero => owned("profile height must be greater than zero"),
            ProfileError::EnvNameEmpty => owned("environment variable name cannot be empty"),
            ProfileError::EnvNameHasEquals => owned("environment variable name cannot contain '='"),
            ProfileError::EnvHasNul => owned("environment variable cannot contain NUL bytes"),
            ProfileError::MountPathEmpty { field } => concat3(
                "profile mount ",
                field.as_str(),
                " cannot be empty",
            ),
            ProfileError::MountPathParentDir { field, path } => {
                let mut s = concat3("profile mount ", field.as_str(), " ");
                s.append(path.as_str());
                s.append(" cannot contain '..'");
                s
            },
            ProfileError::MountHostNotAbsolute { path } => concat3(
                "profile mount host_path ",
                path.as_str(),
                " must be absolute",
            ),
            ProfileError::MountOutsideRoot { path } => concat3(
                "profile mount workspace_path ",
                path.as_str(),
                " must be under /workspace/",
            ),
            ProfileError::MountOverlap { path, existing } => {
                let mut s = concat3("profile mount workspace_path ", path.as_str(), " overlaps ");
                s.append(existing.as_str());
                s
            },
            ProfileError::AllowlistWithoutHosts => owned(
                "allowlist network profiles require at least one host",
            ),
            ProfileError::SetupCommandEmpty => owned("profile setup command cannot be empty"),
            ProfileError::StartupAppEmpty => owned("profile startup app command cannot be empty"),
            ProfileError::NotFound { id } => {
                let q = debug_quoted(id.as_str());
                concat3("profile ", q.as_str(), " was not found")
            },
            ProfileError::UnknownTemplate { kind } => {
                let q = debug_quoted(kind.as_str());
                concat3("unknown profile template ", q.as_str(), ". Expected: project-dev")
            },
            ProfileError::AlreadyExists { id } => {
                let q = debug_quoted(id.as_str());
                concat3(
                    "profile ",
                    q.as_str(),
                    " already exists; pass --replace or replace=true to overwrite it",
                )
            },
            ProfileError::ExportExists { path } => concat3(
                "profile export target ",
                path.as_str(),
                " already exists; pass --replace or replace=true to overwrite it",
            ),
            ProfileError::LocalOnlyHostNotLoopback { host } => {
                let q = debug_quoted(host.as_str());
                concat2(
                    "local_only network profiles only accept localhost or loopback allow_hosts entries, got ",
                    q.as_str(),
                )
            },
        }
    }
}

/// The outcome of a check, by content.
pub open spec fn outcome(r: Result<(), ProfileError>) -> Option<ProfileIssue> {
    match r {
        Ok(()) => None,
        Err(e) => Some(e@),
    }
}

// ---------------------------------------------------------------------------
// Ids and environment variables

/// A profile id, once trimmed, is non-empty and uses only the id alphabet.
pub open spec fn id_issue(id: Seq<char>) -> Option<ProfileIssue> {
    if trim(id).len() == 0 {
        Some(ProfileIssue::IdEmpty)
    } else if !(forall|i: int| 0 <= i < trim(id).len() ==> is_id_char(#[trigger] trim(id)[i])) {
        Some(ProfileIssue::IdInvalid)
    } else {
        None
    }
}

/// Trims a profile id and checks its alphabet.
pub fn sanitize_profile_id(id: &str) -> (r: Result<String, ProfileError>)
    ensures
        match r {
            Ok(s) => id_issue(id@) is None && s@ == trim(id@),
            Err(e) => id_issue(id@) == Some(e@),
        },
{
    let trimmed = trim_str(id);
    if trimmed.as_str().unicode_len() == 0 {
        return Err(ProfileError::IdEmpty);
    }
    if !all_id_chars(trimmed.as_str()) {
        return Err(ProfileError::IdInvalid);
    }
    Ok(trimmed)
}

/// What is wrong with an environment variable.
pub open spec fn env_issue(v: EnvVar) -> Option<ProfileIssue> {
    if v.name@.len() == 0 {
        Some(ProfileIssue::EnvNameEmpty)
    } else if v.name@.contains('=') {
        Some(ProfileIssue::EnvNameHasEquals)
    } else if v.name@.contains('\0') || v.value@.contains('\0') {
        Some(ProfileIssue::EnvHasNul)
    } else {
        None
    }
}

/// Checks an environment variable: a non-empty name without `=`, and no NUL.
pub fn validate_env_var(v: &EnvVar) -> (r: Result<(), ProfileError>)
    ensures
        outcome(r) == env_issue(*v),
{
    if v.name.as_str().unicode_len() == 0 {
        return Err(ProfileError::EnvNameEmpty);
    }
    if crate::text::contains_char(v.name.as_str(), '=') {
        return Err(ProfileError::EnvNameHasEquals);
    }
    if crate::text::contains_char(v.name.as_str(), '\0') || crate::text::contains_char(
        v.value.as_str(),
        '\0',
    ) {
        return Err(ProfileError::EnvHasNul);
    }
    Ok(())
}

/// The first problem among environment variables.
pub open spec fn envs_issue(vs: Seq<EnvVar>) -> Option<ProfileIssue> {
    first_issue(vs, |v: EnvVar| env_issue(v))
}

fn validate_env_vars(vs: &Vec<EnvVar>) -> (r: Result<(), ProfileError>)
    ensures
        outcome(r) == envs_issue(vs@),
{
    let ghost f = |v: EnvVar| env_issue(v);
    let mut i: usize = 0;
    proof {
        lemma_first_issue_ends(vs@, f);
    }
    while i < vs.len()
        invariant
            i <= vs@.len(),
            f == (|v: EnvVar| env_issue(v)),
            first_issue(vs@.subrange(0, i as int), f) is None,
        decreases vs.len() - i,
    {
        proof {
            lemma_first_issue_step(vs@, f, i as int);
        }
        let c = validate_env_var(&vs[i]);
        if c.is_err() {
            proof {
                lemma_first_issue_prefix(vs@, f, i + 1);
            }
            return c;
        }
        i += 1;
    }
    proof {
        lemma_first_issue_ends(vs@, f);
    }
    Ok(())
}

// ---------------------------------------------------------------------------
// Mounts

/// What is wrong with a mount path: empty, or holding `..`.
pub open spec fn mount_path_issue(path: Seq<char>, field: Seq<char>) -> Option<ProfileIssue> {
    if path.len() == 0 {
        Some(ProfileIssue::MountPathEmpty { field })
    } else if has_parent_dir(path) {
        Some(ProfileIssue::MountPathParentDir { field, path })
    } else {
        None
    }
}

fn validate_mount_path(path: &str, field: &str) -> (r: Result<(), ProfileError>)
    ensures
        outcome(r) == mount_path_issue(path@, field@),
{
    if path.unicode_len() == 0 {
        return Err(ProfileError::MountPathEmpty { field: owned(field) });
    }
    if path_has_parent_dir(path) {
        return Err(ProfileError::MountPathParentDir { field: owned(field), path: owned(path) });
    }
    Ok(())
}

/// Two workspace paths overlap: one lies inside (or is) the other.
pub open spec fn paths_overlap(a: Seq<char>, b: Seq<char>) -> bool {
    path_starts_with(a, b) || path_starts_with(b, a)
}

/// Component names compare by character code (the order of strings).
pub open spec fn text_lt(a: Seq<char>, b: Seq<char>) -> bool
    decreases a.len(),
{
    if b.len() == 0 {
        false
    } else if a.len() == 0 {
        true
    } else if a[0] < b[0] {
        true
    } else if a[0] > b[0] {
        false
    } else {
        text_lt(a.drop_first(), b.drop_first())
    }
}

/// The order of paths: their components compared one by one.
pub open spec fn components_lt(a: Seq<Seq<char>>, b: Seq<Seq<char>>) -> bool
    decreases a.len(),
{
    if b.len() == 0 {
        false
    } else if a.len() == 0 {
        true
    } else if a[0] == b[0] {
        components_lt(a.drop_first(), b.drop_first())
    } else {
        component_lt(a[0], b[0])
    }
}

/// Root sorts before `.`, `.` before `..`, and those before names, which sort as text.
pub open spec fn component_rank(c: Seq<char>) -> int {
    if c == seq!['/'] {
        0
    } else if c == seq!['.'] {
        1
    } else if c == seq!['.', '.'] {
        2
    } else {
        3
    }
}

pub open spec fn component_lt(a: Seq<char>, b: Seq<char>) -> bool {
    if component_rank(a) != component_rank(b) {
        component_rank(a) < component_rank(b)
    } else {
        component_rank(a) == 3 && text_lt(a, b)
    }
}

/// `a` sorts before `b` as paths.
pub open spec fn path_lt(a: Seq<char>, b: Seq<char>) -> bool {
    components_lt(crate::paths::components(a), crate::paths::components(b))
}

/// Among the earlier workspace paths, the smallest one (in path order) that `p`
/// overlaps, if any.
pub open spec fn least_overlap(earlier: Seq<Seq<char>>, p: Seq<char>) -> Option<Seq<char>>
    decreases earlier.len(),
{
    if earlier.len() == 0 {
        None
    } else {
        let rest = least_overlap(earlier.drop_last(), p);
        let e = earlier.last();
        if paths_overlap(p, e) {
            match rest {
                Some(q) => if path_lt(e, q) { Some(e) } else { Some(q) },
                None => Some(e),
            }
        } else {
            rest
        }
    }
}

/// What is wrong with one mount, given the workspace paths of the mounts before it.
pub open spec fn mount_issue(m: ProfileMount, earlier: Seq<Seq<char>>) -> Option<ProfileIssue> {
    match mount_path_issue(m.host_path@, "host_path"@) {
        Some(e) => Some(e),
        None => match mount_path_issue(m.workspace_path@, "workspace_path"@) {
            Some(e) => Some(e),
            None => if !is_absolute(m.host_path@) {
                Some(ProfileIssue::MountHostNotAbsolute { path: m.host_path@ })
            } else if !path_starts_with(m.workspace_path@, workspace_mount_root()) || path_eq(
                m.workspace_path@,
                workspace_mount_root(),
            ) {
                Some(ProfileIssue::MountOutsideRoot { path: m.workspace_path@ })
            } else {
                match least_overlap(earlier, m.workspace_path@) {
                    Some(q) => Some(ProfileIssue::MountOverlap { path: m.workspace_path@, existing: q }),
                    None => None,
                }
            },
        },
    }
}

/// The workspace paths of the first `n` mounts.
pub open spec fn workspace_paths(mounts: Seq<ProfileMount>, n: int) -> Seq<Seq<char>> {
    Seq::new(n as nat, |i: int| mounts[i].workspace_path@)
}

/// The first mount problem, each mount judged against those before it.
pub open spec fn mounts_issue_upto(mounts: Seq<ProfileMount>, n: int) -> Option<ProfileIssue>
    decreases n,
{
    if n <= 0 {
        None
    } else {
        match mounts_issue_upto(mounts, n - 1) {
            Some(e) => Some(e),
            None => mount_issue(mounts[n - 1], workspace_paths(mounts, n - 1)),
        }
    }
}

/// The first problem among a profile's mounts.
pub open spec fn mounts_issue(mounts: Seq<ProfileMount>) -> Option<ProfileIssue> {
    mounts_issue_upto(mounts, mounts.len() as int)
}

fn text_lt_exec(a: &str, b: &str) -> (r: bool)
    ensures
        r == text_lt(a@, b@),
{
    let n = a.unicode_len();
    let m = b.unicode_len();
    let mut i: usize = 0;
    assert(a@.subrange(0, n as int) =~= a@);
    assert(b@.subrange(0, m as int) =~= b@);
    while i < n && i < m && a.get_char(i) == b.get_char(i)
        invariant
            n == a@.len(),
            m == b@.len(),
            i <= n,
            i <= m,
            forall|k: int| 0 <= k < i ==> a@[k] == b@[k],
            text_lt(a@, b@) == text_lt(a@.subrange(i as int, n as int), b@.subrange(i as int, m as int)),
        decreases n - i,
    {
        proof {
            let sa = a@.subrange(i as int, n as int);
            let sb = b@.subrange(i as int, m as int);
            assert(sa.drop_first() =~= a@.subrange(i + 1, n as int));
            assert(sb.drop_first() =~= b@.subrange(i + 1, m as int));
        }
        i += 1;
    }
    if i >= m {
        return false;
    }
    if i >= n {
        return true;
    }
    a.get_char(i) < b.get_char(i)
}

/// Whether `a` sorts before `b` as strings.
pub fn string_lt(a: &str, b: &str) -> (r: bool)
    ensures
        r == text_lt(a@, b@),
{
    text_lt_exec(a, b)
}

fn component_rank_exec(c: &String) -> (r: u8)
    ensures
        r as int == component_rank(c@),
{
    let n = c.as_str().unicode_len();
    if n == 1 && c.as_str().get_char(0) == '/' {
        assert(c@ =~= seq!['/']);
        return 0;
    }
    if n == 1 && c.as_str().get_char(0) == '.' {
        assert(c@ =~= seq!['.']);
        return 1;
    }
    if n == 2 && c.as_str().get_char(0) == '.' && c.as_str().get_char(1) == '.' {
        assert(c@ =~= seq!['.', '.']);
        return 2;
    }
    if n == 1 {
        assert(c@[0] != '/' && c@[0] != '.');
    }
    if n == 2 {
        assert(c@[0] != '.' || c@[1] != '.');
    }
    3
}

/// Whether `a` sorts before `b` as paths.
pub fn path_lt_exec(a: &str, b: &str) -> (r: bool)
    ensures
        r == path_lt(a@, b@),
{
    let ca = crate::paths::path_components(a);
    let cb = crate::paths::path_components(b);
    let ghost va = ca@.map_values(|x: String| x@);
    let ghost vb = cb@.map_values(|x: String| x@);
    let mut i: usize = 0;
    assert(va.subrange(0, va.len() as int) =~= va);
    assert(vb.subrange(0, vb.len() as int) =~= vb);
    while i < ca.len() && i < cb.len() && ca[i] == cb[i]
        invariant
            va == ca@.map_values(|x: String| x@),
            vb == cb@.map_values(|x: String| x@),
            va == crate::paths::components(a@),
            vb == crate::paths::components(b@),
            i <= ca@.len(),
            i <= cb@.len(),
            components_lt(va, vb) == components_lt(
                va.subrange(i as int, va.len() as int),
                vb.subrange(i as int, vb.len() as int),
            ),
        decreases ca.len() - i,
    {
        proof {
            let sa = va.subrange(i as int, va.len() as int);
            let sb = vb.subrange(i as int, vb.len() as int);
            assert(sa[0] == ca@[i as int]@);
            assert(sb[0] == cb@[i as int]@);
            assert(sa.drop_first() =~= va.subrange(i + 1, va.len() as int));
            assert(sb.drop_first() =~= vb.subrange(i + 1, vb.len() as int));
        }
        i += 1;
    }
    if i >= cb.len() {
        return false;
    }
    if i >= ca.len() {
        return true;
    }
    proof {
        let sa = va.subrange(i as int, va.len() as int);
        let sb = vb.subrange(i as int, vb.len() as int);
        assert(sa[0] == ca@[i as int]@);
        assert(sb[0] == cb@[i as int]@);
    }
    let ra = component_rank_exec(&ca[i]);
    let rb = component_rank_exec(&cb[i]);
    if ra != rb {
        ra < rb
    } else {
        ra == 3 && text_lt_exec(ca[i].as_str(), cb[i].as_str())
    }
}

/// Whether two workspace paths overlap.
pub fn paths_overlap_exec(a: &str, b: &str) -> (r: bool)
    ensures
        r == paths_overlap(a@, b@),
{
    path_starts_with_str(a, b) || path_starts_with_str(b, a)
}

fn least_overlap_exec(earlier: &Vec<String>, p: &str) -> (r: Option<String>)
    ensures
        crate::policy::opt_view(r) == least_overlap(crate::text::strs(earlier@), p@),
{
    let ghost es = crate::text::strs(earlier@);
    let mut best: Option<String> = None;
    let mut i: usize = 0;
    assert(es.subrange(0, 0) =~= Seq::<Seq<char>>::empty());
    while i < earlier.len()
        invariant
            es == crate::text::strs(earlier@),
            i <= earlier@.len(),
            crate::policy::opt_view(best) == least_overlap(es.subrange(0, i as int), p@),
        decreases earlier.len() - i,
    {
        proof {
            assert(es.subrange(0, i + 1).drop_last() =~= es.subrange(0, i as int));
            assert(es.subrange(0, i + 1).last() == earlier@[i as int]@);
        }
        if paths_overlap_exec(p, earlier[i].as_str()) {
            let replace = match &best {
                Some(q) => path_lt_exec(earlier[i].as_str(), q.as_str()),
                None => true,
            };
            if replace {
                best = Some(earlier[i].clone());
            }
        }
        i += 1;
    }
    assert(es.subrange(0, earlier@.len() as int) =~= es);
    best
}

/// Checks a profile's mounts: well-formed paths, an absolute host path, a workspace
/// path strictly under `/workspace`, and no two workspace paths overlapping.
pub fn validate_mounts(mounts: &Vec<ProfileMount>) -> (r: Result<(), ProfileError>)
    ensures
        outcome(r) == mounts_issue(mounts@),
{
    let mut earlier: Vec<String> = Vec::new();
    let mut i: usize = 0;
    proof {
        reveal_strlit("/workspace");
    }
    while i < mounts.len()
        invariant
            i <= mounts@.len(),
            crate::text::strs(earlier@) == workspace_paths(mounts@, i as int),
            mounts_issue_upto(mounts@, i as int) is None,
        decreases mounts.len() - i,
    {
        let m = &mounts[i];
        let c = validate_mount_one(m, &earlier);
        if c.is_err() {
            proof {
                lemma_mounts_issue_upto_stays(mounts@, i + 1, mounts@.len() as int);
            }
            return c;
        }
        let ghost before = earlier@;
        let w = m.workspace_path.clone();
        earlier.push(w);
        proof {
            assert(earlier@ == before.push(w));
            assert(crate::text::strs(earlier@) =~= crate::text::strs(before).push(w@));
            assert(workspace_paths(mounts@, i + 1) =~= workspace_paths(mounts@, i as int).push(
                mounts@[i as int].workspace_path@,
            ));
        }
        i += 1;
    }
    Ok(())
}

proof fn lemma_mounts_issue_upto_stays(mounts: Seq<ProfileMount>, k: int, n: int)
    requires
        0 <= k <= n,
        mounts_issue_upto(mounts, k) is Some,
    ensures
        mounts_issue_upto(mounts, n) == mounts_issue_upto(mounts, k),
    decreases n - k,
{
    if k < n {
        lemma_mounts_issue_upto_stays(mounts, k, n - 1);
    }
}

fn validate_mount_one(m: &ProfileMount, earlier: &Vec<String>) -> (r: Result<(), ProfileError>)
    ensures
        outcome(r) == mount_issue(*m, crate::text::strs(earlier@)),
{
    validate_mount_path(m.host_path.as_str(), "host_path")?;
    validate_mount_path(m.workspace_path.as_str(), "workspace_path")?;
    if !is_absolute_path(m.host_path.as_str()) {
        return Err(ProfileError::MountHostNotAbsolute { path: m.host_path.clone() });
    }
    if !path_starts_with_str(m.workspace_path.as_str(), "/workspace") || path_eq_str(
        m.workspace_path.as_str(),
        "/workspace",
    ) {
        return Err(ProfileError::MountOutsideRoot { path: m.workspace_path.clone() });
    }
    match least_overlap_exec(earlier, m.workspace_path.as_str()) {
        Some(q) => Err(ProfileError::MountOverlap { path: m.workspace_path.clone(), existing: q }),
        None => Ok(()),
    }
}


// ---------------------------------------------------------------------------
// Whole profiles

/// `first` when it found something, else `fallback`.
pub open spec fn then_issue(first: Option<ProfileIssue>, fallback: Option<ProfileIssue>) -> Option<
    ProfileIssue,
> {
    match first {
        Some(e) => Some(e),
        None => fallback,
    }
}

/// What is wrong with a setup command: no program, or a bad environment variable.
pub open spec fn setup_issue(c: ProfileSetupCommand) -> Option<ProfileIssue> {
    if c.command@.len() == 0 {
        Some(ProfileIssue::SetupCommandEmpty)
    } else {
        envs_issue(c.env@)
    }
}

/// What is wrong with a startup app: no program, or a bad environment variable.
pub open spec fn startup_issue(a: ProfileStartupApp) -> Option<ProfileIssue> {
    if a.command@.len() == 0 {
        Some(ProfileIssue::StartupAppEmpty)
    } else {
        envs_issue(a.env@)
    }
}

/// The first problem of a profile, in the order the checks run: id, size, env,
/// mounts, allowlist hosts, setup commands, startup apps.
pub open spec fn profile_issue(p: WorkspaceProfile) -> Option<ProfileIssue> {
    then_issue(
        id_issue(p.id@),
        then_issue(
            if p.width == Some(0u32) { Some(ProfileIssue::WidthZero) } else { None },
            then_issue(
                if p.height == Some(0u32) { Some(ProfileIssue::HeightZero) } else { None },
                then_issue(
                    envs_issue(p.env@),
                    then_issue(
                        mounts_issue(p.mounts@),
                        then_issue(
                            local_hosts_issue(p.network),
                            then_issue(
                            if p.network.mode == NetworkMode::Allowlist
                                && p.network.allow_hosts@.len() == 0 {
                                Some(ProfileIssue::AllowlistWithoutHosts)
                            } else {
                                None
                            },
                            then_issue(
                                first_issue(p.setup_commands@, |c: ProfileSetupCommand| setup_issue(c)),
                                first_issue(p.startup_apps@, |a: ProfileStartupApp| startup_issue(a)),
                            ),
                            ),
                        ),
                    ),
                ),
            ),
        ),
    )
}

/// The hosts a loopback label may name.
pub open spec fn loopback_host(h: Seq<char>) -> bool {
    h == "localhost"@ || h == "127.0.0.1"@ || h == "[::1]"@ || h == "::1"@
}

/// A localhost or loopback label: once trimmed, a loopback host (in any case), on
/// its own or followed by `:` and a port of digits, such as `localhost:3000` or
/// `127.0.0.1:5173`.
pub open spec fn is_loopback_label(label: Seq<char>) -> bool {
    let t = trim(label);
    loopback_host(lower_seq(t)) || match rsplit_once(t, ':') {
        Some((h, port)) => loopback_host(lower_seq(h)) && port.len() > 0 && all_digits(port),
        None => false,
    }
}

/// A local-only network accepts only loopback labels as hosts: the first host that
/// is not one is refused. Other modes are not checked here.
pub open spec fn local_hosts_issue(n: NetworkPolicy) -> Option<ProfileIssue> {
    if n.mode == NetworkMode::LocalOnly {
        first_issue(
            n.allow_hosts@,
            |h: String|
                if is_loopback_label(h@) {
                    None
                } else {
                    Some(ProfileIssue::LocalOnlyHostNotLoopback { host: h@ })
                },
        )
    } else {
        None
    }
}

fn loopback_host_exec(h: &Vec<char>) -> (r: bool)
    ensures
        r == loopback_host(h@),
{
    proof {
        reveal_strlit("localhost");
        reveal_strlit("127.0.0.1");
        reveal_strlit("[::1]");
        reveal_strlit("::1");
    }
    chars_eq(h, &chars_of("localhost")) || chars_eq(h, &chars_of("127.0.0.1")) || chars_eq(
        h,
        &chars_of("[::1]"),
    ) || chars_eq(h, &chars_of("::1"))
}

/// Whether `label` is a localhost or loopback label.
pub fn is_loopback_label_exec(label: &str) -> (r: bool)
    ensures
        r == is_loopback_label(label@),
{
    let t = trim_str(label);
    if loopback_host_exec(&lower_chars(t.as_str())) {
        return true;
    }
    match rsplit_once_text(t.as_str(), ':') {
        Some((h, port)) => loopback_host_exec(&lower_chars(h.as_str())) && port.unicode_len() > 0
            && all_digit_chars(port.as_str()),
        None => false,
    }
}

fn validate_local_hosts(n: &NetworkPolicy) -> (r: Result<(), ProfileError>)
    ensures
        outcome(r) == local_hosts_issue(*n),
{
    if n.mode != NetworkMode::LocalOnly {
        return Ok(());
    }
    let ghost f = |h: String|
        if is_loopback_label(h@) {
            None
        } else {
            Some(ProfileIssue::LocalOnlyHostNotLoopback { host: h@ })
        };
    proof {
        lemma_first_issue_ends(n.allow_hosts@, f);
    }
    let mut i: usize = 0;
    while i < n.allow_hosts.len()
        invariant
            i <= n.allow_hosts@.len(),
            n.mode == NetworkMode::LocalOnly,
            f == (|h: String|
                if is_loopback_label(h@) {
                    None
                } else {
                    Some(ProfileIssue::LocalOnlyHostNotLoopback { host: h@ })
                }),
            first_issue(n.allow_hosts@.subrange(0, i as int), f) is None,
        decreases n.allow_hosts.len() - i,
    {
        proof {
            lemma_first_issue_step(n.allow_hosts@, f, i as int);
        }
        if !is_loopback_label_exec(n.allow_hosts[i].as_str()) {
            proof {
                lemma_first_issue_prefix(n.allow_hosts@, f, i + 1);
            }
            return Err(ProfileError::LocalOnlyHostNotLoopback { host: n.allow_hosts[i].clone() });
        }
        i += 1;
    }
    proof {
        lemma_first_issue_ends(n.allow_hosts@, f);
    }
    Ok(())
}

/// A profile that passes validation.
pub open spec fn valid_profile(p: WorkspaceProfile) -> bool {
    profile_issue(p) is None
}

/// Checks a profile before it is saved or used.
pub fn validate_profile(profile: &WorkspaceProfile) -> (r: Result<(), ProfileError>)
    ensures
        outcome(r) == profile_issue(*profile),
{
    match sanitize_profile_id(profile.id.as_str()) {
        Ok(_) => {},
        Err(e) => {
            return Err(e);
        },
    }
    if profile.width == Some(0u32) {
        return Err(ProfileError::WidthZero);
    }
    if profile.height == Some(0u32) {
        return Err(ProfileError::HeightZero);
    }
    validate_env_vars(&profile.env)?;
    validate_mounts(&profile.mounts)?;
    validate_local_hosts(&profile.network)?;
    if profile.network.mode == NetworkMode::Allowlist && profile.network.allow_hosts.len() == 0 {
        return Err(ProfileError::AllowlistWithoutHosts);
    }
    let ghost f = |c: ProfileSetupCommand| setup_issue(c);
    let mut i: usize = 0;
    proof {
        lemma_first_issue_ends(profile.setup_commands@, f);
    }
    while i < profile.setup_commands.len()
        invariant
            i <= profile.setup_commands@.len(),
            id_issue(profile.id@) is None,
            profile.width != Some(0u32),
            profile.height != Some(0u32),
            envs_issue(profile.env@) is None,
            mounts_issue(profile.mounts@) is None,
            local_hosts_issue(profile.network) is None,
            !(profile.network.mode == NetworkMode::Allowlist && profile.network.allow_hosts@.len() == 0),
            f == (|c: ProfileSetupCommand| setup_issue(c)),
            first_issue(profile.setup_commands@.subrange(0, i as int), f) is None,
        decreases profile.setup_commands.len() - i,
    {
        proof {
            lemma_first_issue_step(profile.setup_commands@, f, i as int);
        }
        let c = &profile.setup_commands[i];
        if c.command.len() == 0 {
            proof {
                lemma_first_issue_prefix(profile.setup_commands@, f, i + 1);
            }
            return Err(ProfileError::SetupCommandEmpty);
        }
        let e = validate_env_vars(&c.env);
        if e.is_err() {
            proof {
                lemma_first_issue_prefix(profile.setup_commands@, f, i + 1);
            }
            return e;
        }
        i += 1;
    }
    proof {
        lemma_first_issue_ends(profile.setup_commands@, f);
    }
    let ghost g = |a: ProfileStartupApp| startup_issue(a);
    let mut j: usize = 0;
    proof {
        lemma_first_issue_ends(profile.startup_apps@, g);
    }
    while j < profile.startup_apps.len()
        invariant
            j <= profile.startup_apps@.len(),
            id_issue(profile.id@) is None,
            profile.width != Some(0u32),
            profile.height != Some(0u32),
            envs_issue(profile.env@) is None,
            mounts_issue(profile.mounts@) is None,
            local_hosts_issue(profile.network) is None,
            !(profile.network.mode == NetworkMode::Allowlist && profile.network.allow_hosts@.len() == 0),
            first_issue(profile.setup_commands@, |c: ProfileSetupCommand| setup_issue(c)) is None,
            g == (|a: ProfileStartupApp| startup_issue(a)),
            first_issue(profile.startup_apps@.subrange(0, j as int), g) is None,
        decreases profile.startup_apps.len() - j,
    {
        proof {
            lemma_first_issue_step(profile.startup_apps@, g, j as int);
        }
        let a = &profile.startup_apps[j];
        if a.command.len() == 0 {
            proof {
                lemma_first_issue_prefix(profile.startup_apps@, g, j + 1);
            }
            return Err(ProfileError::StartupAppEmpty);
        }
        let e = validate_env_vars(&a.env);
        if e.is_err() {
            proof {
                lemma_first_issue_prefix(profile.startup_apps@, g, j + 1);
            }
            return e;
        }
        j += 1;
    }
    proof {
        lemma_first_issue_ends(profile.startup_apps@, g);
    }
    Ok(())
}

// ---------------------------------------------------------------------------
// The profile store

/// The index of the first profile with this id.
pub open spec fn find_index(s: Seq<WorkspaceProfile>, id: Seq<char>) -> Option<int>
    decreases s.len(),
{
    if s.len() == 0 {
        None
    } else {
        match find_index(s.drop_last(), id) {
            Some(k) => Some(k),
            None => if s.last().id@ == id { Some(s.len() - 1) } else { None },
        }
    }
}

pub proof fn lemma_find_index_step(s: Seq<WorkspaceProfile>, id: Seq<char>, i: int)
    requires
        0 <= i < s.len(),
    ensures
        find_index(s.subrange(0, i + 1), id) == (match find_index(s.subrange(0, i), id) {
            Some(k) => Some(k),
            None => if s[i].id@ == id { Some(i) } else { None },
        }),
{
    assert(s.subrange(0, i + 1).drop_last() =~= s.subrange(0, i));
}

/// What `find_index` finds is a profile with the id, and nothing with the id comes
/// before it; when it finds nothing, no profile has the id.
pub proof fn lemma_find_index(s: Seq<WorkspaceProfile>, id: Seq<char>)
    ensures
        match find_index(s, id) {
            Some(k) => 0 <= k < s.len() && s[k].id@ == id && forall|j: int|
                0 <= j < k ==> (#[trigger] s[j]).id@ != id,
            None => forall|j: int| 0 <= j < s.len() ==> (#[trigger] s[j]).id@ != id,
        },
    decreases s.len(),
{
    if s.len() > 0 {
        lemma_find_index(s.drop_last(), id);
        assert forall|j: int| 0 <= j < s.len() - 1 implies s.drop_last()[j] == s[j] by {}
    }
}

fn find_index_exec(profiles: &Vec<WorkspaceProfile>, id: &str) -> (r: Option<usize>)
    ensures
        match r {
            Some(k) => find_index(profiles@, id@) == Some(k as int),
            None => find_index(profiles@, id@) is None,
        },
{
    let mut i: usize = 0;
    assert(profiles@.subrange(0, 0) =~= Seq::<WorkspaceProfile>::empty());
    while i < profiles.len()
        invariant
            i <= profiles@.len(),
            find_index(profiles@.subrange(0, i as int), id@) is None,
        decreases profiles.len() - i,
    {
        proof {
            lemma_find_index_step(profiles@, id@, i as int);
        }
        if crate::permissions::str_eq(profiles[i].id.as_str(), id) {
            proof {
                lemma_find_index_prefix(profiles@, id@, i + 1);
            }
            return Some(i);
        }
        i += 1;
    }
    assert(profiles@.subrange(0, profiles@.len() as int) =~= profiles@);
    None
}

proof fn lemma_find_index_prefix(s: Seq<WorkspaceProfile>, id: Seq<char>, k: int)
    requires
        0 <= k <= s.len(),
        find_index(s.subrange(0, k), id) is Some,
    ensures
        find_index(s, id) == find_index(s.subrange(0, k), id),
    decreases s.len() - k,
{
    if k == s.len() {
        assert(s.subrange(0, k) =~= s);
    } else {
        lemma_find_index_step(s, id, k);
        lemma_find_index_prefix(s, id, k + 1);
    }
}

/// What reading a profile by id gives: the id is trimmed and checked, then the
/// first profile with that id.
pub open spec fn get_outcome(store: Seq<WorkspaceProfile>, id: Seq<char>) -> Result<
    WorkspaceProfile,
    ProfileIssue,
> {
    match id_issue(id) {
        Some(e) => Err(e),
        None => match find_index(store, trim(id)) {
            Some(k) => Ok(store[k]),
            None => Err(ProfileIssue::NotFound { id: trim(id) }),
        },
    }
}

pub open spec fn result_view(r: Result<WorkspaceProfile, ProfileError>) -> Result<
    WorkspaceProfile,
    ProfileIssue,
> {
    match r {
        Ok(p) => Ok(p),
        Err(e) => Err(e@),
    }
}

/// Reads a profile by id from the store, which it consumes.
pub fn get_profile(store: ProfileStore, id: &str) -> (r: Result<WorkspaceProfile, ProfileError>)
    ensures
        result_view(r) == get_outcome(store.profiles@, id@),
{
    let id = sanitize_profile_id(id)?;
    let mut profiles = store.profiles;
    proof {
        lemma_find_index(profiles@, id@);
    }
    match find_index_exec(&profiles, id.as_str()) {
        Some(k) => Ok(profiles.remove(k)),
        None => Err(ProfileError::NotFound { id }),
    }
}

/// No two profiles share an id.
pub open spec fn unique_ids(s: Seq<WorkspaceProfile>) -> bool {
    forall|i: int, j: int| 0 <= i < s.len() && 0 <= j < s.len() && i != j ==> (#[trigger] s[i]).id@
        != (#[trigger] s[j]).id@
}

/// Profiles in order of id.
pub open spec fn sorted_by_id(s: Seq<WorkspaceProfile>) -> bool {
    forall|i: int, j: int| 0 <= i < j < s.len() ==> !text_lt((#[trigger] s[j]).id@, (#[trigger] s[i]).id@)
}

/// The store after a put, before sorting: the first profile with the id replaced,
/// or the profile appended.
pub open spec fn put_unsorted(s: Seq<WorkspaceProfile>, p: WorkspaceProfile) -> Seq<WorkspaceProfile> {
    match find_index(s, p.id@) {
        Some(k) => s.update(k, p),
        None => s.push(p),
    }
}

pub proof fn lemma_text_lt_irreflexive(a: Seq<char>)
    ensures
        !text_lt(a, a),
    decreases a.len(),
{
    if a.len() > 0 {
        lemma_text_lt_irreflexive(a.drop_first());
    }
}

pub proof fn lemma_text_lt_transitive(a: Seq<char>, b: Seq<char>, c: Seq<char>)
    requires
        text_lt(a, b),
        text_lt(b, c),
    ensures
        text_lt(a, c),
    decreases a.len(),
{
    if a.len() > 0 && b.len() > 0 && c.len() > 0 && a[0] == b[0] && b[0] == c[0] {
        lemma_text_lt_transitive(a.drop_first(), b.drop_first(), c.drop_first());
    }
}

pub proof fn lemma_text_lt_total(a: Seq<char>, b: Seq<char>)
    requires
        a != b,
    ensures
        text_lt(a, b) || text_lt(b, a),
    decreases a.len(),
{
    if a.len() > 0 && b.len() > 0 && a[0] == b[0] {
        if a.drop_first() == b.drop_first() {
            assert(a =~= seq![a[0]] + a.drop_first());
            assert(b =~= seq![b[0]] + b.drop_first());
        }
        lemma_text_lt_total(a.drop_first(), b.drop_first());
    } else if a.len() > 0 && b.len() > 0 {
        assert(a[0] != b[0]);
    } else if a.len() == 0 && b.len() == 0 {
        assert(a =~= b);
    }
}

/// The profiles with id `id`, in order.
pub open spec fn with_id(s: Seq<WorkspaceProfile>, id: Seq<char>) -> Seq<WorkspaceProfile>
    decreases s.len(),
{
    if s.len() == 0 {
        Seq::empty()
    } else if s.last().id@ == id {
        with_id(s.drop_last(), id).push(s.last())
    } else {
        with_id(s.drop_last(), id)
    }
}

/// `b` keeps the profiles of `a` that share an id in the order `a` has them.
pub open spec fn stable_by_id(a: Seq<WorkspaceProfile>, b: Seq<WorkspaceProfile>) -> bool {
    forall|id: Seq<char>| #[trigger] with_id(b, id) == with_id(a, id)
}

proof fn lemma_with_id_concat(a: Seq<WorkspaceProfile>, b: Seq<WorkspaceProfile>, id: Seq<char>)
    ensures
        with_id(a + b, id) == with_id(a, id) + with_id(b, id),
    decreases b.len(),
{
    if b.len() == 0 {
        assert(a + b =~= a);
        assert(with_id(a, id) + with_id(b, id) =~= with_id(a, id));
    } else {
        assert((a + b).drop_last() =~= a + b.drop_last());
        assert((a + b).last() == b.last());
        lemma_with_id_concat(a, b.drop_last(), id);
        if b.last().id@ == id {
            assert(with_id(a, id) + with_id(b.drop_last(), id).push(b.last()) =~= (with_id(a, id)
                + with_id(b.drop_last(), id)).push(b.last()));
        }
    }
}

proof fn lemma_with_id_single(x: WorkspaceProfile, id: Seq<char>)
    ensures
        with_id(seq![x], id) == if x.id@ == id {
            seq![x]
        } else {
            Seq::<WorkspaceProfile>::empty()
        },
{
    let e = Seq::<WorkspaceProfile>::empty();
    assert(seq![x].drop_last() =~= e);
    assert(seq![x].last() == x);
    assert(with_id(e, id) == e);
    assert(e.push(x) =~= seq![x]);
    assert(with_id(seq![x], id) == if x.id@ == id {
        with_id(e, id).push(x)
    } else {
        with_id(e, id)
    });
}

proof fn lemma_with_id_none(s: Seq<WorkspaceProfile>, id: Seq<char>)
    requires
        forall|k: int| 0 <= k < s.len() ==> (#[trigger] s[k]).id@ != id,
    ensures
        with_id(s, id) == Seq::<WorkspaceProfile>::empty(),
    decreases s.len(),
{
    if s.len() > 0 {
        assert(s.last() == s[s.len() - 1]);
        assert forall|k: int| 0 <= k < s.drop_last().len() implies (#[trigger] s.drop_last()[k]).id@
            != id by {
            assert(s.drop_last()[k] == s[k]);
        }
        lemma_with_id_none(s.drop_last(), id);
    }
}

/// Sorts profiles by id, keeping profiles with equal ids in their order.
pub fn sort_profiles(profiles: Vec<WorkspaceProfile>) -> (r: Vec<WorkspaceProfile>)
    ensures
        sorted_by_id(r@),
        r@.to_multiset() == profiles@.to_multiset(),
        stable_by_id(profiles@, r@),
{
    broadcast use vstd::multiset::group_multiset_axioms;
    let mut rest = profiles;
    let mut out: Vec<WorkspaceProfile> = Vec::new();
    let ghost orig = rest@;
    proof {
        vstd::multiset::lemma_multiset_empty_len(out@.to_multiset());
        out@.to_multiset_ensures();
        assert(out@.to_multiset() =~= vstd::multiset::Multiset::empty());
        assert(out@.to_multiset().add(rest@.to_multiset()) =~= orig.to_multiset());
    }
    while rest.len() > 0
        invariant
            sorted_by_id(out@),
            out@.to_multiset().add(rest@.to_multiset()) == orig.to_multiset(),
            forall|id: Seq<char>| with_id(out@, id) + with_id(rest@, id) == #[trigger] with_id(orig, id),
        decreases rest.len(),
    {
        let ghost before_rest = rest@;
        let x = rest.remove(0);
        proof {
            vstd::seq_lib::to_multiset_remove(before_rest, 0);
            assert(rest@.to_multiset() == before_rest.to_multiset().remove(x));
            before_rest.to_multiset_ensures();
            assert(before_rest.to_multiset().count(x) > 0) by {
                assert(before_rest.contains(x));
            }
        }
        let mut p: usize = 0;
        while p < out.len() && !text_lt_exec(x.id.as_str(), out[p].id.as_str())
            invariant
                p <= out@.len(),
                forall|k: int| 0 <= k < p ==> !text_lt(x.id@, (#[trigger] out@[k]).id@),
            decreases out.len() - p,
        {
            p += 1;
        }
        let ghost before = out@;
        proof {
            assert forall|k: int| p <= k < before.len() implies !text_lt(
                (#[trigger] before[k]).id@,
                x.id@,
            ) by {
                assert(text_lt(x.id@, before[p as int].id@));
                if text_lt(before[k].id@, x.id@) {
                    lemma_text_lt_transitive(before[k].id@, x.id@, before[p as int].id@);
                    if k == p {
                        lemma_text_lt_irreflexive(before[k].id@);
                    }
                }
            }
        }
        out.insert(p, x);
        proof {
            assert(out@ == before.insert(p as int, x));
            assert forall|i: int, j: int| 0 <= i < j < out@.len() implies !text_lt(
                (#[trigger] out@[j]).id@,
                (#[trigger] out@[i]).id@,
            ) by {
                if j < p {
                    assert(out@[i] == before[i] && out@[j] == before[j]);
                } else if j == p {
                    assert(out@[i] == before[i]);
                } else if i < p {
                    assert(out@[i] == before[i] && out@[j] == before[j - 1]);
                    if i < j - 1 {
                        assert(!text_lt(before[j - 1].id@, before[i].id@));
                    }
                    if text_lt(before[j - 1].id@, before[i].id@) {
                    }
                } else if i == p {
                    assert(out@[j] == before[j - 1]);
                } else {
                    assert(out@[i] == before[i - 1] && out@[j] == before[j - 1]);
                }
            }
            vstd::seq_lib::to_multiset_insert(before, p as int, x);
            assert(out@.to_multiset() == before.to_multiset().insert(x));
            assert(out@.to_multiset().add(rest@.to_multiset()) =~= orig.to_multiset());
            assert(before_rest =~= seq![x] + rest@);
            let lo = before.subrange(0, p as int);
            let hi = before.subrange(p as int, before.len() as int);
            assert(before =~= lo + hi);
            assert(out@ =~= lo + seq![x] + hi);
            assert forall|id: Seq<char>| with_id(out@, id) + with_id(rest@, id) == #[trigger] with_id(
                orig,
                id,
            ) by {
                lemma_with_id_concat(seq![x], rest@, id);
                lemma_with_id_single(x, id);
                lemma_with_id_concat(lo, hi, id);
                lemma_with_id_concat(lo + seq![x], hi, id);
                lemma_with_id_concat(lo, seq![x], id);
                assert(with_id(before, id) + with_id(before_rest, id) == with_id(orig, id));
                if x.id@ == id {
                    assert forall|k: int| 0 <= k < hi.len() implies (#[trigger] hi[k]).id@ != id by {
                        assert(hi[k] == before[p + k]);
                        if before[p + k].id@ == x.id@ {
                            lemma_text_lt_irreflexive(x.id@);
                        }
                    }
                    lemma_with_id_none(hi, id);
                    assert(with_id(out@, id) + with_id(rest@, id) =~= with_id(before, id) + with_id(
                        before_rest,
                        id,
                    ));
                } else {
                    assert(with_id(out@, id) + with_id(rest@, id) =~= with_id(before, id) + with_id(
                        before_rest,
                        id,
                    ));
                }
            }
        }
    }
    proof {
        rest@.to_multiset_ensures();
        vstd::multiset::lemma_multiset_empty_len(rest@.to_multiset());
        assert(rest@.to_multiset() =~= vstd::multiset::Multiset::empty());
        assert(out@.to_multiset().add(rest@.to_multiset()) =~= out@.to_multiset());
        assert forall|id: Seq<char>| #[trigger] with_id(out@, id) == with_id(orig, id) by {
            assert(with_id(rest@, id) =~= Seq::<WorkspaceProfile>::empty());
            assert(with_id(out@, id) + with_id(rest@, id) =~= with_id(out@, id));
        }
    }
    out
}


/// What saving a profile did, or would do on a dry run.
#[derive(Clone, Debug)]
pub struct ProfilePutResult {
    pub id: String,
    pub dry_run: bool,
    pub replace: bool,
    /// A profile with this id was already saved, and is (or would be) replaced.
    pub replaced: bool,
    /// The store was written.
    pub saved: bool,
    /// The requested profile.
    pub profile: WorkspaceProfile,
    /// The saved profile with this id before the put, when there was one.
    pub existing: Option<WorkspaceProfile>,
}

/// Why a put is refused: an invalid profile, or an id that is already saved when
/// replacing was not asked for.
pub open spec fn put_issue(s: Seq<WorkspaceProfile>, p: WorkspaceProfile, replace: bool) -> Option<
    ProfileIssue,
> {
    match profile_issue(p) {
        Some(e) => Some(e),
        None => if find_index(s, p.id@) is Some && !replace {
            Some(ProfileIssue::AlreadyExists { id: p.id@ })
        } else {
            None
        },
    }
}

/// Saves a profile. An invalid profile, or one whose id is already saved when
/// `replace` is not set, is refused and the store is left unchanged. Otherwise the
/// first profile with its id is replaced (or the profile appended) and the store is
/// ordered by id, stably; on a dry run the store is left unchanged and the result
/// tells what would happen.
pub fn put_profile(store: &mut ProfileStore, profile: WorkspaceProfile, replace: bool, dry_run: bool) -> (r:
    Result<ProfilePutResult, ProfileError>)
    ensures
        match put_issue(old(store).profiles@, profile, replace) {
            Some(e) => r matches Err(x) && x@ == e && final(store).profiles@ == old(store).profiles@,
            None => r matches Ok(res) && {
                &&& res.id@ == profile.id@
                &&& res.dry_run == dry_run
                &&& res.replace == replace
                &&& res.replaced == (find_index(old(store).profiles@, profile.id@) is Some)
                &&& res.saved == !dry_run
                &&& same_profile(res.profile, profile)
                &&& match find_index(old(store).profiles@, profile.id@) {
                    Some(k) => res.existing matches Some(x) && same_profile(
                        x,
                        old(store).profiles@[k],
                    ),
                    None => res.existing is None,
                }
                &&& dry_run ==> final(store).profiles@ == old(store).profiles@
                &&& !dry_run ==> {
                    &&& sorted_by_id(final(store).profiles@)
                    &&& final(store).profiles@.to_multiset() == put_unsorted(
                        old(store).profiles@,
                        profile,
                    ).to_multiset()
                    &&& stable_by_id(put_unsorted(old(store).profiles@, profile), final(store).profiles@)
                }
            },
        },
{
    match validate_profile(&profile) {
        Ok(()) => {},
        Err(e) => {
            return Err(e);
        },
    }
    proof {
        lemma_find_index(store.profiles@, profile.id@);
    }
    let found = find_index_exec(&store.profiles, profile.id.as_str());
    let existing = match found {
        Some(k) => {
            if !replace {
                return Err(ProfileError::AlreadyExists { id: profile.id.clone() });
            }
            Some(store.profiles[k].duplicate())
        },
        None => None,
    };
    let result = ProfilePutResult {
        id: profile.id.clone(),
        dry_run,
        replace,
        replaced: found.is_some(),
        saved: !dry_run,
        profile: profile.duplicate(),
        existing,
    };
    if dry_run {
        return Ok(result);
    }
    let mut profiles: Vec<WorkspaceProfile> = Vec::new();
    std::mem::swap(&mut profiles, &mut store.profiles);
    let ghost before = profiles@;
    match found {
        Some(k) => {
            profiles.set(k, profile);
        },
        None => {
            profiles.push(profile);
        },
    }
    assert(profiles@ == put_unsorted(before, profile));
    store.profiles = sort_profiles(profiles);
    Ok(result)
}

/// Where a profile export is written: into `<id>.json` inside `output` when that is
/// an existing directory, else at `output` itself.
pub open spec fn export_path_spec(output: Seq<char>, output_is_dir: bool, id: Seq<char>) -> Seq<char> {
    if output_is_dir {
        join_path(output, id + ".json"@)
    } else {
        output
    }
}

/// The file a profile export writes (see `export_path_spec`).
pub fn export_path(output: &str, output_is_dir: bool, id: &str) -> (r: String)
    ensures
        r@ == export_path_spec(output@, output_is_dir, id@),
{
    if output_is_dir {
        let name = concat2(id, ".json");
        join_path_str(output, name.as_str())
    } else {
        owned(output)
    }
}

/// An export may write its file unless the file exists and replacing it was not
/// asked for.
pub fn check_export_target(path: &str, exists: bool, replace: bool) -> (r: Result<(), ProfileError>)
    ensures
        outcome(r) == if exists && !replace {
            Some(ProfileIssue::ExportExists { path: path@ })
        } else {
            None
        },
{
    if exists && !replace {
        Err(ProfileError::ExportExists { path: owned(path) })
    } else {
        Ok(())
    }
}

/// What exporting a profile returned or wrote.
#[derive(Clone, Debug)]
pub struct ProfileExportResult {
    pub id: String,
    pub profile: WorkspaceProfile,
    /// The file written, when an output was given.
    pub output_path: Option<String>,
    pub wrote: bool,
    /// An existing file was overwritten.
    pub replaced: bool,
}

/// The profiles whose id differs from `id`, in order.
pub open spec fn without_id(s: Seq<WorkspaceProfile>, id: Seq<char>) -> Seq<WorkspaceProfile>
    decreases s.len(),
{
    if s.len() == 0 {
        Seq::empty()
    } else if s.last().id@ == id {
        without_id(s.drop_last(), id)
    } else {
        without_id(s.drop_last(), id).push(s.last())
    }
}

/// Deletes every profile with the (trimmed, checked) id and reports whether any was,
/// with the first of them. A dry run leaves the store unchanged and reports the
/// profile that would be removed.
pub fn delete_profile(store: &mut ProfileStore, id: &str, dry_run: bool) -> (r: Result<
    ProfileDeleteResult,
    ProfileError,
>)
    ensures
        match id_issue(id@) {
            Some(e) => r matches Err(x) && x@ == e && final(store).profiles@ == old(store).profiles@,
            None => r matches Ok(d) && {
                &&& d.id@ == trim(id@)
                &&& d.dry_run == dry_run
                &&& d.would_delete == (find_index(old(store).profiles@, trim(id@)) is Some)
                &&& d.deleted == (!dry_run && find_index(old(store).profiles@, trim(id@)) is Some)
                &&& match find_index(old(store).profiles@, trim(id@)) {
                    Some(k) => d.profile matches Some(x) && same_profile(x, old(store).profiles@[k]),
                    None => d.profile is None,
                }
                &&& final(store).profiles@ == if dry_run {
                    old(store).profiles@
                } else {
                    without_id(old(store).profiles@, trim(id@))
                }
            },
        },
{
    let id = sanitize_profile_id(id)?;
    proof {
        lemma_find_index(store.profiles@, id@);
    }
    let found = find_index_exec(&store.profiles, id.as_str());
    let profile = match found {
        Some(k) => Some(store.profiles[k].duplicate()),
        None => None,
    };
    if dry_run {
        return Ok(
            ProfileDeleteResult {
                id,
                deleted: false,
                would_delete: found.is_some(),
                dry_run,
                profile,
            },
        );
    }
    let mut profiles: Vec<WorkspaceProfile> = Vec::new();
    std::mem::swap(&mut profiles, &mut store.profiles);
    let ghost before = profiles@;
    let original_len = profiles.len();
    let mut kept: Vec<WorkspaceProfile> = Vec::new();
    let mut i: usize = 0;
    let mut removed = false;
    assert(before.subrange(0, 0) =~= Seq::<WorkspaceProfile>::empty());
    while profiles.len() > 0
        invariant
            before == before.subrange(0, i as int) + profiles@,
            i + profiles@.len() == before.len(),
            before.len() == original_len,
            kept@ == without_id(before.subrange(0, i as int), id@),
            removed == (find_index(before.subrange(0, i as int), id@) is Some),
        decreases profiles.len(),
    {
        let ghost rest = profiles@;
        let p = profiles.remove(0);
        proof {
            assert(before[i as int] == p);
            assert(before.subrange(0, i + 1).drop_last() =~= before.subrange(0, i as int));
            assert(before.subrange(0, i + 1).last() == p);
            lemma_find_index_step(before, id@, i as int);
            assert(before =~= before.subrange(0, i + 1) + profiles@);
        }
        if crate::permissions::str_eq(p.id.as_str(), id.as_str()) {
            removed = true;
        } else {
            kept.push(p);
        }
        i += 1;
    }
    assert(before.subrange(0, i as int) =~= before);
    proof {
        lemma_without_id_len(before, id@);
    }
    store.profiles = kept;
    let deleted = removed;
    Ok(ProfileDeleteResult { id, deleted, would_delete: deleted, dry_run, profile })
}

proof fn lemma_without_id_len(s: Seq<WorkspaceProfile>, id: Seq<char>)
    ensures
        without_id(s, id).len() <= s.len(),
        forall|j: int| 0 <= j < without_id(s, id).len() ==> (#[trigger] without_id(s, id)[j]).id@ != id,
    decreases s.len(),
{
    if s.len() > 0 {
        lemma_without_id_len(s.drop_last(), id);
    }
}

// ---------------------------------------------------------------------------
// Laws of the store

/// Saving a profile keeps ids unique.
pub proof fn law_put_keeps_ids_unique(s: Seq<WorkspaceProfile>, p: WorkspaceProfile)
    requires
        unique_ids(s),
    ensures
        unique_ids(put_unsorted(s, p)),
{
    lemma_find_index(s, p.id@);
    let u = put_unsorted(s, p);
    match find_index(s, p.id@) {
        Some(k) => {
            assert forall|i: int, j: int|
                0 <= i < u.len() && 0 <= j < u.len() && i != j implies (#[trigger] u[i]).id@
                != (#[trigger] u[j]).id@ by {
                if i == k {
                    assert(s[k].id@ == p.id@);
                    assert(s[j].id@ != s[k].id@);
                } else if j == k {
                    assert(s[i].id@ != s[k].id@);
                }
            }
        },
        None => {
            assert forall|i: int, j: int|
                0 <= i < u.len() && 0 <= j < u.len() && i != j implies (#[trigger] u[i]).id@
                != (#[trigger] u[j]).id@ by {
                if i == s.len() {
                    assert(s[j].id@ != p.id@);
                } else if j == s.len() {
                    assert(s[i].id@ != p.id@);
                }
            }
        },
    }
}

proof fn lemma_find_index_with_id(s: Seq<WorkspaceProfile>, id: Seq<char>)
    ensures
        match find_index(s, id) {
            Some(k) => with_id(s, id).len() > 0 && with_id(s, id)[0] == s[k],
            None => with_id(s, id).len() == 0,
        },
    decreases s.len(),
{
    if s.len() > 0 {
        lemma_find_index_with_id(s.drop_last(), id);
        lemma_find_index(s.drop_last(), id);
        if find_index(s.drop_last(), id) is Some {
            assert(s.drop_last()[find_index(s.drop_last(), id)->0] == s[find_index(s.drop_last(), id)->0]);
        }
    }
}

/// Reading a profile back after saving it gives the profile that was saved, when
/// the store keeps profiles that share an id in the order the put left them (as
/// `put_profile` does); the saved id is already trimmed.
pub proof fn law_get_after_put(s: Seq<WorkspaceProfile>, p: WorkspaceProfile, stored: Seq<WorkspaceProfile>)
    requires
        valid_profile(p),
        trim(p.id@) == p.id@,
        stable_by_id(put_unsorted(s, p), stored),
    ensures
        get_outcome(stored, p.id@) == Ok::<WorkspaceProfile, ProfileIssue>(p),
{
    let u = put_unsorted(s, p);
    let id = p.id@;
    lemma_find_index(s, id);
    let m: int = match find_index(s, id) {
        Some(k) => k,
        None => s.len() as int,
    };
    assert(u[m] == p);
    assert forall|j: int| 0 <= j < m implies (#[trigger] u[j]).id@ != id by {
        assert(u[j] == s[j]);
    }
    lemma_find_index(u, id);
    assert(find_index(u, id) == Some(m)) by {
        match find_index(u, id) {
            Some(k) => {
                if k < m {
                    assert(u[k].id@ != id);
                }
                if k > m {
                    assert(u[m].id@ == id);
                }
            },
            None => {
                assert(u[m].id@ == id);
            },
        }
    }
    lemma_find_index_with_id(u, id);
    lemma_find_index_with_id(stored, id);
    assert(with_id(stored, id) == with_id(u, id));
}


proof fn lemma_count_two<A>(s: Seq<A>, i: int, j: int)
    requires
        0 <= i < s.len(),
        0 <= j < s.len(),
        i != j,
        s[i] == s[j],
    ensures
        s.to_multiset().count(s[i]) >= 2,
{
    broadcast use vstd::seq_lib::group_to_multiset_ensures, vstd::multiset::group_multiset_axioms;
    let x = s[i];
    let lo = if i < j { i } else { j };
    let hi = if i < j { j } else { i };
    let r1 = s.remove(hi);
    assert(r1.len() == s.len() - 1);
    assert(r1[lo] == s[lo]);
    s.to_multiset_ensures();
    r1.to_multiset_ensures();
    assert(r1.to_multiset() =~= s.to_multiset().remove(x));
    assert(r1.contains(x));
    assert(r1.to_multiset().count(x) > 0);
    assert(s.to_multiset().count(x) > 0) by {
        assert(s.contains(x));
    }
    assert(s.to_multiset().remove(x).count(x) == s.to_multiset().count(x) - 1);
}

proof fn lemma_count_unique(u: Seq<WorkspaceProfile>, a: int)
    requires
        unique_ids(u),
        0 <= a < u.len(),
    ensures
        u.to_multiset().count(u[a]) == 1,
{
    broadcast use vstd::seq_lib::group_to_multiset_ensures, vstd::multiset::group_multiset_axioms;
    let x = u[a];
    let r = u.remove(a);
    assert(r.len() == u.len() - 1);
    u.to_multiset_ensures();
    r.to_multiset_ensures();
    assert(r.to_multiset() =~= u.to_multiset().remove(x));
    assert(!r.contains(x)) by {
        if r.contains(x) {
            let w = choose|w: int| 0 <= w < r.len() && r[w] == x;
            if w < a {
                assert(r[w] == u[w]);
                assert(u[w].id@ != u[a].id@);
            } else {
                assert(r[w] == u[w + 1]);
                assert(u[w + 1].id@ != u[a].id@);
            }
        }
    }
    assert(r.to_multiset().count(x) == 0);
    assert(u.contains(x));
    assert(u.to_multiset().count(x) > 0);
    assert(u.to_multiset().remove(x).count(x) == u.to_multiset().count(x) - 1);
}

/// After deleting an id, reading it back finds nothing.
pub proof fn law_get_after_delete(s: Seq<WorkspaceProfile>, id: Seq<char>)
    requires
        id_issue(id) is None,
    ensures
        get_outcome(without_id(s, trim(id)), id) == Err::<WorkspaceProfile, ProfileIssue>(
            ProfileIssue::NotFound { id: trim(id) },
        ),
{
    lemma_without_id_len(s, trim(id));
    lemma_find_index(without_id(s, trim(id)), trim(id));
}


// ---------------------------------------------------------------------------
// Environment merging

/// The index of the first variable named `name`.
pub open spec fn env_index(s: Seq<EnvVar>, name: Seq<char>) -> Option<int>
    decreases s.len(),
{
    if s.len() == 0 {
        None
    } else {
        match env_index(s.drop_last(), name) {
            Some(k) => Some(k),
            None => if s.last().name@ == name { Some(s.len() - 1) } else { None },
        }
    }
}

proof fn lemma_env_index(s: Seq<EnvVar>, name: Seq<char>)
    ensures
        match env_index(s, name) {
            Some(k) => 0 <= k < s.len() && s[k].name@ == name && forall|j: int|
                0 <= j < k ==> (#[trigger] s[j]).name@ != name,
            None => forall|j: int| 0 <= j < s.len() ==> (#[trigger] s[j]).name@ != name,
        },
    decreases s.len(),
{
    if s.len() > 0 {
        lemma_env_index(s.drop_last(), name);
        assert forall|j: int| 0 <= j < s.len() - 1 implies s.drop_last()[j] == s[j] by {}
    }
}

/// One override: replaces the first variable of the same name, or is appended.
pub open spec fn merge_one(base: Seq<EnvVar>, o: EnvVar) -> Seq<EnvVar> {
    match env_index(base, o.name@) {
        Some(k) => base.update(k, o),
        None => base.push(o),
    }
}

/// `base` with each override applied in order.
pub open spec fn merge_env(base: Seq<EnvVar>, overrides: Seq<EnvVar>) -> Seq<EnvVar>
    decreases overrides.len(),
{
    if overrides.len() == 0 {
        base
    } else {
        merge_one(merge_env(base, overrides.drop_last()), overrides.last())
    }
}

fn env_index_exec(s: &Vec<EnvVar>, name: &str) -> (r: Option<usize>)
    ensures
        match r {
            Some(k) => env_index(s@, name@) == Some(k as int),
            None => env_index(s@, name@) is None,
        },
{
    let mut i: usize = 0;
    assert(s@.subrange(0, 0) =~= Seq::<EnvVar>::empty());
    while i < s.len()
        invariant
            i <= s@.len(),
            env_index(s@.subrange(0, i as int), name@) is None,
        decreases s.len() - i,
    {
        proof {
            assert(s@.subrange(0, i + 1).drop_last() =~= s@.subrange(0, i as int));
        }
        if crate::permissions::str_eq(s[i].name.as_str(), name) {
            proof {
                lemma_env_index_prefix(s@, name@, i + 1);
            }
            return Some(i);
        }
        i += 1;
    }
    assert(s@.subrange(0, s@.len() as int) =~= s@);
    None
}

proof fn lemma_env_index_prefix(s: Seq<EnvVar>, name: Seq<char>, k: int)
    requires
        0 <= k <= s.len(),
        env_index(s.subrange(0, k), name) is Some,
    ensures
        env_index(s, name) == env_index(s.subrange(0, k), name),
    decreases s.len() - k,
{
    if k == s.len() {
        assert(s.subrange(0, k) =~= s);
    } else {
        assert(s.subrange(0, k + 1).drop_last() =~= s.subrange(0, k));
        lemma_env_index_prefix(s, name, k + 1);
    }
}

/// `base` with `overrides` applied: a variable of an existing name replaces the
/// first one of that name, others are appended.
pub fn merged_env(base: Vec<EnvVar>, overrides: Vec<EnvVar>) -> (r: Vec<EnvVar>)
    ensures
        r@ == merge_env(base@, overrides@),
{
    let mut out = base;
    let ghost b = out@;
    let mut i: usize = 0;
    assert(overrides@.subrange(0, 0) =~= Seq::<EnvVar>::empty());
    while i < overrides.len()
        invariant
            i <= overrides@.len(),
            out@ == merge_env(b, overrides@.subrange(0, i as int)),
        decreases overrides.len() - i,
    {
        let o = overrides[i].duplicate();
        proof {
            assert(overrides@.subrange(0, i + 1).drop_last() =~= overrides@.subrange(0, i as int));
            assert(overrides@.subrange(0, i + 1).last() == o);
            lemma_env_index(out@, o.name@);
        }
        match env_index_exec(&out, o.name.as_str()) {
            Some(k) => {
                out.set(k, o);
            },
            None => {
                out.push(o);
            },
        }
        i += 1;
    }
    assert(overrides@.subrange(0, overrides@.len() as int) =~= overrides@);
    out
}

/// The variable a program sees for `name`: the first one with that name.
pub open spec fn env_lookup(s: Seq<EnvVar>, name: Seq<char>) -> Option<EnvVar> {
    match env_index(s, name) {
        Some(k) => Some(s[k]),
        None => None,
    }
}

/// Merging gives each name the last override of that name, and leaves names that
/// no override mentions as they were.
pub proof fn law_merged_env_lookup(base: Seq<EnvVar>, overrides: Seq<EnvVar>, name: Seq<char>)
    ensures
        env_lookup(merge_env(base, overrides), name) == match env_lookup(
            overrides.reverse(),
            name,
        ) {
            Some(o) => Some(o),
            None => env_lookup(base, name),
        },
    decreases overrides.len(),
{
    if overrides.len() > 0 {
        let rest = overrides.drop_last();
        let o = overrides.last();
        law_merged_env_lookup(base, rest, name);
        let m = merge_env(base, rest);
        lemma_env_index(m, o.name@);
        lemma_env_index(m, name);
        let m2 = merge_one(m, o);
        lemma_env_index(m2, name);
        // the reversed overrides begin with the last one
        let rv = overrides.reverse();
        assert(rv[0] == o);
        assert(rv.drop_first() =~= rest.reverse());
        lemma_env_lookup_cons(rv, name);
        if o.name@ == name {
            match env_index(m, o.name@) {
                Some(k) => {
                    assert(m2[k] == o);
                    assert forall|j: int| 0 <= j < k implies (#[trigger] m2[j]).name@ != name by {
                        assert(m2[j] == m[j]);
                    }
                    lemma_env_index_first(m2, name, k);
                },
                None => {
                    assert forall|j: int| 0 <= j < m.len() implies (#[trigger] m2[j]).name@ != name by {
                        assert(m2[j] == m[j]);
                    }
                    lemma_env_index_first(m2, name, m.len() as int);
                },
            }
        } else {
            match env_index(m, o.name@) {
                Some(k) => {
                    assert forall|j: int| 0 <= j < m.len() implies (#[trigger] m2[j]).name@ == name
                        <==> m[j].name@ == name by {
                        if j == k {
                            assert(m[k].name@ == o.name@);
                        }
                    }
                    match env_index(m, name) {
                        Some(q) => {
                            assert(q != k);
                            assert(m2[q] == m[q]);
                            lemma_env_index_first(m2, name, q);
                        },
                        None => {
                            assert(env_index(m2, name) is None);
                        },
                    }
                },
                None => {
                    match env_index(m, name) {
                        Some(q) => {
                            assert(m2[q] == m[q]);
                            assert forall|j: int| 0 <= j < q implies (#[trigger] m2[j]).name@ != name by {
                                assert(m2[j] == m[j]);
                            }
                            lemma_env_index_first(m2, name, q);
                        },
                        None => {
                            assert forall|j: int| 0 <= j < m2.len() implies (#[trigger] m2[j]).name@ != name by {
                                if j < m.len() {
                                    assert(m2[j] == m[j]);
                                }
                            }
                        },
                    }
                },
            }
        }
    } else {
        assert(overrides.reverse() =~= Seq::<EnvVar>::empty());
    }
}

proof fn lemma_env_index_first(s: Seq<EnvVar>, name: Seq<char>, k: int)
    requires
        0 <= k < s.len(),
        s[k].name@ == name,
        forall|j: int| 0 <= j < k ==> (#[trigger] s[j]).name@ != name,
    ensures
        env_index(s, name) == Some(k),
{
    lemma_env_index(s, name);
    match env_index(s, name) {
        Some(q) => {
            if q < k {
                assert(s[q].name@ != name);
            }
        },
        None => {
            assert(s[k].name@ != name);
        },
    }
}

proof fn lemma_env_lookup_cons(s: Seq<EnvVar>, name: Seq<char>)
    requires
        s.len() > 0,
    ensures
        env_lookup(s, name) == if s[0].name@ == name {
            Some(s[0])
        } else {
            env_lookup(s.drop_first(), name)
        },
{
    lemma_env_index(s, name);
    lemma_env_index(s.drop_first(), name);
    if s[0].name@ == name {
        lemma_env_index_first(s, name, 0);
    } else {
        match env_index(s.drop_first(), name) {
            Some(q) => {
                assert(s[q + 1] == s.drop_first()[q]);
                assert forall|j: int| 0 <= j < q + 1 implies (#[trigger] s[j]).name@ != name by {
                    if j > 0 {
                        assert(s[j] == s.drop_first()[j - 1]);
                    }
                }
                lemma_env_index_first(s, name, q + 1);
            },
            None => {
                assert forall|j: int| 0 <= j < s.len() implies (#[trigger] s[j]).name@ != name by {
                    if j > 0 {
                        assert(s[j] == s.drop_first()[j - 1]);
                    }
                }
                match env_index(s, name) {
                    Some(k) => {
                        assert(s[k].name@ == name);
                    },
                    None => {},
                }
            },
        }
    }
}


// ---------------------------------------------------------------------------
// Applying a profile

/// `r` is the policy of profile `p` on a runtime with capabilities `caps`.
pub open spec fn applies_profile(
    r: AppliedWorkspacePolicy,
    p: WorkspaceProfile,
    caps: PolicyRuntimeCapabilities,
) -> bool {
    &&& r.profile_id@ == p.id@
    &&& r.mounts@ == p.mounts@
    &&& same_network(r.network, p.network)
    &&& r.require_enforced_policy == p.require_enforced_policy
    &&& r.setup_command_count == p.setup_commands@.len()
    &&& same_capabilities(r.runtime_capabilities, caps)
    &&& enforcement_consistent(r)
}

/// The policy that a workspace or an app started with this profile runs under.
pub fn applied_policy(profile: &WorkspaceProfile, caps: &PolicyRuntimeCapabilities) -> (r:
    AppliedWorkspacePolicy)
    ensures
        applies_profile(r, *profile, *caps),
{
    AppliedWorkspacePolicy::new_with_capabilities(
        profile.id.clone(),
        clone_mounts(&profile.mounts),
        profile.network.duplicate(),
        profile.require_enforced_policy,
        profile.setup_commands.len(),
        caps.duplicate(),
    )
}

/// The warnings of a policy: the detail of each capability that is requested but
/// not enforced, mounts before network.
pub open spec fn warning_texts(p: AppliedWorkspacePolicy) -> Seq<String> {
    let m = if requested_but_unenforced(p.enforcement.mounts) {
        seq![p.enforcement.mounts.detail]
    } else {
        Seq::<String>::empty()
    };
    let n = if requested_but_unenforced(p.enforcement.network) {
        seq![p.enforcement.network.detail]
    } else {
        Seq::<String>::empty()
    };
    m + n
}

/// The warnings shown before a profile is used.
pub fn policy_warnings(policy: &AppliedWorkspacePolicy) -> (r: Vec<String>)
    ensures
        r@ == warning_texts(*policy),
{
    let mut warnings: Vec<String> = Vec::new();
    if requested_but_unenforced_status(&policy.enforcement.mounts) {
        warnings.push(policy.enforcement.mounts.detail.clone());
    }
    if requested_but_unenforced_status(&policy.enforcement.network) {
        warnings.push(policy.enforcement.network.detail.clone());
    }
    assert(warnings@ =~= warning_texts(*policy));
    warnings
}

/// Reads a profile and reports the policy it would run under, what a start must
/// acknowledge, and the warnings to show.
pub fn check_profile(store: ProfileStore, id: &str, caps: &PolicyRuntimeCapabilities) -> (r: Result<
    ProfileCheck,
    ProfileError,
>)
    ensures
        match r {
            Ok(c) => {
                &&& get_outcome(store.profiles@, id@) == Ok::<WorkspaceProfile, ProfileIssue>(
                    c.profile,
                )
                &&& applies_profile(c.applied_policy, c.profile, *caps)
                &&& c.requires_hidden_workspace_ack
                &&& c.requires_unenforced_policy_ack == unenforced_policy(c.applied_policy)
                &&& c.warnings@ == warning_texts(c.applied_policy)
            },
            Err(e) => get_outcome(store.profiles@, id@) == Err::<WorkspaceProfile, ProfileIssue>(e@),
        },
{
    let profile = match get_profile(store, id) {
        Ok(p) => p,
        Err(e) => {
            return Err(e);
        },
    };
    let policy = applied_policy(&profile, caps);
    let requires_unenforced_policy_ack = policy.has_requested_unenforced_policy();
    let warnings = policy_warnings(&policy);
    Ok(
        ProfileCheck {
            profile,
            applied_policy: policy,
            requires_hidden_workspace_ack: true,
            requires_unenforced_policy_ack,
            warnings,
        },
    )
}

/// Applies a saved profile to workspace start options: the profile id and policy,
/// and the profile's width and height unless given explicitly. On an error the
/// options are left as they were.
pub fn apply_profile_to_start_options(
    store: ProfileStore,
    profile_id: &str,
    options: &mut WorkspaceStartOptions,
    width_explicit: bool,
    height_explicit: bool,
    caps: &PolicyRuntimeCapabilities,
) -> (r: Result<WorkspaceProfile, ProfileError>)
    ensures
        match r {
            Ok(p) => {
                &&& get_outcome(store.profiles@, profile_id@) == Ok::<WorkspaceProfile, ProfileIssue>(
                    p,
                )
                &&& final(options).profile_id == Some(p.id)
                &&& final(options).applied_policy is Some
                &&& applies_profile(final(options).applied_policy->0, p, *caps)
                &&& final(options).width == if !width_explicit && p.width is Some {
                    p.width->0
                } else {
                    old(options).width
                }
                &&& final(options).height == if !height_explicit && p.height is Some {
                    p.height->0
                } else {
                    old(options).height
                }
                &&& final(options).id == old(options).id
                &&& final(options).purpose == old(options).purpose
                &&& final(options).user_acknowledged_hidden_workspace
                    == old(options).user_acknowledged_hidden_workspace
                &&& final(options).user_acknowledged_unenforced_policy
                    == old(options).user_acknowledged_unenforced_policy
            },
            Err(e) => {
                &&& get_outcome(store.profiles@, profile_id@) == Err::<WorkspaceProfile, ProfileIssue>(
                    e@,
                )
                &&& *final(options) == *old(options)
            },
        },
{
    let profile = match get_profile(store, profile_id) {
        Ok(p) => p,
        Err(e) => {
            return Err(e);
        },
    };
    options.profile_id = Some(profile.id.clone());
    options.applied_policy = Some(applied_policy(&profile, caps));
    if !width_explicit {
        if let Some(width) = profile.width {
            options.width = width;
        }
    }
    if !height_explicit {
        if let Some(height) = profile.height {
            options.height = height;
        }
    }
    Ok(profile)
}

/// Applies a saved profile to a launch: the profile id and policy, the profile's
/// cwd unless one is given explicitly, and the profile's environment overridden by
/// the launch's own variables. On an error the launch is left as it was.
pub fn apply_profile_to_launch_spec(
    store: ProfileStore,
    profile_id: &str,
    spec: &mut LaunchSpec,
    cwd_explicit: bool,
    caps: &PolicyRuntimeCapabilities,
) -> (r: Result<WorkspaceProfile, ProfileError>)
    ensures
        match r {
            Ok(p) => {
                &&& get_outcome(store.profiles@, profile_id@) == Ok::<WorkspaceProfile, ProfileIssue>(
                    p,
                )
                &&& final(spec).profile_id == Some(p.id)
                &&& final(spec).applied_policy is Some
                &&& applies_profile(final(spec).applied_policy->0, p, *caps)
                &&& final(spec).cwd == if !cwd_explicit && p.cwd is Some {
                    p.cwd
                } else {
                    old(spec).cwd
                }
                &&& final(spec).env@ == merge_env(p.env@, old(spec).env@)
                &&& final(spec).command == old(spec).command
                &&& final(spec).name == old(spec).name
                &&& final(spec).user_acknowledged_unenforced_policy
                    == old(spec).user_acknowledged_unenforced_policy
            },
            Err(e) => {
                &&& get_outcome(store.profiles@, profile_id@) == Err::<WorkspaceProfile, ProfileIssue>(
                    e@,
                )
                &&& *final(spec) == *old(spec)
            },
        },
{
    let profile = match get_profile(store, profile_id) {
        Ok(p) => p,
        Err(e) => {
            return Err(e);
        },
    };
    spec.profile_id = Some(profile.id.clone());
    spec.applied_policy = Some(applied_policy(&profile, caps));
    if !cwd_explicit {
        if profile.cwd.is_some() {
            spec.cwd = clone_opt_string(&profile.cwd);
        }
    }
    let mut explicit_env: Vec<EnvVar> = Vec::new();
    std::mem::swap(&mut explicit_env, &mut spec.env);
    spec.env = merged_env(clone_envs(&profile.env), explicit_env);
    Ok(profile)
}

/// `s` launches `command` under profile `p`: with the profile's id and policy, the
/// given cwd or else the profile's, and the profile's environment overridden by
/// `env`; no name and no acknowledgement yet.
pub open spec fn profile_launch(
    s: LaunchSpec,
    p: WorkspaceProfile,
    command: Seq<String>,
    cwd: Option<String>,
    env: Seq<EnvVar>,
    name: Option<String>,
    caps: PolicyRuntimeCapabilities,
) -> bool {
    &&& s.command@ == command
    &&& s.name == name
    &&& s.profile_id == Some(p.id)
    &&& s.applied_policy is Some
    &&& applies_profile(s.applied_policy->0, p, caps)
    &&& !s.user_acknowledged_unenforced_policy
    &&& s.cwd == if cwd is Some {
        cwd
    } else {
        p.cwd
    }
    &&& s.env@ == merge_env(p.env@, env)
}

/// Every setup command of the profile names a program.
pub open spec fn setup_commands_nonempty(p: WorkspaceProfile) -> bool {
    forall|i: int|
        0 <= i < p.setup_commands@.len() ==> (#[trigger] p.setup_commands@[i]).command@.len() > 0
}

/// Every startup app of the profile names a program.
pub open spec fn startup_apps_nonempty(p: WorkspaceProfile) -> bool {
    forall|i: int|
        0 <= i < p.startup_apps@.len() ==> (#[trigger] p.startup_apps@[i]).command@.len() > 0
}

/// `specs` launch the setup commands of `p`, one each, in order.
pub open spec fn setup_launches(
    specs: Seq<LaunchSpec>,
    p: WorkspaceProfile,
    caps: PolicyRuntimeCapabilities,
) -> bool {
    &&& specs.len() == p.setup_commands@.len()
    &&& forall|i: int|
        0 <= i < specs.len() ==> profile_launch(
            #[trigger] specs[i],
            p,
            p.setup_commands@[i].command@,
            p.setup_commands@[i].cwd,
            p.setup_commands@[i].env@,
            None,
            caps,
        )
}

/// `specs` launch the startup apps of `p`, one each, in order, each under the
/// app's declared name, so that the name can target the app.
pub open spec fn startup_launches(
    specs: Seq<LaunchSpec>,
    p: WorkspaceProfile,
    caps: PolicyRuntimeCapabilities,
) -> bool {
    &&& specs.len() == p.startup_apps@.len()
    &&& forall|i: int|
        0 <= i < specs.len() ==> profile_launch(
            #[trigger] specs[i],
            p,
            p.startup_apps@[i].command@,
            p.startup_apps@[i].cwd,
            p.startup_apps@[i].env@,
            p.startup_apps@[i].name,
            caps,
        )
}

fn profile_launch_spec(
    profile: &WorkspaceProfile,
    command: &Vec<String>,
    cwd: &Option<String>,
    env: &Vec<EnvVar>,
    name: &Option<String>,
    caps: &PolicyRuntimeCapabilities,
) -> (r: LaunchSpec)
    ensures
        profile_launch(r, *profile, command@, *cwd, env@, *name, *caps),
{
    let launch_cwd = if cwd.is_some() {
        clone_opt_string(cwd)
    } else {
        clone_opt_string(&profile.cwd)
    };
    LaunchSpec {
        command: clone_strings(command),
        name: clone_opt_string(name),
        profile_id: Some(profile.id.clone()),
        applied_policy: Some(applied_policy(profile, caps)),
        user_acknowledged_unenforced_policy: false,
        cwd: launch_cwd,
        env: merged_env(clone_envs(&profile.env), clone_envs(env)),
    }
}

/// The launches of a saved profile's setup commands, in order. Fails if the profile
/// cannot be read or a setup command is empty.
pub fn setup_launch_specs(store: ProfileStore, profile_id: &str, caps: &PolicyRuntimeCapabilities) -> (r:
    Result<Vec<LaunchSpec>, ProfileError>)
    ensures
        match get_outcome(store.profiles@, profile_id@) {
            Err(x) => r matches Err(e) && e@ == x,
            Ok(p) => if setup_commands_nonempty(p) {
                r matches Ok(specs) && setup_launches(specs@, p, *caps)
            } else {
                r matches Err(e) && e@ == ProfileIssue::SetupCommandEmpty
            },
        },
{
    let profile = match get_profile(store, profile_id) {
        Ok(p) => p,
        Err(e) => {
            return Err(e);
        },
    };
    let mut specs: Vec<LaunchSpec> = Vec::new();
    let mut i: usize = 0;
    while i < profile.setup_commands.len()
        invariant
            get_outcome(store.profiles@, profile_id@) == Ok::<WorkspaceProfile, ProfileIssue>(profile),
            i <= profile.setup_commands@.len(),
            specs@.len() == i,
            forall|j: int|
                0 <= j < i ==> (#[trigger] profile.setup_commands@[j]).command@.len() > 0,
            forall|j: int|
                0 <= j < i ==> profile_launch(
                    #[trigger] specs@[j],
                    profile,
                    profile.setup_commands@[j].command@,
                    profile.setup_commands@[j].cwd,
                    profile.setup_commands@[j].env@,
                    None,
                    *caps,
                ),
        decreases profile.setup_commands.len() - i,
    {
        let setup = &profile.setup_commands[i];
        if setup.command.len() == 0 {
            assert(!setup_commands_nonempty(profile));
            return Err(ProfileError::SetupCommandEmpty);
        }
        let s = profile_launch_spec(&profile, &setup.command, &setup.cwd, &setup.env, &None, caps);
        specs.push(s);
        i += 1;
    }
    Ok(specs)
}

/// The launches of a saved profile's startup apps, in order. Fails if the profile
/// cannot be read or a startup app is empty.
pub fn startup_app_launch_specs(
    store: ProfileStore,
    profile_id: &str,
    caps: &PolicyRuntimeCapabilities,
) -> (r: Result<Vec<LaunchSpec>, ProfileError>)
    ensures
        match get_outcome(store.profiles@, profile_id@) {
            Err(x) => r matches Err(e) && e@ == x,
            Ok(p) => if startup_apps_nonempty(p) {
                r matches Ok(specs) && startup_launches(specs@, p, *caps)
            } else {
                r matches Err(e) && e@ == ProfileIssue::StartupAppEmpty
            },
        },
{
    let profile = match get_profile(store, profile_id) {
        Ok(p) => p,
        Err(e) => {
            return Err(e);
        },
    };
    let mut specs: Vec<LaunchSpec> = Vec::new();
    let mut i: usize = 0;
    while i < profile.startup_apps.len()
        invariant
            get_outcome(store.profiles@, profile_id@) == Ok::<WorkspaceProfile, ProfileIssue>(profile),
            i <= profile.startup_apps@.len(),
            specs@.len() == i,
            forall|j: int|
                0 <= j < i ==> (#[trigger] profile.startup_apps@[j]).command@.len() > 0,
            forall|j: int|
                0 <= j < i ==> profile_launch(
                    #[trigger] specs@[j],
                    profile,
                    profile.startup_apps@[j].command@,
                    profile.startup_apps@[j].cwd,
                    profile.startup_apps@[j].env@,
                    profile.startup_apps@[j].name,
                    *caps,
                ),
        decreases profile.startup_apps.len() - i,
    {
        let app = &profile.startup_apps[i];
        if app.command.len() == 0 {
            assert(!startup_apps_nonempty(profile));
            return Err(ProfileError::StartupAppEmpty);
        }
        let s = profile_launch_spec(&profile, &app.command, &app.cwd, &app.env, &app.name, caps);
        specs.push(s);
        i += 1;
    }
    Ok(specs)
}


// ---------------------------------------------------------------------------
// Templates and the store's location

/// The starter project QA profile: the project at `host_path` mounted read-write at
/// `/workspace/project`, which is also its cwd, with the host's network.
pub open spec fn project_dev_profile(p: WorkspaceProfile, id: Seq<char>, host_path: Seq<char>) -> bool {
    &&& p.id@ == id
    &&& p.description is Some
    &&& p.description->0@ == "Project QA profile with the selected project mounted read-write."@
    &&& p.width is None
    &&& p.height is None
    &&& p.cwd is Some
    &&& p.cwd->0@ == "/workspace/project"@
    &&& p.env@.len() == 0
    &&& p.mounts@.len() == 1
    &&& p.mounts@[0].host_path@ == host_path
    &&& p.mounts@[0].workspace_path@ == "/workspace/project"@
    &&& p.mounts@[0].mode == MountMode::ReadWrite
    &&& p.network.mode == NetworkMode::InheritHost
    &&& p.network.allow_hosts@.len() == 0
    &&& !p.require_enforced_policy
    &&& p.setup_commands@.len() == 0
    &&& p.startup_apps@.len() == 0
}

/// The template names that select the project QA profile.
pub open spec fn is_project_dev_kind(kind: Seq<char>) -> bool {
    trim(kind) == "project-dev"@ || trim(kind) == "project_dev"@
}

/// A starter profile of the given kind (`project-dev`), with the given id or the
/// kind's own, mounting `host_path`; it is validated before it is returned.
pub fn template_profile(kind: &str, id: Option<String>, host_path: String) -> (r: Result<
    WorkspaceProfile,
    ProfileError,
>)
    ensures
        is_project_dev_kind(kind@) ==> {
            let pid = match id {
                Some(s) => s@,
                None => "project-dev"@,
            };
            match r {
                Ok(p) => project_dev_profile(p, pid, host_path@) && profile_issue(p) is None,
                Err(e) => exists|q: WorkspaceProfile|
                    project_dev_profile(q, pid, host_path@) && profile_issue(q) == Some(e@),
            }
        },
        !is_project_dev_kind(kind@) ==> (r matches Err(e) && e@ == ProfileIssue::UnknownTemplate {
            kind: trim(kind@),
        }),
{
    let k = trim_str(kind);
    let dash = crate::permissions::str_eq(k.as_str(), "project-dev");
    let under = crate::permissions::str_eq(k.as_str(), "project_dev");
    if !(dash || under) {
        return Err(ProfileError::UnknownTemplate { kind: k });
    }
    let pid = match id {
        Some(s) => s,
        None => owned("project-dev"),
    };
    let mut mounts: Vec<ProfileMount> = Vec::new();
    mounts.push(
        ProfileMount {
            host_path,
            workspace_path: owned("/workspace/project"),
            mode: MountMode::ReadWrite,
        },
    );
    let profile = WorkspaceProfile {
        id: pid,
        description: Some(owned("Project QA profile with the selected project mounted read-write.")),
        width: None,
        height: None,
        cwd: Some(owned("/workspace/project")),
        env: Vec::new(),
        mounts,
        network: NetworkPolicy::default(),
        require_enforced_policy: false,
        setup_commands: Vec::new(),
        startup_apps: Vec::new(),
    };
    match validate_profile(&profile) {
        Ok(()) => Ok(profile),
        Err(e) => Err(e),
    }
}

/// Where the profile store lives: `profiles.json` in the `agent-workspace-linux`
/// directory of `$XDG_CONFIG_HOME`, else of `$HOME/.config`, else of `.`.
pub open spec fn profiles_path_spec(xdg_config_home: Option<Seq<char>>, home: Option<Seq<char>>) -> Seq<
    char,
> {
    let base = match xdg_config_home {
        Some(x) => x,
        None => match home {
            Some(h) => join_path(h, ".config"@),
            None => "."@,
        },
    };
    join_path(join_path(base, "agent-workspace-linux"@), "profiles.json"@)
}

/// The path of the profile store, from the values of `XDG_CONFIG_HOME` and `HOME`.
pub fn profiles_path(xdg_config_home: Option<String>, home: Option<String>) -> (r: String)
    ensures
        r@ == profiles_path_spec(
            match xdg_config_home {
                Some(x) => Some(x@),
                None => None,
            },
            match home {
                Some(h) => Some(h@),
                None => None,
            },
        ),
{
    let base = match xdg_config_home {
        Some(x) => x,
        None => match home {
            Some(h) => join_path_str(h.as_str(), ".config"),
            None => owned("."),
        },
    };
    let dir = join_path_str(base.as_str(), "agent-workspace-linux");
    join_path_str(dir.as_str(), "profiles.json")
}

/// Where the profile store lives.
#[derive(Clone, Debug)]
pub struct ProfilePath {
    pub path: String,
}

/// The path of the profile store, from the values of `XDG_CONFIG_HOME` and `HOME`.
pub fn profile_path(xdg_config_home: Option<String>, home: Option<String>) -> (r: ProfilePath)
    ensures
        r.path@ == profiles_path_spec(
            match xdg_config_home {
                Some(x) => Some(x@),
                None => None,
            },
            match home {
                Some(h) => Some(h@),
                None => None,
            },
        ),
{
    ProfilePath { path: profiles_path(xdg_config_home, home) }
}

/// The stored profiles, with the path of the store they were read from.
#[derive(Clone, Debug)]
pub struct ProfileList {
    pub path: String,
    pub profiles: Vec<WorkspaceProfile>,
}

/// Lists the profiles of the store read from `path`, in store order.
pub fn list_profiles(path: String, store: ProfileStore) -> (r: ProfileList)
    ensures
        r.path == path,
        r.profiles@ == store.profiles@,
{
    ProfileList { path, profiles: store.profiles }
}

/// A mount the store accepts: an absolute host path bound strictly below
/// `/workspace`.
pub open spec fn mount_well_placed(m: ProfileMount) -> bool {
    &&& is_absolute(m.host_path@)
    &&& path_starts_with(m.workspace_path@, workspace_mount_root())
    &&& !path_eq(m.workspace_path@, workspace_mount_root())
}

proof fn lemma_least_overlap_none(earlier: Seq<Seq<char>>, p: Seq<char>)
    requires
        least_overlap(earlier, p) is None,
    ensures
        forall|k: int| 0 <= k < earlier.len() ==> !paths_overlap(p, #[trigger] earlier[k]),
    decreases earlier.len(),
{
    if earlier.len() > 0 {
        lemma_least_overlap_none(earlier.drop_last(), p);
        assert forall|k: int| 0 <= k < earlier.len() implies !paths_overlap(p, #[trigger] earlier[k]) by {
            if k < earlier.len() - 1 {
                assert(earlier[k] == earlier.drop_last()[k]);
            }
        }
    }
}

proof fn lemma_mounts_upto_none(mounts: Seq<ProfileMount>, n: int)
    requires
        0 <= n <= mounts.len(),
        mounts_issue_upto(mounts, n) is None,
    ensures
        forall|i: int| 0 <= i < n ==> mount_well_placed(#[trigger] mounts[i]),
        forall|i: int, j: int|
            0 <= i < j < n ==> !paths_overlap(
                (#[trigger] mounts[j]).workspace_path@,
                (#[trigger] mounts[i]).workspace_path@,
            ),
    decreases n,
{
    if n > 0 {
        lemma_mounts_upto_none(mounts, n - 1);
        let earlier = workspace_paths(mounts, n - 1);
        assert(mount_issue(mounts[n - 1], earlier) is None);
        lemma_least_overlap_none(earlier, mounts[n - 1].workspace_path@);
        assert forall|i: int, j: int| 0 <= i < j < n implies !paths_overlap(
            (#[trigger] mounts[j]).workspace_path@,
            (#[trigger] mounts[i]).workspace_path@,
        ) by {
            if j == n - 1 {
                assert(earlier[i] == mounts[i].workspace_path@);
            }
        }
    }
}

/// Every mount of a valid profile binds an absolute host path strictly below
/// `/workspace`, and no two of its mounts overlap: neither destination lies
/// inside the other.
pub proof fn law_valid_profile_mounts(p: WorkspaceProfile)
    requires
        profile_issue(p) is None,
    ensures
        forall|i: int| 0 <= i < p.mounts@.len() ==> mount_well_placed(#[trigger] p.mounts@[i]),
        forall|i: int, j: int|
            0 <= i < p.mounts@.len() && 0 <= j < p.mounts@.len() && i != j ==> !paths_overlap(
                (#[trigger] p.mounts@[i]).workspace_path@,
                (#[trigger] p.mounts@[j]).workspace_path@,
            ),
{
    assert(mounts_issue(p.mounts@) is None);
    lemma_mounts_upto_none(p.mounts@, p.mounts@.len() as int);
}

/// A valid profile with an allowlist network names at least one host, and a valid
/// local-only profile names only localhost or loopback labels. In particular an
/// allowlist profile without hosts is refused with `AllowlistWithoutHosts` once its
/// id, size, environment and mounts pass.
pub proof fn law_valid_network_hosts(p: WorkspaceProfile)
    ensures
        valid_profile(p) && p.network.mode == NetworkMode::Allowlist ==> p.network.allow_hosts@.len()
            > 0,
        valid_profile(p) && p.network.mode == NetworkMode::LocalOnly ==> forall|i: int|
            0 <= i < p.network.allow_hosts@.len() ==> is_loopback_label(
                #[trigger] p.network.allow_hosts@[i]@,
            ),
        (id_issue(p.id@) is None && p.width != Some(0u32) && p.height != Some(0u32) && envs_issue(
            p.env@,
        ) is None && mounts_issue(p.mounts@) is None && p.network.mode == NetworkMode::Allowlist
            && p.network.allow_hosts@.len() == 0) ==> profile_issue(p) == Some(
            ProfileIssue::AllowlistWithoutHosts,
        ),
{
    if valid_profile(p) && p.network.mode == NetworkMode::LocalOnly {
        let f = |h: String|
            if is_loopback_label(h@) {
                None
            } else {
                Some(ProfileIssue::LocalOnlyHostNotLoopback { host: h@ })
            };
        assert(local_hosts_issue(p.network) is None);
        assert(first_issue(p.network.allow_hosts@, f) is None);
        assert forall|i: int| 0 <= i < p.network.allow_hosts@.len() implies is_loopback_label(
            #[trigger] p.network.allow_hosts@[i]@,
        ) by {
            crate::text::lemma_first_issue_none_each(p.network.allow_hosts@, f, i);
            assert(f(p.network.allow_hosts@[i]) is None);
        }
    }
}

} // verus!
