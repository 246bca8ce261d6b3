//! The MCP permission ceiling: an immutable upper bound on network, mounts and
//! launched programs. Requests may narrow it but never broaden it.
use crate::paths::{
    has_parent_dir, is_absolute, is_absolute_path, is_single_name, path_eq, path_eq_str,
    path_has_parent_dir, path_is_single_name, path_starts_with, path_starts_with_str,
    lemma_path_starts_with_reflexive, lemma_path_starts_with_transitive,
};
use crate::policy::{
    clone_strings, opt_view, AppliedWorkspacePolicy, MountMode, NetworkMode, NetworkPolicy,
    ProfileMount,
};
use crate::profile::WorkspaceProfile;
use crate::text::{
    all_ws, chars_eq, concat2, concat3, contains_char, first_issue, is_blank, join, join_strings,
    lemma_first_issue_ends, lemma_first_issue_none, lemma_first_issue_prefix, lemma_first_issue_step, lower_chars, lower_seq, owned, strs, trim,
    trim_str, debug_quoted, debug_text,
};
use crate::workspace::{LaunchSpec, WorkspaceStartOptions};
use vstd::prelude::*;
use vstd::string::*;

verus! {

/// The ceiling loaded from a permissions file. Empty dimensions are open.
#[derive(Clone, Debug)]
pub struct McpPermissionCeiling {
    pub network: Option<NetworkPolicy>,
    pub mounts: Vec<ProfileMount>,
    pub apps: AppPermissionCeiling,
}

/// Programs that may be launched; empty means any.
#[derive(Clone, Debug)]
pub struct AppPermissionCeiling {
    pub allow: Vec<String>,
}

impl Default for AppPermissionCeiling {
    fn default() -> (r: Self)
        ensures
            r.allow@.len() == 0,
    {
        AppPermissionCeiling { allow: Vec::new() }
    }
}

impl Default for McpPermissionCeiling {
    fn default() -> (r: Self)
        ensures
            r.network is None,
            r.mounts@.len() == 0,
            r.apps.allow@.len() == 0,
    {
        McpPermissionCeiling { network: None, mounts: Vec::new(), apps: AppPermissionCeiling::default() }
    }
}

/// The permission state of one MCP server process.
#[derive(Clone, Debug)]
pub struct McpPermissionState {
    pub configured: bool,
    pub restricted: bool,
    pub source: Option<String>,
    pub ceiling: McpPermissionCeiling,
    pub message: String,
}

/// Filesystem facts the ceiling needs about programs and paths, gathered by the
/// caller: canonical forms of paths (only for paths that canonicalize) and, for
/// bare command names, where the search path finds them.
#[derive(Clone, Debug)]
pub struct HostLookup {
    pub canonical_paths: Vec<(String, String)>,
    pub command_paths: Vec<(String, String)>,
}

impl HostLookup {
    /// A lookup that knows no paths.
    pub fn empty() -> (r: Self)
        ensures
            r.canonical_paths@.len() == 0,
            r.command_paths@.len() == 0,
    {
        HostLookup { canonical_paths: Vec::new(), command_paths: Vec::new() }
    }
}

/// Why a request does not fit the ceiling, or why a ceiling is malformed.
#[derive(Clone, Debug)]
pub enum PermissionError {
    EmptyAllowHost { context: String },
    NetworkExceedsCeiling {
        context: String,
        requested_mode: NetworkMode,
        requested_hosts: Vec<String>,
        ceiling_mode: NetworkMode,
        ceiling_hosts: Vec<String>,
    },
    MountPolicyMissing { context: String },
    MountOutsideCeiling { context: String, host_path: String, workspace_path: String, mode: MountMode },
    PathEmpty { field: String },
    PathNotAbsolute { field: String, path: String },
    PathHasParentDir { field: String, path: String },
    CommandEmpty { context: String },
    CommandNotAllowed { context: String, program: String, allowed: Vec<String> },
    AllowEntryEmpty,
    AllowEntryInvalid { entry: String },
    TemplateRejectsHosts { template: String },
    UnknownTemplate { kind: String },
}

/// The content of a `PermissionError`, as text.
pub enum PermissionIssue {
    EmptyAllowHost { context: Seq<char> },
    NetworkExceedsCeiling {
        context: Seq<char>,
        requested_mode: NetworkMode,
        requested_hosts: Seq<Seq<char>>,
        ceiling_mode: NetworkMode,
        ceiling_hosts: Seq<Seq<char>>,
    },
    MountPolicyMissing { context: Seq<char> },
    MountOutsideCeiling {
        context: Seq<char>,
        host_path: Seq<char>,
        workspace_path: Seq<char>,
        mode: MountMode,
    },
    PathEmpty { field: Seq<char> },
    PathNotAbsolute { field: Seq<char>, path: Seq<char> },
    PathHasParentDir { field: Seq<char>, path: Seq<char> },
    CommandEmpty { context: Seq<char> },
    CommandNotAllowed { context: Seq<char>, program: Seq<char>, allowed: Seq<Seq<char>> },
    AllowEntryEmpty,
    AllowEntryInvalid { entry: Seq<char> },
    TemplateRejectsHosts { template: Seq<char> },
    UnknownTemplate { kind: Seq<char> },
}

impl View for PermissionError {
    type V = PermissionIssue;

    open spec fn view(&self) -> PermissionIssue {
        match self {
            PermissionError::EmptyAllowHost { context } => PermissionIssue::EmptyAllowHost {
                context: context@,
            },
            PermissionError::NetworkExceedsCeiling {
                context,
                requested_mode,
                requested_hosts,
                ceiling_mode,
                ceiling_hosts,
            } => PermissionIssue::NetworkExceedsCeiling {
                context: context@,
                requested_mode: *requested_mode,
                requested_hosts: strs(requested_hosts@),
                ceiling_mode: *ceiling_mode,
                ceiling_hosts: strs(ceiling_hosts@),
            },
            PermissionError::MountPolicyMissing { context } => PermissionIssue::MountPolicyMissing {
                context: context@,
            },
            PermissionError::MountOutsideCeiling { context, host_path, workspace_path, mode } =>
                PermissionIssue::MountOutsideCeiling {
                context: context@,
                host_path: host_path@,
                workspace_path: workspace_path@,
                mode: *mode,
            },
            PermissionError::PathEmpty { field } => PermissionIssue::PathEmpty { field: field@ },
            PermissionError::PathNotAbsolute { field, path } => PermissionIssue::PathNotAbsolute {
                field: field@,
                path: path@,
            },
            PermissionError::PathHasParentDir { field, path } => PermissionIssue::PathHasParentDir {
                field: field@,
                path: path@,
            },
            PermissionError::CommandEmpty { context } => PermissionIssue::CommandEmpty {
                context: context@,
            },
            PermissionError::CommandNotAllowed { context, program, allowed } =>
                PermissionIssue::CommandNotAllowed {
                context: context@,
                program: program@,
                allowed: strs(allowed@),
            },
            PermissionError::AllowEntryEmpty => PermissionIssue::AllowEntryEmpty,
            PermissionError::AllowEntryInvalid { entry } => PermissionIssue::AllowEntryInvalid {
                entry: entry@,
            },
            PermissionError::TemplateRejectsHosts { template } =>
                PermissionIssue::TemplateRejectsHosts { template: template@ },
            PermissionError::UnknownTemplate { kind } => PermissionIssue::UnknownTemplate {
                kind: kind@,
            },
        }
    }
}

/// The outcome of a check, by content.
pub open spec fn outcome(r: Result<(), PermissionError>) -> Option<PermissionIssue> {
    match r {
        Ok(()) => None,
        Err(e) => Some(e@),
    }
}

/// The name a network mode has in permission files.
pub open spec fn network_mode_name(mode: NetworkMode) -> Seq<char> {
    match mode {
        NetworkMode::InheritHost => "inherit_host"@,
        NetworkMode::Disabled => "disabled"@,
        NetworkMode::LocalOnly => "local_only"@,
        NetworkMode::Allowlist => "allowlist"@,
    }
}

/// The name a mount mode has in permission files.
pub open spec fn mount_mode_name(mode: MountMode) -> Seq<char> {
    match mode {
        MountMode::ReadOnly => "read_only"@,
        MountMode::ReadWrite => "read_write"@,
    }
}

impl PermissionIssue {
    /// The message shown for this issue.
    pub open spec fn text(self) -> Seq<char> {
        match self {
            PermissionIssue::EmptyAllowHost { context } => context
                + " contains an empty network allow_hosts entry"@,
            PermissionIssue::NetworkExceedsCeiling {
                context,
                requested_mode,
                requested_hosts,
                ceiling_mode,
                ceiling_hosts,
            } => context + " requests network.mode="@ + network_mode_name(requested_mode)
                + " with allow_hosts=["@ + join(requested_hosts, ", "@)
                + "], which exceeds MCP permission ceiling network.mode="@ + network_mode_name(
                ceiling_mode,
            ) + " with allow_hosts=["@ + join(ceiling_hosts, ", "@) + "]"@,
            PermissionIssue::MountPolicyMissing { context } => context
                + " does not request a mount policy, but the MCP permission ceiling limits file access"@,
            PermissionIssue::MountOutsideCeiling { context, host_path, workspace_path, mode } =>
                context + " requests mount "@ + host_path + " -> "@ + workspace_path + " ("@
                + mount_mode_name(mode) + ") outside the MCP permission ceiling"@,
            PermissionIssue::PathEmpty { field } => field + " cannot be empty"@,
            PermissionIssue::PathNotAbsolute { field, path } => field + " "@ + path
                + " must be absolute"@,
            PermissionIssue::PathHasParentDir { field, path } => field + " "@ + path
                + " cannot contain '..'"@,
            PermissionIssue::CommandEmpty { context } => context
                + " is empty and cannot be matched against MCP app allowlist"@,
            PermissionIssue::CommandNotAllowed { context, program, allowed } => context
                + " program "@ + debug_text(program) + " is not allowed by the MCP app allowlist ["@ + join(
                allowed,
                ", "@,
            ) + "]"@,
            PermissionIssue::AllowEntryEmpty => "MCP app allowlist entries cannot be empty"@,
            PermissionIssue::AllowEntryInvalid { entry } => "MCP app allowlist entry "@ + entry
                + " must be an absolute path or a single command name"@,
            PermissionIssue::TemplateRejectsHosts { template } => "permissions template "@
                + template + " does not accept --allow-host"@,
            PermissionIssue::UnknownTemplate { kind } => "unknown permissions template "@
                + debug_text(kind) + ". Expected: open, closed, or local"@,
        }
    }
}

fn network_mode_text(mode: NetworkMode) -> (r: &'static str)
    ensures
        r@ == network_mode_name(mode),
{
    match mode {
        NetworkMode::InheritHost => "inherit_host",
        NetworkMode::Disabled => "disabled",
        NetworkMode::LocalOnly => "local_only",
        NetworkMode::Allowlist => "allowlist",
    }
}

fn mount_mode_text(mode: MountMode) -> (r: &'static str)
    ensures
        r@ == mount_mode_name(mode),
{
    match mode {
        MountMode::ReadOnly => "read_only",
        MountMode::ReadWrite => "read_write",
    }
}

impl PermissionError {
    /// The message for this error.
    pub fn message(&self) -> (r: String)
        ensures
            r@ == self@.text(),
    {
        match self {
            PermissionError::EmptyAllowHost { context } => concat2(
                context.as_str(),
                " contains an empty network allow_hosts entry",
            ),
            PermissionError::NetworkExceedsCeiling {
                context,
                requested_mode,
                requested_hosts,
                ceiling_mode,
                ceiling_hosts,
            } => {
                let mut s = String::from_str(context.as_str());
                s.append(" requests network.mode=");
                s.append(network_mode_text(*requested_mode));
                s.append(" with allow_hosts=[");
                s.append(join_strings(requested_hosts, ", ").as_str());
                s.append("], which exceeds MCP permission ceiling network.mode=");
                s.append(network_mode_text(*ceiling_mode));
                s.append(" with allow_hosts=[");
                s.append(join_strings(ceiling_hosts, ", ").as_str());
                s.append("]");
                s
            },
            PermissionError::MountPolicyMissing { context } => concat2(
                context.as_str(),
                " does not request a mount policy, but the MCP permission ceiling limits file access",
            ),
            PermissionError::MountOutsideCeiling { context, host_path, workspace_path, mode } => {
                let mut s = String::from_str(context.as_str());
                s.append(" requests mount ");
                s.append(host_path.as_str());
                s.append(" -> ");
                s.append(workspace_path.as_str());
                s.append(" (");
                s.append(mount_mode_text(*mode));
                s.append(") outside the MCP permission ceiling");
                s
            },
            PermissionError::PathEmpty { field } => concat2(field.as_str(), " cannot be empty"),
            PermissionError::PathNotAbsolute { field, path } => {
                let mut s = concat3(field.as_str(), " ", path.as_str());
                s.append(" must be absolute");
                s
            },
            PermissionError::PathHasParentDir { field, path } => {
                let mut s = concat3(field.as_str(), " ", path.as_str());
                s.append(" cannot contain '..'");
                s
            },
            PermissionError::CommandEmpty { context } => concat2(
                context.as_str(),
                " is empty and cannot be matched against MCP app allowlist",
            ),
            PermissionError::CommandNotAllowed { context, program, allowed } => {
                let q = debug_quoted(program.as_str());
                let mut s = concat3(context.as_str(), " program ", q.as_str());
                s.append(" is not allowed by the MCP app allowlist [");
                s.append(join_strings(allowed, ", ").as_str());
                s.append("]");
                s
            },
            PermissionError::AllowEntryEmpty => owned("MCP app allowlist entries cannot be empty"),
            PermissionError::AllowEntryInvalid { entry } => concat3(
                "MCP app allowlist entry ",
                entry.as_str(),
                " must be an absolute path or a single command name",
            ),
            PermissionError::TemplateRejectsHosts { template } => concat3(
                "permissions template ",
                template.as_str(),
                " does not accept --allow-host",
            ),
            PermissionError::UnknownTemplate { kind } => {
                let q = debug_quoted(kind.as_str());
                concat3("unknown permissions template ", q.as_str(), ". Expected: open, closed, or local")
            },
        }
    }
}

// ---------------------------------------------------------------------------
// Network

/// A host as the ceiling compares it: trimmed and ASCII-lowercased.
pub open spec fn norm_host(h: Seq<char>) -> Seq<char> {
    lower_seq(trim(h))
}

/// Some ceiling host normalizes to the same host.
pub open spec fn host_listed(h: Seq<char>, ceiling: Seq<String>) -> bool {
    exists|j: int| 0 <= j < ceiling.len() && norm_host(#[trigger] ceiling[j]@) == norm_host(h)
}

/// Every requested host that is not blank is listed by the ceiling.
pub open spec fn hosts_subset(requested: Seq<String>, ceiling: Seq<String>) -> bool {
    forall|i: int|
        0 <= i < requested.len() && norm_host(#[trigger] requested[i]@).len() > 0 ==> host_listed(
            requested[i]@,
            ceiling,
        )
}

/// The requested network is no broader than the ceiling: disabled fits every
/// restricted ceiling, local-only fits local-only and allowlist ceilings, and an
/// allowlist fits an allowlist ceiling; host lists must be subsets.
pub open spec fn network_within(ceiling: NetworkPolicy, requested: NetworkPolicy) -> bool {
    match ceiling.mode {
        NetworkMode::InheritHost => true,
        NetworkMode::Disabled => requested.mode == NetworkMode::Disabled,
        NetworkMode::LocalOnly => requested.mode == NetworkMode::Disabled || (requested.mode
            == NetworkMode::LocalOnly && hosts_subset(
            requested.allow_hosts@,
            ceiling.allow_hosts@,
        )),
        NetworkMode::Allowlist => requested.mode == NetworkMode::Disabled || requested.mode
            == NetworkMode::LocalOnly || (requested.mode == NetworkMode::Allowlist && hosts_subset(
            requested.allow_hosts@,
            ceiling.allow_hosts@,
        )),
    }
}

/// A local-only or allowlist policy lists a blank host.
pub open spec fn has_blank_host(network: NetworkPolicy) -> bool {
    (network.mode == NetworkMode::LocalOnly || network.mode == NetworkMode::Allowlist) && exists|
        i: int,
    | 0 <= i < network.allow_hosts@.len() && all_ws(#[trigger] network.allow_hosts@[i]@)
}

/// The hosts of a network policy are well formed.
pub open spec fn network_hosts_issue(network: NetworkPolicy, context: Seq<char>) -> Option<
    PermissionIssue,
> {
    if has_blank_host(network) {
        Some(PermissionIssue::EmptyAllowHost { context })
    } else {
        None
    }
}

/// How a requested network fares against the ceiling.
pub open spec fn network_issue(
    ceiling: Option<NetworkPolicy>,
    requested: NetworkPolicy,
    context: Seq<char>,
) -> Option<PermissionIssue> {
    match ceiling {
        None => None,
        Some(c) => if has_blank_host(requested) {
            Some(PermissionIssue::EmptyAllowHost { context })
        } else if network_within(c, requested) {
            None
        } else {
            Some(
                PermissionIssue::NetworkExceedsCeiling {
                    context,
                    requested_mode: requested.mode,
                    requested_hosts: strs(requested.allow_hosts@),
                    ceiling_mode: c.mode,
                    ceiling_hosts: strs(c.allow_hosts@),
                },
            )
        },
    }
}

/// `host.trim().to_ascii_lowercase()`.
pub fn normalize_host(h: &str) -> (r: Vec<char>)
    ensures
        r@ == norm_host(h@),
{
    let t = trim_str(h);
    lower_chars(t.as_str())
}

fn host_listed_exec(h: &Vec<char>, ceiling: &Vec<String>) -> (r: bool)
    ensures
        r == (exists|j: int| 0 <= j < ceiling@.len() && norm_host(#[trigger] ceiling@[j]@) == h@),
{
    let mut j: usize = 0;
    while j < ceiling.len()
        invariant
            j <= ceiling@.len(),
            forall|k: int| 0 <= k < j ==> norm_host(#[trigger] ceiling@[k]@) != h@,
        decreases ceiling.len() - j,
    {
        let c = normalize_host(ceiling[j].as_str());
        if chars_eq(&c, h) {
            return true;
        }
        j += 1;
    }
    false
}

/// Whether every non-blank requested host appears in the ceiling (after normalizing).
pub fn host_subset(requested: &Vec<String>, ceiling: &Vec<String>) -> (r: bool)
    ensures
        r == hosts_subset(requested@, ceiling@),
{
    let mut i: usize = 0;
    while i < requested.len()
        invariant
            i <= requested@.len(),
            forall|k: int|
                0 <= k < i && norm_host(#[trigger] requested@[k]@).len() > 0 ==> host_listed(
                    requested@[k]@,
                    ceiling@,
                ),
        decreases requested.len() - i,
    {
        let h = normalize_host(requested[i].as_str());
        if h.len() > 0 {
            if !host_listed_exec(&h, ceiling) {
                assert(!host_listed(requested@[i as int]@, ceiling@));
                return false;
            }
        }
        i += 1;
    }
    true
}

/// Whether the requested network is within the ceiling network.
pub fn network_within_ceiling(ceiling: &NetworkPolicy, requested: &NetworkPolicy) -> (r: bool)
    ensures
        r == network_within(*ceiling, *requested),
{
    match ceiling.mode {
        NetworkMode::InheritHost => true,
        NetworkMode::Disabled => requested.mode == NetworkMode::Disabled,
        NetworkMode::LocalOnly => {
            requested.mode == NetworkMode::Disabled || (requested.mode == NetworkMode::LocalOnly
                && host_subset(&requested.allow_hosts, &ceiling.allow_hosts))
        },
        NetworkMode::Allowlist => {
            requested.mode == NetworkMode::Disabled || requested.mode == NetworkMode::LocalOnly || (
            requested.mode == NetworkMode::Allowlist && host_subset(
                &requested.allow_hosts,
                &ceiling.allow_hosts,
            ))
        },
    }
}

/// Rejects a blank host in a local-only or allowlist policy.
pub fn validate_network_hosts(network: &NetworkPolicy, context: &str) -> (r: Result<
    (),
    PermissionError,
>)
    ensures
        outcome(r) == network_hosts_issue(*network, context@),
{
    if network.mode == NetworkMode::LocalOnly || network.mode == NetworkMode::Allowlist {
        let mut i: usize = 0;
        while i < network.allow_hosts.len()
            invariant
                i <= network.allow_hosts@.len(),
                network.mode == NetworkMode::LocalOnly || network.mode == NetworkMode::Allowlist,
                forall|k: int| 0 <= k < i ==> !all_ws(#[trigger] network.allow_hosts@[k]@),
            decreases network.allow_hosts.len() - i,
        {
            if is_blank(network.allow_hosts[i].as_str()) {
                assert(all_ws(network.allow_hosts@[i as int]@));
                return Err(PermissionError::EmptyAllowHost { context: owned(context) });
            }
            i += 1;
        }
    }
    Ok(())
}

// ---------------------------------------------------------------------------
// Paths and mounts

/// What is wrong with a path that must be absolute and free of `..`.
pub open spec fn absolute_path_issue(path: Seq<char>, field: Seq<char>) -> Option<PermissionIssue> {
    if path.len() == 0 {
        Some(PermissionIssue::PathEmpty { field })
    } else if !is_absolute(path) {
        Some(PermissionIssue::PathNotAbsolute { field, path })
    } else if has_parent_dir(path) {
        Some(PermissionIssue::PathHasParentDir { field, path })
    } else {
        None
    }
}

/// Checks that a path is non-empty, absolute and free of `..` components.
pub fn validate_absolute_path(path: &str, field: &str) -> (r: Result<(), PermissionError>)
    ensures
        outcome(r) == absolute_path_issue(path@, field@),
{
    if path.unicode_len() == 0 {
        return Err(PermissionError::PathEmpty { field: owned(field) });
    }
    if !is_absolute_path(path) {
        return Err(PermissionError::PathNotAbsolute { field: owned(field), path: owned(path) });
    }
    if path_has_parent_dir(path) {
        return Err(PermissionError::PathHasParentDir { field: owned(field), path: owned(path) });
    }
    Ok(())
}

/// The requested mount lies inside the allowed one with no more access.
pub open spec fn mount_within(allowed: ProfileMount, requested: ProfileMount) -> bool {
    &&& path_starts_with(requested.host_path@, allowed.host_path@)
    &&& path_starts_with(requested.workspace_path@, allowed.workspace_path@)
    &&& (allowed.mode == MountMode::ReadWrite || requested.mode == MountMode::ReadOnly)
}

/// Some ceiling mount covers the requested mount.
pub open spec fn mount_covered(allowed: Seq<ProfileMount>, requested: ProfileMount) -> bool {
    exists|j: int| 0 <= j < allowed.len() && mount_within(#[trigger] allowed[j], requested)
}

/// What is wrong with one requested mount.
pub open spec fn requested_mount_issue(
    allowed: Seq<ProfileMount>,
    m: ProfileMount,
    context: Seq<char>,
) -> Option<PermissionIssue> {
    match absolute_path_issue(m.host_path@, "requested mount host_path"@) {
        Some(e) => Some(e),
        None => match absolute_path_issue(m.workspace_path@, "requested mount workspace_path"@) {
            Some(e) => Some(e),
            None => if mount_covered(allowed, m) {
                None
            } else {
                Some(
                    PermissionIssue::MountOutsideCeiling {
                        context,
                        host_path: m.host_path@,
                        workspace_path: m.workspace_path@,
                        mode: m.mode,
                    },
                )
            },
        },
    }
}

/// How requested mounts fare against the ceiling mounts.
pub open spec fn mounts_issue(
    allowed: Seq<ProfileMount>,
    requested: Seq<ProfileMount>,
    context: Seq<char>,
) -> Option<PermissionIssue> {
    if allowed.len() == 0 {
        None
    } else if requested.len() == 0 {
        Some(PermissionIssue::MountPolicyMissing { context })
    } else {
        first_issue(requested, |m: ProfileMount| requested_mount_issue(allowed, m, context))
    }
}

/// Whether the requested mount lies inside the allowed mount.
pub fn mount_within_exec(allowed: &ProfileMount, requested: &ProfileMount) -> (r: bool)
    ensures
        r == mount_within(*allowed, *requested),
{
    path_starts_with_str(requested.host_path.as_str(), allowed.host_path.as_str())
        && path_starts_with_str(requested.workspace_path.as_str(), allowed.workspace_path.as_str())
        && (allowed.mode == MountMode::ReadWrite || requested.mode == MountMode::ReadOnly)
}

fn mount_covered_exec(allowed: &Vec<ProfileMount>, requested: &ProfileMount) -> (r: bool)
    ensures
        r == mount_covered(allowed@, *requested),
{
    let mut j: usize = 0;
    while j < allowed.len()
        invariant
            j <= allowed@.len(),
            forall|k: int| 0 <= k < j ==> !mount_within(#[trigger] allowed@[k], *requested),
        decreases allowed.len() - j,
    {
        if mount_within_exec(&allowed[j], requested) {
            return true;
        }
        j += 1;
    }
    false
}

fn check_requested_mount(allowed: &Vec<ProfileMount>, m: &ProfileMount, context: &str) -> (r: Result<
    (),
    PermissionError,
>)
    ensures
        outcome(r) == requested_mount_issue(allowed@, *m, context@),
{
    validate_absolute_path(m.host_path.as_str(), "requested mount host_path")?;
    validate_absolute_path(m.workspace_path.as_str(), "requested mount workspace_path")?;
    if mount_covered_exec(allowed, m) {
        Ok(())
    } else {
        Err(
            PermissionError::MountOutsideCeiling {
                context: owned(context),
                host_path: m.host_path.clone(),
                workspace_path: m.workspace_path.clone(),
                mode: m.mode,
            },
        )
    }
}

// ---------------------------------------------------------------------------
// Commands

/// The value recorded for `key` in a list of pairs (first match).
pub open spec fn lookup(entries: Seq<(String, String)>, key: Seq<char>) -> Option<Seq<char>>
    decreases entries.len(),
{
    if entries.len() == 0 {
        None
    } else if entries[0].0@ == key {
        Some(entries[0].1@)
    } else {
        lookup(entries.drop_first(), key)
    }
}

/// Two paths name the same file: equal as paths, or equal once canonicalized.
pub open spec fn paths_equivalent(host: HostLookup, a: Seq<char>, b: Seq<char>) -> bool {
    path_eq(a, b) || match (lookup(host.canonical_paths@, a), lookup(host.canonical_paths@, b)) {
        (Some(ca), Some(cb)) => path_eq(ca, cb),
        _ => false,
    }
}

/// Where a program would be found: a path as written when it holds `/`, else the
/// search-path result.
pub open spec fn resolve_program(host: HostLookup, program: Seq<char>) -> Option<Seq<char>> {
    if program.contains('/') {
        Some(program)
    } else {
        lookup(host.command_paths@, program)
    }
}

/// A program matches an allowlist entry: an absolute entry by the file the program
/// resolves to, a bare entry by name.
pub open spec fn command_matches_entry(host: HostLookup, program: Seq<char>, allowed: Seq<char>) -> bool {
    if is_absolute(allowed) {
        match resolve_program(host, program) {
            Some(p) => paths_equivalent(host, p, allowed),
            None => false,
        }
    } else {
        program == allowed
    }
}

/// How a command fares against the app allowlist.
pub open spec fn command_issue(
    allow: Seq<String>,
    command: Seq<String>,
    context: Seq<char>,
    host: HostLookup,
) -> Option<PermissionIssue> {
    if allow.len() == 0 {
        None
    } else if command.len() == 0 || all_ws(command[0]@) {
        Some(PermissionIssue::CommandEmpty { context })
    } else if exists|j: int|
        0 <= j < allow.len() && command_matches_entry(host, command[0]@, #[trigger] allow[j]@) {
        None
    } else {
        Some(
            PermissionIssue::CommandNotAllowed {
                context,
                program: command[0]@,
                allowed: strs(allow),
            },
        )
    }
}

fn lookup_exec(entries: &Vec<(String, String)>, key: &str) -> (r: Option<String>)
    ensures
        opt_view(r) == lookup(entries@, key@),
{
    let mut i: usize = 0;
    assert(entries@.subrange(0, entries@.len() as int) =~= entries@);
    while i < entries.len()
        invariant
            i <= entries@.len(),
            lookup(entries@.subrange(i as int, entries@.len() as int), key@) == lookup(
                entries@,
                key@,
            ),
        decreases entries.len() - i,
    {
        let ghost rest = entries@.subrange(i as int, entries@.len() as int);
        if entries[i].0.as_str().unicode_len() == key.unicode_len() && str_eq(
            entries[i].0.as_str(),
            key,
        ) {
            assert(rest[0] == entries@[i as int]);
            return Some(entries[i].1.clone());
        }
        assert(rest.drop_first() =~= entries@.subrange(i + 1, entries@.len() as int));
        i += 1;
    }
    None
}

/// Two strings with the same characters.
pub fn str_eq(a: &str, b: &str) -> (r: bool)
    ensures
        r == (a@ == b@),
{
    let n = a.unicode_len();
    if n != b.unicode_len() {
        return false;
    }
    let mut i: usize = 0;
    while i < n
        invariant
            n == a@.len(),
            n == b@.len(),
            i <= n,
            forall|k: int| 0 <= k < i ==> a@[k] == b@[k],
        decreases n - i,
    {
        if a.get_char(i) != b.get_char(i) {
            return false;
        }
        i += 1;
    }
    assert(a@ =~= b@);
    true
}

/// Whether two paths name the same file.
pub fn paths_equivalent_exec(host: &HostLookup, a: &str, b: &str) -> (r: bool)
    ensures
        r == paths_equivalent(*host, a@, b@),
{
    if path_eq_str(a, b) {
        return true;
    }
    let ca = lookup_exec(&host.canonical_paths, a);
    let cb = lookup_exec(&host.canonical_paths, b);
    match (ca, cb) {
        (Some(x), Some(y)) => path_eq_str(x.as_str(), y.as_str()),
        _ => false,
    }
}

/// Whether a program matches one allowlist entry.
pub fn command_matches_allow_entry(host: &HostLookup, program: &str, allowed: &str) -> (r: bool)
    ensures
        r == command_matches_entry(*host, program@, allowed@),
{
    if is_absolute_path(allowed) {
        let resolved = if contains_char(program, '/') {
            Some(owned(program))
        } else {
            lookup_exec(&host.command_paths, program)
        };
        match resolved {
            Some(p) => paths_equivalent_exec(host, p.as_str(), allowed),
            None => false,
        }
    } else {
        str_eq(program, allowed)
    }
}

// ---------------------------------------------------------------------------
// The ceiling

/// A ceiling restricts something: a non-inherit network, mounts, or an app list.
pub open spec fn ceiling_restricted(c: McpPermissionCeiling) -> bool {
    (c.network matches Some(n) && n.mode != NetworkMode::InheritHost) || c.mounts@.len() > 0
        || c.apps.allow@.len() > 0
}

/// What is wrong with one app allowlist entry.
pub open spec fn allow_entry_issue(entry: Seq<char>) -> Option<PermissionIssue> {
    if entry.len() == 0 {
        Some(PermissionIssue::AllowEntryEmpty)
    } else if is_absolute(entry) {
        absolute_path_issue(entry, "MCP app allowlist entry"@)
    } else if is_single_name(entry) {
        None
    } else {
        Some(PermissionIssue::AllowEntryInvalid { entry })
    }
}

/// What is wrong with one ceiling mount.
pub open spec fn ceiling_mount_issue(m: ProfileMount) -> Option<PermissionIssue> {
    match absolute_path_issue(m.host_path@, "MCP permission mount host_path"@) {
        Some(e) => Some(e),
        None => absolute_path_issue(m.workspace_path@, "MCP permission mount workspace_path"@),
    }
}

/// What is wrong with a ceiling: blank hosts, bad mount paths, bad allowlist entries.
pub open spec fn config_issue(c: McpPermissionCeiling) -> Option<PermissionIssue> {
    let net = match c.network {
        Some(n) => network_hosts_issue(n, "MCP permission network"@),
        None => None,
    };
    config_issue_parts(net, c.mounts@, c.apps.allow@)
}

/// The checks of a ceiling after its network: mount paths, then allowlist entries.
pub open spec fn config_issue_parts(
    net: Option<PermissionIssue>,
    mounts: Seq<ProfileMount>,
    allow: Seq<String>,
) -> Option<PermissionIssue> {
    match net {
        Some(e) => Some(e),
        None => match first_issue(mounts, |m: ProfileMount| ceiling_mount_issue(m)) {
            Some(e) => Some(e),
            None => first_issue(allow, |s: String| allow_entry_issue(s@)),
        },
    }
}

/// What is wrong with the ceiling a template would build.
pub open spec fn template_issue(
    kind: Seq<char>,
    allow_hosts: Vec<String>,
    mounts: Seq<ProfileMount>,
    apps: Seq<String>,
) -> Option<PermissionIssue> {
    let net = if template_network(kind) == Some(NetworkMode::LocalOnly) {
        network_hosts_issue(
            NetworkPolicy { mode: NetworkMode::LocalOnly, allow_hosts },
            "MCP permission network"@,
        )
    } else {
        None
    };
    config_issue_parts(net, mounts, apps)
}

/// `fallback` when `first` is fine, else `first`.
pub open spec fn then_issue(first: Option<PermissionIssue>, fallback: Option<PermissionIssue>) -> Option<
    PermissionIssue,
> {
    match first {
        Some(e) => Some(e),
        None => fallback,
    }
}

/// How a profile fares against the ceiling: network, mounts, then each setup
/// command and startup app.
pub open spec fn profile_issue(c: McpPermissionCeiling, p: WorkspaceProfile, host: HostLookup) -> Option<
    PermissionIssue,
> {
    then_issue(
        network_issue(c.network, p.network, "profile network"@),
        then_issue(
            mounts_issue(c.mounts@, p.mounts@, "profile mounts"@),
            then_issue(
                first_issue(
                    p.setup_commands@,
                    |s: crate::profile::ProfileSetupCommand|
                        command_issue(c.apps.allow@, s.command@, "profile setup command"@, host),
                ),
                first_issue(
                    p.startup_apps@,
                    |a: crate::profile::ProfileStartupApp|
                        command_issue(c.apps.allow@, a.command@, "profile startup app"@, host),
                ),
            ),
        ),
    )
}

/// How an applied policy fares against the ceiling: network, then mounts.
pub open spec fn applied_policy_issue(
    c: McpPermissionCeiling,
    p: AppliedWorkspacePolicy,
    context: Seq<char>,
) -> Option<PermissionIssue> {
    then_issue(
        network_issue(c.network, p.network, context),
        mounts_issue(c.mounts@, p.mounts@, context),
    )
}

/// How a launch fares against the ceiling: its program, then its policy, or, with
/// no profile, no mounts and the host network.
pub open spec fn launch_issue(c: McpPermissionCeiling, spec: LaunchSpec, host: HostLookup) -> Option<
    PermissionIssue,
> {
    then_issue(
        command_issue(c.apps.allow@, spec.command@, "workspace launch command"@, host),
        match spec.applied_policy {
            Some(p) => applied_policy_issue(c, p, "workspace launch profile"@),
            None => then_issue(
                mounts_issue(c.mounts@, Seq::empty(), "workspace launch without profile"@),
                unprofiled_network_issue(c.network),
            ),
        },
    )
}

/// A launch without a profile asks for the host network with no hosts; only an
/// open or inherit-host ceiling admits it.
pub open spec fn unprofiled_network_issue(ceiling: Option<NetworkPolicy>) -> Option<PermissionIssue> {
    match ceiling {
        None => None,
        Some(c) => if c.mode == NetworkMode::InheritHost {
            None
        } else {
            Some(
                PermissionIssue::NetworkExceedsCeiling {
                    context: "workspace launch without profile"@,
                    requested_mode: NetworkMode::InheritHost,
                    requested_hosts: Seq::empty(),
                    ceiling_mode: c.mode,
                    ceiling_hosts: strs(c.allow_hosts@),
                },
            )
        },
    }
}

pub open spec fn state_message(configured: bool, restricted: bool) -> Seq<char> {
    if !configured {
        "No MCP permission ceiling is configured; the host/client session controls workspace permissions, including full-access sessions after hidden-workspace approval."@
    } else if !restricted {
        "MCP permission ceiling file is configured but does not restrict network, mounts, or app launches; the host/client session controls open dimensions."@
    } else {
        "MCP permission ceiling is active; clients may narrow these permissions but cannot broaden them."@
    }
}

impl McpPermissionCeiling {
    /// Whether this ceiling restricts anything.
    pub fn is_restricted(&self) -> (r: bool)
        ensures
            r == ceiling_restricted(*self),
    {
        let net = match &self.network {
            Some(n) => n.mode != NetworkMode::InheritHost,
            None => false,
        };
        net || self.mounts.len() > 0 || self.apps.allow.len() > 0
    }

    /// Checks that a requested network is within the ceiling.
    pub fn validate_network(&self, requested: &NetworkPolicy, context: &str) -> (r: Result<
        (),
        PermissionError,
    >)
        ensures
            outcome(r) == network_issue(self.network, *requested, context@),
    {
        match &self.network {
            None => Ok(()),
            Some(ceiling) => {
                validate_network_hosts(requested, context)?;
                if network_within_ceiling(ceiling, requested) {
                    Ok(())
                } else {
                    Err(
                        PermissionError::NetworkExceedsCeiling {
                            context: owned(context),
                            requested_mode: requested.mode,
                            requested_hosts: clone_strings(&requested.allow_hosts),
                            ceiling_mode: ceiling.mode,
                            ceiling_hosts: clone_strings(&ceiling.allow_hosts),
                        },
                    )
                }
            },
        }
    }

    /// Checks that every requested mount lies within a ceiling mount.
    pub fn validate_mounts(&self, requested: &Vec<ProfileMount>, context: &str) -> (r: Result<
        (),
        PermissionError,
    >)
        ensures
            outcome(r) == mounts_issue(self.mounts@, requested@, context@),
    {
        if self.mounts.len() == 0 {
            return Ok(());
        }
        if requested.len() == 0 {
            return Err(PermissionError::MountPolicyMissing { context: owned(context) });
        }
        let ghost f = |m: ProfileMount| requested_mount_issue(self.mounts@, m, context@);
        let mut i: usize = 0;
        proof {
            lemma_first_issue_ends(requested@, f);
        }
        while i < requested.len()
            invariant
                i <= requested@.len(),
                self.mounts@.len() > 0,
                requested@.len() > 0,
                f == (|m: ProfileMount| requested_mount_issue(self.mounts@, m, context@)),
                first_issue(requested@.subrange(0, i as int), f) is None,
            decreases requested.len() - i,
        {
            proof {
                lemma_first_issue_step(requested@, f, i as int);
            }
            let checked = check_requested_mount(&self.mounts, &requested[i], context);
            if checked.is_err() {
                proof {
                    lemma_first_issue_prefix(requested@, f, i + 1);
                }
                return checked;
            }
            i += 1;
        }
        proof {
            lemma_first_issue_ends(requested@, f);
        }
        Ok(())
    }

    /// Checks a command's program against the app allowlist.
    pub fn validate_command(&self, command: &Vec<String>, context: &str, host: &HostLookup) -> (r:
        Result<(), PermissionError>)
        ensures
            outcome(r) == command_issue(self.apps.allow@, command@, context@, *host),
    {
        if self.apps.allow.len() == 0 {
            return Ok(());
        }
        if command.len() == 0 || is_blank(command[0].as_str()) {
            return Err(PermissionError::CommandEmpty { context: owned(context) });
        }
        let program = command[0].as_str();
        let mut j: usize = 0;
        while j < self.apps.allow.len()
            invariant
                j <= self.apps.allow@.len(),
                self.apps.allow@.len() > 0,
                command@.len() > 0,
                !all_ws(command@[0]@),
                program@ == command@[0]@,
                forall|k: int|
                    0 <= k < j ==> !command_matches_entry(
                        *host,
                        program@,
                        #[trigger] self.apps.allow@[k]@,
                    ),
            decreases self.apps.allow.len() - j,
        {
            if command_matches_allow_entry(host, program, self.apps.allow[j].as_str()) {
                assert(command_matches_entry(*host, command@[0]@, self.apps.allow@[j as int]@));
                return Ok(());
            }
            j += 1;
        }
        Err(
            PermissionError::CommandNotAllowed {
                context: owned(context),
                program: owned(program),
                allowed: clone_strings(&self.apps.allow),
            },
        )
    }

    /// Checks that the ceiling itself is well formed.
    pub fn validate_config(&self) -> (r: Result<(), PermissionError>)
        ensures
            outcome(r) == config_issue(*self),
    {
        if let Some(network) = &self.network {
            validate_network_hosts(network, "MCP permission network")?;
        }
        let ghost f = |m: ProfileMount| ceiling_mount_issue(m);
        let mut i: usize = 0;
        proof {
            lemma_first_issue_ends(self.mounts@, f);
        }
        while i < self.mounts.len()
            invariant
                i <= self.mounts@.len(),
                f == (|m: ProfileMount| ceiling_mount_issue(m)),
                first_issue(self.mounts@.subrange(0, i as int), f) is None,
                match self.network {
                    Some(n) => network_hosts_issue(n, "MCP permission network"@) is None,
                    None => true,
                },
            decreases self.mounts.len() - i,
        {
            proof {
                lemma_first_issue_step(self.mounts@, f, i as int);
            }
            let a = validate_absolute_path(
                self.mounts[i].host_path.as_str(),
                "MCP permission mount host_path",
            );
            if a.is_err() {
                proof {
                    lemma_first_issue_prefix(self.mounts@, f, i + 1);
                }
                return a;
            }
            let b = validate_absolute_path(
                self.mounts[i].workspace_path.as_str(),
                "MCP permission mount workspace_path",
            );
            if b.is_err() {
                proof {
                    lemma_first_issue_prefix(self.mounts@, f, i + 1);
                }
                return b;
            }
            i += 1;
        }
        proof {
            lemma_first_issue_ends(self.mounts@, f);
        }
        let ghost g = |s: String| allow_entry_issue(s@);
        let mut j: usize = 0;
        proof {
            lemma_first_issue_ends(self.apps.allow@, g);
        }
        while j < self.apps.allow.len()
            invariant
                j <= self.apps.allow@.len(),
                g == (|s: String| allow_entry_issue(s@)),
                first_issue(self.apps.allow@.subrange(0, j as int), g) is None,
                first_issue(self.mounts@, |m: ProfileMount| ceiling_mount_issue(m)) is None,
                match self.network {
                    Some(n) => network_hosts_issue(n, "MCP permission network"@) is None,
                    None => true,
                },
            decreases self.apps.allow.len() - j,
        {
            proof {
                lemma_first_issue_step(self.apps.allow@, g, j as int);
            }
            let c = validate_allowed_command(self.apps.allow[j].as_str());
            if c.is_err() {
                proof {
                    lemma_first_issue_prefix(self.apps.allow@, g, j + 1);
                }
                return c;
            }
            j += 1;
        }
        proof {
            lemma_first_issue_ends(self.apps.allow@, g);
        }
        Ok(())
    }

    /// Checks a saved profile against the ceiling.
    pub fn validate_profile(&self, profile: &WorkspaceProfile, host: &HostLookup) -> (r: Result<
        (),
        PermissionError,
    >)
        ensures
            outcome(r) == profile_issue(*self, *profile, *host),
    {
        self.validate_network(&profile.network, "profile network")?;
        self.validate_mounts(&profile.mounts, "profile mounts")?;
        let ghost f = |s: crate::profile::ProfileSetupCommand|
            command_issue(self.apps.allow@, s.command@, "profile setup command"@, *host);
        let mut i: usize = 0;
        proof {
            lemma_first_issue_ends(profile.setup_commands@, f);
        }
        while i < profile.setup_commands.len()
            invariant
                i <= profile.setup_commands@.len(),
                network_issue(self.network, profile.network, "profile network"@) is None,
                mounts_issue(self.mounts@, profile.mounts@, "profile mounts"@) is None,
                f == (|s: crate::profile::ProfileSetupCommand|
                    command_issue(self.apps.allow@, s.command@, "profile setup command"@, *host)),
                first_issue(profile.setup_commands@.subrange(0, i as int), f) is None,
            decreases profile.setup_commands.len() - i,
        {
            proof {
                lemma_first_issue_step(profile.setup_commands@, f, i as int);
            }
            let c = self.validate_command(
                &profile.setup_commands[i].command,
                "profile setup command",
                host,
            );
            if c.is_err() {
                proof {
                    lemma_first_issue_prefix(profile.setup_commands@, f, i + 1);
                }
                return c;
            }
            i += 1;
        }
        proof {
            lemma_first_issue_ends(profile.setup_commands@, f);
        }
        let ghost g = |a: crate::profile::ProfileStartupApp|
            command_issue(self.apps.allow@, a.command@, "profile startup app"@, *host);
        let mut j: usize = 0;
        proof {
            lemma_first_issue_ends(profile.startup_apps@, g);
        }
        while j < profile.startup_apps.len()
            invariant
                j <= profile.startup_apps@.len(),
                network_issue(self.network, profile.network, "profile network"@) is None,
                mounts_issue(self.mounts@, profile.mounts@, "profile mounts"@) is None,
                first_issue(
                    profile.setup_commands@,
                    |s: crate::profile::ProfileSetupCommand|
                        command_issue(self.apps.allow@, s.command@, "profile setup command"@, *host),
                ) is None,
                g == (|a: crate::profile::ProfileStartupApp|
                    command_issue(self.apps.allow@, a.command@, "profile startup app"@, *host)),
                first_issue(profile.startup_apps@.subrange(0, j as int), g) is None,
            decreases profile.startup_apps.len() - j,
        {
            proof {
                lemma_first_issue_step(profile.startup_apps@, g, j as int);
            }
            let c = self.validate_command(&profile.startup_apps[j].command, "profile startup app", host);
            if c.is_err() {
                proof {
                    lemma_first_issue_prefix(profile.startup_apps@, g, j + 1);
                }
                return c;
            }
            j += 1;
        }
        proof {
            lemma_first_issue_ends(profile.startup_apps@, g);
        }
        Ok(())
    }

    /// Checks an applied policy (network, then mounts) against the ceiling.
    pub fn validate_applied_policy(&self, policy: &AppliedWorkspacePolicy, context: &str) -> (r:
        Result<(), PermissionError>)
        ensures
            outcome(r) == applied_policy_issue(*self, *policy, context@),
    {
        self.validate_network(&policy.network, context)?;
        self.validate_mounts(&policy.mounts, context)?;
        Ok(())
    }
}

/// Checks one app allowlist entry: an absolute path, or a single command name.
pub fn validate_allowed_command(entry: &str) -> (r: Result<(), PermissionError>)
    ensures
        outcome(r) == allow_entry_issue(entry@),
{
    if entry.unicode_len() == 0 {
        return Err(PermissionError::AllowEntryEmpty);
    }
    if is_absolute_path(entry) {
        validate_absolute_path(entry, "MCP app allowlist entry")?;
        return Ok(());
    }
    if path_is_single_name(entry) {
        return Ok(());
    }
    Err(PermissionError::AllowEntryInvalid { entry: owned(entry) })
}

impl Default for McpPermissionState {
    fn default() -> (r: Self)
        ensures
            !r.configured,
            !r.restricted,
            r.source is None,
            r.ceiling.network is None && r.ceiling.mounts@.len() == 0
                && r.ceiling.apps.allow@.len() == 0,
            r.message@ == state_message(false, false),
    {
        McpPermissionState::from_ceiling(None, McpPermissionCeiling::default())
    }
}

impl McpPermissionState {
    /// The state of a server: a ceiling applies only when it was loaded from a file.
    pub fn from_ceiling(source: Option<String>, ceiling: McpPermissionCeiling) -> (r: Self)
        ensures
            r.configured == (source is Some),
            r.source == source,
            source is Some ==> r.ceiling == ceiling,
            source is None ==> (r.ceiling.network is None && r.ceiling.mounts@.len() == 0
                && r.ceiling.apps.allow@.len() == 0),
            r.restricted == ceiling_restricted(r.ceiling),
            r.message@ == state_message(r.configured, r.restricted),
    {
        let configured = source.is_some();
        let ceiling = if configured {
            ceiling
        } else {
            McpPermissionCeiling::default()
        };
        let restricted = ceiling.is_restricted();
        let message = if !configured {
            owned(
                "No MCP permission ceiling is configured; the host/client session controls workspace permissions, including full-access sessions after hidden-workspace approval.",
            )
        } else if !restricted {
            owned(
                "MCP permission ceiling file is configured but does not restrict network, mounts, or app launches; the host/client session controls open dimensions.",
            )
        } else {
            owned(
                "MCP permission ceiling is active; clients may narrow these permissions but cannot broaden them.",
            )
        };
        McpPermissionState { configured, restricted, source, ceiling, message }
    }

    /// The state of a server started without a permissions file.
    pub fn unconfigured() -> (r: Self)
        ensures
            !r.configured,
            !r.restricted,
            r.source is None,
            r.ceiling.network is None && r.ceiling.mounts@.len() == 0
                && r.ceiling.apps.allow@.len() == 0,
            r.message@ == state_message(false, false),
    {
        McpPermissionState::from_ceiling(None, McpPermissionCeiling::default())
    }

    /// Checks a saved profile against the ceiling.
    pub fn validate_profile(&self, profile: &WorkspaceProfile, host: &HostLookup) -> (r: Result<
        (),
        PermissionError,
    >)
        ensures
            outcome(r) == profile_issue(self.ceiling, *profile, *host),
    {
        self.ceiling.validate_profile(profile, host)
    }

    /// Checks the policy a workspace start would apply.
    pub fn validate_start_options(&self, options: &WorkspaceStartOptions) -> (r: Result<
        (),
        PermissionError,
    >)
        ensures
            outcome(r) == match options.applied_policy {
                Some(p) => applied_policy_issue(self.ceiling, p, "workspace start profile"@),
                None => None,
            },
    {
        if let Some(policy) = &options.applied_policy {
            self.ceiling.validate_applied_policy(policy, "workspace start profile")?;
        }
        Ok(())
    }

    /// Checks a launch: its program, then its policy or, without a profile, the
    /// defaults a launch without a profile gets (no mounts, host network).
    pub fn validate_launch_spec(&self, spec: &LaunchSpec, host: &HostLookup) -> (r: Result<
        (),
        PermissionError,
    >)
        ensures
            outcome(r) == launch_issue(self.ceiling, *spec, *host),
    {
        self.ceiling.validate_command(&spec.command, "workspace launch command", host)?;
        if let Some(policy) = &spec.applied_policy {
            self.ceiling.validate_applied_policy(policy, "workspace launch profile")?;
        } else {
            let none: Vec<ProfileMount> = Vec::new();
            self.ceiling.validate_mounts(&none, "workspace launch without profile")?;
            let default_network = NetworkPolicy::default();
            proof {
                assert(!has_blank_host(default_network));
                assert(strs(default_network.allow_hosts@) =~= Seq::<Seq<char>>::empty());
                if self.ceiling.network is Some {
                    let c = self.ceiling.network->0;
                    assert(network_within(c, default_network) == (c.mode == NetworkMode::InheritHost));
                }
            }
            self.ceiling.validate_network(&default_network, "workspace launch without profile")?;
        }
        Ok(())
    }
}

/// The network of a permissions template, by kind.
pub open spec fn template_network(kind: Seq<char>) -> Option<NetworkMode> {
    if kind == "closed"@ || kind == "disabled"@ {
        Some(NetworkMode::Disabled)
    } else if kind == "local"@ || kind == "local-only"@ || kind == "local_only"@ {
        Some(NetworkMode::LocalOnly)
    } else {
        None
    }
}

/// The kind names a template.
pub open spec fn known_template(kind: Seq<char>) -> bool {
    kind == "open"@ || template_network(kind) is Some
}

/// Builds a starter ceiling: `open` leaves the network open, `closed` disables it,
/// `local` allows loopback with the given hosts. Only `local` accepts hosts.
pub fn template_permission_ceiling(
    kind: &str,
    allow_hosts: Vec<String>,
    mounts: Vec<ProfileMount>,
    apps: Vec<String>,
) -> (r: Result<McpPermissionCeiling, PermissionError>)
    ensures
        !known_template(kind@) ==> (r matches Err(e) && e@ == PermissionIssue::UnknownTemplate {
            kind: kind@,
        }),
        kind@ == "open"@ && allow_hosts@.len() > 0 ==> (r matches Err(e) && e@
            == PermissionIssue::TemplateRejectsHosts { template: "open"@ }),
        template_network(kind@) == Some(NetworkMode::Disabled) && allow_hosts@.len() > 0 ==> (r matches Err(
            e,
        ) && e@ == PermissionIssue::TemplateRejectsHosts { template: "closed"@ }),
        known_template(kind@) && !(template_network(kind@) != Some(NetworkMode::LocalOnly)
            && allow_hosts@.len() > 0) ==> match template_issue(kind@, allow_hosts, mounts@, apps@) {
            Some(e) => r matches Err(x) && x@ == e,
            None => r matches Ok(out) && out.mounts == mounts && out.apps.allow == apps && (
            match template_network(kind@) {
                None => out.network is None,
                Some(m) => out.network matches Some(n) && n.mode == m && (m
                    == NetworkMode::LocalOnly ==> n.allow_hosts == allow_hosts) && (m
                    != NetworkMode::LocalOnly ==> n.allow_hosts@.len() == 0),
            }),
        },
{
    proof {
        reveal_strlit("open");
        reveal_strlit("closed");
        reveal_strlit("disabled");
        reveal_strlit("local");
        reveal_strlit("local-only");
        reveal_strlit("local_only");
        assert("open"@.len() == 4 && "closed"@.len() == 6 && "disabled"@.len() == 8);
        assert("local"@.len() == 5 && "local-only"@.len() == 10 && "local_only"@.len() == 10);
        assert("local-only"@[5] != "local_only"@[5]);
    }
    let network: Option<NetworkPolicy>;
    if str_eq(kind, "open") {
        if allow_hosts.len() > 0 {
            return Err(PermissionError::TemplateRejectsHosts { template: owned("open") });
        }
        network = None;
    } else if str_eq(kind, "closed") || str_eq(kind, "disabled") {
        if allow_hosts.len() > 0 {
            return Err(PermissionError::TemplateRejectsHosts { template: owned("closed") });
        }
        network = Some(NetworkPolicy { mode: NetworkMode::Disabled, allow_hosts: Vec::new() });
    } else if str_eq(kind, "local") || str_eq(kind, "local-only") || str_eq(kind, "local_only") {
        network = Some(NetworkPolicy { mode: NetworkMode::LocalOnly, allow_hosts });
    } else {
        return Err(PermissionError::UnknownTemplate { kind: owned(kind) });
    }
    let ceiling = McpPermissionCeiling { network, mounts, apps: AppPermissionCeiling { allow: apps } };
    ceiling.validate_config()?;
    Ok(ceiling)
}


// ---------------------------------------------------------------------------
// Laws of the ceiling

/// Every network fits a ceiling equal to itself.
pub proof fn law_network_within_reflexive(n: NetworkPolicy)
    ensures
        network_within(n, n),
{
    assert forall|i: int|
        0 <= i < n.allow_hosts@.len() && norm_host(#[trigger] n.allow_hosts@[i]@).len()
            > 0 implies host_listed(n.allow_hosts@[i]@, n.allow_hosts@) by {
        assert(norm_host(n.allow_hosts@[i]@) == norm_host(n.allow_hosts@[i]@));
    }
}

/// Host lists narrow transitively.
pub proof fn law_hosts_subset_transitive(a: Seq<String>, b: Seq<String>, c: Seq<String>)
    requires
        hosts_subset(a, b),
        hosts_subset(b, c),
    ensures
        hosts_subset(a, c),
{
    assert forall|i: int| 0 <= i < a.len() && norm_host(#[trigger] a[i]@).len() > 0 implies host_listed(
        a[i]@,
        c,
    ) by {
        assert(host_listed(a[i]@, b));
        let j = choose|j: int| 0 <= j < b.len() && norm_host(#[trigger] b[j]@) == norm_host(a[i]@);
        assert(norm_host(b[j]@).len() > 0);
        assert(host_listed(b[j]@, c));
    }
}

/// Narrowing composes: a network within a network that fits the ceiling fits the
/// ceiling too. Clients can narrow a granted network but never broaden it.
pub proof fn law_network_narrowing_transitive(
    ceiling: NetworkPolicy,
    granted: NetworkPolicy,
    narrowed: NetworkPolicy,
)
    requires
        network_within(ceiling, granted),
        network_within(granted, narrowed),
    ensures
        network_within(ceiling, narrowed),
{
    if granted.mode == NetworkMode::LocalOnly && narrowed.mode == NetworkMode::LocalOnly
        && ceiling.mode == NetworkMode::LocalOnly {
        law_hosts_subset_transitive(narrowed.allow_hosts@, granted.allow_hosts@, ceiling.allow_hosts@);
    }
    if granted.mode == NetworkMode::Allowlist && narrowed.mode == NetworkMode::Allowlist
        && ceiling.mode == NetworkMode::Allowlist {
        law_hosts_subset_transitive(narrowed.allow_hosts@, granted.allow_hosts@, ceiling.allow_hosts@);
    }
}

/// Every mount lies within itself.
pub proof fn law_mount_within_reflexive(m: ProfileMount)
    ensures
        mount_within(m, m),
{
    lemma_path_starts_with_reflexive(m.host_path@);
    lemma_path_starts_with_reflexive(m.workspace_path@);
}

/// A mount inside a mount inside an allowed mount is inside the allowed mount.
pub proof fn law_mount_narrowing_transitive(
    allowed: ProfileMount,
    granted: ProfileMount,
    narrowed: ProfileMount,
)
    requires
        mount_within(allowed, granted),
        mount_within(granted, narrowed),
    ensures
        mount_within(allowed, narrowed),
{
    lemma_path_starts_with_transitive(narrowed.host_path@, granted.host_path@, allowed.host_path@);
    lemma_path_starts_with_transitive(
        narrowed.workspace_path@,
        granted.workspace_path@,
        allowed.workspace_path@,
    );
}

/// A network the ceiling accepts is within the ceiling's network.
pub proof fn law_accepted_network_is_within(
    ceiling: McpPermissionCeiling,
    requested: NetworkPolicy,
    context: Seq<char>,
)
    requires
        network_issue(ceiling.network, requested, context) is None,
    ensures
        ceiling.network matches Some(c) ==> network_within(c, requested),
{
}

/// A narrowed network fits a ceiling that accepted the network it narrows, unless
/// it lists a blank host.
pub proof fn law_narrowed_network_accepted(
    ceiling: McpPermissionCeiling,
    granted: NetworkPolicy,
    narrowed: NetworkPolicy,
    context: Seq<char>,
)
    requires
        network_issue(ceiling.network, granted, context) is None,
        network_within(granted, narrowed),
        !has_blank_host(narrowed),
    ensures
        network_issue(ceiling.network, narrowed, context) is None,
{
    if ceiling.network is Some {
        law_network_narrowing_transitive(ceiling.network->0, granted, narrowed);
    }
}

/// Mounts that each lie within some mount the ceiling accepted are accepted too,
/// as long as their paths are well formed.
pub proof fn law_narrowed_mounts_accepted(
    ceiling: McpPermissionCeiling,
    granted: Seq<ProfileMount>,
    narrowed: Seq<ProfileMount>,
    context: Seq<char>,
)
    requires
        mounts_issue(ceiling.mounts@, granted, context) is None,
        narrowed.len() > 0,
        forall|i: int|
            0 <= i < narrowed.len() ==> exists|j: int|
                0 <= j < granted.len() && mount_within(#[trigger] granted[j], #[trigger] narrowed[i]),
        forall|i: int|
            0 <= i < narrowed.len() ==> absolute_path_issue((#[trigger] narrowed[i]).host_path@, "requested mount host_path"@) is None
                && absolute_path_issue(narrowed[i].workspace_path@, "requested mount workspace_path"@) is None,
    ensures
        mounts_issue(ceiling.mounts@, narrowed, context) is None,
{
    let allowed = ceiling.mounts@;
    if allowed.len() > 0 {
        assert(granted.len() > 0) by {
            let j = choose|j: int| 0 <= j < granted.len() && mount_within(granted[j], narrowed[0]);
        }
        let f = |m: ProfileMount| requested_mount_issue(allowed, m, context);
        assert forall|j: int| 0 <= j < granted.len() implies mount_covered(allowed, #[trigger] granted[j]) by {
            lemma_first_issue_clear(granted, f, j);
        }
        assert forall|i: int| 0 <= i < narrowed.len() implies (#[trigger] f(narrowed[i])) is None by {
            let j = choose|j: int| 0 <= j < granted.len() && mount_within(granted[j], narrowed[i]);
            assert(mount_covered(allowed, granted[j]));
            let k = choose|k: int| 0 <= k < allowed.len() && mount_within(allowed[k], granted[j]);
            law_mount_narrowing_transitive(allowed[k], granted[j], narrowed[i]);
            assert(mount_within(allowed[k], narrowed[i]));
        }
        lemma_first_issue_none(narrowed, f);
    }
}

/// When nothing is found in a sequence, nothing is found in any of its elements.
proof fn lemma_first_issue_clear(
    s: Seq<ProfileMount>,
    f: spec_fn(ProfileMount) -> Option<PermissionIssue>,
    j: int,
)
    requires
        first_issue(s, f) is None,
        0 <= j < s.len(),
    ensures
        f(s[j]) is None,
    decreases s.len(),
{
    if j == s.len() - 1 {
    } else {
        assert(s.drop_last()[j] == s[j]);
        lemma_first_issue_clear(s.drop_last(), f, j);
    }
}

/// A ceiling with no network, mounts or app list admits every launch.
pub proof fn law_open_ceiling_admits_launches(
    ceiling: McpPermissionCeiling,
    spec: LaunchSpec,
    host: HostLookup,
)
    requires
        ceiling.network is None,
        ceiling.mounts@.len() == 0,
        ceiling.apps.allow@.len() == 0,
    ensures
        launch_issue(ceiling, spec, host) is None,
{
}

/// The app allowlist looks at the launched program only: two commands that launch
/// the same program get the same answer, whatever their arguments.
pub proof fn law_allowlist_checks_program_only(
    allow: Seq<String>,
    a: Seq<String>,
    b: Seq<String>,
    context: Seq<char>,
    host: HostLookup,
)
    requires
        a.len() > 0,
        b.len() > 0,
        a[0]@ == b[0]@,
    ensures
        command_issue(allow, a, context, host) == command_issue(allow, b, context, host),
{
}

/// Without a permissions file nothing is restricted, whatever ceiling was passed.
pub proof fn law_unconfigured_state_is_open(state: McpPermissionState, spec: LaunchSpec, host: HostLookup)
    requires
        !state.configured,
        state.ceiling.network is None,
        state.ceiling.mounts@.len() == 0,
        state.ceiling.apps.allow@.len() == 0,
    ensures
        launch_issue(state.ceiling, spec, host) is None,
        !ceiling_restricted(state.ceiling),
{
}

/// The app allowlist finds bare program names on the host's search path: when a
/// command's program has no `/` and the search path finds it at a file equivalent
/// to an absolute allowlist entry, the command is admitted. A program written with a
/// `/` is taken as written: it is admitted when that path is equivalent to an
/// absolute entry.
pub proof fn law_allowlist_resolves_programs(
    allow: Seq<String>,
    command: Seq<String>,
    context: Seq<char>,
    host: HostLookup,
    j: int,
)
    requires
        command.len() > 0,
        !all_ws(command[0]@),
        0 <= j < allow.len(),
        is_absolute(allow[j]@),
    ensures
        (!command[0]@.contains('/') && lookup(host.command_paths@, command[0]@) is Some
            && paths_equivalent(host, lookup(host.command_paths@, command[0]@)->0, allow[j]@))
            ==> command_issue(
            allow,
            command,
            context,
            host,
        ) is None,
        (command[0]@.contains('/') && paths_equivalent(host, command[0]@, allow[j]@))
            ==> command_issue(allow, command, context, host) is None,
{
    if (!command[0]@.contains('/') && lookup(host.command_paths@, command[0]@) is Some
        && paths_equivalent(host, lookup(host.command_paths@, command[0]@)->0, allow[j]@)) || (
    command[0]@.contains('/') && paths_equivalent(host, command[0]@, allow[j]@)) {
        assert(command_matches_entry(host, command[0]@, allow[j]@));
    }
}

} // verus!
