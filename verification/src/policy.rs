//! Declared workspace policy (mounts and network) and the report of how much of
//! it the runtime can enforce.
use vstd::prelude::*;
use vstd::string::*;

verus! {

/// Access granted by a mount.
#[derive(Clone, Copy, Debug, PartialEq, Eq, Structural)]
pub enum MountMode {
    ReadOnly,
    ReadWrite,
}

impl Default for MountMode {
    fn default() -> (r: Self)
        ensures
            r == MountMode::ReadOnly,
    {
        MountMode::ReadOnly
    }
}

/// A host directory made visible inside the workspace.
#[derive(Clone, Debug)]
pub struct ProfileMount {
    pub host_path: String,
    pub workspace_path: String,
    pub mode: MountMode,
}

impl ProfileMount {
    /// An equal copy.
    pub fn duplicate(&self) -> (r: Self)
        ensures
            r == *self,
    {
        ProfileMount {
            host_path: self.host_path.clone(),
            workspace_path: self.workspace_path.clone(),
            mode: self.mode,
        }
    }
}

/// How the network of workspace apps is restricted.
#[derive(Clone, Copy, Debug, PartialEq, Eq, Structural)]
pub enum NetworkMode {
    InheritHost,
    Disabled,
    LocalOnly,
    Allowlist,
}

impl Default for NetworkMode {
    fn default() -> (r: Self)
        ensures
            r == NetworkMode::InheritHost,
    {
        NetworkMode::InheritHost
    }
}

/// Requested network mode and, for local-only and allowlist modes, the hosts.
#[derive(Clone, Debug)]
pub struct NetworkPolicy {
    pub mode: NetworkMode,
    pub allow_hosts: Vec<String>,
}

impl Default for NetworkPolicy {
    fn default() -> (r: Self)
        ensures
            r.mode == NetworkMode::InheritHost,
            r.allow_hosts@.len() == 0,
    {
        NetworkPolicy { mode: NetworkMode::InheritHost, allow_hosts: Vec::new() }
    }
}

/// Two network policies agree in mode and hosts.
pub open spec fn same_network(a: NetworkPolicy, b: NetworkPolicy) -> bool {
    a.mode == b.mode && a.allow_hosts@ == b.allow_hosts@
}

impl NetworkPolicy {
    /// A copy with the same mode and hosts.
    pub fn duplicate(&self) -> (r: Self)
        ensures
            same_network(r, *self),
    {
        NetworkPolicy { mode: self.mode, allow_hosts: clone_strings(&self.allow_hosts) }
    }
}

/// An equal copy of a list of strings.
pub fn clone_strings(v: &Vec<String>) -> (r: Vec<String>)
    ensures
        r@ == v@,
{
    let mut r: Vec<String> = Vec::new();
    let mut i: usize = 0;
    while i < v.len()
        invariant
            i <= v@.len(),
            r@ == v@.subrange(0, i as int),
        decreases v.len() - i,
    {
        r.push(v[i].clone());
        i += 1;
        assert(r@ =~= v@.subrange(0, i as int));
    }
    assert(v@.subrange(0, v@.len() as int) =~= v@);
    r
}

/// An equal copy of a list of mounts.
pub fn clone_mounts(v: &Vec<ProfileMount>) -> (r: Vec<ProfileMount>)
    ensures
        r@ == v@,
{
    let mut r: Vec<ProfileMount> = Vec::new();
    let mut i: usize = 0;
    while i < v.len()
        invariant
            i <= v@.len(),
            r@ == v@.subrange(0, i as int),
        decreases v.len() - i,
    {
        r.push(v[i].duplicate());
        i += 1;
        assert(r@ =~= v@.subrange(0, i as int));
    }
    assert(v@.subrange(0, v@.len() as int) =~= v@);
    r
}

/// An equal copy of an optional string.
pub fn clone_opt_string(o: &Option<String>) -> (r: Option<String>)
    ensures
        r == *o,
{
    match o {
        Some(s) => Some(s.clone()),
        None => None,
    }
}

/// Whether a policy tool is installed, with the detail of the probe.
#[derive(Clone, Debug)]
pub struct PolicyToolCheck {
    pub ok: bool,
    pub detail: String,
}

impl Default for PolicyToolCheck {
    fn default() -> (r: Self)
        ensures
            !r.ok,
            r.detail@ == "not checked"@,
    {
        PolicyToolCheck { ok: false, detail: String::from_str("not checked") }
    }
}

impl PolicyToolCheck {
    /// An equal copy.
    pub fn duplicate(&self) -> (r: Self)
        ensures
            r == *self,
    {
        PolicyToolCheck { ok: self.ok, detail: self.detail.clone() }
    }
}

/// Which policy backends the machine offers.
#[derive(Clone, Debug)]
pub struct PolicyRuntimeCapabilities {
    pub bubblewrap: PolicyToolCheck,
    pub firejail: PolicyToolCheck,
    pub unshare: PolicyToolCheck,
    pub slirp4netns: PolicyToolCheck,
    pub can_candidate_mounts: bool,
    pub can_candidate_disable_network: bool,
    pub can_candidate_network_allowlist: bool,
    pub preferred_mount_backend: Option<String>,
    pub preferred_network_backend: Option<String>,
    pub notes: Vec<String>,
}

impl Default for PolicyRuntimeCapabilities {
    fn default() -> (r: Self)
        ensures
            !r.bubblewrap.ok && !r.firejail.ok && !r.unshare.ok && !r.slirp4netns.ok,
            !r.can_candidate_mounts && !r.can_candidate_disable_network
                && !r.can_candidate_network_allowlist,
            r.preferred_mount_backend is None && r.preferred_network_backend is None,
            r.notes@.len() == 0,
    {
        PolicyRuntimeCapabilities {
            bubblewrap: PolicyToolCheck::default(),
            firejail: PolicyToolCheck::default(),
            unshare: PolicyToolCheck::default(),
            slirp4netns: PolicyToolCheck::default(),
            can_candidate_mounts: false,
            can_candidate_disable_network: false,
            can_candidate_network_allowlist: false,
            preferred_mount_backend: None,
            preferred_network_backend: None,
            notes: Vec::new(),
        }
    }
}

/// Two capability reports agree in every probe, candidate and note.
pub open spec fn same_capabilities(a: PolicyRuntimeCapabilities, b: PolicyRuntimeCapabilities) -> bool {
    &&& a.bubblewrap == b.bubblewrap
    &&& a.firejail == b.firejail
    &&& a.unshare == b.unshare
    &&& a.slirp4netns == b.slirp4netns
    &&& a.can_candidate_mounts == b.can_candidate_mounts
    &&& a.can_candidate_disable_network == b.can_candidate_disable_network
    &&& a.can_candidate_network_allowlist == b.can_candidate_network_allowlist
    &&& a.preferred_mount_backend == b.preferred_mount_backend
    &&& a.preferred_network_backend == b.preferred_network_backend
    &&& a.notes@ == b.notes@
}

impl PolicyRuntimeCapabilities {
    /// A copy with the same probes, candidates and notes.
    pub fn duplicate(&self) -> (r: Self)
        ensures
            same_capabilities(r, *self),
    {
        PolicyRuntimeCapabilities {
            bubblewrap: self.bubblewrap.duplicate(),
            firejail: self.firejail.duplicate(),
            unshare: self.unshare.duplicate(),
            slirp4netns: self.slirp4netns.duplicate(),
            can_candidate_mounts: self.can_candidate_mounts,
            can_candidate_disable_network: self.can_candidate_disable_network,
            can_candidate_network_allowlist: self.can_candidate_network_allowlist,
            preferred_mount_backend: clone_opt_string(&self.preferred_mount_backend),
            preferred_network_backend: clone_opt_string(&self.preferred_network_backend),
            notes: clone_strings(&self.notes),
        }
    }
}

/// The backend preferred for mount and network isolation: the first installed of
/// bubblewrap, firejail and unshare.
pub open spec fn preferred_backend(bubblewrap: bool, firejail: bool, unshare: bool) -> Option<
    Seq<char>,
> {
    if bubblewrap {
        Some("bubblewrap"@)
    } else if firejail {
        Some("firejail"@)
    } else if unshare {
        Some("unshare"@)
    } else {
        None
    }
}

pub open spec fn opt_view(o: Option<String>) -> Option<Seq<char>> {
    match o {
        Some(s) => Some(s@),
        None => None,
    }
}

pub open spec fn capability_notes(bubblewrap: bool, allowlist_candidate: bool) -> Seq<Seq<char>> {
    let first = if bubblewrap {
        "bubblewrap is the preferred candidate for mount and network namespace enforcement"@
    } else {
        "install bubblewrap to unlock the preferred unprivileged policy backend candidate"@
    };
    if allowlist_candidate {
        seq![first, "network allowlists still need a concrete rules backend before they can be enforced"@]
    } else {
        seq![first]
    }
}

/// `r` summarises these tool probes: which backends are candidates, which is
/// preferred, and the notes shown.
pub open spec fn capabilities_from(
    r: PolicyRuntimeCapabilities,
    bubblewrap: PolicyToolCheck,
    firejail: PolicyToolCheck,
    unshare: PolicyToolCheck,
    slirp4netns: PolicyToolCheck,
) -> bool {
    &&& r.bubblewrap == bubblewrap
    &&& r.firejail == firejail
    &&& r.unshare == unshare
    &&& r.slirp4netns == slirp4netns
    &&& opt_view(r.preferred_mount_backend) == preferred_backend(
        bubblewrap.ok,
        firejail.ok,
        unshare.ok,
    )
    &&& opt_view(r.preferred_network_backend) == preferred_backend(
        bubblewrap.ok,
        firejail.ok,
        unshare.ok,
    )
    &&& r.can_candidate_mounts == (bubblewrap.ok || firejail.ok || unshare.ok)
    &&& r.can_candidate_disable_network == (bubblewrap.ok || firejail.ok || unshare.ok)
    &&& r.can_candidate_network_allowlist == (firejail.ok || slirp4netns.ok)
    &&& r.notes@.map_values(|s: String| s@) == capability_notes(
        bubblewrap.ok,
        firejail.ok || slirp4netns.ok,
    )
}

fn preferred_backend_name(bubblewrap: bool, firejail: bool, unshare: bool) -> (r: Option<String>)
    ensures
        opt_view(r) == preferred_backend(bubblewrap, firejail, unshare),
{
    if bubblewrap {
        Some(String::from_str("bubblewrap"))
    } else if firejail {
        Some(String::from_str("firejail"))
    } else if unshare {
        Some(String::from_str("unshare"))
    } else {
        None
    }
}

impl PolicyRuntimeCapabilities {
    /// Summarises the probed tools: which backends are candidates and which is preferred.
    pub fn from_tools(
        bubblewrap: PolicyToolCheck,
        firejail: PolicyToolCheck,
        unshare: PolicyToolCheck,
        slirp4netns: PolicyToolCheck,
    ) -> (r: Self)
        ensures
            capabilities_from(r, bubblewrap, firejail, unshare, slirp4netns),
    {
        let preferred_mount_backend = preferred_backend_name(bubblewrap.ok, firejail.ok, unshare.ok);
        let preferred_network_backend = preferred_backend_name(
            bubblewrap.ok,
            firejail.ok,
            unshare.ok,
        );
        let can_candidate_mounts = preferred_mount_backend.is_some();
        let can_candidate_disable_network = preferred_network_backend.is_some();
        let can_candidate_network_allowlist = firejail.ok || slirp4netns.ok;
        let mut notes: Vec<String> = Vec::new();
        if bubblewrap.ok {
            notes.push(
                String::from_str(
                    "bubblewrap is the preferred candidate for mount and network namespace enforcement",
                ),
            );
        } else {
            notes.push(
                String::from_str(
                    "install bubblewrap to unlock the preferred unprivileged policy backend candidate",
                ),
            );
        }
        if can_candidate_network_allowlist {
            notes.push(
                String::from_str(
                    "network allowlists still need a concrete rules backend before they can be enforced",
                ),
            );
        }
        assert(notes@.map_values(|s: String| s@) =~= capability_notes(
            bubblewrap.ok,
            firejail.ok || slirp4netns.ok,
        ));
        PolicyRuntimeCapabilities {
            bubblewrap,
            firejail,
            unshare,
            slirp4netns,
            can_candidate_mounts,
            can_candidate_disable_network,
            can_candidate_network_allowlist,
            preferred_mount_backend,
            preferred_network_backend,
            notes,
        }
    }
}

/// One line of the enforcement report.
#[derive(Clone, Debug)]
pub struct PolicyCapabilityStatus {
    pub requested: bool,
    pub enforced: bool,
    pub detail: String,
}

/// What the runtime enforces of a policy.
#[derive(Clone, Debug)]
pub struct PolicyEnforcement {
    pub display_isolation: PolicyCapabilityStatus,
    pub input_scope: PolicyCapabilityStatus,
    pub mounts: PolicyCapabilityStatus,
    pub network: PolicyCapabilityStatus,
}

/// A profile's policy as applied to one workspace start or launch.
#[derive(Clone, Debug)]
pub struct AppliedWorkspacePolicy {
    pub profile_id: String,
    pub mounts: Vec<ProfileMount>,
    pub network: NetworkPolicy,
    pub require_enforced_policy: bool,
    pub setup_command_count: usize,
    pub runtime_capabilities: PolicyRuntimeCapabilities,
    pub enforcement: PolicyEnforcement,
}

/// The runtime enforces the requested network mode.
pub open spec fn network_enforced(mode: NetworkMode, bubblewrap_ok: bool) -> bool {
    match mode {
        NetworkMode::InheritHost => true,
        NetworkMode::Disabled => bubblewrap_ok,
        NetworkMode::LocalOnly => bubblewrap_ok,
        NetworkMode::Allowlist => false,
    }
}

pub open spec fn mount_detail(
    requested: bool,
    bubblewrap_ok: bool,
    candidate: Option<Seq<char>>,
) -> Seq<char> {
    if requested && bubblewrap_ok {
        "mounts are enforced with a bubblewrap mount namespace for launched apps"@
    } else if requested {
        match candidate {
            Some(b) => "mounts are declared; "@ + b + " is available as a candidate but is not active"@,
            None => "mounts are declared but no mount namespace backend is available"@,
        }
    } else {
        "no mount policy requested"@
    }
}

pub open spec fn network_detail(
    mode: NetworkMode,
    bubblewrap_ok: bool,
    candidate: Option<Seq<char>>,
) -> Seq<char> {
    match mode {
        NetworkMode::InheritHost => "profile inherits the host network by policy"@,
        NetworkMode::Disabled => if bubblewrap_ok {
            "network disabled is enforced with bubblewrap --unshare-net for launched apps"@
        } else {
            match candidate {
                Some(b) => "network disabled is declared; "@ + b
                    + " is available as a candidate but is not active"@,
                None => "network disabled is declared but no network isolation backend is available"@,
            }
        },
        NetworkMode::LocalOnly => if bubblewrap_ok {
            "network local_only is enforced with a bubblewrap loopback-only network namespace for launched apps"@
        } else {
            match candidate {
                Some(b) => "network local_only is declared; "@ + b
                    + " is available as a candidate but is not active"@,
                None => "network local_only is declared but no network isolation backend is available"@,
            }
        },
        NetworkMode::Allowlist => "network allowlist is declared but no allowlist backend is active"@,
    }
}

fn candidate_detail(lead: &str, backend: &String) -> (r: String)
    ensures
        r@ == lead@ + backend@ + " is available as a candidate but is not active"@,
{
    let mut s = String::from_str(lead);
    s.append(backend.as_str());
    s.append(" is available as a candidate but is not active");
    s
}

fn mount_detail_text(requested: bool, bubblewrap_ok: bool, candidate: &Option<String>) -> (r: String)
    ensures
        r@ == mount_detail(requested, bubblewrap_ok, opt_view(*candidate)),
{
    if requested && bubblewrap_ok {
        String::from_str("mounts are enforced with a bubblewrap mount namespace for launched apps")
    } else if requested {
        match candidate {
            Some(b) => candidate_detail("mounts are declared; ", b),
            None => String::from_str("mounts are declared but no mount namespace backend is available"),
        }
    } else {
        String::from_str("no mount policy requested")
    }
}

fn network_detail_text(mode: NetworkMode, bubblewrap_ok: bool, candidate: &Option<String>) -> (r:
    String)
    ensures
        r@ == network_detail(mode, bubblewrap_ok, opt_view(*candidate)),
{
    match mode {
        NetworkMode::InheritHost => String::from_str("profile inherits the host network by policy"),
        NetworkMode::Disabled => {
            if bubblewrap_ok {
                String::from_str(
                    "network disabled is enforced with bubblewrap --unshare-net for launched apps",
                )
            } else {
                match candidate {
                    Some(b) => candidate_detail("network disabled is declared; ", b),
                    None => String::from_str(
                        "network disabled is declared but no network isolation backend is available",
                    ),
                }
            }
        },
        NetworkMode::LocalOnly => {
            if bubblewrap_ok {
                String::from_str(
                    "network local_only is enforced with a bubblewrap loopback-only network namespace for launched apps",
                )
            } else {
                match candidate {
                    Some(b) => candidate_detail("network local_only is declared; ", b),
                    None => String::from_str(
                        "network local_only is declared but no network isolation backend is available",
                    ),
                }
            }
        },
        NetworkMode::Allowlist => String::from_str(
            "network allowlist is declared but no allowlist backend is active",
        ),
    }
}

/// A capability is requested but the runtime does not enforce it.
pub open spec fn requested_but_unenforced(status: PolicyCapabilityStatus) -> bool {
    status.requested && !status.enforced
}

/// The enforcement report leaves some requested mount or network policy unenforced.
pub open spec fn unenforced_policy(policy: AppliedWorkspacePolicy) -> bool {
    requested_but_unenforced(policy.enforcement.mounts) || requested_but_unenforced(
        policy.enforcement.network,
    )
}

/// The enforcement report of a policy is the one its mounts, network and the
/// runtime capabilities determine.
pub open spec fn enforcement_consistent(r: AppliedWorkspacePolicy) -> bool {
    let caps = r.runtime_capabilities;
    &&& r.enforcement.display_isolation.requested
    &&& r.enforcement.display_isolation.enforced
    &&& r.enforcement.display_isolation.detail@
        == "workspace apps run on a private X11 DISPLAY with a scoped XAUTHORITY"@
    &&& r.enforcement.input_scope.requested
    &&& r.enforcement.input_scope.enforced
    &&& r.enforcement.input_scope.detail@ == "input commands are sent to the workspace display only"@
    &&& r.enforcement.mounts.requested == (r.mounts@.len() > 0)
    &&& r.enforcement.mounts.enforced == (r.mounts@.len() == 0 || caps.bubblewrap.ok)
    &&& r.enforcement.mounts.detail@ == mount_detail(
        r.mounts@.len() > 0,
        caps.bubblewrap.ok,
        opt_view(caps.preferred_mount_backend),
    )
    &&& r.enforcement.network.requested == (r.network.mode != NetworkMode::InheritHost)
    &&& r.enforcement.network.enforced == network_enforced(r.network.mode, caps.bubblewrap.ok)
    &&& r.enforcement.network.detail@ == network_detail(
        r.network.mode,
        caps.bubblewrap.ok,
        opt_view(caps.preferred_network_backend),
    )
}

impl AppliedWorkspacePolicy {
    /// Applies a policy on a runtime with the given capabilities and reports what is
    /// enforced: mounts when bubblewrap is available, disabled and local-only networks
    /// when bubblewrap is available, allowlists never.
    pub fn new_with_capabilities(
        profile_id: String,
        mounts: Vec<ProfileMount>,
        network: NetworkPolicy,
        require_enforced_policy: bool,
        setup_command_count: usize,
        runtime_capabilities: PolicyRuntimeCapabilities,
    ) -> (r: Self)
        ensures
            r.profile_id == profile_id,
            r.mounts == mounts,
            r.network == network,
            r.require_enforced_policy == require_enforced_policy,
            r.setup_command_count == setup_command_count,
            r.runtime_capabilities == runtime_capabilities,
            enforcement_consistent(r),
    {
        let mount_policy_requested = mounts.len() > 0;
        let restricted_network_requested = network.mode != NetworkMode::InheritHost;
        let bwrap = runtime_capabilities.bubblewrap.ok;
        let mounts_enforced = mount_policy_requested && bwrap;
        let mount_detail = mount_detail_text(
            mount_policy_requested,
            bwrap,
            &runtime_capabilities.preferred_mount_backend,
        );
        let network_is_enforced = match network.mode {
            NetworkMode::InheritHost => true,
            NetworkMode::Disabled => bwrap,
            NetworkMode::LocalOnly => bwrap,
            NetworkMode::Allowlist => false,
        };
        let network_detail = network_detail_text(
            network.mode,
            bwrap,
            &runtime_capabilities.preferred_network_backend,
        );
        AppliedWorkspacePolicy {
            profile_id,
            mounts,
            network,
            require_enforced_policy,
            setup_command_count,
            runtime_capabilities,
            enforcement: PolicyEnforcement {
                display_isolation: PolicyCapabilityStatus {
                    requested: true,
                    enforced: true,
                    detail: String::from_str(
                        "workspace apps run on a private X11 DISPLAY with a scoped XAUTHORITY",
                    ),
                },
                input_scope: PolicyCapabilityStatus {
                    requested: true,
                    enforced: true,
                    detail: String::from_str("input commands are sent to the workspace display only"),
                },
                mounts: PolicyCapabilityStatus {
                    requested: mount_policy_requested,
                    enforced: !mount_policy_requested || mounts_enforced,
                    detail: mount_detail,
                },
                network: PolicyCapabilityStatus {
                    requested: restricted_network_requested,
                    enforced: network_is_enforced,
                    detail: network_detail,
                },
            },
        }
    }

    /// Whether some requested mount or network policy is not enforced.
    pub fn has_requested_unenforced_policy(&self) -> (r: bool)
        ensures
            r == unenforced_policy(*self),
    {
        requested_but_unenforced_status(&self.enforcement.mounts)
            || requested_but_unenforced_status(&self.enforcement.network)
    }
}

/// Whether a capability is requested but not enforced.
pub fn requested_but_unenforced_status(status: &PolicyCapabilityStatus) -> (r: bool)
    ensures
        r == requested_but_unenforced(*status),
{
    status.requested && !status.enforced
}

} // verus!
