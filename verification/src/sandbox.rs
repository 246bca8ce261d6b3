//! The bubblewrap sandbox of a launch: the directories it creates, the binds it
//! makes, and the labels reported for its mount and network isolation.
use crate::checks::{bubblewrap_mounts, bubblewrap_network, WorkspaceError, WorkspaceIssue};
use crate::paths::{components, is_absolute, is_absolute_path, path_components, path_eq, path_eq_str};
use crate::policy::{AppliedWorkspacePolicy, MountMode, ProfileMount};
use crate::profile::{
    component_lt, component_rank, components_lt, lemma_text_lt_irreflexive,
    lemma_text_lt_total, lemma_text_lt_transitive, path_lt, path_lt_exec, text_lt,
};
use crate::text::{join, owned, strs};
use vstd::prelude::*;
use vstd::string::*;

verus! {

// ---------------------------------------------------------------------------
// The order of paths

proof fn lemma_component_lt_irreflexive(a: Seq<char>)
    ensures
        !component_lt(a, a),
{
    lemma_text_lt_irreflexive(a);
}

proof fn lemma_component_lt_transitive(a: Seq<char>, b: Seq<char>, c: Seq<char>)
    requires
        component_lt(a, b),
        component_lt(b, c),
    ensures
        component_lt(a, c),
{
    if component_rank(a) == component_rank(b) && component_rank(b) == component_rank(c) {
        lemma_text_lt_transitive(a, b, c);
    }
}

proof fn lemma_component_lt_total(a: Seq<char>, b: Seq<char>)
    requires
        a != b,
    ensures
        component_lt(a, b) || component_lt(b, a),
{
    if component_rank(a) == component_rank(b) {
        if component_rank(a) == 3 {
            lemma_text_lt_total(a, b);
        }
    }
}

proof fn lemma_component_lt_asymmetric(a: Seq<char>, b: Seq<char>)
    requires
        component_lt(a, b),
    ensures
        !component_lt(b, a),
{
    if component_lt(b, a) {
        lemma_component_lt_transitive(a, b, a);
        lemma_component_lt_irreflexive(a);
    }
}

proof fn lemma_components_lt_irreflexive(a: Seq<Seq<char>>)
    ensures
        !components_lt(a, a),
    decreases a.len(),
{
    if a.len() > 0 {
        lemma_components_lt_irreflexive(a.drop_first());
    }
}

proof fn lemma_components_lt_transitive(a: Seq<Seq<char>>, b: Seq<Seq<char>>, c: Seq<Seq<char>>)
    requires
        components_lt(a, b),
        components_lt(b, c),
    ensures
        components_lt(a, c),
    decreases a.len(),
{
    if a.len() > 0 && b.len() > 0 && c.len() > 0 {
        if a[0] == b[0] && b[0] == c[0] {
            lemma_components_lt_transitive(a.drop_first(), b.drop_first(), c.drop_first());
        } else if a[0] == b[0] {
        } else if b[0] == c[0] {
        } else {
            lemma_component_lt_transitive(a[0], b[0], c[0]);
            if a[0] == c[0] {
                lemma_component_lt_asymmetric(b[0], c[0]);
            }
        }
    }
}

proof fn lemma_components_lt_total(a: Seq<Seq<char>>, b: Seq<Seq<char>>)
    requires
        a != b,
    ensures
        components_lt(a, b) || components_lt(b, a),
    decreases a.len(),
{
    if a.len() > 0 && b.len() > 0 {
        if a[0] == b[0] {
            if a.drop_first() == b.drop_first() {
                assert(a =~= seq![a[0]] + a.drop_first());
                assert(b =~= seq![b[0]] + b.drop_first());
            }
            lemma_components_lt_total(a.drop_first(), b.drop_first());
        } else {
            lemma_component_lt_total(a[0], b[0]);
        }
    } else if a.len() == 0 && b.len() == 0 {
        assert(a =~= b);
    }
}

/// No path sorts before itself.
pub proof fn lemma_path_lt_irreflexive(a: Seq<char>)
    ensures
        !path_lt(a, a),
{
    lemma_components_lt_irreflexive(components(a));
}

/// The order of paths is transitive.
pub proof fn lemma_path_lt_transitive(a: Seq<char>, b: Seq<char>, c: Seq<char>)
    requires
        path_lt(a, b),
        path_lt(b, c),
    ensures
        path_lt(a, c),
{
    lemma_components_lt_transitive(components(a), components(b), components(c));
}

/// Of two different paths, one sorts before the other.
pub proof fn lemma_path_lt_total(a: Seq<char>, b: Seq<char>)
    requires
        !path_eq(a, b),
    ensures
        path_lt(a, b) || path_lt(b, a),
{
    lemma_components_lt_total(components(a), components(b));
}

// ---------------------------------------------------------------------------
// Sets of directories

/// `dirs` holds, in path order, one path for each distinct path among `added`:
/// the first one added.
pub open spec fn sorted_dir_set(dirs: Seq<Seq<char>>, added: Seq<Seq<char>>) -> bool {
    &&& forall|i: int, j: int| 0 <= i < j < dirs.len() ==> path_lt(dirs[i], dirs[j])
    &&& forall|i: int| 0 <= i < dirs.len() ==> #[trigger] first_added_somewhere(added, dirs[i])
    &&& forall|k: int| 0 <= k < added.len() ==> #[trigger] covered(dirs, added[k])
}

/// Some directory of `dirs` is the path `a`.
pub open spec fn covered(dirs: Seq<Seq<char>>, a: Seq<char>) -> bool {
    exists|i: int| 0 <= i < dirs.len() && path_eq(a, dirs[i])
}

/// `added[k]` is `d`, and no path added before it equals `d`.
pub open spec fn first_added_at(added: Seq<Seq<char>>, k: int, d: Seq<char>) -> bool {
    &&& 0 <= k < added.len()
    &&& added[k] == d
    &&& forall|m: int| 0 <= m < k ==> !path_eq(#[trigger] added[m], d)
}

/// `d` is the first of its path among `added`.
pub open spec fn first_added_somewhere(added: Seq<Seq<char>>, d: Seq<char>) -> bool {
    exists|k: int| first_added_at(added, k, d)
}

/// Adds a directory to a sorted set of directories (`BTreeSet::insert`): nothing
/// changes when an equal path is already there.
fn insert_dir(dirs: &mut Vec<String>, p: String, Ghost(added): Ghost<Seq<Seq<char>>>)
    requires
        sorted_dir_set(strs(old(dirs)@), added),
    ensures
        sorted_dir_set(strs(final(dirs)@), added.push(p@)),
{
    let ghost d = strs(dirs@);
    let mut i: usize = 0;
    while i < dirs.len() && path_lt_exec(dirs[i].as_str(), p.as_str())
        invariant
            d == strs(dirs@),
            i <= dirs@.len(),
            forall|j: int| 0 <= j < i ==> path_lt(d[j], p@),
        decreases dirs.len() - i,
    {
        i += 1;
    }
    let ghost added2 = added.push(p@);
    if i < dirs.len() && path_eq_str(dirs[i].as_str(), p.as_str()) {
        proof {
            assert forall|q: int| 0 <= q < d.len() implies #[trigger] first_added_somewhere(
                added2,
                d[q],
            ) by {
                assert(first_added_somewhere(added, d[q]));
                let k = choose|k: int| first_added_at(added, k, d[q]);
                assert(added2[k] == d[q]);
                assert forall|m: int| 0 <= m < k implies !path_eq(#[trigger] added2[m], d[q]) by {
                    assert(added2[m] == added[m]);
                }
                assert(first_added_at(added2, k, d[q]));
            }
            assert forall|k: int| 0 <= k < added2.len() implies #[trigger] covered(d, added2[k]) by {
                if k < added.len() {
                    assert(added2[k] == added[k]);
                    assert(covered(d, added[k]));
                } else {
                    assert(path_eq(added2[k], d[i as int]));
                }
            }
        }
        return;
    }
    proof {
        // `p` is not equal to any directory in the set, so it was never added.
        if i < d.len() {
            lemma_path_lt_total(d[i as int], p@);
        }
        assert forall|q: int| 0 <= q < d.len() implies !path_eq(d[q], p@) && (q < i ==> path_lt(
            d[q],
            p@,
        )) && (q >= i ==> path_lt(p@, d[q])) by {
            if q < i {
                if path_eq(d[q], p@) {
                    lemma_path_lt_irreflexive(p@);
                }
            } else {
                if q > i {
                    lemma_path_lt_transitive(p@, d[i as int], d[q]);
                }
                if path_eq(d[q], p@) {
                    lemma_path_lt_irreflexive(p@);
                }
            }
        }
    }
    let ghost before = dirs@;
    dirs.insert(i, p);
    proof {
        let nd = strs(dirs@);
        assert(nd =~= d.insert(i as int, added2.last()));
        assert forall|a: int, b: int| 0 <= a < b < nd.len() implies path_lt(nd[a], nd[b]) by {
            if a < i && b < i {
                assert(nd[a] == d[a] && nd[b] == d[b]);
            } else if a < i && b == i {
                assert(nd[a] == d[a]);
            } else if a < i {
                assert(nd[a] == d[a] && nd[b] == d[b - 1]);
                lemma_path_lt_transitive(d[a], p@, d[b - 1]);
            } else if a == i {
                assert(nd[b] == d[b - 1]);
            } else {
                assert(nd[a] == d[a - 1] && nd[b] == d[b - 1]);
            }
        }
        assert forall|q: int| 0 <= q < nd.len() implies #[trigger] first_added_somewhere(
            added2,
            nd[q],
        ) by {
            if q == i {
                let k = added.len() as int;
                assert(added2[k] == nd[q]);
                assert forall|m: int| 0 <= m < k implies !path_eq(#[trigger] added2[m], nd[q]) by {
                    assert(added2[m] == added[m]);
                    if path_eq(added[m], p@) {
                        assert(covered(d, added[m]));
                        let w = choose|w: int| 0 <= w < d.len() && path_eq(added[m], d[w]);
                        assert(path_eq(d[w], p@));
                    }
                }
                assert(first_added_at(added2, k, nd[q]));
            } else {
                let qq = if q < i {
                    q
                } else {
                    q - 1
                };
                assert(nd[q] == d[qq]);
                assert(first_added_somewhere(added, d[qq]));
                let k = choose|k: int| first_added_at(added, k, d[qq]);
                assert(added2[k] == nd[q]);
                assert forall|m: int| 0 <= m < k implies !path_eq(#[trigger] added2[m], nd[q]) by {
                    assert(added2[m] == added[m]);
                }
                assert(first_added_at(added2, k, nd[q]));
            }
        }
        assert forall|k: int| 0 <= k < added2.len() implies #[trigger] covered(nd, added2[k]) by {
            if k < added.len() {
                assert(added2[k] == added[k]);
                assert(covered(d, added[k]));
                let w = choose|w: int| 0 <= w < d.len() && path_eq(added[k], d[w]);
                if w < i {
                    assert(nd[w] == d[w]);
                } else {
                    assert(nd[w + 1] == d[w]);
                }
            } else {
                assert(nd[i as int] == added2[k]);
            }
        }
    }
}

// ---------------------------------------------------------------------------
// Parent directories

/// The text of the first `j` components of a path, written with `/`.
pub open spec fn render_prefix(comps: Seq<Seq<char>>, j: int) -> Seq<char> {
    if comps.len() > 0 && comps[0] == seq!['/'] {
        "/"@ + join(comps.subrange(1, j), "/"@)
    } else {
        join(comps.subrange(0, j), "/"@)
    }
}

/// The ancestors of a path other than the root, farthest first, each written
/// from the path's components (`Path::parent`, repeatedly). A relative path's
/// last ancestor is the empty path.
pub open spec fn parent_dirs(path: Seq<char>) -> Seq<Seq<char>> {
    let c = components(path);
    let lo: int = if c.len() > 0 && c[0] == seq!['/'] {
        2
    } else {
        0
    };
    if c.len() > lo {
        Seq::new((c.len() - lo) as nat, |t: int| render_prefix(c, lo + t))
    } else {
        Seq::empty()
    }
}

/// Adds the ancestors of `path` (all but the root) to a sorted set of directories.
fn add_parent_dirs(dirs: &mut Vec<String>, path: &str, Ghost(added): Ghost<Seq<Seq<char>>>)
    requires
        sorted_dir_set(strs(old(dirs)@), added),
    ensures
        sorted_dir_set(strs(final(dirs)@), added + parent_dirs(path@)),
{
    let comps = path_components(path);
    let ghost c = components(path@);
    proof {
        assert(strs(comps@) == c);
    }
    let n = comps.len();
    let rooted = n > 0 && crate::permissions::str_eq(comps[0].as_str(), "/");
    proof {
        reveal_strlit("/");
        if n > 0 {
            assert(strs(comps@)[0] == comps@[0]@);
            assert("/"@ =~= seq!['/']);
            assert(rooted == (c[0] == seq!['/']));
        }
    }
    let lo: usize = if rooted {
        2
    } else {
        0
    };
    if n <= lo {
        proof {
            assert(parent_dirs(path@) =~= Seq::<Seq<char>>::empty());
            assert(added + parent_dirs(path@) =~= added);
        }
        return;
    }
    // text of the first `lo` components
    let mut cur: String = if rooted {
        let mut s = String::from_str("/");
        s.append(comps[1].as_str());
        s
    } else {
        String::new()
    };
    proof {
        if rooted {
            assert(c.subrange(1, 2) =~= seq![c[1]]);
            assert(strs(comps@)[1] == comps@[1]@);
        } else {
            assert(c.subrange(0, 0) =~= Seq::<Seq<char>>::empty());
        }
        assert(cur@ =~= render_prefix(c, lo as int));
    }
    let mut j: usize = lo;
    let ghost pd = parent_dirs(path@);
    let ghost start_added = added;
    while j < n
        invariant
            strs(comps@) == c,
            c == components(path@),
            n == comps@.len(),
            lo <= j <= n,
            lo == (if c.len() > 0 && c[0] == seq!['/'] {
                2usize
            } else {
                0usize
            }),
            rooted == (c.len() > 0 && c[0] == seq!['/']),
            n > lo,
            pd == parent_dirs(path@),
            pd.len() == n - lo,
            forall|t: int| 0 <= t < pd.len() ==> #[trigger] pd[t] == render_prefix(c, lo + t),
            j < n ==> cur@ == render_prefix(c, j as int),
            sorted_dir_set(strs(dirs@), start_added + pd.subrange(0, j - lo)),
        decreases n - j,
    {
        let ghost a = start_added + pd.subrange(0, j - lo);
        insert_dir(dirs, cur.clone(), Ghost(a));
        proof {
            assert(a.push(cur@) =~= start_added + pd.subrange(0, j + 1 - lo));
        }
        if j + 1 < n {
            proof {
                assert(strs(comps@)[j as int] == comps@[j as int]@);
            }
            let starts_empty = !rooted && j == 0;
            if starts_empty {
                cur = comps[j].clone();
            } else {
                cur.append("/");
                cur.append(comps[j].as_str());
            }
            proof {
                reveal_strlit("/");
                if rooted {
                    let s = c.subrange(1, j + 1);
                    assert(s.drop_last() =~= c.subrange(1, j as int));
                    assert(s.last() == c[j as int]);
                    assert(s.len() >= 2);
                } else if j == 0 {
                    assert(c.subrange(0, 1) =~= seq![c[0]]);
                } else {
                    let s = c.subrange(0, j + 1);
                    assert(s.drop_last() =~= c.subrange(0, j as int));
                    assert(s.last() == c[j as int]);
                }
                assert(cur@ =~= render_prefix(c, j + 1));
            }
        }
        j += 1;
    }
    proof {
        assert(pd.subrange(0, n - lo) =~= pd);
    }
}

// ---------------------------------------------------------------------------
// Sandbox arguments

/// The system directories bound read-only into a mount namespace, when present.
pub open spec fn system_dir(i: int) -> Seq<char> {
    if i == 0 {
        "/usr"@
    } else if i == 1 {
        "/bin"@
    } else if i == 2 {
        "/lib"@
    } else if i == 3 {
        "/lib64"@
    } else if i == 4 {
        "/etc"@
    } else {
        "/opt"@
    }
}

/// Facts about the host that a mount namespace depends on, gathered by the
/// caller: which of `/usr`, `/bin`, `/lib`, `/lib64`, `/etc` and `/opt` exist,
/// whether `/tmp/.X11-unix` exists, and whether each mount's host path exists.
#[derive(Clone, Debug)]
pub struct SandboxHost {
    pub system_dirs_present: Vec<bool>,
    pub x11_socket_dir_present: bool,
    pub mount_host_paths_present: Vec<bool>,
}

/// A bubblewrap sandbox for a launch.
#[derive(Clone, Debug)]
pub struct BubblewrapSandbox {
    pub args: Vec<String>,
    pub mount_isolation: String,
    pub network_isolation: String,
}

/// `--ro-bind DIR DIR` for each present system directory, in order.
pub open spec fn system_bind_args(present: Seq<bool>) -> Seq<Seq<char>>
    decreases present.len(),
{
    if present.len() == 0 {
        Seq::empty()
    } else {
        let i = present.len() - 1;
        system_bind_args(present.drop_last()) + if present.last() {
            seq!["--ro-bind"@, system_dir(i), system_dir(i)]
        } else {
            Seq::empty()
        }
    }
}

/// `--dir DIR` for each directory, in order.
pub open spec fn dir_args(dirs: Seq<Seq<char>>) -> Seq<Seq<char>>
    decreases dirs.len(),
{
    if dirs.len() == 0 {
        Seq::empty()
    } else {
        dir_args(dirs.drop_last()) + seq!["--dir"@, dirs.last()]
    }
}

/// The bind flag of a mount mode.
pub open spec fn bind_flag(mode: MountMode) -> Seq<char> {
    match mode {
        MountMode::ReadOnly => "--ro-bind"@,
        MountMode::ReadWrite => "--bind"@,
    }
}

/// `FLAG HOST WORKSPACE` for each mount, in order.
pub open spec fn mount_bind_args(mounts: Seq<ProfileMount>) -> Seq<Seq<char>>
    decreases mounts.len(),
{
    if mounts.len() == 0 {
        Seq::empty()
    } else {
        let m = mounts.last();
        mount_bind_args(mounts.drop_last()) + seq![
            bind_flag(m.mode),
            m.host_path@,
            m.workspace_path@,
        ]
    }
}

/// The ancestors of every mount's workspace path, mount by mount.
pub open spec fn mount_parent_dirs(mounts: Seq<ProfileMount>) -> Seq<Seq<char>>
    decreases mounts.len(),
{
    if mounts.len() == 0 {
        Seq::empty()
    } else {
        mount_parent_dirs(mounts.drop_last()) + parent_dirs(mounts.last().workspace_path@)
    }
}

/// The first mount that bubblewrap cannot make: a workspace path that is not
/// absolute, or a host path that does not exist.
pub open spec fn mounts_sandbox_issue(mounts: Seq<ProfileMount>, present: Seq<bool>) -> Option<
    WorkspaceIssue,
>
    decreases mounts.len(),
{
    if mounts.len() == 0 {
        None
    } else {
        match mounts_sandbox_issue(mounts.drop_last(), present) {
            Some(e) => Some(e),
            None => {
                let m = mounts.last();
                if !is_absolute(m.workspace_path@) {
                    Some(WorkspaceIssue::MountWorkspacePathNotAbsolute { path: m.workspace_path@ })
                } else if !present[mounts.len() - 1] {
                    Some(WorkspaceIssue::MountHostPathMissing { path: m.host_path@ })
                } else {
                    None
                }
            },
        }
    }
}

/// The directories a mount namespace creates, in the order they are added.
pub open spec fn sandbox_dirs_added(xauthority: Seq<char>, x11: bool, mounts: Seq<ProfileMount>) -> Seq<
    Seq<char>,
> {
    seq!["/tmp"@] + parent_dirs(xauthority) + (if x11 {
        parent_dirs("/tmp/.X11-unix"@)
    } else {
        Seq::empty()
    }) + mount_parent_dirs(mounts)
}

/// The arguments of a mount namespace whose directory set is `dirs`.
pub open spec fn namespace_args(
    dirs: Seq<Seq<char>>,
    xauthority: Seq<char>,
    cwd: Option<Seq<char>>,
    network: bool,
    host: SandboxHost,
    mounts: Seq<ProfileMount>,
) -> Seq<Seq<char>> {
    system_bind_args(host.system_dirs_present@) + seq![
        "--proc"@,
        "/proc"@,
        "--dev-bind"@,
        "/dev"@,
        "/dev"@,
    ] + dir_args(dirs) + (if host.x11_socket_dir_present {
        seq!["--ro-bind"@, "/tmp/.X11-unix"@, "/tmp/.X11-unix"@]
    } else {
        Seq::empty()
    }) + seq!["--ro-bind"@, xauthority, xauthority] + mount_bind_args(mounts) + (if network {
        seq!["--unshare-net"@]
    } else {
        Seq::empty()
    }) + seq![
        "--chdir"@,
        match cwd {
            Some(c) => c,
            None => "/tmp"@,
        },
    ]
}

fn push_str(args: &mut Vec<String>, s: &str)
    ensures
        strs(final(args)@) == strs(old(args)@).push(s@),
{
    args.push(String::from_str(s));
    assert(strs(args@) =~= strs(old(args)@).push(s@));
}

/// The bubblewrap arguments of a mount namespace: read-only system directories,
/// `/proc` and `/dev`, the directories the binds need, the X11 socket directory
/// and authority file, each mount, the network namespace if asked for, and the
/// working directory (`/tmp` when none is given).
pub fn restricted_mount_namespace_args(
    xauthority_path: &str,
    policy: Option<&AppliedWorkspacePolicy>,
    cwd: Option<&str>,
    network: bool,
    host: &SandboxHost,
) -> (r: Result<Vec<String>, WorkspaceError>)
    requires
        host.system_dirs_present@.len() == 6,
        policy is Some ==> host.mount_host_paths_present@.len() == policy->0.mounts@.len(),
    ensures
        match policy {
            None => r matches Err(e) && e@ == WorkspaceIssue::MountPolicyMissing,
            Some(p) => match mounts_sandbox_issue(p.mounts@, host.mount_host_paths_present@) {
                Some(issue) => r matches Err(e) && e@ == issue,
                None => r matches Ok(args) && exists|dirs: Seq<Seq<char>>|
                    #[trigger] sorted_dir_set(
                        dirs,
                        sandbox_dirs_added(
                            xauthority_path@,
                            host.x11_socket_dir_present,
                            p.mounts@,
                        ),
                    ) && strs(args@) == namespace_args(
                        dirs,
                        xauthority_path@,
                        text_value(cwd),
                        network,
                        *host,
                        p.mounts@,
                    ),
            },
        },
{
    let pol = match policy {
        Some(p) => p,
        None => {
            return Err(WorkspaceError::MountPolicyMissing);
        },
    };
    let mut dirs: Vec<String> = Vec::new();
    proof {
        assert(sorted_dir_set(strs(dirs@), Seq::<Seq<char>>::empty()));
    }
    insert_dir(&mut dirs, String::from_str("/tmp"), Ghost(Seq::<Seq<char>>::empty()));
    let ghost added0 = seq!["/tmp"@];
    proof {
        assert(Seq::<Seq<char>>::empty().push("/tmp"@) =~= added0);
    }
    add_parent_dirs(&mut dirs, xauthority_path, Ghost(added0));
    let ghost added1 = added0 + parent_dirs(xauthority_path@);
    let ghost x11dirs = if host.x11_socket_dir_present {
        parent_dirs("/tmp/.X11-unix"@)
    } else {
        Seq::<Seq<char>>::empty()
    };
    if host.x11_socket_dir_present {
        add_parent_dirs(&mut dirs, "/tmp/.X11-unix", Ghost(added1));
    } else {
        assert(added1 + x11dirs =~= added1);
    }
    let ghost added2 = added1 + x11dirs;
    let mut i: usize = 0;
    assert(pol.mounts@.subrange(0, 0) =~= Seq::<ProfileMount>::empty());
    assert(added2 + mount_parent_dirs(Seq::<ProfileMount>::empty()) =~= added2);
    while i < pol.mounts.len()
        invariant
            i <= pol.mounts@.len(),
            policy == Some(pol),
            host.mount_host_paths_present@.len() == pol.mounts@.len(),
            mounts_sandbox_issue(pol.mounts@.subrange(0, i as int), host.mount_host_paths_present@)
                is None,
            sorted_dir_set(
                strs(dirs@),
                added2 + mount_parent_dirs(pol.mounts@.subrange(0, i as int)),
            ),
        decreases pol.mounts.len() - i,
    {
        let m = &pol.mounts[i];
        proof {
            let s = pol.mounts@.subrange(0, i + 1);
            assert(s.drop_last() =~= pol.mounts@.subrange(0, i as int));
            assert(s.last() == pol.mounts@[i as int]);
        }
        if !is_absolute_path(m.workspace_path.as_str()) {
            proof {
                lemma_sandbox_issue_prefix(
                    pol.mounts@,
                    host.mount_host_paths_present@,
                    i as int + 1,
                );
            }
            return Err(
                WorkspaceError::MountWorkspacePathNotAbsolute { path: m.workspace_path.clone() },
            );
        }
        if !host.mount_host_paths_present[i] {
            proof {
                lemma_sandbox_issue_prefix(
                    pol.mounts@,
                    host.mount_host_paths_present@,
                    i as int + 1,
                );
            }
            return Err(WorkspaceError::MountHostPathMissing { path: m.host_path.clone() });
        }
        let ghost a = added2 + mount_parent_dirs(pol.mounts@.subrange(0, i as int));
        add_parent_dirs(&mut dirs, m.workspace_path.as_str(), Ghost(a));
        proof {
            assert(a + parent_dirs(m.workspace_path@) =~= added2 + mount_parent_dirs(
                pol.mounts@.subrange(0, i + 1),
            ));
        }
        i += 1;
    }
    proof {
        assert(pol.mounts@.subrange(0, pol.mounts@.len() as int) =~= pol.mounts@);
        assert(added2 + mount_parent_dirs(pol.mounts@) =~= sandbox_dirs_added(
            xauthority_path@,
            host.x11_socket_dir_present,
            pol.mounts@,
        ));
    }
    let ghost final_dirs = strs(dirs@);
    // arguments
    let mut args: Vec<String> = Vec::new();
    let mut s: usize = 0;
    assert(host.system_dirs_present@.subrange(0, 0) =~= Seq::<bool>::empty());
    assert(strs(args@) =~= system_bind_args(Seq::<bool>::empty()));
    while s < 6
        invariant
            s <= 6,
            host.system_dirs_present@.len() == 6,
            strs(args@) == system_bind_args(host.system_dirs_present@.subrange(0, s as int)),
        decreases 6 - s,
    {
        proof {
            let t = host.system_dirs_present@.subrange(0, s + 1);
            assert(t.drop_last() =~= host.system_dirs_present@.subrange(0, s as int));
            assert(t.last() == host.system_dirs_present@[s as int]);
        }
        if host.system_dirs_present[s] {
            let d: &str = if s == 0 {
                "/usr"
            } else if s == 1 {
                "/bin"
            } else if s == 2 {
                "/lib"
            } else if s == 3 {
                "/lib64"
            } else if s == 4 {
                "/etc"
            } else {
                "/opt"
            };
            let ghost before = strs(args@);
            push_str(&mut args, "--ro-bind");
            push_str(&mut args, d);
            push_str(&mut args, d);
            assert(strs(args@) =~= before + seq!["--ro-bind"@, system_dir(s as int), system_dir(s as int)]);
        } else {
            assert(strs(args@) =~= strs(args@) + Seq::<Seq<char>>::empty());
        }
        s += 1;
    }
    assert(host.system_dirs_present@.subrange(0, 6) =~= host.system_dirs_present@);
    let ghost sys = strs(args@);
    push_str(&mut args, "--proc");
    push_str(&mut args, "/proc");
    push_str(&mut args, "--dev-bind");
    push_str(&mut args, "/dev");
    push_str(&mut args, "/dev");
    let ghost base = strs(args@);
    assert(base =~= sys + seq!["--proc"@, "/proc"@, "--dev-bind"@, "/dev"@, "/dev"@]);
    let mut k: usize = 0;
    assert(final_dirs.subrange(0, 0) =~= Seq::<Seq<char>>::empty());
    assert(strs(args@) =~= base + dir_args(Seq::<Seq<char>>::empty()));
    while k < dirs.len()
        invariant
            final_dirs == strs(dirs@),
            k <= dirs@.len(),
            strs(args@) == base + dir_args(final_dirs.subrange(0, k as int)),
        decreases dirs.len() - k,
    {
        let ghost before = strs(args@);
        push_str(&mut args, "--dir");
        push_str(&mut args, dirs[k].as_str());
        proof {
            let t = final_dirs.subrange(0, k + 1);
            assert(t.drop_last() =~= final_dirs.subrange(0, k as int));
            assert(t.last() == dirs@[k as int]@);
            assert(strs(args@) =~= before + seq!["--dir"@, dirs@[k as int]@]);
        }
        k += 1;
    }
    assert(final_dirs.subrange(0, dirs@.len() as int) =~= final_dirs);
    let ghost with_dirs = strs(args@);
    if host.x11_socket_dir_present {
        push_str(&mut args, "--ro-bind");
        push_str(&mut args, "/tmp/.X11-unix");
        push_str(&mut args, "/tmp/.X11-unix");
    }
    let ghost with_x11 = strs(args@);
    assert(with_x11 =~= with_dirs + if host.x11_socket_dir_present {
        seq!["--ro-bind"@, "/tmp/.X11-unix"@, "/tmp/.X11-unix"@]
    } else {
        Seq::<Seq<char>>::empty()
    });
    push_str(&mut args, "--ro-bind");
    push_str(&mut args, xauthority_path);
    push_str(&mut args, xauthority_path);
    let ghost with_auth = strs(args@);
    assert(with_auth =~= with_x11 + seq!["--ro-bind"@, xauthority_path@, xauthority_path@]);
    let mut q: usize = 0;
    assert(pol.mounts@.subrange(0, 0) =~= Seq::<ProfileMount>::empty());
    assert(strs(args@) =~= with_auth + mount_bind_args(Seq::<ProfileMount>::empty()));
    while q < pol.mounts.len()
        invariant
            q <= pol.mounts@.len(),
            strs(args@) == with_auth + mount_bind_args(pol.mounts@.subrange(0, q as int)),
        decreases pol.mounts.len() - q,
    {
        let m = &pol.mounts[q];
        let ghost before = strs(args@);
        match m.mode {
            MountMode::ReadOnly => push_str(&mut args, "--ro-bind"),
            MountMode::ReadWrite => push_str(&mut args, "--bind"),
        }
        push_str(&mut args, m.host_path.as_str());
        push_str(&mut args, m.workspace_path.as_str());
        proof {
            let t = pol.mounts@.subrange(0, q + 1);
            assert(t.drop_last() =~= pol.mounts@.subrange(0, q as int));
            assert(t.last() == pol.mounts@[q as int]);
            assert(strs(args@) =~= before + seq![
                bind_flag(m.mode),
                m.host_path@,
                m.workspace_path@,
            ]);
        }
        q += 1;
    }
    assert(pol.mounts@.subrange(0, pol.mounts@.len() as int) =~= pol.mounts@);
    let ghost with_mounts = strs(args@);
    if network {
        push_str(&mut args, "--unshare-net");
    }
    let ghost with_net = strs(args@);
    assert(with_net =~= with_mounts + if network {
        seq!["--unshare-net"@]
    } else {
        Seq::<Seq<char>>::empty()
    });
    push_str(&mut args, "--chdir");
    match cwd {
        Some(c) => push_str(&mut args, c),
        None => push_str(&mut args, "/tmp"),
    }
    proof {
        assert(strs(args@) =~= namespace_args(
            final_dirs,
            xauthority_path@,
            text_value(cwd),
            network,
            *host,
            pol.mounts@,
        ));
    }
    Ok(args)
}

proof fn lemma_sandbox_issue_prefix(mounts: Seq<ProfileMount>, present: Seq<bool>, k: int)
    requires
        0 <= k <= mounts.len(),
        mounts_sandbox_issue(mounts.subrange(0, k), present) is Some,
    ensures
        mounts_sandbox_issue(mounts, present) == mounts_sandbox_issue(mounts.subrange(0, k), present),
    decreases mounts.len() - k,
{
    if k == mounts.len() {
        assert(mounts.subrange(0, k) =~= mounts);
    } else {
        let t = mounts.subrange(0, k + 1);
        assert(t.drop_last() =~= mounts.subrange(0, k));
        lemma_sandbox_issue_prefix(mounts, present, k + 1);
    }
}

/// The policy a reference points at.
pub open spec fn policy_value(policy: Option<&AppliedWorkspacePolicy>) -> Option<AppliedWorkspacePolicy> {
    match policy {
        Some(p) => Some(*p),
        None => None,
    }
}

/// The text of an optional string slice.
pub open spec fn text_value(s: Option<&str>) -> Option<Seq<char>> {
    match s {
        Some(c) => Some(c@),
        None => None,
    }
}

/// The network isolation reported for a launch under a policy.
pub open spec fn network_label(policy: Option<AppliedWorkspacePolicy>) -> Seq<char> {
    if bubblewrap_network(policy) {
        "bubblewrap_unshare_net"@
    } else {
        "host"@
    }
}

/// The arguments of a sandbox that only isolates the network: the whole host
/// bound in place, a loopback-only network, and the working directory if given.
pub open spec fn host_bind_args(cwd: Option<Seq<char>>) -> Seq<Seq<char>> {
    seq!["--dev-bind"@, "/"@, "/"@, "--unshare-net"@] + match cwd {
        Some(c) => seq!["--chdir"@, c],
        None => Seq::<Seq<char>>::empty(),
    }
}

/// What preparing the sandbox of a launch gives: no sandbox when the policy
/// enforces neither mounts nor network; a mount namespace (failing on a mount
/// bubblewrap cannot make) when it enforces mounts; otherwise a host-wide bind
/// with a loopback-only network.
pub open spec fn sandbox_outcome(
    r: Result<Option<BubblewrapSandbox>, WorkspaceError>,
    xauthority_path: Seq<char>,
    policy: Option<AppliedWorkspacePolicy>,
    cwd: Option<Seq<char>>,
    host: SandboxHost,
) -> bool {
    &&& !bubblewrap_network(policy) && !bubblewrap_mounts(policy) ==> (r matches Ok(None))
    &&& bubblewrap_mounts(policy) ==> match mounts_sandbox_issue(
        policy->0.mounts@,
        host.mount_host_paths_present@,
    ) {
        Some(issue) => r matches Err(e) && e@ == issue,
        None => r matches Ok(Some(sb)) && sb.mount_isolation@ == "bubblewrap_mount_namespace"@
            && sb.network_isolation@ == network_label(policy) && exists|dirs: Seq<Seq<char>>|
            #[trigger] sorted_dir_set(
                dirs,
                sandbox_dirs_added(xauthority_path, host.x11_socket_dir_present, policy->0.mounts@),
            ) && strs(sb.args@) == namespace_args(
                dirs,
                xauthority_path,
                cwd,
                bubblewrap_network(policy),
                host,
                policy->0.mounts@,
            ),
    }
    &&& bubblewrap_network(policy) && !bubblewrap_mounts(policy) ==> (r matches Ok(Some(sb))
        && sb.mount_isolation@ == "host"@ && sb.network_isolation@ == network_label(policy)
        && strs(sb.args@) == host_bind_args(cwd))
}

/// The sandbox of a launch under a policy: a mount namespace when the policy's
/// mounts are enforced (with a loopback-only network when that is enforced too),
/// a host-wide bind with a loopback-only network when only the network is
/// enforced, and none otherwise.
pub fn bubblewrap_sandbox_for_launch(
    xauthority_path: &str,
    policy: Option<&AppliedWorkspacePolicy>,
    cwd: Option<&str>,
    host: &SandboxHost,
) -> (r: Result<Option<BubblewrapSandbox>, WorkspaceError>)
    requires
        host.system_dirs_present@.len() == 6,
        policy is Some ==> host.mount_host_paths_present@.len() == policy->0.mounts@.len(),
    ensures
        sandbox_outcome(r, xauthority_path@, policy_value(policy), text_value(cwd), *host),
{
    let network = crate::checks::uses_bubblewrap_network_isolation(policy);
    let mounts = crate::checks::uses_bubblewrap_mount_isolation(policy);
    if !network && !mounts {
        return Ok(None);
    }
    let network_isolation = if network {
        owned("bubblewrap_unshare_net")
    } else {
        owned("host")
    };
    if mounts {
        let args = match restricted_mount_namespace_args(xauthority_path, policy, cwd, network, host) {
            Ok(a) => a,
            Err(e) => {
                return Err(e);
            },
        };
        let sb = BubblewrapSandbox {
            args,
            mount_isolation: owned("bubblewrap_mount_namespace"),
            network_isolation,
        };
        Ok(Some(sb))
    } else {
        let mut args: Vec<String> = Vec::new();
        push_str(&mut args, "--dev-bind");
        push_str(&mut args, "/");
        push_str(&mut args, "/");
        push_str(&mut args, "--unshare-net");
        let ghost base = strs(args@);
        if let Some(c) = cwd {
            push_str(&mut args, "--chdir");
            push_str(&mut args, c);
        }
        proof {
            assert(strs(args@) =~= host_bind_args(text_value(cwd)));
        }
        let sb = BubblewrapSandbox { args, mount_isolation: owned("host"), network_isolation };
        Ok(Some(sb))
    }
}

} // verus!
