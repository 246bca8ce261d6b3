//! The workspaces found in the runtime directory, and which stale ones a cleanup
//! removes.
use crate::checks::{sanitize_workspace_id, workspace_id_issue, WorkspaceError};
use crate::profile::{
    lemma_text_lt_irreflexive, lemma_text_lt_transitive, string_lt, text_lt,
};
use crate::text::{owned, trim};
use crate::workspace::{WorkspaceCleanupEntry, WorkspaceList, WorkspaceListEntry};
use vstd::prelude::*;
use vstd::string::*;

verus! {

/// Entries in order of id.
pub open spec fn entries_sorted_by_id(s: Seq<WorkspaceListEntry>) -> bool {
    forall|i: int, j: int|
        0 <= i < j < s.len() ==> !text_lt((#[trigger] s[j]).id@, (#[trigger] s[i]).id@)
}

/// Sorts entries by id, keeping entries with equal ids in their order.
pub fn sort_entries(entries: Vec<WorkspaceListEntry>) -> (r: Vec<WorkspaceListEntry>)
    ensures
        entries_sorted_by_id(r@),
        r@.to_multiset() == entries@.to_multiset(),
{
    broadcast use vstd::multiset::group_multiset_axioms;

    let mut rest = entries;
    let mut out: Vec<WorkspaceListEntry> = Vec::new();
    let ghost orig = rest@;
    proof {
        vstd::multiset::lemma_multiset_empty_len(out@.to_multiset());
        out@.to_multiset_ensures();
        assert(out@.to_multiset() =~= vstd::multiset::Multiset::empty());
        assert(out@.to_multiset().add(rest@.to_multiset()) =~= orig.to_multiset());
    }
    while rest.len() > 0
        invariant
            entries_sorted_by_id(out@),
            out@.to_multiset().add(rest@.to_multiset()) == orig.to_multiset(),
        decreases rest.len(),
    {
        let ghost before_rest = rest@;
        let x = rest.remove(0);
        proof {
            vstd::seq_lib::to_multiset_remove(before_rest, 0);
            before_rest.to_multiset_ensures();
        }
        let mut p: usize = 0;
        while p < out.len() && !string_lt(x.id.as_str(), out[p].id.as_str())
            invariant
                p <= out@.len(),
                forall|k: int| 0 <= k < p ==> !text_lt(x.id@, (#[trigger] out@[k]).id@),
            decreases out.len() - p,
        {
            p += 1;
        }
        let ghost before = out@;
        proof {
            assert forall|k: int| p <= k < before.len() implies !text_lt(
                (#[trigger] before[k]).id@,
                x.id@,
            ) by {
                assert(text_lt(x.id@, before[p as int].id@));
                if text_lt(before[k].id@, x.id@) {
                    lemma_text_lt_transitive(before[k].id@, x.id@, before[p as int].id@);
                    if k == p {
                        lemma_text_lt_irreflexive(before[k].id@);
                    }
                }
            }
        }
        out.insert(p, x);
        proof {
            assert(out@ == before.insert(p as int, x));
            assert forall|i: int, j: int| 0 <= i < j < out@.len() implies !text_lt(
                (#[trigger] out@[j]).id@,
                (#[trigger] out@[i]).id@,
            ) by {
                if j < p {
                    assert(out@[i] == before[i] && out@[j] == before[j]);
                } else if j == p {
                    assert(out@[i] == before[i]);
                } else if i < p {
                    assert(out@[i] == before[i] && out@[j] == before[j - 1]);
                } else if i == p {
                    assert(out@[j] == before[j - 1]);
                } else {
                    assert(out@[i] == before[i - 1] && out@[j] == before[j - 1]);
                }
            }
            vstd::seq_lib::to_multiset_insert(before, p as int, x);
            assert(out@.to_multiset().add(rest@.to_multiset()) =~= orig.to_multiset());
        }
    }
    proof {
        rest@.to_multiset_ensures();
        vstd::multiset::lemma_multiset_empty_len(rest@.to_multiset());
        assert(rest@.to_multiset() =~= vstd::multiset::Multiset::empty());
        assert(out@.to_multiset().add(rest@.to_multiset()) =~= out@.to_multiset());
    }
    out
}

/// Whether a directory name in the runtime directory names a workspace: a valid
/// workspace id.
pub fn is_workspace_dir_name(name: &str) -> (r: bool)
    ensures
        r == (workspace_id_issue(name@) is None),
{
    sanitize_workspace_id(name).is_ok()
}

/// The listing of the runtime directory: its workspaces in order of id.
pub fn workspace_list(runtime_base_dir: String, entries: Vec<WorkspaceListEntry>) -> (r:
    WorkspaceList)
    ensures
        r.runtime_base_dir == runtime_base_dir,
        entries_sorted_by_id(r.workspaces@),
        r.workspaces@.to_multiset() == entries@.to_multiset(),
{
    WorkspaceList { runtime_base_dir, workspaces: sort_entries(entries) }
}

/// What a cleanup does with one listed workspace.
#[derive(Clone, Copy, Debug, PartialEq, Eq, Structural)]
pub enum CleanupStep {
    /// Another workspace was asked for: leave it out.
    NotTargeted,
    /// It is running: keep it, and report it as skipped.
    KeepRunning,
    /// It is stale: remove its runtime directory.
    Remove,
    /// It is stale, and the cleanup is a dry run: report it as a candidate.
    WouldRemove,
}

/// The workspace a cleanup is limited to, checked.
pub fn cleanup_target(id: Option<String>) -> (r: Result<Option<String>, WorkspaceError>)
    ensures
        match id {
            None => r matches Ok(None),
            Some(i) => match workspace_id_issue(i@) {
                Some(issue) => r matches Err(e) && e@ == issue,
                None => r matches Ok(Some(t)) && t@ == trim(i@),
            },
        },
{
    match id {
        None => Ok(None),
        Some(i) => match sanitize_workspace_id(i.as_str()) {
            Ok(t) => Ok(Some(t)),
            Err(e) => Err(e),
        },
    }
}

/// What a cleanup does with a listed workspace.
pub open spec fn cleanup_decision(entry: WorkspaceListEntry, target: Option<String>, dry_run: bool) -> CleanupStep {
    if target is Some && entry.id@ != target->0@ {
        CleanupStep::NotTargeted
    } else if entry.running {
        CleanupStep::KeepRunning
    } else if dry_run {
        CleanupStep::WouldRemove
    } else {
        CleanupStep::Remove
    }
}

/// A cleanup never removes a running workspace, nor one other than its target, and
/// a dry run removes nothing.
pub proof fn law_cleanup_spares_running(entry: WorkspaceListEntry, target: Option<String>, dry_run: bool)
    ensures
        entry.running ==> cleanup_decision(entry, target, dry_run) != CleanupStep::Remove,
        cleanup_decision(entry, target, dry_run) == CleanupStep::Remove ==> (target is None
            || entry.id@ == target->0@),
        dry_run ==> cleanup_decision(entry, target, dry_run) != CleanupStep::Remove,
{
}

/// Decides a cleanup for one listed workspace: only the target (if any) is
/// considered, a running workspace is kept, a stale one is removed (or, on a dry
/// run, reported as a candidate).
pub fn cleanup_step(entry: &WorkspaceListEntry, target: &Option<String>, dry_run: bool) -> (r: CleanupStep)
    ensures
        r == cleanup_decision(*entry, *target, dry_run),
{
    if let Some(t) = target {
        if !crate::permissions::str_eq(entry.id.as_str(), t.as_str()) {
            return CleanupStep::NotTargeted;
        }
    }
    if entry.running {
        CleanupStep::KeepRunning
    } else if dry_run {
        CleanupStep::WouldRemove
    } else {
        CleanupStep::Remove
    }
}

/// The report line of a workspace a cleanup handled, with the reason given.
pub fn cleanup_entry(entry: &WorkspaceListEntry, reason: String) -> (r: WorkspaceCleanupEntry)
    ensures
        r.id == entry.id,
        r.runtime_dir == entry.runtime_dir,
        r.reason == reason,
{
    WorkspaceCleanupEntry { id: entry.id.clone(), runtime_dir: entry.runtime_dir.clone(), reason }
}

/// The reason a running workspace is skipped.
pub fn running_reason() -> (r: String)
    ensures
        r@ == "workspace is running"@,
{
    owned("workspace is running")
}

/// The reason reported for a workspace a dry run would remove.
pub fn would_remove_reason() -> (r: String)
    ensures
        r@ == "stale workspace runtime would be removed"@,
{
    owned("stale workspace runtime would be removed")
}

/// The reason reported for a removed workspace.
pub fn removed_reason() -> (r: String)
    ensures
        r@ == "removed stale workspace runtime"@,
{
    owned("removed stale workspace runtime")
}

} // verus!
