//! The daemon's view of launched apps: how an app is named on the command line,
//! which apps a listing shows, and which single app a target means.
use crate::checks::{WorkspaceError, WorkspaceIssue};
use crate::text::{
    concat2, contains_ascii_case_insensitive, contains_ci, decimal, join, join_strings, strs,
    u32_to_string, debug_quoted, debug_text,
};
use crate::workspace::WorkspaceApp;
use vstd::prelude::*;
use vstd::string::*;

verus! {

/// An app answers to its id, its pid in decimal, or its name.
pub open spec fn app_matches_id(app: WorkspaceApp, app_id: Seq<char>) -> bool {
    ||| app.id@ == app_id
    ||| decimal(app.pid as nat) == app_id
    ||| (app.name is Some && app.name->0@ == app_id)
}

/// Whether `app_id` names this app (by id, decimal pid or name).
pub fn matches_app_id(app: &WorkspaceApp, app_id: &str) -> (r: bool)
    ensures
        r == app_matches_id(*app, app_id@),
{
    if crate::permissions::str_eq(app.id.as_str(), app_id) {
        return true;
    }
    let pid = u32_to_string(app.pid);
    if crate::permissions::str_eq(pid.as_str(), app_id) {
        return true;
    }
    match &app.name {
        Some(n) => crate::permissions::str_eq(n.as_str(), app_id),
        None => false,
    }
}

/// A command matches a needle when one of its arguments, or the whole command line
/// joined by spaces, contains it in any ASCII case.
pub open spec fn command_matches_text(command: Seq<String>, needle: Seq<char>) -> bool {
    (exists|i: int| 0 <= i < command.len() && contains_ci(#[trigger] command[i]@, needle))
        || contains_ci(join(strs(command), " "@), needle)
}

/// Whether a command matches a needle (see `command_matches_text`).
pub fn command_matches(command: &Vec<String>, needle: &str) -> (r: bool)
    ensures
        r == command_matches_text(command@, needle@),
{
    let mut i: usize = 0;
    while i < command.len()
        invariant
            i <= command@.len(),
            forall|j: int| 0 <= j < i ==> !contains_ci(#[trigger] command@[j]@, needle@),
        decreases command.len() - i,
    {
        if contains_ascii_case_insensitive(command[i].as_str(), needle) {
            assert(contains_ci(command@[i as int]@, needle@));
            return true;
        }
        i += 1;
    }
    let line = join_strings(command, " ");
    contains_ascii_case_insensitive(line.as_str(), needle)
}

/// How an app is named in messages: its id, its quoted name if it has one, and its
/// pid.
pub open spec fn app_label_text(app: WorkspaceApp) -> Seq<char> {
    match app.name {
        Some(n) => app.id@ + " (name "@ + debug_text(n@) + ", pid "@ + decimal(app.pid as nat) + ")"@,
        None => app.id@ + " (pid "@ + decimal(app.pid as nat) + ")"@,
    }
}

/// The label of an app in messages.
pub fn app_label(app: &WorkspaceApp) -> (r: String)
    ensures
        r@ == app_label_text(*app),
{
    let pid = u32_to_string(app.pid);
    match &app.name {
        Some(n) => {
            let q = debug_quoted(n.as_str());
            let mut s = concat2(app.id.as_str(), " (name ");
            s.append(q.as_str());
            s.append(", pid ");
            s.append(pid.as_str());
            s.append(")");
            s
        },
        None => {
            let mut s = concat2(app.id.as_str(), " (pid ");
            s.append(pid.as_str());
            s.append(")");
            s
        },
    }
}

/// How a command is described in messages: its arguments joined by spaces, or
/// `<empty command>`.
pub fn launch_description(command: &Vec<String>) -> (r: String)
    ensures
        r@ == if command@.len() == 0 {
            "<empty command>"@
        } else {
            join(strs(command@), " "@)
        },
{
    if command.len() == 0 {
        String::from_str("<empty command>")
    } else {
        join_strings(command, " ")
    }
}

/// Whether an app passes every filter of a listing that is given.
pub open spec fn app_passes_filters(
    app: WorkspaceApp,
    app_id: Option<String>,
    name_contains: Option<String>,
    command_contains: Option<String>,
    profile_id: Option<String>,
    running: Option<bool>,
) -> bool {
    &&& (app_id is None || app_matches_id(app, app_id->0@))
    &&& (name_contains is None || (app.name is Some && contains_ci(
        app.name->0@,
        name_contains->0@,
    )))
    &&& (command_contains is None || command_matches_text(app.command@, command_contains->0@))
    &&& (profile_id is None || (app.profile_id is Some && app.profile_id->0@ == profile_id->0@))
    &&& (running is None || app.running == running->0)
}

fn app_passes(
    app: &WorkspaceApp,
    app_id: &Option<String>,
    name_contains: &Option<String>,
    command_contains: &Option<String>,
    profile_id: &Option<String>,
    running: Option<bool>,
) -> (r: bool)
    ensures
        r == app_passes_filters(
            *app,
            *app_id,
            *name_contains,
            *command_contains,
            *profile_id,
            running,
        ),
{
    if let Some(target) = app_id {
        if !matches_app_id(app, target.as_str()) {
            return false;
        }
    }
    if let Some(needle) = name_contains {
        match &app.name {
            Some(n) => {
                if !contains_ascii_case_insensitive(n.as_str(), needle.as_str()) {
                    return false;
                }
            },
            None => {
                return false;
            },
        }
    }
    if let Some(needle) = command_contains {
        if !command_matches(&app.command, needle.as_str()) {
            return false;
        }
    }
    if let Some(target) = profile_id {
        match &app.profile_id {
            Some(p) => {
                if !crate::permissions::str_eq(p.as_str(), target.as_str()) {
                    return false;
                }
            },
            None => {
                return false;
            },
        }
    }
    if let Some(want) = running {
        if app.running != want {
            return false;
        }
    }
    true
}

/// The apps of a listing: those that pass every given filter, in their order.
pub fn filter_workspace_apps(
    apps: Vec<WorkspaceApp>,
    app_id: &Option<String>,
    name_contains: &Option<String>,
    command_contains: &Option<String>,
    profile_id: &Option<String>,
    running: Option<bool>,
) -> (r: Vec<WorkspaceApp>)
    ensures
        r@ == apps@.filter(
            |a: WorkspaceApp|
                app_passes_filters(a, *app_id, *name_contains, *command_contains, *profile_id, running),
        ),
{
    let ghost pred = |a: WorkspaceApp|
        app_passes_filters(a, *app_id, *name_contains, *command_contains, *profile_id, running);
    let ghost all = apps@;
    let n = apps.len();
    let mut rest = apps;
    let mut out: Vec<WorkspaceApp> = Vec::new();
    let mut k: usize = 0;
    proof {
        reveal(Seq::filter);
    }
    assert(all.subrange(0, 0).filter(pred) =~= Seq::<WorkspaceApp>::empty());
    assert(rest@ =~= all.subrange(0, all.len() as int));
    while rest.len() > 0
        invariant
            pred == (|a: WorkspaceApp|
                app_passes_filters(a, *app_id, *name_contains, *command_contains, *profile_id, running)),
            k + rest@.len() == all.len(),
            n == all.len(),
            rest@ == all.subrange(k as int, all.len() as int),
            out@ == all.subrange(0, k as int).filter(pred),
        decreases rest.len(),
    {
        let app = rest.remove(0);
        proof {
            assert(app == all[k as int]);
            lemma_filter_step(all, k as int, pred);
            assert(rest@ =~= all.subrange(k + 1, all.len() as int));
        }
        if app_passes(&app, app_id, name_contains, command_contains, profile_id, running) {
            out.push(app);
        }
        k += 1;
    }
    assert(all.subrange(0, all.len() as int) =~= all);
    out
}

proof fn lemma_filter_step<A>(s: Seq<A>, i: int, pred: spec_fn(A) -> bool)
    requires
        0 <= i < s.len(),
    ensures
        s.subrange(0, i + 1).filter(pred) == if pred(s[i]) {
            s.subrange(0, i).filter(pred).push(s[i])
        } else {
            s.subrange(0, i).filter(pred)
        },
{
    reveal(Seq::filter);
    let t = s.subrange(0, i + 1);
    assert(t.drop_last() =~= s.subrange(0, i));
    assert(t.last() == s[i]);
}

/// The apps a target names, in their order.
pub open spec fn apps_named(apps: Seq<WorkspaceApp>, app_id: Seq<char>) -> Seq<WorkspaceApp> {
    apps.filter(|a: WorkspaceApp| app_matches_id(a, app_id))
}

/// The labels of apps, joined by `, `.
pub open spec fn labels_text(apps: Seq<WorkspaceApp>) -> Seq<char> {
    join(apps.map_values(|a: WorkspaceApp| app_label_text(a)), ", "@)
}

/// The one app a target names: refused when no app or more than one answers to it.
pub fn resolve_workspace_app(apps: &Vec<WorkspaceApp>, app_id: &str) -> (r: Result<
    usize,
    WorkspaceError,
>)
    ensures
        match r {
            Ok(k) => apps_named(apps@, app_id@).len() == 1 && k < apps@.len() && apps@[k as int]
                == apps_named(apps@, app_id@)[0],
            Err(e) => if apps_named(apps@, app_id@).len() == 0 {
                e@ == WorkspaceIssue::AppNotFound { app_id: app_id@ }
            } else {
                apps_named(apps@, app_id@).len() >= 2 && e@ == WorkspaceIssue::AppAmbiguous {
                    app_id: app_id@,
                    labels: labels_text(apps_named(apps@, app_id@)),
                }
            },
        },
{
    let ghost pred = |a: WorkspaceApp| app_matches_id(a, app_id@);
    let mut first: usize = 0;
    let mut labels: Vec<String> = Vec::new();
    let mut i: usize = 0;
    proof {
        reveal(Seq::filter);
    }
    assert(apps@.subrange(0, 0).filter(pred) =~= Seq::<WorkspaceApp>::empty());
    assert(strs(labels@) =~= Seq::<WorkspaceApp>::empty().map_values(
        |a: WorkspaceApp| app_label_text(a),
    ));
    while i < apps.len()
        invariant
            pred == (|a: WorkspaceApp| app_matches_id(a, app_id@)),
            i <= apps@.len(),
            strs(labels@) == apps@.subrange(0, i as int).filter(pred).map_values(
                |a: WorkspaceApp| app_label_text(a),
            ),
            labels@.len() == apps@.subrange(0, i as int).filter(pred).len(),
            labels@.len() > 0 ==> first < i && apps@[first as int] == apps@.subrange(
                0,
                i as int,
            ).filter(pred)[0],
        decreases apps.len() - i,
    {
        let ghost before = apps@.subrange(0, i as int).filter(pred);
        proof {
            lemma_filter_step(apps@, i as int, pred);
        }
        if matches_app_id(&apps[i], app_id) {
            if labels.len() == 0 {
                first = i;
            }
            let ghost prev = strs(labels@);
            labels.push(app_label(&apps[i]));
            proof {
                assert(apps@.subrange(0, i + 1).filter(pred) == before.push(apps@[i as int]));
                assert(strs(labels@) =~= prev.push(app_label_text(apps@[i as int])));
                assert(before.push(apps@[i as int]).map_values(|a: WorkspaceApp| app_label_text(a))
                    =~= before.map_values(|a: WorkspaceApp| app_label_text(a)).push(
                    app_label_text(apps@[i as int]),
                ));
            }
        } else {
            proof {
                assert(apps@.subrange(0, i + 1).filter(pred) == before);
            }
        }
        i += 1;
    }
    proof {
        assert(apps@.subrange(0, apps@.len() as int) =~= apps@);
    }
    if labels.len() == 0 {
        return Err(WorkspaceError::AppNotFound { app_id: String::from_str(app_id) });
    }
    if labels.len() == 1 {
        return Ok(first);
    }
    Err(
        WorkspaceError::AppAmbiguous {
            app_id: String::from_str(app_id),
            labels: join_strings(&labels, ", "),
        },
    )
}

/// A listing keeps exactly the apps that pass every filter given: with an app
/// target, each app it returns answers to that target (its id, its decimal pid, or
/// its name); with a name filter, each has a name containing it (ignoring ASCII
/// case); with a profile, each was launched from that profile; with a running
/// filter, each is in that state. An app that passes them all is kept.
pub proof fn law_listing_keeps_matching_apps(
    apps: Seq<WorkspaceApp>,
    app_id: Option<String>,
    name_contains: Option<String>,
    command_contains: Option<String>,
    profile_id: Option<String>,
    running: Option<bool>,
    k: int,
)
    ensures
        ({
            let kept = apps.filter(
                |a: WorkspaceApp|
                    app_passes_filters(a, app_id, name_contains, command_contains, profile_id, running),
            );
            0 <= k < kept.len() ==> {
                let a = kept[k];
                &&& app_id is Some ==> (a.id@ == app_id->0@ || decimal(a.pid as nat) == app_id->0@ || (
                a.name is Some && a.name->0@ == app_id->0@))
                &&& name_contains is Some ==> (a.name is Some && contains_ci(
                    a.name->0@,
                    name_contains->0@,
                ))
                &&& profile_id is Some ==> (a.profile_id is Some && a.profile_id->0@
                    == profile_id->0@)
                &&& running is Some ==> a.running == running->0
                &&& apps.contains(a)
            }
        }),
        ({
            let kept = apps.filter(
                |a: WorkspaceApp|
                    app_passes_filters(a, app_id, name_contains, command_contains, profile_id, running),
            );
            (0 <= k < apps.len() && (app_id is Some ==> app_matches_id(apps[k], app_id->0@)) && (
            name_contains is Some ==> (apps[k].name is Some && contains_ci(
                apps[k].name->0@,
                name_contains->0@,
            ))) && (command_contains is Some ==> command_matches_text(
                apps[k].command@,
                command_contains->0@,
            )) && (profile_id is Some ==> (apps[k].profile_id is Some
                && apps[k].profile_id->0@ == profile_id->0@)) && (running is Some ==> apps[k].running
                == running->0)) ==> kept.contains(apps[k])
        }),
{
    let pred = |a: WorkspaceApp|
        app_passes_filters(a, app_id, name_contains, command_contains, profile_id, running);
    let kept = apps.filter(pred);
    if 0 <= k < kept.len() {
        apps.lemma_filter_pred(pred, k);
        let a = kept[k];
        assert(pred(a));
        assert(app_passes_filters(a, app_id, name_contains, command_contains, profile_id, running));
        assert(kept.contains(a));
        apps.lemma_filter_contains_rev(pred, a);
    }
    if 0 <= k < apps.len() && pred(apps[k]) {
        apps.lemma_filter_contains(pred, k);
    }
}

} // verus!
