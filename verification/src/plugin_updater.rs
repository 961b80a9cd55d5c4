//! Update orchestrator: enumerates the configured artifact groups, runs the
//! update checker for each one in turn, folds the per-group "changed" flags
//! together with the ungrouped browser-binary update, and — only when
//! anything changed — schedules a single user-visible notice on the
//! async-to-main-thread bridge.

use vstd::prelude::*;
use crate::bridge::Bridge;
use crate::checker::{check_rel, GitHubReleaseChecker, GroupRun};
use crate::release::{ErrorKind, InstallOutcome, QueryResult};

verus! {

/// Destination of the loader plugin group: a single shared library under the
/// host's plugin directory.
pub open spec fn cef_loader_paths() -> Seq<Seq<char>> {
    seq!["plugins/classicube_cef_loader_linux_x86_64.so"@]
}

/// Destinations of the main plugin group: the plugin library and the
/// browser-process executable, in the registry's asset order.
pub open spec fn cef_paths() -> Seq<Seq<char>> {
    seq!["./cef/classicube_cef_linux_x86_64.so"@, "cef/cef-linux-x86_64"@]
}

/// The statically configured artifact groups, in the order they are checked.
pub open spec fn is_github_plugins(cs: Seq<GitHubReleaseChecker>) -> bool {
    &&& cs.len() == 2
    &&& cs[0].spec_name() == "Cef Loader"@
    &&& cs[0].spec_owner() == "SpiralP"@
    &&& cs[0].spec_repo() == "classicube-cef-loader-plugin"@
    &&& cs[0].spec_paths() == cef_loader_paths()
    &&& cs[1].spec_name() == "Cef"@
    &&& cs[1].spec_owner() == "SpiralP"@
    &&& cs[1].spec_repo() == "classicube-cef-plugin"@
    &&& cs[1].spec_paths() == cef_paths()
}

/// Builds the configured artifact groups: the loader plugin (one asset) and
/// the main plugin with its browser executable (two assets), both published
/// under the same registry owner.
pub fn github_plugins() -> (v: Vec<GitHubReleaseChecker>)
    ensures
        is_github_plugins(v@),
{
    let loader_paths: Vec<String> = vec!["plugins/classicube_cef_loader_linux_x86_64.so".to_owned()];
    let plugin_paths: Vec<String> = vec![
        "./cef/classicube_cef_linux_x86_64.so".to_owned(),
        "cef/cef-linux-x86_64".to_owned(),
    ];
    let v: Vec<GitHubReleaseChecker> = vec![
        GitHubReleaseChecker::new(
            "Cef Loader".to_owned(),
            "SpiralP".to_owned(),
            "classicube-cef-loader-plugin".to_owned(),
            loader_paths,
        ),
        GitHubReleaseChecker::new(
            "Cef".to_owned(),
            "SpiralP".to_owned(),
            "classicube-cef-plugin".to_owned(),
            plugin_paths,
        ),
    ];
    proof {
        assert(v@[0].spec_paths() =~= cef_loader_paths());
        assert(v@[1].spec_paths() =~= cef_paths());
    }
    v
}

/// Every group's run obeys the checker's contract against its own marker,
/// query answer and installation outcomes.
pub open spec fn runs_rel(
    checkers: Seq<GitHubReleaseChecker>,
    markers: Seq<Option<String>>,
    queries: Seq<QueryResult>,
    outcomes: Seq<Vec<InstallOutcome>>,
    runs: Seq<GroupRun>,
) -> bool {
    &&& runs.len() == checkers.len()
    &&& forall|i: int|
        0 <= i < checkers.len() ==> check_rel(
            checkers[i].spec_paths(),
            markers[i],
            queries[i],
            outcomes[i]@,
            runs[i],
        )
}

/// Whether anything changed over the whole run: the ungrouped update or any
/// group. A group that failed reports "not changed", and its failure never
/// aborts the others.
pub open spec fn spec_any_changed(runs: Seq<GroupRun>, ungrouped_changed: bool) -> bool {
    ungrouped_changed || exists|i: int| 0 <= i < runs.len() && runs[i].changed
}

/// The ungrouped browser-binary update only counts as a change when it
/// succeeded and reported one; its failure is logged, not propagated.
pub open spec fn spec_ungrouped_changed(r: Result<bool, ErrorKind>) -> bool {
    match r {
        Ok(b) => b,
        Err(_) => false,
    }
}

/// The user-visible notice emitted on the main thread when any artifact was
/// replaced.
pub open spec fn update_notice() -> Seq<char> {
    "Everything done, restart your game to finish the update!"@
}

/// Builds the notice text.
pub fn update_notice_text() -> (s: String)
    ensures
        s@ == update_notice(),
{
    "Everything done, restart your game to finish the update!".to_owned()
}

/// Runs the update checker of every group in order, each against its own
/// marker, registry answer and installation outcomes. A failure in one group
/// is recorded in that group's run and never stops the iteration.
pub fn run_update_checks(
    checkers: &Vec<GitHubReleaseChecker>,
    markers: &Vec<Option<String>>,
    queries: &Vec<QueryResult>,
    outcomes: &Vec<Vec<InstallOutcome>>,
) -> (runs: Vec<GroupRun>)
    requires
        markers@.len() == checkers@.len(),
        queries@.len() == checkers@.len(),
        outcomes@.len() == checkers@.len(),
        forall|i: int|
            0 <= i < checkers@.len() ==> outcomes@[i]@.len() == checkers@[i].spec_paths().len(),
    ensures
        runs_rel(checkers@, markers@, queries@, outcomes@, runs@),
{
    let n = checkers.len();
    let mut runs: Vec<GroupRun> = Vec::new();
    let mut i: usize = 0;
    while i < n
        invariant
            n == checkers@.len(),
            markers@.len() == n,
            queries@.len() == n,
            outcomes@.len() == n,
            forall|j: int| 0 <= j < n ==> outcomes@[j]@.len() == checkers@[j].spec_paths().len(),
            i <= n,
            runs@.len() == i,
            forall|j: int|
                0 <= j < i ==> check_rel(
                    checkers@[j].spec_paths(),
                    markers@[j],
                    queries@[j],
                    outcomes@[j]@,
                    runs@[j],
                ),
        decreases n - i,
    {
        let run = checkers[i].check_update(&markers[i], &queries[i], &outcomes[i]);
        runs.push(run);
        i = i + 1;
    }
    runs
}

/// Folds the per-group results with the ungrouped update into the single
/// "did anything change" answer.
pub fn any_changed(runs: &Vec<GroupRun>, ungrouped: &Result<bool, ErrorKind>) -> (b: bool)
    ensures
        b == spec_any_changed(runs@, spec_ungrouped_changed(*ungrouped)),
{
    let mut changed: bool = match ungrouped {
        Ok(b) => *b,
        Err(_) => false,
    };
    let n = runs.len();
    let mut i: usize = 0;
    while i < n
        invariant
            n == runs@.len(),
            i <= n,
            changed == (spec_ungrouped_changed(*ungrouped) || exists|j: int|
                0 <= j < i && runs@[j].changed),
        decreases n - i,
    {
        if runs[i].changed {
            changed = true;
        }
        i = i + 1;
    }
    changed
}

/// Orchestrates one full update pass over the configured artifact groups,
/// with the world's answers handed in as plain values: for each group its
/// persisted marker, the registry's reply, and the prospective outcome of
/// each asset installation, plus the result of the ungrouped browser-binary
/// update. Each group runs under the checker's contract; failures stay
/// inside their group. When anything changed, exactly one notice is
/// scheduled on the bridge for the main thread; otherwise the bridge is left
/// untouched.
pub fn update_plugins(
    bridge: &mut Bridge<String>,
    markers: &Vec<Option<String>>,
    queries: &Vec<QueryResult>,
    outcomes: &Vec<Vec<InstallOutcome>>,
    cef_binary: &Result<bool, ErrorKind>,
) -> (r: (Vec<GroupRun>, bool))
    requires
        old(bridge).lifecycle() is Running,
        markers@.len() == 2,
        queries@.len() == 2,
        outcomes@.len() == 2,
        outcomes@[0]@.len() == cef_loader_paths().len(),
        outcomes@[1]@.len() == cef_paths().len(),
    ensures
        r.0@.len() == 2,
        check_rel(cef_loader_paths(), markers@[0], queries@[0], outcomes@[0]@, r.0@[0]),
        check_rel(cef_paths(), markers@[1], queries@[1], outcomes@[1]@, r.0@[1]),
        r.1 == spec_any_changed(r.0@, spec_ungrouped_changed(*cef_binary)),
        if spec_any_changed(r.0@, spec_ungrouped_changed(*cef_binary)) {
            &&& final(bridge).lifecycle() is Running
            &&& final(bridge).pending().len() == old(bridge).pending().len() + 1
            &&& final(bridge).pending().take(old(bridge).pending().len() as int) == old(
                bridge,
            ).pending()
            &&& final(bridge).pending().last()@ == update_notice()
            &&& final(bridge).delivered() == old(bridge).delivered()
        } else {
            *final(bridge) == *old(bridge)
        },
{
    let ghost pre = *bridge;
    let checkers = github_plugins();
    let runs = run_update_checks(&checkers, markers, queries, outcomes);
    let changed = any_changed(&runs, cef_binary);
    if changed {
        let _scheduled = bridge.schedule(update_notice_text());
        proof {
            assert(bridge.pending().take(pre.pending().len() as int) =~= pre.pending());
        }
    }
    (runs, changed)
}

} // verus!
