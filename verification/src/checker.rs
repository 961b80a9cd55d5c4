//! Per-group update checker: compares the persisted marker of the last
//! fully installed version against the latest registry release and drives
//! the installation of every asset in the group, in positional order,
//! advancing the marker only after the whole group succeeded.

use vstd::prelude::*;
use crate::release::{ErrorKind, InstallOutcome, QueryResult, ReleaseInfo};
use crate::text::str_eq;

verus! {

/// The character sequences behind a sequence of strings.
pub open spec fn paths_view(v: Seq<String>) -> Seq<Seq<char>> {
    Seq::new(v.len(), |i: int| v[i]@)
}

/// The character sequence behind an optional string.
pub open spec fn marker_view(m: Option<String>) -> Option<Seq<char>> {
    match m {
        Some(s) => Some(s@),
        None => None,
    }
}

/// An update is needed exactly when the persisted marker differs from the
/// registry's tag. Comparison is exact equality on the opaque tag, so even a
/// lexically "older" tag counts as an update; a missing marker always does.
pub open spec fn spec_needs_update(marker: Option<Seq<char>>, tag: Seq<char>) -> bool {
    match marker {
        Some(m) => m != tag,
        None => true,
    }
}

/// Decides whether the registry tag calls for an update, given the persisted
/// marker of the last fully installed version.
pub fn needs_update(marker: &Option<String>, tag: &String) -> (r: bool)
    ensures
        r == spec_needs_update(marker_view(*marker), tag@),
{
    match marker {
        Some(m) => !str_eq(m.as_str(), tag.as_str()),
        None => true,
    }
}

/// One artifact group tracked by the update checker: a display name, the
/// registry coordinates (owner and repository), and the ordered destination
/// paths — one per asset position of the published release, matched
/// positionally, never by name.
pub struct GitHubReleaseChecker {
    name: String,
    owner: String,
    repo: String,
    paths: Vec<String>,
}

/// What one run of the checker did to the world: which destination paths
/// were replaced (each by one atomic rename, in order), the marker to
/// persist afterwards, whether anything changed, and the error that stopped
/// the run, if one did.
pub struct GroupRun {
    /// Destination paths whose files were replaced, in installation order.
    pub written: Vec<String>,
    /// The marker after the run: the new tag only if every asset installed.
    pub new_marker: Option<String>,
    /// Whether this group reports "changed" to the orchestrator.
    pub changed: bool,
    /// The failure that ended the run, if any; `None` on success and on
    /// "already up to date".
    pub error: Option<ErrorKind>,
}

/// What to attempt when an update is due: the released asset locations and
/// the destination paths they go to, matched positionally — `sources[i]`
/// is installed over `destinations[i]`.
pub struct InstallPlan {
    /// Asset download locations, in the registry's published order.
    pub sources: Vec<String>,
    /// Destination paths, one per asset position.
    pub destinations: Vec<String>,
}

/// A run that touched nothing: no file replaced, marker kept, not changed.
pub open spec fn untouched_run(marker: Option<String>, run: GroupRun) -> bool {
    &&& run.written@.len() == 0
    &&& marker_view(run.new_marker) == marker_view(marker)
    &&& !run.changed
}

/// The installation phase over the group's destination paths, given the
/// prospective outcome of each asset's installation: assets are installed in
/// positional order and the run stops at the first failure. The number of
/// replaced files pins where it stopped: everything before it succeeded, and
/// either the whole group is in (marker advanced to the new tag, changed) or
/// the stopping asset failed (marker kept, not changed, its error reported).
pub open spec fn install_rel(
    paths: Seq<Seq<char>>,
    marker: Option<String>,
    tag: Seq<char>,
    outcomes: Seq<InstallOutcome>,
    run: GroupRun,
) -> bool {
    let k = run.written@.len() as int;
    &&& k <= paths.len()
    &&& paths_view(run.written@) == paths.take(k)
    &&& forall|i: int| 0 <= i < k ==> outcomes[i] is Installed
    &&& if k == paths.len() {
        &&& run.changed
        &&& run.error is None
        &&& marker_view(run.new_marker) == Some(tag)
    } else {
        &&& !(outcomes[k] is Installed)
        &&& !run.changed
        &&& run.error == Some(outcomes[k].spec_error())
        &&& marker_view(run.new_marker) == marker_view(marker)
    }
}

/// Everything one checker run guarantees, by case on the registry's answer:
/// a failed query isolates to this group; no published release counts as up
/// to date; an equal tag is up to date; an asset count that differs from the
/// destination count is a configuration fault that installs nothing; and
/// otherwise the installation phase runs as `install_rel` says.
pub open spec fn check_rel(
    paths: Seq<Seq<char>>,
    marker: Option<String>,
    query: QueryResult,
    outcomes: Seq<InstallOutcome>,
    run: GroupRun,
) -> bool {
    match query {
        QueryResult::NetworkError => untouched_run(marker, run) && run.error == Some(
            ErrorKind::Network,
        ),
        QueryResult::NotFound => untouched_run(marker, run) && run.error is None,
        QueryResult::Release(rel) => {
            if !spec_needs_update(marker_view(marker), rel.tag@) {
                untouched_run(marker, run) && run.error is None
            } else if rel.assets@.len() != paths.len() {
                untouched_run(marker, run) && run.error == Some(ErrorKind::ConfigurationFault)
            } else {
                install_rel(paths, marker, rel.tag@, outcomes, run)
            }
        },
    }
}

impl GitHubReleaseChecker {
    /// The group's display name.
    pub closed spec fn spec_name(self) -> Seq<char> {
        self.name@
    }

    /// The registry owner identifier the group is queried under.
    pub closed spec fn spec_owner(self) -> Seq<char> {
        self.owner@
    }

    /// The registry repository identifier the group is queried under.
    pub closed spec fn spec_repo(self) -> Seq<char> {
        self.repo@
    }

    /// The ordered destination paths, one per expected asset position.
    pub closed spec fn spec_paths(self) -> Seq<Seq<char>> {
        paths_view(self.paths@)
    }

    /// Builds the checker for one artifact group.
    pub fn new(name: String, owner: String, repo: String, paths: Vec<String>) -> (c: Self)
        ensures
            c.spec_name() == name@,
            c.spec_owner() == owner@,
            c.spec_repo() == repo@,
            c.spec_paths() == paths_view(paths@),
    {
        GitHubReleaseChecker { name, owner, repo, paths }
    }

    /// The group's display name, for logging and user-facing text.
    pub fn name(&self) -> (s: &String)
        ensures
            s@ == self.spec_name(),
    {
        &self.name
    }

    /// The registry owner identifier, for the latest-release query.
    pub fn owner(&self) -> (s: &String)
        ensures
            s@ == self.spec_owner(),
    {
        &self.owner
    }

    /// The registry repository identifier, for the latest-release query.
    pub fn repo(&self) -> (s: &String)
        ensures
            s@ == self.spec_repo(),
    {
        &self.repo
    }

    /// The ordered destination paths, one per expected asset position.
    pub fn paths(&self) -> (v: &Vec<String>)
        ensures
            paths_view(v@) == self.spec_paths(),
    {
        &self.paths
    }

    /// Runs the update protocol for this group, with the world's answers
    /// handed in as plain values: the registry's reply to the latest-release
    /// query, and for each destination position the outcome installing that
    /// asset would have (consulted in order, only up to the first failure).
    /// Everything the run did is pinned by `check_rel`.
    pub fn check_update(
        &self,
        marker: &Option<String>,
        query: &QueryResult,
        outcomes: &Vec<InstallOutcome>,
    ) -> (run: GroupRun)
        requires
            outcomes@.len() == self.spec_paths().len(),
        ensures
            check_rel(self.spec_paths(), *marker, *query, outcomes@, run),
    {
        match query {
            QueryResult::NetworkError => GroupRun {
                written: Vec::new(),
                new_marker: clone_marker(marker),
                changed: false,
                error: Some(ErrorKind::Network),
            },
            QueryResult::NotFound => GroupRun {
                written: Vec::new(),
                new_marker: clone_marker(marker),
                changed: false,
                error: None,
            },
            QueryResult::Release(rel) => {
                if !needs_update(marker, &rel.tag) {
                    GroupRun {
                        written: Vec::new(),
                        new_marker: clone_marker(marker),
                        changed: false,
                        error: None,
                    }
                } else if rel.assets.len() != self.paths.len() {
                    GroupRun {
                        written: Vec::new(),
                        new_marker: clone_marker(marker),
                        changed: false,
                        error: Some(ErrorKind::ConfigurationFault),
                    }
                } else {
                    self.install_all(marker, rel, outcomes)
                }
            },
        }
    }

    /// The installation plan to attempt, in order, when the registry's
    /// answer calls for an update: the released asset locations matched
    /// positionally against the group's destination paths. `None` when
    /// nothing is to be installed — the query failed, the registry has no
    /// release, the group is already on the released tag, or the asset
    /// count does not match the destination count.
    pub fn install_plan(&self, marker: &Option<String>, query: &QueryResult) -> (plan: Option<
        InstallPlan,
    >)
        ensures
            match *query {
                QueryResult::Release(rel) => {
                    if spec_needs_update(marker_view(*marker), rel.tag@) && rel.assets@.len()
                        == self.spec_paths().len() {
                        match plan {
                            Some(p) => {
                                &&& p.sources@.len() == self.spec_paths().len()
                                &&& p.destinations@.len() == self.spec_paths().len()
                                &&& forall|i: int|
                                    0 <= i < p.sources@.len() ==> p.sources@[i]@
                                        == rel.assets@[i]@
                                &&& forall|i: int|
                                    0 <= i < p.destinations@.len() ==> p.destinations@[i]@
                                        == self.spec_paths()[i]
                            },
                            None => false,
                        }
                    } else {
                        plan is None
                    }
                },
                _ => plan is None,
            },
    {
        match query {
            QueryResult::Release(rel) => {
                if needs_update(marker, &rel.tag) && rel.assets.len() == self.paths.len() {
                    let n = self.paths.len();
                    let mut sources: Vec<String> = Vec::new();
                    let mut destinations: Vec<String> = Vec::new();
                    let mut i: usize = 0;
                    while i < n
                        invariant
                            n == self.spec_paths().len(),
                            rel.assets@.len() == n,
                            i <= n,
                            sources@.len() == i,
                            destinations@.len() == i,
                            forall|j: int| 0 <= j < i ==> sources@[j]@ == rel.assets@[j]@,
                            forall|j: int| 0 <= j < i ==> destinations@[j]@ == self.spec_paths()[j],
                        decreases n - i,
                    {
                        sources.push(rel.assets[i].as_str().to_owned());
                        destinations.push(self.paths[i].as_str().to_owned());
                        i = i + 1;
                    }
                    Some(InstallPlan { sources, destinations })
                } else {
                    None
                }
            },
            _ => None,
        }
    }

    /// The installation phase: walks the (asset, destination) pairs in
    /// positional order, replacing each destination, and stops at the first
    /// failure; the marker advances to the release's tag only if the whole
    /// group went in.
    fn install_all(
        &self,
        marker: &Option<String>,
        rel: &ReleaseInfo,
        outcomes: &Vec<InstallOutcome>,
    ) -> (run: GroupRun)
        requires
            outcomes@.len() == self.spec_paths().len(),
            rel.assets@.len() == self.spec_paths().len(),
            spec_needs_update(marker_view(*marker), rel.tag@),
        ensures
            install_rel(self.spec_paths(), *marker, rel.tag@, outcomes@, run),
    {
        let n = self.paths.len();
        let mut written: Vec<String> = Vec::new();
        let mut i: usize = 0;
        while i < n
            invariant
                n == self.spec_paths().len(),
                outcomes@.len() == n,
                i <= n,
                written@.len() == i,
                forall|j: int| 0 <= j < i ==> written@[j]@ == self.spec_paths()[j],
                forall|j: int| 0 <= j < i ==> outcomes@[j] is Installed,
            decreases n - i,
        {
            let outcome = outcomes[i];
            match outcome {
                InstallOutcome::Installed => {
                    written.push(self.paths[i].as_str().to_owned());
                    i = i + 1;
                },
                _ => {
                    let run = GroupRun {
                        written,
                        new_marker: clone_marker(marker),
                        changed: false,
                        error: Some(outcome.to_error()),
                    };
                    proof {
                        assert(paths_view(run.written@) =~= self.spec_paths().take(i as int));
                    }
                    return run;
                },
            }
        }
        let run = GroupRun {
            written,
            new_marker: Some(rel.tag.as_str().to_owned()),
            changed: true,
            error: None,
        };
        proof {
            assert(paths_view(run.written@) =~= self.spec_paths().take(n as int));
        }
        run
    }
}

/// Idempotence: when a checker run ends without error — it either installed
/// the whole group or found it already up to date — and the registry still
/// reports the same release, a second run changes nothing: no destination
/// file is touched, the marker keeps its value, and the group reports "not
/// changed". A run that ended in an error is not covered: its marker still
/// names the old tag, so the next run deliberately retries the whole group.
pub proof fn lemma_second_run_changes_nothing(
    paths: Seq<Seq<char>>,
    marker: Option<String>,
    rel: ReleaseInfo,
    outcomes1: Seq<InstallOutcome>,
    run1: GroupRun,
    outcomes2: Seq<InstallOutcome>,
    run2: GroupRun,
)
    requires
        check_rel(paths, marker, QueryResult::Release(rel), outcomes1, run1),
        run1.error is None,
        check_rel(paths, run1.new_marker, QueryResult::Release(rel), outcomes2, run2),
    ensures
        marker_view(run1.new_marker) == Some(rel.tag@),
        !run2.changed,
        run2.written@.len() == 0,
        run2.error is None,
        marker_view(run2.new_marker) == marker_view(run1.new_marker),
{
    if spec_needs_update(marker_view(marker), rel.tag@) {
        if rel.assets@.len() == paths.len() {
            let k = run1.written@.len() as int;
            assert(k == paths.len());
        }
    }
}

/// Exactly-once install: when the registry reports a new tag, the group's
/// asset count matches its destination count, and every installation
/// succeeds, then the sequence of replaced destinations is exactly the
/// group's path list — so a destination listed once is replaced exactly once
/// — and the marker advances to the new tag, once, only after all of them.
pub proof fn lemma_exactly_once_install(
    paths: Seq<Seq<char>>,
    marker: Option<String>,
    rel: ReleaseInfo,
    outcomes: Seq<InstallOutcome>,
    run: GroupRun,
)
    requires
        check_rel(paths, marker, QueryResult::Release(rel), outcomes, run),
        spec_needs_update(marker_view(marker), rel.tag@),
        rel.assets@.len() == paths.len(),
        forall|i: int| 0 <= i < paths.len() ==> outcomes[i] is Installed,
    ensures
        paths_view(run.written@) == paths,
        paths_view(run.written@).to_multiset() == paths.to_multiset(),
        run.changed,
        run.error is None,
        marker_view(run.new_marker) == Some(rel.tag@),
{
    let k = run.written@.len() as int;
    assert(k == paths.len());
    assert(paths.take(k) =~= paths);
}

/// Partial-failure isolation: when installation stops at a failing asset,
/// every destination before it was still replaced, the ones from the failure
/// on were not, and the marker keeps the old tag — so the group straddles
/// two versions on disk, by design. Because the marker was not advanced, a
/// subsequent run against the same release retries the whole group; if the
/// retry installs everything, every destination is replaced and the marker
/// finally advances.
pub proof fn lemma_partial_failure_isolated(
    paths: Seq<Seq<char>>,
    marker: Option<String>,
    rel: ReleaseInfo,
    outcomes: Seq<InstallOutcome>,
    run: GroupRun,
    retry_outcomes: Seq<InstallOutcome>,
    retry_run: GroupRun,
    k: int,
)
    requires
        check_rel(paths, marker, QueryResult::Release(rel), outcomes, run),
        spec_needs_update(marker_view(marker), rel.tag@),
        rel.assets@.len() == paths.len(),
        0 <= k < paths.len(),
        forall|i: int| 0 <= i < k ==> outcomes[i] is Installed,
        !(outcomes[k] is Installed),
        check_rel(paths, run.new_marker, QueryResult::Release(rel), retry_outcomes, retry_run),
    ensures
        paths_view(run.written@) == paths.take(k),
        !run.changed,
        run.error == Some(outcomes[k].spec_error()),
        marker_view(run.new_marker) == marker_view(marker),
        spec_needs_update(marker_view(run.new_marker), rel.tag@),
        (forall|i: int|
            0 <= i < paths.len() ==> retry_outcomes[i] is Installed) ==> {
            &&& paths_view(retry_run.written@) == paths
            &&& retry_run.changed
            &&& marker_view(retry_run.new_marker) == Some(rel.tag@)
        },
{
    let stop = run.written@.len() as int;
    if stop < k {
        assert(outcomes[stop] is Installed);
    }
    if stop > k {
        assert(outcomes[k] is Installed);
    }
    assert(stop == k);
    if forall|i: int| 0 <= i < paths.len() ==> retry_outcomes[i] is Installed {
        lemma_exactly_once_install(paths, run.new_marker, rel, retry_outcomes, retry_run);
    }
}

/// Copies a persisted marker value.
fn clone_marker(m: &Option<String>) -> (r: Option<String>)
    ensures
        marker_view(r) == marker_view(*m),
{
    match m {
        Some(s) => Some(s.as_str().to_owned()),
        None => None,
    }
}

} // verus!
