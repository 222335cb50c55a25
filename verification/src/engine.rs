use vstd::prelude::*;

use crate::identity::{RepoIdentity, RepoIdentityView};
use crate::pattern::{glob_match, CompiledPattern};

verus! {

/// The raw-content URL for one file of a repository at a revision.
pub open spec fn raw_url_of(id: RepoIdentityView, path: Seq<char>) -> Seq<char> {
    "https://raw.githubusercontent.com/"@ + id.owner + "/"@ + id.project + "/"@ + id.revision
        + "/"@ + path
}

/// The destination a downloaded file is written to: the repository's
/// internal path, mirrored under a directory named after the project.
pub open spec fn destination_of(id: RepoIdentityView, path: Seq<char>) -> Seq<char> {
    id.project + "/"@ + path
}

/// Builds the raw-content URL for `path`.
pub fn raw_content_url(id: &RepoIdentity, path: &str) -> (r: String)
    ensures
        r@ == raw_url_of(id@, path@),
{
    let mut out = String::from_str("https://raw.githubusercontent.com/");
    out.append(id.owner.as_str());
    out.append("/");
    out.append(id.project.as_str());
    out.append("/");
    out.append(id.revision.as_str());
    out.append("/");
    out.append(path);
    out
}

/// Builds the destination path for `path`.
pub fn destination_path(id: &RepoIdentity, path: &str) -> (r: String)
    ensures
        r@ == destination_of(id@, path@),
{
    let mut out = id.project.clone();
    out.append("/");
    out.append(path);
    out
}

/// The manifest entries that match the pattern, in manifest order.
pub open spec fn selected(pattern: Seq<char>, manifest: Seq<Seq<char>>) -> Seq<Seq<char>> {
    manifest.filter(|p: Seq<char>| glob_match(pattern, p))
}

/// Filters the manifest by the compiled pattern: exactly the matching
/// entries are selected for download, in manifest order.  Entries the
/// pattern rejects are never scheduled.
pub fn select_paths(manifest: &Vec<String>, pattern: &CompiledPattern) -> (r: Vec<String>)
    ensures
        r.deep_view() == selected(pattern.text_view(), manifest.deep_view()),
{
    let mut out: Vec<String> = Vec::new();
    let n: usize = manifest.len();
    let mut i: usize = 0;
    while i < n
        invariant
            i <= n,
            n == manifest@.len(),
            out.deep_view() == selected(pattern.text_view(), manifest.deep_view().take(i as int)),
        decreases n - i,
    {
        let ghost prev = out.deep_view();
        let ghost dv = manifest.deep_view();
        let entry = &manifest[i];
        assert(dv[i as int] == entry@);
        if pattern.matches_path(entry.as_str()) {
            out.push(entry.clone());
            proof {
                assert(out.deep_view() =~= prev.push(entry@));
            }
        }
        proof {
            reveal(Seq::filter);
            assert(dv.take(i + 1 as int).drop_last() =~= dv.take(i as int));
            assert(dv.take(i + 1 as int).last() == dv[i as int]);
        }
        i = i + 1;
    }
    proof {
        assert(manifest.deep_view().take(n as int) =~= manifest.deep_view());
    }
    out
}

/// The plan for one unit of work, decided from whether its destination
/// already exists.
#[derive(Clone, Copy, Debug, PartialEq, Eq, Structural)]
pub enum UnitPlan {
    /// The destination file is already present: the unit is satisfied,
    /// with no network request and no write.
    SkipExisting,
    /// The destination is absent: fetch the content and write it.
    Fetch,
}

/// The skip-if-exists rule: a destination already present is never
/// re-fetched or overwritten (the existence check suppresses the network
/// request as well as the write), so a repeated run leaves every
/// previously downloaded file untouched.
pub fn plan_unit(dest_exists: bool) -> (r: UnitPlan)
    ensures
        r == (if dest_exists {
            UnitPlan::SkipExisting
        } else {
            UnitPlan::Fetch
        }),
{
    if dest_exists {
        UnitPlan::SkipExisting
    } else {
        UnitPlan::Fetch
    }
}

/// How one unit of work ended.
#[derive(Clone, Copy, Debug, PartialEq, Eq, Structural)]
pub enum UnitEvent {
    /// The destination already existed; nothing was fetched or written.
    AlreadyPresent,
    /// The content was fetched and written in full.
    Written,
    /// The network request failed.
    FetchFailed,
    /// Creating the directories or writing the file failed.
    WriteFailed,
}

/// Whether an event counts as a successful download.
pub open spec fn event_succeeds(e: UnitEvent) -> bool {
    e == UnitEvent::AlreadyPresent || e == UnitEvent::Written
}

/// The outcome of one unit of work, for reporting.
pub struct DownloadOutcome {
    pub path: String,
    pub success: bool,
}

/// Converts the terminal event of one unit into its reported outcome: a
/// unit succeeds exactly when its file was already present or was
/// written in full.
pub fn unit_outcome(path: String, event: UnitEvent) -> (r: DownloadOutcome)
    ensures
        r.path == path,
        r.success == event_succeeds(event),
{
    let success = match event {
        UnitEvent::AlreadyPresent => true,
        UnitEvent::Written => true,
        UnitEvent::FetchFailed => false,
        UnitEvent::WriteFailed => false,
    };
    DownloadOutcome { path, success }
}

/// The outcomes of a run, as a function of each unit's own terminal
/// event: outcome `i` depends on event `i` alone.
pub open spec fn outcomes_of(paths: Seq<Seq<char>>, events: Seq<UnitEvent>) -> Seq<
    (Seq<char>, bool),
> {
    Seq::new(paths.len(), |i: int| (paths[i], event_succeeds(events[i])))
}

/// Law: failure isolation.  If two runs over the same selected paths
/// differ only in what happened to unit `j` (say, a network failure for
/// that one path), every other unit's outcome is unchanged: one unit's
/// failure never affects another unit.
pub proof fn lemma_failure_isolation(
    paths: Seq<Seq<char>>,
    evs1: Seq<UnitEvent>,
    evs2: Seq<UnitEvent>,
    j: int,
)
    requires
        evs1.len() == paths.len(),
        evs2.len() == paths.len(),
        0 <= j < paths.len(),
        forall|i: int| 0 <= i < paths.len() && i != j ==> evs1[i] == evs2[i],
    ensures
        forall|i: int|
            0 <= i < paths.len() && i != j ==> outcomes_of(paths, evs1)[i] == outcomes_of(
                paths,
                evs2,
            )[i],
{
}

/// Counts the successful outcomes of a run.
pub fn count_successes(outcomes: &Vec<DownloadOutcome>) -> (n: usize)
    ensures
        n == successes_in(outcomes.deep_view()),
        n <= outcomes@.len(),
{
    let mut n: usize = 0;
    let len: usize = outcomes.len();
    let mut i: usize = 0;
    while i < len
        invariant
            i <= len,
            len == outcomes@.len(),
            outcomes.deep_view().len() == outcomes@.len(),
            n == successes_in(outcomes.deep_view().take(i as int)),
            n <= i,
        decreases len - i,
    {
        let ghost dv = outcomes.deep_view();
        proof {
            assert(dv.take(i + 1 as int).drop_last() =~= dv.take(i as int));
            assert(dv.take(i + 1 as int).last() == dv[i as int]);
            assert(dv[i as int] == outcomes@[i as int].deep_view());
        }
        if outcomes[i].success {
            n = n + 1;
        }
        i = i + 1;
    }
    proof {
        assert(outcomes.deep_view().take(len as int) =~= outcomes.deep_view());
    }
    n
}

/// The number of successful outcomes in a sequence.
pub open spec fn successes_in(outs: Seq<DownloadOutcomeView>) -> nat
    decreases outs.len(),
{
    if outs.len() == 0 {
        0
    } else {
        successes_in(outs.drop_last()) + (if outs.last().success {
            1nat
        } else {
            0nat
        })
    }
}

/// The mathematical content of a `DownloadOutcome`.
pub struct DownloadOutcomeView {
    pub path: Seq<char>,
    pub success: bool,
}

impl DeepView for DownloadOutcome {
    type V = DownloadOutcomeView;

    open spec fn deep_view(&self) -> DownloadOutcomeView {
        DownloadOutcomeView { path: self.path@, success: self.success }
    }
}

/// The worker pool size for a machine with `parallelism` available
/// execution units: twice the parallelism, and at least one.  The pool
/// bounds how many units of work run at the same time.
pub fn pool_size(parallelism: usize) -> (r: usize)
    ensures
        r >= 1,
        1 <= parallelism <= usize::MAX / 2 ==> r == 2 * parallelism,
        parallelism == 0 ==> r == 1,
        parallelism > usize::MAX / 2 ==> r == usize::MAX,
{
    if parallelism == 0 {
        1
    } else if parallelism <= usize::MAX / 2 {
        2 * parallelism
    } else {
        usize::MAX
    }
}

} // verus!
