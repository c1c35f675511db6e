//! Data model and pure analysis of worktree scan results: the status
//! record attached to every worktree, per-repository results, summary
//! counters and the aggregating analyzer.

use vstd::prelude::*;

use crate::status::{LocalStatus, MergeStatus, PrStatus, RemoteStatus};
use crate::strutil::{all_digits, dec_value, ends_with, parse_u32, spec_ends_with};

verus! {

/// The composite status of one worktree, recomputed on every
/// invocation; axes are computed independently of one another.
#[derive(Debug)]
pub struct WorktreeStatus {
    pub local_status: LocalStatus,
    pub remote_status: RemoteStatus,
    pub merge_status: MergeStatus,
    pub pr_status: Option<PrStatus>,
    /// Seconds since the epoch; `0` means unknown and always passes
    /// age filters.
    pub commit_timestamp: i64,
    pub directory_mtime: i64,
    pub commit_summary: String,
}

impl Clone for PrStatus {
    fn clone(&self) -> (r: Self)
        ensures
            r == *self,
    {
        match self {
            PrStatus::Open(n, a) => PrStatus::Open(
                *n,
                match a {
                    Option::Some(s) => Option::Some(s.clone()),
                    Option::None => Option::None,
                },
            ),
            PrStatus::Merged(n) => PrStatus::Merged(*n),
            PrStatus::Closed(n) => PrStatus::Closed(*n),
            PrStatus::NoPr => PrStatus::NoPr,
            PrStatus::NoGitHub => PrStatus::NoGitHub,
            PrStatus::NoGhCli => PrStatus::NoGhCli,
        }
    }
}

impl Clone for WorktreeStatus {
    fn clone(&self) -> (r: Self)
        ensures
            r == *self,
    {
        WorktreeStatus {
            local_status: self.local_status,
            remote_status: self.remote_status,
            merge_status: self.merge_status,
            pr_status: match &self.pr_status {
                Option::Some(p) => Option::Some(p.clone()),
                Option::None => Option::None,
            },
            commit_timestamp: self.commit_timestamp,
            directory_mtime: self.directory_mtime,
            commit_summary: self.commit_summary.clone(),
        }
    }
}

/// One worktree of a repository together with its status.
#[derive(Debug)]
pub struct WorktreeResult {
    pub branch: String,
    pub status: WorktreeStatus,
}

impl Clone for WorktreeResult {
    fn clone(&self) -> (r: Self)
        ensures
            r == *self,
    {
        WorktreeResult { branch: self.branch.clone(), status: self.status.clone() }
    }
}

/// One discovered repository and its work-in-progress worktrees.
#[derive(Debug)]
pub struct RepoResult {
    pub name: String,
    pub path: String,
    pub worktrees: Vec<WorktreeResult>,
}

impl Clone for RepoResult {
    fn clone(&self) -> (r: Self)
        ensures
            r.name == self.name,
            r.path == self.path,
            r.worktrees@ == self.worktrees@,
    {
        let mut ws: Vec<WorktreeResult> = Vec::new();
        let mut i: usize = 0;
        while i < self.worktrees.len()
            invariant
                i <= self.worktrees@.len(),
                ws@ =~= self.worktrees@.take(i as int),
            decreases self.worktrees@.len() - i,
        {
            ws.push(self.worktrees[i].clone());
            i = i + 1;
        }
        assert(ws@ =~= self.worktrees@);
        RepoResult { name: self.name.clone(), path: self.path.clone(), worktrees: ws }
    }
}

/// Tallies of each status value across a set of worktrees.
#[derive(Debug, Clone, Copy, PartialEq, Eq, Structural)]
pub struct StatusCounters {
    pub clean: u32,
    pub dirty: u32,
    pub staged: u32,
    pub up_to_date: u32,
    pub ahead: u32,
    pub behind: u32,
    pub diverged: u32,
    pub not_pushed: u32,
    pub not_tracking: u32,
}

impl Default for StatusCounters {
    fn default() -> (r: Self)
        ensures
            r == StatusCounters::zeroed(),
    {
        StatusCounters {
            clean: 0,
            dirty: 0,
            staged: 0,
            up_to_date: 0,
            ahead: 0,
            behind: 0,
            diverged: 0,
            not_pushed: 0,
            not_tracking: 0,
        }
    }
}

impl StatusCounters {
    /// The all-zero tally.
    pub open spec fn zeroed() -> StatusCounters {
        StatusCounters {
            clean: 0,
            dirty: 0,
            staged: 0,
            up_to_date: 0,
            ahead: 0,
            behind: 0,
            diverged: 0,
            not_pushed: 0,
            not_tracking: 0,
        }
    }

    /// The tally after one more worktree with status `st`.
    pub open spec fn bumped(self, st: WorktreeStatus) -> StatusCounters {
        StatusCounters {
            clean: if st.local_status is Clean {
                (self.clean + 1) as u32
            } else {
                self.clean
            },
            dirty: if st.local_status is Dirty {
                (self.dirty + 1) as u32
            } else {
                self.dirty
            },
            staged: if st.local_status is Staged {
                (self.staged + 1) as u32
            } else {
                self.staged
            },
            up_to_date: if st.remote_status is UpToDate {
                (self.up_to_date + 1) as u32
            } else {
                self.up_to_date
            },
            ahead: if st.remote_status is Ahead {
                (self.ahead + 1) as u32
            } else {
                self.ahead
            },
            behind: if st.remote_status is Behind {
                (self.behind + 1) as u32
            } else {
                self.behind
            },
            diverged: if st.remote_status is Diverged {
                (self.diverged + 1) as u32
            } else {
                self.diverged
            },
            not_pushed: if st.remote_status is NotPushed {
                (self.not_pushed + 1) as u32
            } else {
                self.not_pushed
            },
            not_tracking: if st.remote_status is NotTracking {
                (self.not_tracking + 1) as u32
            } else {
                self.not_tracking
            },
        }
    }

    pub fn new() -> (r: Self)
        ensures
            r == StatusCounters::zeroed(),
    {
        Default::default()
    }

    /// Tally one worktree's local and remote status.
    pub fn update(&mut self, status: &WorktreeStatus)
        requires
            old(self).clean < u32::MAX,
            old(self).dirty < u32::MAX,
            old(self).staged < u32::MAX,
            old(self).up_to_date < u32::MAX,
            old(self).ahead < u32::MAX,
            old(self).behind < u32::MAX,
            old(self).diverged < u32::MAX,
            old(self).not_pushed < u32::MAX,
            old(self).not_tracking < u32::MAX,
        ensures
            *final(self) == old(self).bumped(*status),
    {
        match status.local_status {
            LocalStatus::Clean => {
                self.clean = self.clean + 1;
            },
            LocalStatus::Dirty => {
                self.dirty = self.dirty + 1;
            },
            LocalStatus::Staged => {
                self.staged = self.staged + 1;
            },
            LocalStatus::Missing => {},
        }
        match status.remote_status {
            RemoteStatus::UpToDate => {
                self.up_to_date = self.up_to_date + 1;
            },
            RemoteStatus::Ahead(_) => {
                self.ahead = self.ahead + 1;
            },
            RemoteStatus::Behind(_) => {
                self.behind = self.behind + 1;
            },
            RemoteStatus::Diverged(_, _) => {
                self.diverged = self.diverged + 1;
            },
            RemoteStatus::NotPushed => {
                self.not_pushed = self.not_pushed + 1;
            },
            RemoteStatus::NotTracking => {
                self.not_tracking = self.not_tracking + 1;
            },
            RemoteStatus::NoRemote => {},
        }
    }
}

/// All worktrees of a result sequence, in encounter order.
pub open spec fn all_worktrees(rs: Seq<RepoResult>) -> Seq<WorktreeResult>
    decreases rs.len(),
{
    if rs.len() == 0 {
        Seq::empty()
    } else {
        all_worktrees(rs.drop_last()) + rs.last().worktrees@
    }
}

/// How many repositories have at least one worktree.
pub open spec fn spec_repos_with_wip(rs: Seq<RepoResult>) -> int
    decreases rs.len(),
{
    if rs.len() == 0 {
        0
    } else {
        spec_repos_with_wip(rs.drop_last()) + if rs.last().worktrees@.len() > 0 {
            1int
        } else {
            0int
        }
    }
}

/// The display label of a worktree: `<repo>/<branch>`.
pub open spec fn label_of(name: Seq<char>, branch: Seq<char>) -> Seq<char> {
    name + "/"@ + branch
}

/// The labels of a repository's worktrees, in order.
pub open spec fn labels_of(name: Seq<char>, ws: Seq<WorktreeResult>) -> Seq<Seq<char>> {
    ws.map_values(|w: WorktreeResult| label_of(name, w.branch@))
}

/// The views of a sequence of strings.
pub open spec fn views_of(v: Seq<String>) -> Seq<Seq<char>> {
    v.map_values(|s: String| s@)
}

/// The `<repo>/<branch>` label of every worktree, in encounter order.
pub open spec fn spec_wip_labels(rs: Seq<RepoResult>) -> Seq<Seq<char>>
    decreases rs.len(),
{
    if rs.len() == 0 {
        Seq::empty()
    } else {
        spec_wip_labels(rs.drop_last()) + labels_of(rs.last().name@, rs.last().worktrees@)
    }
}

proof fn lemma_labels_of_take_step(name: Seq<char>, ws: Seq<WorktreeResult>, j: int)
    requires
        0 <= j < ws.len(),
    ensures
        labels_of(name, ws.take(j + 1)) == labels_of(name, ws.take(j)).push(
            label_of(name, ws[j].branch@),
        ),
{
    assert(labels_of(name, ws.take(j + 1)) =~= labels_of(name, ws.take(j)).push(
        label_of(name, ws[j].branch@),
    ));
}

proof fn lemma_views_of_push(v: Seq<String>, x: String)
    ensures
        views_of(v.push(x)) == views_of(v).push(x@),
{
    assert(views_of(v.push(x)) =~= views_of(v).push(x@));
}

/// The tally over a sequence of worktrees, folded left to right.
pub open spec fn spec_counters(ws: Seq<WorktreeResult>) -> StatusCounters
    decreases ws.len(),
{
    if ws.len() == 0 {
        StatusCounters::zeroed()
    } else {
        spec_counters(ws.drop_last()).bumped(ws.last().status)
    }
}

proof fn lemma_all_worktrees_take_step(rs: Seq<RepoResult>, i: int)
    requires
        0 <= i < rs.len(),
    ensures
        all_worktrees(rs.take(i + 1)) == all_worktrees(rs.take(i)) + rs[i].worktrees@,
        spec_repos_with_wip(rs.take(i + 1)) == spec_repos_with_wip(rs.take(i)) + if rs[i].worktrees@.len()
            > 0 {
            1int
        } else {
            0int
        },
        spec_wip_labels(rs.take(i + 1)) == spec_wip_labels(rs.take(i)) + labels_of(
            rs[i].name@,
            rs[i].worktrees@,
        ),
{
    assert(rs.take(i + 1).drop_last() =~= rs.take(i));
    assert(rs.take(i + 1).last() == rs[i]);
}

proof fn lemma_counters_take_step(ws: Seq<WorktreeResult>, j: int)
    requires
        0 <= j < ws.len(),
    ensures
        spec_counters(ws.take(j + 1)) == spec_counters(ws.take(j)).bumped(ws[j].status),
{
    assert(ws.take(j + 1).drop_last() =~= ws.take(j));
    assert(ws.take(j + 1).last() == ws[j]);
}

/// Every counter of a tally is bounded by the number of worktrees
/// tallied.
proof fn lemma_counters_bounded(ws: Seq<WorktreeResult>)
    ensures
        spec_counters(ws).clean <= ws.len(),
        spec_counters(ws).dirty <= ws.len(),
        spec_counters(ws).staged <= ws.len(),
        spec_counters(ws).up_to_date <= ws.len(),
        spec_counters(ws).ahead <= ws.len(),
        spec_counters(ws).behind <= ws.len(),
        spec_counters(ws).diverged <= ws.len(),
        spec_counters(ws).not_pushed <= ws.len(),
        spec_counters(ws).not_tracking <= ws.len(),
    decreases ws.len(),
{
    if ws.len() > 0 {
        lemma_counters_bounded(ws.drop_last());
    }
}

proof fn lemma_repos_with_wip_le_total(rs: Seq<RepoResult>)
    ensures
        0 <= spec_repos_with_wip(rs) <= all_worktrees(rs).len(),
    decreases rs.len(),
{
    if rs.len() > 0 {
        lemma_repos_with_wip_le_total(rs.drop_last());
    }
}

/// Aggregates scan results into summary statistics; a pure reduction.
pub struct WorktreeAnalyzer;

impl WorktreeAnalyzer {
    /// Summarise results: total worktree count, count of repositories
    /// with at least one worktree, per-status tallies, and the
    /// `<repo>/<branch>` label of every worktree in encounter order.
    pub fn analyze(repo_results: &[RepoResult]) -> (r: (u32, u32, StatusCounters, Vec<String>))
        requires
            all_worktrees(repo_results@).len() <= u32::MAX,
        ensures
            r.0 == all_worktrees(repo_results@).len(),
            r.1 == spec_repos_with_wip(repo_results@),
            r.2 == spec_counters(all_worktrees(repo_results@)),
            views_of(r.3@) == spec_wip_labels(repo_results@),
    {
        let ghost rall = repo_results@;
        let mut total_wip: u32 = 0;
        let mut repos_with_wip: u32 = 0;
        let mut wip_branches: Vec<String> = Vec::new();
        let mut status_counters = StatusCounters::new();
        let mut i: usize = 0;
        proof {
            assert(rall.take(0) =~= Seq::<RepoResult>::empty());
        }
        while i < repo_results.len()
            invariant
                rall == repo_results@,
                all_worktrees(rall).len() <= u32::MAX,
                i <= rall.len(),
                total_wip == all_worktrees(rall.take(i as int)).len(),
                repos_with_wip == spec_repos_with_wip(rall.take(i as int)),
                status_counters == spec_counters(all_worktrees(rall.take(i as int))),
                views_of(wip_branches@) == spec_wip_labels(rall.take(i as int)),
            decreases rall.len() - i,
        {
            let repo_result = &repo_results[i];
            let ghost prefix_wts = all_worktrees(rall.take(i as int));
            proof {
                lemma_all_worktrees_take_step(rall, i as int);
                lemma_dropped_prefix_bound(rall, i as int);
            }
            if repo_result.worktrees.len() > 0 {
                repos_with_wip = repos_with_wip + 1;
            }
            let mut j: usize = 0;
            while j < repo_result.worktrees.len()
                invariant
                    rall == repo_results@,
                    all_worktrees(rall).len() <= u32::MAX,
                    i < rall.len(),
                    repo_result == &repo_results[i as int],
                    prefix_wts == all_worktrees(rall.take(i as int)),
                    prefix_wts.len() + repo_result.worktrees@.len() <= u32::MAX,
                    j <= repo_result.worktrees@.len(),
                    total_wip == prefix_wts.len() + j,
                    status_counters == spec_counters(
                        prefix_wts + repo_result.worktrees@.take(j as int),
                    ),
                    views_of(wip_branches@) == spec_wip_labels(rall.take(i as int)) + labels_of(
                        repo_result.name@,
                        repo_result.worktrees@.take(j as int),
                    ),
                decreases repo_result.worktrees@.len() - j,
            {
                let worktree = &repo_result.worktrees[j];
                total_wip = total_wip + 1;
                let ghost wip_before = wip_branches@;
                let mut label = repo_result.name.clone();
                label.append("/");
                label.append(worktree.branch.as_str());
                proof {
                    assert(label@ == label_of(repo_result.name@, worktree.branch@));
                }
                wip_branches.push(label);
                proof {
                    let merged = prefix_wts + repo_result.worktrees@.take(j as int);
                    lemma_counters_bounded(merged);
                    lemma_counters_take_step(prefix_wts + repo_result.worktrees@, prefix_wts.len() + j);
                    assert((prefix_wts + repo_result.worktrees@).take(prefix_wts.len() + j) =~= merged);
                    assert((prefix_wts + repo_result.worktrees@).take(prefix_wts.len() + j + 1)
                        =~= prefix_wts + repo_result.worktrees@.take(j + 1));
                    assert((prefix_wts + repo_result.worktrees@)[prefix_wts.len() + j] == repo_result.worktrees@[j as int]);
                }
                status_counters.update(&worktree.status);
                proof {
                    lemma_views_of_push(wip_before, label);
                    lemma_labels_of_take_step(repo_result.name@, repo_result.worktrees@, j as int);
                    assert(views_of(wip_branches@) =~= spec_wip_labels(rall.take(i as int))
                        + labels_of(repo_result.name@, repo_result.worktrees@.take(j + 1)));
                }
                j = j + 1;
            }
            proof {
                assert(repo_result.worktrees@.take(repo_result.worktrees@.len() as int)
                    =~= repo_result.worktrees@);
            }
            i = i + 1;
        }
        proof {
            assert(rall.take(rall.len() as int) =~= rall);
        }
        (total_wip, repos_with_wip, status_counters, wip_branches)
    }
}

/// What has been folded in so far never exceeds the whole.
proof fn lemma_dropped_prefix_bound(rs: Seq<RepoResult>, i: int)
    requires
        0 <= i < rs.len(),
    ensures
        all_worktrees(rs.take(i)).len() + rs[i].worktrees@.len() <= all_worktrees(rs).len(),
        spec_repos_with_wip(rs.take(i)) + 1 <= all_worktrees(rs).len() || rs[i].worktrees@.len()
            == 0,
    decreases rs.len(),
{
    lemma_all_worktrees_prefix(rs, i + 1);
    lemma_all_worktrees_take_step(rs, i);
    lemma_repos_with_wip_le_total(rs.take(i));
    if rs[i].worktrees@.len() > 0 {
        lemma_all_worktrees_prefix(rs, i + 1);
    }
}

/// A prefix contributes no more worktrees than the whole sequence.
proof fn lemma_all_worktrees_prefix(rs: Seq<RepoResult>, i: int)
    requires
        0 <= i <= rs.len(),
    ensures
        all_worktrees(rs.take(i)).len() <= all_worktrees(rs).len(),
    decreases rs.len() - i,
{
    if i == rs.len() {
        assert(rs.take(i) =~= rs);
    } else {
        lemma_all_worktrees_take_step(rs, i);
        lemma_all_worktrees_prefix(rs, i + 1);
    }
}

/// Optional per-axis predicates plus age bounds; a worktree passes
/// when every axis gate passes. A gate with no predicate set passes
/// everything.
#[derive(Debug, Clone, Copy, PartialEq, Eq, Structural)]
pub struct WorktreeFilter {
    pub dirty: Option<bool>,
    pub clean: Option<bool>,
    pub staged: Option<bool>,
    pub missing: Option<bool>,
    pub ahead: Option<bool>,
    pub behind: Option<bool>,
    pub diverged: Option<bool>,
    pub not_pushed: Option<bool>,
    pub not_tracking: Option<bool>,
    pub up_to_date: Option<bool>,
    pub likely_merged: Option<bool>,
    pub not_merged: Option<bool>,
    pub unknown_merge: Option<bool>,
    pub older_than_days: Option<u32>,
    pub newer_than_days: Option<u32>,
    pub is_needs_attention: bool,
}

impl Default for WorktreeFilter {
    fn default() -> (r: Self)
        ensures
            r == WorktreeFilter::spec_empty(),
    {
        WorktreeFilter {
            dirty: Option::None,
            clean: Option::None,
            staged: Option::None,
            missing: Option::None,
            ahead: Option::None,
            behind: Option::None,
            diverged: Option::None,
            not_pushed: Option::None,
            not_tracking: Option::None,
            up_to_date: Option::None,
            likely_merged: Option::None,
            not_merged: Option::None,
            unknown_merge: Option::None,
            older_than_days: Option::None,
            newer_than_days: Option::None,
            is_needs_attention: false,
        }
    }
}

/// The age of a commit in whole days, negative for a commit in the
/// future, truncated toward zero.
pub open spec fn spec_days_old(ts: int, now: int) -> int {
    if now >= ts {
        (now - ts) / 86400
    } else {
        -((ts - now) / 86400)
    }
}

impl WorktreeFilter {
    /// The filter with nothing set: it accepts every worktree.
    pub open spec fn spec_empty() -> WorktreeFilter {
        WorktreeFilter {
            dirty: Option::None,
            clean: Option::None,
            staged: Option::None,
            missing: Option::None,
            ahead: Option::None,
            behind: Option::None,
            diverged: Option::None,
            not_pushed: Option::None,
            not_tracking: Option::None,
            up_to_date: Option::None,
            likely_merged: Option::None,
            not_merged: Option::None,
            unknown_merge: Option::None,
            older_than_days: Option::None,
            newer_than_days: Option::None,
            is_needs_attention: false,
        }
    }

    /// The local-axis gate: vacuously true with no local predicate
    /// set; otherwise the status must be one of the requested values.
    pub open spec fn local_gate(self, s: LocalStatus) -> bool {
        if self.dirty is None && self.clean is None && self.staged is None && self.missing
            is None {
            true
        } else {
            match s {
                LocalStatus::Dirty => self.dirty == Some(true),
                LocalStatus::Clean => self.clean == Some(true),
                LocalStatus::Staged => self.staged == Some(true),
                LocalStatus::Missing => self.missing == Some(true),
            }
        }
    }

    /// The remote-axis gate; `NoRemote` always passes.
    pub open spec fn remote_gate(self, s: RemoteStatus) -> bool {
        if self.ahead is None && self.behind is None && self.diverged is None && self.not_pushed
            is None && self.not_tracking is None && self.up_to_date is None {
            true
        } else {
            match s {
                RemoteStatus::Ahead(_) => self.ahead == Some(true),
                RemoteStatus::Behind(_) => self.behind == Some(true),
                RemoteStatus::Diverged(_, _) => self.diverged == Some(true),
                RemoteStatus::NotPushed => self.not_pushed == Some(true),
                RemoteStatus::NotTracking => self.not_tracking == Some(true),
                RemoteStatus::UpToDate => self.up_to_date == Some(true),
                RemoteStatus::NoRemote => true,
            }
        }
    }

    /// The merge-axis gate; an explicit `Merged` always passes.
    pub open spec fn merge_gate(self, s: MergeStatus) -> bool {
        if self.likely_merged is None && self.not_merged is None && self.unknown_merge is None {
            true
        } else {
            match s {
                MergeStatus::LikelyMerged => self.likely_merged == Some(true),
                MergeStatus::NotMerged => self.not_merged == Some(true),
                MergeStatus::Unknown => self.unknown_merge == Some(true),
                MergeStatus::Merged => true,
            }
        }
    }

    /// The age gate: an unknown timestamp (`0`) always passes; else
    /// the age in days must lie within the requested bounds.
    pub open spec fn age_gate(self, ts: int, now: int) -> bool {
        if ts == 0 {
            true
        } else {
            &&& match self.older_than_days {
                Some(o) => spec_days_old(ts, now) >= o,
                None => true,
            }
            &&& match self.newer_than_days {
                Some(nw) => spec_days_old(ts, now) <= nw,
                None => true,
            }
        }
    }

    /// A status needs attention when it diverged from or fell behind
    /// its upstream, or its directory is missing.
    pub open spec fn attention(s: WorktreeStatus) -> bool {
        ||| s.remote_status is Diverged
        ||| s.remote_status is Behind
        ||| s.local_status is Missing
    }

    /// The whole predicate that `matches` decides.
    pub open spec fn accepts(self, w: WorktreeResult, now: int) -> bool {
        if self.is_needs_attention {
            WorktreeFilter::attention(w.status)
        } else {
            &&& self.local_gate(w.status.local_status)
            &&& self.remote_gate(w.status.remote_status)
            &&& self.merge_gate(w.status.merge_status)
            &&& self.age_gate(w.status.commit_timestamp as int, now)
        }
    }

    pub fn new() -> (r: Self)
        ensures
            r == WorktreeFilter::spec_empty(),
    {
        Default::default()
    }

    /// Preset for pruning: likely merged, clean, older than a week.
    pub fn prune_candidates() -> (r: Self)
        ensures
            r == (WorktreeFilter {
                likely_merged: Some(true),
                clean: Some(true),
                older_than_days: Some(7u32),
                ..WorktreeFilter::spec_empty()
            }),
    {
        let mut f = WorktreeFilter::new();
        f.likely_merged = Option::Some(true);
        f.clean = Option::Some(true);
        f.older_than_days = Option::Some(7);
        f
    }

    /// Preset for active work: not merged, newer than a week.
    pub fn active() -> (r: Self)
        ensures
            r == (WorktreeFilter {
                not_merged: Some(true),
                newer_than_days: Some(7u32),
                ..WorktreeFilter::spec_empty()
            }),
    {
        let mut f = WorktreeFilter::new();
        f.not_merged = Option::Some(true);
        f.newer_than_days = Option::Some(7);
        f
    }

    /// Preset for branches needing attention.
    pub fn needs_attention() -> (r: Self)
        ensures
            r == (WorktreeFilter { is_needs_attention: true, ..WorktreeFilter::spec_empty() }),
    {
        let mut f = WorktreeFilter::new();
        f.is_needs_attention = true;
        f
    }

    /// Preset for stale branches: older than thirty days.
    pub fn stale() -> (r: Self)
        ensures
            r == (WorktreeFilter { older_than_days: Some(30u32), ..WorktreeFilter::spec_empty() }),
    {
        let mut f = WorktreeFilter::new();
        f.older_than_days = Option::Some(30);
        f
    }

    /// Decide whether a worktree passes this filter at time `now`.
    pub fn matches(&self, worktree: &WorktreeResult, current_timestamp: i64) -> (r: bool)
        ensures
            r == self.accepts(*worktree, current_timestamp as int),
    {
        if self.is_needs_attention {
            return self.matches_needs_attention(worktree);
        }
        if !self.matches_local_status(&worktree.status.local_status) {
            return false;
        }
        if !self.matches_remote_status(&worktree.status.remote_status) {
            return false;
        }
        if !self.matches_merge_status(&worktree.status.merge_status) {
            return false;
        }
        if !self.matches_age(worktree.status.commit_timestamp, current_timestamp) {
            return false;
        }
        true
    }

    pub fn matches_needs_attention(&self, worktree: &WorktreeResult) -> (r: bool)
        ensures
            r == WorktreeFilter::attention(worktree.status),
    {
        match worktree.status.remote_status {
            RemoteStatus::Diverged(_, _) => true,
            RemoteStatus::Behind(_) => true,
            _ => match worktree.status.local_status {
                LocalStatus::Missing => true,
                _ => false,
            },
        }
    }

    pub fn matches_local_status(&self, status: &LocalStatus) -> (r: bool)
        ensures
            r == self.local_gate(*status),
    {
        if self.dirty.is_none() && self.clean.is_none() && self.staged.is_none()
            && self.missing.is_none() {
            return true;
        }
        match status {
            LocalStatus::Dirty => self.dirty.unwrap_or(false),
            LocalStatus::Clean => self.clean.unwrap_or(false),
            LocalStatus::Staged => self.staged.unwrap_or(false),
            LocalStatus::Missing => self.missing.unwrap_or(false),
        }
    }

    pub fn matches_remote_status(&self, status: &RemoteStatus) -> (r: bool)
        ensures
            r == self.remote_gate(*status),
    {
        if self.ahead.is_none() && self.behind.is_none() && self.diverged.is_none()
            && self.not_pushed.is_none() && self.not_tracking.is_none()
            && self.up_to_date.is_none() {
            return true;
        }
        match status {
            RemoteStatus::Ahead(_) => self.ahead.unwrap_or(false),
            RemoteStatus::Behind(_) => self.behind.unwrap_or(false),
            RemoteStatus::Diverged(_, _) => self.diverged.unwrap_or(false),
            RemoteStatus::NotPushed => self.not_pushed.unwrap_or(false),
            RemoteStatus::NotTracking => self.not_tracking.unwrap_or(false),
            RemoteStatus::UpToDate => self.up_to_date.unwrap_or(false),
            RemoteStatus::NoRemote => true,
        }
    }

    pub fn matches_merge_status(&self, status: &MergeStatus) -> (r: bool)
        ensures
            r == self.merge_gate(*status),
    {
        if self.likely_merged.is_none() && self.not_merged.is_none()
            && self.unknown_merge.is_none() {
            return true;
        }
        match status {
            MergeStatus::LikelyMerged => self.likely_merged.unwrap_or(false),
            MergeStatus::NotMerged => self.not_merged.unwrap_or(false),
            MergeStatus::Unknown => self.unknown_merge.unwrap_or(false),
            MergeStatus::Merged => true,
        }
    }

    pub fn matches_age(&self, commit_timestamp: i64, current_timestamp: i64) -> (r: bool)
        ensures
            r == self.age_gate(commit_timestamp as int, current_timestamp as int),
    {
        if commit_timestamp == 0 {
            return true;
        }
        let (neg, mag) = days_old_parts(commit_timestamp, current_timestamp);
        if let Option::Some(older_than) = self.older_than_days {
            if neg || mag < older_than as u64 {
                return false;
            }
        }
        if let Option::Some(newer_than) = self.newer_than_days {
            if !neg && mag > newer_than as u64 {
                return false;
            }
        }
        true
    }
}

/// The sign and magnitude of a commit's age in days; `neg` is set only
/// for a strictly negative age.
pub(crate) fn days_old_parts(ts: i64, now: i64) -> (r: (bool, u64))
    ensures
        ({
            let (neg, mag) = r;
            if neg {
                spec_days_old(ts as int, now as int) == -(mag as int) && mag > 0
            } else {
                spec_days_old(ts as int, now as int) == mag as int
            }
        }),
{
    if now >= ts {
        let diff_wide: i128 = now as i128 - ts as i128;
        assert(0 <= diff_wide <= u64::MAX);
        let diff: u64 = diff_wide as u64;
        (false, diff / 86400)
    } else {
        let diff_wide: i128 = ts as i128 - now as i128;
        assert(0 <= diff_wide <= u64::MAX);
        let diff: u64 = diff_wide as u64;
        let days = diff / 86400;
        if days == 0 {
            (false, 0)
        } else {
            (true, days)
        }
    }
}

/// Every worktree passes the empty filter, whatever the time: the
/// default filter hides nothing.
pub proof fn lemma_empty_filter_accepts_all(w: WorktreeResult, now: int)
    ensures
        WorktreeFilter::spec_empty().accepts(w, now),
{
}


/// The prune preset never accepts a worktree whose working tree is
/// not clean: the merge heuristic alone cannot mark work for
/// deletion.
pub proof fn lemma_prune_preset_requires_clean(w: WorktreeResult, now: int)
    ensures
        (WorktreeFilter {
            likely_merged: Some(true),
            clean: Some(true),
            older_than_days: Some(7u32),
            ..WorktreeFilter::spec_empty()
        }).accepts(w, now) ==> w.status.local_status is Clean && (w.status.merge_status
            is LikelyMerged || w.status.merge_status is Merged),
{
}

/// The multiplier of a one-letter age suffix.
pub open spec fn age_suffix_mult(c: char) -> Option<int> {
    if c == 'd' {
        Some(1int)
    } else if c == 'w' {
        Some(7int)
    } else if c == 'm' {
        Some(30int)
    } else {
        None
    }
}

/// The digit part and day multiplier of a suffixed age string,
/// stripping exactly one suffix (the longest that matches); `None`
/// when no recognised suffix is present. Anything left before the
/// suffix, such as a second copy of it, must be digits or the parse
/// fails.
pub open spec fn spec_age_num_part(s: Seq<char>) -> Option<(Seq<char>, int)> {
    if spec_ends_with(s, "days"@) {
        Some((s.take(s.len() - 4), 1int))
    } else if spec_ends_with(s, "day"@) {
        Some((s.take(s.len() - 3), 1int))
    } else if spec_ends_with(s, "weeks"@) {
        Some((s.take(s.len() - 5), 7int))
    } else if spec_ends_with(s, "week"@) {
        Some((s.take(s.len() - 4), 7int))
    } else if spec_ends_with(s, "months"@) {
        Some((s.take(s.len() - 6), 30int))
    } else if spec_ends_with(s, "month"@) {
        Some((s.take(s.len() - 5), 30int))
    } else if s.len() > 1 {
        match age_suffix_mult(s.last()) {
            Some(m) => Some((s.drop_last(), m)),
            None => None,
        }
    } else {
        None
    }
}

/// What an age string denotes in days: a bare decimal number, or a
/// number with a day, week or month suffix; `None` when it denotes
/// nothing, or the value would not fit a `u32`.
pub open spec fn spec_parse_age(s: Seq<char>) -> Option<int> {
    if s.len() == 0 {
        None
    } else if all_digits(s) && dec_value(s) <= u32::MAX {
        Some(dec_value(s))
    } else {
        match spec_age_num_part(s) {
            Some(p) => {
                if p.0.len() > 0 && all_digits(p.0) && dec_value(p.0) <= u32::MAX && dec_value(p.0)
                    * p.1 <= u32::MAX {
                    Some(dec_value(p.0) * p.1)
                } else {
                    None
                }
            },
            None => None,
        }
    }
}

/// `n * mult` stays within `u32` exactly when `n` is at most
/// `u32::MAX / mult`.
proof fn lemma_mul_fits_u32(n: int, mult: int)
    requires
        0 <= n,
        0 < mult,
    ensures
        n <= u32::MAX as int / mult <==> n * mult <= u32::MAX,
{
    vstd::arithmetic::div_mod::lemma_fundamental_div_mod(u32::MAX as int, mult);
    vstd::arithmetic::div_mod::lemma_mod_bound(u32::MAX as int, mult);
    let q = u32::MAX as int / mult;
    let m = u32::MAX as int % mult;
    assert(u32::MAX as int == mult * q + m);
    vstd::arithmetic::mul::lemma_mul_is_commutative(q, mult);
    if n <= q {
        vstd::arithmetic::mul::lemma_mul_inequality(n, q, mult);
        assert(n * mult <= q * mult);
        assert(q * mult <= u32::MAX);
    } else {
        vstd::arithmetic::mul::lemma_mul_inequality(q + 1, n, mult);
        assert((q + 1) * mult == q * mult + mult) by (nonlinear_arith);
        assert(q * mult + mult > u32::MAX);
        assert(n * mult > u32::MAX);
    }
}

impl WorktreeFilter {
    /// Parse an age such as `"30"`, `"30d"`, `"1w"`, `"2m"` or
    /// `"6months"` into days; weeks count as 7 days and months as 30,
    /// and anything but digits before the one suffix is rejected.
    pub fn parse_age_to_days(age_str: &str) -> (r: Result<u32, String>)
        ensures
            match r {
                Ok(v) => spec_parse_age(age_str@) == Some(v as int),
                Err(_) => spec_parse_age(age_str@) is None,
            },
    {
        let n = age_str.unicode_len();
        if n == 0 {
            return Result::Err(String::from_str("Empty age string"));
        }
        if let Option::Some(days) = parse_u32(age_str) {
            return Result::Ok(days);
        }
        let num_str: &str;
        let mult: u32;
        if ends_with(age_str, "days") {
            proof {
                reveal_strlit("days");
            }
            num_str = age_str.substring_char(0, n - 4);
            assert(num_str@ =~= age_str@.take(age_str@.len() - 4));
            mult = 1;
        } else if ends_with(age_str, "day") {
            proof {
                reveal_strlit("day");
            }
            num_str = age_str.substring_char(0, n - 3);
            assert(num_str@ =~= age_str@.take(age_str@.len() - 3));
            mult = 1;
        } else if ends_with(age_str, "weeks") {
            proof {
                reveal_strlit("weeks");
            }
            num_str = age_str.substring_char(0, n - 5);
            assert(num_str@ =~= age_str@.take(age_str@.len() - 5));
            mult = 7;
        } else if ends_with(age_str, "week") {
            proof {
                reveal_strlit("week");
            }
            num_str = age_str.substring_char(0, n - 4);
            assert(num_str@ =~= age_str@.take(age_str@.len() - 4));
            mult = 7;
        } else if ends_with(age_str, "months") {
            proof {
                reveal_strlit("months");
            }
            num_str = age_str.substring_char(0, n - 6);
            assert(num_str@ =~= age_str@.take(age_str@.len() - 6));
            mult = 30;
        } else if ends_with(age_str, "month") {
            proof {
                reveal_strlit("month");
            }
            num_str = age_str.substring_char(0, n - 5);
            assert(num_str@ =~= age_str@.take(age_str@.len() - 5));
            mult = 30;
        } else if n > 1 {
            let c = age_str.get_char(n - 1);
            let head = age_str.substring_char(0, n - 1);
            assert(head@ =~= age_str@.drop_last());
            if c == 'd' {
                num_str = head;
                mult = 1;
            } else if c == 'w' {
                num_str = head;
                mult = 7;
            } else if c == 'm' {
                num_str = head;
                mult = 30;
            } else {
                return match parse_u32(head) {
                    Option::Some(_) => Result::Err(String::from_str("Invalid age suffix")),
                    Option::None => Result::Err(String::from_str("Invalid number in age")),
                };
            }
        } else {
            return Result::Err(String::from_str("Invalid age format"));
        }
        match parse_u32(num_str) {
            Option::Some(number) => {
                proof {
                    lemma_mul_fits_u32(number as int, mult as int);
                }
                if number > u32::MAX / mult {
                    Result::Err(String::from_str("Invalid number in age"))
                } else {
                    Result::Ok(number * mult)
                }
            },
            Option::None => Result::Err(String::from_str("Invalid number in age")),
        }
    }
}

/// What of a repository result the filtered listing keeps: name,
/// path, and its surviving worktrees.
pub open spec fn repo_view(r: RepoResult) -> (Seq<char>, Seq<char>, Seq<WorktreeResult>) {
    (r.name@, r.path@, r.worktrees@)
}

/// The views of a sequence of repository results.
pub open spec fn repo_views(v: Seq<RepoResult>) -> Seq<(Seq<char>, Seq<char>, Seq<WorktreeResult>)> {
    v.map_values(|x: RepoResult| repo_view(x))
}

/// The worktrees of `ws` that pass `f` at time `now`, in order.
pub open spec fn kept_worktrees(ws: Seq<WorktreeResult>, f: WorktreeFilter, now: int) -> Seq<
    WorktreeResult,
>
    decreases ws.len(),
{
    if ws.len() == 0 {
        Seq::empty()
    } else {
        let rest = kept_worktrees(ws.drop_last(), f, now);
        if f.accepts(ws.last(), now) {
            rest.push(ws.last())
        } else {
            rest
        }
    }
}

/// The filtered listing: every repository that keeps at least one
/// worktree, with exactly its surviving worktrees, in order.
pub open spec fn spec_filter_results(rs: Seq<RepoResult>, f: WorktreeFilter, now: int) -> Seq<
    (Seq<char>, Seq<char>, Seq<WorktreeResult>),
>
    decreases rs.len(),
{
    if rs.len() == 0 {
        Seq::empty()
    } else {
        let rest = spec_filter_results(rs.drop_last(), f, now);
        let kept = kept_worktrees(rs.last().worktrees@, f, now);
        if kept.len() > 0 {
            rest.push((rs.last().name@, rs.last().path@, kept))
        } else {
            rest
        }
    }
}

proof fn lemma_kept_take_step(ws: Seq<WorktreeResult>, f: WorktreeFilter, now: int, j: int)
    requires
        0 <= j < ws.len(),
    ensures
        kept_worktrees(ws.take(j + 1), f, now) == if f.accepts(ws[j], now) {
            kept_worktrees(ws.take(j), f, now).push(ws[j])
        } else {
            kept_worktrees(ws.take(j), f, now)
        },
{
    assert(ws.take(j + 1).drop_last() =~= ws.take(j));
    assert(ws.take(j + 1).last() == ws[j]);
}

proof fn lemma_filter_results_take_step(rs: Seq<RepoResult>, f: WorktreeFilter, now: int, i: int)
    requires
        0 <= i < rs.len(),
    ensures
        spec_filter_results(rs.take(i + 1), f, now) == ({
            let kept = kept_worktrees(rs[i].worktrees@, f, now);
            if kept.len() > 0 {
                spec_filter_results(rs.take(i), f, now).push((rs[i].name@, rs[i].path@, kept))
            } else {
                spec_filter_results(rs.take(i), f, now)
            }
        }),
{
    assert(rs.take(i + 1).drop_last() =~= rs.take(i));
    assert(rs.take(i + 1).last() == rs[i]);
}

proof fn lemma_repo_views_push(v: Seq<RepoResult>, x: RepoResult)
    ensures
        repo_views(v.push(x)) == repo_views(v).push(repo_view(x)),
{
    assert(repo_views(v.push(x)) =~= repo_views(v).push(repo_view(x)));
}

impl WorktreeAnalyzer {
    /// Keep, for a fixed time `now`, the worktrees that pass the
    /// filter, and the repositories left non-empty by that.
    pub fn filter_results_at(
        repo_results: &[RepoResult],
        filter: &WorktreeFilter,
        now: i64,
    ) -> (r: Vec<RepoResult>)
        ensures
            repo_views(r@) == spec_filter_results(repo_results@, *filter, now as int),
    {
        let ghost rall = repo_results@;
        let mut out: Vec<RepoResult> = Vec::new();
        let mut i: usize = 0;
        proof {
            assert(rall.take(0) =~= Seq::<RepoResult>::empty());
            assert(repo_views(out@) =~= Seq::<(Seq<char>, Seq<char>, Seq<WorktreeResult>)>::empty());
        }
        while i < repo_results.len()
            invariant
                rall == repo_results@,
                i <= rall.len(),
                repo_views(out@) == spec_filter_results(rall.take(i as int), *filter, now as int),
            decreases rall.len() - i,
        {
            let repo_result = &repo_results[i];
            let ghost ws = repo_result.worktrees@;
            let mut kept: Vec<WorktreeResult> = Vec::new();
            let mut j: usize = 0;
            proof {
                assert(ws.take(0) =~= Seq::<WorktreeResult>::empty());
            }
            while j < repo_result.worktrees.len()
                invariant
                    ws == repo_result.worktrees@,
                    j <= ws.len(),
                    kept@ == kept_worktrees(ws.take(j as int), *filter, now as int),
                decreases ws.len() - j,
            {
                let worktree = &repo_result.worktrees[j];
                proof {
                    lemma_kept_take_step(ws, *filter, now as int, j as int);
                }
                if filter.matches(worktree, now) {
                    kept.push(worktree.clone());
                }
                j = j + 1;
            }
            proof {
                assert(ws.take(ws.len() as int) =~= ws);
                lemma_filter_results_take_step(rall, *filter, now as int, i as int);
            }
            if kept.len() > 0 {
                let ghost out_before = out@;
                out.push(
                    RepoResult {
                        name: repo_result.name.clone(),
                        path: repo_result.path.clone(),
                        worktrees: kept,
                    },
                );
                proof {
                    lemma_repo_views_push(out_before, out@.last());
                }
            }
            i = i + 1;
        }
        proof {
            assert(rall.take(rall.len() as int) =~= rall);
        }
        out
    }

    /// As `filter_results_at`, at the time of the call.
    pub fn filter_results(repo_results: &[RepoResult], filter: &WorktreeFilter) -> (r: Vec<
        RepoResult,
    >)
        ensures
            exists|now: int|
                0 <= now && repo_views(r@) == spec_filter_results(repo_results@, *filter, now),
    {
        let now = crate::clock::now_unix_seconds();
        let r = WorktreeAnalyzer::filter_results_at(repo_results, filter, now);
        proof {
            assert(0 <= now as int && repo_views(r@) == spec_filter_results(
                repo_results@,
                *filter,
                now as int,
            ));
        }
        r
    }
}

} // verus!
