//! The per-repository work of the concurrency orchestrator: open one
//! candidate directory, check bareness, list worktrees and classify
//! each one. Each repository is independent; a caller may run many of
//! these in parallel and join the results.

use vstd::prelude::*;

use crate::git::{
    basename_or, lemma_classify_merge_never_merged, lemma_classify_remote_never_no_remote,
    spec_basename_or, spec_classify_merge, spec_classify_remote, GitClient, GitError,
    GitRepository, SystemGitClient, WorktreeInfo,
};
use crate::github::{pr_status_for_branch, spec_match_branch, PrInfo};
use crate::model::{RepoResult, WorktreeResult, WorktreeStatus};
use crate::status::{LocalStatus, MergeStatus, RemoteStatus};
use crate::strutil::{lex_sorted, sort_strings, str_views};

verus! {

/// What every classified status satisfies: the merge heuristic never
/// claims a verified merge, the scan attaches no pull-request data,
/// and `NoRemote` stands only for a worktree whose directory was
/// missing, so no remote question could be asked.
pub open spec fn scanned_status_ok(st: WorktreeStatus) -> bool {
    &&& !(st.merge_status is Merged)
    &&& st.pr_status is None
    &&& (st.remote_status is NoRemote ==> st.local_status is Missing)
}

/// The status a discovery scan attaches: pure placeholders.
pub open spec fn placeholder_status(st: WorktreeStatus) -> bool {
    &&& st.local_status is Clean
    &&& st.remote_status is NoRemote
    &&& st.merge_status is Unknown
    &&& st.pr_status is None
    &&& st.commit_timestamp == 0
    &&& st.directory_mtime == 0
}

/// Scan one candidate repository and classify every worktree's
/// status; a non-bare repository yields an empty worktree set. The
/// repository's name is its directory basename, no worktree carries
/// a primary (`main`/`master`) branch, and every status lies in the
/// classifiers' images, per `scanned_status_ok`.
pub fn classify_repository(repo_path: &str) -> (r: Result<RepoResult, GitError>)
    ensures
        r matches Ok(rr) ==> rr.name@ == spec_basename_or(repo_path@, "unknown"@) && rr.path@
            == repo_path@,
        r matches Ok(rr) ==> forall|k: int|
            0 <= k < rr.worktrees@.len() ==> (#[trigger] rr.worktrees@[k].branch@) != "main"@
                && rr.worktrees@[k].branch@ != "master"@,
        r matches Ok(rr) ==> forall|k: int|
            0 <= k < rr.worktrees@.len() ==> scanned_status_ok(
                (#[trigger] rr.worktrees@[k]).status,
            ),
{
    let name = String::from_str(basename_or(repo_path, "unknown"));
    let repo = match GitRepository::new(repo_path, SystemGitClient) {
        Result::Ok(x) => x,
        Result::Err(e) => {
            return Result::Err(e);
        },
    };
    let bare = match repo.is_bare() {
        Result::Ok(b) => b,
        Result::Err(_) => false,
    };
    if !bare {
        return Result::Ok(
            RepoResult { name, path: String::from_str(repo_path), worktrees: Vec::new() },
        );
    }
    let worktrees = match repo.list_worktrees() {
        Result::Ok(w) => w,
        Result::Err(e) => {
            return Result::Err(e);
        },
    };
    let mut results: Vec<WorktreeResult> = Vec::new();
    let mut i: usize = 0;
    while i < worktrees.len()
        invariant
            i <= worktrees@.len(),
            results@.len() == i,
            forall|k: int|
                0 <= k < i ==> (#[trigger] results@[k].branch@) == worktrees@[k].branch@,
            forall|k: int| 0 <= k < i ==> scanned_status_ok((#[trigger] results@[k]).status),
            forall|k: int|
                0 <= k < worktrees@.len() ==> (#[trigger] worktrees@[k].branch@) != "main"@
                    && worktrees@[k].branch@ != "master"@,
        decreases worktrees@.len() - i,
    {
        let ghost results_before = results@;
        let wt = &worktrees[i];
        let local_status = match repo.get_local_status(wt.path.as_str()) {
            Result::Ok(s) => s,
            Result::Err(e) => {
                return Result::Err(e);
            },
        };
        if let LocalStatus::Missing = local_status {
            // The directory is gone: no further git call can run in
            // it, so the other axes degrade to their safe defaults
            // and the worktree still surfaces as missing.
            results.push(
                WorktreeResult {
                    branch: wt.branch.clone(),
                    status: WorktreeStatus {
                        local_status: LocalStatus::Missing,
                        remote_status: RemoteStatus::NoRemote,
                        merge_status: MergeStatus::Unknown,
                        pr_status: Option::None,
                        commit_timestamp: 0,
                        directory_mtime: 0,
                        commit_summary: String::from_str("<no commit>"),
                    },
                },
            );
            proof {
                assert forall|k: int|
                    0 <= k < results@.len() implies scanned_status_ok(
                    (#[trigger] results@[k]).status,
                ) by {
                    if k < results_before.len() {
                        assert(results@[k] == results_before[k]);
                    } else {
                        assert(results@[k] == results@.last());
                    }
                }
            }
            i = i + 1;
            continue;
        }
        let remote_status = match repo.get_remote_status(wt.path.as_str(), wt.branch.as_str()) {
            Result::Ok(s) => {
                proof {
                    let (c0, rb0) = choose|c: Option<(usize, usize)>, rb: bool|
                        s == spec_classify_remote(c, rb);
                    lemma_classify_remote_never_no_remote(c0, rb0);
                }
                s
            },
            Result::Err(e) => {
                return Result::Err(e);
            },
        };
        assert(!(remote_status is NoRemote));
        let commit_timestamp = match repo.get_last_commit_timestamp(
            wt.path.as_str(),
            wt.branch.as_str(),
        ) {
            Result::Ok(t) => t,
            Result::Err(_) => 0,
        };
        let directory_mtime = match repo.get_directory_mtime(wt.path.as_str()) {
            Result::Ok(t) => t,
            Result::Err(_) => 0,
        };
        let merge_status = match repo.get_merge_status(
            wt.path.as_str(),
            wt.branch.as_str(),
            commit_timestamp,
        ) {
            Result::Ok(m) => {
                proof {
                    let (rb0, now0) = choose|rb: bool, now: int|
                        0 <= now && m == spec_classify_merge(rb, commit_timestamp as int, now);
                    lemma_classify_merge_never_merged(rb0, commit_timestamp as int, now0);
                }
                m
            },
            Result::Err(_) => MergeStatus::Unknown,
        };
        assert(!(merge_status is Merged));
        let commit_summary = match repo.get_commit_summary(wt.path.as_str(), wt.branch.as_str()) {
            Result::Ok(s) => s,
            Result::Err(_) => String::from_str("<no commit>"),
        };
        results.push(
            WorktreeResult {
                branch: wt.branch.clone(),
                status: WorktreeStatus {
                    local_status,
                    remote_status,
                    merge_status,
                    pr_status: Option::None,
                    commit_timestamp,
                    directory_mtime,
                    commit_summary,
                },
            },
        );
        proof {
            assert forall|k: int|
                0 <= k < results@.len() implies scanned_status_ok(
                (#[trigger] results@[k]).status,
            ) by {
                if k < results_before.len() {
                    assert(results@[k] == results_before[k]);
                } else {
                    assert(results@[k] == results@.last());
                }
            }
        }
        i = i + 1;
    }
    Result::Ok(RepoResult { name, path: String::from_str(repo_path), worktrees: results })
}

/// Scan one candidate repository for its worktree names only, with
/// placeholder statuses (exactly `placeholder_status`): enough for
/// the add, remove and switch commands, which need no
/// classification.
pub fn discover_repository(repo_path: &str) -> (r: Result<RepoResult, GitError>)
    ensures
        r matches Ok(rr) ==> rr.name@ == spec_basename_or(repo_path@, "unknown"@) && rr.path@
            == repo_path@,
        r matches Ok(rr) ==> forall|k: int|
            0 <= k < rr.worktrees@.len() ==> (#[trigger] rr.worktrees@[k].branch@) != "main"@
                && rr.worktrees@[k].branch@ != "master"@,
        r matches Ok(rr) ==> forall|k: int|
            0 <= k < rr.worktrees@.len() ==> placeholder_status(
                (#[trigger] rr.worktrees@[k]).status,
            ),
{
    let name = String::from_str(basename_or(repo_path, "unknown"));
    let repo = match GitRepository::new(repo_path, SystemGitClient) {
        Result::Ok(x) => x,
        Result::Err(e) => {
            return Result::Err(e);
        },
    };
    let bare = match repo.is_bare() {
        Result::Ok(b) => b,
        Result::Err(_) => false,
    };
    if !bare {
        return Result::Ok(
            RepoResult { name, path: String::from_str(repo_path), worktrees: Vec::new() },
        );
    }
    let worktrees = match repo.list_worktrees() {
        Result::Ok(w) => w,
        Result::Err(e) => {
            return Result::Err(e);
        },
    };
    let mut results: Vec<WorktreeResult> = Vec::new();
    let mut i: usize = 0;
    while i < worktrees.len()
        invariant
            i <= worktrees@.len(),
            results@.len() == i,
            forall|k: int|
                0 <= k < i ==> (#[trigger] results@[k].branch@) == worktrees@[k].branch@,
            forall|k: int| 0 <= k < i ==> placeholder_status((#[trigger] results@[k]).status),
            forall|k: int|
                0 <= k < worktrees@.len() ==> (#[trigger] worktrees@[k].branch@) != "main"@
                    && worktrees@[k].branch@ != "master"@,
        decreases worktrees@.len() - i,
    {
        let ghost results_before = results@;
        let wt = &worktrees[i];
        results.push(
            WorktreeResult {
                branch: wt.branch.clone(),
                status: WorktreeStatus {
                    local_status: LocalStatus::Clean,
                    remote_status: RemoteStatus::NoRemote,
                    merge_status: MergeStatus::Unknown,
                    pr_status: Option::None,
                    commit_timestamp: 0,
                    directory_mtime: 0,
                    commit_summary: String::from_str("<placeholder>"),
                },
            },
        );
        proof {
            assert forall|k: int|
                0 <= k < results@.len() implies placeholder_status(
                (#[trigger] results@[k]).status,
            ) by {
                if k < results_before.len() {
                    assert(results@[k] == results_before[k]);
                } else {
                    assert(results@[k] == results@.last());
                }
            }
        }
        i = i + 1;
    }
    Result::Ok(RepoResult { name, path: String::from_str(repo_path), worktrees: results })
}

/// Attach pull-request statuses to a repository's worktrees: each
/// worktree gets the status of the first pull request whose head
/// branch equals its branch, and nothing else of it changes.
pub fn apply_pr_statuses(repo_result: RepoResult, prs: &[PrInfo]) -> (r: RepoResult)
    ensures
        r.name == repo_result.name,
        r.path == repo_result.path,
        r.worktrees@.len() == repo_result.worktrees@.len(),
        forall|k: int|
            0 <= k < r.worktrees@.len() ==> {
                let old_wt = #[trigger] repo_result.worktrees@[k];
                let new_wt = r.worktrees@[k];
                &&& new_wt.branch == old_wt.branch
                &&& new_wt.status.pr_status == spec_match_branch(old_wt.branch@, prs@)
                &&& new_wt.status.local_status == old_wt.status.local_status
                &&& new_wt.status.remote_status == old_wt.status.remote_status
                &&& new_wt.status.merge_status == old_wt.status.merge_status
                &&& new_wt.status.commit_timestamp == old_wt.status.commit_timestamp
                &&& new_wt.status.directory_mtime == old_wt.status.directory_mtime
                &&& new_wt.status.commit_summary == old_wt.status.commit_summary
            },
{
    let mut updated: Vec<WorktreeResult> = Vec::new();
    let mut i: usize = 0;
    while i < repo_result.worktrees.len()
        invariant
            i <= repo_result.worktrees@.len(),
            updated@.len() == i,
            forall|k: int|
                0 <= k < i ==> {
                    let old_wt = #[trigger] repo_result.worktrees@[k];
                    let new_wt = updated@[k];
                    &&& new_wt.branch == old_wt.branch
                    &&& new_wt.status.pr_status == spec_match_branch(old_wt.branch@, prs@)
                    &&& new_wt.status.local_status == old_wt.status.local_status
                    &&& new_wt.status.remote_status == old_wt.status.remote_status
                    &&& new_wt.status.merge_status == old_wt.status.merge_status
                    &&& new_wt.status.commit_timestamp == old_wt.status.commit_timestamp
                    &&& new_wt.status.directory_mtime == old_wt.status.directory_mtime
                    &&& new_wt.status.commit_summary == old_wt.status.commit_summary
                },
        decreases repo_result.worktrees@.len() - i,
    {
        let wt = &repo_result.worktrees[i];
        let pr_status = pr_status_for_branch(wt.branch.as_str(), prs);
        updated.push(
            WorktreeResult {
                branch: wt.branch.clone(),
                status: WorktreeStatus {
                    local_status: wt.status.local_status,
                    remote_status: wt.status.remote_status,
                    merge_status: wt.status.merge_status,
                    pr_status,
                    commit_timestamp: wt.status.commit_timestamp,
                    directory_mtime: wt.status.directory_mtime,
                    commit_summary: wt.status.commit_summary.clone(),
                },
            },
        );
        i = i + 1;
    }
    RepoResult { name: repo_result.name, path: repo_result.path, worktrees: updated }
}

/// The smallest present value, if any value is present.
pub fn min_present(times: &Vec<Option<i64>>) -> (r: Option<i64>)
    ensures
        match r {
            Some(v) => (exists|i: int|
                0 <= i < times@.len() && #[trigger] times@[i] == Some(v)) && forall|i: int|
                0 <= i < times@.len() ==> (#[trigger] times@[i] matches Some(x) ==> v <= x),
            None => forall|i: int| 0 <= i < times@.len() ==> (#[trigger] times@[i]) is None,
        },
{
    let mut best: Option<i64> = Option::None;
    let mut i: usize = 0;
    while i < times.len()
        invariant
            i <= times@.len(),
            match best {
                Some(v) => (exists|k: int|
                    0 <= k < i && #[trigger] times@[k] == Some(v)) && forall|k: int|
                    0 <= k < i ==> (#[trigger] times@[k] matches Some(x) ==> v <= x),
                None => forall|k: int| 0 <= k < i ==> (#[trigger] times@[k]) is None,
            },
        decreases times@.len() - i,
    {
        match times[i] {
            Option::Some(t) => {
                match best {
                    Option::Some(v) => {
                        if t < v {
                            best = Option::Some(t);
                        }
                    },
                    Option::None => {
                        best = Option::Some(t);
                    },
                }
            },
            Option::None => {},
        }
        i = i + 1;
    }
    best
}

/// What the earliest-time computation answers over the recorded
/// creation times: their smallest present value, or, with none
/// recorded, a week before `now`, clamped at the epoch.
pub open spec fn spec_earliest_or_fallback(times: Seq<Option<i64>>, now: i64, r: i64) -> bool {
    ||| ((exists|i: int| 0 <= i < times.len() && #[trigger] times[i] == Some(r)) && (forall|
        i: int,
    |
        0 <= i < times.len() ==> (#[trigger] times[i] matches Some(x) ==> r <= x)))
    ||| ((forall|i: int| 0 <= i < times.len() ==> (#[trigger] times[i]) is None) && r == (
    if now >= 604800 {
        (now - 604800) as i64
    } else {
        0i64
    }))
}

/// The smallest present time, or the week-before fallback.
pub fn earliest_or_fallback(times: &Vec<Option<i64>>, now: i64) -> (r: i64)
    requires
        now >= 0,
    ensures
        spec_earliest_or_fallback(times@, now, r),
{
    match min_present(times) {
        Option::Some(t) => t,
        Option::None => {
            if now >= 604800 {
                now - 604800
            } else {
                0
            }
        },
    }
}

/// The earliest recorded creation time among a repository's
/// worktrees, or a week before the call when none is recorded: the
/// window in which their pull requests can have been opened. The
/// answer relates to the observed times as `spec_earliest_or_fallback`
/// says.
pub fn earliest_worktree_time<T: GitClient>(
    repo: &GitRepository<T>,
    worktrees: &Vec<WorktreeInfo>,
) -> (r: i64)
    ensures
        exists|times: Seq<Option<i64>>, now: i64|
            0 <= now && #[trigger] spec_earliest_or_fallback(times, now, r),
{
    let mut times: Vec<Option<i64>> = Vec::new();
    let mut i: usize = 0;
    while i < worktrees.len()
        decreases worktrees@.len() - i,
    {
        match repo.get_worktree_birth_time(worktrees[i].path.as_str()) {
            Result::Ok(t) => times.push(t),
            Result::Err(_) => times.push(Option::None),
        }
        i = i + 1;
    }
    let now = crate::clock::now_unix_seconds();
    let r = earliest_or_fallback(&times, now);
    proof {
        assert(0 <= now && spec_earliest_or_fallback(times@, now, r));
    }
    r
}

/// One entry of the search directory, as its enumerator reports it.
#[derive(Debug)]
pub struct DirEntryInfo {
    pub name: String,
    pub is_dir: bool,
    pub has_git: bool,
}

/// The names of the entries that look like repositories: directories
/// containing a `.git` entry.
pub open spec fn spec_candidate_names(es: Seq<DirEntryInfo>) -> Seq<Seq<char>>
    decreases es.len(),
{
    if es.len() == 0 {
        Seq::empty()
    } else {
        spec_candidate_names(es.drop_last()) + if es.last().is_dir && es.last().has_git {
            seq![es.last().name@]
        } else {
            Seq::empty()
        }
    }
}

/// Select and sort the candidate repository names of a search
/// directory's entries.
pub fn select_repo_names(entries: Vec<DirEntryInfo>) -> (r: Vec<String>)
    ensures
        lex_sorted(str_views(r@)),
        str_views(r@).to_multiset() == spec_candidate_names(entries@).to_multiset(),
{
    let mut names: Vec<String> = Vec::new();
    let mut i: usize = 0;
    proof {
        assert(entries@.take(0) =~= Seq::<DirEntryInfo>::empty());
        assert(str_views(names@) =~= spec_candidate_names(entries@.take(0)));
    }
    while i < entries.len()
        invariant
            i <= entries@.len(),
            str_views(names@) == spec_candidate_names(entries@.take(i as int)),
        decreases entries@.len() - i,
    {
        let ghost names_before = names@;
        let e = &entries[i];
        if e.is_dir && e.has_git {
            names.push(e.name.clone());
        }
        proof {
            assert(entries@.take(i + 1).drop_last() =~= entries@.take(i as int));
            assert(entries@.take(i + 1).last() == entries@[i as int]);
            if entries@[i as int].is_dir && entries@[i as int].has_git {
                assert(str_views(names@) =~= str_views(names_before).push(
                    entries@[i as int].name@,
                ));
                assert(str_views(names@) =~= spec_candidate_names(entries@.take(i + 1)));
            } else {
                assert(str_views(names@) =~= spec_candidate_names(entries@.take(i + 1)));
            }
        }
        i = i + 1;
    }
    proof {
        assert(entries@.take(entries@.len() as int) =~= entries@);
    }
    sort_strings(names)
}

} // verus!
