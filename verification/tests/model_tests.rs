use gwm::model::{RepoResult, StatusCounters, WorktreeAnalyzer, WorktreeFilter, WorktreeResult, WorktreeStatus};
use gwm::status::{LocalStatus, MergeStatus, RemoteStatus};

fn worktree(
    branch: &str,
    local: LocalStatus,
    remote: RemoteStatus,
    merge: MergeStatus,
    commit_timestamp: i64,
) -> WorktreeResult {
    WorktreeResult {
        branch: branch.to_string(),
        status: WorktreeStatus {
            local_status: local,
            remote_status: remote,
            merge_status: merge,
            pr_status: None,
            commit_timestamp,
            directory_mtime: 0,
            commit_summary: "a commit".to_string(),
        },
    }
}

const DAY: i64 = 24 * 60 * 60;

#[test]
fn parse_age_accepts_days_weeks_months() {
    assert_eq!(WorktreeFilter::parse_age_to_days("30"), Ok(30));
    assert_eq!(WorktreeFilter::parse_age_to_days("30d"), Ok(30));
    assert_eq!(WorktreeFilter::parse_age_to_days("1w"), Ok(7));
    assert_eq!(WorktreeFilter::parse_age_to_days("2m"), Ok(60));
    assert_eq!(WorktreeFilter::parse_age_to_days("6months"), Ok(180));
    assert_eq!(WorktreeFilter::parse_age_to_days("2weeks"), Ok(14));
    assert_eq!(WorktreeFilter::parse_age_to_days("5days"), Ok(5));
    assert_eq!(WorktreeFilter::parse_age_to_days("1day"), Ok(1));
}

#[test]
fn parse_age_rejects_bad_input() {
    assert!(WorktreeFilter::parse_age_to_days("").is_err());
    assert!(WorktreeFilter::parse_age_to_days("xq").is_err());
    assert!(WorktreeFilter::parse_age_to_days("x").is_err());
    assert!(WorktreeFilter::parse_age_to_days("d").is_err());
    assert!(WorktreeFilter::parse_age_to_days("12y").is_err());
    assert!(WorktreeFilter::parse_age_to_days("99999999999").is_err());
    assert!(WorktreeFilter::parse_age_to_days("4294967295w").is_err());
    // Exactly one suffix is recognised; a repeated one is not.
    assert!(WorktreeFilter::parse_age_to_days("3daysdays").is_err());
    assert!(WorktreeFilter::parse_age_to_days("2weeksweeks").is_err());
    assert!(WorktreeFilter::parse_age_to_days("5dd").is_err());
}

#[test]
fn empty_filter_accepts_everything() {
    let f = WorktreeFilter::new();
    let now = 1_700_000_000;
    let samples = vec![
        worktree("a", LocalStatus::Dirty, RemoteStatus::NotPushed, MergeStatus::Unknown, 0),
        worktree("b", LocalStatus::Clean, RemoteStatus::UpToDate, MergeStatus::Merged, now - 40 * DAY),
        worktree("c", LocalStatus::Missing, RemoteStatus::Diverged(2, 3), MergeStatus::NotMerged, now),
        worktree("d", LocalStatus::Staged, RemoteStatus::NoRemote, MergeStatus::LikelyMerged, now + DAY),
    ];
    for w in &samples {
        assert!(f.matches(w, now));
    }
}

#[test]
fn prune_candidates_needs_age_and_cleanliness() {
    let f = WorktreeFilter::prune_candidates();
    let now = 1_700_000_000;
    let ten_days_old = worktree(
        "old",
        LocalStatus::Clean,
        RemoteStatus::NoRemote,
        MergeStatus::LikelyMerged,
        now - 10 * DAY,
    );
    let two_days_old = worktree(
        "young",
        LocalStatus::Clean,
        RemoteStatus::NoRemote,
        MergeStatus::LikelyMerged,
        now - 2 * DAY,
    );
    assert!(f.matches(&ten_days_old, now));
    assert!(!f.matches(&two_days_old, now));

    let dirty_old = worktree(
        "dirty",
        LocalStatus::Dirty,
        RemoteStatus::NoRemote,
        MergeStatus::LikelyMerged,
        now - 10 * DAY,
    );
    assert!(!f.matches(&dirty_old, now));
}

#[test]
fn needs_attention_matches_diverged_behind_or_missing() {
    let f = WorktreeFilter::needs_attention();
    let now = 1_700_000_000;
    assert!(f.matches(
        &worktree("a", LocalStatus::Clean, RemoteStatus::Diverged(1, 1), MergeStatus::Unknown, now),
        now
    ));
    assert!(f.matches(
        &worktree("b", LocalStatus::Clean, RemoteStatus::Behind(4), MergeStatus::Unknown, now),
        now
    ));
    assert!(f.matches(
        &worktree("c", LocalStatus::Missing, RemoteStatus::UpToDate, MergeStatus::Unknown, now),
        now
    ));
    assert!(!f.matches(
        &worktree("d", LocalStatus::Clean, RemoteStatus::UpToDate, MergeStatus::Unknown, now),
        now
    ));
}

#[test]
fn unknown_timestamp_always_passes_age_gates() {
    let f = WorktreeFilter::stale();
    let now = 1_700_000_000;
    let unknown = worktree("u", LocalStatus::Clean, RemoteStatus::NoRemote, MergeStatus::Unknown, 0);
    assert!(f.matches(&unknown, now));
    let young = worktree("y", LocalStatus::Clean, RemoteStatus::NoRemote, MergeStatus::Unknown, now - DAY);
    assert!(!f.matches(&young, now));
}

#[test]
fn analyze_of_nothing_is_all_zero() {
    let (total, repos, counters, labels) = WorktreeAnalyzer::analyze(&[]);
    assert_eq!(total, 0);
    assert_eq!(repos, 0);
    assert_eq!(counters, StatusCounters::new());
    assert!(labels.is_empty());
}

#[test]
fn analyze_counts_and_labels() {
    let now = 1_700_000_000;
    let results = vec![
        RepoResult {
            name: "alpha".to_string(),
            path: "/repos/alpha".to_string(),
            worktrees: vec![
                worktree("f1", LocalStatus::Dirty, RemoteStatus::Ahead(2), MergeStatus::NotMerged, now),
                worktree("f2", LocalStatus::Clean, RemoteStatus::UpToDate, MergeStatus::Merged, now),
            ],
        },
        RepoResult {
            name: "beta".to_string(),
            path: "/repos/beta".to_string(),
            worktrees: vec![],
        },
    ];
    let (total, repos, counters, labels) = WorktreeAnalyzer::analyze(&results);
    assert_eq!(total, 2);
    assert_eq!(repos, 1);
    assert_eq!(counters.dirty, 1);
    assert_eq!(counters.clean, 1);
    assert_eq!(counters.ahead, 1);
    assert_eq!(counters.up_to_date, 1);
    assert_eq!(counters.staged, 0);
    assert_eq!(labels, vec!["alpha/f1".to_string(), "alpha/f2".to_string()]);
}

#[test]
fn counters_update_tallies_each_axis() {
    let mut c = StatusCounters::new();
    let w = worktree("w", LocalStatus::Staged, RemoteStatus::NotTracking, MergeStatus::Unknown, 0);
    c.update(&w.status);
    assert_eq!(c.staged, 1);
    assert_eq!(c.not_tracking, 1);
    assert_eq!(c.clean, 0);
    let m = worktree("m", LocalStatus::Missing, RemoteStatus::NoRemote, MergeStatus::Unknown, 0);
    c.update(&m.status);
    // Missing and NoRemote are not tallied on any counter.
    assert_eq!(c, StatusCounters { staged: 1, not_tracking: 1, ..StatusCounters::new() });
}

#[test]
fn filter_results_keeps_only_matching_worktrees() {
    let now = 1_700_000_000;
    let results = vec![
        RepoResult {
            name: "repo".to_string(),
            path: "/repos/repo".to_string(),
            worktrees: vec![
                worktree("feature-a", LocalStatus::Dirty, RemoteStatus::NotPushed, MergeStatus::Unknown, now - DAY),
                worktree(
                    "feature-b",
                    LocalStatus::Clean,
                    RemoteStatus::UpToDate,
                    MergeStatus::LikelyMerged,
                    now - 10 * DAY,
                ),
            ],
        },
    ];
    let filter = WorktreeFilter::prune_candidates();
    let kept = WorktreeAnalyzer::filter_results_at(&results, &filter, now);
    assert_eq!(kept.len(), 1);
    assert_eq!(kept[0].worktrees.len(), 1);
    assert_eq!(kept[0].worktrees[0].branch, "feature-b");

    let empty = WorktreeAnalyzer::filter_results_at(&results, &WorktreeFilter::new(), now);
    assert_eq!(empty[0].worktrees.len(), 2);
}
