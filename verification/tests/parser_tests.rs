use gwm::git::{
    classify_merge_status, classify_remote_status, config_value_is_true, parse_local_status,
    parse_worktrees, plan_remove, plan_source_ref, FileChange, GitError, RemovePlan,
    SourceRefPlan,
};
use gwm::output::StatusFormatter;
use gwm::status::PrStatus;
use gwm::table::{format_age_at, TableRow, TableRowWithoutPr};
use gwm::model::{RepoResult, WorktreeAnalyzer, WorktreeFilter, WorktreeResult, WorktreeStatus};
use gwm::status::{LocalStatus, MergeStatus, RemoteStatus};

const DAY: i64 = 24 * 60 * 60;

#[test]
fn parse_worktrees_excludes_bare_and_primary_branches() {
    // The scenario of one bare repository with two feature worktrees
    // plus the primary checkout: listing yields exactly the two
    // features, the primary branch is never surfaced.
    let listing = "/repos/proj (bare)\n\
                   /repos/proj/main [main]\n\
                   /repos/proj/feature-a [feature-a]\n\
                   /repos/proj/feature-b [feature-b]\n";
    let worktrees = parse_worktrees(listing);
    assert_eq!(worktrees.len(), 2);
    assert_eq!(worktrees[0].branch, "feature-a");
    assert_eq!(worktrees[0].path, "/repos/proj/feature-a");
    assert_eq!(worktrees[1].branch, "feature-b");
}

#[test]
fn parse_worktrees_skips_master_and_malformed_lines() {
    let listing = "/x/master [master]\nnot a worktree line\n/x/dev [dev]\n";
    let worktrees = parse_worktrees(listing);
    assert_eq!(worktrees.len(), 1);
    assert_eq!(worktrees[0].branch, "dev");
    assert_eq!(worktrees[0].path, "/x/dev");
}

#[test]
fn parse_worktrees_of_empty_listing() {
    assert!(parse_worktrees("").is_empty());
}

#[test]
fn prune_filter_selects_the_stale_clean_worktree() {
    // The rest of the scenario: classify the two features and let the
    // prune preset choose.
    let now = 1_700_000_000;
    let results = vec![RepoResult {
        name: "proj".to_string(),
        path: "/repos/proj".to_string(),
        worktrees: vec![
            WorktreeResult {
                branch: "feature-a".to_string(),
                status: WorktreeStatus {
                    local_status: LocalStatus::Dirty,
                    remote_status: RemoteStatus::NotPushed,
                    merge_status: MergeStatus::Unknown,
                    pr_status: None,
                    commit_timestamp: now - DAY,
                    directory_mtime: 0,
                    commit_summary: "wip".to_string(),
                },
            },
            WorktreeResult {
                branch: "feature-b".to_string(),
                status: WorktreeStatus {
                    local_status: LocalStatus::Clean,
                    remote_status: RemoteStatus::UpToDate,
                    merge_status: MergeStatus::LikelyMerged,
                    pr_status: None,
                    commit_timestamp: now - 10 * DAY,
                    directory_mtime: 0,
                    commit_summary: "done".to_string(),
                },
            },
        ],
    }];
    let kept = WorktreeAnalyzer::filter_results_at(&results, &WorktreeFilter::prune_candidates(), now);
    assert_eq!(kept.len(), 1);
    assert_eq!(kept[0].worktrees.len(), 1);
    assert_eq!(kept[0].worktrees[0].branch, "feature-b");
}

fn change(index: bool, wt: bool, path: &str) -> FileChange {
    FileChange {
        index_new: index,
        index_modified: false,
        index_deleted: false,
        index_renamed: false,
        index_typechange: false,
        wt_new: false,
        wt_modified: wt,
        wt_deleted: false,
        wt_renamed: false,
        wt_typechange: false,
        path: path.to_string(),
    }
}

#[test]
fn porcelain_empty_means_clean() {
    assert_eq!(parse_local_status(""), LocalStatus::Clean);
    assert_eq!(parse_local_status("  \n  "), LocalStatus::Clean);
}

#[test]
fn porcelain_index_marker_means_staged() {
    assert_eq!(parse_local_status("A  new.txt\n"), LocalStatus::Staged);
    assert_eq!(parse_local_status("?? junk\nM  staged.rs\n"), LocalStatus::Staged);
}

#[test]
fn porcelain_worktree_only_changes_mean_dirty() {
    assert_eq!(parse_local_status("?? junk\n M edited\n"), LocalStatus::Dirty);
}

#[test]
fn porcelain_roundtrip_through_builder() {
    let entries = vec![change(true, false, "staged.txt"), change(false, true, "edited.txt")];
    let text = gwm::git::build_porcelain(&entries);
    assert_eq!(text, "A  staged.txt\n M edited.txt\n");
    assert_eq!(parse_local_status(&text), LocalStatus::Staged);

    let only_wt = vec![change(false, true, "edited.txt")];
    assert_eq!(parse_local_status(&gwm::git::build_porcelain(&only_wt)), LocalStatus::Dirty);

    let none: Vec<FileChange> = vec![];
    assert_eq!(parse_local_status(&gwm::git::build_porcelain(&none)), LocalStatus::Clean);
}

#[test]
fn remote_classification_covers_every_arm() {
    assert_eq!(classify_remote_status(Some((0, 0)), false), RemoteStatus::UpToDate);
    assert_eq!(classify_remote_status(Some((3, 0)), false), RemoteStatus::Ahead(3));
    assert_eq!(classify_remote_status(Some((0, 2)), false), RemoteStatus::Behind(2));
    assert_eq!(classify_remote_status(Some((3, 2)), false), RemoteStatus::Diverged(3, 2));
    assert_eq!(classify_remote_status(None, true), RemoteStatus::NotTracking);
    assert_eq!(classify_remote_status(None, false), RemoteStatus::NotPushed);
}

#[test]
fn merge_classification_follows_the_heuristic() {
    let now = 1_700_000_000;
    // Remote branch present: not merged, whatever the age.
    assert_eq!(classify_merge_status(true, now - 30 * DAY, now), MergeStatus::NotMerged);
    // Absent and old: likely squash-merged.
    assert_eq!(classify_merge_status(false, now - 8 * DAY, now), MergeStatus::LikelyMerged);
    // Absent and young: unknown.
    assert_eq!(classify_merge_status(false, now - 2 * DAY, now), MergeStatus::Unknown);
    assert_eq!(classify_merge_status(false, now - 7 * DAY, now), MergeStatus::Unknown);
}

#[test]
fn git_error_messages_name_the_remedy() {
    let msg = GitError::BranchExists.message();
    assert!(msg.contains("already exists"));
    assert!(msg.contains("--reuse"));
}

#[test]
fn format_age_buckets() {
    let now = 1_700_000_000;
    assert_eq!(format_age_at(0, now), "Unknown");
    assert_eq!(format_age_at(now, now), "Today");
    assert_eq!(format_age_at(now - DAY, now), "1 day");
    assert_eq!(format_age_at(now - 3 * DAY, now), "3 days");
    assert_eq!(format_age_at(now - 10 * DAY, now), "1 weeks");
    assert_eq!(format_age_at(now - 65 * DAY, now), "2 months");
    assert_eq!(format_age_at(now - 400 * DAY, now), "1 years");
    assert_eq!(format_age_at(now + 3 * DAY, now), "-3 days");
}

#[test]
fn table_rows_carry_formatted_cells() {
    let w = WorktreeResult {
        branch: "feat".to_string(),
        status: WorktreeStatus {
            local_status: LocalStatus::Clean,
            remote_status: RemoteStatus::UpToDate,
            merge_status: MergeStatus::Unknown,
            pr_status: None,
            commit_timestamp: 0,
            directory_mtime: 0,
            commit_summary: "a summary".to_string(),
        },
    };
    let row = TableRow::from_worktree("proj", &w, false);
    assert_eq!(row.repo, "proj");
    assert_eq!(row.branch, "feat");
    assert_eq!(row.local_status, "Clean");
    assert_eq!(row.pr_status, "-");
    assert_eq!(row.commit_age, "Unknown");
    assert_eq!(row.commit_summary, "a summary");

    let row2 = TableRowWithoutPr::from_worktree("proj", &w, true);
    assert!(row2.local_status.ends_with("Clean"));
}

#[test]
fn status_descriptions_spell_out_counts() {
    assert_eq!(RemoteStatus::UpToDate.description(), "Up to date");
    assert_eq!(RemoteStatus::Ahead(12).description(), "Ahead 12");
    assert_eq!(RemoteStatus::Behind(3).description(), "Behind 3");
    assert_eq!(
        RemoteStatus::Diverged(2, 5).description(),
        "Diverged (+2/\u{2212}5)"
    );
    assert_eq!(LocalStatus::Missing.description(), "Missing");
    assert_eq!(PrStatus::Merged(17).description(), "PR Merged (#17) \u{2705}");
    assert_eq!(PrStatus::NoPr.description(), "No PR");
}

#[test]
fn bare_config_value_is_trimmed_and_compared() {
    assert!(config_value_is_true("true"));
    assert!(config_value_is_true(" true\n"));
    assert!(!config_value_is_true("false"));
    assert!(!config_value_is_true("TRUE"));
    assert!(!config_value_is_true(""));
}

#[test]
fn remove_plan_covers_prune_outcomes() {
    assert_eq!(plan_remove(&Ok(()), true), RemovePlan::Done);
    assert_eq!(
        plan_remove(&Err(GitError::WorktreeNotFound), true),
        RemovePlan::RemoveDirectory
    );
    assert_eq!(
        plan_remove(&Err(GitError::WorktreeNotFound), false),
        RemovePlan::NothingLeft
    );
    assert_eq!(
        plan_remove(&Err(GitError::IoFailure), false),
        RemovePlan::Fail(GitError::IoFailure)
    );
}

#[test]
fn error_message_can_name_its_subject() {
    assert_eq!(
        GitError::WorktreeNotFound.message_with("feature-x"),
        "Worktree for branch not found: feature-x"
    );
}

#[test]
fn source_ref_plan_prefers_the_local_branch() {
    assert_eq!(plan_source_ref(true, true), SourceRefPlan::UseLocal);
    assert_eq!(plan_source_ref(true, false), SourceRefPlan::UseLocal);
    assert_eq!(plan_source_ref(false, true), SourceRefPlan::UseOriginRemote);
    assert_eq!(plan_source_ref(false, false), SourceRefPlan::NotFound);
}
