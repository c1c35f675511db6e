use gwm::commands::{
    confirmation_is_yes, AddCommand, CleanupCommand, ListCommand, RemoveCommand, SwitchCommand,
};
use gwm::github::PrInfo;
use gwm::scan::apply_pr_statuses;
use gwm::status::PrStatus;
use gwm::model::{RepoResult, WorktreeResult, WorktreeStatus};
use gwm::scan::{earliest_or_fallback, min_present, select_repo_names, DirEntryInfo};
use gwm::status::{LocalStatus, MergeStatus, RemoteStatus};

fn worktree(branch: &str, local: LocalStatus, remote: RemoteStatus) -> WorktreeResult {
    WorktreeResult {
        branch: branch.to_string(),
        status: WorktreeStatus {
            local_status: local,
            remote_status: remote,
            merge_status: MergeStatus::Unknown,
            pr_status: None,
            commit_timestamp: 0,
            directory_mtime: 0,
            commit_summary: String::new(),
        },
    }
}

fn repo(name: &str, worktrees: Vec<WorktreeResult>) -> RepoResult {
    RepoResult {
        name: name.to_string(),
        path: format!("/repos/{}", name),
        worktrees,
    }
}

fn add_cmd(repo: &str, branch: &str) -> AddCommand {
    AddCommand {
        repo: repo.to_string(),
        branch: branch.to_string(),
        base_branch: None,
        path: None,
        dry_run: false,
        reuse: false,
    }
}

#[test]
fn add_finds_target_repository_by_name() {
    let results = vec![repo("alpha", vec![]), repo("beta", vec![])];
    let cmd = add_cmd("beta", "x");
    assert_eq!(cmd.find_target_repository(&results), Ok(Some(1)));
    let missing = add_cmd("gamma", "x");
    assert_eq!(missing.find_target_repository(&results), Ok(None));
}

#[test]
fn add_sees_existing_worktree_branch() {
    let r = repo("alpha", vec![worktree("dev", LocalStatus::Clean, RemoteStatus::NoRemote)]);
    assert_eq!(add_cmd("alpha", "dev").branch_exists_in_repo(&r), Ok(true));
    assert_eq!(add_cmd("alpha", "other").branch_exists_in_repo(&r), Ok(false));
}

#[test]
fn add_determines_worktree_path_inside_repo() {
    let cmd = add_cmd("alpha", "feat");
    assert_eq!(
        cmd.determine_worktree_path("/repos/alpha"),
        Ok("/repos/alpha/feat".to_string())
    );
}

#[test]
fn remove_finds_the_exact_worktree() {
    let results = vec![
        repo("alpha", vec![worktree("dev", LocalStatus::Clean, RemoteStatus::NoRemote)]),
        repo(
            "beta",
            vec![
                worktree("dev", LocalStatus::Clean, RemoteStatus::NoRemote),
                worktree("feat", LocalStatus::Dirty, RemoteStatus::NoRemote),
            ],
        ),
    ];
    let cmd = RemoveCommand {
        repo: "beta".to_string(),
        branch: "feat".to_string(),
        path: None,
        dry_run: false,
    };
    assert_eq!(cmd.find_target_worktree(&results), Ok(Some((1, 1))));
    let missing = RemoveCommand {
        repo: "beta".to_string(),
        branch: "nope".to_string(),
        path: None,
        dry_run: false,
    };
    assert_eq!(missing.find_target_worktree(&results), Ok(None));
}

#[test]
fn switch_finds_repository_but_not_phantom_worktrees() {
    let results = vec![repo("alpha", vec![worktree("dev", LocalStatus::Clean, RemoteStatus::NoRemote)])];
    let cmd = SwitchCommand {
        repo: "alpha".to_string(),
        branch: "missing".to_string(),
        path: None,
    };
    assert_eq!(cmd.find_target_repository(&results), Ok(Some(0)));
    // The branch is not a worktree of the repository at all.
    assert_eq!(cmd.find_worktree_path(&results[0]), Ok(None));
}

#[test]
fn cleanup_default_filter_is_the_prune_preset() {
    let cmd = CleanupCommand {
        path: None,
        dry_run: false,
        force: false,
        allow_unpushed: false,
        custom_filter: false,
        clean: false,
        likely_merged: false,
        older_than: None,
    };
    let f = cmd.build_filter().unwrap();
    assert_eq!(f.likely_merged, Some(true));
    assert_eq!(f.clean, Some(true));
    assert_eq!(f.older_than_days, Some(7));
    assert_eq!(f.dirty, None);
}

#[test]
fn cleanup_custom_filter_takes_flags_and_age() {
    let cmd = CleanupCommand {
        path: None,
        dry_run: false,
        force: false,
        allow_unpushed: false,
        custom_filter: true,
        clean: true,
        likely_merged: false,
        older_than: Some("2w".to_string()),
    };
    let f = cmd.build_filter().unwrap();
    assert_eq!(f.clean, Some(true));
    assert_eq!(f.likely_merged, None);
    assert_eq!(f.older_than_days, Some(14));

    let bad = CleanupCommand { older_than: Some("zz".to_string()), ..cmd };
    assert!(bad.build_filter().is_err());
}

#[test]
fn cleanup_safety_checks_name_dirty_and_unpushed_work() {
    let cmd = CleanupCommand {
        path: None,
        dry_run: false,
        force: false,
        allow_unpushed: false,
        custom_filter: false,
        clean: false,
        likely_merged: false,
        older_than: None,
    };
    let candidates = vec![repo(
        "alpha",
        vec![
            worktree("dirty", LocalStatus::Dirty, RemoteStatus::UpToDate),
            worktree("unpushed", LocalStatus::Clean, RemoteStatus::NotPushed),
            worktree("gone", LocalStatus::Missing, RemoteStatus::UpToDate),
            worktree("fine", LocalStatus::Clean, RemoteStatus::UpToDate),
        ],
    )];
    let entries = cmd.find_unsafe_branches(&candidates).unwrap();
    assert_eq!(entries.len(), 2);
    assert_eq!(entries[0].1, "dirty");
    assert_eq!(entries[0].2, "has uncommitted changes");
    assert_eq!(entries[1].1, "unpushed");
    assert_eq!(entries[1].2, "has unpushed commits");

    let safe = cmd.filter_unsafe_branches(candidates, &entries);
    assert_eq!(safe.len(), 1);
    let branches: Vec<&str> = safe[0].worktrees.iter().map(|w| w.branch.as_str()).collect();
    assert_eq!(branches, vec!["gone", "fine"]);
}

fn bare_list_cmd() -> ListCommand {
    ListCommand {
        path: None,
        no_emoji: false,
        prune_candidates: false,
        active: false,
        needs_attention: false,
        stale: false,
        dirty: false,
        clean: false,
        staged: false,
        missing: false,
        ahead: false,
        behind: false,
        diverged: false,
        not_pushed: false,
        not_tracking: false,
        up_to_date: false,
        older_than: None,
        newer_than: None,
    }
}

#[test]
fn list_presets_override_individual_flags() {
    let cmd = ListCommand { active: true, dirty: true, ..bare_list_cmd() };
    let f = cmd.build_filter().unwrap();
    assert_eq!(f.not_merged, Some(true));
    assert_eq!(f.newer_than_days, Some(7));
    assert_eq!(f.dirty, None);
}

#[test]
fn list_builds_filter_from_flags() {
    let cmd = ListCommand {
        dirty: true,
        behind: true,
        older_than: Some("3d".to_string()),
        ..bare_list_cmd()
    };
    let f = cmd.build_filter().unwrap();
    assert_eq!(f.dirty, Some(true));
    assert_eq!(f.behind, Some(true));
    assert_eq!(f.older_than_days, Some(3));
    assert_eq!(f.newer_than_days, None);

    let bad = ListCommand { newer_than: Some("nope".to_string()), ..bare_list_cmd() };
    assert!(bad.build_filter().is_err());
}

#[test]
fn list_knows_whether_filters_are_active() {
    assert!(!bare_list_cmd().has_filters());
    assert!(ListCommand { stale: true, ..bare_list_cmd() }.has_filters());
    assert!(ListCommand { older_than: Some("1w".to_string()), ..bare_list_cmd() }.has_filters());
}

#[test]
fn list_describes_active_filters() {
    let cmd = ListCommand {
        dirty: true,
        not_pushed: true,
        older_than: Some("2w".to_string()),
        ..bare_list_cmd()
    };
    assert_eq!(cmd.describe_filters(), "dirty, not-pushed, older-than-2w");
    assert_eq!(bare_list_cmd().describe_filters(), "");
}

#[test]
fn repo_names_are_selected_and_sorted() {
    let entries = vec![
        DirEntryInfo { name: "zeta".to_string(), is_dir: true, has_git: true },
        DirEntryInfo { name: "notes.txt".to_string(), is_dir: false, has_git: false },
        DirEntryInfo { name: "alpha".to_string(), is_dir: true, has_git: true },
        DirEntryInfo { name: "plain-dir".to_string(), is_dir: true, has_git: false },
    ];
    assert_eq!(select_repo_names(entries), vec!["alpha".to_string(), "zeta".to_string()]);
}

#[test]
fn pr_statuses_attach_to_matching_branches() {
    let r = repo(
        "alpha",
        vec![
            worktree("feat", LocalStatus::Clean, RemoteStatus::UpToDate),
            worktree("other", LocalStatus::Clean, RemoteStatus::UpToDate),
        ],
    );
    let prs = vec![PrInfo {
        number: 7,
        head_branch: "feat".to_string(),
        status: PrStatus::Merged(7),
    }];
    let updated = apply_pr_statuses(r, &prs);
    assert_eq!(updated.worktrees[0].status.pr_status, Some(PrStatus::Merged(7)));
    assert_eq!(updated.worktrees[1].status.pr_status, None);
}

#[test]
fn confirmation_accepts_only_a_leading_y() {
    assert!(confirmation_is_yes("y\n"));
    assert!(confirmation_is_yes("  Yes please\n"));
    assert!(!confirmation_is_yes("\n"));
    assert!(!confirmation_is_yes("no\n"));
    assert!(!confirmation_is_yes("ay\n"));
}

#[test]
fn earliest_time_takes_the_minimum_or_a_week_before() {
    let times = vec![None, Some(500_i64), Some(300_i64), None, Some(900_i64)];
    assert_eq!(min_present(&times), Some(300));
    assert_eq!(earliest_or_fallback(&times, 1_700_000_000), 300);

    let none: Vec<Option<i64>> = vec![None, None];
    assert_eq!(min_present(&none), None);
    assert_eq!(earliest_or_fallback(&none, 1_700_000_000), 1_700_000_000 - 604_800);
    // Near the epoch the fallback clamps at zero.
    assert_eq!(earliest_or_fallback(&none, 1_000), 0);
}
