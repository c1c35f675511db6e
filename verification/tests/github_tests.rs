use gwm::github::{
    match_worktrees_to_pr_pairs, match_worktrees_to_prs, parse_github_url, resolve_pr_status,
    PrInfo,
};
use gwm::status::PrStatus;

#[test]
fn parses_ssh_github_url() {
    let url = "git@github.com:jml/git-worktree-manager.git";
    let repo = parse_github_url(url).unwrap();
    assert_eq!(repo.owner, "jml");
    assert_eq!(repo.repo, "git-worktree-manager");
}

#[test]
fn parses_ssh_github_url_without_git_extension() {
    let url = "git@github.com:jml/git-worktree-manager";
    let repo = parse_github_url(url).unwrap();
    assert_eq!(repo.owner, "jml");
    assert_eq!(repo.repo, "git-worktree-manager");
}

#[test]
fn parses_https_github_url() {
    let url = "https://github.com/jml/git-worktree-manager.git";
    let repo = parse_github_url(url).unwrap();
    assert_eq!(repo.owner, "jml");
    assert_eq!(repo.repo, "git-worktree-manager");
}

#[test]
fn parses_https_github_url_without_git_extension() {
    let url = "https://github.com/jml/git-worktree-manager";
    let repo = parse_github_url(url).unwrap();
    assert_eq!(repo.owner, "jml");
    assert_eq!(repo.repo, "git-worktree-manager");
}

#[test]
fn matches_worktrees_to_prs_exact_match() {
    let branches = vec!["feature-1".to_string(), "feature-2".to_string()];
    let prs = vec![
        PrInfo {
            number: 1,
            head_branch: "feature-1".to_string(),
            status: PrStatus::Open(1, None),
        },
        PrInfo {
            number: 2,
            head_branch: "feature-3".to_string(),
            status: PrStatus::Open(2, None),
        },
    ];

    let matches = match_worktrees_to_prs(&branches, &prs);

    assert_eq!(matches.len(), 1);
    assert_eq!(matches.get("feature-1"), Some(&PrStatus::Open(1, None)));
    assert_eq!(matches.get("feature-2"), None);
}

#[test]
fn rejects_url_without_owner_or_repo() {
    assert!(parse_github_url("git@github.com:norepo").is_err());
    assert!(parse_github_url("https://example.com/a/b").is_err());
    assert!(parse_github_url("").is_err());
}

#[test]
fn matches_first_pr_with_branch() {
    let prs = vec![
        PrInfo {
            number: 4,
            head_branch: "dup".to_string(),
            status: PrStatus::Merged(4),
        },
        PrInfo {
            number: 9,
            head_branch: "dup".to_string(),
            status: PrStatus::Closed(9),
        },
    ];
    let st = gwm::github::pr_status_for_branch("dup", &prs);
    assert_eq!(st, Some(PrStatus::Merged(4)));
    assert_eq!(gwm::github::pr_status_for_branch("other", &prs), None);
}

#[test]
fn pr_status_from_flags_prefers_merged() {
    assert_eq!(gwm::github::pr_status_from_flags(3, true, true), PrStatus::Merged(3));
    assert_eq!(
        gwm::github::pr_status_from_flags(3, false, true),
        PrStatus::Open(3, None)
    );
    assert_eq!(gwm::github::pr_status_from_flags(3, false, false), PrStatus::Closed(3));
}

#[test]
fn search_pagination_stops_on_partial_pages() {
    assert_eq!(gwm::github::next_search_page(1, 0), None);
    assert_eq!(gwm::github::next_search_page(1, 40), None);
    assert_eq!(gwm::github::next_search_page(1, 100), Some(2));
}

#[test]
fn resolve_pr_status_degrades_without_github() {
    assert_eq!(resolve_pr_status(false, Some(PrStatus::Merged(1))), PrStatus::NoGitHub);
    assert_eq!(resolve_pr_status(true, None), PrStatus::NoPr);
    assert_eq!(resolve_pr_status(true, Some(PrStatus::Closed(2))), PrStatus::Closed(2));
}

#[test]
fn pair_matching_keeps_branch_order_and_drops_unmatched() {
    let branches = vec!["b".to_string(), "a".to_string(), "c".to_string()];
    let prs = vec![
        PrInfo { number: 1, head_branch: "a".to_string(), status: PrStatus::Merged(1) },
        PrInfo { number: 2, head_branch: "b".to_string(), status: PrStatus::Open(2, None) },
    ];
    let pairs = match_worktrees_to_pr_pairs(&branches, &prs);
    assert_eq!(pairs.len(), 2);
    assert_eq!(pairs[0], ("b".to_string(), PrStatus::Open(2, None)));
    assert_eq!(pairs[1], ("a".to_string(), PrStatus::Merged(1)));
}
