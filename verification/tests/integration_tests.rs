use git2::{Repository, Signature};
use gwm::git::{GitError, GitRepository, SystemGitClient};
use tempfile::TempDir;

/// Helper to create a temporary bare repository with an initial commit
/// on its `main` branch, built straight in the object database.
fn setup_bare_repo_with_commit() -> (TempDir, String) {
    let temp_dir = TempDir::new().expect("Failed to create temp directory");
    let repo_path = temp_dir.path().join("test-repo");

    let repo = Repository::init_bare(&repo_path).expect("Failed to init bare repo");

    let blob = repo
        .blob(b"# Test Repository\n")
        .expect("Failed to write blob");
    let mut builder = repo.treebuilder(None).expect("Failed to create tree builder");
    builder
        .insert("README.md", blob, 0o100644)
        .expect("Failed to add file to tree");
    let tree_id = builder.write().expect("Failed to write tree");
    let tree = repo.find_tree(tree_id).expect("Failed to find tree");

    let signature =
        Signature::now("Test User", "test@example.com").expect("Failed to create signature");
    repo.commit(
        Some("refs/heads/main"),
        &signature,
        &signature,
        "Initial commit",
        &tree,
        &[],
    )
    .expect("Failed to create initial commit");
    repo.set_head("refs/heads/main").expect("Failed to point HEAD at main");

    (temp_dir, repo_path.to_string_lossy().to_string())
}

#[test]
fn test_add_worktree_creates_branch_successfully() {
    let (_temp_dir, repo_path) = setup_bare_repo_with_commit();

    // Create GitRepository instance
    let git_repo =
        GitRepository::new(&repo_path, SystemGitClient).expect("Failed to open repository");

    // Create a temporary directory for the worktree
    let worktree_dir = TempDir::new().expect("Failed to create worktree temp dir");
    let worktree_path = worktree_dir.path().join("test-branch");

    let result = git_repo.add_worktree(
        "test-branch",
        worktree_path.to_str().unwrap(),
        Some("main"),
        false,
    );

    // Assert that the worktree was created successfully
    match result {
        Ok(()) => {
            // Verify the worktree directory exists
            assert!(worktree_path.exists(), "Worktree directory should exist");

            // Verify the branch was created and checked out properly
            let worktree_repo = Repository::open(&worktree_path)
                .expect("Should be able to open worktree repository");

            let head = worktree_repo.head().expect("Should have a HEAD reference");
            assert!(head.is_branch(), "HEAD should point to a branch");

            let branch_name = head.shorthand().expect("Should have a branch name");
            assert_eq!(
                branch_name, "test-branch",
                "Should be on the correct branch"
            );
        }
        Err(e) => {
            panic!("add_worktree failed: {}", e.message());
        }
    }
}

#[test]
fn test_add_worktree_with_existing_branch() {
    let (_temp_dir, repo_path) = setup_bare_repo_with_commit();

    let git_repo =
        GitRepository::new(&repo_path, SystemGitClient).expect("Failed to open repository");

    let worktree_dir = TempDir::new().expect("Failed to create worktree temp dir");
    let worktree_path = worktree_dir.path().join("existing-main");

    // This should work since main branch already exists
    let result = git_repo.add_worktree("main", worktree_path.to_str().unwrap(), None, true);

    match &result {
        Ok(()) => {
            assert!(worktree_path.exists(), "Worktree directory should exist");
        }
        Err(e) => {
            println!("Error creating worktree from existing branch: {}", e.message());
            panic!(
                "Should be able to create worktree from existing branch: {}",
                e.message()
            );
        }
    }
}

#[test]
fn test_add_worktree_fails_when_path_exists() {
    let (_temp_dir, repo_path) = setup_bare_repo_with_commit();

    let git_repo =
        GitRepository::new(&repo_path, SystemGitClient).expect("Failed to open repository");

    // Use a directory that already exists as the target path.
    let worktree_dir = TempDir::new().expect("Failed to create worktree temp dir");
    let worktree_path = worktree_dir.path().to_path_buf();

    // This should fail because the path already exists
    let result = git_repo.add_worktree(
        "test-branch",
        worktree_path.to_str().unwrap(),
        Some("main"),
        false,
    );

    assert!(
        result.is_err(),
        "Should fail when target path already exists"
    );
    assert!(result.unwrap_err().message().contains("already exists"));
}

#[test]
fn test_add_remove_add_sequence_works_with_reuse() {
    // Tests that add -> remove -> add works with the reuse flag
    let (_temp_dir, repo_path) = setup_bare_repo_with_commit();

    let git_repo =
        GitRepository::new(&repo_path, SystemGitClient).expect("Failed to open repository");

    // Create temporary directories for worktrees
    let worktree_dir1 = TempDir::new().expect("Failed to create worktree temp dir");
    let worktree_path1 = worktree_dir1.path().join("new-tree");

    let worktree_dir2 = TempDir::new().expect("Failed to create worktree temp dir");
    let worktree_path2 = worktree_dir2.path().join("new-tree");

    // Step 1: Add worktree - should succeed
    let add_result1 = git_repo.add_worktree(
        "new-tree",
        worktree_path1.to_str().unwrap(),
        Some("main"),
        false,
    );

    match add_result1 {
        Ok(()) => {
            assert!(
                worktree_path1.exists(),
                "First worktree directory should exist"
            );

            // Verify the branch was created
            let worktree_repo = Repository::open(&worktree_path1)
                .expect("Should be able to open first worktree repository");
            let head = worktree_repo.head().expect("Should have a HEAD reference");
            let branch_name = head.shorthand().expect("Should have a branch name");
            assert_eq!(branch_name, "new-tree", "Should be on the new-tree branch");
        }
        Err(e) => panic!("First add_worktree should succeed but failed: {}", e.message()),
    }

    // Step 2: Remove worktree - should succeed
    let remove_result = git_repo.remove_worktree("new-tree");
    assert!(
        remove_result.is_ok(),
        "remove_worktree should succeed: {:?}",
        remove_result
    );

    // Step 3: Add worktree again with same branch name, reusing the
    // branch left behind
    let add_result2 = git_repo.add_worktree(
        "new-tree",
        worktree_path2.to_str().unwrap(),
        Some("main"),
        true,
    );

    match add_result2 {
        Ok(()) => {
            assert!(
                worktree_path2.exists(),
                "Second worktree directory should exist"
            );

            let worktree_repo = Repository::open(&worktree_path2)
                .expect("Should be able to open second worktree repository");
            let head = worktree_repo.head().expect("Should have a HEAD reference");
            let branch_name = head.shorthand().expect("Should have a branch name");
            assert_eq!(branch_name, "new-tree", "Should be on the new-tree branch");
        }
        Err(e) => {
            panic!(
                "Second add_worktree with --reuse should succeed but failed with: {}",
                e.message()
            );
        }
    }
}

#[test]
fn test_reuse_flag_prevents_failure_with_existing_branch() {
    // Tests that the reuse flag allows reusing existing branches
    let (_temp_dir, repo_path) = setup_bare_repo_with_commit();

    let git_repo =
        GitRepository::new(&repo_path, SystemGitClient).expect("Failed to open repository");

    // Create temporary directories for worktrees
    let worktree_dir1 = TempDir::new().expect("Failed to create worktree temp dir");
    let worktree_path1 = worktree_dir1.path().join("feature-branch");

    let worktree_dir2 = TempDir::new().expect("Failed to create worktree temp dir");
    let worktree_path2 = worktree_dir2.path().join("feature-branch-2");

    // Step 1: Create initial worktree
    let add_result1 = git_repo.add_worktree(
        "feature-branch",
        worktree_path1.to_str().unwrap(),
        Some("main"),
        false,
    );
    assert!(
        add_result1.is_ok(),
        "First add_worktree should succeed: {:?}",
        add_result1
    );

    // Step 2: Remove the worktree (leaves branch behind)
    let remove_result = git_repo.remove_worktree("feature-branch");
    assert!(
        remove_result.is_ok(),
        "remove_worktree should succeed: {:?}",
        remove_result
    );

    // Step 3: Try to create worktree without the reuse flag (should fail)
    let add_without_reuse = git_repo.add_worktree(
        "feature-branch",
        worktree_path2.to_str().unwrap(),
        Some("main"),
        false,
    );

    assert!(
        add_without_reuse.is_err(),
        "Should fail without --reuse flag"
    );
    let error_msg = add_without_reuse.unwrap_err().message();
    assert!(
        error_msg.contains("already exists") && error_msg.contains("--reuse"),
        "Error should mention existing branch and --reuse flag: {}",
        error_msg
    );

    // Step 4: Try again with the reuse flag (should succeed)
    let add_with_reuse = git_repo.add_worktree(
        "feature-branch",
        worktree_path2.to_str().unwrap(),
        Some("main"),
        true,
    );

    assert!(
        add_with_reuse.is_ok(),
        "Should succeed with --reuse flag: {:?}",
        add_with_reuse
    );

    // Verify the worktree was created successfully
    assert!(worktree_path2.exists(), "Worktree directory should exist");

    let worktree_repo =
        Repository::open(&worktree_path2).expect("Should be able to open worktree repository");
    let head = worktree_repo.head().expect("Should have a HEAD reference");
    let branch_name = head.shorthand().expect("Should have a branch name");
    assert_eq!(
        branch_name, "feature-branch",
        "Should be on the feature-branch branch"
    );
}

#[test]
fn test_add_worktree_without_source_branch_fails_cleanly() {
    // A bare repository without a main branch and without origin/main:
    // the add must fail with SourceBranchNotFound and create nothing.
    let temp_dir = TempDir::new().expect("Failed to create temp directory");
    let repo_path = temp_dir.path().join("empty-repo");
    Repository::init_bare(&repo_path).expect("Failed to init bare repo");

    let git_repo = GitRepository::new(repo_path.to_str().unwrap(), SystemGitClient)
        .expect("Failed to open repository");

    let worktree_dir = TempDir::new().expect("Failed to create worktree temp dir");
    let worktree_path = worktree_dir.path().join("x");

    let result = git_repo.add_worktree("x", worktree_path.to_str().unwrap(), None, false);

    assert_eq!(result, Err(GitError::SourceBranchNotFound));
    assert!(
        !worktree_path.exists(),
        "No worktree directory may be left behind"
    );
}

#[test]
fn test_remove_worktree_unknown_branch() {
    let (_temp_dir, repo_path) = setup_bare_repo_with_commit();
    let git_repo =
        GitRepository::new(&repo_path, SystemGitClient).expect("Failed to open repository");
    assert_eq!(
        git_repo.remove_worktree("no-such-branch"),
        Err(GitError::WorktreeNotFound)
    );
}

#[test]
fn test_open_missing_repository_fails() {
    assert!(matches!(
        GitRepository::new("/definitely/not/a/repo", SystemGitClient),
        Err(GitError::RepoOpenFailed)
    ));
}

#[test]
fn test_externally_deleted_worktree_is_detected_not_skipped() {
    // A worktree whose directory is deleted behind git's back must
    // still be listed, classify as Missing, and remain removable.
    let (_temp_dir, repo_path) = setup_bare_repo_with_commit();
    let git_repo =
        GitRepository::new(&repo_path, SystemGitClient).expect("Failed to open repository");

    let worktree_dir = TempDir::new().expect("Failed to create worktree temp dir");
    let worktree_path = worktree_dir.path().join("new-tree");
    git_repo
        .add_worktree("new-tree", worktree_path.to_str().unwrap(), Some("main"), false)
        .expect("add_worktree should succeed");

    // Delete the worktree directory without telling git.
    worktree_dir.close().expect("Failed to delete worktree directory");

    let worktrees = git_repo.list_worktrees().expect("listing should not fail");
    let entry = worktrees
        .iter()
        .find(|w| w.branch == "new-tree")
        .expect("externally deleted worktree must still be listed");

    assert_eq!(
        git_repo.get_local_status(&entry.path),
        Ok(gwm::status::LocalStatus::Missing)
    );

    // A whole-repository scan degrades the other axes instead of
    // failing, and still surfaces the worktree as missing.
    let scanned = gwm::scan::classify_repository(&repo_path).expect("scan should not fail");
    let missing = scanned
        .worktrees
        .iter()
        .find(|w| w.branch == "new-tree")
        .expect("scan must surface the missing worktree");
    assert_eq!(missing.status.local_status, gwm::status::LocalStatus::Missing);
    assert_eq!(missing.status.remote_status, gwm::status::RemoteStatus::NoRemote);
    assert_eq!(missing.status.merge_status, gwm::status::MergeStatus::Unknown);

    // Removing it prunes the stale registration; the directory being
    // gone already is not an error.
    assert_eq!(git_repo.remove_worktree("new-tree"), Ok(()));
    let after = git_repo.list_worktrees().expect("listing should not fail");
    assert!(after.iter().all(|w| w.branch != "new-tree"));
}
