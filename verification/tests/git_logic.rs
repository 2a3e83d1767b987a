//! The git queries against real repositories. Each test builds its own
//! throwaway repository with git2, so there is no external setup.

use git_branch_manager::git;

use std::path::{Path, PathBuf};

use git2::{Repository, Signature};

/// A fresh directory for one test's repository.
struct TempDir {
    path: PathBuf,
}

impl TempDir {
    fn new(tag: &str) -> Self {
        let stamp = std::time::SystemTime::now()
            .duration_since(std::time::UNIX_EPOCH)
            .unwrap()
            .as_nanos();
        TempDir {
            path: PathBuf::from(format!("/tmp/gbm-test-{tag}-{stamp}")),
        }
    }
}

/// Commits a tree holding `files` on top of the commit `refname` points at (or
/// as a root commit), moving `refname`; returns the new commit id.
fn commit_files(repo: &Repository, refname: &str, files: &[(&str, &str)], msg: &str) -> git2::Oid {
    let sig = Signature::now("test", "test@example.com").unwrap();
    let parent = repo
        .find_reference(refname)
        .ok()
        .and_then(|r| r.resolve().ok())
        .and_then(|r| r.target())
        .map(|oid| repo.find_commit(oid).unwrap());
    let base = parent.as_ref().map(|c| c.tree().unwrap());
    let mut builder = repo.treebuilder(base.as_ref()).unwrap();
    for (name, contents) in files {
        let blob = repo.blob(contents.as_bytes()).unwrap();
        builder.insert(name, blob, 0o100644).unwrap();
    }
    let tree = repo.find_tree(builder.write().unwrap()).unwrap();
    let parents: Vec<&git2::Commit> = parent.iter().collect();
    repo.commit(Some(refname), &sig, &sig, msg, &tree, &parents)
        .unwrap()
}

/// Makes the working tree match HEAD.
fn sync_working_tree(repo: &Repository) {
    repo.checkout_head(Some(git2::build::CheckoutBuilder::new().force()))
        .unwrap();
}

/// Whether the file `name` in the working tree holds `contents`.
fn file_holds(repo: &Repository, dir: &Path, name: &str, contents: &str) -> bool {
    repo.blob_path(&dir.join(name)).unwrap() == repo.blob(contents.as_bytes()).unwrap()
}

/// A repository on `main` with one commit, its working tree checked out.
fn init_repo(dir: &Path) -> Repository {
    let repo = Repository::init(dir).unwrap();
    // the default branch is `main`, for predictability
    repo.set_head("refs/heads/main").ok();
    commit_files(&repo, "HEAD", &[("a.txt", "hello")], "initial");
    sync_working_tree(&repo);
    repo
}

#[test]
fn merged_branch_is_detected_as_merged() {
    let tmp = TempDir::new("merged");
    let repo = init_repo(&tmp.path);

    // Branch off HEAD with no new commits -> tip == main tip -> merged.
    let head = repo.head().unwrap().target().unwrap();
    repo.branch("feature-merged", &repo.find_commit(head).unwrap(), false)
        .unwrap();

    let branches = git::list_branches(&repo).unwrap();
    let f = branches
        .iter()
        .find(|b| b.name == "feature-merged")
        .unwrap();
    assert!(
        f.is_merged,
        "a branch with no commits beyond HEAD is merged"
    );
    assert!(!f.is_head);
    assert!(f.worktree.is_none());
}

#[test]
fn unmerged_branch_is_detected_as_unmerged() {
    let tmp = TempDir::new("unmerged");
    let repo = init_repo(&tmp.path);

    // Create a branch and add a commit to it that is not reachable from main.
    let head = repo.head().unwrap().target().unwrap();
    repo.branch("feature-unmerged", &repo.find_commit(head).unwrap(), false)
        .unwrap();
    commit_files(
        &repo,
        "refs/heads/feature-unmerged",
        &[("b.txt", "world")],
        "unmerged work",
    );

    let branches = git::list_branches(&repo).unwrap();
    let f = branches
        .iter()
        .find(|b| b.name == "feature-unmerged")
        .unwrap();
    assert!(
        !f.is_merged,
        "a branch with a commit not on HEAD is unmerged"
    );
}

#[test]
fn head_branch_is_flagged() {
    let tmp = TempDir::new("head");
    let repo = init_repo(&tmp.path);

    let branches = git::list_branches(&repo).unwrap();
    let main = branches.iter().find(|b| b.name == "main").unwrap();
    assert!(main.is_head);
    assert!(main.is_blocked());
}

#[test]
fn worktree_branch_is_mapped_to_its_path() {
    let tmp = TempDir::new("worktree");
    let repo = init_repo(&tmp.path);

    let head = repo.head().unwrap().target().unwrap();
    repo.branch("feature-worktree", &repo.find_commit(head).unwrap(), false)
        .unwrap();

    // Add a linked worktree checking out that branch.
    let wt_path = PathBuf::from(format!("{}-wt", tmp.path.display()));
    let mut opts = git2::WorktreeAddOptions::new();
    let reference = repo.find_reference("refs/heads/feature-worktree").unwrap();
    opts.reference(Some(&reference));
    let wt = repo
        .worktree("feature-worktree", &wt_path, Some(&opts))
        .unwrap();

    let branches = git::list_branches(&repo).unwrap();
    let f = branches
        .iter()
        .find(|b| b.name == "feature-worktree")
        .unwrap();
    assert!(
        f.worktree.is_some(),
        "branch checked out in a worktree should carry its path"
    );

    // Remove the worktree created outside the repository's directory.
    wt.prune(Some(
        git2::WorktreePruneOptions::new()
            .valid(true)
            .working_tree(true),
    ))
    .unwrap();
}

#[test]
fn switch_branch_moves_head_and_updates_the_working_tree() {
    let tmp = TempDir::new("switch");
    let repo = init_repo(&tmp.path);

    // A branch whose tip changes a.txt and adds b.txt.
    let head = repo.head().unwrap().target().unwrap();
    repo.branch("feature", &repo.find_commit(head).unwrap(), false)
        .unwrap();
    git::switch_branch(&repo, "feature").unwrap();
    commit_files(
        &repo,
        "HEAD",
        &[("a.txt", "changed on feature"), ("b.txt", "only on feature")],
        "feature work",
    );
    sync_working_tree(&repo);

    assert_eq!(repo.head().unwrap().shorthand(), Some("feature"));

    // Back to main: the working tree must follow HEAD.
    git::switch_branch(&repo, "main").unwrap();

    assert_eq!(repo.head().unwrap().shorthand(), Some("main"));
    assert!(
        file_holds(&repo, &tmp.path, "a.txt", "hello"),
        "a.txt should be restored to main's content"
    );
    assert!(
        !tmp.path.join("b.txt").exists(),
        "a file that only exists on feature should be gone"
    );

    let branches = git::list_branches(&repo).unwrap();
    assert!(branches.iter().find(|b| b.name == "main").unwrap().is_head);
    assert!(
        !branches
            .iter()
            .find(|b| b.name == "feature")
            .unwrap()
            .is_head
    );
}

#[test]
fn switch_branch_refuses_to_clobber_uncommitted_changes() {
    let tmp = TempDir::new("clobber");
    let repo = init_repo(&tmp.path);

    // `feature` rewrites a.txt.
    let head = repo.head().unwrap().target().unwrap();
    repo.branch("feature", &repo.find_commit(head).unwrap(), false)
        .unwrap();
    git::switch_branch(&repo, "feature").unwrap();
    commit_files(&repo, "HEAD", &[("a.txt", "changed on feature")], "feature work");
    sync_working_tree(&repo);
    git::switch_branch(&repo, "main").unwrap();

    // Uncommitted edit to the same file the switch would have to overwrite:
    // the working tree takes a.txt from a tree that no branch holds.
    let mut builder = repo.treebuilder(None).unwrap();
    let blob = repo.blob(b"work in progress").unwrap();
    builder.insert("a.txt", blob, 0o100644).unwrap();
    let wip = repo.find_tree(builder.write().unwrap()).unwrap();
    repo.checkout_tree(
        wip.as_object(),
        Some(git2::build::CheckoutBuilder::new().force().update_index(false)),
    )
    .unwrap();

    let err = git::switch_branch(&repo, "feature").unwrap_err();
    assert!(
        err.to_string().contains("feature"),
        "error should name the branch: {}",
        err.to_string()
    );
    assert_eq!(
        repo.head().unwrap().shorthand(),
        Some("main"),
        "a refused checkout must leave HEAD where it was"
    );
    assert!(
        file_holds(&repo, &tmp.path, "a.txt", "work in progress"),
        "local work must survive a refused switch"
    );
}

#[test]
fn switch_to_a_missing_branch_errors() {
    let tmp = TempDir::new("missing");
    let repo = init_repo(&tmp.path);
    assert!(git::switch_branch(&repo, "no-such-branch").is_err());
    assert_eq!(repo.head().unwrap().shorthand(), Some("main"));
}

#[test]
fn delete_branch_removes_it() {
    let tmp = TempDir::new("delete");
    let repo = init_repo(&tmp.path);
    let head = repo.head().unwrap().target().unwrap();
    repo.branch("to-delete", &repo.find_commit(head).unwrap(), false)
        .unwrap();

    assert!(git::list_branches(&repo)
        .unwrap()
        .iter()
        .any(|b| b.name == "to-delete"));

    git::delete_branch(&repo, "to-delete").unwrap();

    assert!(!git::list_branches(&repo)
        .unwrap()
        .iter()
        .any(|b| b.name == "to-delete"));
}

#[test]
fn branches_are_listed_in_name_order() {
    let tmp = TempDir::new("order");
    let repo = init_repo(&tmp.path);
    let head = repo.head().unwrap().target().unwrap();
    for name in ["zeta", "alpha", "Beta", "mid"] {
        repo.branch(name, &repo.find_commit(head).unwrap(), false)
            .unwrap();
    }
    let names: Vec<String> = git::list_branches(&repo)
        .unwrap()
        .into_iter()
        .map(|b| b.name)
        .collect();
    assert_eq!(names, vec!["Beta", "alpha", "main", "mid", "zeta"]);
}

#[test]
fn deleting_a_missing_branch_names_it() {
    let tmp = TempDir::new("delete-missing");
    let repo = init_repo(&tmp.path);
    let err = git::delete_branch(&repo, "ghost").unwrap_err();
    assert_eq!(err.message, "branch 'ghost' not found");
}

#[test]
fn a_failed_worktree_removal_keeps_the_branch() {
    let tmp = TempDir::new("wt-failed");
    let repo = init_repo(&tmp.path);
    let head = repo.head().unwrap().target().unwrap();
    repo.branch("kept", &repo.find_commit(head).unwrap(), false)
        .unwrap();
    let err = git::delete_after_worktree_removal(&repo, "kept", false, "/tmp/wt").unwrap_err();
    assert_eq!(err.message, "`git worktree remove /tmp/wt` failed");
    assert!(git::list_branches(&repo)
        .unwrap()
        .iter()
        .any(|b| b.name == "kept"));
    git::delete_after_worktree_removal(&repo, "kept", true, "/tmp/wt").unwrap();
    assert!(!git::list_branches(&repo)
        .unwrap()
        .iter()
        .any(|b| b.name == "kept"));
}

#[test]
fn a_branch_merged_into_its_upstream_counts_as_merged() {
    let tmp = TempDir::new("upstream");
    let repo = init_repo(&tmp.path);

    // `feature` gains a commit that HEAD does not have, but its upstream does.
    let head = repo.head().unwrap().target().unwrap();
    repo.branch("feature", &repo.find_commit(head).unwrap(), false)
        .unwrap();
    let tip = commit_files(
        &repo,
        "refs/heads/feature",
        &[("c.txt", "pushed")],
        "pushed work",
    );
    repo.remote("origin", "https://example.invalid/repo.git").unwrap();
    repo.reference("refs/remotes/origin/feature", tip, false, "push")
        .unwrap();

    let before = git::list_branches(&repo).unwrap();
    assert!(!before.iter().find(|b| b.name == "feature").unwrap().is_merged);

    repo.find_branch("feature", git2::BranchType::Local)
        .unwrap()
        .set_upstream(Some("origin/feature"))
        .unwrap();
    let after = git::list_branches(&repo).unwrap();
    assert!(after.iter().find(|b| b.name == "feature").unwrap().is_merged);
}
