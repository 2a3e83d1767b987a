//! The application logic against an in-memory git: navigation, paging,
//! selection and the delete flow.

use std::cell::RefCell;
use std::path::{Path, PathBuf};

use git_branch_manager::app::{App, Mode};
use git_branch_manager::branch::BranchInfo;
use git_branch_manager::error::GitError;
use git_branch_manager::git::GitOperations;

/// In-memory `GitOperations`. Holds a mutable branch list so that a delete
/// followed by `refresh()` reflects the new state, like the real repository.
/// Records every delete and worktree removal, and can be told to fail deleting
/// specific branches to exercise error reporting.
struct MockGit {
    branches: RefCell<Vec<BranchInfo>>,
    deleted: RefCell<Vec<String>>,
    worktrees_removed: RefCell<Vec<String>>,
    fail_on: Vec<String>,
}

impl MockGit {
    fn new(branches: Vec<BranchInfo>) -> Self {
        Self {
            branches: RefCell::new(branches),
            deleted: RefCell::new(Vec::new()),
            worktrees_removed: RefCell::new(Vec::new()),
            fail_on: Vec::new(),
        }
    }

    fn failing_on(mut self, names: &[&str]) -> Self {
        self.fail_on = names.iter().map(|s| s.to_string()).collect();
        self
    }

    fn remove_branch(&self, name: &str) {
        self.branches.borrow_mut().retain(|b| b.name != name);
    }
}

impl GitOperations for MockGit {
    fn list_branches(&self) -> Result<Vec<BranchInfo>, GitError> {
        Ok(self.branches.borrow().clone())
    }
    fn delete_branch(&self, name: &str) -> Result<(), GitError> {
        if self.fail_on.iter().any(|n| n == name) {
            return Err(GitError::new("simulated failure"));
        }
        self.deleted.borrow_mut().push(name.to_string());
        self.remove_branch(name);
        Ok(())
    }
    fn remove_worktree_and_branch(&self, name: &str, _path: &Path) -> Result<(), GitError> {
        if self.fail_on.iter().any(|n| n == name) {
            return Err(GitError::new("simulated failure"));
        }
        self.worktrees_removed.borrow_mut().push(name.to_string());
        self.deleted.borrow_mut().push(name.to_string());
        self.remove_branch(name);
        Ok(())
    }
    fn switch_branch(&self, name: &str) -> Result<(), GitError> {
        if self.fail_on.iter().any(|n| n == name) {
            return Err(GitError::new("cannot switch: simulated failure"));
        }
        for b in self.branches.borrow_mut().iter_mut() {
            b.is_head = b.name == name;
        }
        Ok(())
    }
}

// --- Builders ---------------------------------------------------------

fn branch(name: &str) -> BranchInfo {
    BranchInfo {
        name: name.to_string(),
        is_head: false,
        is_merged: true,
        worktree: None,
    }
}
fn head(name: &str) -> BranchInfo {
    BranchInfo {
        is_head: true,
        ..branch(name)
    }
}
fn unmerged(name: &str) -> BranchInfo {
    BranchInfo {
        is_merged: false,
        ..branch(name)
    }
}
fn worktree(name: &str, path: &str) -> BranchInfo {
    BranchInfo {
        worktree: Some(PathBuf::from(path)),
        ..branch(name)
    }
}

fn app_with(branches: Vec<BranchInfo>) -> App<MockGit> {
    App::new(MockGit::new(branches)).unwrap()
}

// --- Navigation -------------------------------------------------------

#[test]
fn move_down_and_up_clamp_at_bounds() {
    let mut app = app_with(vec![branch("a"), branch("b"), branch("c")]);
    assert_eq!(app.cursor, 0);
    app.move_up(1); // already at top
    assert_eq!(app.cursor, 0);
    app.move_down(10); // past the end
    assert_eq!(app.cursor, 2);
    app.move_up(1);
    assert_eq!(app.cursor, 1);
}

#[test]
fn navigation_on_empty_list_is_safe() {
    let mut app = app_with(vec![]);
    app.move_down(5);
    app.move_up(5);
    assert_eq!(app.cursor, 0);
}

// --- Paging / offset --------------------------------------------------

#[test]
fn offset_follows_cursor_below_the_viewport() {
    // 10 branches, viewport of 3 rows.
    let mut app = app_with((0..10).map(|i| branch(&format!("b{i}"))).collect());
    app.cursor = 5;
    app.clamp_offset_to_cursor(3);
    // cursor 5 must be visible in [offset, offset+3): offset = 5+1-3 = 3
    assert_eq!(app.offset, 3);
    assert!(app.cursor >= app.offset && app.cursor < app.offset + 3);
}

#[test]
fn offset_follows_cursor_above_the_viewport() {
    let mut app = app_with((0..10).map(|i| branch(&format!("b{i}"))).collect());
    app.offset = 5;
    app.cursor = 2;
    app.clamp_offset_to_cursor(3);
    assert_eq!(app.offset, 2);
}

#[test]
fn offset_never_leaves_blank_space_at_bottom() {
    let mut app = app_with((0..5).map(|i| branch(&format!("b{i}"))).collect());
    app.offset = 99; // nonsense large offset
    app.cursor = 4;
    app.clamp_offset_to_cursor(3);
    // max_offset = 5 - 3 = 2
    assert_eq!(app.offset, 2);
}

#[test]
fn zero_height_viewport_does_not_panic() {
    let mut app = app_with(vec![branch("a")]);
    app.clamp_offset_to_cursor(0); // must be a no-op, no divide/underflow
    assert_eq!(app.offset, 0);
}

// --- Selection --------------------------------------------------------

#[test]
fn space_toggles_selection() {
    let mut app = app_with(vec![branch("a"), branch("b")]);
    app.cursor = 1;
    app.toggle_selection();
    assert!(app.selected[1]);
    app.toggle_selection();
    assert!(!app.selected[1]);
}

#[test]
fn head_branch_cannot_be_selected() {
    let mut app = app_with(vec![head("main"), branch("a")]);
    app.cursor = 0;
    app.toggle_selection();
    assert!(!app.selected[0], "HEAD must not become selected");
    assert!(app.status.contains("current branch"));
}

// --- Delete partitioning ---------------------------------------------

#[test]
fn enter_with_no_selection_deletes_branch_under_cursor() {
    let mut app = app_with(vec![branch("a"), branch("b")]);
    app.cursor = 1;
    app.request_delete().unwrap();
    assert_eq!(*app.git.deleted.borrow(), vec!["b"]);
    assert!(matches!(app.mode, Mode::Browsing));
}

#[test]
fn enter_on_head_with_no_selection_deletes_nothing() {
    let mut app = app_with(vec![head("main")]);
    app.cursor = 0;
    app.request_delete().unwrap();
    assert!(app.git.deleted.borrow().is_empty());
    assert!(app.status.contains("nothing to delete"));
}

#[test]
fn merged_branches_delete_immediately_without_confirm() {
    let mut app = app_with(vec![branch("a"), branch("b"), branch("c")]);
    app.selected = vec![true, false, true];
    app.request_delete().unwrap();
    assert!(
        matches!(app.mode, Mode::Browsing),
        "no confirm needed for merged"
    );
    assert_eq!(*app.git.deleted.borrow(), vec!["a", "c"]);
    // refresh ran: deleted branches gone from the list.
    assert_eq!(app.branches.len(), 1);
    assert_eq!(app.branches[0].name, "b");
}

#[test]
fn unmerged_branch_requires_confirmation() {
    let mut app = app_with(vec![branch("a"), unmerged("danger")]);
    app.selected = vec![true, true];
    app.request_delete().unwrap();
    // merged "a" already deleted; unmerged "danger" parked in confirm.
    assert_eq!(*app.git.deleted.borrow(), vec!["a"]);
    match &app.mode {
        Mode::Confirm(p) => {
            assert_eq!(p.force.len(), 1);
            assert!(p.worktree.is_empty());
        }
        _ => panic!("expected a Confirm modal"),
    }
}

#[test]
fn confirm_yes_force_deletes_the_unmerged() {
    let mut app = app_with(vec![unmerged("danger")]);
    app.selected = vec![true];
    app.request_delete().unwrap();
    assert!(matches!(app.mode, Mode::Confirm(_)));
    app.confirm_delete().unwrap();
    assert_eq!(*app.git.deleted.borrow(), vec!["danger"]);
    assert!(matches!(app.mode, Mode::Browsing));
    assert!(app.branches.is_empty());
}

#[test]
fn confirm_no_cancels_and_keeps_branch() {
    let mut app = app_with(vec![unmerged("danger")]);
    app.selected = vec![true];
    app.request_delete().unwrap();
    app.cancel_confirm();
    assert!(app.git.deleted.borrow().is_empty());
    assert!(matches!(app.mode, Mode::Browsing));
    assert!(app.status.contains("cancelled"));
}

#[test]
fn worktree_branch_routes_to_confirm_and_removes_worktree_on_yes() {
    let mut app = app_with(vec![worktree("wt", "/tmp/wt")]);
    app.selected = vec![true];
    app.request_delete().unwrap();
    match &app.mode {
        Mode::Confirm(p) => {
            assert_eq!(p.worktree.len(), 1);
            assert!(p.force.is_empty());
        }
        _ => panic!("expected confirm for worktree branch"),
    }
    app.confirm_delete().unwrap();
    assert_eq!(*app.git.worktrees_removed.borrow(), vec!["wt"]);
    assert_eq!(*app.git.deleted.borrow(), vec!["wt"]);
}

#[test]
fn mixed_batch_partitions_into_safe_force_and_worktree() {
    let mut app = app_with(vec![
        head("main"),
        branch("merged"),
        unmerged("force-me"),
        worktree("wt", "/tmp/wt"),
    ]);
    // select everything (HEAD selection is ignored by request_delete anyway)
    app.selected = vec![true, true, true, true];
    app.request_delete().unwrap();
    // safe one deleted now
    assert_eq!(*app.git.deleted.borrow(), vec!["merged"]);
    match &app.mode {
        Mode::Confirm(p) => {
            assert_eq!(p.force.len(), 1);
            assert_eq!(p.worktree.len(), 1);
        }
        _ => panic!("expected confirm"),
    }
}

#[test]
fn delete_errors_are_reported_in_status() {
    let git = MockGit::new(vec![branch("a"), branch("b")]).failing_on(&["b"]);
    let mut app = App::new(git).unwrap();
    app.selected = vec![true, true];
    app.request_delete().unwrap();
    // "a" deleted, "b" failed.
    assert_eq!(*app.git.deleted.borrow(), vec!["a"]);
    assert!(app.status.contains("error"), "status: {}", app.status);
}

#[test]
fn refresh_clears_selection_and_clamps_cursor() {
    let mut app = app_with(vec![branch("a"), branch("b"), branch("c")]);
    app.cursor = 2;
    app.selected = vec![true, true, true];
    // shrink the underlying repo to a single branch, then refresh.
    *app.git.branches.borrow_mut() = vec![branch("only")];
    app.refresh().unwrap();
    assert_eq!(app.branches.len(), 1);
    assert_eq!(app.cursor, 0);
    assert!(app.selected.iter().all(|&s| !s));
}
