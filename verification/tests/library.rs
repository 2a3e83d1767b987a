//! The library's own functions on concrete values: texts, the delete
//! partition, key bindings, the views, and the branch order.

use std::cell::RefCell;
use std::path::{Path, PathBuf};

use git_branch_manager::app::{
    action_for, delete_summary, partition_targets, Action, App, Key, Mode, PendingDelete, PAGE,
};
use git_branch_manager::branch::{name_le, sort_by_name, BranchInfo};
use git_branch_manager::error::GitError;
use git_branch_manager::git::{
    assemble_branch_list, branch_facts, lookup_worktree, reachable_given, worktree_entry, BranchFacts,
    GitOperations,
};
use git_branch_manager::text::{decimal_string, join_strings};
use git_branch_manager::view::{centered_rect, centered_split, Area, PromptLine, Tint};

struct FakeGit {
    branches: RefCell<Vec<BranchInfo>>,
    switched: RefCell<Vec<String>>,
    removed: RefCell<Vec<(String, PathBuf)>>,
    deleted: RefCell<Vec<String>>,
    refuse_switch: bool,
    list_fails: bool,
}

impl FakeGit {
    fn new(branches: Vec<BranchInfo>) -> Self {
        FakeGit {
            branches: RefCell::new(branches),
            switched: RefCell::new(Vec::new()),
            removed: RefCell::new(Vec::new()),
            deleted: RefCell::new(Vec::new()),
            refuse_switch: false,
            list_fails: false,
        }
    }
}

impl GitOperations for FakeGit {
    fn list_branches(&self) -> Result<Vec<BranchInfo>, GitError> {
        if self.list_fails {
            return Err(GitError::new("cannot list"));
        }
        Ok(self.branches.borrow().clone())
    }
    fn delete_branch(&self, name: &str) -> Result<(), GitError> {
        self.deleted.borrow_mut().push(name.to_string());
        self.branches.borrow_mut().retain(|b| b.name != name);
        Ok(())
    }
    fn remove_worktree_and_branch(&self, name: &str, path: &Path) -> Result<(), GitError> {
        self.removed.borrow_mut().push((name.to_string(), path.to_path_buf()));
        self.branches.borrow_mut().retain(|b| b.name != name);
        Ok(())
    }
    fn switch_branch(&self, name: &str) -> Result<(), GitError> {
        if self.refuse_switch {
            return Err(GitError::new("cannot switch to 'x': conflict"));
        }
        self.switched.borrow_mut().push(name.to_string());
        for b in self.branches.borrow_mut().iter_mut() {
            b.is_head = b.name == name;
        }
        Ok(())
    }
}

fn branch(name: &str) -> BranchInfo {
    BranchInfo { name: name.to_string(), is_head: false, is_merged: true, worktree: None }
}

fn app_of(branches: Vec<BranchInfo>) -> App<FakeGit> {
    App::new(FakeGit::new(branches)).unwrap()
}

// --- Texts ------------------------------------------------------------

#[test]
fn decimal_strings_are_exact() {
    assert_eq!(decimal_string(0), "0");
    assert_eq!(decimal_string(7), "7");
    assert_eq!(decimal_string(10), "10");
    assert_eq!(decimal_string(4096), "4096");
    assert_eq!(decimal_string(usize::MAX), usize::MAX.to_string());
}

#[test]
fn join_puts_the_separator_between_parts() {
    assert_eq!(join_strings(&vec![], "; "), "");
    assert_eq!(join_strings(&vec!["a".to_string()], "; "), "a");
    assert_eq!(join_strings(&vec!["a".to_string(), "b".to_string(), "c".to_string()], "; "), "a; b; c");
}

#[test]
fn delete_summary_lists_counts_and_errors() {
    assert_eq!(delete_summary(2, 0, &vec![]), "deleted 2 branch(es)");
    assert_eq!(delete_summary(0, 1, &vec![]), "deleted 0 branch(es) — 1 skipped (current branch)");
    assert_eq!(
        delete_summary(1, 1, &vec!["b: boom".to_string(), "c: bang".to_string()]),
        "deleted 1 branch(es) — 1 skipped (current branch) — 2 error(s): b: boom; c: bang"
    );
}

#[test]
fn error_to_string_is_its_message() {
    assert_eq!(GitError::new("branch 'x' not found").to_string(), "branch 'x' not found");
}

// --- Delete partition --------------------------------------------------

#[test]
fn partition_sorts_each_target_into_its_bucket() {
    let branches = vec![
        BranchInfo { is_head: true, ..branch("main") },
        branch("merged"),
        BranchInfo { is_merged: false, ..branch("force-me") },
        BranchInfo { worktree: Some(PathBuf::from("/tmp/wt")), ..branch("wt") },
        BranchInfo { is_merged: false, worktree: Some(PathBuf::from("/tmp/wt2")), ..branch("wt2") },
    ];
    let plan = partition_targets(&branches, &vec![4, 0, 1, 2, 3]);
    assert_eq!(plan.safe, vec![1]);
    assert_eq!(plan.force, vec![2]);
    assert_eq!(plan.worktree, vec![4, 3]);
    assert_eq!(plan.blocked, 1);
    // every target lands in one bucket
    assert_eq!(plan.safe.len() + plan.force.len() + plan.worktree.len() + plan.blocked, 5);
}

#[test]
fn head_is_never_in_a_delete_bucket() {
    let branches = vec![
        BranchInfo { is_head: true, is_merged: false, ..branch("main") },
        BranchInfo { is_head: true, worktree: Some(PathBuf::from("/tmp/x")), ..branch("odd") },
    ];
    let plan = partition_targets(&branches, &vec![0, 1]);
    assert!(plan.safe.is_empty() && plan.force.is_empty() && plan.worktree.is_empty());
    assert_eq!(plan.blocked, 2);
}

#[test]
fn delete_reports_skipped_head_and_counts() {
    let mut app = app_of(vec![BranchInfo { is_head: true, ..branch("main") }, branch("a")]);
    app.selected = vec![true, true];
    app.request_delete().unwrap();
    assert_eq!(app.status, "deleted 1 branch(es) — 1 skipped (current branch)");
    assert_eq!(app.branches.len(), 1);
}

#[test]
fn partial_delete_says_the_rest_awaits_confirmation() {
    let mut app = app_of(vec![branch("a"), BranchInfo { is_merged: false, ..branch("b") }]);
    app.selected = vec![true, true];
    app.request_delete().unwrap();
    assert_eq!(app.status, "deleted 1 merged branch(es); confirming the rest…");
    match &app.mode {
        Mode::Confirm(p) => assert_eq!(p.force, vec![1]),
        Mode::Browsing => panic!("expected confirm"),
    }
}

#[test]
fn confirm_outside_the_prompt_does_nothing() {
    let mut app = app_of(vec![branch("a")]);
    app.confirm_delete().unwrap();
    assert_eq!(app.branches.len(), 1);
    assert!(matches!(app.mode, Mode::Browsing));
}

#[test]
fn a_failed_refresh_changes_nothing() {
    let mut git = FakeGit::new(vec![branch("a"), branch("b")]);
    git.list_fails = false;
    let mut app = App::new(git).unwrap();
    app.git.list_fails = true;
    app.cursor = 1;
    app.selected = vec![true, false];
    assert!(app.refresh().is_err());
    assert_eq!(app.branches.len(), 2);
    assert_eq!(app.selected, vec![true, false]);
    assert_eq!(app.cursor, 1);
}

#[test]
fn new_fails_when_the_branches_cannot_be_listed() {
    let mut git = FakeGit::new(vec![]);
    git.list_fails = true;
    assert!(App::new(git).is_err());
}

// --- Navigation laws on values ------------------------------------------

#[test]
fn home_and_end_reach_the_ends() {
    let mut app = app_of((0..7).map(|i| branch(&format!("b{i}"))).collect());
    app.cursor = 3;
    app.move_down(usize::MAX);
    assert_eq!(app.cursor, 6);
    app.move_up(usize::MAX);
    assert_eq!(app.cursor, 0);
}

#[test]
fn clamping_shows_the_cursor_and_is_idempotent() {
    let mut app = app_of((0..20).map(|i| branch(&format!("b{i}"))).collect());
    app.cursor = 17;
    app.offset = 2;
    app.clamp_offset_to_cursor(5);
    assert_eq!(app.offset, 13);
    assert!(app.offset <= app.cursor && app.cursor < app.offset + 5);
    app.clamp_offset_to_cursor(5);
    assert_eq!(app.offset, 13);
}

#[test]
fn toggling_twice_restores_the_selection() {
    let mut app = app_of(vec![branch("a"), branch("b"), branch("c")]);
    app.cursor = 2;
    let before = app.selected.clone();
    app.toggle_selection();
    assert_ne!(app.selected, before);
    app.toggle_selection();
    assert_eq!(app.selected, before);
}

#[test]
fn toggling_head_names_it_in_the_status() {
    let mut app = app_of(vec![BranchInfo { is_head: true, ..branch("main") }]);
    app.toggle_selection();
    assert_eq!(app.status, "'main' is the current branch and can't be deleted");
}

// --- Keys ------------------------------------------------------------------

#[test]
fn keys_map_to_actions() {
    let browsing = Mode::Browsing;
    assert!(matches!(action_for(&browsing, &Key::Char('q'), false), Action::Quit));
    assert!(matches!(action_for(&browsing, &Key::Esc, false), Action::Quit));
    assert!(matches!(action_for(&browsing, &Key::Char('c'), true), Action::Quit));
    assert!(matches!(action_for(&browsing, &Key::Char('c'), false), Action::Nothing));
    assert!(matches!(action_for(&browsing, &Key::Char('k'), false), Action::Up(1)));
    assert!(matches!(action_for(&browsing, &Key::Down, false), Action::Down(1)));
    assert!(matches!(action_for(&browsing, &Key::PageDown, false), Action::Down(n) if n == PAGE));
    assert!(matches!(action_for(&browsing, &Key::Home, false), Action::Up(n) if n == usize::MAX));
    assert!(matches!(action_for(&browsing, &Key::End, false), Action::Down(n) if n == usize::MAX));
    assert!(matches!(action_for(&browsing, &Key::Char(' '), false), Action::Toggle));
    assert!(matches!(action_for(&browsing, &Key::Char('s'), false), Action::Switch));
    assert!(matches!(action_for(&browsing, &Key::Enter, false), Action::Delete));
    assert!(matches!(action_for(&browsing, &Key::Char('r'), false), Action::Refresh));
    assert!(matches!(action_for(&browsing, &Key::Char('y'), false), Action::Nothing));
    let confirming = Mode::Confirm(PendingDelete { force: vec![], worktree: vec![] });
    assert!(matches!(action_for(&confirming, &Key::Char('Y'), false), Action::Confirm));
    assert!(matches!(action_for(&confirming, &Key::Char('n'), false), Action::Cancel));
    assert!(matches!(action_for(&confirming, &Key::Esc, false), Action::Cancel));
    assert!(matches!(action_for(&confirming, &Key::Char('q'), false), Action::Nothing));
}

#[test]
fn key_presses_drive_the_application() {
    let mut app = app_of(vec![branch("a"), BranchInfo { is_merged: false, ..branch("b") }, branch("c")]);
    app.handle_key(Key::End, false).unwrap();
    assert_eq!(app.cursor, 2);
    app.handle_key(Key::Char('k'), false).unwrap();
    assert_eq!(app.cursor, 1);
    app.handle_key(Key::Char(' '), false).unwrap();
    assert_eq!(app.selected, vec![false, true, false]);
    app.handle_key(Key::Enter, false).unwrap();
    assert!(matches!(app.mode, Mode::Confirm(_)));
    // the prompt ignores navigation
    app.handle_key(Key::Char('j'), false).unwrap();
    assert_eq!(app.cursor, 1);
    app.handle_key(Key::Char('y'), false).unwrap();
    assert!(matches!(app.mode, Mode::Browsing));
    assert_eq!(app.branches.len(), 2);
    app.handle_key(Key::Char('q'), false).unwrap();
    assert!(app.should_quit);
}

// --- Switching ---------------------------------------------------------------

#[test]
fn switching_checks_the_branch_out() {
    let mut app = app_of(vec![BranchInfo { is_head: true, ..branch("main") }, branch("feature")]);
    app.cursor = 1;
    app.switch_to_cursor().unwrap();
    assert_eq!(*app.git.switched.borrow(), vec!["feature"]);
    assert_eq!(app.status, "switched to 'feature'");
    assert!(app.branches[1].is_head);
    assert!(!app.should_quit);
}

#[test]
fn switching_to_head_says_so() {
    let mut app = app_of(vec![BranchInfo { is_head: true, ..branch("main") }]);
    app.switch_to_cursor().unwrap();
    assert_eq!(app.status, "already on 'main'");
    assert!(app.git.switched.borrow().is_empty());
}

#[test]
fn switching_to_a_worktree_branch_quits_with_its_path() {
    let mut app = app_of(vec![branch("main"), BranchInfo { worktree: Some(PathBuf::from("/work/wt")), ..branch("wt") }]);
    app.cursor = 1;
    app.switch_to_cursor().unwrap();
    assert!(app.should_quit);
    assert_eq!(app.exit_path, Some(PathBuf::from("/work/wt")));
    assert!(app.git.switched.borrow().is_empty());
}

#[test]
fn a_refused_switch_is_reported() {
    let mut git = FakeGit::new(vec![branch("main"), branch("x")]);
    git.refuse_switch = true;
    let mut app = App::new(git).unwrap();
    app.cursor = 1;
    app.switch_to_cursor().unwrap();
    assert_eq!(app.status, "cannot switch to 'x': conflict");
    assert!(!app.should_quit);
}

// --- Views -------------------------------------------------------------------

#[test]
fn title_shows_position_and_total() {
    let mut app = app_of((0..12).map(|i| branch(&format!("b{i}"))).collect());
    app.cursor = 4;
    assert_eq!(app.title(), " git-branch-manager   5/12");
    let empty = app_of(vec![]);
    assert_eq!(empty.title(), " git-branch-manager   0/0");
}

#[test]
fn visible_rows_follow_the_area_height() {
    let mut app = app_of((0..10).map(|i| branch(&format!("b{i}"))).collect());
    app.cursor = 7;
    // 5 rows tall with the border: 3 rows of list
    assert_eq!(app.visible_rows(5), (5, 8));
    assert_eq!(app.visible_rows(40), (0, 10));
}

#[test]
fn rows_carry_markers_notes_and_emphasis() {
    let mut app = app_of(vec![
        BranchInfo { is_head: true, ..branch("main") },
        BranchInfo { is_merged: false, worktree: Some(PathBuf::from("/tmp/wt")), ..branch("wip") },
    ]);
    app.selected = vec![false, true];
    app.cursor = 1;
    let head = app.row(0);
    assert!(head.is_head && !head.is_cursor);
    assert_eq!(head.spans.len(), 2);
    assert_eq!(head.spans[0].text, "  * [ ] ");
    assert_eq!(head.spans[1].text, "main");
    let row = app.row(1);
    assert!(row.is_cursor && !row.is_head);
    assert_eq!(row.spans.len(), 4);
    assert_eq!(row.spans[0].text, ">   [x] ");
    assert_eq!(row.spans[2].text, "  (wt: /tmp/wt)");
    assert!(matches!(row.spans[2].tint, Tint::Cyan));
    assert_eq!(row.spans[3].text, "  (unmerged — needs force)");
    assert!(matches!(row.spans[3].tint, Tint::Yellow));
}

#[test]
fn the_prompt_lists_what_will_happen() {
    let mut app = app_of(vec![
        BranchInfo { is_merged: false, ..branch("force-me") },
        BranchInfo { worktree: Some(PathBuf::from("/tmp/wt")), ..branch("wt") },
    ]);
    assert!(app.prompt().is_empty());
    app.selected = vec![true, true];
    app.request_delete().unwrap();
    let lines = app.prompt();
    let texts: Vec<&str> = lines.iter().map(|(t, _)| t.as_str()).collect();
    assert_eq!(
        texts,
        vec![
            "Confirm deletion",
            "",
            "These are NOT fully merged — force delete (-D):",
            "  • force-me",
            "",
            "These have a worktree that will be REMOVED, then the branch deleted:",
            "  • wt  (wt: /tmp/wt)",
            "",
            "Proceed?  [y] yes   [n/Esc] cancel",
        ]
    );
    assert!(matches!(lines[0].1, PromptLine::Title));
    assert!(matches!(lines[2].1, PromptLine::ForceHeader));
    assert!(matches!(lines[5].1, PromptLine::WorktreeHeader));
    assert!(matches!(lines[8].1, PromptLine::Question));
}

#[test]
fn centered_split_puts_equal_sides_around_the_middle() {
    assert_eq!(centered_split(60), (20, 60));
    assert_eq!(centered_split(70), (15, 70));
    assert_eq!(centered_split(100), (0, 100));
    assert_eq!(centered_split(0), (50, 0));
}

#[test]
fn centered_rect_uses_each_percentage_on_its_own_axis() {
    let c = centered_rect(20, 80, Area { x: 0, y: 0, width: 100, height: 100 });
    assert_eq!((c.x, c.y, c.width, c.height), (40, 10, 20, 80));
}

#[test]
fn centered_rect_takes_the_middle_percentages() {
    let c = centered_rect(70, 60, Area { x: 0, y: 0, width: 100, height: 50 });
    assert_eq!((c.x, c.y, c.width, c.height), (15, 10, 70, 30));
}

// --- Branch list -------------------------------------------------------------

#[test]
fn names_are_ordered_bytewise() {
    assert!(name_le(&branch("Zeta"), &branch("alpha")));
    assert!(name_le(&branch("ab"), &branch("abc")));
    assert!(!name_le(&branch("b"), &branch("a")));
    assert!(name_le(&branch("same"), &branch("same")));
}

#[test]
fn sorting_orders_by_name() {
    let sorted = sort_by_name(vec![branch("m"), branch("b"), branch("z"), branch("a")]);
    let names: Vec<&str> = sorted.iter().map(|b| b.name.as_str()).collect();
    assert_eq!(names, vec!["a", "b", "m", "z"]);
}

#[test]
fn worktree_lookup_takes_the_last_entry() {
    let map = vec![
        ("a".to_string(), PathBuf::from("/one")),
        ("b".to_string(), PathBuf::from("/two")),
        ("a".to_string(), PathBuf::from("/three")),
    ];
    assert_eq!(lookup_worktree(&map, &"a".to_string()), Some(PathBuf::from("/three")));
    assert_eq!(lookup_worktree(&map, &"b".to_string()), Some(PathBuf::from("/two")));
    assert_eq!(lookup_worktree(&map, &"c".to_string()), None);
}

#[test]
fn assembling_skips_bad_names_and_sorts() {
    let facts = vec![
        BranchFacts { name: Some("zed".to_string()), is_head: false, is_merged: true },
        BranchFacts { name: None, is_head: false, is_merged: true },
        BranchFacts { name: Some("main".to_string()), is_head: true, is_merged: true },
    ];
    let map = vec![("zed".to_string(), PathBuf::from("/w/zed"))];
    let list = assemble_branch_list(&facts, &map);
    assert_eq!(list.len(), 2);
    assert_eq!(list[0].name, "main");
    assert!(list[0].is_head && list[0].worktree.is_none());
    assert_eq!(list[1].name, "zed");
    assert_eq!(list[1].worktree, Some(PathBuf::from("/w/zed")));
}

#[test]
fn every_deletion_is_accounted_for() {
    // two deletions: one succeeds, one fails; the summary shows both
    assert_eq!(
        delete_summary(1, 0, &vec!["x: simulated failure".to_string()]),
        "deleted 1 branch(es) — 1 error(s): x: simulated failure"
    );
}


// --- Merged rule and worktree entries -------------------------------------------

#[test]
fn merged_rule_takes_head_or_upstream() {
    let a = Some(vec![1u8; 20]);
    let b = Some(vec![2u8; 20]);
    let f = branch_facts(Some("x".to_string()), false, &a, &None, &b, true, false);
    assert!(f.is_merged);
    let f = branch_facts(Some("x".to_string()), false, &a, &b, &b, false, true);
    assert!(f.is_merged);
    let f = branch_facts(Some("x".to_string()), false, &a, &None, &b, false, true);
    assert!(!f.is_merged, "an answer about a missing upstream does not count");
    let f = branch_facts(Some("x".to_string()), true, &a, &b, &None, true, true);
    assert!(!f.is_merged && f.is_head, "a branch without a tip is not merged");
}

#[test]
fn a_failed_reachability_query_is_no() {
    let a = vec![1u8; 20];
    let b = vec![2u8; 20];
    assert!(reachable_given(&a, &a, &Err(git2::Error::from_str("boom"))));
    assert!(!reachable_given(&a, &b, &Err(git2::Error::from_str("boom"))));
    assert!(reachable_given(&a, &b, &Ok(true)));
    assert!(!reachable_given(&a, &b, &Ok(false)));
}

#[test]
fn worktree_entries_need_a_named_branch_head() {
    assert_eq!(
        worktree_entry(PathBuf::from("/w"), true, Some("feat".to_string())),
        Some(("feat".to_string(), PathBuf::from("/w")))
    );
    assert_eq!(worktree_entry(PathBuf::from("/w"), false, Some("feat".to_string())), None);
    assert_eq!(worktree_entry(PathBuf::from("/w"), true, None), None);
}

// --- Worktree removals and HEAD ------------------------------------------------

#[test]
fn each_worktree_removal_gets_its_own_branch_path() {
    let mut app = app_of(vec![
        BranchInfo { worktree: Some(PathBuf::from("/tmp/wt-a")), ..branch("a") },
        BranchInfo { worktree: Some(PathBuf::from("/tmp/wt-b")), ..branch("b") },
    ]);
    app.selected = vec![true, true];
    app.request_delete().unwrap();
    assert!(matches!(app.mode, Mode::Confirm(_)));
    app.confirm_delete().unwrap();
    assert_eq!(
        *app.git.removed.borrow(),
        vec![("a".to_string(), PathBuf::from("/tmp/wt-a")), ("b".to_string(), PathBuf::from("/tmp/wt-b"))]
    );
    assert!(app.git.deleted.borrow().is_empty());
}

#[test]
fn head_survives_a_request_and_its_confirmation() {
    let mut app = app_of(vec![
        BranchInfo { is_head: true, ..branch("main") },
        BranchInfo { is_merged: false, ..branch("wip") },
        BranchInfo { worktree: Some(PathBuf::from("/tmp/wt")), ..branch("wt") },
        branch("done"),
    ]);
    app.selected = vec![true, true, true, true];
    app.request_delete().unwrap();
    assert!(matches!(app.mode, Mode::Confirm(_)));
    app.confirm_delete().unwrap();
    assert_eq!(*app.git.deleted.borrow(), vec!["done".to_string(), "wip".to_string()]);
    assert_eq!(*app.git.removed.borrow(), vec![("wt".to_string(), PathBuf::from("/tmp/wt"))]);
    assert_eq!(app.branches.len(), 1);
    assert_eq!(app.branches[0].name, "main");
}
