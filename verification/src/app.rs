//! Application state and the logic that drives it: navigation, paging,
//! selection, and the partition of a delete request into safe, force and
//! worktree buckets.

use std::path::PathBuf;
use vstd::prelude::*;
use vstd::string::*;

use crate::branch::{clone_path, delete_class, BranchInfo, DeleteClass};
use crate::error::GitError;
use crate::git::{ask_delete, ask_list, ask_remove_worktree, ask_switch, failure_of, GitCall, GitOperations};
use crate::text::{decimal, join, join_strings, push_decimal};

verus! {

/// What the screen is showing, or waiting on.
pub enum Mode {
    /// Normal list navigation.
    Browsing,
    /// A confirmation prompt is up because some targeted branches need force
    /// delete and/or have worktrees that must be removed first.
    Confirm(PendingDelete),
}

/// The branches a delete will act on once the user confirms.
pub struct PendingDelete {
    /// Indices needing force delete (`-D`): not fully merged.
    pub force: Vec<usize>,
    /// Indices checked out in a worktree (worktree removed, then branch deleted).
    pub worktree: Vec<usize>,
}

pub struct App<G: GitOperations> {
    pub git: G,
    pub branches: Vec<BranchInfo>,
    pub selected: Vec<bool>,
    pub cursor: usize,
    /// First visible row: the scroll offset that drives paging.
    pub offset: usize,
    pub mode: Mode,
    /// One-line message shown in the status bar (result of the last action).
    pub status: String,
    pub should_quit: bool,
    /// The worktree to change into after quitting, when the user switched to a
    /// branch that is checked out there.
    pub exit_path: Option<PathBuf>,
    /// The calls made to `git` so far, oldest first, each with git's answer.
    pub git_calls: Ghost<Seq<GitCall>>,
}

// ---------------------------------------------------------------------------
// The model of the state.
// ---------------------------------------------------------------------------

/// The cursor position after the list was reloaded with `len` branches.
pub open spec fn reload_cursor(cursor: usize, len: nat) -> usize {
    if cursor >= len {
        if len > 0 { (len - 1) as usize } else { 0 }
    } else {
        cursor
    }
}

/// The cursor after moving `n` rows down in a list of `len` rows.
pub open spec fn cursor_down(cursor: usize, n: usize, len: nat) -> usize {
    if len == 0 {
        cursor
    } else if cursor + n < len - 1 {
        (cursor + n) as usize
    } else {
        (len - 1) as usize
    }
}

/// The cursor after moving `n` rows up.
pub open spec fn cursor_up(cursor: usize, n: usize) -> usize {
    if cursor >= n { (cursor - n) as usize } else { 0 }
}

/// The scroll offset that keeps row `cursor` inside a window of `height` rows
/// over a list of `len` rows, moving the window as little as possible and never
/// past the point where the bottom of the window would show blank rows. A
/// window of height 0 leaves the offset alone.
pub open spec fn clamped_offset(cursor: int, offset: int, len: int, height: int) -> int {
    if height == 0 {
        offset
    } else {
        let followed = if cursor < offset {
            cursor
        } else if cursor >= offset + height {
            cursor + 1 - height
        } else {
            offset
        };
        let max_offset = if len > height { len - height } else { 0 };
        if followed > max_offset { max_offset } else { followed }
    }
}

/// The indices of the `true` entries of `sel`, in increasing order.
pub open spec fn selected_indices(sel: Seq<bool>) -> Seq<usize>
    decreases sel.len(),
{
    if sel.len() == 0 {
        Seq::empty()
    } else {
        let rest = selected_indices(sel.drop_last());
        if sel.last() { rest.push((sel.len() - 1) as usize) } else { rest }
    }
}

/// The entries of `targets` whose branch falls in class `c`, in order.
pub open spec fn bucket(branches: Seq<BranchInfo>, targets: Seq<usize>, c: DeleteClass) -> Seq<usize>
    decreases targets.len(),
{
    if targets.len() == 0 {
        Seq::empty()
    } else {
        let rest = bucket(branches, targets.drop_last(), c);
        if delete_class(branches[targets.last() as int]) == c {
            rest.push(targets.last())
        } else {
            rest
        }
    }
}

/// The names of the branches at `idx`.
pub open spec fn names_at(branches: Seq<BranchInfo>, idx: Seq<usize>) -> Seq<Seq<char>> {
    idx.map_values(|i: usize| branches[i as int].name@)
}

/// How many of the outcomes are successes (`None`; `Some(message)` is a failure).
pub open spec fn deleted_count(outcomes: Seq<Option<Seq<char>>>) -> nat
    decreases outcomes.len(),
{
    if outcomes.len() == 0 {
        0
    } else {
        deleted_count(outcomes.drop_last()) + if outcomes.last() is None { 1nat } else { 0nat }
    }
}

/// One line `name: message` for each failed outcome, in order.
pub open spec fn error_lines(names: Seq<Seq<char>>, outcomes: Seq<Option<Seq<char>>>) -> Seq<Seq<char>>
    decreases outcomes.len(),
{
    if outcomes.len() == 0 {
        Seq::empty()
    } else {
        let rest = error_lines(names.drop_last(), outcomes.drop_last());
        match outcomes.last() {
            Some(m) => rest.push(names.last() + ": "@ + m),
            None => rest,
        }
    }
}

/// The status line while the unsafe part of a delete awaits confirmation.
pub open spec fn partial_text(deleted: nat) -> Seq<char> {
    "deleted "@ + decimal(deleted) + " merged branch(es); confirming the rest…"@
}

/// The status line when the branch under the cursor is HEAD.
pub open spec fn head_text(name: Seq<char>) -> Seq<char> {
    "'"@ + name + "' is the current branch and can't be deleted"@
}

/// The status line when the branch under the cursor is already checked out.
pub open spec fn already_on_text(name: Seq<char>) -> Seq<char> {
    "already on '"@ + name + "'"@
}

/// The status line after a switch.
pub open spec fn switched_text(name: Seq<char>) -> Seq<char> {
    "switched to '"@ + name + "'"@
}

impl<G: GitOperations> App<G> {
    /// The cursor is on a row, or at 0 on an empty list.
    pub open spec fn cursor_ok(self) -> bool {
        self.cursor < self.branches.len() || (self.branches.len() == 0 && self.cursor == 0)
    }

    /// Every selectable row has its selection flag.
    pub open spec fn selection_ok(self) -> bool {
        self.selected.len() == self.branches.len()
    }

    /// A pending delete only names rows of the list, and its worktree entries
    /// have a worktree.
    pub open spec fn pending_ok(self) -> bool {
        match self.mode {
            Mode::Browsing => true,
            Mode::Confirm(p) => {
                &&& forall|k: int| 0 <= k < p.force.len() ==> #[trigger] p.force@[k] < self.branches.len()
                &&& forall|k: int|
                    0 <= k < p.worktree.len() ==> #[trigger] p.worktree@[k] < self.branches.len()
                        && self.branches@[p.worktree@[k] as int].worktree is Some
                &&& p.force.len() + p.worktree.len() <= usize::MAX
            },
        }
    }

    /// The invariant that every operation of the application keeps.
    pub open spec fn inv(self) -> bool {
        self.cursor_ok() && self.selection_ok() && self.pending_ok()
    }

    /// Git and its log are as in `other`: no call was made.
    pub open spec fn same_git(self, other: Self) -> bool {
        &&& self.git == other.git
        &&& self.git_calls == other.git_calls
    }

    /// The git backend, the mode and the quit request are as in `other`.
    pub open spec fn same_flow(self, other: Self) -> bool {
        &&& self.git == other.git
        &&& self.mode == other.mode
        &&& self.should_quit == other.should_quit
        &&& self.exit_path == other.exit_path
    }

    /// The list, selection, cursor and offset are as in `other`.
    pub open spec fn same_list(self, other: Self) -> bool {
        &&& self.branches == other.branches
        &&& self.selected == other.selected
        &&& self.cursor == other.cursor
        &&& self.offset == other.offset
    }

    /// What a listing of the branches did to the list of `before`: a listing
    /// that succeeded replaced it, with nothing selected, the cursor kept in
    /// range and the view at the top; a failed one left it alone.
    pub open spec fn listed_from(self, before: Self, listing: Result<Seq<BranchInfo>, Seq<char>>) -> bool {
        match listing {
            Ok(v) => {
                &&& self.branches@ == v
                &&& self.selected@ == Seq::new(v.len(), |i: int| false)
                &&& self.cursor == reload_cursor(before.cursor, v.len())
                &&& self.offset == 0
            },
            Err(_) => self.same_list(before),
        }
    }

    /// The answer of the listing that ended an operation with result `r`.
    pub open spec fn listing_seen(self, r: Result<(), GitError>) -> Result<Seq<BranchInfo>, Seq<char>> {
        match r {
            Ok(_) => Ok(self.branches@),
            Err(e) => Err(e.message@),
        }
    }

    /// The rows a delete request acts on: the selected rows, or, when none is
    /// selected, the row under the cursor unless it is HEAD.
    pub open spec fn targets(self) -> Seq<usize> {
        let explicit = selected_indices(self.selected@);
        if explicit.len() > 0 {
            explicit
        } else if self.cursor < self.branches.len() && !self.branches@[self.cursor as int].is_head {
            seq![self.cursor]
        } else {
            Seq::empty()
        }
    }

    /// A selection flag is only set on a row of the list.
    pub open spec fn selection_in_list(self) -> bool {
        forall|i: int| 0 <= i < self.selected.len() && #[trigger] self.selected@[i] ==> i < self.branches.len()
    }
}

/// The calls `delete_branch(names[k])`, answered `failures[k]`, in order.
pub open spec fn delete_calls(names: Seq<Seq<char>>, failures: Seq<Option<Seq<char>>>) -> Seq<GitCall> {
    Seq::new(failures.len(), |k: int| GitCall::Delete(names[k], failures[k]))
}

/// The calls `remove_worktree_and_branch(names[k], paths[k])`, answered
/// `failures[k]`, in order.
pub open spec fn removal_calls(
    names: Seq<Seq<char>>,
    paths: Seq<PathBuf>,
    failures: Seq<Option<Seq<char>>>,
) -> Seq<GitCall> {
    Seq::new(failures.len(), |k: int| GitCall::RemoveWorktree(names[k], paths[k], failures[k]))
}

/// The worktree paths of the branches at `idx`.
pub open spec fn worktrees_at(branches: Seq<BranchInfo>, idx: Seq<usize>) -> Seq<PathBuf> {
    idx.map_values(|i: usize| branches[i as int].worktree->0)
}

/// The status line after a delete: how many were deleted, how many were
/// skipped, and the errors.
pub open spec fn summary_text(deleted: nat, blocked: nat, errors: Seq<Seq<char>>) -> Seq<char> {
    "deleted "@ + decimal(deleted) + " branch(es)"@ + (if blocked > 0 {
        " — "@ + decimal(blocked) + " skipped (current branch)"@
    } else {
        Seq::empty()
    }) + (if errors.len() > 0 {
        " — "@ + decimal(errors.len()) + " error(s): "@ + join(errors, "; "@)
    } else {
        Seq::empty()
    })
}

// ---------------------------------------------------------------------------
// What each operation does, as a relation between the state before and after.
// ---------------------------------------------------------------------------

impl<G: GitOperations> App<G> {
    /// `refresh`: one listing is asked of git; its answer replaces the list,
    /// or, when it failed, nothing changes.
    pub open spec fn refresh_post(before: Self, after: Self, r: Result<(), GitError>) -> bool {
        &&& after.git_calls@ == before.git_calls@.push(GitCall::List(after.listing_seen(r)))
        &&& after.same_flow(before)
        &&& after.status == before.status
        &&& after.listed_from(before, after.listing_seen(r))
    }

    /// `move_down(n)`: only the cursor moves.
    pub open spec fn move_down_post(before: Self, after: Self, n: usize) -> bool {
        &&& after.cursor == cursor_down(before.cursor, n, before.branches.len() as nat)
        &&& after.same_git(before)
        &&& after.same_flow(before)
        &&& after.status == before.status
        &&& after.branches == before.branches
        &&& after.selected == before.selected
        &&& after.offset == before.offset
    }

    /// `move_up(n)`: only the cursor moves.
    pub open spec fn move_up_post(before: Self, after: Self, n: usize) -> bool {
        &&& after.cursor == cursor_up(before.cursor, n)
        &&& after.same_git(before)
        &&& after.same_flow(before)
        &&& after.status == before.status
        &&& after.branches == before.branches
        &&& after.selected == before.selected
        &&& after.offset == before.offset
    }

    /// `toggle_selection`: the row under the cursor flips, unless it is HEAD,
    /// of which the status line then speaks.
    pub open spec fn toggle_post(before: Self, after: Self) -> bool {
        let c = before.cursor;
        &&& after.same_git(before)
        &&& after.same_flow(before)
        &&& after.branches == before.branches
        &&& after.cursor == before.cursor
        &&& after.offset == before.offset
        &&& c >= before.branches.len() ==> after.selected == before.selected && after.status == before.status
        &&& c < before.branches.len() && before.branches@[c as int].is_head ==> {
            &&& after.selected == before.selected
            &&& after.status@ == head_text(before.branches@[c as int].name@)
        }
        &&& c < before.branches.len() && !before.branches@[c as int].is_head ==> {
            &&& after.selected@ == before.selected@.update(c as int, !before.selected@[c as int])
            &&& after.status == before.status
        }
    }

    /// `cancel_confirm`: the prompt closes; git is not asked anything.
    pub open spec fn cancel_post(before: Self, after: Self) -> bool {
        &&& after.mode == Mode::Browsing
        &&& after.status@ == "cancelled"@
        &&& after.same_list(before)
        &&& after.same_git(before)
        &&& after.should_quit == before.should_quit
        &&& after.exit_path == before.exit_path
    }

    /// `q`: the application is to quit; nothing else changes.
    pub open spec fn quit_post(before: Self, after: Self) -> bool {
        &&& after.should_quit
        &&& after.same_git(before)
        &&& after.same_list(before)
        &&& after.status == before.status
        &&& after.mode == before.mode
        &&& after.exit_path == before.exit_path
    }

    /// `request_delete`: with no target, only the status line speaks. Otherwise
    /// the merged targets are deleted, one `delete_branch` each, in order; then
    /// either the prompt opens for the forced and worktree targets, or, when
    /// there are none, the list is reloaded with one listing and the status
    /// line sums up. Only that listing can fail.
    pub open spec fn request_delete_post(before: Self, after: Self, r: Result<(), GitError>) -> bool {
        let t = before.targets();
        let bs = before.branches@;
        let safe = bucket(bs, t, DeleteClass::Safe);
        let force = bucket(bs, t, DeleteClass::Force);
        let wt = bucket(bs, t, DeleteClass::Worktree);
        let blocked = bucket(bs, t, DeleteClass::Blocked).len();
        let names = names_at(bs, safe);
        if t.len() == 0 {
            &&& r is Ok
            &&& after.same_git(before)
            &&& after.same_flow(before)
            &&& after.same_list(before)
            &&& after.status@ == "nothing to delete (select branches with Space)"@
        } else if force.len() > 0 || wt.len() > 0 {
            &&& r is Ok
            &&& after.mode matches Mode::Confirm(p) && p.force@ == force && p.worktree@ == wt
            &&& after.git == before.git
            &&& after.should_quit == before.should_quit
            &&& after.exit_path == before.exit_path
            &&& after.same_list(before)
            &&& exists|outcomes: Seq<Option<Seq<char>>>| #![trigger delete_calls(names, outcomes)] {
                &&& outcomes.len() == safe.len()
                &&& after.git_calls@ == before.git_calls@ + delete_calls(names, outcomes)
                &&& if deleted_count(outcomes) > 0 {
                    after.status@ == partial_text(deleted_count(outcomes))
                } else {
                    after.status == before.status
                }
            }
        } else {
            &&& after.same_flow(before)
            &&& after.listed_from(before, after.listing_seen(r))
            &&& exists|outcomes: Seq<Option<Seq<char>>>| #![trigger delete_calls(names, outcomes)] {
                &&& outcomes.len() == safe.len()
                &&& after.git_calls@ == before.git_calls@ + delete_calls(names, outcomes) + seq![
                    GitCall::List(after.listing_seen(r)),
                ]
                &&& r is Err ==> after.status == before.status
                &&& r is Ok ==> after.status@ == summary_text(
                    deleted_count(outcomes),
                    blocked,
                    error_lines(names, outcomes),
                )
            }
        }
    }

    /// `confirm_delete`: outside the prompt, nothing happens. At the prompt it
    /// closes; the forced branches are deleted, one `delete_branch` each, then
    /// the worktree branches removed, one `remove_worktree_and_branch` each, in
    /// order; the list is reloaded with one listing and the status line sums
    /// up. Only that listing can fail.
    pub open spec fn confirm_delete_post(before: Self, after: Self, r: Result<(), GitError>) -> bool {
        match before.mode {
            Mode::Browsing => r is Ok && after == before,
            Mode::Confirm(p) => {
                let fnames = names_at(before.branches@, p.force@);
                let wnames = names_at(before.branches@, p.worktree@);
                let wpaths = worktrees_at(before.branches@, p.worktree@);
                &&& after.mode == Mode::Browsing
                &&& after.git == before.git
                &&& after.should_quit == before.should_quit
                &&& after.exit_path == before.exit_path
                &&& after.listed_from(before, after.listing_seen(r))
                &&& exists|fo: Seq<Option<Seq<char>>>, wo: Seq<Option<Seq<char>>>|
                    #![trigger delete_calls(fnames, fo), removal_calls(wnames, wpaths, wo)]
                {
                    &&& fo.len() == fnames.len()
                    &&& wo.len() == wnames.len()
                    &&& after.git_calls@ == before.git_calls@ + delete_calls(fnames, fo)
                        + removal_calls(wnames, wpaths, wo) + seq![GitCall::List(after.listing_seen(r))]
                    &&& r is Err ==> after.status == before.status
                    &&& r is Ok ==> after.status@ == summary_text(
                        deleted_count(fo + wo),
                        0,
                        error_lines(fnames + wnames, fo + wo),
                    )
                }
            },
        }
    }

    /// What follows a switch to `name` whose answer was `failure`, the calls
    /// before the listing being `calls`: a refused switch is reported in the
    /// status line; a switch that succeeded is followed by one listing that
    /// reloads the list.
    pub open spec fn after_switch_post(
        before: Self,
        calls: Seq<GitCall>,
        after: Self,
        name: Seq<char>,
        failure: Option<Seq<char>>,
        r: Result<(), GitError>,
    ) -> bool {
        &&& after.same_flow(before)
        &&& match failure {
            Some(m) => {
                &&& r is Ok
                &&& after.git_calls@ == calls
                &&& after.same_list(before)
                &&& after.status@ == m
            },
            None => {
                &&& after.git_calls@ == calls.push(GitCall::List(after.listing_seen(r)))
                &&& after.listed_from(before, after.listing_seen(r))
                &&& r is Err ==> after.status == before.status
                &&& r is Ok ==> after.status@ == switched_text(name)
            },
        }
    }

    /// `switch_to_cursor`: for the branch under the cursor, quit towards its
    /// worktree when it has one, say so when it is HEAD, and otherwise ask git
    /// to switch to it, with what follows as `after_switch_post` says.
    pub open spec fn switch_post(before: Self, after: Self, r: Result<(), GitError>) -> bool {
        let c = before.cursor;
        let bs = before.branches@;
        if c >= bs.len() {
            r is Ok && after == before
        } else if bs[c as int].worktree is Some {
            &&& r is Ok
            &&& after.should_quit
            &&& after.exit_path == bs[c as int].worktree
            &&& after.same_git(before)
            &&& after.same_list(before)
            &&& after.status == before.status
            &&& after.mode == before.mode
        } else if bs[c as int].is_head {
            &&& r is Ok
            &&& after.same_git(before)
            &&& after.same_flow(before)
            &&& after.same_list(before)
            &&& after.status@ == already_on_text(bs[c as int].name@)
        } else {
            exists|failure: Option<Seq<char>>|
                #[trigger] Self::after_switch_post(
                    before,
                    before.git_calls@.push(GitCall::Switch(bs[c as int].name@, failure)),
                    after,
                    bs[c as int].name@,
                    failure,
                    r,
                )
        }
    }
}

// ---------------------------------------------------------------------------
// Construction and reloading.
// ---------------------------------------------------------------------------

impl<G: GitOperations> App<G> {
    /// The application over `git`, showing `branches` with nothing selected.
    pub fn with_branches(git: G, branches: Vec<BranchInfo>) -> (app: Self)
        ensures
            app.git == git,
            app.git_calls@ == Seq::<GitCall>::empty(),
            app.branches == branches,
            app.selected@ == Seq::new(branches.len() as nat, |i: int| false),
            app.cursor == 0,
            app.offset == 0,
            app.mode == Mode::Browsing,
            app.status@ == Seq::<char>::empty(),
            !app.should_quit,
            app.exit_path is None,
            app.inv(),
    {
        let selected = vec![false; branches.len()];
        assert(selected@ =~= Seq::new(branches.len() as nat, |i: int| false));
        App {
            git,
            branches,
            selected,
            cursor: 0,
            offset: 0,
            mode: Mode::Browsing,
            status: String::new(),
            should_quit: false,
            exit_path: None,
            git_calls: Ghost(Seq::empty()),
        }
    }

    /// Reads the branches from `git`, with one listing, and builds the
    /// application over them; a failure to list them is returned.
    pub fn new(git: G) -> (r: Result<Self, GitError>)
        ensures
            r matches Ok(app) ==> {
                &&& app.git == git
                &&& app.git_calls@ == seq![GitCall::List(Ok(app.branches@))]
                &&& app.selected@ == Seq::new(app.branches.len() as nat, |i: int| false)
                &&& app.cursor == 0
                &&& app.offset == 0
                &&& app.mode == Mode::Browsing
                &&& app.status@ == Seq::<char>::empty()
                &&& !app.should_quit
                &&& app.exit_path is None
                &&& app.inv()
            },
    {
        let mut calls: Ghost<Seq<GitCall>> = Ghost(Seq::empty());
        match ask_list(&git, &mut calls) {
            Ok(branches) => {
                let mut app = Self::with_branches(git, branches);
                app.git_calls = calls;
                Ok(app)
            },
            Err(e) => Err(e),
        }
    }

    /// Replaces the list with `branches`, clears the selection and keeps the
    /// cursor in range.
    pub fn reload(&mut self, branches: Vec<BranchInfo>)
        ensures
            final(self).listed_from(*old(self), Ok(branches@)),
            final(self).same_git(*old(self)),
            final(self).same_flow(*old(self)),
            final(self).status == old(self).status,
            old(self).pending_ok() && old(self).mode == Mode::Browsing ==> final(self).inv(),
    {
        self.branches = branches;
        self.selected = vec![false; self.branches.len()];
        assert(self.selected@ =~= Seq::new(self.branches.len() as nat, |i: int| false));
        if self.cursor >= self.branches.len() {
            self.cursor = self.branches.len().saturating_sub(1);
        }
        self.clamp_offset_to_cursor(usize::MAX);
    }

    /// Re-reads the branches and resets the selection, keeping the cursor in
    /// range. When listing fails, nothing but git's log changes.
    pub fn refresh(&mut self) -> (r: Result<(), GitError>)
        ensures
            Self::refresh_post(*old(self), *final(self), r),
            old(self).inv() && old(self).mode == Mode::Browsing ==> final(self).inv(),
    {
        match ask_list(&self.git, &mut self.git_calls) {
            Ok(branches) => {
                self.reload(branches);
                Ok(())
            },
            Err(e) => Err(e),
        }
    }
}

// ---------------------------------------------------------------------------
// Navigation.
// ---------------------------------------------------------------------------

impl<G: GitOperations> App<G> {
    /// Moves the cursor `n` rows down, stopping at the last row.
    pub fn move_down(&mut self, n: usize)
        ensures
            Self::move_down_post(*old(self), *final(self), n),
    {
        if self.branches.len() == 0 {
            return;
        }
        let last = self.branches.len() - 1;
        let moved = self.cursor.saturating_add(n);
        self.cursor = if moved < last { moved } else { last };
    }

    /// Moves the cursor `n` rows up, stopping at the first row.
    pub fn move_up(&mut self, n: usize)
        ensures
            Self::move_up_post(*old(self), *final(self), n),
    {
        self.cursor = self.cursor.saturating_sub(n);
    }

    /// Keeps `offset` such that the cursor stays within the visible window of
    /// `view_height` rows. Called by the renderer once it knows the area height.
    pub fn clamp_offset_to_cursor(&mut self, view_height: usize)
        ensures
            final(self).offset == clamped_offset(
                old(self).cursor as int,
                old(self).offset as int,
                old(self).branches.len() as int,
                view_height as int,
            ),
            final(self).same_git(*old(self)),
            final(self).same_flow(*old(self)),
            final(self).status == old(self).status,
            final(self).branches == old(self).branches,
            final(self).selected == old(self).selected,
            final(self).cursor == old(self).cursor,
    {
        if view_height == 0 {
            return;
        }
        if self.cursor < self.offset {
            self.offset = self.cursor;
        } else if self.cursor - self.offset >= view_height {
            self.offset = self.cursor - view_height + 1;
        }
        // no blank space at the bottom when the list shrank
        let max_offset = self.branches.len().saturating_sub(view_height);
        if self.offset > max_offset {
            self.offset = max_offset;
        }
    }
}

// ---------------------------------------------------------------------------
// Selection.
// ---------------------------------------------------------------------------

impl<G: GitOperations> App<G> {
    /// Toggles the selection of the branch under the cursor. HEAD cannot be
    /// selected: the status line says so instead.
    pub fn toggle_selection(&mut self)
        requires
            old(self).cursor < old(self).branches.len() ==> old(self).cursor < old(self).selected.len(),
        ensures
            Self::toggle_post(*old(self), *final(self)),
    {
        if self.cursor < self.branches.len() {
            let c = self.cursor;
            if self.branches[c].is_blocked() {
                let mut msg = String::from_str("'");
                msg.append(self.branches[c].name.as_str());
                msg.append("' is the current branch and can't be deleted");
                self.status = msg;
                return;
            }
            let flipped = !self.selected[c];
            self.selected.set(c, flipped);
        }
    }

    /// The indices the next delete acts on: the selected branches, or, when
    /// nothing is selected, the branch under the cursor (when deletable).
    fn target_indices(&self) -> (t: Vec<usize>)
        ensures
            t@ == self.targets(),
    {
        let mut explicit: Vec<usize> = Vec::new();
        let mut i: usize = 0;
        while i < self.selected.len()
            invariant
                i <= self.selected.len(),
                explicit@ == selected_indices(self.selected@.take(i as int)),
            decreases self.selected.len() - i,
        {
            assert(self.selected@.take(i + 1).drop_last() =~= self.selected@.take(i as int));
            if self.selected[i] {
                explicit.push(i);
            }
            i = i + 1;
        }
        assert(self.selected@.take(self.selected.len() as int) =~= self.selected@);
        if explicit.len() > 0 {
            return explicit;
        }
        if self.cursor < self.branches.len() && !self.branches[self.cursor].is_blocked() {
            vec![self.cursor]
        } else {
            Vec::new()
        }
    }
}


// ---------------------------------------------------------------------------
// The delete flow.
// ---------------------------------------------------------------------------

/// A delete request's targets, split by how each is to be deleted.
pub struct DeletePlan {
    /// Merged branches: deleted at once.
    pub safe: Vec<usize>,
    /// Unmerged branches: force-deleted after confirmation.
    pub force: Vec<usize>,
    /// Branches in a worktree: the worktree is removed, then the branch deleted.
    pub worktree: Vec<usize>,
    /// How many targets are HEAD and are skipped.
    pub blocked: usize,
}

/// Splits `targets` by the class of their branches, keeping their order.
pub fn partition_targets(branches: &Vec<BranchInfo>, targets: &Vec<usize>) -> (plan: DeletePlan)
    requires
        forall|k: int| 0 <= k < targets.len() ==> #[trigger] targets@[k] < branches.len(),
    ensures
        plan.safe@ == bucket(branches@, targets@, DeleteClass::Safe),
        plan.force@ == bucket(branches@, targets@, DeleteClass::Force),
        plan.worktree@ == bucket(branches@, targets@, DeleteClass::Worktree),
        plan.blocked == bucket(branches@, targets@, DeleteClass::Blocked).len(),
{
    let mut safe: Vec<usize> = Vec::new();
    let mut force: Vec<usize> = Vec::new();
    let mut worktree: Vec<usize> = Vec::new();
    let mut blocked: usize = 0;
    let mut k: usize = 0;
    while k < targets.len()
        invariant
            k <= targets.len(),
            forall|m: int| 0 <= m < targets.len() ==> #[trigger] targets@[m] < branches.len(),
            safe@ == bucket(branches@, targets@.take(k as int), DeleteClass::Safe),
            force@ == bucket(branches@, targets@.take(k as int), DeleteClass::Force),
            worktree@ == bucket(branches@, targets@.take(k as int), DeleteClass::Worktree),
            blocked == bucket(branches@, targets@.take(k as int), DeleteClass::Blocked).len(),
            blocked <= k,
        decreases targets.len() - k,
    {
        let ghost t = targets@.take(k + 1);
        assert(t.drop_last() =~= targets@.take(k as int));
        assert(t.last() == targets@[k as int]);
        let i = targets[k];
        let b = &branches[i];
        if b.is_blocked() {
            blocked = blocked + 1;
        } else if b.worktree.is_some() {
            worktree.push(i);
        } else if b.is_merged {
            safe.push(i);
        } else {
            force.push(i);
        }
        k = k + 1;
    }
    assert(targets@.take(targets.len() as int) =~= targets@);
    DeletePlan { safe, force, worktree, blocked }
}

/// The status line after a delete of which `deleted` succeeded, `blocked` were
/// skipped as HEAD, and `errors` describe the failures.
pub fn delete_summary(deleted: usize, blocked: usize, errors: &Vec<String>) -> (s: String)
    ensures
        s@ == summary_text(deleted as nat, blocked as nat, errors@.map_values(|e: String| e@)),
{
    let mut s = String::from_str("deleted ");
    push_decimal(&mut s, deleted);
    s.append(" branch(es)");
    let ghost first = s@;
    if blocked > 0 {
        s.append(" — ");
        push_decimal(&mut s, blocked);
        s.append(" skipped (current branch)");
    }
    let ghost second = s@;
    if errors.len() > 0 {
        s.append(" — ");
        push_decimal(&mut s, errors.len());
        s.append(" error(s): ");
        let joined = join_strings(errors, "; ");
        s.append(joined.as_str());
    }
    proof {
        let errs = errors@.map_values(|e: String| e@);
        assert(errs.len() == errors.len());
        if blocked > 0 {
            assert(second == first + (" — "@ + decimal(blocked as nat) + " skipped (current branch)"@));
        } else {
            assert(second == first + Seq::<char>::empty());
        }
        if errors.len() > 0 {
            assert(s@ == second + (" — "@ + decimal(errs.len()) + " error(s): "@ + join(errs, "; "@)));
        } else {
            assert(s@ == second + Seq::<char>::empty());
        }
    }
    s
}

/// The running record of a batch of deletions.
struct Tally {
    deleted: usize,
    errors: Vec<String>,
    names: Ghost<Seq<Seq<char>>>,
    outcomes: Ghost<Seq<Option<Seq<char>>>>,
}

proof fn lemma_deleted_count_bound(outcomes: Seq<Option<Seq<char>>>)
    ensures
        deleted_count(outcomes) <= outcomes.len(),
    decreases outcomes.len(),
{
    if outcomes.len() > 0 {
        lemma_deleted_count_bound(outcomes.drop_last());
    }
}

impl Tally {
    spec fn wf(self) -> bool {
        &&& self.outcomes@.len() == self.names@.len()
        &&& self.deleted as nat == deleted_count(self.outcomes@)
        &&& self.errors@.map_values(|e: String| e@) == error_lines(self.names@, self.outcomes@)
    }

    fn new() -> (t: Tally)
        ensures
            t.wf(),
            t.names@ == Seq::<Seq<char>>::empty(),
    {
        let t = Tally {
            deleted: 0,
            errors: Vec::new(),
            names: Ghost(Seq::empty()),
            outcomes: Ghost(Seq::empty()),
        };
        assert(t.errors@.map_values(|e: String| e@) =~= Seq::<Seq<char>>::empty());
        t
    }

    /// Records the outcome `r` of deleting `name`.
    fn record(&mut self, name: String, r: Result<(), GitError>)
        requires
            old(self).wf(),
            old(self).names@.len() < usize::MAX,
        ensures
            final(self).wf(),
            final(self).names@ == old(self).names@.push(name@),
            final(self).outcomes@ == old(self).outcomes@.push(
                match r {
                    Ok(_) => None,
                    Err(e) => Some(e.message@),
                },
            ),
    {
        proof {
            lemma_deleted_count_bound(self.outcomes@);
        }
        let ghost old_errors = self.errors@;
        let ghost n = name@;
        match r {
            Ok(()) => {
                self.deleted = self.deleted + 1;
                proof {
                    self.outcomes@ = self.outcomes@.push(None);
                }
            },
            Err(e) => {
                let mut line = name;
                line.append(": ");
                line.append(e.message.as_str());
                self.errors.push(line);
                proof {
                    self.outcomes@ = self.outcomes@.push(Some(e.message@));
                    assert(self.errors@.map_values(|e: String| e@) =~= old_errors.map_values(
                        |e: String| e@,
                    ).push(n + ": "@ + e.message@));
                }
            },
        }
        proof {
            let old_names = self.names@;
            self.names@ = self.names@.push(n);
            assert(self.names@.drop_last() =~= old_names);
            assert(self.outcomes@.drop_last() =~= old(self).outcomes@);
        }
    }
}

/// Deletes the branches at `idx` in order, one `delete_branch` each, recording
/// each outcome.
fn delete_each<G: GitOperations>(git: &G, calls: &mut Ghost<Seq<GitCall>>, branches: &Vec<BranchInfo>, idx: &Vec<usize>, tally: &mut Tally)
    requires
        forall|k: int| 0 <= k < idx.len() ==> #[trigger] idx@[k] < branches.len(),
        old(tally).wf(),
        old(tally).names@.len() + idx.len() <= usize::MAX,
    ensures
        final(tally).wf(),
        final(tally).names@ == old(tally).names@ + names_at(branches@, idx@),
        final(tally).outcomes@.len() == old(tally).outcomes@.len() + idx.len(),
        final(tally).outcomes@.take(old(tally).outcomes@.len() as int) == old(tally).outcomes@,
        final(calls)@ == old(calls)@ + delete_calls(
            names_at(branches@, idx@),
            final(tally).outcomes@.skip(old(tally).outcomes@.len() as int),
        ),
{
    let ghost start = tally.names@;
    let ghost start_outcomes = tally.outcomes@;
    let ghost start_calls = calls@;
    let mut k: usize = 0;
    while k < idx.len()
        invariant
            k <= idx.len(),
            forall|m: int| 0 <= m < idx.len() ==> #[trigger] idx@[m] < branches.len(),
            tally.wf(),
            start.len() + idx.len() <= usize::MAX,
            start_outcomes.len() == start.len(),
            tally.names@ == start + names_at(branches@, idx@.take(k as int)),
            tally.outcomes@.len() == start_outcomes.len() + k,
            tally.outcomes@.take(start_outcomes.len() as int) == start_outcomes,
            calls@ == start_calls + delete_calls(
                names_at(branches@, idx@.take(k as int)),
                tally.outcomes@.skip(start_outcomes.len() as int),
            ),
        decreases idx.len() - k,
    {
        let i = idx[k];
        let name = branches[i].name.clone();
        let ghost before_outcomes = tally.outcomes@;
        let ghost before_calls = calls@;
        let r = ask_delete(git, calls, name.as_str());
        tally.record(name, r);
        proof {
            let names_k = names_at(branches@, idx@.take(k as int));
            let names_k1 = names_at(branches@, idx@.take(k + 1));
            assert(names_k1 =~= names_k.push(branches@[i as int].name@));
            assert(tally.outcomes@.take(start_outcomes.len() as int) =~= start_outcomes);
            assert(tally.outcomes@.skip(start_outcomes.len() as int) =~= before_outcomes.skip(
                start_outcomes.len() as int,
            ).push(failure_of(r)));
            assert(delete_calls(names_k1, tally.outcomes@.skip(start_outcomes.len() as int)) =~= delete_calls(
                names_k,
                before_outcomes.skip(start_outcomes.len() as int),
            ).push(GitCall::Delete(branches@[i as int].name@, failure_of(r))));
            assert(calls@ =~= start_calls + delete_calls(names_k1, tally.outcomes@.skip(start_outcomes.len() as int)));
        }
        k = k + 1;
    }
    assert(idx@.take(idx.len() as int) =~= idx@);
}

/// Removes the worktrees of the branches at `idx`, then the branches, in order,
/// one `remove_worktree_and_branch` each, recording each outcome.
fn remove_each_worktree<G: GitOperations>(git: &G, calls: &mut Ghost<Seq<GitCall>>, branches: &Vec<BranchInfo>, idx: &Vec<usize>, tally: &mut Tally)
    requires
        forall|k: int|
            0 <= k < idx.len() ==> #[trigger] idx@[k] < branches.len() && branches@[idx@[k] as int].worktree is Some,
        old(tally).wf(),
        old(tally).names@.len() + idx.len() <= usize::MAX,
    ensures
        final(tally).wf(),
        final(tally).names@ == old(tally).names@ + names_at(branches@, idx@),
        final(tally).outcomes@.len() == old(tally).outcomes@.len() + idx.len(),
        final(tally).outcomes@.take(old(tally).outcomes@.len() as int) == old(tally).outcomes@,
        final(calls)@ == old(calls)@ + removal_calls(
            names_at(branches@, idx@),
            worktrees_at(branches@, idx@),
            final(tally).outcomes@.skip(old(tally).outcomes@.len() as int),
        ),
{
    let ghost start = tally.names@;
    let ghost start_outcomes = tally.outcomes@;
    let ghost start_calls = calls@;
    let mut k: usize = 0;
    while k < idx.len()
        invariant
            k <= idx.len(),
            forall|m: int|
                0 <= m < idx.len() ==> #[trigger] idx@[m] < branches.len() && branches@[idx@[m] as int].worktree is Some,
            tally.wf(),
            start.len() + idx.len() <= usize::MAX,
            start_outcomes.len() == start.len(),
            tally.names@ == start + names_at(branches@, idx@.take(k as int)),
            tally.outcomes@.len() == start_outcomes.len() + k,
            tally.outcomes@.take(start_outcomes.len() as int) == start_outcomes,
            calls@ == start_calls + removal_calls(
                names_at(branches@, idx@.take(k as int)),
                worktrees_at(branches@, idx@.take(k as int)),
                tally.outcomes@.skip(start_outcomes.len() as int),
            ),
        decreases idx.len() - k,
    {
        let i = idx[k];
        let name = branches[i].name.clone();
        let ghost before_outcomes = tally.outcomes@;
        let ghost before_calls = calls@;
        match &branches[i].worktree {
            Some(path) => {
                let r = ask_remove_worktree(git, calls, name.as_str(), path);
                tally.record(name, r);
                proof {
                    let names_k = names_at(branches@, idx@.take(k as int));
                    let names_k1 = names_at(branches@, idx@.take(k + 1));
                    assert(names_k1 =~= names_k.push(branches@[i as int].name@));
                    assert(tally.outcomes@.take(start_outcomes.len() as int) =~= start_outcomes);
                    assert(tally.outcomes@.skip(start_outcomes.len() as int) =~= before_outcomes.skip(
                        start_outcomes.len() as int,
                    ).push(failure_of(r)));
                    let paths_k = worktrees_at(branches@, idx@.take(k as int));
                    let paths_k1 = worktrees_at(branches@, idx@.take(k + 1));
                    assert(paths_k1 =~= paths_k.push(*path));
                    assert(removal_calls(names_k1, paths_k1, tally.outcomes@.skip(start_outcomes.len() as int)) =~= removal_calls(
                        names_k,
                        paths_k,
                        before_outcomes.skip(start_outcomes.len() as int),
                    ).push(GitCall::RemoveWorktree(branches@[i as int].name@, *path, failure_of(r))));
                    assert(calls@ =~= start_calls + removal_calls(names_k1, paths_k1, tally.outcomes@.skip(start_outcomes.len() as int)));
                }
            },
            None => {
                // excluded by the precondition
                assert(false);
            },
        }
        k = k + 1;
    }
    assert(idx@.take(idx.len() as int) =~= idx@);
}

impl<G: GitOperations> App<G> {
    /// Reloads the list and reports the outcome of a delete in the status line.
    fn finish_delete(&mut self, deleted: usize, blocked: usize, errors: Vec<String>) -> (r: Result<(), GitError>)
        ensures
            final(self).git_calls@ == old(self).git_calls@.push(GitCall::List(final(self).listing_seen(r))),
            final(self).same_flow(*old(self)),
            final(self).listed_from(*old(self), final(self).listing_seen(r)),
            r is Err ==> final(self).status == old(self).status,
            r is Ok ==> final(self).status@ == summary_text(
                deleted as nat,
                blocked as nat,
                errors@.map_values(|e: String| e@),
            ),
    {
        match self.refresh() {
            Ok(()) => {},
            Err(e) => return Err(e),
        }
        self.status = delete_summary(deleted, blocked, &errors);
        Ok(())
    }

    /// Triggered by Enter. Deletes everything safe at once; if anything needs
    /// force or worktree removal, keeps it in a `PendingDelete` and switches to
    /// the confirmation prompt. With nothing to delete, only says so.
    pub fn request_delete(&mut self) -> (r: Result<(), GitError>)
        requires
            old(self).selection_in_list(),
        ensures
            Self::request_delete_post(*old(self), *final(self), r),
            old(self).inv() && old(self).mode == Mode::Browsing ==> final(self).inv(),
    {
        let targets = self.target_indices();
        if targets.len() == 0 {
            self.status = String::from_str("nothing to delete (select branches with Space)");
            return Ok(());
        }
        proof {
            lemma_targets_in_list(*self);
        }
        let plan = partition_targets(&self.branches, &targets);
        proof {
            lemma_buckets_in_list(self.branches@, targets@);
            crate::laws::law_partition_is_exact(self.branches@, targets@);
        }
        let ghost bs = self.branches@;
        let ghost calls0 = self.git_calls@;
        let mut tally = Tally::new();
        delete_each(&self.git, &mut self.git_calls, &self.branches, &plan.safe, &mut tally);
        let ghost outcomes = tally.outcomes@;
        assert(outcomes.skip(0) =~= outcomes);
        assert(tally.names@ =~= names_at(bs, plan.safe@));
        if plan.force.len() == 0 && plan.worktree.len() == 0 {
            let ghost calls1 = self.git_calls@;
            let r = self.finish_delete(tally.deleted, plan.blocked, tally.errors);
            assert(calls1 == calls0 + delete_calls(names_at(bs, plan.safe@), outcomes));
            assert(self.git_calls@ =~= calls0 + delete_calls(names_at(bs, plan.safe@), outcomes) + seq![
                GitCall::List(self.listing_seen(r)),
            ]);
            assert(r is Ok ==> self.status@ == summary_text(
                deleted_count(outcomes),
                plan.blocked as nat,
                error_lines(names_at(bs, plan.safe@), outcomes),
            ));
            r
        } else {
            if tally.deleted > 0 {
                let mut s = String::from_str("deleted ");
                push_decimal(&mut s, tally.deleted);
                s.append(" merged branch(es); confirming the rest…");
                self.status = s;
            }
            assert(outcomes.len() == plan.safe@.len());
            assert(self.git_calls@ == calls0 + delete_calls(names_at(bs, plan.safe@), outcomes));
            self.mode = Mode::Confirm(PendingDelete { force: plan.force, worktree: plan.worktree });
            Ok(())
        }
    }

    /// The user answered yes at the prompt: force-deletes the unmerged branches
    /// and removes the worktrees (then deletes those branches). Outside the
    /// prompt it does nothing.
    pub fn confirm_delete(&mut self) -> (r: Result<(), GitError>)
        requires
            old(self).pending_ok(),
        ensures
            Self::confirm_delete_post(*old(self), *final(self), r),
            old(self).inv() ==> final(self).inv(),
    {
        if let Mode::Browsing = self.mode {
            return Ok(());
        }
        let mut mode = Mode::Browsing;
        std::mem::swap(&mut mode, &mut self.mode);
        let pending = match mode {
            Mode::Confirm(p) => p,
            Mode::Browsing => return Ok(()),
        };
        let ghost bs = self.branches@;
        let ghost calls0 = self.git_calls@;
        let mut tally = Tally::new();
        delete_each(&self.git, &mut self.git_calls, &self.branches, &pending.force, &mut tally);
        let ghost fo = tally.outcomes@;
        let ghost calls1 = self.git_calls@;
        assert(fo.skip(0) =~= fo);
        remove_each_worktree(&self.git, &mut self.git_calls, &self.branches, &pending.worktree, &mut tally);
        let ghost outcomes = tally.outcomes@;
        let ghost wo = outcomes.skip(fo.len() as int);
        assert(outcomes =~= fo + wo);
        assert(tally.names@ =~= names_at(bs, pending.force@) + names_at(bs, pending.worktree@));
        let ghost calls2 = self.git_calls@;
        assert(calls1 == calls0 + delete_calls(names_at(bs, pending.force@), fo));
        assert(calls2 == calls1 + removal_calls(names_at(bs, pending.worktree@), worktrees_at(bs, pending.worktree@), wo));
        let r = self.finish_delete(tally.deleted, 0, tally.errors);
        assert(self.git_calls@ =~= calls0 + delete_calls(names_at(bs, pending.force@), fo) + removal_calls(
            names_at(bs, pending.worktree@),
            worktrees_at(bs, pending.worktree@),
            wo,
        ) + seq![GitCall::List(self.listing_seen(r))]);
        assert(r is Ok ==> self.status@ == summary_text(
            deleted_count(fo + wo),
            0,
            error_lines(names_at(bs, pending.force@) + names_at(bs, pending.worktree@), fo + wo),
        ));
        r
    }

    /// The user answered no at the prompt.
    pub fn cancel_confirm(&mut self)
        ensures
            Self::cancel_post(*old(self), *final(self)),
            old(self).inv() ==> final(self).inv(),
    {
        self.mode = Mode::Browsing;
        self.status = String::from_str("cancelled");
    }
}

/// Each explicitly selected index is a row whose flag is set.
pub proof fn lemma_selected_indices_bound(sel: Seq<bool>)
    requires
        sel.len() <= usize::MAX,
    ensures
        forall|k: int| 0 <= k < selected_indices(sel).len() ==> {
            &&& #[trigger] selected_indices(sel)[k] < sel.len()
            &&& sel[selected_indices(sel)[k] as int]
        },
    decreases sel.len(),
{
    if sel.len() > 0 {
        let init = sel.drop_last();
        lemma_selected_indices_bound(init);
        let rest = selected_indices(init);
        assert forall|k: int| 0 <= k < selected_indices(sel).len() implies {
            &&& #[trigger] selected_indices(sel)[k] < sel.len()
            &&& sel[selected_indices(sel)[k] as int]
        } by {
            if k < rest.len() {
                assert(selected_indices(sel)[k] == rest[k]);
                assert(init[rest[k] as int] == sel[rest[k] as int]);
            } else {
                assert(sel.last());
                assert(selected_indices(sel) == rest.push((sel.len() - 1) as usize));
                assert(selected_indices(sel)[k] == (sel.len() - 1) as usize);
                assert(sel[sel.len() - 1] == sel.last());
            }
        }
    }
}

/// The rows a delete request targets are rows of the list.
pub proof fn lemma_targets_in_list<G: GitOperations>(app: App<G>)
    requires
        app.selection_in_list(),
    ensures
        forall|k: int| 0 <= k < app.targets().len() ==> #[trigger] app.targets()[k] < app.branches.len(),
{
    assert(app.selected@.len() == app.selected.len());
    lemma_selected_indices_bound(app.selected@);
    let ex = selected_indices(app.selected@);
    if ex.len() > 0 {
        assert forall|k: int| 0 <= k < ex.len() implies #[trigger] ex[k] < app.branches.len() by {
            assert(app.selected@[ex[k] as int]);
        }
    }
}

/// Each bucket holds rows of the list whose branch falls in that bucket's class.
pub proof fn lemma_buckets_in_list(branches: Seq<BranchInfo>, targets: Seq<usize>)
    requires
        forall|k: int| 0 <= k < targets.len() ==> #[trigger] targets[k] < branches.len(),
    ensures
        forall|c: DeleteClass, k: int| 0 <= k < bucket(branches, targets, c).len() ==> {
            &&& #[trigger] bucket(branches, targets, c)[k] < branches.len()
            &&& delete_class(branches[bucket(branches, targets, c)[k] as int]) == c
        },
    decreases targets.len(),
{
    if targets.len() > 0 {
        let init = targets.drop_last();
        lemma_buckets_in_list(branches, init);
        assert forall|c: DeleteClass, k: int| 0 <= k < bucket(branches, targets, c).len() implies {
            &&& #[trigger] bucket(branches, targets, c)[k] < branches.len()
            &&& delete_class(branches[bucket(branches, targets, c)[k] as int]) == c
        } by {
            let rest = bucket(branches, init, c);
            if k < rest.len() {
                assert(bucket(branches, targets, c)[k] == rest[k]);
            } else {
                assert(targets.last() == targets[targets.len() - 1]);
            }
        }
    }
}

// ---------------------------------------------------------------------------
// Switching branches.
// ---------------------------------------------------------------------------

impl<G: GitOperations> App<G> {
    /// What follows git's answer `outcome` to a switch to `name`: a refused
    /// switch is reported in the status line; one that succeeded reloads the
    /// list, with one listing, and says so.
    pub fn after_switch(&mut self, name: &String, outcome: Result<(), GitError>) -> (r: Result<(), GitError>)
        ensures
            Self::after_switch_post(*old(self), old(self).git_calls@, *final(self), name@, failure_of(outcome), r),
            old(self).inv() && old(self).mode == Mode::Browsing ==> final(self).inv(),
    {
        match outcome {
            Ok(()) => {
                match self.refresh() {
                    Ok(()) => {},
                    Err(e) => return Err(e),
                }
                let mut msg = String::from_str("switched to '");
                msg.append(name.as_str());
                msg.append("'");
                self.status = msg;
                Ok(())
            },
            Err(e) => {
                self.status = e.message;
                Ok(())
            },
        }
    }

    /// `s`: switches to the branch under the cursor. Git lets a branch be checked
    /// out in one working tree only, so for a branch held by a linked worktree
    /// the manager quits instead and leaves that worktree's path in `exit_path`.
    /// A switch that git refuses is reported in the status line.
    pub fn switch_to_cursor(&mut self) -> (r: Result<(), GitError>)
        ensures
            Self::switch_post(*old(self), *final(self), r),
            old(self).inv() && old(self).mode == Mode::Browsing ==> final(self).inv(),
    {
        if self.cursor >= self.branches.len() {
            return Ok(());
        }
        let c = self.cursor;
        if let Some(path) = &self.branches[c].worktree {
            let target = clone_path(path);
            self.exit_path = Some(target);
            self.should_quit = true;
            return Ok(());
        }
        let name = self.branches[c].name.clone();
        if self.branches[c].is_blocked() {
            let mut msg = String::from_str("already on '");
            msg.append(name.as_str());
            msg.append("'");
            self.status = msg;
            return Ok(());
        }
        let ghost before = *self;
        let outcome = ask_switch(&self.git, &mut self.git_calls, name.as_str());
        let ghost calls1 = self.git_calls@;
        let r = self.after_switch(&name, outcome);
        assert(Self::after_switch_post(before, calls1, *self, name@, failure_of(outcome), r));
        r
    }
}


// ---------------------------------------------------------------------------
// Keys.
// ---------------------------------------------------------------------------

/// A key press, as far as the manager tells keys apart.
pub enum Key {
    Char(char),
    Up,
    Down,
    PageUp,
    PageDown,
    Home,
    End,
    Enter,
    Esc,
    Other,
}

/// What a key press asks for.
pub enum Action {
    Quit,
    Up(usize),
    Down(usize),
    Toggle,
    Delete,
    Switch,
    Refresh,
    Confirm,
    Cancel,
    Nothing,
}

/// Rows moved by PgUp / PgDn. Approximate: the renderer re-clamps the offset to
/// keep the cursor visible whatever the terminal's height.
pub const PAGE: usize = 10;

/// The keybindings. At the prompt: `y` confirms, `n` or Esc cancels. In the
/// list: `q`, Esc or Ctrl-C quits; arrows or `k`/`j` move, PgUp/PgDn page,
/// Home/End jump to the ends; Space selects, `s` switches, Enter deletes, `r`
/// refreshes.
pub open spec fn key_action(confirming: bool, key: Key, ctrl: bool) -> Action {
    if confirming {
        match key {
            Key::Char(c) => if c == 'y' || c == 'Y' {
                Action::Confirm
            } else if c == 'n' || c == 'N' {
                Action::Cancel
            } else {
                Action::Nothing
            },
            Key::Esc => Action::Cancel,
            _ => Action::Nothing,
        }
    } else {
        match key {
            Key::Char(c) => if c == 'q' {
                Action::Quit
            } else if c == 'c' && ctrl {
                Action::Quit
            } else if c == 'k' {
                Action::Up(1)
            } else if c == 'j' {
                Action::Down(1)
            } else if c == ' ' {
                Action::Toggle
            } else if c == 's' {
                Action::Switch
            } else if c == 'r' {
                Action::Refresh
            } else {
                Action::Nothing
            },
            Key::Esc => Action::Quit,
            Key::Up => Action::Up(1),
            Key::Down => Action::Down(1),
            Key::PageUp => Action::Up(PAGE),
            Key::PageDown => Action::Down(PAGE),
            Key::Home => Action::Up(usize::MAX),
            Key::End => Action::Down(usize::MAX),
            Key::Enter => Action::Delete,
            Key::Other => Action::Nothing,
        }
    }
}

/// What `key` (with Ctrl held when `ctrl`) asks for in `mode`.
pub fn action_for(mode: &Mode, key: &Key, ctrl: bool) -> (a: Action)
    ensures
        a == key_action(*mode is Confirm, *key, ctrl),
{
    match mode {
        Mode::Confirm(_) => match key {
            Key::Char(c) => if *c == 'y' || *c == 'Y' {
                Action::Confirm
            } else if *c == 'n' || *c == 'N' {
                Action::Cancel
            } else {
                Action::Nothing
            },
            Key::Esc => Action::Cancel,
            _ => Action::Nothing,
        },
        Mode::Browsing => match key {
            Key::Char(c) => if *c == 'q' {
                Action::Quit
            } else if *c == 'c' && ctrl {
                Action::Quit
            } else if *c == 'k' {
                Action::Up(1)
            } else if *c == 'j' {
                Action::Down(1)
            } else if *c == ' ' {
                Action::Toggle
            } else if *c == 's' {
                Action::Switch
            } else if *c == 'r' {
                Action::Refresh
            } else {
                Action::Nothing
            },
            Key::Esc => Action::Quit,
            Key::Up => Action::Up(1),
            Key::Down => Action::Down(1),
            Key::PageUp => Action::Up(PAGE),
            Key::PageDown => Action::Down(PAGE),
            Key::Home => Action::Up(usize::MAX),
            Key::End => Action::Down(usize::MAX),
            Key::Enter => Action::Delete,
            Key::Other => Action::Nothing,
        },
    }
}

impl<G: GitOperations> App<G> {
    /// What a press of `key` (with Ctrl held when `ctrl`) did: what
    /// `key_action` says for it, each action with its own contract.
    pub open spec fn handle_key_post(before: Self, after: Self, key: Key, ctrl: bool, r: Result<(), GitError>) -> bool {
        match key_action(before.mode is Confirm, key, ctrl) {
            Action::Nothing => r is Ok && after == before,
            Action::Quit => r is Ok && Self::quit_post(before, after),
            Action::Up(n) => r is Ok && Self::move_up_post(before, after, n),
            Action::Down(n) => r is Ok && Self::move_down_post(before, after, n),
            Action::Toggle => r is Ok && Self::toggle_post(before, after),
            Action::Delete => Self::request_delete_post(before, after, r),
            Action::Switch => Self::switch_post(before, after, r),
            Action::Refresh => Self::refresh_post(before, after, r),
            Action::Confirm => Self::confirm_delete_post(before, after, r),
            Action::Cancel => r is Ok && Self::cancel_post(before, after),
        }
    }

    /// Reacts to a key press: does what `key_action` says for it. The actions
    /// that reach git have their own contracts (`request_delete`,
    /// `confirm_delete`, `switch_to_cursor`, `refresh`); whatever git answers,
    /// the state stays consistent.
    pub fn handle_key(&mut self, key: Key, ctrl: bool) -> (r: Result<(), GitError>)
        requires
            old(self).inv(),
        ensures
            final(self).inv(),
            Self::handle_key_post(*old(self), *final(self), key, ctrl, r),
    {
        let action = action_for(&self.mode, &key, ctrl);
        match action {
            Action::Quit => {
                self.should_quit = true;
                Ok(())
            },
            Action::Up(n) => {
                self.move_up(n);
                Ok(())
            },
            Action::Down(n) => {
                self.move_down(n);
                Ok(())
            },
            Action::Toggle => {
                self.toggle_selection();
                Ok(())
            },
            Action::Delete => {
                proof {
                    assert(self.selection_in_list());
                }
                self.request_delete()
            },
            Action::Switch => self.switch_to_cursor(),
            Action::Refresh => self.refresh(),
            Action::Confirm => self.confirm_delete(),
            Action::Cancel => {
                self.cancel_confirm();
                Ok(())
            },
            Action::Nothing => Ok(()),
        }
    }
}

} // verus!
