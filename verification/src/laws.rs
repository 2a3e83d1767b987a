//! Properties of the manager that hold across its operations, stated over the
//! models that the operations' contracts use, and proved.

use std::path::PathBuf;
use vstd::prelude::*;

use crate::app::{
    bucket, clamped_offset, cursor_down, cursor_up, deleted_count, error_lines, lemma_selected_indices_bound,
    reload_cursor, selected_indices, Key,
};
use crate::app::{
    delete_calls, lemma_buckets_in_list, lemma_targets_in_list, names_at, removal_calls, worktrees_at, App, Mode,
};
use crate::branch::{delete_class, BranchInfo, DeleteClass};
use crate::error::GitError;
use crate::git::{GitCall, GitOperations};
use crate::git::worktree_of;
use crate::trace::{facts_of, BranchLook, look_entry, moves_head, switch_steps, worktree_map_of, CheckoutMode, RepoStep, WorktreeLook};

verus! {

/// Paging never loses the cursor: with a window at least one row tall and the
/// cursor on a row, the clamped window shows the cursor.
pub proof fn law_clamp_shows_cursor(cursor: int, offset: int, len: int, height: int)
    requires
        0 <= cursor < len,
        0 <= offset,
        height > 0,
    ensures
        clamped_offset(cursor, offset, len, height) <= cursor < clamped_offset(cursor, offset, len, height)
            + height,
{
}

/// Paging never leaves blank rows: the clamped window ends at or before the end
/// of the list when the list fills it, and starts at the top otherwise.
pub proof fn law_clamp_no_blank_rows(cursor: int, offset: int, len: int, height: int)
    requires
        0 <= cursor < len,
        0 <= offset,
        height > 0,
    ensures
        len >= height ==> clamped_offset(cursor, offset, len, height) + height <= len,
        len < height ==> clamped_offset(cursor, offset, len, height) == 0,
        clamped_offset(cursor, offset, len, height) >= 0,
{
}

/// Clamping a clamped window changes nothing.
pub proof fn law_clamp_idempotent(cursor: int, offset: int, len: int, height: int)
    requires
        0 <= cursor < len,
        0 <= offset,
        0 <= height,
    ensures
        clamped_offset(cursor, clamped_offset(cursor, offset, len, height), len, height) == clamped_offset(
            cursor,
            offset,
            len,
            height,
        ),
{
}

/// Moving keeps the cursor on a row of a non-empty list, and at 0 on an empty one.
pub proof fn law_moves_keep_cursor_in_list(cursor: usize, n: usize, len: nat)
    requires
        cursor < len || (len == 0 && cursor == 0),
    ensures
        cursor_down(cursor, n, len) < len || (len == 0 && cursor_down(cursor, n, len) == 0),
        cursor_up(cursor, n) < len || (len == 0 && cursor_up(cursor, n) == 0),
{
}

/// Home goes to the first row and End to the last.
pub proof fn law_home_and_end(cursor: usize, len: nat)
    requires
        cursor < len <= usize::MAX,
    ensures
        cursor_up(cursor, usize::MAX) == 0,
        cursor_down(cursor, usize::MAX, len) == len - 1,
{
}

/// Toggling the same row twice restores the selection.
pub proof fn law_toggle_twice_restores(selected: Seq<bool>, row: int)
    requires
        0 <= row < selected.len(),
    ensures
        ({
            let once = selected.update(row, !selected[row]);
            once.update(row, !once[row]) == selected
        }),
{
    let once = selected.update(row, !selected[row]);
    assert(once.update(row, !once[row]) =~= selected);
}

/// The rows explicitly selected are exactly the rows whose flag is set, each
/// once, in increasing order.
pub proof fn law_selected_indices_exact(sel: Seq<bool>)
    requires
        sel.len() <= usize::MAX,
    ensures
        forall|i: int| 0 <= i < sel.len() ==> (sel[i] <==> selected_indices(sel).contains(i as usize)),
        forall|a: int, b: int|
            0 <= a < b < selected_indices(sel).len() ==> selected_indices(sel)[a] < selected_indices(sel)[b],
    decreases sel.len(),
{
    if sel.len() > 0 {
        let init = sel.drop_last();
        law_selected_indices_exact(init);
        let rest = selected_indices(init);
        lemma_selected_indices_bound(init);
        assert forall|i: int| 0 <= i < sel.len() implies (sel[i] <==> selected_indices(sel).contains(
            i as usize,
        )) by {
            if i < sel.len() - 1 {
                assert(init[i] == sel[i]);
                if selected_indices(sel).contains(i as usize) {
                    let k = choose|k: int|
                        0 <= k < selected_indices(sel).len() && selected_indices(sel)[k] == i as usize;
                    if k < rest.len() {
                        assert(rest[k] == i as usize);
                    }
                }
                if rest.contains(i as usize) {
                    let k = choose|k: int| 0 <= k < rest.len() && rest[k] == i as usize;
                    assert(selected_indices(sel)[k] == i as usize);
                }
            } else {
                if sel.last() {
                    assert(selected_indices(sel)[rest.len() as int] == i as usize);
                } else {
                    if rest.contains(i as usize) {
                        let k = choose|k: int| 0 <= k < rest.len() && rest[k] == i as usize;
                    }
                }
            }
        }
    }
}

/// A delete request splits its targets: each target falls in exactly the bucket
/// of its branch's class, so the buckets together hold every target once.
pub proof fn law_partition_is_exact(branches: Seq<BranchInfo>, targets: Seq<usize>)
    ensures
        bucket(branches, targets, DeleteClass::Safe).len() + bucket(branches, targets, DeleteClass::Force).len()
            + bucket(branches, targets, DeleteClass::Worktree).len() + bucket(
            branches,
            targets,
            DeleteClass::Blocked,
        ).len() == targets.len(),
        forall|c: DeleteClass, i: usize|
            #[trigger] bucket(branches, targets, c).contains(i) <==> (targets.contains(i) && delete_class(
                branches[i as int],
            ) == c),
    decreases targets.len(),
{
    if targets.len() > 0 {
        let init = targets.drop_last();
        law_partition_is_exact(branches, init);
        assert forall|c: DeleteClass, i: usize|
            #[trigger] bucket(branches, targets, c).contains(i) <==> (targets.contains(i) && delete_class(
                branches[i as int],
            ) == c) by {
            let rest = bucket(branches, init, c);
            let last = targets.last();
            let whole = bucket(branches, targets, c);
            assert(targets == init.push(last));
            if delete_class(branches[last as int]) == c {
                assert(whole == rest.push(last));
            } else {
                assert(whole == rest);
            }
            if whole.contains(i) {
                let k = choose|k: int| 0 <= k < whole.len() && whole[k] == i;
                if k < rest.len() {
                    assert(rest[k] == i);
                    assert(rest.contains(i));
                    let m = choose|m: int| 0 <= m < init.len() && init[m] == i;
                    assert(targets[m] == i);
                } else {
                    assert(targets[targets.len() - 1] == i);
                }
            }
            if targets.contains(i) && delete_class(branches[i as int]) == c {
                let m = choose|m: int| 0 <= m < targets.len() && targets[m] == i;
                if m < targets.len() - 1 {
                    assert(init[m] == i);
                    assert(init.contains(i));
                    assert(rest.contains(i));
                    let k = choose|k: int| 0 <= k < rest.len() && rest[k] == i;
                    assert(whole[k] == i);
                } else {
                    assert(last == i);
                    assert(whole[rest.len() as int] == i);
                }
            }
        }
    }
}

/// HEAD is protected: no delete bucket ever holds the current branch.
pub proof fn law_head_never_deleted(branches: Seq<BranchInfo>, targets: Seq<usize>, i: usize)
    requires
        0 <= i < branches.len(),
        branches[i as int].is_head,
    ensures
        !bucket(branches, targets, DeleteClass::Safe).contains(i),
        !bucket(branches, targets, DeleteClass::Force).contains(i),
        !bucket(branches, targets, DeleteClass::Worktree).contains(i),
{
    law_partition_is_exact(branches, targets);
    assert(bucket(branches, targets, DeleteClass::Safe).contains(i) ==> delete_class(branches[i as int])
        == DeleteClass::Safe);
    assert(bucket(branches, targets, DeleteClass::Force).contains(i) ==> delete_class(branches[i as int])
        == DeleteClass::Force);
    assert(bucket(branches, targets, DeleteClass::Worktree).contains(i) ==> delete_class(
        branches[i as int],
    ) == DeleteClass::Worktree);
}

/// Every deletion attempt is accounted for: the successes and the error lines
/// together are as many as the attempts.
pub proof fn law_every_attempt_reported(names: Seq<Seq<char>>, outcomes: Seq<Option<Seq<char>>>)
    requires
        names.len() == outcomes.len(),
    ensures
        deleted_count(outcomes) + error_lines(names, outcomes).len() == outcomes.len(),
    decreases outcomes.len(),
{
    if outcomes.len() > 0 {
        law_every_attempt_reported(names.drop_last(), outcomes.drop_last());
    }
}

/// The worktree map keeps the last path recorded for a branch.
pub proof fn law_worktree_last_wins(map: Seq<(String, PathBuf)>, name: String, path: PathBuf)
    ensures
        worktree_of(map.push((name, path)), name@) == Some(path),
{
    assert(map.push((name, path)).last() == (name, path));
}

/// A delete request never asks git to delete the current branch: each
/// `delete_branch` it makes names a branch of the safe bucket, and HEAD (whose
/// name no other branch shares) is never one of them.
pub proof fn law_request_delete_spares_head<G: GitOperations>(
    before: App<G>,
    after: App<G>,
    r: Result<(), GitError>,
    head: int,
)
    requires
        App::<G>::request_delete_post(before, after, r),
        before.selection_in_list(),
        0 <= head < before.branches.len(),
        before.branches@[head].is_head,
        forall|j: int| 0 <= j < before.branches.len() && j != head ==> before.branches@[j].name@ != before.branches@[head].name@,
    ensures
        forall|k: int, f: Option<Seq<char>>|
            before.git_calls@.len() <= k < after.git_calls@.len() ==> after.git_calls@[k] != GitCall::Delete(
                before.branches@[head].name@,
                f,
            ),
{
    let t = before.targets();
    let bs = before.branches@;
    let safe = bucket(bs, t, DeleteClass::Safe);
    let names = names_at(bs, safe);
    lemma_targets_in_list(before);
    lemma_buckets_in_list(bs, t);
    assert forall|k: int, f: Option<Seq<char>>|
        before.git_calls@.len() <= k < after.git_calls@.len() implies after.git_calls@[k] != GitCall::Delete(
            bs[head].name@,
            f,
        ) by {
        let force = bucket(bs, t, DeleteClass::Force);
        let wt = bucket(bs, t, DeleteClass::Worktree);
        if t.len() == 0 {
        } else {
            let outcomes = choose|outcomes: Seq<Option<Seq<char>>>| #![trigger delete_calls(names, outcomes)] {
                &&& outcomes.len() == safe.len()
                &&& (after.git_calls@ == before.git_calls@ + delete_calls(names, outcomes)
                    || after.git_calls@ == before.git_calls@ + delete_calls(names, outcomes) + seq![
                    GitCall::List(after.listing_seen(r)),
                ])
            };
            let m = k - before.git_calls@.len();
            if m < outcomes.len() {
                assert(after.git_calls@[k] == delete_calls(names, outcomes)[m]);
                let i = safe[m];
                assert(delete_class(bs[i as int]) == DeleteClass::Safe);
                assert(i != head);
                assert(names[m] == bs[i as int].name@);
            }
        }
    }
}


/// Whether `call` asks git to delete the branch `name`, alone or with its worktree.
pub open spec fn deletes_name(call: GitCall, name: Seq<char>) -> bool {
    ||| call matches GitCall::Delete(n, _) && n == name
    ||| call matches GitCall::RemoveWorktree(n, _, _) && n == name
}

/// HEAD is protected from deletion: across a delete request made while
/// browsing and the confirmation that may follow it, git is never asked to
/// delete the current branch (whose name no other branch shares), neither
/// alone nor with a worktree.
pub proof fn law_head_survives_delete_flow<G: GitOperations>(
    start: App<G>,
    requested: App<G>,
    r1: Result<(), GitError>,
    confirmed: App<G>,
    r2: Result<(), GitError>,
    head: int,
)
    requires
        start.mode == Mode::Browsing,
        start.selection_in_list(),
        App::<G>::request_delete_post(start, requested, r1),
        App::<G>::confirm_delete_post(requested, confirmed, r2),
        0 <= head < start.branches.len(),
        start.branches@[head].is_head,
        forall|j: int| 0 <= j < start.branches.len() && j != head ==> start.branches@[j].name@ != start.branches@[head].name@,
    ensures
        forall|k: int|
            start.git_calls@.len() <= k < confirmed.git_calls@.len() ==> !deletes_name(
                #[trigger] confirmed.git_calls@[k],
                start.branches@[head].name@,
            ),
{
    let t = start.targets();
    let bs = start.branches@;
    let hname = bs[head].name@;
    let safe = bucket(bs, t, DeleteClass::Safe);
    let force = bucket(bs, t, DeleteClass::Force);
    let wt = bucket(bs, t, DeleteClass::Worktree);
    let names = names_at(bs, safe);
    lemma_targets_in_list(start);
    lemma_buckets_in_list(bs, t);
    // the request's own calls: deletes of the safe bucket, then perhaps a listing
    let mid = requested.git_calls@.len();
    assert(mid >= start.git_calls@.len());
    assert forall|k: int| start.git_calls@.len() <= k < mid implies !deletes_name(
        #[trigger] requested.git_calls@[k],
        hname,
    ) by {
        if t.len() > 0 {
            let outcomes = choose|outcomes: Seq<Option<Seq<char>>>| #![trigger delete_calls(names, outcomes)] {
                &&& outcomes.len() == safe.len()
                &&& (requested.git_calls@ == start.git_calls@ + delete_calls(names, outcomes)
                    || requested.git_calls@ == start.git_calls@ + delete_calls(names, outcomes) + seq![
                    GitCall::List(requested.listing_seen(r1)),
                ])
            };
            let m = k - start.git_calls@.len();
            if m < outcomes.len() {
                assert(requested.git_calls@[k] == delete_calls(names, outcomes)[m]);
                let i = safe[m];
                assert(delete_class(bs[i as int]) == DeleteClass::Safe);
                assert(names[m] == bs[i as int].name@);
            }
        }
    }
    // the confirmation's calls: forced deletes, then worktree removals, then a listing
    assert forall|k: int| start.git_calls@.len() <= k < confirmed.git_calls@.len() implies !deletes_name(
        #[trigger] confirmed.git_calls@[k],
        hname,
    ) by {
        match requested.mode {
            Mode::Browsing => {
                assert(confirmed == requested);
            },
            Mode::Confirm(p) => {
                assert(t.len() > 0 && (force.len() > 0 || wt.len() > 0));
                assert(p.force@ == force && p.worktree@ == wt);
                assert(requested.branches@ == bs);
                let fnames = names_at(bs, force);
                let wnames = names_at(bs, wt);
                let wpaths = worktrees_at(bs, wt);
                let (fo, wo) = choose|fo: Seq<Option<Seq<char>>>, wo: Seq<Option<Seq<char>>>|
                    #![trigger delete_calls(fnames, fo), removal_calls(wnames, wpaths, wo)]
                {
                    &&& fo.len() == fnames.len()
                    &&& wo.len() == wnames.len()
                    &&& confirmed.git_calls@ == requested.git_calls@ + delete_calls(fnames, fo)
                        + removal_calls(wnames, wpaths, wo) + seq![GitCall::List(confirmed.listing_seen(r2))]
                };
                if k >= mid {
                    let m = k - mid;
                    if m < fo.len() {
                        assert(confirmed.git_calls@[k] == delete_calls(fnames, fo)[m]);
                        assert(delete_class(bs[force[m] as int]) == DeleteClass::Force);
                        assert(fnames[m] == bs[force[m] as int].name@);
                    } else if m < fo.len() + wo.len() {
                        let w = m - fo.len();
                        assert(confirmed.git_calls@[k] == removal_calls(wnames, wpaths, wo)[w]);
                        assert(delete_class(bs[wt[w] as int]) == DeleteClass::Worktree);
                        assert(wnames[w] == bs[wt[w] as int].name@);
                    }
                } else {
                    assert(confirmed.git_calls@[k] == requested.git_calls@[k]);
                }
            },
        }
    }
}


/// A switch never overwrites uncommitted work behind HEAD's back: whatever git
/// answers, HEAD is pointed at the branch only right after a safe checkout of
/// its tree succeeded, and a refused checkout leaves HEAD where it was.
pub proof fn law_switch_moves_head_only_after_safe_checkout(
    name: Seq<char>,
    found: bool,
    peel: Option<Seq<char>>,
    checkout: Option<Seq<char>>,
    set: Option<Seq<char>>,
)
    ensures
        forall|i: int|
            0 <= i < switch_steps(name, found, peel, checkout, set).len() && (#[trigger] switch_steps(
                name,
                found,
                peel,
                checkout,
                set,
            )[i]) is SetHead ==> i > 0 && switch_steps(name, found, peel, checkout, set)[i - 1]
                == RepoStep::Checkout(CheckoutMode::Safe, None),
        checkout is Some ==> !moves_head(switch_steps(name, found, peel, checkout, set)),
{
    let t = switch_steps(name, found, peel, checkout, set);
    assert forall|i: int| 0 <= i < t.len() && (#[trigger] t[i]) is SetHead implies i > 0 && t[i - 1]
        == RepoStep::Checkout(CheckoutMode::Safe, None) by {
        if found && peel is None && checkout is None {
            assert(i == 3);
        }
    }
}


/// A branch checked out in a linked worktree is detected: when that worktree
/// was found and its HEAD is the branch, the map the listing builds gives the
/// branch that worktree's path, unless a later worktree holds the same branch.
pub proof fn law_worktree_branch_is_detected(
    names: Seq<Option<String>>,
    looks: Seq<WorktreeLook>,
    k: int,
    branch: String,
    path: PathBuf,
)
    requires
        looks.len() == names.len(),
        0 <= k < names.len(),
        names[k] is Some,
        look_entry(looks[k]) == Some((branch, path)),
        forall|j: int|
            k < j < names.len() && names[j] is Some ==> !(#[trigger] look_entry(looks[j]) matches Some(e) && e.0@
                == branch@),
    ensures
        worktree_of(worktree_map_of(names, looks), branch@) == Some(path),
    decreases names.len(),
{
    let n = names.len() - 1;
    let rest = worktree_map_of(names.drop_last(), looks.drop_last());
    assert(names.last() == names[n]);
    assert(looks.last() == looks[n]);
    if k == n {
        assert(worktree_map_of(names, looks) == rest.push((branch, path)));
    } else {
        assert forall|j: int|
            k < j < names.drop_last().len() && names.drop_last()[j] is Some implies !(#[trigger] look_entry(
                looks.drop_last()[j],
            ) matches Some(e) && e.0@ == branch@) by {
            assert(names.drop_last()[j] == names[j]);
            assert(looks.drop_last()[j] == looks[j]);
        }
        assert(names.drop_last()[k] == names[k]);
        assert(looks.drop_last()[k] == looks[k]);
        law_worktree_branch_is_detected(names.drop_last(), looks.drop_last(), k, branch, path);
        match (names.last(), look_entry(looks.last())) {
            (Some(_), Some(e)) => {
                assert(worktree_map_of(names, looks) == rest.push(e));
                assert(e.0@ != branch@);
                assert(rest.push(e).drop_last() =~= rest);
            },
            _ => {
                assert(worktree_map_of(names, looks) == rest);
            },
        }
    }
}


/// A delete request acts on the selection: when at least one row is selected,
/// its targets are exactly the selected rows, so no unselected row (the one
/// under the cursor included) is ever a target; only when nothing is selected
/// is the row under the cursor the target, and then only if it is not HEAD.
pub proof fn law_targets_follow_the_selection<G: GitOperations>(app: App<G>)
    requires
        app.selection_in_list(),
    ensures
        (exists|i: int| 0 <= i < app.selected.len() && app.selected@[i]) ==> {
            &&& forall|k: int|
                0 <= k < app.targets().len() ==> (#[trigger] app.targets()[k]) < app.selected.len()
                    && app.selected@[app.targets()[k] as int]
            &&& forall|i: int| 0 <= i < app.selected.len() && app.selected@[i] ==> app.targets().contains(i as usize)
        },
        (forall|i: int| 0 <= i < app.selected.len() ==> !app.selected@[i]) ==> {
            &&& app.cursor < app.branches.len() && !app.branches@[app.cursor as int].is_head ==> app.targets()
                == seq![app.cursor]
            &&& !(app.cursor < app.branches.len() && !app.branches@[app.cursor as int].is_head)
                ==> app.targets().len() == 0
        },
{
    let sel = app.selected@;
    assert(sel.len() == app.selected.len());
    law_selected_indices_exact(sel);
    lemma_selected_indices_bound(sel);
    let explicit = selected_indices(sel);
    if exists|i: int| 0 <= i < sel.len() && sel[i] {
        let i = choose|i: int| 0 <= i < sel.len() && sel[i];
        assert(explicit.contains(i as usize));
        assert(explicit.len() > 0);
        assert(app.targets() == explicit);
    }
    if forall|i: int| 0 <= i < sel.len() ==> !sel[i] {
        if explicit.len() > 0 {
            assert(sel[explicit[0] as int]);
        }
    }
}

/// Moving down by `n` rows from a row of the list lands exactly `n` rows
/// further down when that row exists, and on the last row otherwise; moving up
/// lands exactly `n` rows higher, or on the first row.
pub proof fn law_moves_go_n_rows(cursor: usize, n: usize, len: nat)
    requires
        cursor < len <= usize::MAX,
    ensures
        cursor + n < len ==> cursor_down(cursor, n, len) == cursor + n,
        cursor + n >= len ==> cursor_down(cursor, n, len) == len - 1,
        cursor >= n ==> cursor_up(cursor, n) == cursor - n,
        cursor < n ==> cursor_up(cursor, n) == 0,
{
}

/// Reloading the list keeps the cursor where it was when that row still
/// exists, and otherwise puts it on the last row (row 0 of an empty list).
pub proof fn law_reload_keeps_the_cursor(cursor: usize, len: nat)
    requires
        len <= usize::MAX,
    ensures
        cursor < len ==> reload_cursor(cursor, len) == cursor,
        cursor >= len && len > 0 ==> reload_cursor(cursor, len) == len - 1,
        len == 0 ==> reload_cursor(cursor, len) == 0,
{
}

/// A refresh that lists the same number of branches leaves the cursor on its
/// row; one that lists fewer keeps it on its row when that row is still there.
pub proof fn law_refresh_keeps_the_cursor<G: GitOperations>(before: App<G>, after: App<G>, r: Result<(), GitError>)
    requires
        App::<G>::refresh_post(before, after, r),
        r is Ok,
        before.cursor < after.branches.len(),
    ensures
        after.cursor == before.cursor,
{
}

/// The arrow keys and `k`/`j` move the cursor one row while browsing: Up and
/// `k` one row up (staying on the first row), Down and `j` one row down
/// (staying on the last row); nothing else changes and git is not asked.
pub proof fn law_arrow_keys_move_one_row<G: GitOperations>(
    before: App<G>,
    after: App<G>,
    key: Key,
    ctrl: bool,
    r: Result<(), GitError>,
)
    requires
        before.mode == Mode::Browsing,
        before.cursor < before.branches.len(),
        App::<G>::handle_key_post(before, after, key, ctrl, r),
    ensures
        key == Key::Up || key == Key::Char('k') ==> {
            &&& r is Ok
            &&& before.cursor > 0 ==> after.cursor == before.cursor - 1
            &&& before.cursor == 0 ==> after.cursor == 0
            &&& after.branches == before.branches && after.selected == before.selected
            &&& after.git_calls == before.git_calls
        },
        key == Key::Down || key == Key::Char('j') ==> {
            &&& r is Ok
            &&& before.cursor + 1 < before.branches.len() ==> after.cursor == before.cursor + 1
            &&& before.cursor + 1 == before.branches.len() ==> after.cursor == before.cursor
            &&& after.branches == before.branches && after.selected == before.selected
            &&& after.git_calls == before.git_calls
        },
{
}


/// A branch whose tip HEAD's commit equals or descends from is listed as
/// merged: git's answer to whether HEAD descends from the tip (recorded, with
/// the two ids it was asked about, by the `Descends` step) decides, and so does
/// the same answer for the upstream. A branch with no tip is never merged.
pub proof fn law_merged_when_reachable(head_tip: Option<Seq<u8>>, b: BranchLook)
    requires
        b.name matches Ok(Some(_)),
    ensures
        facts_of(head_tip, b).is_merged <==> b.tip is Some && ((head_tip is Some && (head_tip->0 == b.tip->0
            || b.from_head == Some(true))) || (b.upstream_tip is Some && (b.upstream_tip->0 == b.tip->0
            || b.from_upstream == Some(true)))),
{
}

} // verus!
