//! The calls the git queries make into libgit2, as they record them, and the
//! sequences of calls each query is bound to make for given answers.

use std::path::PathBuf;
use vstd::prelude::*;

use crate::branch::BranchInfo;
use crate::git::{branch_entries, merged_rule, BranchFacts};

verus! {

/// How a checkout treats local changes.
#[derive(Clone, Copy)]
pub enum CheckoutMode {
    /// Fail rather than overwrite local changes.
    Safe,
}

/// One call into libgit2, with the part of its answer that the query goes on
/// with. An error's text is libgit2's message for it.
pub ghost enum RepoStep {
    /// The local branch of that name looked up: whether it was found.
    FindBranch(Seq<char>, bool),
    /// The branch just found deleted: whether that succeeded.
    DeleteFound(bool),
    /// The tree of the branch just found read: `None`, or the error's text.
    PeelToTree(Option<Seq<char>>),
    /// The working tree checked out to that tree: `None`, or the error's text.
    Checkout(CheckoutMode, Option<Seq<char>>),
    /// HEAD pointed at the reference of that name: `None`, or the error's text.
    SetHead(Seq<char>, Option<Seq<char>>),
    /// HEAD of the repository read: the object id it points at, if any.
    HeadTarget(Option<Seq<u8>>),
    /// The linked worktrees listed: their names (`None` for one that is not
    /// UTF-8), or the error's text.
    ListWorktrees(Result<Seq<Option<String>>, Seq<char>>),
    /// The linked worktree of that name looked up: where it is checked out,
    /// when it was found.
    FindWorktree(Seq<char>, Option<PathBuf>),
    /// The repository at that path opened and its HEAD read: whether HEAD is a
    /// branch, and its short name when that is UTF-8; `None` when the
    /// repository could not be opened or its HEAD read.
    WorktreeHead(PathBuf, Option<(bool, Option<String>)>),
    /// The local branches listed: how many entries, or the error's text.
    ListBranches(Result<nat, Seq<char>>),
    /// The next entry of that listing read: `None`, or the error's text.
    BranchEntry(Option<Seq<char>>),
    /// The name of that entry's branch read: `Ok(None)` when it is not UTF-8.
    BranchName(Result<Option<String>, Seq<char>>),
    /// The object id the branch points at, if any.
    BranchTip(Option<Seq<u8>>),
    /// The object id the branch's upstream points at; `None` when it has none.
    UpstreamTip(Option<Seq<u8>>),
    /// Whether the first commit descends from the second: git's answer, `None`
    /// when the query failed.
    Descends(Seq<u8>, Seq<u8>, Option<bool>),
    /// Whether HEAD points at the branch.
    BranchIsHead(bool),
}

/// The message of a failed lookup of the branch `name`.
pub open spec fn not_found_text(name: Seq<char>) -> Seq<char> {
    "branch '"@ + name + "' not found"@
}

/// The message of a failed deletion of the branch `name`.
pub open spec fn delete_failed_text(name: Seq<char>) -> Seq<char> {
    "failed to delete branch '"@ + name + "'"@
}

/// The message of a switch to `name` that libgit2 refused with `detail`.
pub open spec fn switch_failed_text(name: Seq<char>, detail: Seq<char>) -> Seq<char> {
    "cannot switch to '"@ + name + "': "@ + detail
}

/// The calls that delete the branch `name`: look it up, and delete it only
/// when it was found.
pub open spec fn delete_steps(name: Seq<char>, found: bool, deleted: bool) -> Seq<RepoStep> {
    if found {
        seq![RepoStep::FindBranch(name, true), RepoStep::DeleteFound(deleted)]
    } else {
        seq![RepoStep::FindBranch(name, false)]
    }
}

/// What deleting the branch `name` answers, given the answers of its calls.
pub open spec fn delete_failure(name: Seq<char>, found: bool, deleted: bool) -> Option<Seq<char>> {
    if !found {
        Some(not_found_text(name))
    } else if !deleted {
        Some(delete_failed_text(name))
    } else {
        None
    }
}

/// The reference HEAD is pointed at to check out the branch `name`.
pub open spec fn branch_refname(name: Seq<char>) -> Seq<char> {
    "refs/heads/"@ + name
}

/// The calls that switch to the branch `name`, each made only when the one
/// before it succeeded: look the branch up, read its tree, check that tree out
/// safely, and only then point HEAD at the branch.
pub open spec fn switch_steps(
    name: Seq<char>,
    found: bool,
    peel: Option<Seq<char>>,
    checkout: Option<Seq<char>>,
    set: Option<Seq<char>>,
) -> Seq<RepoStep> {
    let find = seq![RepoStep::FindBranch(name, found)];
    if !found {
        find
    } else if peel is Some {
        find.push(RepoStep::PeelToTree(peel))
    } else if checkout is Some {
        find.push(RepoStep::PeelToTree(None)).push(RepoStep::Checkout(CheckoutMode::Safe, checkout))
    } else {
        find.push(RepoStep::PeelToTree(None)).push(RepoStep::Checkout(CheckoutMode::Safe, None)).push(
            RepoStep::SetHead(branch_refname(name), set),
        )
    }
}

/// What a switch to `name` answers, given the answers of its calls: the first
/// failure, named.
pub open spec fn switch_failure(
    name: Seq<char>,
    found: bool,
    peel: Option<Seq<char>>,
    checkout: Option<Seq<char>>,
    set: Option<Seq<char>>,
) -> Option<Seq<char>> {
    if !found {
        Some(not_found_text(name))
    } else if peel is Some {
        Some(switch_failed_text(name, peel->0))
    } else if checkout is Some {
        Some(switch_failed_text(name, checkout->0))
    } else if set is Some {
        Some(switch_failed_text(name, set->0))
    } else {
        None
    }
}

/// Whether the steps `t` point HEAD anywhere.
pub open spec fn moves_head(t: Seq<RepoStep>) -> bool {
    exists|i: int| 0 <= i < t.len() && #[trigger] t[i] is SetHead
}


// ---------------------------------------------------------------------------
// Listing the branches.
// ---------------------------------------------------------------------------

/// What git answered about one linked worktree: where it is checked out, when
/// it was found, and what its HEAD is (as in `RepoStep::WorktreeHead`).
pub ghost struct WorktreeLook {
    pub found: Option<PathBuf>,
    pub head: Option<(bool, Option<String>)>,
}

/// The calls made for the linked worktree `name`: look it up, and when it was
/// found, open it where it is checked out and read its HEAD.
pub open spec fn look_steps(name: Seq<char>, look: WorktreeLook) -> Seq<RepoStep> {
    match look.found {
        None => seq![RepoStep::FindWorktree(name, None)],
        Some(path) => seq![RepoStep::FindWorktree(name, Some(path)), RepoStep::WorktreeHead(path, look.head)],
    }
}

/// The calls made for the listed worktrees `names`, in order, the `k`th
/// answered as `looks[k]`; a name that is not UTF-8 is passed over.
pub open spec fn worktree_steps(names: Seq<Option<String>>, looks: Seq<WorktreeLook>) -> Seq<RepoStep>
    decreases names.len(),
{
    if names.len() == 0 {
        Seq::empty()
    } else {
        let rest = worktree_steps(names.drop_last(), looks.drop_last());
        match names.last() {
            Some(n) => rest + look_steps(n@, looks.last()),
            None => rest,
        }
    }
}

/// The entry a worktree gives the map: its branch and path, when it was found
/// and its HEAD is a branch with a readable short name.
pub open spec fn look_entry(look: WorktreeLook) -> Option<(String, PathBuf)> {
    match (look.found, look.head) {
        (Some(path), Some((is_branch, shorthand))) => if is_branch && shorthand is Some {
            Some((shorthand->0, path))
        } else {
            None
        },
        _ => None,
    }
}

/// The map from branch to worktree that the listed worktrees `names`,
/// answered as `looks`, give: one entry per worktree that has one, in order.
pub open spec fn worktree_map_of(names: Seq<Option<String>>, looks: Seq<WorktreeLook>) -> Seq<(String, PathBuf)>
    decreases names.len(),
{
    if names.len() == 0 {
        Seq::empty()
    } else {
        let rest = worktree_map_of(names.drop_last(), looks.drop_last());
        match (names.last(), look_entry(looks.last())) {
            (Some(_), Some(e)) => rest.push(e),
            _ => rest,
        }
    }
}

/// What git answered about one entry of the branch listing. Only the answers
/// to calls that were made (see `branch_steps`) mean anything.
pub ghost struct BranchLook {
    /// Reading the entry: `None`, or the error's text.
    pub entry: Option<Seq<char>>,
    pub name: Result<Option<String>, Seq<char>>,
    pub tip: Option<Seq<u8>>,
    pub upstream_tip: Option<Seq<u8>>,
    /// Whether HEAD's commit descends from the tip.
    pub from_head: Option<bool>,
    /// Whether the upstream's commit descends from the tip.
    pub from_upstream: Option<bool>,
    pub is_head: bool,
}

/// The ancestry query asked to learn whether `tip` is reachable from `from`:
/// whether `from` descends from `tip`, asked only when both exist and differ.
pub open spec fn descends_steps(from: Option<Seq<u8>>, tip: Option<Seq<u8>>, answer: Option<bool>) -> Seq<RepoStep> {
    if from is Some && tip is Some && from->0 != tip->0 {
        seq![RepoStep::Descends(from->0, tip->0, answer)]
    } else {
        Seq::empty()
    }
}

/// Whether `tip` is reachable from `from`: both exist, and they are equal or
/// git answered that `from` descends from `tip`.
pub open spec fn reached(from: Option<Seq<u8>>, tip: Option<Seq<u8>>, answer: Option<bool>) -> bool {
    from is Some && tip is Some && (from->0 == tip->0 || answer == Some(true))
}

/// The calls made for one entry of the branch listing, HEAD pointing at
/// `head_tip`: read the entry and, when that worked, the branch's name; for a
/// branch with a readable name, its tip, its upstream's tip, whether the tip is
/// reachable from HEAD and from the upstream, and whether HEAD points at it.
pub open spec fn branch_steps(head_tip: Option<Seq<u8>>, b: BranchLook) -> Seq<RepoStep> {
    let entry = seq![RepoStep::BranchEntry(b.entry)];
    if b.entry is Some {
        entry
    } else if !(b.name matches Ok(Some(_))) {
        entry.push(RepoStep::BranchName(b.name))
    } else {
        entry.push(RepoStep::BranchName(b.name)).push(RepoStep::BranchTip(b.tip)).push(
            RepoStep::UpstreamTip(b.upstream_tip),
        ) + descends_steps(head_tip, b.tip, b.from_head) + descends_steps(b.upstream_tip, b.tip, b.from_upstream)
            + seq![RepoStep::BranchIsHead(b.is_head)]
    }
}

/// The failure an entry of the listing ends the listing with, if any.
pub open spec fn branch_failure(b: BranchLook) -> Option<Seq<char>> {
    match b.entry {
        Some(t) => Some(t),
        None => match b.name {
            Err(t) => Some(t),
            Ok(_) => None,
        },
    }
}

/// What an entry of the listing tells of its branch; nothing for a branch whose
/// name is not UTF-8.
pub open spec fn facts_of(head_tip: Option<Seq<u8>>, b: BranchLook) -> BranchFacts {
    match b.name {
        Ok(Some(n)) => BranchFacts {
            name: Some(n),
            is_head: b.is_head,
            is_merged: merged_rule(
                head_tip,
                b.upstream_tip,
                b.tip,
                reached(head_tip, b.tip, b.from_head),
                reached(b.upstream_tip, b.tip, b.from_upstream),
            ),
        },
        _ => BranchFacts { name: None, is_head: false, is_merged: false },
    }
}

/// The calls made for the entries `bs` of the listing, in order.
pub open spec fn branches_steps(head_tip: Option<Seq<u8>>, bs: Seq<BranchLook>) -> Seq<RepoStep>
    decreases bs.len(),
{
    if bs.len() == 0 {
        Seq::empty()
    } else {
        branches_steps(head_tip, bs.drop_last()) + branch_steps(head_tip, bs.last())
    }
}

/// What the entries `bs` tell of their branches, in order.
pub open spec fn facts_all(head_tip: Option<Seq<u8>>, bs: Seq<BranchLook>) -> Seq<BranchFacts> {
    bs.map_values(|b: BranchLook| facts_of(head_tip, b))
}

/// Everything git answered while the branch list was built.
pub ghost struct ListingLook {
    pub head_tip: Option<Seq<u8>>,
    pub worktree_names: Result<Seq<Option<String>>, Seq<char>>,
    pub worktrees: Seq<WorktreeLook>,
    pub branch_count: Result<nat, Seq<char>>,
    pub branches: Seq<BranchLook>,
}

/// The calls made to build the branch list: read HEAD, list the worktrees and
/// look at each, then list the branches and read each entry, stopping at the
/// first failure.
pub open spec fn listing_steps(l: ListingLook) -> Seq<RepoStep> {
    let start = seq![RepoStep::HeadTarget(l.head_tip), RepoStep::ListWorktrees(l.worktree_names)];
    match l.worktree_names {
        Err(_) => start,
        Ok(names) => {
            let listed = (start + worktree_steps(names, l.worktrees)).push(RepoStep::ListBranches(l.branch_count));
            match l.branch_count {
                Err(_) => listed,
                Ok(_) => listed + branches_steps(l.head_tip, l.branches),
            }
        },
    }
}

/// The answers fit together: one look per listed worktree, and the entries
/// read in order, no more than were listed, all of them unless one failed, and
/// none after a failure.
pub open spec fn listing_shape(l: ListingLook) -> bool {
    &&& l.worktree_names matches Ok(names) ==> l.worktrees.len() == names.len()
    &&& l.branch_count matches Ok(n) ==> {
        &&& l.branches.len() <= n
        &&& forall|i: int| 0 <= i < l.branches.len() - 1 ==> branch_failure(#[trigger] l.branches[i]) is None
        &&& l.branches.len() < n ==> l.branches.len() > 0 && branch_failure(l.branches.last()) is Some
    }
}

/// The failure that ends the listing, if any.
pub open spec fn listing_failure(l: ListingLook) -> Option<Seq<char>> {
    match l.worktree_names {
        Err(t) => Some(t),
        Ok(_) => match l.branch_count {
            Err(t) => Some(t),
            Ok(_) => if l.branches.len() > 0 {
                branch_failure(l.branches.last())
            } else {
                None
            },
        },
    }
}

/// The entries of the branch list that the answers give, before sorting.
pub open spec fn listing_entries(l: ListingLook) -> Seq<BranchInfo> {
    match l.worktree_names {
        Ok(names) => branch_entries(facts_all(l.head_tip, l.branches), worktree_map_of(names, l.worktrees)),
        Err(_) => Seq::empty(),
    }
}

} // verus!
