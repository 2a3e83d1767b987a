//! The git operations the manager depends on.

use std::path::{Path, PathBuf};
use vstd::prelude::*;
use vstd::string::*;

use crate::branch::{as_path, clone_path, owned_path, sort_by_name, sorted_by_name, BranchInfo};
use crate::error::GitError;
use crate::trace::{
    branch_failure, branch_refname, branch_steps, branches_steps, delete_failed_text, delete_failure, delete_steps,
    descends_steps, facts_all, facts_of, listing_entries, listing_failure, listing_shape, listing_steps, look_steps,
    not_found_text, reached, switch_failed_text, switch_failure, switch_steps, worktree_map_of, worktree_steps,
    BranchLook, CheckoutMode, ListingLook, RepoStep, WorktreeLook,
};

verus! {

/// A call made through `GitOperations`, with git's answer, as the application
/// records it.
pub ghost enum GitCall {
    /// `list_branches`: the branches listed, or the error's message.
    List(Result<Seq<BranchInfo>, Seq<char>>),
    /// `delete_branch` of a name: `None` on success, or the error's message.
    Delete(Seq<char>, Option<Seq<char>>),
    /// `remove_worktree_and_branch` of a name and the worktree's path it was
    /// handed (owned again): `None` on success, or the error's message.
    RemoveWorktree(Seq<char>, PathBuf, Option<Seq<char>>),
    /// `switch_branch` to a name: `None` on success, or the error's message.
    Switch(Seq<char>, Option<Seq<char>>),
}

/// What a call that returns nothing answered: `None` for success, or the
/// error's message.
pub open spec fn failure_of(r: Result<(), GitError>) -> Option<Seq<char>> {
    match r {
        Ok(_) => None,
        Err(e) => Some(e.message@),
    }
}

/// What a listing answered: the branches, or the error's message.
pub open spec fn listing_of(r: Result<Vec<BranchInfo>, GitError>) -> Result<Seq<BranchInfo>, Seq<char>> {
    match r {
        Ok(v) => Ok(v@),
        Err(e) => Err(e.message@),
    }
}

/// The git operations that `App` depends on. Behind this trait the application's
/// state logic (navigation, paging, the delete-partitioning rules) runs without
/// a real repository: tests supply an in-memory implementation. Nothing is
/// promised of what an implementation returns.
pub trait GitOperations {
    /// Current local branches with merged status and worktree attachment resolved.
    fn list_branches(&self) -> Result<Vec<BranchInfo>, GitError>;

    /// Delete a branch. Does not enforce the merged check (the caller gates that).
    fn delete_branch(&self, name: &str) -> Result<(), GitError>;

    /// Remove a branch's linked worktree, then delete the branch.
    fn remove_worktree_and_branch(&self, name: &str, worktree_path: &Path) -> Result<(), GitError>;

    /// Check the branch out in the current working tree, refusing to overwrite
    /// uncommitted work.
    fn switch_branch(&self, name: &str) -> Result<(), GitError>;
}

/// Lists the branches through `git`, recording the call and its answer in `calls`.
pub(crate) fn ask_list<G: GitOperations>(git: &G, calls: &mut Ghost<Seq<GitCall>>) -> (r: Result<Vec<BranchInfo>, GitError>)
    ensures
        final(calls)@ == old(calls)@.push(GitCall::List(listing_of(r))),
{
    let r = git.list_branches();
    proof {
        calls@ = calls@.push(GitCall::List(listing_of(r)));
    }
    r
}

/// Deletes the branch `name` through `git`, recording the call and its answer in `calls`.
pub(crate) fn ask_delete<G: GitOperations>(git: &G, calls: &mut Ghost<Seq<GitCall>>, name: &str) -> (r: Result<(), GitError>)
    ensures
        final(calls)@ == old(calls)@.push(GitCall::Delete(name@, failure_of(r))),
{
    let r = git.delete_branch(name);
    proof {
        calls@ = calls@.push(GitCall::Delete(name@, failure_of(r)));
    }
    r
}

/// Removes the worktree at `worktree_path`, then the branch `name`, through
/// `git`, recording the call and its answer in `calls`.
pub(crate) fn ask_remove_worktree<G: GitOperations>(
    git: &G,
    calls: &mut Ghost<Seq<GitCall>>,
    name: &str,
    worktree_path: &PathBuf,
) -> (r: Result<(), GitError>)
    ensures
        final(calls)@ == old(calls)@.push(GitCall::RemoveWorktree(name@, *worktree_path, failure_of(r))),
{
    let path = as_path(worktree_path);
    let r = git.remove_worktree_and_branch(name, path);
    proof {
        calls@ = calls@.push(GitCall::RemoveWorktree(name@, owned_path(path), failure_of(r)));
    }
    r
}

/// Switches to the branch `name` through `git`, recording the call and its answer in `calls`.
pub(crate) fn ask_switch<G: GitOperations>(git: &G, calls: &mut Ghost<Seq<GitCall>>, name: &str) -> (r: Result<(), GitError>)
    ensures
        final(calls)@ == old(calls)@.push(GitCall::Switch(name@, failure_of(r))),
{
    let r = git.switch_branch(name);
    proof {
        calls@ = calls@.push(GitCall::Switch(name@, failure_of(r)));
    }
    r
}

} // verus!

verus! {

// ---------------------------------------------------------------------------
// The git2 types that the queries below hold. They are opaque here.
// ---------------------------------------------------------------------------

#[verifier::external_type_specification]
#[verifier::external_body]
pub struct ExRepository(git2::Repository);

#[verifier::external_type_specification]
#[verifier::external_body]
pub struct ExGit2Error(git2::Error);

#[verifier::external_type_specification]
#[verifier::external_body]
pub struct ExBranch<'repo>(git2::Branch<'repo>);

#[verifier::external_type_specification]
#[verifier::external_body]
pub struct ExReference<'repo>(git2::Reference<'repo>);

#[verifier::external_type_specification]
#[verifier::external_body]
pub struct ExTree<'repo>(git2::Tree<'repo>);

#[verifier::external_type_specification]
#[verifier::external_body]
pub struct ExWorktree(git2::Worktree);

// ---------------------------------------------------------------------------
// Calls into git2. All of them read or change the repository on disk, so
// nothing is stated of what they return beyond its type.
// ---------------------------------------------------------------------------

/// The text of a libgit2 error, as its `Display` gives it: the message the
/// error was made with, followed by its class and code when they are not the
/// generic ones.
pub uninterp spec fn git_error_text(e: git2::Error) -> Seq<char>;

/// `git2::Error`'s `Display`, through `ToString::to_string`: the text of a
/// libgit2 error; named by `git_error_text`.
#[verifier::external_body]
fn git_message(e: &git2::Error) -> (s: String)
    ensures
        s@ == git_error_text(*e),
{
    e.to_string()
}

/// `Repository::head`: the reference HEAD resolves to.
#[verifier::external_body]
fn repo_head<'repo>(repo: &'repo git2::Repository) -> Result<git2::Reference<'repo>, git2::Error> {
    repo.head()
}

/// `Reference::target`: the object id a direct reference points at, as its bytes.
#[verifier::external_body]
fn reference_target(r: &git2::Reference) -> Option<Vec<u8>> {
    r.target().map(|oid| oid.as_bytes().to_vec())
}

/// `Reference::is_branch`: whether the reference lives under `refs/heads`.
#[verifier::external_body]
fn reference_is_branch(r: &git2::Reference) -> bool {
    r.is_branch()
}

/// `Reference::shorthand`: the reference's short name, when it is UTF-8.
#[verifier::external_body]
fn reference_shorthand(r: &git2::Reference) -> Option<String> {
    r.shorthand().map(|s| s.to_string())
}

/// `Repository::branches` with the local filter: the local branches, each entry
/// as the iterator yields it.
#[verifier::external_body]
fn local_branches<'repo>(repo: &'repo git2::Repository) -> Result<
    Vec<Result<git2::Branch<'repo>, git2::Error>>,
    git2::Error,
> {
    let entries = repo.branches(Some(git2::BranchType::Local))?;
    Ok(entries.map(|entry| entry.map(|(branch, _)| branch)).collect())
}

/// `Branch::name`: the branch's name; `Ok(None)` when it is not UTF-8.
#[verifier::external_body]
fn branch_name(b: &git2::Branch) -> Result<Option<String>, git2::Error> {
    b.name().map(|n| n.map(|s| s.to_string()))
}

/// `Branch::get`: the reference that is the branch.
#[verifier::external_body]
fn branch_reference<'a, 'repo>(b: &'a git2::Branch<'repo>) -> &'a git2::Reference<'repo> {
    b.get()
}

/// `Branch::upstream`: the remote-tracking branch the branch follows.
#[verifier::external_body]
fn branch_upstream<'repo>(b: &git2::Branch<'repo>) -> Result<git2::Branch<'repo>, git2::Error> {
    b.upstream()
}

/// `Branch::is_head`: whether HEAD points at the branch.
#[verifier::external_body]
fn branch_is_head(b: &git2::Branch) -> bool {
    b.is_head()
}

/// `Repository::graph_descendant_of` on two object ids given as bytes
/// (converted with `Oid::from_bytes`): whether `commit` descends from
/// `ancestor` (a commit does not descend from itself), with the two ids git
/// was asked about, as their bytes (`Oid::as_bytes`). `Oid::from_bytes` copies
/// the 20 bytes it accepts, so they are `commit` and `ancestor` themselves.
#[verifier::external_body]
fn graph_descendant_of(repo: &git2::Repository, commit: &Vec<u8>, ancestor: &Vec<u8>) -> (r: Result<
    (bool, Vec<u8>, Vec<u8>),
    git2::Error,
>)
    ensures
        r matches Ok((_, asked_commit, asked_ancestor)) ==> asked_commit@ == commit@ && asked_ancestor@ == ancestor@,
{
    let commit = git2::Oid::from_bytes(commit)?;
    let ancestor = git2::Oid::from_bytes(ancestor)?;
    let answer = repo.graph_descendant_of(commit, ancestor)?;
    Ok((answer, commit.as_bytes().to_vec(), ancestor.as_bytes().to_vec()))
}

/// `Repository::worktrees`: the names of the linked worktrees; `None` for a
/// name that is not UTF-8.
#[verifier::external_body]
fn worktree_names(repo: &git2::Repository) -> Result<Vec<Option<String>>, git2::Error> {
    let names = repo.worktrees()?;
    Ok(names.iter().map(|n| n.map(|s| s.to_string())).collect())
}

/// `Repository::find_worktree`: the linked worktree of that name.
#[verifier::external_body]
fn find_worktree(repo: &git2::Repository, name: &str) -> Result<git2::Worktree, git2::Error> {
    repo.find_worktree(name)
}

/// `Worktree::path`: where the worktree is checked out.
#[verifier::external_body]
fn worktree_path(wt: &git2::Worktree) -> PathBuf {
    wt.path().to_path_buf()
}

/// `Repository::open`: the repository at `path`.
#[verifier::external_body]
fn open_repository(path: &PathBuf) -> Result<git2::Repository, git2::Error> {
    git2::Repository::open(path)
}

/// `Repository::find_branch` with the local branch type.
#[verifier::external_body]
fn find_local_branch<'repo>(repo: &'repo git2::Repository, name: &str) -> Result<git2::Branch<'repo>, git2::Error> {
    repo.find_branch(name, git2::BranchType::Local)
}

/// `Branch::delete`: removes the branch reference.
#[verifier::external_body]
fn delete_branch_reference(b: &mut git2::Branch) -> Result<(), git2::Error> {
    b.delete()
}

/// `Reference::peel_to_tree`: the tree of the commit the reference points at.
#[verifier::external_body]
fn peel_to_tree<'repo>(r: &git2::Reference<'repo>) -> Result<git2::Tree<'repo>, git2::Error> {
    r.peel_to_tree()
}

/// `Repository::checkout_tree` with a `CheckoutBuilder` set to `mode`
/// (`CheckoutBuilder::safe`): updates the index and working tree to `tree`.
#[verifier::external_body]
fn checkout_tree(repo: &git2::Repository, tree: &git2::Tree, mode: CheckoutMode) -> Result<(), git2::Error> {
    let mut builder = git2::build::CheckoutBuilder::new();
    match mode {
        CheckoutMode::Safe => builder.safe(),
    };
    repo.checkout_tree(tree.as_object(), Some(&mut builder))
}

/// `Repository::set_head`: makes HEAD point at `refname`.
#[verifier::external_body]
fn set_head(repo: &git2::Repository, refname: &str) -> Result<(), git2::Error> {
    repo.set_head(refname)
}

} // verus!

verus! {

// ---------------------------------------------------------------------------
// The model of the branch list.
// ---------------------------------------------------------------------------

/// What git reports of one local branch, before its worktree is looked up.
pub struct BranchFacts {
    /// The name, or `None` when it is not valid UTF-8.
    pub name: Option<String>,
    pub is_head: bool,
    pub is_merged: bool,
}

/// The worktree of the branch `name`: the path of the last entry for it.
pub open spec fn worktree_of(map: Seq<(String, PathBuf)>, name: Seq<char>) -> Option<PathBuf>
    decreases map.len(),
{
    if map.len() == 0 {
        None
    } else if map.last().0@ == name {
        Some(map.last().1)
    } else {
        worktree_of(map.drop_last(), name)
    }
}

/// One list entry for each branch whose name is valid UTF-8, in order, with its
/// worktree looked up in `map`.
pub open spec fn branch_entries(facts: Seq<BranchFacts>, map: Seq<(String, PathBuf)>) -> Seq<BranchInfo>
    decreases facts.len(),
{
    if facts.len() == 0 {
        Seq::empty()
    } else {
        let rest = branch_entries(facts.drop_last(), map);
        match facts.last().name {
            Some(n) => rest.push(
                BranchInfo {
                    name: n,
                    is_head: facts.last().is_head,
                    is_merged: facts.last().is_merged,
                    worktree: worktree_of(map, n@),
                },
            ),
            None => rest,
        }
    }
}

// ---------------------------------------------------------------------------
// Building the list.
// ---------------------------------------------------------------------------

/// The worktree of the branch `name` in `map` (the last entry for it wins).
pub fn lookup_worktree(map: &Vec<(String, PathBuf)>, name: &String) -> (r: Option<PathBuf>)
    ensures
        r == worktree_of(map@, name@),
{
    let mut j: usize = map.len();
    assert(map@.take(j as int) =~= map@);
    while j > 0
        invariant
            j <= map.len(),
            worktree_of(map@, name@) == worktree_of(map@.take(j as int), name@),
        decreases j,
    {
        let ghost prefix = map@.take(j as int);
        assert(prefix.drop_last() =~= map@.take(j - 1));
        assert(prefix.last() == map@[j - 1]);
        if map[j - 1].0 == *name {
            return Some(clone_path(&map[j - 1].1));
        }
        j = j - 1;
    }
    None
}

/// The branch list from what git reported: the branches with a valid name,
/// each with its worktree from `worktrees`, in order of their names.
pub fn assemble_branch_list(facts: &Vec<BranchFacts>, worktrees: &Vec<(String, PathBuf)>) -> (list: Vec<BranchInfo>)
    ensures
        sorted_by_name(list@),
        list@.to_multiset() == branch_entries(facts@, worktrees@).to_multiset(),
        list.len() == branch_entries(facts@, worktrees@).len(),
{
    let mut out: Vec<BranchInfo> = Vec::new();
    let mut k: usize = 0;
    while k < facts.len()
        invariant
            k <= facts.len(),
            out@ == branch_entries(facts@.take(k as int), worktrees@),
        decreases facts.len() - k,
    {
        assert(facts@.take(k + 1).drop_last() =~= facts@.take(k as int));
        assert(facts@.take(k + 1).last() == facts@[k as int]);
        match &facts[k].name {
            Some(n) => {
                let name = n.clone();
                let worktree = lookup_worktree(worktrees, &name);
                out.push(
                    BranchInfo {
                        name,
                        is_head: facts[k].is_head,
                        is_merged: facts[k].is_merged,
                        worktree,
                    },
                );
            },
            None => {},
        }
        k = k + 1;
    }
    assert(facts@.take(facts.len() as int) =~= facts@);
    sort_by_name(out)
}

/// Whether two object ids are the same.
fn same_object(a: &Vec<u8>, b: &Vec<u8>) -> (r: bool)
    ensures
        r == (a@ == b@),
{
    if a.len() != b.len() {
        return false;
    }
    let mut i: usize = 0;
    while i < a.len()
        invariant
            a.len() == b.len(),
            i <= a.len(),
            forall|j: int| 0 <= j < i ==> a@[j] == b@[j],
        decreases a.len() - i,
    {
        if a[i] != b[i] {
            return false;
        }
        i = i + 1;
    }
    assert(a@ =~= b@);
    true
}

/// Whether `tip` is reachable from `from`, given git's answer to the question
/// whether `from` descends from `tip`: equal tips are, and otherwise only a
/// descendant answered `Ok(true)`; a failed query counts as no.
pub fn reachable_given(from: &Vec<u8>, tip: &Vec<u8>, descends: &Result<bool, git2::Error>) -> (r: bool)
    ensures
        r == (from@ == tip@ || descends matches Ok(true)),
{
    if same_object(from, tip) {
        return true;
    }
    match descends {
        Ok(answer) => *answer,
        Err(_) => false,
    }
}

/// The bytes of an object id, when there is one.
pub open spec fn tip_of(t: Option<Vec<u8>>) -> Option<Seq<u8>> {
    match t {
        Some(v) => Some(v@),
        None => None,
    }
}

/// The merged rule: a branch with a tip is fully merged when its tip is
/// reachable from HEAD, or from the branch's upstream, each counted only when
/// that tip exists.
pub open spec fn merged_rule(
    head_tip: Option<Seq<u8>>,
    upstream_tip: Option<Seq<u8>>,
    tip: Option<Seq<u8>>,
    from_head: bool,
    from_upstream: bool,
) -> bool {
    &&& tip is Some
    &&& (head_tip is Some && from_head) || (upstream_tip is Some && from_upstream)
}

/// What git reports of one branch, with its merged status decided by the
/// merged rule from the tips and the reachability answers.
pub fn branch_facts(
    name: Option<String>,
    is_head: bool,
    head_tip: &Option<Vec<u8>>,
    upstream_tip: &Option<Vec<u8>>,
    tip: &Option<Vec<u8>>,
    from_head: bool,
    from_upstream: bool,
) -> (f: BranchFacts)
    ensures
        f.name == name,
        f.is_head == is_head,
        f.is_merged == merged_rule(tip_of(*head_tip), tip_of(*upstream_tip), tip_of(*tip), from_head, from_upstream),
{
    let is_merged = tip.is_some() && ((head_tip.is_some() && from_head) || (upstream_tip.is_some() && from_upstream));
    BranchFacts { name, is_head, is_merged }
}

/// Whether a worktree, checked out at `path`, holds a branch: when its HEAD is
/// a branch with a readable short name, the entry `(name, path)`.
pub fn worktree_entry(path: PathBuf, head_is_branch: bool, shorthand: Option<String>) -> (e: Option<(String, PathBuf)>)
    ensures
        e == (if head_is_branch && shorthand is Some {
            Some((shorthand->0, path))
        } else {
            None::<(String, PathBuf)>
        }),
{
    if head_is_branch {
        match shorthand {
            Some(name) => Some((name, path)),
            None => None,
        }
    } else {
        None
    }
}

/// The error of a failed git query, with libgit2's message.
fn query_failed(e: &git2::Error) -> (r: GitError)
    ensures
        r.message@ == git_error_text(*e),
{
    GitError::from_message(git_message(e))
}

/// Is `tip` an ancestor of (or equal to) `from`? This is git's rule for "fully
/// merged": a branch is safe to delete when its tip is reachable from where we
/// are. Equal tips need no query; otherwise git is asked whether `from`
/// descends from `tip`, and when it cannot tell, the answer is no
/// (`reachable_given`). The call is recorded in `steps`; git's answer is
/// handed back beside the result.
fn is_reachable(repo: &git2::Repository, from: &Vec<u8>, tip: &Vec<u8>, steps: &mut Ghost<Seq<RepoStep>>) -> (r: (
    bool,
    Ghost<Option<bool>>,
))
    ensures
        final(steps)@ == old(steps)@ + descends_steps(Some(from@), Some(tip@), r.1@),
        r.0 == reached(Some(from@), Some(tip@), r.1@),
{
    if same_object(from, tip) {
        assert(steps@ =~= old(steps)@ + descends_steps(Some(from@), Some(tip@), None));
        return (true, Ghost(None));
    }
    let asked = graph_descendant_of(repo, from, tip);
    // the step records the ids git was asked about, as it reports them
    let ghost answer = match asked {
        Ok((b, _, _)) => Some(b),
        Err(_) => None,
    };
    proof {
        let step = match &asked {
            Ok((b, c, a)) => RepoStep::Descends(c@, a@, Some(*b)),
            Err(_) => RepoStep::Descends(from@, tip@, None),
        };
        steps@ = steps@.push(step);
    }
    let descends: Result<bool, git2::Error> = match asked {
        Ok((b, _, _)) => Ok(b),
        Err(e) => Err(e),
    };
    assert(steps@ =~= old(steps)@ + descends_steps(Some(from@), Some(tip@), answer));
    (reachable_given(from, tip, &descends), Ghost(answer))
}

/// Reads where HEAD points, recording the call.
fn head_target(repo: &git2::Repository, steps: &mut Ghost<Seq<RepoStep>>) -> (r: Option<Vec<u8>>)
    ensures
        final(steps)@ == old(steps)@.push(RepoStep::HeadTarget(tip_of(r))),
{
    let r = match repo_head(repo) {
        Ok(head) => reference_target(&head),
        Err(_) => None,
    };
    proof {
        steps@ = steps@.push(RepoStep::HeadTarget(tip_of(r)));
    }
    r
}

/// The names listed, or the text of the error.
pub open spec fn names_answer(r: Result<Vec<Option<String>>, git2::Error>) -> Result<Seq<Option<String>>, Seq<char>> {
    match r {
        Ok(v) => Ok(v@),
        Err(e) => Err(git_error_text(e)),
    }
}

/// Lists the linked worktrees, recording the call.
fn list_worktrees(repo: &git2::Repository, steps: &mut Ghost<Seq<RepoStep>>) -> (r: Result<Vec<Option<String>>, git2::Error>)
    ensures
        final(steps)@ == old(steps)@.push(RepoStep::ListWorktrees(names_answer(r))),
{
    let r = worktree_names(repo);
    proof {
        steps@ = steps@.push(RepoStep::ListWorktrees(names_answer(r)));
    }
    r
}

/// Looks up the linked worktree `name` and where it is checked out, recording
/// the lookup.
fn find_worktree_path(repo: &git2::Repository, name: &str, steps: &mut Ghost<Seq<RepoStep>>) -> (r: Option<PathBuf>)
    ensures
        final(steps)@ == old(steps)@.push(RepoStep::FindWorktree(name@, r)),
{
    let r = match find_worktree(repo, name) {
        Ok(wt) => Some(worktree_path(&wt)),
        Err(_) => None,
    };
    proof {
        steps@ = steps@.push(RepoStep::FindWorktree(name@, r));
    }
    r
}

/// Opens the repository checked out at `path` and reads its HEAD: whether it is
/// a branch, and its short name. Records the call.
fn worktree_head(path: &PathBuf, steps: &mut Ghost<Seq<RepoStep>>) -> (r: Option<(bool, Option<String>)>)
    ensures
        final(steps)@ == old(steps)@.push(RepoStep::WorktreeHead(*path, r)),
{
    let r = match open_repository(path) {
        Ok(wt_repo) => match repo_head(&wt_repo) {
            Ok(head) => Some((reference_is_branch(&head), reference_shorthand(&head))),
            Err(_) => None,
        },
        Err(_) => None,
    };
    proof {
        steps@ = steps@.push(RepoStep::WorktreeHead(*path, r));
    }
    r
}

/// Branch name -> worktree path, for the branches checked out in linked
/// worktrees, recording the calls in `steps`; git's answers are handed back
/// beside the result. The worktrees are listed, then each one with a UTF-8
/// name is looked up and, when found, opened where it is checked out to read
/// its HEAD; a worktree that cannot be found or opened, or whose HEAD is not a
/// branch with a readable name, gives no entry. It fails only when the
/// worktrees cannot be listed, with libgit2's message.
fn worktree_branch_map(repo: &git2::Repository, steps: &mut Ghost<Seq<RepoStep>>) -> (r: (
    Result<Vec<(String, PathBuf)>, GitError>,
    Ghost<Result<Seq<Option<String>>, Seq<char>>>,
    Ghost<Seq<WorktreeLook>>,
))
    ensures
        match r.1@ {
            Ok(names) => {
                &&& final(steps)@ == old(steps)@.push(RepoStep::ListWorktrees(r.1@)) + worktree_steps(names, r.2@)
                &&& r.2@.len() == names.len()
                &&& r.0 matches Ok(map) && map@ == worktree_map_of(names, r.2@)
            },
            Err(text) => {
                &&& final(steps)@ == old(steps)@.push(RepoStep::ListWorktrees(r.1@))
                &&& r.0 matches Err(e) && e.message@ == text
            },
        },
{
    let listed = list_worktrees(repo, steps);
    let ghost answer = names_answer(listed);
    let names = match listed {
        Ok(names) => names,
        Err(e) => return (Err(query_failed(&e)), Ghost(answer), Ghost(Seq::empty())),
    };
    let ghost start = steps@;
    let ghost mut looks: Seq<WorktreeLook> = Seq::empty();
    let mut map: Vec<(String, PathBuf)> = Vec::new();
    let mut k: usize = 0;
    while k < names.len()
        invariant
            k <= names.len(),
            looks.len() == k,
            steps@ == start + worktree_steps(names@.take(k as int), looks),
            map@ == worktree_map_of(names@.take(k as int), looks),
        decreases names.len() - k,
    {
        let ghost before = steps@;
        let ghost mut look = WorktreeLook { found: None, head: None };
        if let Some(wt_name) = &names[k] {
            let found = find_worktree_path(repo, wt_name.as_str(), steps);
            proof {
                look = WorktreeLook { found: found, head: None };
            }
            if let Some(path) = found {
                // open the worktree as a repository to learn which branch its HEAD is on
                let head = worktree_head(&path, steps);
                proof {
                    look = WorktreeLook { found: Some(path), head: head };
                }
                if let Some((is_branch, shorthand)) = head {
                    if let Some(entry) = worktree_entry(path, is_branch, shorthand) {
                        map.push(entry);
                    }
                }
            }
            assert(steps@ =~= before + look_steps(wt_name@, look));
        }
        proof {
            let taken = names@.take(k + 1);
            let ghost old_looks = looks;
            assert(taken.drop_last() =~= names@.take(k as int));
            assert(taken.last() == names@[k as int]);
            assert(looks.push(look).drop_last() =~= looks);
            looks = looks.push(look);
            assert(worktree_steps(taken, looks) == worktree_steps(names@.take(k as int), old_looks) + match names@[k as int] {
                Some(n) => look_steps(n@, look),
                None => Seq::empty(),
            }) by {
                if names@[k as int] is None {
                    assert(worktree_steps(names@.take(k as int), old_looks) + Seq::empty() =~= worktree_steps(names@.take(k as int), old_looks));
                }
            }
            assert(steps@ =~= start + worktree_steps(taken, looks));
        }
        k = k + 1;
    }
    assert(names@.take(names.len() as int) =~= names@);
    (Ok(map), Ghost(answer), Ghost(looks))
}

/// The name read, or the text of the error.
pub open spec fn name_answer(r: Result<Option<String>, git2::Error>) -> Result<Option<String>, Seq<char>> {
    match r {
        Ok(n) => Ok(n),
        Err(e) => Err(git_error_text(e)),
    }
}

/// Reads the name of `branch`, recording the call.
fn read_branch_name(branch: &git2::Branch, steps: &mut Ghost<Seq<RepoStep>>) -> (r: Result<Option<String>, git2::Error>)
    ensures
        final(steps)@ == old(steps)@.push(RepoStep::BranchName(name_answer(r))),
{
    let r = branch_name(branch);
    proof {
        steps@ = steps@.push(RepoStep::BranchName(name_answer(r)));
    }
    r
}

/// Reads where `branch` points, recording the call.
fn branch_tip(branch: &git2::Branch, steps: &mut Ghost<Seq<RepoStep>>) -> (r: Option<Vec<u8>>)
    ensures
        final(steps)@ == old(steps)@.push(RepoStep::BranchTip(tip_of(r))),
{
    let r = reference_target(branch_reference(branch));
    proof {
        steps@ = steps@.push(RepoStep::BranchTip(tip_of(r)));
    }
    r
}

/// Reads where the upstream of `branch` points, when it has one, recording
/// the call.
fn upstream_tip(branch: &git2::Branch, steps: &mut Ghost<Seq<RepoStep>>) -> (r: Option<Vec<u8>>)
    ensures
        final(steps)@ == old(steps)@.push(RepoStep::UpstreamTip(tip_of(r))),
{
    let r = match branch_upstream(branch) {
        Ok(upstream) => reference_target(branch_reference(&upstream)),
        Err(_) => None,
    };
    proof {
        steps@ = steps@.push(RepoStep::UpstreamTip(tip_of(r)));
    }
    r
}

/// Reads whether HEAD points at `branch`, recording the call.
fn branch_head_flag(branch: &git2::Branch, steps: &mut Ghost<Seq<RepoStep>>) -> (r: bool)
    ensures
        final(steps)@ == old(steps)@.push(RepoStep::BranchIsHead(r)),
{
    let r = branch_is_head(branch);
    proof {
        steps@ = steps@.push(RepoStep::BranchIsHead(r));
    }
    r
}

/// Whether `tip` is reachable from `from`, both optional: asked of git only
/// when both exist (see `is_reachable`).
fn reachable_from(
    repo: &git2::Repository,
    from: &Option<Vec<u8>>,
    tip: &Option<Vec<u8>>,
    steps: &mut Ghost<Seq<RepoStep>>,
) -> (r: (bool, Ghost<Option<bool>>))
    ensures
        final(steps)@ == old(steps)@ + descends_steps(tip_of(*from), tip_of(*tip), r.1@),
        r.0 == reached(tip_of(*from), tip_of(*tip), r.1@),
{
    match (from, tip) {
        (Some(f), Some(t)) => is_reachable(repo, f, t, steps),
        _ => {
            assert(steps@ =~= old(steps)@ + descends_steps(tip_of(*from), tip_of(*tip), None));
            (false, Ghost(None))
        },
    }
}

/// Reads one entry of the branch listing, HEAD pointing at `head_tip`,
/// recording the calls in `steps`; git's answers are handed back beside the
/// result. A branch whose name is not UTF-8 is read no further and tells
/// nothing (its facts have no name).
fn read_branch(
    repo: &git2::Repository,
    entry: &Result<git2::Branch, git2::Error>,
    head_tip: &Option<Vec<u8>>,
    steps: &mut Ghost<Seq<RepoStep>>,
) -> (r: (Result<BranchFacts, GitError>, Ghost<BranchLook>))
    ensures
        final(steps)@ == old(steps)@ + branch_steps(tip_of(*head_tip), r.1@),
        match r.0 {
            Ok(f) => branch_failure(r.1@) is None && f == facts_of(tip_of(*head_tip), r.1@),
            Err(e) => branch_failure(r.1@) == Some(e.message@),
        },
{
    let ghost start = steps@;
    let ghost head = tip_of(*head_tip);
    let ghost mut look = BranchLook {
        entry: None,
        name: Ok(None),
        tip: None,
        upstream_tip: None,
        from_head: None,
        from_upstream: None,
        is_head: false,
    };
    let branch = match entry {
        Ok(branch) => branch,
        Err(e) => {
            proof {
                look.entry = Some(git_error_text(*e));
                steps@ = steps@.push(RepoStep::BranchEntry(look.entry));
            }
            assert(steps@ =~= start + branch_steps(head, look));
            return (Err(query_failed(e)), Ghost(look));
        },
    };
    proof {
        steps@ = steps@.push(RepoStep::BranchEntry(None));
    }
    let read = read_branch_name(branch, steps);
    proof {
        look.name = name_answer(read);
    }
    let name = match read {
        Ok(Some(name)) => name,
        Ok(None) => {
            // a name that is not UTF-8: the branch is skipped
            assert(steps@ =~= start + branch_steps(head, look));
            return (Ok(BranchFacts { name: None, is_head: false, is_merged: false }), Ghost(look));
        },
        Err(e) => {
            assert(steps@ =~= start + branch_steps(head, look));
            return (Err(query_failed(&e)), Ghost(look));
        },
    };
    let tip = branch_tip(branch, steps);
    let upstream = upstream_tip(branch, steps);
    let (from_head, Ghost(head_answer)) = reachable_from(repo, head_tip, &tip, steps);
    let (from_upstream, Ghost(upstream_answer)) = reachable_from(repo, &upstream, &tip, steps);
    let is_head = branch_head_flag(branch, steps);
    proof {
        look.tip = tip_of(tip);
        look.upstream_tip = tip_of(upstream);
        look.from_head = head_answer;
        look.from_upstream = upstream_answer;
        look.is_head = is_head;
    }
    assert(steps@ =~= start + branch_steps(head, look));
    let facts = branch_facts(Some(name), is_head, head_tip, &upstream, &tip, from_head, from_upstream);
    (Ok(facts), Ghost(look))
}

/// The count of entries listed, or the text of the error.
pub open spec fn count_answer(r: Result<Vec<Result<git2::Branch, git2::Error>>, git2::Error>) -> Result<nat, Seq<char>> {
    match r {
        Ok(v) => Ok(v.len() as nat),
        Err(e) => Err(git_error_text(e)),
    }
}

/// Lists the local branches, recording the call.
fn list_local_branches<'repo>(repo: &'repo git2::Repository, steps: &mut Ghost<Seq<RepoStep>>) -> (r: Result<
    Vec<Result<git2::Branch<'repo>, git2::Error>>,
    git2::Error,
>)
    ensures
        final(steps)@ == old(steps)@.push(RepoStep::ListBranches(count_answer(r))),
{
    let r = local_branches(repo);
    proof {
        steps@ = steps@.push(RepoStep::ListBranches(count_answer(r)));
    }
    r
}

/// The local branches, with merged status and worktree attachment resolved,
/// in order of their names, recording the calls into libgit2 in `steps`.
/// HEAD is read, the worktrees mapped (`worktree_branch_map`), the branches
/// listed and each entry read in turn (`read_branch`); the first failure ends
/// the listing, with libgit2's message. Otherwise the list holds one entry per
/// branch with a UTF-8 name, with what git answered for it and its worktree.
pub fn list_branches_traced(repo: &git2::Repository, steps: &mut Ghost<Seq<RepoStep>>) -> (r: Result<
    Vec<BranchInfo>,
    GitError,
>)
    ensures
        exists|l: ListingLook|
            {
                &&& final(steps)@ == old(steps)@ + #[trigger] listing_steps(l)
                &&& listing_shape(l)
                &&& match r {
                    Ok(list) => {
                        &&& listing_failure(l) is None
                        &&& sorted_by_name(list@)
                        &&& list@.to_multiset() == listing_entries(l).to_multiset()
                    },
                    Err(e) => listing_failure(l) == Some(e.message@),
                }
            },
{
    let ghost start = steps@;
    let head_oid: Option<Vec<u8>> = head_target(repo, steps);
    let ghost head = tip_of(head_oid);
    let (mapped, Ghost(names_answered), Ghost(worktree_looks)) = worktree_branch_map(repo, steps);
    let ghost mut l = ListingLook {
        head_tip: head,
        worktree_names: names_answered,
        worktrees: worktree_looks,
        branch_count: Ok(0),
        branches: Seq::empty(),
    };
    let worktrees = match mapped {
        Ok(map) => map,
        Err(e) => {
            assert(steps@ =~= start + listing_steps(l));
            assert(listing_shape(l));
            assert(listing_failure(l) == Some(e.message@));
            return Err(e);
        },
    };
    let ghost names = match names_answered {
        Ok(n) => n,
        Err(_) => Seq::empty(),
    };
    let listed = list_local_branches(repo, steps);
    proof {
        l.branch_count = count_answer(listed);
    }
    let ghost pre = (seq![RepoStep::HeadTarget(head), RepoStep::ListWorktrees(names_answered)] + worktree_steps(
        names,
        worktree_looks,
    )).push(RepoStep::ListBranches(l.branch_count));
    assert(steps@ =~= start + pre);
    let entries = match listed {
        Ok(entries) => entries,
        Err(e) => {
            assert(steps@ =~= start + listing_steps(l));
            let r = Err(query_failed(&e));
            assert(listing_shape(l));
            assert(r matches Err(err) && listing_failure(l) == Some(err.message@));
            return r;
        },
    };
    let ghost listed_steps = steps@;
    let mut facts: Vec<BranchFacts> = Vec::new();
    let mut k: usize = 0;
    while k < entries.len()
        invariant
            k <= entries.len(),
            l.branches.len() == k,
            l.head_tip == head,
            head == tip_of(head_oid),
            l.worktree_names == Ok::<Seq<Option<String>>, Seq<char>>(names),
            l.worktrees == worktree_looks,
            worktree_looks.len() == names.len(),
            worktrees@ == worktree_map_of(names, worktree_looks),
            l.branch_count == Ok::<nat, Seq<char>>(entries.len() as nat),
            pre == (seq![RepoStep::HeadTarget(head), RepoStep::ListWorktrees(names_answered)] + worktree_steps(
                names,
                worktree_looks,
            )).push(RepoStep::ListBranches(l.branch_count)),
            names_answered == l.worktree_names,
            listed_steps == start + pre,
            start == old(steps)@,
            forall|i: int| 0 <= i < k ==> branch_failure(#[trigger] l.branches[i]) is None,
            steps@ == listed_steps + branches_steps(head, l.branches),
            facts@ == facts_all(head, l.branches),
        decreases entries.len() - k,
    {
        let (read, Ghost(look)) = read_branch(repo, &entries[k], &head_oid, steps);
        proof {
            let ghost read_before = l.branches;
            assert(l.branches.push(look).drop_last() =~= l.branches);
            l.branches = l.branches.push(look);
            assert(branches_steps(head, l.branches) == branches_steps(head, read_before) + branch_steps(head, look));
            assert(steps@ =~= listed_steps + branches_steps(head, l.branches));
            assert(listing_steps(l) =~= pre + branches_steps(head, l.branches));
        }
        match read {
            Ok(f) => facts.push(f),
            Err(e) => {
                assert(steps@ =~= start + listing_steps(l));
                assert(listing_shape(l));
                assert(listing_failure(l) == Some(e.message@));
                return Err(e);
            },
        }
        assert(facts@ =~= facts_all(head, l.branches));
        k = k + 1;
    }
    assert(listing_steps(l) =~= pre + branches_steps(head, l.branches));
    let list = assemble_branch_list(&facts, &worktrees);
    assert(steps@ =~= start + listing_steps(l));
    assert(list@.to_multiset() == listing_entries(l).to_multiset());
    assert(listing_shape(l));
    assert(listing_failure(l) is None);
    Ok(list)
}

/// The local branches, with merged status and worktree attachment resolved,
/// in order of their names. Branches whose name is not UTF-8 are skipped. The
/// calls it makes are those of `list_branches_traced`.
pub fn list_branches(repo: &git2::Repository) -> (r: Result<Vec<BranchInfo>, GitError>)
    ensures
        r matches Ok(list) ==> sorted_by_name(list@),
{
    let mut steps: Ghost<Seq<RepoStep>> = Ghost(Seq::empty());
    list_branches_traced(repo, &mut steps)
}

/// Looks up the local branch `name`, recording the lookup.
fn find_branch_traced<'repo>(
    repo: &'repo git2::Repository,
    name: &str,
    steps: &mut Ghost<Seq<RepoStep>>,
) -> (r: Result<git2::Branch<'repo>, git2::Error>)
    ensures
        final(steps)@ == old(steps)@.push(RepoStep::FindBranch(name@, r is Ok)),
{
    let r = find_local_branch(repo, name);
    proof {
        steps@ = steps@.push(RepoStep::FindBranch(name@, r is Ok));
    }
    r
}

/// Deletes the branch `branch`, just found, recording the call.
fn delete_found_traced(branch: &mut git2::Branch, steps: &mut Ghost<Seq<RepoStep>>) -> (r: Result<(), git2::Error>)
    ensures
        final(steps)@ == old(steps)@.push(RepoStep::DeleteFound(r is Ok)),
{
    let r = delete_branch_reference(branch);
    proof {
        steps@ = steps@.push(RepoStep::DeleteFound(r is Ok));
    }
    r
}

/// The text of a failed call's error, or `None` when it succeeded.
pub open spec fn error_text<T>(r: Result<T, git2::Error>) -> Option<Seq<char>> {
    match r {
        Ok(_) => None,
        Err(e) => Some(git_error_text(e)),
    }
}

/// Reads the tree of the branch `branch`, just found, recording the call.
fn peel_traced<'repo>(branch: &git2::Branch<'repo>, steps: &mut Ghost<Seq<RepoStep>>) -> (r: Result<git2::Tree<'repo>, git2::Error>)
    ensures
        final(steps)@ == old(steps)@.push(RepoStep::PeelToTree(error_text(r))),
{
    let r = peel_to_tree(branch_reference(branch));
    proof {
        steps@ = steps@.push(RepoStep::PeelToTree(error_text(r)));
    }
    r
}

/// Checks the working tree out to `tree` in `mode`, recording the call.
fn checkout_traced(
    repo: &git2::Repository,
    tree: &git2::Tree,
    mode: CheckoutMode,
    steps: &mut Ghost<Seq<RepoStep>>,
) -> (r: Result<(), git2::Error>)
    ensures
        final(steps)@ == old(steps)@.push(RepoStep::Checkout(mode, error_text(r))),
{
    let r = checkout_tree(repo, tree, mode);
    proof {
        steps@ = steps@.push(RepoStep::Checkout(mode, error_text(r)));
    }
    r
}

/// Points HEAD at `refname`, recording the call.
fn set_head_traced(repo: &git2::Repository, refname: &str, steps: &mut Ghost<Seq<RepoStep>>) -> (r: Result<(), git2::Error>)
    ensures
        final(steps)@ == old(steps)@.push(RepoStep::SetHead(refname@, error_text(r))),
{
    let r = set_head(repo, refname);
    proof {
        steps@ = steps@.push(RepoStep::SetHead(refname@, error_text(r)));
    }
    r
}

/// Deletes the local branch `name`, recording its calls into libgit2 in
/// `steps`: it looks the branch up and deletes it only when it was found. A
/// failed lookup answers that the branch was not found; a failed deletion,
/// that it could not be deleted.
pub fn delete_branch_traced(repo: &git2::Repository, name: &str, steps: &mut Ghost<Seq<RepoStep>>) -> (r: Result<(), GitError>)
    ensures
        exists|found: bool, deleted: bool|
            {
                &&& final(steps)@ == old(steps)@ + #[trigger] delete_steps(name@, found, deleted)
                &&& failure_of(r) == delete_failure(name@, found, deleted)
            },
{
    let ghost start = steps@;
    let mut branch = match find_branch_traced(repo, name, steps) {
        Ok(branch) => branch,
        Err(_) => {
            let r = Err(branch_error("branch '", name, "' not found"));
            assert(steps@ =~= start + delete_steps(name@, false, false));
            assert(failure_of(r) == delete_failure(name@, false, false));
            return r;
        },
    };
    let r = match delete_found_traced(&mut branch, steps) {
        Ok(()) => Ok(()),
        Err(_) => Err(branch_error("failed to delete branch '", name, "'")),
    };
    assert(steps@ =~= start + delete_steps(name@, true, r is Ok));
    assert(failure_of(r) == delete_failure(name@, true, r is Ok));
    r
}

/// Deletes the local branch `name`. libgit2 does not enforce the merged check,
/// so this serves both the safe and the force paths: the caller decides which
/// branches reach here. The calls it makes are those of `delete_branch_traced`.
pub fn delete_branch(repo: &git2::Repository, name: &str) -> (r: Result<(), GitError>)
    ensures
        r matches Err(e) ==> e.message@ == not_found_text(name@) || e.message@ == delete_failed_text(name@),
{
    let mut steps: Ghost<Seq<RepoStep>> = Ghost(Seq::empty());
    delete_branch_traced(repo, name, &mut steps)
}

/// Finishes removing a branch checked out in a worktree once `git worktree
/// remove` has run, recording its calls into libgit2 in `steps`: when the
/// removal failed it says so and touches nothing; otherwise it deletes the
/// branch `name`, exactly as `delete_branch_traced` does.
pub fn delete_after_worktree_removal_traced(
    repo: &git2::Repository,
    name: &str,
    worktree_removed: bool,
    worktree_display: &str,
    steps: &mut Ghost<Seq<RepoStep>>,
) -> (r: Result<(), GitError>)
    ensures
        !worktree_removed ==> final(steps)@ == old(steps)@ && failure_of(r) == Some(
            "`git worktree remove "@ + worktree_display@ + "` failed"@,
        ),
        worktree_removed ==> exists|found: bool, deleted: bool|
            {
                &&& final(steps)@ == old(steps)@ + #[trigger] delete_steps(name@, found, deleted)
                &&& failure_of(r) == delete_failure(name@, found, deleted)
            },
{
    if !worktree_removed {
        return Err(branch_error("`git worktree remove ", worktree_display, "` failed"));
    }
    // the worktree no longer holds the branch: it can be deleted now
    delete_branch_traced(repo, name, steps)
}

/// Finishes removing a branch checked out in a worktree once `git worktree
/// remove` has run: if it failed, says so; otherwise deletes the branch. The
/// calls it makes are those of `delete_after_worktree_removal_traced`.
pub fn delete_after_worktree_removal(
    repo: &git2::Repository,
    name: &str,
    worktree_removed: bool,
    worktree_display: &str,
) -> (r: Result<(), GitError>)
    ensures
        !worktree_removed ==> (r matches Err(e) && e.message@ == "`git worktree remove "@ + worktree_display@
            + "` failed"@),
        worktree_removed ==> (r matches Err(e) ==> e.message@ == not_found_text(name@) || e.message@
            == delete_failed_text(name@)),
{
    let mut steps: Ghost<Seq<RepoStep>> = Ghost(Seq::empty());
    delete_after_worktree_removal_traced(repo, name, worktree_removed, worktree_display, &mut steps)
}

/// Checks the local branch `name` out in the working tree and points HEAD at
/// it, recording its calls into libgit2 in `steps`. Each call is made only
/// when the one before it succeeded, and the checkout is a safe one: HEAD is
/// pointed at `refs/heads/<name>` only after the working tree has followed, so
/// a checkout refused for uncommitted work leaves HEAD where it was. The
/// answer names the first failure.
pub fn switch_branch_traced(repo: &git2::Repository, name: &str, steps: &mut Ghost<Seq<RepoStep>>) -> (r: Result<(), GitError>)
    ensures
        exists|found: bool, peel: Option<Seq<char>>, checkout: Option<Seq<char>>, set: Option<Seq<char>>|
            {
                &&& final(steps)@ == old(steps)@ + #[trigger] switch_steps(name@, found, peel, checkout, set)
                &&& failure_of(r) == switch_failure(name@, found, peel, checkout, set)
            },
{
    let ghost start = steps@;
    let branch = match find_branch_traced(repo, name, steps) {
        Ok(branch) => branch,
        Err(_) => {
            let r = Err(branch_error("branch '", name, "' not found"));
            assert(steps@ =~= start + switch_steps(name@, false, None, None, None));
            assert(failure_of(r) == switch_failure(name@, false, None, None, None));
            return r;
        },
    };
    let tree = match peel_traced(&branch, steps) {
        Ok(tree) => tree,
        Err(e) => {
            let r = Err(switch_error(name, &e));
            let ghost peel = Some(git_error_text(e));
            assert(steps@ =~= start + switch_steps(name@, true, peel, None, None));
            assert(failure_of(r) == switch_failure(name@, true, peel, None, None));
            return r;
        },
    };
    // a safe checkout: HEAD moves only once the working tree has followed
    if let Err(e) = checkout_traced(repo, &tree, CheckoutMode::Safe, steps) {
        let r = Err(switch_error(name, &e));
        let ghost checkout = Some(git_error_text(e));
        assert(steps@ =~= start + switch_steps(name@, true, None, checkout, None));
        assert(failure_of(r) == switch_failure(name@, true, None, checkout, None));
        return r;
    }
    let refname = branch_refname_string(name);
    let set = set_head_traced(repo, refname.as_str(), steps);
    let ghost set_text = error_text(set);
    let r = match set {
        Ok(()) => Ok(()),
        Err(e) => Err(switch_error(name, &e)),
    };
    assert(steps@ =~= start + switch_steps(name@, true, None, None, set_text));
    assert(failure_of(r) == switch_failure(name@, true, None, None, set_text));
    r
}

/// Checks the local branch `name` out in the working tree and points HEAD at
/// it. The checkout is a safe one: when it would overwrite uncommitted work it
/// fails, naming the branch, and HEAD stays where it was. The calls it makes
/// are those of `switch_branch_traced`.
pub fn switch_branch(repo: &git2::Repository, name: &str) -> (r: Result<(), GitError>)
    ensures
        r matches Err(e) ==> e.message@ == not_found_text(name@) || exists|detail: Seq<char>|
            e.message@ == #[trigger] switch_failed_text(name@, detail),
{
    let mut steps: Ghost<Seq<RepoStep>> = Ghost(Seq::empty());
    let r = switch_branch_traced(repo, name, &mut steps);
    proof {
        let (found, peel, checkout, set) = choose|found: bool, peel: Option<Seq<char>>, checkout: Option<Seq<char>>, set: Option<Seq<char>>|
            {
                &&& steps@ == Seq::<RepoStep>::empty() + #[trigger] switch_steps(name@, found, peel, checkout, set)
                &&& failure_of(r) == switch_failure(name@, found, peel, checkout, set)
            };
        if found && peel is Some {
            assert(failure_of(r) == Some(switch_failed_text(name@, peel->0)));
        } else if found && checkout is Some {
            assert(failure_of(r) == Some(switch_failed_text(name@, checkout->0)));
        } else if found && set is Some {
            assert(failure_of(r) == Some(switch_failed_text(name@, set->0)));
        }
    }
    r
}

/// The reference HEAD is pointed at to check out the branch `name`.
fn branch_refname_string(name: &str) -> (s: String)
    ensures
        s@ == branch_refname(name@),
{
    let mut refname = String::from_str("refs/heads/");
    refname.append(name);
    refname
}

/// The message `before` + `name` + `after`.
fn branch_error(before: &str, name: &str, after: &str) -> (e: GitError)
    ensures
        e.message@ == before@ + name@ + after@,
{
    let mut message = String::from_str(before);
    message.append(name);
    message.append(after);
    GitError::from_message(message)
}

/// A failed switch to `name`, with libgit2's reason.
fn switch_error(name: &str, e: &git2::Error) -> (r: GitError)
    ensures
        r.message@ == switch_failed_text(name@, git_error_text(*e)),
{
    let detail = git_message(e);
    let mut message = String::from_str("cannot switch to '");
    message.append(name);
    message.append("': ");
    message.append(detail.as_str());
    GitError::from_message(message)
}

} // verus!
