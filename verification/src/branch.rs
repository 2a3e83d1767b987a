//! A local branch as the manager sees it, how a delete request classifies it,
//! and the order in which branches are listed.

use std::path::{Path, PathBuf};
use vstd::prelude::*;
use vstd::multiset::Multiset;
use vstd::utf8::encode_utf8;

verus! {

broadcast use vstd::seq_lib::group_to_multiset_ensures;

#[verifier::external_type_specification]
#[verifier::external_body]
pub struct ExPathBuf(PathBuf);

#[verifier::external_type_specification]
#[verifier::external_body]
pub struct ExPath(Path);

/// `PathBuf::clone` from std: the copy is the same path.
#[verifier::external_body]
pub(crate) fn clone_path(p: &PathBuf) -> (r: PathBuf)
    ensures
        r == *p,
{
    p.clone()
}

/// The owned path whose borrowed form is `p`: what `Path::to_path_buf` would
/// give back.
pub uninterp spec fn owned_path(p: &Path) -> PathBuf;

/// `PathBuf::as_path` from std: borrows the path, which is the same path as
/// `p` (owned again, it is `p`).
#[verifier::external_body]
pub(crate) fn as_path(p: &PathBuf) -> (r: &Path)
    ensures
        owned_path(r) == *p,
{
    p.as_path()
}

/// A single local branch and everything the manager needs to know about it.
#[derive(Clone, Debug)]
pub struct BranchInfo {
    pub name: String,
    /// The currently checked-out branch (HEAD of the main working tree). Never deletable.
    pub is_head: bool,
    /// The tip is reachable from HEAD: safe to delete with `-d`. When false,
    /// deleting it takes force (`-D`).
    pub is_merged: bool,
    /// `Some(path)` if this branch is checked out in a linked worktree.
    pub worktree: Option<PathBuf>,
}

impl BranchInfo {
    /// A branch that can never be deleted: the HEAD of the main working tree.
    pub fn is_blocked(&self) -> (r: bool)
        ensures
            r == self.is_head,
    {
        self.is_head
    }
}

/// How a delete request treats a branch.
pub enum DeleteClass {
    /// HEAD: skipped.
    Blocked,
    /// Checked out in a linked worktree: the worktree is removed first, after confirmation.
    Worktree,
    /// Fully merged: deleted at once.
    Safe,
    /// Not fully merged: force-deleted after confirmation.
    Force,
}

/// The class of `b` in a delete request; the first rule that applies decides.
pub open spec fn delete_class(b: BranchInfo) -> DeleteClass {
    if b.is_head {
        DeleteClass::Blocked
    } else if b.worktree is Some {
        DeleteClass::Worktree
    } else if b.is_merged {
        DeleteClass::Safe
    } else {
        DeleteClass::Force
    }
}

/// The bytes by which branch names are ordered: their UTF-8 encoding.
pub open spec fn name_key(b: BranchInfo) -> Seq<u8> {
    encode_utf8(b.name@)
}

/// Lexicographic order on byte strings (a prefix comes first).
pub open spec fn bytes_le(a: Seq<u8>, b: Seq<u8>) -> bool
    decreases a.len(),
{
    if a.len() == 0 {
        true
    } else if b.len() == 0 {
        false
    } else if a[0] != b[0] {
        a[0] < b[0]
    } else {
        bytes_le(a.drop_first(), b.drop_first())
    }
}

/// Every branch comes no later, by name, than each branch after it.
pub open spec fn sorted_by_name(s: Seq<BranchInfo>) -> bool {
    forall|i: int, j: int| 0 <= i < j < s.len() ==> bytes_le(name_key(s[i]), name_key(s[j]))
}

/// Any two byte strings are ordered one way or the other.
pub proof fn lemma_bytes_le_total(a: Seq<u8>, b: Seq<u8>)
    ensures
        bytes_le(a, b) || bytes_le(b, a),
    decreases a.len(),
{
    if a.len() > 0 && b.len() > 0 && a[0] == b[0] {
        lemma_bytes_le_total(a.drop_first(), b.drop_first());
    }
}

/// The order is transitive.
pub proof fn lemma_bytes_le_transitive(a: Seq<u8>, b: Seq<u8>, c: Seq<u8>)
    requires
        bytes_le(a, b),
        bytes_le(b, c),
    ensures
        bytes_le(a, c),
    decreases a.len(),
{
    if a.len() > 0 && b.len() > 0 && c.len() > 0 && a[0] == b[0] && b[0] == c[0] {
        lemma_bytes_le_transitive(a.drop_first(), b.drop_first(), c.drop_first());
    }
}

proof fn lemma_bytes_le_skip(a: Seq<u8>, b: Seq<u8>, i: int)
    requires
        0 <= i < a.len(),
        i < b.len(),
        a[i] == b[i],
    ensures
        a.skip(i).drop_first() == a.skip(i + 1),
        b.skip(i).drop_first() == b.skip(i + 1),
        bytes_le(a.skip(i), b.skip(i)) == bytes_le(a.skip(i + 1), b.skip(i + 1)),
{
    assert(a.skip(i).drop_first() =~= a.skip(i + 1));
    assert(b.skip(i).drop_first() =~= b.skip(i + 1));
}

/// Whether `a` comes no later than `b` by name (`String`'s byte order).
pub fn name_le(a: &BranchInfo, b: &BranchInfo) -> (r: bool)
    ensures
        r == bytes_le(name_key(*a), name_key(*b)),
{
    let x = a.name.as_str().as_bytes();
    let y = b.name.as_str().as_bytes();
    let ghost xs = x@;
    let ghost ys = y@;
    assert(xs.skip(0) == xs);
    assert(ys.skip(0) == ys);
    let mut i: usize = 0;
    while i < x.len() && i < y.len() && x[i] == y[i]
        invariant
            xs == x@,
            ys == y@,
            xs == name_key(*a),
            ys == name_key(*b),
            i <= xs.len(),
            i <= ys.len(),
            bytes_le(xs, ys) == bytes_le(xs.skip(i as int), ys.skip(i as int)),
        decreases x.len() - i,
    {
        proof {
            lemma_bytes_le_skip(xs, ys, i as int);
        }
        i = i + 1;
    }
    if i == x.len() {
        assert(xs.skip(i as int).len() == 0);
        true
    } else if i == y.len() {
        assert(ys.skip(i as int).len() == 0);
        false
    } else {
        assert(xs.skip(i as int)[0] == xs[i as int]);
        assert(ys.skip(i as int)[0] == ys[i as int]);
        x[i] < y[i]
    }
}

/// The branches of `v` in order of their names, as `sort_by` on the names would
/// give them: the same branches, each no later by name than those after it.
pub fn sort_by_name(v: Vec<BranchInfo>) -> (r: Vec<BranchInfo>)
    ensures
        sorted_by_name(r@),
        r@.to_multiset() == v@.to_multiset(),
        r.len() == v.len(),
{
    let ghost orig = v@;
    let mut rest = v;
    let mut out: Vec<BranchInfo> = Vec::new();
    while rest.len() > 0
        invariant
            sorted_by_name(out@),
            out@.to_multiset().add(rest@.to_multiset()) == orig.to_multiset(),
            out.len() + rest.len() == orig.len(),
        decreases rest.len(),
    {
        let ghost before = rest@;
        let b = rest.remove(0);
        proof {
            vstd::seq_lib::to_multiset_remove(before, 0);
        }
        // the first position holding a branch strictly later than `b`
        let mut j: usize = 0;
        while j < out.len() && name_le(&out[j], &b)
            invariant
                j <= out.len(),
                forall|k: int| 0 <= k < j ==> bytes_le(name_key(#[trigger] out@[k]), name_key(b)),
            decreases out.len() - j,
        {
            j = j + 1;
        }
        let ghost old_out = out@;
        proof {
            if j < out.len() {
                lemma_bytes_le_total(name_key(b), name_key(out@[j as int]));
                assert forall|k: int| j <= k < old_out.len() implies bytes_le(
                    name_key(b),
                    name_key(#[trigger] old_out[k]),
                ) by {
                    if k > j {
                        lemma_bytes_le_transitive(
                            name_key(b),
                            name_key(old_out[j as int]),
                            name_key(old_out[k]),
                        );
                    }
                }
            }
        }
        out.insert(j, b);
        proof {
            vstd::seq_lib::to_multiset_insert(old_out, j as int, b);
            assert forall|p: int, q: int| 0 <= p < q < out@.len() implies bytes_le(
                name_key(out@[p]),
                name_key(out@[q]),
            ) by {
                if p < j && q == j {
                } else if p < j && q > j {
                    assert(out@[q] == old_out[q - 1]);
                } else if p == j {
                    assert(out@[q] == old_out[q - 1]);
                } else if p > j {
                    assert(out@[p] == old_out[p - 1]);
                    assert(out@[q] == old_out[q - 1]);
                } else {
                    assert(out@[p] == old_out[p]);
                    assert(out@[q] == old_out[q]);
                }
            }
            assert(out@.to_multiset().add(rest@.to_multiset()) =~= orig.to_multiset());
        }
    }
    proof {
        assert(rest@.len() == 0);
        assert(rest@.to_multiset() =~= Multiset::empty());
        assert(out@.to_multiset() =~= out@.to_multiset().add(rest@.to_multiset()));
    }
    out
}

} // verus!
