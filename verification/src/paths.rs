//! A byte-string model of file paths.
//!
//! Paths are plain byte strings; `/` and `\` both separate components.
//! The model is deliberately simple — the resolver only ever needs a
//! parent directory for a working directory, a prefix strip against a
//! repository root, and a basename fallback.

use vstd::prelude::*;

use crate::text::find_byte_from;
use crate::text::spec_slashes;
use crate::text::slashes;
use crate::text::sub_vec;

verus! {

/// Whether `b` is a path separator.
pub open spec fn is_sep(b: u8) -> bool {
    b == 47 || b == 92
}

/// Index of the last separator in `p`, if any.
pub open spec fn last_sep(p: Seq<u8>, i: int) -> Option<int>
    decreases i + 1,
{
    if i < 0 || i >= p.len() {
        Option::None
    } else if is_sep(p[i]) {
        Option::Some(i)
    } else {
        last_sep(p, i - 1)
    }
}

/// The parent directory of `p`: everything before the last separator, the
/// lone separator itself when it leads the path, and nothing when the path
/// has no separator at all or is itself a lone separator.
pub open spec fn spec_parent(p: Seq<u8>) -> Option<Seq<u8>> {
    match last_sep(p, p.len() - 1) {
        Option::Some(j) => if j > 0 {
            Option::Some(p.take(j))
        } else if p.len() == 1 {
            Option::None
        } else {
            Option::Some(p.take(1))
        },
        Option::None => Option::None,
    }
}

/// `last_sep` finds a separator position within bounds.
pub proof fn lemma_last_sep_bounds(p: Seq<u8>, i: int)
    ensures
        match last_sep(p, i) {
            Option::Some(j) => 0 <= j <= i && j < p.len() && is_sep(p[j]),
            Option::None => true,
        },
    decreases i + 1,
{
    if 0 <= i < p.len() && !is_sep(p[i]) {
        lemma_last_sep_bounds(p, i - 1);
    }
}

/// A parent directory is strictly shorter than its path.
pub proof fn lemma_parent_shorter(p: Seq<u8>)
    ensures
        match spec_parent(p) {
            Option::Some(d) => d.len() < p.len(),
            Option::None => true,
        },
{
    lemma_last_sep_bounds(p, p.len() - 1);
}

/// Computes the parent directory of a path.
pub fn parent_dir(p: &Vec<u8>) -> (r: Option<Vec<u8>>)
    ensures
        match r {
            Option::Some(d) => spec_parent(p@) == Option::Some(d@),
            Option::None => spec_parent(p@) == Option::<Seq<u8>>::None,
        },
{
    let mut i: usize = p.len();
    while i > 0
        invariant
            i <= p@.len(),
            last_sep(p@, p@.len() - 1) == last_sep(p@, i - 1),
        decreases i,
    {
        let b = p[i - 1];
        if b == 47 || b == 92 {
            if i - 1 > 0 {
                return Option::Some(sub_vec(p, 0, i - 1));
            } else if p.len() == 1 {
                return Option::None;
            } else {
                return Option::Some(sub_vec(p, 0, 1));
            }
        }
        i = i - 1;
    }
    Option::None
}

/// The remainder of `p` after stripping the directory prefix `root`: the
/// root must be a byte-wise prefix, and the cut must fall on a component
/// boundary (the root ends with a separator, the remainder starts with one,
/// or the remainder is empty).
pub open spec fn spec_strip_prefix(p: Seq<u8>, root: Seq<u8>) -> Option<Seq<u8>> {
    if root.len() <= p.len() && p.take(root.len() as int) == root {
        if p.len() == root.len() {
            Option::Some(Seq::empty())
        } else if is_sep(p[root.len() as int]) {
            Option::Some(p.skip(root.len() + 1 as int))
        } else if root.len() > 0 && is_sep(root.last()) {
            Option::Some(p.skip(root.len() as int))
        } else {
            Option::None
        }
    } else {
        Option::None
    }
}

/// Strips the directory prefix `root` from `p`.
pub fn strip_prefix(p: &Vec<u8>, root: &Vec<u8>) -> (r: Option<Vec<u8>>)
    ensures
        match r {
            Option::Some(rest) => spec_strip_prefix(p@, root@) == Option::Some(rest@),
            Option::None => spec_strip_prefix(p@, root@) == Option::<Seq<u8>>::None,
        },
{
    if root.len() > p.len() {
        return Option::None;
    }
    let mut i: usize = 0;
    while i < root.len()
        invariant
            i <= root@.len() <= p@.len(),
            forall|k: int| 0 <= k < i ==> p@[k] == root@[k],
        decreases root.len() - i,
    {
        if p[i] != root[i] {
            proof {
                assert(p@.take(root@.len() as int)[i as int] == p@[i as int]);
            }
            return Option::None;
        }
        i = i + 1;
    }
    proof {
        assert(p@.take(root@.len() as int) =~= root@);
    }
    if p.len() == root.len() {
        return Option::Some(Vec::new());
    }
    let b = p[root.len()];
    if b == 47 || b == 92 {
        return Option::Some(sub_vec(p, root.len() + 1, p.len()));
    }
    if root.len() > 0 {
        let rb = root[root.len() - 1];
        if rb == 47 || rb == 92 {
            return Option::Some(sub_vec(p, root.len(), p.len()));
        }
    }
    Option::None
}

/// The basename of `p`: the segment after the last separator, or the whole
/// path when it has no separator or ends with one.
pub open spec fn spec_basename(p: Seq<u8>) -> Seq<u8> {
    match last_sep(p, p.len() - 1) {
        Option::Some(j) => if j + 1 < p.len() {
            p.skip(j + 1)
        } else {
            p
        },
        Option::None => p,
    }
}

/// Computes the basename of a path.
pub fn basename(p: &Vec<u8>) -> (r: Vec<u8>)
    ensures
        r@ == spec_basename(p@),
{
    let mut i: usize = p.len();
    while i > 0
        invariant
            i <= p@.len(),
            last_sep(p@, p@.len() - 1) == last_sep(p@, i - 1),
        decreases i,
    {
        let b = p[i - 1];
        if b == 47 || b == 92 {
            if i < p.len() {
                let r = sub_vec(p, i, p.len());
                proof {
                    assert(p@.subrange(i as int, p@.len() as int) =~= p@.skip(i as int));
                }
                return r;
            } else {
                let r = sub_vec(p, 0, p.len());
                proof {
                    assert(p@.subrange(0, p@.len() as int) =~= p@);
                }
                return r;
            }
        }
        i = i - 1;
    }
    let r = sub_vec(p, 0, p.len());
    proof {
        assert(p@.subrange(0, p@.len() as int) =~= p@);
    }
    r
}

/// The queried path rewritten to forward-slash separators, as the
/// distributed VCS expects its paths.
pub open spec fn spec_to_git_path(p: Seq<u8>) -> Seq<u8> {
    spec_slashes(p)
}

/// Rewrites a path to forward-slash separators.
pub fn to_git_path(p: &Vec<u8>) -> (r: Vec<u8>)
    ensures
        r@ == spec_to_git_path(p@),
{
    slashes(p)
}

} // verus!
