//! Byte-level path arithmetic: joining, component-wise prefixes, and the
//! prefix rewriting used when a watched subtree is renamed.

use vstd::prelude::*;
use crate::PATH_SEP;

verus! {

/// The sequence held by an optional path, or the empty sequence.
pub open spec fn opt_bytes(o: Option<Seq<u8>>) -> Seq<u8> {
    match o {
        Some(s) => s,
        None => Seq::empty(),
    }
}

/// The view of an optional byte vector.
pub open spec fn opt_view(o: Option<Vec<u8>>) -> Option<Seq<u8>> {
    match o {
        Some(v) => Some(v@),
        None => None,
    }
}

/// `base + "/" + name`, with an absent base or name read as empty.
pub open spec fn spec_join(base: Option<Seq<u8>>, name: Option<Seq<u8>>) -> Seq<u8> {
    opt_bytes(base) + seq![PATH_SEP] + opt_bytes(name)
}

/// `pre` names the same path as `p` or an ancestor of it: `p` equals `pre`,
/// or extends it at a component boundary.
pub open spec fn is_path_prefix(pre: Seq<u8>, p: Seq<u8>) -> bool {
    &&& pre.len() <= p.len()
    &&& p.subrange(0, pre.len() as int) == pre
    &&& (p.len() == pre.len() || p[pre.len() as int] == PATH_SEP)
}

/// Replace the prefix `from` of `p` by `to`; paths that do not lie under
/// `from` are unchanged.
pub open spec fn spec_rewrite(p: Seq<u8>, from: Seq<u8>, to: Seq<u8>) -> Seq<u8> {
    if is_path_prefix(from, p) {
        to + p.skip(from.len() as int)
    } else {
        p
    }
}

/// Byte-for-byte equality of two vectors.
pub fn bytes_eq(a: &Vec<u8>, b: &Vec<u8>) -> (r: bool)
    ensures
        r == (a@ == b@),
{
    if a.len() != b.len() {
        proof {
            assert(a@.len() != b@.len());
        }
        return false;
    }
    let n = a.len();
    let mut i: usize = 0;
    while i < n
        invariant
            n == a@.len() == b@.len(),
            0 <= i <= n,
            forall|j: int| 0 <= j < i ==> a@[j] == b@[j],
        decreases n - i,
    {
        if a[i] != b[i] {
            return false;
        }
        i += 1;
    }
    proof {
        assert(a@ =~= b@);
    }
    true
}

/// Whether `p` lies at or under the path `pre`.
pub fn has_path_prefix(pre: &Vec<u8>, p: &Vec<u8>) -> (r: bool)
    ensures
        r == is_path_prefix(pre@, p@),
{
    if p.len() < pre.len() {
        return false;
    }
    let n = pre.len();
    let mut i: usize = 0;
    while i < n
        invariant
            n == pre@.len() <= p@.len(),
            0 <= i <= n,
            forall|j: int| 0 <= j < i ==> p@[j] == pre@[j],
        decreases n - i,
    {
        if p[i] != pre[i] {
            proof {
                assert(p@.subrange(0, pre@.len() as int)[i as int] != pre@[i as int]);
            }
            return false;
        }
        i += 1;
    }
    proof {
        assert(p@.subrange(0, pre@.len() as int) =~= pre@);
    }
    if p.len() == pre.len() {
        true
    } else {
        p[n] == PATH_SEP
    }
}

/// `base + "/" + name`, the composition every engine uses to turn a watch
/// entry and a record name into a full path.
pub fn join_path(base: &Option<Vec<u8>>, name: &Option<Vec<u8>>) -> (r: Vec<u8>)
    ensures
        r@ == spec_join(opt_view(*base), opt_view(*name)),
{
    let mut r: Vec<u8> = Vec::new();
    match base {
        Some(b) => {
            let n = b.len();
            let mut i: usize = 0;
            while i < n
                invariant
                    n == b@.len(),
                    0 <= i <= n,
                    r@ == b@.subrange(0, i as int),
                decreases n - i,
            {
                r.push(b[i]);
                i += 1;
            }
            proof {
                assert(b@.subrange(0, n as int) =~= b@);
            }
        },
        None => {},
    }
    r.push(PATH_SEP);
    match name {
        Some(m) => {
            let n = m.len();
            let ghost mid = r@;
            let mut i: usize = 0;
            while i < n
                invariant
                    n == m@.len(),
                    0 <= i <= n,
                    r@ == mid + m@.subrange(0, i as int),
                decreases n - i,
            {
                r.push(m[i]);
                i += 1;
            }
            proof {
                assert(m@.subrange(0, n as int) =~= m@);
            }
        },
        None => {},
    }
    proof {
        assert(r@ =~= spec_join(opt_view(*base), opt_view(*name)));
    }
    r
}

/// Replace the prefix `from` of `p` by `to` when `p` lies under `from`.
pub fn rewrite_path(p: &Vec<u8>, from: &Vec<u8>, to: &Vec<u8>) -> (r: Vec<u8>)
    ensures
        r@ == spec_rewrite(p@, from@, to@),
{
    if !has_path_prefix(from, p) {
        return p.clone();
    }
    let mut r: Vec<u8> = to.clone();
    let n = p.len();
    let mut i: usize = from.len();
    while i < n
        invariant
            n == p@.len(),
            from@.len() <= i <= n,
            r@ == to@ + p@.subrange(from@.len() as int, i as int),
        decreases n - i,
    {
        r.push(p[i]);
        i += 1;
    }
    proof {
        assert(p@.subrange(from@.len() as int, n as int) =~= p@.skip(from@.len() as int));
        assert(r@ =~= spec_rewrite(p@, from@, to@));
    }
    r
}

/// A path rewritten to its own prefix's replacement keeps its tail: the heart
/// of the subtree-rename bookkeeping.
pub proof fn lemma_rewrite_extends(from: Seq<u8>, to: Seq<u8>, tail: Seq<u8>)
    requires
        tail.len() == 0 || tail[0] == PATH_SEP,
    ensures
        spec_rewrite(from + tail, from, to) == to + tail,
{
    let p = from + tail;
    assert(p.subrange(0, from.len() as int) =~= from);
    if tail.len() > 0 {
        assert(p[from.len() as int] == tail[0]);
    }
    assert(is_path_prefix(from, p));
    assert(p.skip(from.len() as int) =~= tail);
}

/// Rewriting leaves paths outside the renamed subtree alone.
pub proof fn lemma_rewrite_untouched(p: Seq<u8>, from: Seq<u8>, to: Seq<u8>)
    requires
        !is_path_prefix(from, p),
    ensures
        spec_rewrite(p, from, to) == p,
{
}

} // verus!
