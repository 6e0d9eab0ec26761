//! Asset path rewriting: an asset-prefixed request path is reduced to `/`
//! followed by its final `/`-delimited segment, so that prefixed, versioned
//! asset URLs map onto a flat static directory.

use vstd::prelude::*;

verus! {

/// The path separator `/`.
pub const SLASH: u8 = 47;

/// Everything after the last `/` of a path; the whole path when it has no
/// `/`, and empty when the path ends in `/`.
pub open spec fn last_segment(p: Seq<u8>) -> Seq<u8>
    decreases p.len(),
{
    if p.len() == 0 {
        p
    } else if p.last() == SLASH {
        Seq::empty()
    } else {
        last_segment(p.drop_last()).push(p.last())
    }
}

/// The rewritten lookup path of an asset request: `/` followed by the final
/// segment. The rewrite reads the path alone, never the query.
pub open spec fn rewritten_path(p: Seq<u8>) -> Seq<u8> {
    seq![SLASH] + last_segment(p)
}

/// The last segment is the suffix that starts right after the last `/`
/// (at the start of the path when it has none).
pub proof fn lemma_last_segment_suffix(p: Seq<u8>, i: int)
    requires
        0 <= i <= p.len(),
        forall|j: int| i <= j < p.len() ==> p[j] != SLASH,
        i > 0 ==> p[i - 1] == SLASH,
    ensures
        last_segment(p) == p.skip(i),
    decreases p.len(),
{
    if i == p.len() {
        if p.len() > 0 {
            assert(p.last() == SLASH);
        }
        assert(p.skip(i) =~= Seq::<u8>::empty());
        if p.len() == 0 {
            assert(p.skip(0) =~= p);
        }
    } else {
        assert(p[p.len() - 1] != SLASH);
        lemma_last_segment_suffix(p.drop_last(), i);
        assert(p.skip(i) =~= p.drop_last().skip(i).push(p.last()));
    }
}

/// The rewritten lookup path, computed.
pub fn rewrite_asset_path(path: &Vec<u8>) -> (r: Vec<u8>)
    ensures
        r@ == rewritten_path(path@),
{
    let mut i: usize = path.len();
    while i > 0 && path[i - 1] != SLASH
        invariant
            0 <= i <= path@.len(),
            forall|j: int| i <= j < path@.len() ==> path@[j] != SLASH,
        decreases i,
    {
        i -= 1;
    }
    proof {
        lemma_last_segment_suffix(path@, i as int);
    }
    let mut r: Vec<u8> = Vec::new();
    r.push(SLASH);
    let mut j: usize = i;
    while j < path.len()
        invariant
            i <= j <= path@.len(),
            r@ == seq![SLASH] + path@.subrange(i as int, j as int),
        decreases path@.len() - j,
    {
        r.push(path[j]);
        j += 1;
        proof {
            assert(r@ =~= seq![SLASH] + path@.subrange(i as int, j as int));
        }
    }
    proof {
        assert(path@.subrange(i as int, path@.len() as int) =~= path@.skip(i as int));
        assert(r@ =~= rewritten_path(path@));
    }
    r
}

} // verus!
