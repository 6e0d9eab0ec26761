//! Small executable helpers on byte slices and byte vectors.

use vstd::prelude::*;
use vstd::slice::slice_to_vec;

verus! {

/// Byte-for-byte equality of two slices.
pub fn bytes_eq(a: &[u8], b: &[u8]) -> (r: bool)
    ensures
        r == (a@ == b@),
{
    if a.len() != b.len() {
        return false;
    }
    let mut i: usize = 0;
    while i < a.len()
        invariant
            0 <= i <= a@.len(),
            a@.len() == b@.len(),
            forall|j: int| 0 <= j < i ==> a@[j] == b@[j],
        decreases a@.len() - i,
    {
        if a[i] != b[i] {
            return false;
        }
        i += 1;
    }
    proof {
        assert(a@ =~= b@);
    }
    true
}

/// A fresh copy of a byte vector.
pub fn clone_bytes(v: &Vec<u8>) -> (r: Vec<u8>)
    ensures
        r@ == v@,
{
    slice_to_vec(v.as_slice())
}

/// `base` followed by `ext`, as a fresh vector.
pub fn append_bytes(base: &Vec<u8>, ext: &[u8]) -> (r: Vec<u8>)
    ensures
        r@ == base@ + ext@,
{
    let mut r: Vec<u8> = slice_to_vec(base.as_slice());
    let mut i: usize = 0;
    while i < ext.len()
        invariant
            0 <= i <= ext@.len(),
            r@ == base@ + ext@.subrange(0, i as int),
        decreases ext@.len() - i,
    {
        r.push(ext[i]);
        i += 1;
        proof {
            assert(r@ =~= base@ + ext@.subrange(0, i as int));
        }
    }
    proof {
        assert(ext@.subrange(0, ext@.len() as int) =~= ext@);
    }
    r
}

} // verus!
