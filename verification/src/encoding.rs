//! `accept-encoding` negotiation: whether a header value lists a given
//! content coding, and the codings and file suffixes the resolver knows.

use vstd::prelude::*;
use vstd::slice::slice_subrange;
use crate::bytes::bytes_eq;

verus! {

/// The list separator `,` of a header value.
pub const COMMA: u8 = 44;

/// The parameter separator `;` of a header list element.
pub const SEMICOLON: u8 = 59;

/// The space character.
pub const SPACE: u8 = 32;

/// The horizontal tab character.
pub const HTAB: u8 = 9;

/// Optional whitespace around a header list element: space or horizontal tab.
pub open spec fn is_ows(b: u8) -> bool {
    b == SPACE || b == HTAB
}

/// The length of an element's coding token before any `;`-separated
/// parameters.
pub open spec fn unparam_len(s: Seq<u8>) -> nat
    decreases s.len(),
{
    if s.len() == 0 {
        0
    } else if s[0] == SEMICOLON {
        0
    } else {
        1 + unparam_len(s.skip(1))
    }
}

/// The length of the run of leading whitespace.
pub open spec fn lead_ws(s: Seq<u8>) -> nat
    decreases s.len(),
{
    if s.len() > 0 && is_ows(s[0]) {
        1 + lead_ws(s.skip(1))
    } else {
        0
    }
}

/// The length of the run of trailing whitespace.
pub open spec fn trail_ws(s: Seq<u8>) -> nat
    decreases s.len(),
{
    if s.len() > 0 && is_ows(s.last()) {
        1 + trail_ws(s.drop_last())
    } else {
        0
    }
}

/// The coding token of one comma-separated element: the part before any `;`
/// parameters, with surrounding whitespace trimmed.
pub open spec fn token_of(s: Seq<u8>) -> Seq<u8> {
    let cut = s.take(unparam_len(s) as int);
    let t = cut.skip(lead_ws(cut) as int);
    t.take(t.len() - trail_ws(t))
}

/// The length of the first comma-separated element.
pub open spec fn head_len(s: Seq<u8>) -> nat
    decreases s.len(),
{
    if s.len() == 0 {
        0
    } else if s[0] == COMMA {
        0
    } else {
        1 + head_len(s.skip(1))
    }
}

/// Whether a header value, read as a comma-separated list, lists `coding`:
/// some element's token equals it.
pub open spec fn lists_coding(v: Seq<u8>, coding: Seq<u8>) -> bool
    decreases v.len(),
{
    let k = head_len(v) as int;
    token_of(v.take(k)) == coding || (k < v.len() && lists_coding(v.skip(k + 1), coding))
}

/// Whether an optional `accept-encoding` value admits `coding`; an absent
/// header admits no precompressed variant.
pub open spec fn accepts(ae: Option<Seq<u8>>, coding: Seq<u8>) -> bool {
    match ae {
        Some(v) => lists_coding(v, coding),
        None => false,
    }
}

/// The length of the first comma-separated element, computed.
fn head_len_exec(v: &[u8]) -> (r: usize)
    ensures
        r == head_len(v@),
        r <= v@.len(),
    decreases v@.len(),
{
    if v.len() == 0 {
        0
    } else if v[0] == COMMA {
        0
    } else {
        let rest = slice_subrange(v, 1, v.len());
        proof {
            assert(rest@ =~= v@.skip(1));
        }
        1 + head_len_exec(rest)
    }
}

/// The length of the token part before `;` parameters, computed.
fn unparam_len_exec(v: &[u8]) -> (r: usize)
    ensures
        r == unparam_len(v@),
        r <= v@.len(),
    decreases v@.len(),
{
    if v.len() == 0 {
        0
    } else if v[0] == SEMICOLON {
        0
    } else {
        let rest = slice_subrange(v, 1, v.len());
        proof {
            assert(rest@ =~= v@.skip(1));
        }
        1 + unparam_len_exec(rest)
    }
}

/// The run of leading whitespace, computed.
fn lead_ws_exec(v: &[u8]) -> (r: usize)
    ensures
        r == lead_ws(v@),
        r <= v@.len(),
    decreases v@.len(),
{
    if v.len() > 0 && (v[0] == SPACE || v[0] == HTAB) {
        let rest = slice_subrange(v, 1, v.len());
        proof {
            assert(rest@ =~= v@.skip(1));
        }
        1 + lead_ws_exec(rest)
    } else {
        0
    }
}

/// The run of trailing whitespace, computed.
fn trail_ws_exec(v: &[u8]) -> (r: usize)
    ensures
        r == trail_ws(v@),
        r <= v@.len(),
    decreases v@.len(),
{
    if v.len() > 0 && (v[v.len() - 1] == SPACE || v[v.len() - 1] == HTAB) {
        let rest = slice_subrange(v, 0, v.len() - 1);
        proof {
            assert(rest@ =~= v@.drop_last());
        }
        1 + trail_ws_exec(rest)
    } else {
        0
    }
}

/// Whether one element's token equals `coding`.
fn token_matches(e: &[u8], coding: &[u8]) -> (r: bool)
    ensures
        r == (token_of(e@) == coding@),
{
    let m = unparam_len_exec(e);
    let cut = slice_subrange(e, 0, m);
    proof {
        assert(cut@ =~= e@.take(unparam_len(e@) as int));
    }
    let a = lead_ws_exec(cut);
    let t = slice_subrange(cut, a, cut.len());
    proof {
        assert(t@ =~= cut@.skip(lead_ws(cut@) as int));
    }
    let z = trail_ws_exec(t);
    let token = slice_subrange(t, 0, t.len() - z);
    proof {
        assert(token@ =~= t@.take(t@.len() - trail_ws(t@)));
        assert(token@ == token_of(e@));
    }
    bytes_eq(token, coding)
}

/// Whether the header value `v`, a comma-separated coding list, lists
/// `coding`.
pub fn accepts_coding(v: &[u8], coding: &[u8]) -> (r: bool)
    ensures
        r == lists_coding(v@, coding@),
    decreases v@.len(),
{
    let k = head_len_exec(v);
    let head = slice_subrange(v, 0, k);
    proof {
        assert(head@ =~= v@.take(head_len(v@) as int));
    }
    if token_matches(head, coding) {
        true
    } else if k < v.len() {
        let rest = slice_subrange(v, k + 1, v.len());
        proof {
            assert(rest@ =~= v@.skip(head_len(v@) as int + 1));
        }
        accepts_coding(rest, coding)
    } else {
        false
    }
}

/// The `br` content coding.
pub open spec fn br_coding() -> Seq<u8> {
    seq![98u8, 114u8]
}

/// The `gzip` content coding.
pub open spec fn gzip_coding() -> Seq<u8> {
    seq![103u8, 122u8, 105u8, 112u8]
}

/// The suffix of a brotli-precompressed file stored beside the plain one.
pub open spec fn br_suffix() -> Seq<u8> {
    seq![46u8, 98u8, 114u8]
}

/// The suffix of a gzip-precompressed file stored beside the plain one.
pub open spec fn gz_suffix() -> Seq<u8> {
    seq![46u8, 103u8, 122u8]
}

/// The executable `br` coding name.
pub fn br_coding_vec() -> (r: Vec<u8>)
    ensures
        r@ == br_coding(),
{
    let mut r: Vec<u8> = Vec::new();
    r.push(98u8);
    r.push(114u8);
    proof {
        assert(r@ =~= br_coding());
    }
    r
}

/// The executable `gzip` coding name.
pub fn gzip_coding_vec() -> (r: Vec<u8>)
    ensures
        r@ == gzip_coding(),
{
    let mut r: Vec<u8> = Vec::new();
    r.push(103u8);
    r.push(122u8);
    r.push(105u8);
    r.push(112u8);
    proof {
        assert(r@ =~= gzip_coding());
    }
    r
}

/// The executable `.br` suffix.
pub fn br_suffix_vec() -> (r: Vec<u8>)
    ensures
        r@ == br_suffix(),
{
    let mut r: Vec<u8> = Vec::new();
    r.push(46u8);
    r.push(98u8);
    r.push(114u8);
    proof {
        assert(r@ =~= br_suffix());
    }
    r
}

/// The executable `.gz` suffix.
pub fn gz_suffix_vec() -> (r: Vec<u8>)
    ensures
        r@ == gz_suffix(),
{
    let mut r: Vec<u8> = Vec::new();
    r.push(46u8);
    r.push(103u8);
    r.push(122u8);
    proof {
        assert(r@ =~= gz_suffix());
    }
    r
}

} // verus!
