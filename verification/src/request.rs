//! The request model: method, path, query, headers and body as plain bytes,
//! together with header lookup and the sanitized view used for static lookup.

use vstd::prelude::*;
use crate::bytes::{bytes_eq, clone_bytes};

verus! {

/// An HTTP request, reduced to the plain values the resolution logic reads.
/// Header names are expected in their wire-normalized lowercase form, as the
/// surrounding server hands them over.
pub struct HttpRequest {
    pub method: Vec<u8>,
    pub path: Vec<u8>,
    pub query: Option<Vec<u8>>,
    pub headers: Vec<(Vec<u8>, Vec<u8>)>,
    pub body: Vec<u8>,
}

/// The mathematical view of a request.
pub struct ReqView {
    pub method: Seq<u8>,
    pub path: Seq<u8>,
    pub query: Option<Seq<u8>>,
    pub headers: Seq<(Seq<u8>, Seq<u8>)>,
    pub body: Seq<u8>,
}

/// The view of a sequence of byte-vector pairs (headers, or directory entries).
pub open spec fn pairs_view(s: Seq<(Vec<u8>, Vec<u8>)>) -> Seq<(Seq<u8>, Seq<u8>)> {
    s.map_values(|p: (Vec<u8>, Vec<u8>)| (p.0@, p.1@))
}

impl View for HttpRequest {
    type V = ReqView;

    open spec fn view(&self) -> ReqView {
        ReqView {
            method: self.method@,
            path: self.path@,
            query: match self.query {
                Some(q) => Some(q@),
                None => None,
            },
            headers: pairs_view(self.headers@),
            body: self.body@,
        }
    }
}

/// The value bound to `key` in an association list: the first pair whose name
/// equals `key`, if any.
pub open spec fn assoc_first(entries: Seq<(Seq<u8>, Seq<u8>)>, key: Seq<u8>) -> Option<Seq<u8>>
    decreases entries.len(),
{
    if entries.len() == 0 {
        None
    } else if entries[0].0 == key {
        Some(entries[0].1)
    } else {
        assoc_first(entries.skip(1), key)
    }
}

/// Skipping past pairs that do not match the key leaves the lookup unchanged.
proof fn lemma_assoc_first_skip(entries: Seq<(Seq<u8>, Seq<u8>)>, key: Seq<u8>, i: int)
    requires
        0 <= i <= entries.len(),
        forall|j: int| 0 <= j < i ==> entries[j].0 != key,
    ensures
        assoc_first(entries, key) == assoc_first(entries.skip(i), key),
    decreases i,
{
    if i > 0 {
        assert(entries.skip(1).skip(i - 1) =~= entries.skip(i));
        lemma_assoc_first_skip(entries.skip(1), key, i - 1);
    } else {
        assert(entries.skip(0) =~= entries);
    }
}

/// First-match lookup in an association list of byte vectors.
pub fn assoc_get<'a>(entries: &'a Vec<(Vec<u8>, Vec<u8>)>, key: &[u8]) -> (r: Option<&'a Vec<u8>>)
    ensures
        match r {
            Some(v) => assoc_first(pairs_view(entries@), key@) == Some(v@),
            None => assoc_first(pairs_view(entries@), key@) is None,
        },
{
    let ghost pv = pairs_view(entries@);
    let mut i: usize = 0;
    while i < entries.len()
        invariant
            0 <= i <= entries@.len(),
            pv == pairs_view(entries@),
            pv.len() == entries@.len(),
            forall|j: int| 0 <= j < i ==> #[trigger] pv[j].0 != key@,
        decreases entries@.len() - i,
    {
        if bytes_eq(entries[i].0.as_slice(), key) {
            proof {
                lemma_assoc_first_skip(pv, key@, i as int);
                assert(pv.skip(i as int)[0] == pv[i as int]);
            }
            return Some(&entries[i].1);
        }
        i += 1;
    }
    proof {
        lemma_assoc_first_skip(pv, key@, i as int);
        assert(pv.skip(i as int).len() == 0);
    }
    None
}

/// The name of the one request header that influences static lookup:
/// `accept-encoding`.
pub open spec fn accept_encoding_name() -> Seq<u8> {
    seq![
        97u8, 99u8, 99u8, 101u8, 112u8, 116u8, 45u8, 101u8, 110u8, 99u8, 111u8, 100u8, 105u8, 110u8, 103u8,
    ]
}

/// The executable `accept-encoding` header name.
pub fn accept_encoding_name_vec() -> (r: Vec<u8>)
    ensures
        r@ == accept_encoding_name(),
{
    let mut r: Vec<u8> = Vec::new();
    r.push(97u8);
    r.push(99u8);
    r.push(99u8);
    r.push(101u8);
    r.push(112u8);
    r.push(116u8);
    r.push(45u8);
    r.push(101u8);
    r.push(110u8);
    r.push(99u8);
    r.push(111u8);
    r.push(100u8);
    r.push(105u8);
    r.push(110u8);
    r.push(103u8);
    proof {
        assert(r@ =~= accept_encoding_name());
    }
    r
}

/// The `accept-encoding` value a request carries, if any.
pub open spec fn request_encoding(rv: ReqView) -> Option<Seq<u8>> {
    assoc_first(rv.headers, accept_encoding_name())
}

/// The reduced header set a static lookup sees: every header is cleared but
/// `accept-encoding`, which is kept with its value when present.
pub open spec fn sanitized_headers(hs: Seq<(Seq<u8>, Seq<u8>)>) -> Seq<(Seq<u8>, Seq<u8>)> {
    match assoc_first(hs, accept_encoding_name()) {
        Some(v) => seq![(accept_encoding_name(), v)],
        None => Seq::empty(),
    }
}

/// Sanitizing keeps the `accept-encoding` value itself: the lookup view
/// negotiates exactly as the original request would.
pub proof fn lemma_sanitize_keeps_encoding(hs: Seq<(Seq<u8>, Seq<u8>)>)
    ensures
        assoc_first(sanitized_headers(hs), accept_encoding_name()) == assoc_first(
            hs,
            accept_encoding_name(),
        ),
{
    match assoc_first(hs, accept_encoding_name()) {
        Some(v) => {
            let s = sanitized_headers(hs);
            assert(s[0].0 == accept_encoding_name());
        },
        None => {
        },
    }
}

/// The sanitized header list, computed.
pub fn sanitize_headers(headers: &Vec<(Vec<u8>, Vec<u8>)>) -> (r: Vec<(Vec<u8>, Vec<u8>)>)
    ensures
        pairs_view(r@) == sanitized_headers(pairs_view(headers@)),
{
    let name = accept_encoding_name_vec();
    let mut r: Vec<(Vec<u8>, Vec<u8>)> = Vec::new();
    match assoc_get(headers, name.as_slice()) {
        Some(v) => {
            r.push((name, clone_bytes(v)));
            proof {
                assert(pairs_view(r@) =~= sanitized_headers(pairs_view(headers@)));
            }
        },
        None => {
            proof {
                assert(pairs_view(r@) =~= sanitized_headers(pairs_view(headers@)));
            }
        },
    }
    r
}

} // verus!
