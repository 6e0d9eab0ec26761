//! The static lookup: a model of the published static directory, and the
//! choice of a precompressed variant driven by `accept-encoding`.

use vstd::prelude::*;
use crate::bytes::{append_bytes, clone_bytes};
use crate::encoding::{
    accepts, accepts_coding, br_coding, br_coding_vec, br_suffix, br_suffix_vec, gz_suffix,
    gz_suffix_vec, gzip_coding, gzip_coding_vec,
};
use crate::request::{
    accept_encoding_name, accept_encoding_name_vec, assoc_first, assoc_get, pairs_view,
    request_encoding, HttpRequest,
};

verus! {

/// The published static directory: each entry pairs a logical asset path
/// (as requested, e.g. `/app.js` or `/app.js.br`) with the file's bytes.
/// The directory is read-only for the whole serving lifetime.
pub struct StaticDir {
    pub files: Vec<(Vec<u8>, Vec<u8>)>,
}

impl View for StaticDir {
    type V = Seq<(Seq<u8>, Seq<u8>)>;

    open spec fn view(&self) -> Seq<(Seq<u8>, Seq<u8>)> {
        pairs_view(self.files@)
    }
}

/// A response produced by the static lookup.
pub struct StaticResponse {
    pub status: u16,
    pub content_encoding: Option<Vec<u8>>,
    pub body: Vec<u8>,
}

/// What a static lookup came to: a response, a non-success status with no
/// response to serve, or a transport-level failure while reading.
pub enum StaticOutcome {
    Served(StaticResponse),
    OtherStatus(u16),
    TransportError(Vec<u8>),
}

/// The view of an optional byte vector.
pub open spec fn opt_bytes_view(o: Option<Vec<u8>>) -> Option<Seq<u8>> {
    match o {
        Some(v) => Some(v@),
        None => None,
    }
}

/// The variant the lookup serves for `path` under the `accept-encoding`
/// value `ae`, as (content-encoding, body): the brotli variant when `br` is
/// accepted and `path + ".br"` exists, else the gzip variant when `gzip` is
/// accepted and `path + ".gz"` exists, else the plain file, else nothing.
pub open spec fn spec_lookup(
    files: Seq<(Seq<u8>, Seq<u8>)>,
    path: Seq<u8>,
    ae: Option<Seq<u8>>,
) -> Option<(Option<Seq<u8>>, Seq<u8>)> {
    if accepts(ae, br_coding()) && assoc_first(files, path + br_suffix()) is Some {
        match assoc_first(files, path + br_suffix()) {
            Some(body) => Some((Some(br_coding()), body)),
            None => None,
        }
    } else if accepts(ae, gzip_coding()) && assoc_first(files, path + gz_suffix()) is Some {
        match assoc_first(files, path + gz_suffix()) {
            Some(body) => Some((Some(gzip_coding()), body)),
            None => None,
        }
    } else {
        match assoc_first(files, path) {
            Some(body) => Some((None, body)),
            None => None,
        }
    }
}

/// What the outcome of a static lookup must be: the chosen variant served
/// with status 200 and its content-encoding, or a 404 when nothing matches.
pub open spec fn static_lookup_post(
    files: Seq<(Seq<u8>, Seq<u8>)>,
    path: Seq<u8>,
    ae: Option<Seq<u8>>,
    r: StaticOutcome,
) -> bool {
    match spec_lookup(files, path, ae) {
        Some(choice) => r matches StaticOutcome::Served(resp) && resp.status == 200
            && opt_bytes_view(resp.content_encoding) == choice.0 && resp.body@ == choice.1,
        None => r matches StaticOutcome::OtherStatus(s) && s == 404,
    }
}

/// Resolve a request against the static directory, preferring a brotli and
/// then a gzip precompressed variant when the request accepts them. Reads
/// only the request's path and `accept-encoding` header.
pub fn static_file_resolve(dir: &StaticDir, req: &HttpRequest) -> (r: StaticOutcome)
    ensures
        static_lookup_post(dir@, req@.path, request_encoding(req@), r),
{
    let name = accept_encoding_name_vec();
    let ae: Option<&Vec<u8>> = assoc_get(&req.headers, name.as_slice());

    let accepts_br: bool = match ae {
        Some(v) => accepts_coding(v.as_slice(), br_coding_vec().as_slice()),
        None => false,
    };
    if accepts_br {
        let br_path = append_bytes(&req.path, br_suffix_vec().as_slice());
        match assoc_get(&dir.files, br_path.as_slice()) {
            Some(body) => {
                return StaticOutcome::Served(
                    StaticResponse {
                        status: 200,
                        content_encoding: Some(br_coding_vec()),
                        body: clone_bytes(body),
                    },
                );
            },
            None => {},
        }
    }

    let accepts_gz: bool = match ae {
        Some(v) => accepts_coding(v.as_slice(), gzip_coding_vec().as_slice()),
        None => false,
    };
    if accepts_gz {
        let gz_path = append_bytes(&req.path, gz_suffix_vec().as_slice());
        match assoc_get(&dir.files, gz_path.as_slice()) {
            Some(body) => {
                return StaticOutcome::Served(
                    StaticResponse {
                        status: 200,
                        content_encoding: Some(gzip_coding_vec()),
                        body: clone_bytes(body),
                    },
                );
            },
            None => {},
        }
    }

    match assoc_get(&dir.files, req.path.as_slice()) {
        Some(body) => StaticOutcome::Served(
            StaticResponse { status: 200, content_encoding: None, body: clone_bytes(body) },
        ),
        None => StaticOutcome::OtherStatus(404),
    }
}

} // verus!
