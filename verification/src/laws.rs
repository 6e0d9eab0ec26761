//! The library's laws: what the resolution guarantees for whole classes of
//! requests, proved once and for all.

use vstd::prelude::*;
use crate::encoding::{br_coding, br_suffix, gz_suffix, gzip_coding, lists_coding};
use crate::lookup::spec_lookup;
use crate::request::{assoc_first, request_encoding, ReqView};
use crate::resolve::{asset_post, fallback_post, Resolution, ResolutionView};
use crate::rewrite::{lemma_last_segment_suffix, rewritten_path, SLASH};

verus! {

/// A request without an `accept-encoding` header for a path whose plain file
/// exists is answered with status 200, the file's on-disk bytes, and no
/// content-encoding.
pub proof fn lemma_plain_file_served(
    files: Seq<(Seq<u8>, Seq<u8>)>,
    rv: ReqView,
    r: Resolution,
    body: Seq<u8>,
)
    requires
        request_encoding(rv) is None,
        assoc_first(files, rv.path) == Some(body),
        fallback_post(files, rv, r),
    ensures
        r@ matches ResolutionView::Static(resp) && resp.status == 200
            && resp.content_encoding is None && resp.body == body,
{
}

/// When both precompressed variants exist and the request accepts both `br`
/// and `gzip`, the brotli variant is served and `content-encoding` is `br`.
pub proof fn lemma_brotli_over_gzip(
    files: Seq<(Seq<u8>, Seq<u8>)>,
    rv: ReqView,
    r: Resolution,
    ae: Seq<u8>,
    br_body: Seq<u8>,
    gz_body: Seq<u8>,
)
    requires
        request_encoding(rv) == Some(ae),
        lists_coding(ae, br_coding()),
        lists_coding(ae, gzip_coding()),
        assoc_first(files, rv.path + br_suffix()) == Some(br_body),
        assoc_first(files, rv.path + gz_suffix()) == Some(gz_body),
        fallback_post(files, rv, r),
    ensures
        r@ matches ResolutionView::Static(resp) && resp.status == 200
            && resp.content_encoding == Some(br_coding()) && resp.body == br_body,
{
}

/// When no file matches the path in any form, the lookup chooses nothing and
/// the resolution hands the renderer the original request, headers and body
/// unchanged.
pub proof fn lemma_missing_file_falls_back(
    files: Seq<(Seq<u8>, Seq<u8>)>,
    rv: ReqView,
    r: Resolution,
)
    requires
        assoc_first(files, rv.path) is None,
        assoc_first(files, rv.path + br_suffix()) is None,
        assoc_first(files, rv.path + gz_suffix()) is None,
        fallback_post(files, rv, r),
    ensures
        r@ matches ResolutionView::Rendered(q) && q == rv,
{
}

/// The rewritten asset path is `/` followed by everything after the last `/`
/// of the original path, whatever the query was.
pub proof fn lemma_rewrite_takes_final_segment(p: Seq<u8>, i: int)
    requires
        0 <= i < p.len(),
        p[i] == SLASH,
        forall|j: int| i < j < p.len() ==> p[j] != SLASH,
    ensures
        rewritten_path(p) == seq![SLASH] + p.skip(i + 1),
{
    lemma_last_segment_suffix(p, i + 1);
}

/// An asset request whose rewritten path misses is rendered with its
/// original, unrewritten request.
pub proof fn lemma_asset_miss_renders_original(
    files: Seq<(Seq<u8>, Seq<u8>)>,
    rv: ReqView,
    r: Resolution,
)
    requires
        asset_post(files, rv, r),
        spec_lookup(files, rewritten_path(rv.path), request_encoding(rv)) is None,
    ensures
        r@ matches ResolutionView::Rendered(q) && q == rv,
{
}

/// An asset request whose path ends in `/` resolves to a fallback render of
/// the original request whenever the bare root path `/` names no file.
pub proof fn lemma_trailing_slash_falls_back(
    files: Seq<(Seq<u8>, Seq<u8>)>,
    rv: ReqView,
    r: Resolution,
)
    requires
        rv.path.len() > 0,
        rv.path.last() == SLASH,
        assoc_first(files, seq![SLASH]) is None,
        assoc_first(files, seq![SLASH] + br_suffix()) is None,
        assoc_first(files, seq![SLASH] + gz_suffix()) is None,
        asset_post(files, rv, r),
    ensures
        r@ matches ResolutionView::Rendered(q) && q == rv,
{
    lemma_trailing_slash_rewrites_to_root(rv.path);
}

/// An asset path ending in `/` rewrites to the bare root path `/`: the
/// degenerate segment is empty, never an error.
pub proof fn lemma_trailing_slash_rewrites_to_root(p: Seq<u8>)
    requires
        p.len() > 0,
        p.last() == SLASH,
    ensures
        rewritten_path(p) == seq![SLASH],
{
    assert(rewritten_path(p) =~= seq![SLASH]);
}

/// The resolution is a function of the directory and the request alone: any
/// two resolutions of the same request against the same directory agree.
/// Concurrent requests therefore cannot contaminate one another.
pub proof fn lemma_resolution_deterministic(
    files: Seq<(Seq<u8>, Seq<u8>)>,
    rv: ReqView,
    r1: Resolution,
    r2: Resolution,
)
    requires
        fallback_post(files, rv, r1),
        fallback_post(files, rv, r2),
    ensures
        r1@ == r2@,
{
    match spec_lookup(files, rv.path, request_encoding(rv)) {
        Some(choice) => {
            assert(r1@ matches ResolutionView::Static(a) && a.status == 200
                && a.content_encoding == choice.0 && a.body == choice.1);
            assert(r2@ matches ResolutionView::Static(b) && b.status == 200
                && b.content_encoding == choice.0 && b.body == choice.1);
        },
        None => {
        },
    }
}

} // verus!
