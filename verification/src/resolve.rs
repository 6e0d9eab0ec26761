//! The three resolvers: plain fallback, asset-rewriting, and renderer-only.
//!
//! Each decision is a pure function of the request and the directory model;
//! the surrounding server performs the disk reads and runs the renderer, and
//! may run any number of requests concurrently, since nothing here holds
//! state across calls.

use vstd::prelude::*;
use crate::bytes::clone_bytes;
use crate::lookup::{
    opt_bytes_view, spec_lookup, static_file_resolve, StaticDir, StaticOutcome, StaticResponse,
};
use crate::request::{
    lemma_sanitize_keeps_encoding, request_encoding, sanitize_headers, sanitized_headers,
    HttpRequest, ReqView,
};
use crate::rewrite::{rewrite_asset_path, rewritten_path};

verus! {

/// The view of a static response.
pub struct RespView {
    pub status: u16,
    pub content_encoding: Option<Seq<u8>>,
    pub body: Seq<u8>,
}

impl View for StaticResponse {
    type V = RespView;

    open spec fn view(&self) -> RespView {
        RespView {
            status: self.status,
            content_encoding: opt_bytes_view(self.content_encoding),
            body: self.body@,
        }
    }
}

/// How a request is answered: a static response served verbatim, or the
/// request handed to the dynamic renderer.
pub enum Resolution {
    ServeStatic(StaticResponse),
    Render(HttpRequest),
}

/// The view of a resolution.
pub enum ResolutionView {
    Static(RespView),
    Rendered(ReqView),
}

impl View for Resolution {
    type V = ResolutionView;

    open spec fn view(&self) -> ResolutionView {
        match self {
            Resolution::ServeStatic(resp) => ResolutionView::Static(resp@),
            Resolution::Render(q) => ResolutionView::Rendered(q@),
        }
    }
}

/// Whether a lookup outcome short-circuits the fallback: only a served
/// response with status 200 does.
pub open spec fn outcome_success(o: StaticOutcome) -> bool {
    o matches StaticOutcome::Served(resp) && resp.status == 200
}

/// Whether a status code counts as a successful static lookup.
pub fn status_is_success(status: u16) -> (r: bool)
    ensures
        r == (status == 200),
{
    status == 200
}

/// The reduced request a static lookup sees: same method, path and query,
/// every header cleared but `accept-encoding`, and an empty body. The
/// original request is left untouched.
pub fn prepare_lookup_request(req: &HttpRequest) -> (r: HttpRequest)
    ensures
        r@.method == req@.method,
        r@.path == req@.path,
        r@.query == req@.query,
        r@.headers == sanitized_headers(req@.headers),
        r@.body.len() == 0,
{
    HttpRequest {
        method: clone_bytes(&req.method),
        path: clone_bytes(&req.path),
        query: match &req.query {
            Some(q) => Some(clone_bytes(q)),
            None => None,
        },
        headers: sanitize_headers(&req.headers),
        body: Vec::new(),
    }
}

/// The reduced request an asset lookup sees: the path rewritten to `/` plus
/// its final segment, the query dropped, headers sanitized, body empty. The
/// rewrite reads the original path alone, before any header sanitization.
pub fn prepare_asset_lookup_request(req: &HttpRequest) -> (r: HttpRequest)
    ensures
        r@.method == req@.method,
        r@.path == rewritten_path(req@.path),
        r@.query is None,
        r@.headers == sanitized_headers(req@.headers),
        r@.body.len() == 0,
{
    HttpRequest {
        method: clone_bytes(&req.method),
        path: rewrite_asset_path(&req.path),
        query: None,
        headers: sanitize_headers(&req.headers),
        body: Vec::new(),
    }
}

/// After the static lookup: serve a 200 outcome verbatim; on any other
/// outcome hand the renderer the original request, headers and body
/// unchanged.
pub fn resolve_after_lookup(original: HttpRequest, outcome: StaticOutcome) -> (r: Resolution)
    ensures
        outcome_success(outcome) ==> (r matches Resolution::ServeStatic(resp)
            && outcome matches StaticOutcome::Served(o) && resp == o),
        !outcome_success(outcome) ==> (r matches Resolution::Render(q) && q == original),
{
    match outcome {
        StaticOutcome::Served(resp) => {
            if resp.status == 200 {
                Resolution::ServeStatic(resp)
            } else {
                Resolution::Render(original)
            }
        },
        StaticOutcome::OtherStatus(_) => Resolution::Render(original),
        StaticOutcome::TransportError(_) => Resolution::Render(original),
    }
}

/// What resolving a request with fallback must come to, given the directory
/// and the request: the chosen static variant served with status 200, or,
/// when nothing matches, the untouched original request handed to the
/// renderer.
pub open spec fn fallback_post(
    files: Seq<(Seq<u8>, Seq<u8>)>,
    rv: ReqView,
    r: Resolution,
) -> bool {
    match spec_lookup(files, rv.path, request_encoding(rv)) {
        Some(choice) => r@ matches ResolutionView::Static(resp) && resp.status == 200
            && resp.content_encoding == choice.0 && resp.body == choice.1,
        None => r@ matches ResolutionView::Rendered(q) && q == rv,
    }
}

/// Resolve a request: static lookup on a sanitized view first, and on any
/// non-success outcome the original request, headers and body unchanged,
/// goes to the renderer.
pub fn resolve_fallback(dir: &StaticDir, req: HttpRequest) -> (r: Resolution)
    ensures
        fallback_post(dir@, req@, r),
{
    let lookup_req = prepare_lookup_request(&req);
    proof {
        lemma_sanitize_keeps_encoding(req@.headers);
    }
    let outcome = static_file_resolve(dir, &lookup_req);
    resolve_after_lookup(req, outcome)
}

/// What resolving an asset request must come to: the lookup runs on the
/// rewritten path, and a miss hands the renderer the original request with
/// its unrewritten path.
pub open spec fn asset_post(
    files: Seq<(Seq<u8>, Seq<u8>)>,
    rv: ReqView,
    r: Resolution,
) -> bool {
    match spec_lookup(files, rewritten_path(rv.path), request_encoding(rv)) {
        Some(choice) => r@ matches ResolutionView::Static(resp) && resp.status == 200
            && resp.content_encoding == choice.0 && resp.body == choice.1,
        None => r@ matches ResolutionView::Rendered(q) && q == rv,
    }
}

/// Resolve an asset-prefixed request: rewrite the path to its final segment
/// for the lookup; any miss falls back to the renderer with the original,
/// unrewritten request.
pub fn resolve_asset(dir: &StaticDir, req: HttpRequest) -> (r: Resolution)
    ensures
        asset_post(dir@, req@, r),
{
    let lookup_req = prepare_asset_lookup_request(&req);
    proof {
        lemma_sanitize_keeps_encoding(req@.headers);
    }
    let outcome = static_file_resolve(dir, &lookup_req);
    resolve_after_lookup(req, outcome)
}

/// The catch-all route: no static lookup at all, the request goes to the
/// renderer as received.
pub fn error_fallback(req: HttpRequest) -> (r: Resolution)
    ensures
        r matches Resolution::Render(q) && q == req,
{
    Resolution::Render(req)
}

} // verus!
