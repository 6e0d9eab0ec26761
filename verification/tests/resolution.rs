use fileserv::lookup::{StaticDir, StaticOutcome, StaticResponse};
use fileserv::request::HttpRequest;
use fileserv::resolve::{
    error_fallback, resolve_after_lookup, resolve_asset, resolve_fallback, status_is_success,
    Resolution,
};

fn v(s: &str) -> Vec<u8> {
    s.as_bytes().to_vec()
}

fn dir(entries: &[(&str, &str)]) -> StaticDir {
    let mut files: Vec<(Vec<u8>, Vec<u8>)> = Vec::new();
    for (path, contents) in entries {
        files.push((v(path), v(contents)));
    }
    StaticDir { files }
}

fn get(path: &str, headers: &[(&str, &str)]) -> HttpRequest {
    let mut hs: Vec<(Vec<u8>, Vec<u8>)> = Vec::new();
    for (name, value) in headers {
        hs.push((v(name), v(value)));
    }
    HttpRequest {
        method: v("GET"),
        path: v(path),
        query: None,
        headers: hs,
        body: Vec::new(),
    }
}

#[test]
fn plain_file_without_accept_encoding() {
    let d = dir(&[("/index.html", "<html>hello</html>")]);
    let req = get("/index.html", &[]);
    match resolve_fallback(&d, req) {
        Resolution::ServeStatic(resp) => {
            assert_eq!(resp.status, 200);
            assert_eq!(resp.content_encoding, None);
            assert_eq!(resp.body, v("<html>hello</html>"));
        }
        Resolution::Render(_) => panic!("expected the plain file to be served"),
    }
}

#[test]
fn brotli_preferred_when_both_variants_exist() {
    let d = dir(&[
        ("/app.js", "plain"),
        ("/app.js.gz", "gzip bytes"),
        ("/app.js.br", "brotli bytes"),
    ]);
    let req = get("/app.js", &[("accept-encoding", "gzip, br")]);
    match resolve_fallback(&d, req) {
        Resolution::ServeStatic(resp) => {
            assert_eq!(resp.status, 200);
            assert_eq!(resp.content_encoding, Some(v("br")));
            assert_eq!(resp.body, v("brotli bytes"));
        }
        Resolution::Render(_) => panic!("expected the brotli variant to be served"),
    }
}

#[test]
fn gzip_served_when_brotli_not_accepted() {
    let d = dir(&[
        ("/app.js", "plain"),
        ("/app.js.gz", "gzip bytes"),
        ("/app.js.br", "brotli bytes"),
    ]);
    let req = get("/app.js", &[("accept-encoding", "gzip")]);
    match resolve_fallback(&d, req) {
        Resolution::ServeStatic(resp) => {
            assert_eq!(resp.content_encoding, Some(v("gzip")));
            assert_eq!(resp.body, v("gzip bytes"));
        }
        Resolution::Render(_) => panic!("expected the gzip variant to be served"),
    }
}

#[test]
fn plain_file_served_when_variants_missing() {
    let d = dir(&[("/app.js", "plain")]);
    let req = get("/app.js", &[("accept-encoding", "gzip, br")]);
    match resolve_fallback(&d, req) {
        Resolution::ServeStatic(resp) => {
            assert_eq!(resp.content_encoding, None);
            assert_eq!(resp.body, v("plain"));
        }
        Resolution::Render(_) => panic!("expected the plain file to be served"),
    }
}

#[test]
fn accept_encoding_with_parameters_and_spaces() {
    let d = dir(&[("/app.js", "plain"), ("/app.js.br", "brotli bytes")]);
    let req = get("/app.js", &[("accept-encoding", " gzip;q=1.0 , br;q=0.8 ")]);
    match resolve_fallback(&d, req) {
        Resolution::ServeStatic(resp) => {
            assert_eq!(resp.content_encoding, Some(v("br")));
            assert_eq!(resp.body, v("brotli bytes"));
        }
        Resolution::Render(_) => panic!("expected the brotli variant to be served"),
    }
}

#[test]
fn missing_file_renders_original_request() {
    let d = dir(&[("/other.txt", "x")]);
    let mut req = get(
        "/absent.html",
        &[("cookie", "session=abc"), ("accept-encoding", "br"), ("x-extra", "kept")],
    );
    req.body = v("payload bytes");
    req.query = Some(v("a=1"));
    match resolve_fallback(&d, req) {
        Resolution::ServeStatic(_) => panic!("nothing should have been served"),
        Resolution::Render(q) => {
            assert_eq!(q.method, v("GET"));
            assert_eq!(q.path, v("/absent.html"));
            assert_eq!(q.query, Some(v("a=1")));
            assert_eq!(
                q.headers,
                vec![
                    (v("cookie"), v("session=abc")),
                    (v("accept-encoding"), v("br")),
                    (v("x-extra"), v("kept")),
                ]
            );
            assert_eq!(q.body, v("payload bytes"));
        }
    }
}

#[test]
fn asset_request_rewritten_and_served() {
    let d = dir(&[("/app-ab12cd34.js", "bundle")]);
    let req = get("/pkg/app-ab12cd34.js", &[]);
    match resolve_asset(&d, req) {
        Resolution::ServeStatic(resp) => {
            assert_eq!(resp.status, 200);
            assert_eq!(resp.content_encoding, None);
            assert_eq!(resp.body, v("bundle"));
        }
        Resolution::Render(_) => panic!("expected the flat asset to be served"),
    }
}

#[test]
fn asset_miss_renders_unrewritten_request() {
    let d = dir(&[]);
    let mut req = get("/pkg/app-ab12cd34.js", &[("cookie", "session=abc")]);
    req.query = Some(v("v=2"));
    req.body = v("body");
    match resolve_asset(&d, req) {
        Resolution::ServeStatic(_) => panic!("nothing should have been served"),
        Resolution::Render(q) => {
            assert_eq!(q.path, v("/pkg/app-ab12cd34.js"));
            assert_eq!(q.query, Some(v("v=2")));
            assert_eq!(q.headers, vec![(v("cookie"), v("session=abc"))]);
            assert_eq!(q.body, v("body"));
        }
    }
}

#[test]
fn asset_trailing_slash_falls_back() {
    let d = dir(&[("/app-ab12cd34.js", "bundle")]);
    let req = get("/pkg/", &[("accept-encoding", "br, gzip")]);
    match resolve_asset(&d, req) {
        Resolution::ServeStatic(_) => panic!("a trailing slash must not be served"),
        Resolution::Render(q) => {
            assert_eq!(q.path, v("/pkg/"));
        }
    }
}

#[test]
fn non_success_outcomes_all_fall_back() {
    let original = get("/page", &[("cookie", "c=1")]);
    match resolve_after_lookup(original, StaticOutcome::TransportError(v("disk failure"))) {
        Resolution::Render(q) => assert_eq!(q.path, v("/page")),
        Resolution::ServeStatic(_) => panic!("a transport error must fall back"),
    }

    let original = get("/page", &[]);
    match resolve_after_lookup(original, StaticOutcome::OtherStatus(500)) {
        Resolution::Render(q) => assert_eq!(q.path, v("/page")),
        Resolution::ServeStatic(_) => panic!("a non-success status must fall back"),
    }

    let original = get("/page", &[]);
    let refused = StaticResponse { status: 304, content_encoding: None, body: Vec::new() };
    match resolve_after_lookup(original, StaticOutcome::Served(refused)) {
        Resolution::Render(q) => assert_eq!(q.path, v("/page")),
        Resolution::ServeStatic(_) => panic!("only status 200 is served verbatim"),
    }

    let original = get("/page", &[]);
    let ok = StaticResponse { status: 200, content_encoding: None, body: v("bytes") };
    match resolve_after_lookup(original, StaticOutcome::Served(ok)) {
        Resolution::ServeStatic(resp) => assert_eq!(resp.body, v("bytes")),
        Resolution::Render(_) => panic!("a 200 outcome is served verbatim"),
    }
}

#[test]
fn error_fallback_renders_as_received() {
    let mut req = get("/some/app/route", &[("cookie", "session=abc")]);
    req.body = v("form data");
    match error_fallback(req) {
        Resolution::Render(q) => {
            assert_eq!(q.path, v("/some/app/route"));
            assert_eq!(q.headers, vec![(v("cookie"), v("session=abc"))]);
            assert_eq!(q.body, v("form data"));
        }
        Resolution::ServeStatic(_) => panic!("the catch-all route never serves statically"),
    }
}

#[test]
fn status_success_only_for_200() {
    assert!(status_is_success(200));
    assert!(!status_is_success(404));
    assert!(!status_is_success(304));
    assert!(!status_is_success(500));
}

#[test]
fn independent_requests_keep_their_own_outcomes() {
    let d = dir(&[
        ("/a.css", "a plain"),
        ("/a.css.br", "a brotli"),
        ("/b.css", "b plain"),
        ("/b.css.gz", "b gzip"),
        ("/c.css", "c plain"),
    ]);
    let outcomes = vec![
        resolve_fallback(&d, get("/a.css", &[("accept-encoding", "br")])),
        resolve_fallback(&d, get("/b.css", &[("accept-encoding", "gzip")])),
        resolve_fallback(&d, get("/c.css", &[])),
        resolve_fallback(&d, get("/d.css", &[("accept-encoding", "br, gzip")])),
    ];
    match &outcomes[0] {
        Resolution::ServeStatic(resp) => {
            assert_eq!(resp.content_encoding, Some(v("br")));
            assert_eq!(resp.body, v("a brotli"));
        }
        _ => panic!("first request expected its brotli variant"),
    }
    match &outcomes[1] {
        Resolution::ServeStatic(resp) => {
            assert_eq!(resp.content_encoding, Some(v("gzip")));
            assert_eq!(resp.body, v("b gzip"));
        }
        _ => panic!("second request expected its gzip variant"),
    }
    match &outcomes[2] {
        Resolution::ServeStatic(resp) => {
            assert_eq!(resp.content_encoding, None);
            assert_eq!(resp.body, v("c plain"));
        }
        _ => panic!("third request expected the plain file"),
    }
    match &outcomes[3] {
        Resolution::Render(q) => assert_eq!(q.path, v("/d.css")),
        _ => panic!("fourth request expected a fallback render"),
    }
}
