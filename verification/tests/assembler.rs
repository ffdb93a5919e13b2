use tauri_plugin_localhost::assembler::{
    bad_gateway, conclude, default_headers, mirror, not_found, seal_asset_response, serve_asset,
    serve_asset_with,
};
use tauri_plugin_localhost::headers::HeaderSet;
use tauri_plugin_localhost::message::{Asset, LocalRequest, LocalResponse, UpstreamResponse};

fn asset(bytes: &[u8], mime: &str, csp: Option<&str>) -> Asset {
    Asset { bytes: bytes.to_vec(), mime_type: mime.to_string(), csp_header: csp.map(str::to_string) }
}

fn get(url: &str) -> LocalRequest {
    LocalRequest::new("GET".to_string(), url.to_string(), Vec::new(), Vec::new())
}

#[test]
fn served_asset_has_status_200_content_type_and_body() {
    let out = serve_asset(asset(b"<h1>hi</h1>", "text/html", None));
    assert_eq!(out.status, 200);
    assert_eq!(out.headers.get("Content-Type"), Some(&"text/html".to_string()));
    assert_eq!(out.headers.len(), 1);
    assert_eq!(out.body, b"<h1>hi</h1>".to_vec());
}

#[test]
fn served_asset_carries_csp_only_when_the_asset_has_one() {
    let with = serve_asset(asset(b"x", "text/css", Some("default-src 'self'")));
    assert_eq!(with.headers.get("Content-Security-Policy"), Some(&"default-src 'self'".to_string()));
    assert_eq!(with.headers.get("Content-Type"), Some(&"text/css".to_string()));
    assert_eq!(with.headers.len(), 2);
    let without = serve_asset(asset(b"x", "text/css", None));
    assert!(!without.headers.contains("Content-Security-Policy"));
}

#[test]
fn default_headers_are_content_type_then_csp() {
    let defaults = default_headers(&asset(b"", "image/png", Some("p")));
    let expected = vec![
        ("Content-Type".to_string(), "image/png".to_string()),
        ("Content-Security-Policy".to_string(), "p".to_string()),
    ];
    assert_eq!(defaults.headers().entries(), &expected);
}

#[test]
fn unfit_mime_type_is_dropped_not_fatal() {
    let out = serve_asset(asset(b"data", "text/\nhtml", Some("default-src 'self'")));
    assert_eq!(out.status, 200);
    assert!(!out.headers.contains("Content-Type"));
    assert_eq!(out.headers.get("Content-Security-Policy"), Some(&"default-src 'self'".to_string()));
    assert_eq!(out.body, b"data".to_vec());
}

#[test]
fn seal_drops_unfit_hook_headers() {
    let mut response = LocalResponse::new();
    response.add_header("Content-Type", "text/plain");
    response.add_header("bad header", "x");
    response.add_header("X-Bad", "a\r\nInjected: yes");
    let out = seal_asset_response(response, vec![1, 2, 3]);
    assert_eq!(out.status, 200);
    assert_eq!(out.headers.len(), 1);
    assert_eq!(out.headers.get("Content-Type"), Some(&"text/plain".to_string()));
    assert_eq!(out.body, vec![1, 2, 3]);
}

#[test]
fn hook_runs_exactly_once_and_its_writes_are_sent() {
    let mut calls = 0;
    let request = get("/index.html");
    let out = serve_asset_with(
        &request,
        asset(b"<h1>hi</h1>", "text/html", None),
        |seen: &LocalRequest, mut response: LocalResponse| {
            calls += 1;
            assert_eq!(seen.url(), "/index.html");
            assert_eq!(response.headers().get("Content-Type"), Some(&"text/html".to_string()));
            response.add_header("X-Frame-Options", "DENY");
            response
        },
    );
    assert_eq!(calls, 1);
    assert_eq!(out.status, 200);
    assert_eq!(out.headers.get("X-Frame-Options"), Some(&"DENY".to_string()));
    assert_eq!(out.headers.get("Content-Type"), Some(&"text/html".to_string()));
    assert_eq!(out.body, b"<h1>hi</h1>".to_vec());
}

#[test]
fn hook_overrides_defaults_when_keys_collide() {
    let request = get("/a.bin");
    let out = serve_asset_with(
        &request,
        asset(b"\x00\x01", "application/octet-stream", Some("default-src 'self'")),
        |_seen: &LocalRequest, mut response: LocalResponse| {
            response.add_header("Content-Type", "application/wasm");
            response
        },
    );
    assert_eq!(out.headers.get("Content-Type"), Some(&"application/wasm".to_string()));
    assert_eq!(out.headers.get("Content-Security-Policy"), Some(&"default-src 'self'".to_string()));
    assert_eq!(out.headers.len(), 2);
}

#[test]
fn hook_that_writes_nothing_leaves_defaults() {
    let request = get("/a.css");
    let out = serve_asset_with(
        &request,
        asset(b"a{}", "text/css", None),
        |_seen: &LocalRequest, response: LocalResponse| response,
    );
    assert_eq!(out.headers.len(), 1);
    assert_eq!(out.headers.get("Content-Type"), Some(&"text/css".to_string()));
}

#[test]
fn not_found_is_exactly_404_with_two_headers_and_no_body() {
    let out = not_found();
    assert_eq!(out.status, 404);
    let expected = vec![
        ("Content-Type".to_string(), "text/html".to_string()),
        ("Content-Security-Policy".to_string(), "default-src 'none'".to_string()),
    ];
    assert_eq!(out.headers.entries(), &expected);
    assert!(out.body.is_empty());
}

#[test]
fn bad_gateway_is_502_without_headers_or_body() {
    let out = bad_gateway();
    assert_eq!(out.status, 502);
    assert_eq!(out.headers.len(), 0);
    assert!(out.body.is_empty());
}

fn upstream() -> UpstreamResponse {
    let mut headers = HeaderSet::new();
    headers.insert("content-type".to_string(), "application/javascript".to_string());
    headers.insert("etag".to_string(), "W/\"1\"".to_string());
    UpstreamResponse { status: 203, headers, body: b"export default 1".to_vec() }
}

#[test]
fn mirror_copies_status_headers_and_body() {
    let answered = upstream();
    let out = mirror(upstream());
    assert_eq!(out.status, 203);
    assert_eq!(out.headers.entries(), answered.headers.entries());
    assert_eq!(out.body, b"export default 1".to_vec());
}

#[test]
fn conclude_mirrors_an_answer_and_reports_502_for_a_failure() {
    let answered = conclude(Some(upstream()));
    assert_eq!(answered.status, 203);
    assert_eq!(answered.headers.get("etag"), Some(&"W/\"1\"".to_string()));
    assert_eq!(answered.body, b"export default 1".to_vec());
    let failed = conclude(None);
    assert_eq!(failed.status, 502);
    assert_eq!(failed.headers.len(), 0);
    assert!(failed.body.is_empty());
}
