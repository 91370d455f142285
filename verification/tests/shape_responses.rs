use liveserve::Body;
use liveserve::HttpResponse;
use liveserve::ServeConfig;
use liveserve::error_response;
use liveserve::html_response;
use liveserve::live_reload_script;
use liveserve::not_found_response;
use liveserve::precompressed_response;
use liveserve::serve_html;

fn header_value(r: &HttpResponse, name: &str) -> Option<String> {
    for h in &r.headers {
        if h.name == name {
            return Some(h.value.clone());
        }
    }
    None
}

fn body_bytes(r: &HttpResponse) -> Vec<u8> {
    match &r.body {
        Body::Bytes(b) => b.clone(),
        Body::Text(_) => panic!("expected a byte body"),
    }
}

fn body_text(r: &HttpResponse) -> String {
    match &r.body {
        Body::Text(t) => t.clone(),
        Body::Bytes(_) => panic!("expected a text body"),
    }
}

#[test]
fn gzip_asset_carries_matching_encoding_and_verbatim_body() {
    let bytes = vec![0x1f, 0x8b, 8, 0, 1, 2, 3];
    let r = precompressed_response("bundle.js.gz", bytes.clone());
    assert_eq!(r.status, 200);
    assert_eq!(header_value(&r, "Content-Encoding").as_deref(), Some("gzip"));
    assert_eq!(body_bytes(&r), bytes);
}

#[test]
fn brotli_asset_carries_matching_encoding_and_verbatim_body() {
    let bytes = vec![0xce, 0xb2, 0xcf, 0x81];
    let r = precompressed_response("data.json.br", bytes.clone());
    assert_eq!(r.status, 200);
    assert_eq!(header_value(&r, "Content-Encoding").as_deref(), Some("br"));
    assert_eq!(body_bytes(&r), bytes);
}

#[test]
fn wasm_base_name_forces_wasm_content_type() {
    let r = precompressed_response("game.wasm.gz", vec![0]);
    assert_eq!(header_value(&r, "Content-Type").as_deref(), Some("application/wasm"));
    let r = precompressed_response("game.wasm.br", vec![0]);
    assert_eq!(header_value(&r, "Content-Type").as_deref(), Some("application/wasm"));
}

#[test]
fn content_type_is_guessed_from_the_base_name() {
    let r = precompressed_response("style.css.gz", vec![1, 2]);
    assert_eq!(header_value(&r, "Content-Type").as_deref(), Some("text/css"));
    let r = precompressed_response("unknown.zzz.br", vec![1, 2]);
    assert_eq!(
        header_value(&r, "Content-Type").as_deref(),
        Some("application/octet-stream")
    );
}

#[test]
fn same_asset_twice_yields_byte_identical_bodies() {
    let bytes = vec![9, 9, 9, 1];
    let r1 = precompressed_response("bundle.js.gz", bytes.clone());
    let r2 = precompressed_response("bundle.js.gz", bytes);
    assert_eq!(body_bytes(&r1), body_bytes(&r2));
}

fn cfg(reload: bool, shared: bool, no_cache: bool) -> ServeConfig {
    ServeConfig { reload_enabled: reload, shared_buffer_headers: shared, disable_cache: no_cache }
}

#[test]
fn html_with_reload_injects_before_closing_body() {
    let r = html_response(&cfg(true, false, false), String::from("<body>Hi</body>"));
    assert_eq!(r.status, 200);
    assert_eq!(
        header_value(&r, "Content-Type").as_deref(),
        Some("text/html; charset=utf-8")
    );
    let expected = format!("<body>Hi{}</body>", live_reload_script());
    assert_eq!(body_text(&r), expected);
}

#[test]
fn html_without_reload_is_untouched() {
    let r = html_response(&cfg(false, false, false), String::from("<body>Hi</body>"));
    assert_eq!(body_text(&r), "<body>Hi</body>");
    assert_eq!(header_value(&r, "Cache-Control"), None);
    assert_eq!(header_value(&r, "Cross-Origin-Embedder-Policy"), None);
}

#[test]
fn cache_and_isolation_headers_follow_the_config() {
    let r = html_response(&cfg(false, true, true), String::from("x"));
    assert_eq!(header_value(&r, "Cache-Control").as_deref(), Some("no-cache"));
    assert_eq!(
        header_value(&r, "Cross-Origin-Embedder-Policy").as_deref(),
        Some("require-corp")
    );
    assert_eq!(
        header_value(&r, "Cross-Origin-Opener-Policy").as_deref(),
        Some("same-origin")
    );
}

#[test]
fn custom_not_found_page_is_served_with_status_404() {
    let page = b"<h1>gone</h1>".to_vec();
    let r = not_found_response(Some(page.clone()));
    assert_eq!(r.status, 404);
    assert_eq!(body_bytes(&r), page);
}

#[test]
fn default_not_found_body_is_the_literal() {
    let r = not_found_response(None);
    assert_eq!(r.status, 404);
    assert_eq!(body_text(&r), "404 - Not Found");
}

#[test]
fn missing_html_falls_back_through_the_chain() {
    let c = cfg(true, false, false);
    let r = serve_html(&c, None, Some(b"custom".to_vec()));
    assert_eq!(r.status, 404);
    assert_eq!(body_bytes(&r), b"custom".to_vec());
    let r = serve_html(&c, None, None);
    assert_eq!(r.status, 404);
    assert_eq!(body_text(&r), "404 - Not Found");
    let r = serve_html(&c, Some(String::from("<body>Hi</body>")), None);
    assert_eq!(r.status, 200);
    assert_eq!(body_text(&r), format!("<body>Hi{}</body>", live_reload_script()));
}

#[test]
fn root_request_serves_injected_index_document() {
    // The root of the served directory holds an index.html whose content is
    // `<body>Hi</body>`; a request for `/` with reload enabled yields 200,
    // the charset-qualified HTML content type, and the document with the
    // script between `<body>Hi` and `</body>`.
    let resolved = liveserve::resolve_request("");
    assert_eq!(resolved.file_name, "index.html");
    assert!(resolved.safe);
    let r = serve_html(&cfg(true, false, false), Some(String::from("<body>Hi</body>")), None);
    assert_eq!(r.status, 200);
    assert_eq!(
        header_value(&r, "Content-Type").as_deref(),
        Some("text/html; charset=utf-8")
    );
    assert_eq!(body_text(&r), format!("<body>Hi{}</body>", live_reload_script()));
}

#[test]
fn error_page_names_the_requested_path() {
    let r = error_response("/odd/route");
    assert_eq!(r.status, 500);
    assert_eq!(header_value(&r, "Content-Type").as_deref(), Some("text/html"));
    let t = body_text(&r);
    assert!(t.contains("Internal Server Error: Cannot process request for '/odd/route'"));
    assert!(t.starts_with("<!DOCTYPE html>"));
}
