use vstd::prelude::*;
use crate::config::ServeConfig;
use crate::html::injected;
use crate::html::inject_live_reload;
use crate::resolve::AssetKind;
use crate::resolve::Compression;
use crate::resolve::base_name;
use crate::resolve::base_of;
use crate::resolve::classify;
use crate::resolve::classify_asset;
use crate::resolve::ends_with;
use crate::resolve::ends_with_exec;

verus! {

/// One response header.
pub struct Header {
    pub name: String,
    pub value: String,
}

impl View for Header {
    type V = (Seq<char>, Seq<char>);

    open spec fn view(&self) -> (Seq<char>, Seq<char>) {
        (self.name@, self.value@)
    }
}

pub open spec fn header_views(hs: Seq<Header>) -> Seq<(Seq<char>, Seq<char>)> {
    hs.map_values(|h: Header| h@)
}

/// A response body: text for documents built in memory, raw bytes for files
/// served verbatim.
pub enum Body {
    Text(String),
    Bytes(Vec<u8>),
}

/// A shaped response, ready for a transport layer to send.
pub struct HttpResponse {
    pub status: u16,
    pub headers: Vec<Header>,
    pub body: Body,
}

fn push_header(hs: &mut Vec<Header>, name: &str, value: &str)
    ensures
        header_views(final(hs)@) == header_views(old(hs)@).push((name@, value@)),
{
    let h = Header { name: String::from_str(name), value: String::from_str(value) };
    hs.push(h);
    proof {
        assert(header_views(hs@) =~= header_views(old(hs)@).push((name@, value@)));
    }
}

/// The MIME type guessed for a file name, a fixed function of the name's
/// extension alone.
pub uninterp spec fn mime_for(name: Seq<char>) -> Seq<char>;

/// Relies on mime_guess::from_path with first_or_octet_stream: the guess is
/// read from a fixed extension table and depends on the path alone, with
/// `application/octet-stream` for an unknown extension.
#[verifier::external_body]
fn guess_mime(name: &str) -> (r: String)
    ensures
        r@ == mime_for(name@),
{
    mime_guess::from_path(name).first_or_octet_stream().as_ref().to_string()
}

/// The token a precompression suffix puts in `Content-Encoding`.
pub open spec fn encoding_token(c: Compression) -> Seq<char> {
    match c {
        Compression::Gzip => "gzip"@,
        Compression::Brotli => "br"@,
    }
}

/// The content type of a precompressed asset: guessed from the base name,
/// except that a WebAssembly module is always `application/wasm`.
pub open spec fn precompressed_content_type(name: Seq<char>) -> Seq<char> {
    if ends_with(base_of(name), ".wasm"@) {
        "application/wasm"@
    } else {
        mime_for(base_of(name))
    }
}

pub open spec fn precompressed_headers(name: Seq<char>, c: Compression) -> Seq<
    (Seq<char>, Seq<char>),
> {
    seq![
        ("Content-Type"@, precompressed_content_type(name)),
        ("Content-Encoding"@, encoding_token(c)),
    ]
}

/// Shape the response for a precompressed asset: the file's bytes verbatim
/// (never decompressed), `Content-Encoding` matching the suffix, and the
/// content type of the base name.
pub fn precompressed_response(name: &str, bytes: Vec<u8>) -> (r: HttpResponse)
    requires
        classify(name@) matches AssetKind::Precompressed(_),
    ensures
        r.status == 200,
        r.body matches Body::Bytes(b) && b@ == bytes@,
        header_views(r.headers@) == precompressed_headers(
            name@,
            classify(name@)->Precompressed_0,
        ),
{
    let kind = classify_asset(name);
    let base = base_name(name);
    let ct: String = if ends_with_exec(base.as_str(), ".wasm") {
        String::from_str("application/wasm")
    } else {
        guess_mime(base.as_str())
    };
    let enc: &str = match kind {
        AssetKind::Precompressed(Compression::Gzip) => "gzip",
        AssetKind::Precompressed(Compression::Brotli) => "br",
        _ => {
            proof {
                assert(false);
            }
            "gzip"
        },
    };
    let mut hs: Vec<Header> = Vec::new();
    push_header(&mut hs, "Content-Type", ct.as_str());
    push_header(&mut hs, "Content-Encoding", enc);
    proof {
        assert(header_views(hs@) =~= precompressed_headers(
            name@,
            classify(name@)->Precompressed_0,
        ));
    }
    HttpResponse { status: 200, headers: hs, body: Body::Bytes(bytes) }
}

/// The headers of an HTML response: the charset-qualified content type, and
/// the cache and cross-origin isolation headers the configuration asks for.
pub open spec fn html_headers(cfg: ServeConfig) -> Seq<(Seq<char>, Seq<char>)> {
    seq![("Content-Type"@, "text/html; charset=utf-8"@)] + (if cfg.disable_cache {
        seq![("Cache-Control"@, "no-cache"@)]
    } else {
        Seq::empty()
    }) + (if cfg.shared_buffer_headers {
        seq![
            ("Cross-Origin-Embedder-Policy"@, "require-corp"@),
            ("Cross-Origin-Opener-Policy"@, "same-origin"@),
        ]
    } else {
        Seq::empty()
    })
}

/// Shape the response for an HTML document: inject the live-reload script
/// when reload is enabled, and apply the configured headers.
pub fn html_response(cfg: &ServeConfig, text: String) -> (r: HttpResponse)
    ensures
        html_post(r, *cfg, text@),
{
    let body: String = if cfg.reload_enabled {
        inject_live_reload(text.as_str())
    } else {
        text
    };
    let mut hs: Vec<Header> = Vec::new();
    push_header(&mut hs, "Content-Type", "text/html; charset=utf-8");
    if cfg.disable_cache {
        push_header(&mut hs, "Cache-Control", "no-cache");
    }
    if cfg.shared_buffer_headers {
        push_header(&mut hs, "Cross-Origin-Embedder-Policy", "require-corp");
        push_header(&mut hs, "Cross-Origin-Opener-Policy", "same-origin");
    }
    proof {
        assert(header_views(hs@) =~= html_headers(*cfg));
    }
    HttpResponse { status: 200, headers: hs, body: Body::Text(body) }
}

/// The literal body sent when no custom not-found page exists.
pub open spec fn default_not_found_body() -> Seq<char> {
    "404 - Not Found"@
}

/// Shape the not-found response: the custom `404.html` page when the serve
/// root holds one, otherwise the literal default body; status 404 either way.
pub fn not_found_response(custom: Option<Vec<u8>>) -> (r: HttpResponse)
    ensures
        not_found_post(r, custom.deep_view()),
{
    match custom {
        Some(page) => {
            let mut hs: Vec<Header> = Vec::new();
            push_header(&mut hs, "Content-Type", "text/html; charset=utf-8");
            proof {
                assert(page.deep_view() =~= page@);
                assert(header_views(hs@) =~= seq![
                    ("Content-Type"@, "text/html; charset=utf-8"@),
                ]);
            }
            HttpResponse { status: 404, headers: hs, body: Body::Bytes(page) }
        },
        None => {
            let hs: Vec<Header> = Vec::new();
            proof {
                assert(header_views(hs@) =~= Seq::<(Seq<char>, Seq<char>)>::empty());
            }
            HttpResponse {
                status: 404,
                headers: hs,
                body: Body::Text(String::from_str("404 - Not Found")),
            }
        },
    }
}

/// The catch-all error page, naming the path that could not be routed.
pub open spec fn error_page(path: Seq<char>) -> Seq<char> {
    "<!DOCTYPE html><html><head><title>Server Error</title></head><body><h1>Error</h1><p>Internal Server Error: Cannot process request for '"@
        + path
        + "'</p></body></html>"@
}

/// Shape the catch-all response for a request that matches no route: status
/// 500 and a small literal HTML page naming the requested path.
pub fn error_response(path: &str) -> (r: HttpResponse)
    ensures
        r.status == 500,
        r.body matches Body::Text(t) && t@ == error_page(path@),
        header_views(r.headers@) == seq![("Content-Type"@, "text/html"@)],
{
    let body = String::from_str(
        "<!DOCTYPE html><html><head><title>Server Error</title></head><body><h1>Error</h1><p>Internal Server Error: Cannot process request for '",
    ).concat(path).concat("'</p></body></html>");
    let mut hs: Vec<Header> = Vec::new();
    push_header(&mut hs, "Content-Type", "text/html");
    proof {
        assert(header_views(hs@) =~= seq![("Content-Type"@, "text/html"@)]);
    }
    HttpResponse { status: 500, headers: hs, body: Body::Text(body) }
}

/// What `html_response` promises of a result: status 200, the configured
/// headers, and the document with the script injected when reload is enabled.
pub open spec fn html_post(r: HttpResponse, cfg: ServeConfig, text: Seq<char>) -> bool {
    &&& r.status == 200
    &&& r.body matches Body::Text(t) && t@ == (if cfg.reload_enabled {
        injected(text)
    } else {
        text
    })
    &&& header_views(r.headers@) == html_headers(cfg)
}

/// What `not_found_response` promises of a result: status 404, and the custom
/// page's bytes when one exists, the literal default body when none does.
pub open spec fn not_found_post(r: HttpResponse, custom: Option<Seq<u8>>) -> bool {
    &&& r.status == 404
    &&& match custom {
        Some(page) => r.body matches Body::Bytes(b) && b@ == page && header_views(r.headers@)
            == seq![("Content-Type"@, "text/html; charset=utf-8"@)],
        None => r.body matches Body::Text(t) && t@ == default_not_found_body() && header_views(
            r.headers@,
        ) == Seq::<(Seq<char>, Seq<char>)>::empty(),
    }
}

/// The tail of the HTML branch of request handling, once the filesystem reads
/// are done: the document when it could be read, shaped per the
/// configuration; otherwise the not-found fallback chain (the custom page
/// when the serve root holds one, the literal default when it does not).
pub fn serve_html(cfg: &ServeConfig, content: Option<String>, fallback_page: Option<Vec<u8>>) -> (r:
    HttpResponse)
    ensures
        match content {
            Some(text) => html_post(r, *cfg, text@),
            None => not_found_post(r, fallback_page.deep_view()),
        },
{
    match content {
        Some(text) => html_response(cfg, text),
        None => not_found_response(fallback_page),
    }
}

/// What `precompressed_response` promises of a result: the pinned status,
/// body and headers for a given name and file contents.
pub open spec fn precompressed_post(r: HttpResponse, name: Seq<char>, bytes: Seq<u8>) -> bool {
    &&& r.status == 200
    &&& r.body matches Body::Bytes(b) && b@ == bytes
    &&& header_views(r.headers@) == precompressed_headers(name, classify(name)->Precompressed_0)
}

/// Law (idempotence): serving the same static asset twice yields
/// byte-identical bodies and identical headers, because the response is
/// pinned to the file's bytes and name alone.
pub proof fn lemma_static_asset_idempotent(
    r1: HttpResponse,
    r2: HttpResponse,
    name: Seq<char>,
    bytes: Seq<u8>,
)
    requires
        precompressed_post(r1, name, bytes),
        precompressed_post(r2, name, bytes),
    ensures
        r1.body matches Body::Bytes(b1) && r2.body matches Body::Bytes(b2) && b1@ == b2@,
        header_views(r1.headers@) == header_views(r2.headers@),
        r1.status == r2.status,
{
}

} // verus!
