use vstd::prelude::*;

verus! {

/// True when the final segment of `p` has an extension: some character is a
/// dot that no later slash follows.
pub open spec fn has_extension(p: Seq<char>) -> bool {
    exists|i: int|
        0 <= i < p.len() && p[i] == '.' && (forall|j: int| i < j < p.len() ==> p[j] != '/')
}

/// The file name the resolver attempts for a request path: `index.html` for
/// the empty path, `p + ".html"` when the final segment has no extension,
/// otherwise the path itself.
pub open spec fn resolved_path(p: Seq<char>) -> Seq<char> {
    if p.len() == 0 {
        "index.html"@
    } else if !has_extension(p) {
        p + ".html"@
    } else {
        p
    }
}

fn has_extension_exec(p: &str) -> (r: bool)
    ensures
        r == has_extension(p@),
{
    let n = p.unicode_len();
    let mut k = n;
    while k > 0
        invariant
            k <= n,
            n == p@.len(),
            forall|j: int| k <= j < n ==> p@[j] != '.' && p@[j] != '/',
        decreases k,
    {
        let c = p.get_char(k - 1);
        if c == '.' {
            proof {
                let i = k - 1;
                assert(0 <= i < p@.len() && p@[i] == '.' && (forall|j: int|
                    i < j < p@.len() ==> p@[j] != '/'));
            }
            return true;
        }
        if c == '/' {
            proof {
                assert forall|i: int|
                    0 <= i < p@.len() && p@[i] == '.' implies !(forall|j: int|
                    i < j < p@.len() ==> p@[j] != '/') by {
                    assert(i < k - 1);
                    assert(i < k - 1 < p@.len() && p@[k - 1] == '/');
                }
            }
            return false;
        }
        k = k - 1;
    }
    false
}

/// Normalize a request path to the concrete file name the resolver attempts.
pub fn resolve_request_path(raw: &str) -> (r: String)
    ensures
        r@ == resolved_path(raw@),
{
    let n = raw.unicode_len();
    if n == 0 {
        String::from_str("index.html")
    } else if !has_extension_exec(raw) {
        String::from_str(raw).concat(".html")
    } else {
        String::from_str(raw)
    }
}

/// Law: a request path whose final segment carries no extension is resolved
/// by appending `.html` to it.
pub proof fn lemma_no_extension_appends_html(p: Seq<char>)
    requires
        p.len() > 0,
        !has_extension(p),
    ensures
        resolved_path(p) == p + ".html"@,
{
}

/// Law: the empty request path is resolved to `index.html`.
pub proof fn lemma_empty_path_resolves_to_index(p: Seq<char>)
    requires
        p.len() == 0,
    ensures
        resolved_path(p) == "index.html"@,
{
}

/// True when `s` ends with `suffix`.
pub open spec fn ends_with(s: Seq<char>, suffix: Seq<char>) -> bool {
    s.len() >= suffix.len() && s.subrange(s.len() - suffix.len(), s.len() as int) == suffix
}

pub fn ends_with_exec(s: &str, suffix: &str) -> (r: bool)
    ensures
        r == ends_with(s@, suffix@),
{
    let n = s.unicode_len();
    let m = suffix.unicode_len();
    if m > n {
        return false;
    }
    let mut k: usize = 0;
    while k < m
        invariant
            k <= m <= n,
            n == s@.len(),
            m == suffix@.len(),
            forall|t: int| 0 <= t < k ==> s@[n - m + t] == suffix@[t],
        decreases m - k,
    {
        if s.get_char(n - m + k) != suffix.get_char(k) {
            proof {
                if ends_with(s@, suffix@) {
                    assert(s@.subrange(n - m, n as int)[k as int] == suffix@[k as int]);
                }
            }
            return false;
        }
        k = k + 1;
    }
    proof {
        assert(s@.subrange(n - m, n as int) =~= suffix@);
    }
    true
}

/// The serving mode a resolved file name falls under.
#[derive(Clone, Copy, PartialEq, Eq, Structural, Debug)]
pub enum Compression {
    Gzip,
    Brotli,
}

#[derive(Clone, Copy, PartialEq, Eq, Structural, Debug)]
pub enum AssetKind {
    /// Stored compressed; served verbatim with a matching `Content-Encoding`.
    Precompressed(Compression),
    /// An HTML document; read as text and post-processed.
    Html,
    /// Any other static file; served with its inferred MIME type.
    Plain,
}

/// How a resolved file name is served: precompressed names by their suffix,
/// HTML documents by theirs, everything else as a plain static file.
pub open spec fn classify(name: Seq<char>) -> AssetKind {
    if ends_with(name, ".gz"@) {
        AssetKind::Precompressed(Compression::Gzip)
    } else if ends_with(name, ".br"@) {
        AssetKind::Precompressed(Compression::Brotli)
    } else if ends_with(name, ".html"@) {
        AssetKind::Html
    } else {
        AssetKind::Plain
    }
}

pub fn classify_asset(name: &str) -> (k: AssetKind)
    ensures
        k == classify(name@),
{
    if ends_with_exec(name, ".gz") {
        AssetKind::Precompressed(Compression::Gzip)
    } else if ends_with_exec(name, ".br") {
        AssetKind::Precompressed(Compression::Brotli)
    } else if ends_with_exec(name, ".html") {
        AssetKind::Html
    } else {
        AssetKind::Plain
    }
}

/// The name with a precompression suffix stripped; other names unchanged.
pub open spec fn base_of(name: Seq<char>) -> Seq<char> {
    if classify(name) matches AssetKind::Precompressed(_) {
        name.subrange(0, name.len() - 3)
    } else {
        name
    }
}

/// Strip the `.gz`/`.br` suffix from a precompressed file name.
pub fn base_name(name: &str) -> (r: String)
    ensures
        r@ == base_of(name@),
{
    let k = classify_asset(name);
    match k {
        AssetKind::Precompressed(_) => {
            proof {
                reveal_strlit(".gz");
                reveal_strlit(".br");
            }
            let n = name.unicode_len();
            String::from_str(name.substring_char(0, n - 3))
        },
        _ => String::from_str(name),
    }
}

/// A request path taken through the resolution steps that precede any
/// filesystem access: the concrete file name to attempt, how that name is to
/// be served, and whether it stays inside the serve root.
pub struct ResolvedRequest {
    pub file_name: String,
    pub kind: AssetKind,
    pub safe: bool,
}

/// Resolve a percent-decoded request path: normalize it to a file name,
/// classify how that name is served, and check it for traversal outside the
/// serve root.
pub fn resolve_request(raw: &str) -> (r: ResolvedRequest)
    ensures
        r.file_name@ == resolved_path(raw@),
        r.kind == classify(resolved_path(raw@)),
        r.safe == !has_traversal(resolved_path(raw@)),
{
    let file_name = resolve_request_path(raw);
    let kind = classify_asset(file_name.as_str());
    let safe = is_safe_path(file_name.as_str());
    ResolvedRequest { file_name, kind, safe }
}

/// True when `p` holds a `..` path segment, which would escape the serve
/// root when joined to it.
pub open spec fn dotdot_segment_at(p: Seq<char>, i: int) -> bool {
    &&& 0 <= i
    &&& i + 2 <= p.len()
    &&& p[i] == '.'
    &&& p[i + 1] == '.'
    &&& (i == 0 || p[i - 1] == '/')
    &&& (i + 2 == p.len() || p[i + 2] == '/')
}

pub open spec fn has_traversal(p: Seq<char>) -> bool {
    exists|i: int| dotdot_segment_at(p, i)
}

/// Reject request paths that try to traverse outside the serve root.
pub fn is_safe_path(p: &str) -> (r: bool)
    ensures
        r == !has_traversal(p@),
{
    let n = p.unicode_len();
    let mut i: usize = 0;
    while i < n
        invariant
            i <= n,
            n == p@.len(),
            forall|j: int| j < i ==> !dotdot_segment_at(p@, j),
        decreases n - i,
    {
        if n - i >= 2 {
            let dots = p.get_char(i) == '.' && p.get_char(i + 1) == '.';
            let open_left = i == 0 || p.get_char(i - 1) == '/';
            let open_right = i + 2 == n || p.get_char(i + 2) == '/';
            if dots && open_left && open_right {
                proof {
                    assert(dotdot_segment_at(p@, i as int));
                }
                return false;
            }
        }
        i = i + 1;
    }
    true
}

} // verus!
