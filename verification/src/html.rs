use vstd::prelude::*;

verus! {

/// True when `pat` occurs in `s` starting at index `i`.
pub open spec fn match_at(s: Seq<char>, pat: Seq<char>, i: int) -> bool {
    0 <= i && i + pat.len() <= s.len() && s.subrange(i, i + pat.len()) == pat
}

pub open spec fn first_match_from(s: Seq<char>, pat: Seq<char>, i: int) -> Option<int>
    decreases s.len() - i + 1,
{
    if i < 0 || i + pat.len() > s.len() {
        None
    } else if match_at(s, pat, i) {
        Some(i)
    } else {
        first_match_from(s, pat, i + 1)
    }
}

/// The index of the first occurrence of `pat` in `s`, if any.
pub open spec fn first_match(s: Seq<char>, pat: Seq<char>) -> Option<int> {
    first_match_from(s, pat, 0)
}

proof fn lemma_first_match_from_found(s: Seq<char>, pat: Seq<char>, lo: int, i: int)
    requires
        0 <= lo <= i,
        match_at(s, pat, i),
        forall|j: int| lo <= j < i ==> !match_at(s, pat, j),
    ensures
        first_match_from(s, pat, lo) == Some(i),
    decreases i - lo,
{
    if lo < i {
        lemma_first_match_from_found(s, pat, lo + 1, i);
    }
}

proof fn lemma_first_match_from_none(s: Seq<char>, pat: Seq<char>, lo: int)
    requires
        0 <= lo,
        forall|j: int| lo <= j ==> !match_at(s, pat, j),
    ensures
        first_match_from(s, pat, lo) is None,
    decreases s.len() - lo + 1,
{
    if lo + pat.len() <= s.len() {
        lemma_first_match_from_none(s, pat, lo + 1);
    }
}

proof fn lemma_first_match_from_is_first(s: Seq<char>, pat: Seq<char>, lo: int)
    requires
        0 <= lo,
        first_match_from(s, pat, lo) is Some,
    ensures
        ({
            let i = first_match_from(s, pat, lo)->Some_0;
            &&& lo <= i
            &&& match_at(s, pat, i)
            &&& forall|j: int| lo <= j < i ==> !match_at(s, pat, j)
        }),
    decreases s.len() - lo + 1,
{
    if !(lo + pat.len() > s.len()) && !match_at(s, pat, lo) {
        lemma_first_match_from_is_first(s, pat, lo + 1);
    }
}

fn match_at_exec(s: &str, pat: &str, i: usize) -> (r: bool)
    requires
        i + pat@.len() <= s@.len(),
    ensures
        r == match_at(s@, pat@, i as int),
{
    let n = s.unicode_len();
    let m = pat.unicode_len();
    let mut k: usize = 0;
    while k < m
        invariant
            k <= m,
            m == pat@.len(),
            n == s@.len(),
            i + m <= n,
            forall|t: int| 0 <= t < k ==> s@[i + t] == pat@[t],
        decreases m - k,
    {
        if s.get_char(i + k) != pat.get_char(k) {
            proof {
                if match_at(s@, pat@, i as int) {
                    assert(s@.subrange(i as int, i + m as int)[k as int] == pat@[k as int]);
                }
            }
            return false;
        }
        k = k + 1;
    }
    proof {
        assert(s@.subrange(i as int, i + m as int) =~= pat@);
    }
    true
}

fn find_first(s: &str, pat: &str) -> (r: Option<usize>)
    requires
        pat@.len() >= 1,
    ensures
        match r {
            Some(i) => first_match(s@, pat@) == Some(i as int),
            None => first_match(s@, pat@) is None,
        },
{
    let n = s.unicode_len();
    let m = pat.unicode_len();
    if m > n {
        proof {
            lemma_first_match_from_none(s@, pat@, 0);
        }
        return None;
    }
    let mut i: usize = 0;
    while i <= n - m
        invariant
            1 <= m <= n,
            n == s@.len(),
            m == pat@.len(),
            i <= n - m + 1,
            forall|j: int| 0 <= j < i ==> !match_at(s@, pat@, j),
        decreases n - m + 1 - i,
    {
        if match_at_exec(s, pat, i) {
            proof {
                lemma_first_match_from_found(s@, pat@, 0, i as int);
            }
            return Some(i);
        }
        i = i + 1;
    }
    proof {
        assert forall|j: int| 0 <= j implies !match_at(s@, pat@, j) by {
            if j < i {
            } else {
                assert(j + pat@.len() > s@.len());
            }
        }
        lemma_first_match_from_none(s@, pat@, 0);
    }
    None
}

/// The closing tag the injector looks for.
pub open spec fn body_close_tag() -> Seq<char> {
    "</body>"@
}

/// The live-reload client script: it reloads the document on a `reload`
/// message, and on an unexpected close it waits one second and reloads to
/// re-establish the connection.
pub open spec fn reload_script() -> Seq<char> {
    "
        <script>
            const ws = new WebSocket(`${window.location.protocol === 'https:' ? 'wss:' : 'ws:'}//${window.location.host}/ws`);
            ws.onmessage = (event) => {
                if (event.data === 'reload') window.location.reload();
            };
            ws.onclose = () => {
                console.log('LiveReload disconnected. Retrying in 1s...');
                setTimeout(() => window.location.reload(), 1000);
            };
        </script>
    "@
}

pub fn live_reload_script() -> (s: &'static str)
    ensures
        s@ == reload_script(),
{
    "
        <script>
            const ws = new WebSocket(`${window.location.protocol === 'https:' ? 'wss:' : 'ws:'}//${window.location.host}/ws`);
            ws.onmessage = (event) => {
                if (event.data === 'reload') window.location.reload();
            };
            ws.onclose = () => {
                console.log('LiveReload disconnected. Retrying in 1s...');
                setTimeout(() => window.location.reload(), 1000);
            };
        </script>
    "
}

/// An HTML document with the live-reload script inserted immediately before
/// the first closing body tag, or appended when the document has none.
pub open spec fn injected(html: Seq<char>) -> Seq<char> {
    match first_match(html, body_close_tag()) {
        Some(i) => html.subrange(0, i) + reload_script() + html.subrange(i, html.len() as int),
        None => html + reload_script(),
    }
}

/// Insert the live-reload client script into an HTML document, immediately
/// before the first `</body>` tag, or at the end when there is none.
pub fn inject_live_reload(html: &str) -> (r: String)
    ensures
        r@ == injected(html@),
{
    proof {
        reveal_strlit("</body>");
    }
    let script = live_reload_script();
    match find_first(html, "</body>") {
        Some(i) => {
            let n = html.unicode_len();
            proof {
                lemma_first_match_from_is_first(html@, body_close_tag(), 0);
            }
            let head = html.substring_char(0, i);
            let tail = html.substring_char(i, n);
            String::from_str(head).concat(script).concat(tail)
        },
        None => String::from_str(html).concat(script),
    }
}

/// Law (injection round trip): when the document holds a closing body tag,
/// the script lands immediately before the first such tag and the rest of the
/// document is unchanged on both sides of it; when the document holds none,
/// the script is appended after the unchanged document.
pub proof fn lemma_injection_round_trip(html: Seq<char>)
    ensures
        first_match(html, body_close_tag()) is Some ==> ({
            let i = first_match(html, body_close_tag())->Some_0;
            &&& match_at(html, body_close_tag(), i)
            &&& forall|j: int| 0 <= j < i ==> !match_at(html, body_close_tag(), j)
            &&& injected(html) == html.subrange(0, i) + reload_script() + html.subrange(
                i,
                html.len() as int,
            )
        }),
        first_match(html, body_close_tag()) is None ==> injected(html) == html + reload_script(),
{
    if first_match(html, body_close_tag()) is Some {
        lemma_first_match_from_is_first(html, body_close_tag(), 0);
    }
}

} // verus!
