//! Extraction of method and path from one request line, and the routing of
//! that pair to a handler.

use vstd::prelude::*;

verus! {

/// The whitespace a token is trimmed of.
pub open spec fn is_space(c: char) -> bool {
    c == ' ' || c == '\t' || c == '\r' || c == '\n'
}

/// A sequence with its leading whitespace removed.
pub open spec fn trim_start(s: Seq<char>) -> Seq<char>
    decreases s.len(),
{
    if s.len() > 0 && is_space(s[0]) {
        trim_start(s.drop_first())
    } else {
        s
    }
}

/// A sequence with its trailing whitespace removed.
pub open spec fn trim_end(s: Seq<char>) -> Seq<char>
    decreases s.len(),
{
    if s.len() > 0 && is_space(s[s.len() - 1]) {
        trim_end(s.drop_last())
    } else {
        s
    }
}

/// A sequence with whitespace removed on both sides.
pub open spec fn trimmed(s: Seq<char>) -> Seq<char> {
    trim_end(trim_start(s))
}

proof fn lemma_trim_start_skip(s: Seq<char>, i: int)
    requires
        0 <= i <= s.len(),
        forall|j: int| 0 <= j < i ==> is_space(s[j]),
        i == s.len() || !is_space(s[i]),
    ensures
        trim_start(s) == s.subrange(i, s.len() as int),
    decreases i,
{
    if i == 0 {
        assert(s.subrange(0, s.len() as int) =~= s);
    } else {
        lemma_trim_start_skip(s.drop_first(), i - 1);
        assert(s.drop_first().subrange(i - 1, s.len() - 1) =~= s.subrange(i, s.len() as int));
    }
}

proof fn lemma_trim_end_skip(s: Seq<char>, k: int)
    requires
        0 <= k <= s.len(),
        forall|j: int| k <= j < s.len() ==> is_space(s[j]),
        k == 0 || !is_space(s[k - 1]),
    ensures
        trim_end(s) == s.subrange(0, k),
    decreases s.len() - k,
{
    if k == s.len() {
        if s.len() > 0 && is_space(s[s.len() - 1]) {
            lemma_trim_end_skip(s.drop_last(), k - 1);
            assert(s.drop_last().subrange(0, k - 1) =~= s.subrange(0, k - 1));
            assert(false);
        }
        assert(s.subrange(0, s.len() as int) =~= s);
    } else {
        lemma_trim_end_skip(s.drop_last(), k);
        assert(s.drop_last().subrange(0, k) =~= s.subrange(0, k));
    }
}

/// Whether two string slices hold the same characters.
pub fn str_eq(a: &str, b: &str) -> (r: bool)
    ensures
        r == (a@ == b@),
{
    let alen = a.unicode_len();
    let blen = b.unicode_len();
    if alen != blen {
        return false;
    }
    let mut i: usize = 0;
    while i < alen
        invariant
            i <= alen,
            alen == a@.len(),
            alen == b@.len(),
            forall|j: int| 0 <= j < i ==> a@[j] == b@[j],
        decreases alen - i,
    {
        if a.get_char(i) != b.get_char(i) {
            return false;
        }
        i = i + 1;
    }
    proof {
        assert(a@ =~= b@);
    }
    true
}

fn is_space_char(c: char) -> (r: bool)
    ensures
        r == is_space(c),
{
    c == ' ' || c == '\t' || c == '\r' || c == '\n'
}

/// A string slice with whitespace removed on both sides.
pub fn trim(s: &str) -> (r: &str)
    ensures
        r@ == trimmed(s@),
{
    let n = s.unicode_len();
    let mut a: usize = 0;
    while a < n && is_space_char(s.get_char(a))
        invariant
            a <= n,
            n == s@.len(),
            forall|j: int| 0 <= j < a ==> is_space(s@[j]),
        decreases n - a,
    {
        a = a + 1;
    }
    let mut b: usize = n;
    while b > a && is_space_char(s.get_char(b - 1))
        invariant
            a <= b <= n,
            n == s@.len(),
            a == n || !is_space(s@[a as int]),
            forall|j: int| b <= j < n ==> is_space(s@[j]),
        decreases b,
    {
        b = b - 1;
    }
    let r = s.substring_char(a, b);
    proof {
        lemma_trim_start_skip(s@, a as int);
        let t = s@.subrange(a as int, n as int);
        lemma_trim_end_skip(t, b - a);
        assert(t.subrange(0, b - a) =~= s@.subrange(a as int, b as int));
    }
    r
}

/// Why a request line cannot be parsed.
#[derive(Debug, Clone, Copy, PartialEq, Eq, Structural)]
pub enum ParseError {
    /// The line holds no '/' at all, so no path can be found.
    MissingSlash,
    /// The line does not end in the protocol marker.
    MissingVersion,
}

/// The method and path tokens of one request line.
#[derive(Debug)]
pub struct RequestLine {
    pub method: String,
    pub path: String,
}

/// The protocol marker a request line must end with.
pub open spec fn protocol_marker() -> Seq<char> {
    "HTTP/1.1"@
}

/// Whether a sequence ends with the given suffix.
pub open spec fn ends_with(s: Seq<char>, suffix: Seq<char>) -> bool {
    s.len() >= suffix.len() && s.subrange(s.len() - suffix.len(), s.len() as int) == suffix
}

/// What one request line parses to: the method token is what stands before
/// the first '/', trimmed; the path token is the rest, with the trailing
/// protocol marker removed, trimmed. A line without '/' or without the
/// marker is rejected.
pub open spec fn parse_spec(line: Seq<char>) -> Result<(Seq<char>, Seq<char>), ParseError> {
    match line.index_of_first('/') {
        Some(i) => {
            let method = trimmed(line.subrange(0, i));
            let tail = line.subrange(i, line.len() as int);
            if ends_with(tail, protocol_marker()) {
                Ok((method, trimmed(tail.subrange(0, tail.len() - protocol_marker().len()))))
            } else {
                Err(ParseError::MissingVersion)
            }
        },
        None => Err(ParseError::MissingSlash),
    }
}

/// Splits one request line into its method and path tokens.
pub fn parse_request_line(line: &str) -> (r: Result<RequestLine, ParseError>)
    ensures
        match r {
            Ok(rl) => parse_spec(line@) == Ok::<(Seq<char>, Seq<char>), ParseError>(
                (rl.method@, rl.path@),
            ),
            Err(e) => parse_spec(line@) == Err::<(Seq<char>, Seq<char>), ParseError>(e),
        },
{
    let n = line.unicode_len();
    let mut i: usize = 0;
    while i < n && line.get_char(i) != '/'
        invariant
            i <= n,
            n == line@.len(),
            forall|j: int| 0 <= j < i ==> line@[j] != '/',
        decreases n - i,
    {
        i = i + 1;
    }
    proof {
        line@.index_of_first_ensures('/');
    }
    if i == n {
        proof {
            assert(!line@.contains('/'));
        }
        return Err(ParseError::MissingSlash);
    }
    proof {
        assert(line@.contains('/'));
        let k = line@.index_of_first('/')->Some_0;
        assert(k == i) by {
            if k < i {
                assert(line@[k] != '/');
            }
            if i < k {
                assert(line@[i as int] != '/');
            }
        }
    }
    let method = trim(line.substring_char(0, i)).to_owned();
    let tail = line.substring_char(i, n);
    let tlen = n - i;
    proof {
        reveal_strlit("HTTP/1.1");
    }
    if tlen < 8 {
        return Err(ParseError::MissingVersion);
    }
    let suffix = tail.substring_char(tlen - 8, tlen);
    if !str_eq(suffix, "HTTP/1.1") {
        return Err(ParseError::MissingVersion);
    }
    let path = trim(tail.substring_char(0, tlen - 8)).to_owned();
    Ok(RequestLine { method, path })
}

/// The handler one request selects.
pub enum Route {
    /// The structured greeting at the root path.
    Root,
    /// The echo of one path segment, given as its argument.
    Echo(String),
    /// Everything else.
    NotFound,
}

/// Whether a path selects the echo handler: it starts with the echo prefix
/// and the rest holds no further '/'.
pub open spec fn is_echo_path(path: Seq<char>) -> bool {
    &&& path.len() >= "/echo/"@.len()
    &&& path.subrange(0, "/echo/"@.len() as int) == "/echo/"@
    &&& !path.subrange("/echo/"@.len() as int, path.len() as int).contains('/')
}

/// The segment the echo handler is given: the path behind the echo prefix.
pub open spec fn echo_segment(path: Seq<char>) -> Seq<char> {
    path.subrange("/echo/"@.len() as int, path.len() as int)
}

/// Selects the handler for one (method, path) pair: only the method "GET"
/// reaches a handler; "/" selects the root handler, an echo path selects the
/// echo handler with its segment, anything else the not-found handler.
pub fn route(method: &str, path: &str) -> (r: Route)
    ensures
        (if method@ == "GET"@ && path@ == "/"@ {
            r is Root
        } else if method@ == "GET"@ && is_echo_path(path@) {
            r matches Route::Echo(seg) && seg@ == echo_segment(path@)
        } else {
            r is NotFound
        }),
{
    proof {
        reveal_strlit("/echo/");
        reveal_strlit("/");
    }
    if !str_eq(method, "GET") {
        return Route::NotFound;
    }
    if str_eq(path, "/") {
        return Route::Root;
    }
    let n = path.unicode_len();
    if n < 6 {
        return Route::NotFound;
    }
    let prefix = path.substring_char(0, 6);
    if !str_eq(prefix, "/echo/") {
        return Route::NotFound;
    }
    let seg = path.substring_char(6, n);
    let slen = n - 6;
    let mut k: usize = 0;
    while k < slen
        invariant
            k <= slen,
            slen == seg@.len(),
            method@ == "GET"@,
            path@ != "/"@,
            seg@ == echo_segment(path@),
            is_echo_path(path@) == !seg@.contains('/'),
            forall|j: int| 0 <= j < k ==> seg@[j] != '/',
        decreases slen - k,
    {
        if seg.get_char(k) == '/' {
            return Route::NotFound;
        }
        k = k + 1;
    }
    Route::Echo(seg.to_owned())
}

} // verus!
