//! Rendering of wire responses: a structured (JSON) shape and a plain-text
//! shape, the latter with a `Content-Length` header computed on the decoded
//! body bytes.

use vstd::prelude::*;

verus! {

/// The character for one decimal digit.
pub open spec fn digit_char(d: nat) -> char {
    if d == 0 {
        '0'
    } else if d == 1 {
        '1'
    } else if d == 2 {
        '2'
    } else if d == 3 {
        '3'
    } else if d == 4 {
        '4'
    } else if d == 5 {
        '5'
    } else if d == 6 {
        '6'
    } else if d == 7 {
        '7'
    } else if d == 8 {
        '8'
    } else {
        '9'
    }
}

/// The decimal rendering of a number, most significant digit first,
/// without leading zeros (a single '0' for zero).
pub open spec fn decimal_digits(n: nat) -> Seq<char>
    decreases n,
{
    if n < 10 {
        seq![digit_char(n)]
    } else {
        decimal_digits(n / 10) + seq![digit_char(n % 10)]
    }
}

fn digit_str(d: usize) -> (r: &'static str)
    requires
        d < 10,
    ensures
        r@ == seq![digit_char(d as nat)],
{
    let r: &'static str = match d {
        0 => "0",
        1 => "1",
        2 => "2",
        3 => "3",
        4 => "4",
        5 => "5",
        6 => "6",
        7 => "7",
        8 => "8",
        _ => "9",
    };
    proof {
        reveal_strlit("0");
        reveal_strlit("1");
        reveal_strlit("2");
        reveal_strlit("3");
        reveal_strlit("4");
        reveal_strlit("5");
        reveal_strlit("6");
        reveal_strlit("7");
        reveal_strlit("8");
        reveal_strlit("9");
        assert(r@ =~= seq![digit_char(d as nat)]);
    }
    r
}

/// Renders a number in decimal, as it appears in a `Content-Length` header.
pub fn decimal_string(n: usize) -> (r: String)
    ensures
        r@ == decimal_digits(n as nat),
    decreases n,
{
    if n < 10 {
        digit_str(n).to_owned()
    } else {
        let mut s = decimal_string(n / 10);
        s.append(digit_str(n % 10));
        proof {
            assert(s@ =~= decimal_digits(n as nat));
        }
        s
    }
}

/// The wire bytes of a structured response: status line, the JSON content
/// type header, a blank line, then the body. No `Content-Length` is emitted
/// for this shape.
pub open spec fn json_wire(status: Seq<char>, body: Seq<char>) -> Seq<char> {
    status + "\r\nContent-Type: application/json\r\n\r\n"@ + body
}

/// Renders an already-serialized JSON body into a full structured response.
pub fn gen_json_response(status_line: &str, body: &str) -> (r: String)
    ensures
        r@ == json_wire(status_line@, body@),
{
    let mut r = status_line.to_owned();
    r.append("\r\nContent-Type: application/json\r\n\r\n");
    r.append(body);
    proof {
        assert(r@ =~= json_wire(status_line@, body@));
    }
    r
}

/// What percent-decoding makes of an input that holds at least one '%':
/// the name stands for `urlencoding::decode`'s result on such inputs, `None`
/// where the decoded bytes are not valid UTF-8.
pub uninterp spec fn percent_unescaped(s: Seq<char>) -> Option<Seq<char>>;

/// Percent-decoding of a path segment. An input without '%' holds no escape
/// and decodes to itself; one with '%' decodes as `urlencoding::decode` does.
pub open spec fn percent_decoded(s: Seq<char>) -> Option<Seq<char>> {
    if !s.contains('%') {
        Some(s)
    } else {
        percent_unescaped(s)
    }
}

/// Relies on `urlencoding::decode`: it resolves `%xx` escapes, keeps
/// malformed escapes as they stand, returns an input without '%' unchanged,
/// and fails exactly when the decoded bytes are not valid UTF-8.
#[verifier::external_body]
fn percent_decode(s: &str) -> (r: Option<String>)
    ensures
        match r {
            Some(d) => if s@.contains('%') {
                percent_unescaped(s@) == Some(d@)
            } else {
                d@ == s@
            },
            None => s@.contains('%') && percent_unescaped(s@) is None,
        },
{
    urlencoding::decode(s).ok().map(|c| c.into_owned())
}

/// The wire bytes of a plain-text response: status line, a `Content-Length`
/// header giving the byte length of the body, a blank line, then the body.
pub open spec fn text_wire(status: Seq<char>, body: Seq<char>) -> Seq<char> {
    status + "\r\nContent-Length: "@ + decimal_digits(vstd::utf8::encode_utf8(body).len())
        + "\r\n\r\n"@ + body
}

/// The full text encoding of a raw (possibly percent-encoded) body:
/// the body is decoded first, and the `Content-Length` counts the decoded
/// bytes; `None` where decoding fails.
pub open spec fn text_response_of(status: Seq<char>, raw_body: Seq<char>) -> Option<Seq<char>> {
    match percent_decoded(raw_body) {
        Some(d) => Some(text_wire(status, d)),
        None => None,
    }
}

/// Renders a body that needs no decoding into a full plain-text response.
pub fn render_text_response(status_line: &str, body: &str) -> (r: String)
    ensures
        r@ == text_wire(status_line@, body@),
{
    let len = body.as_bytes().len();
    let num = decimal_string(len);
    let mut r = status_line.to_owned();
    r.append("\r\nContent-Length: ");
    r.append(num.as_str());
    r.append("\r\n\r\n");
    r.append(body);
    proof {
        assert(r@ =~= text_wire(status_line@, body@));
    }
    r
}

/// Renders a raw body into a full plain-text response, decoding percent
/// escapes first; `None` exactly where decoding fails.
pub fn try_gen_text_response(status_line: &str, body: &str) -> (r: Option<String>)
    ensures
        (r is Some) == (percent_decoded(body@) is Some),
        r matches Some(t) ==> Some(t@) == text_response_of(status_line@, body@),
{
    match percent_decode(body) {
        Some(d) => Some(render_text_response(status_line, d.as_str())),
        None => None,
    }
}

/// Renders a raw body whose percent-decoding is known to succeed.
pub fn gen_text_response(status_line: &str, body: &str) -> (r: String)
    requires
        percent_decoded(body@) is Some,
    ensures
        Some(r@) == text_response_of(status_line@, body@),
{
    match percent_decode(body) {
        Some(d) => render_text_response(status_line, d.as_str()),
        None => vstd::pervasive::unreached(),
    }
}

/// A plain text body encodes as is: the text encoder on a body without
/// percent escapes emits the body itself, with its own byte length.
pub proof fn lemma_text_response_plain(status: Seq<char>, body: Seq<char>)
    requires
        !body.contains('%'),
    ensures
        text_response_of(status, body) == Some(text_wire(status, body)),
{
}

/// A percent-encoded body encodes decoded: where a raw body decodes to some
/// body, the text encoder emits that decoded body, and the `Content-Length`
/// counts the decoded bytes.
pub proof fn lemma_text_response_decoded(status: Seq<char>, raw: Seq<char>, body: Seq<char>)
    requires
        percent_decoded(raw) == Some(body),
    ensures
        text_response_of(status, raw) == Some(text_wire(status, body)),
{
}

} // verus!

