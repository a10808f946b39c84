//! The response each route hands back: a structured greeting for the root
//! route, the decoded segment for the echo route, and fixed texts for the
//! not-found and bad-request outcomes.

use vstd::prelude::*;

use crate::codec::{
    gen_json_response, json_wire, percent_decoded, render_text_response, text_wire,
    try_gen_text_response,
};
use crate::{NOT_FOUND, STATUS_LINE_BAD_REQUEST, STATUS_LINE_NOT_FOUND, STATUS_LINE_OK};

verus! {

/// The JSON string literal that stands for a piece of text: quoted, with
/// '"', '\\' and control characters escaped. The name stands for what
/// `serde_json::to_string` returns on a string slice.
pub uninterp spec fn json_quoted(s: Seq<char>) -> Seq<char>;

/// Holds of text that JSON renders without escapes: no quote, no backslash,
/// no control character.
pub open spec fn json_plain(s: Seq<char>) -> bool {
    forall|i: int|
        0 <= i < s.len() ==> s[i] != '"' && s[i] != '\\' && (s[i] as u32) >= 0x20
}

/// Relies on `serde_json::to_string` on a string slice: it returns the JSON
/// string literal for it (text needing no escape is merely quoted), and it
/// cannot fail, since it writes into a byte vector.
#[verifier::external_body]
fn json_quote(s: &str) -> (r: Option<String>)
    ensures
        match r {
            Some(j) => j@ == json_quoted(s@) && (json_plain(s@) ==> j@ == seq!['"'] + s@
                + seq!['"']),
            None => false,
        },
{
    serde_json::to_string(s).ok()
}

/// The one structured message this server sends: a greeting carrying a
/// piece of text.
pub struct InfoMsg {
    pub msg: String,
}

/// The serialized form of an `InfoMsg`: one object with a `msg` field.
pub open spec fn info_body(msg: Seq<char>) -> Seq<char> {
    "{\"msg\":"@ + json_quoted(msg) + "}"@
}

/// Serializes an `InfoMsg` and renders it as a successful structured
/// response.
pub fn info_response(info: &InfoMsg) -> (r: String)
    ensures
        r@ == json_wire(STATUS_LINE_OK@, info_body(info.msg@)),
        json_plain(info.msg@) ==> info_body(info.msg@) == "{\"msg\":"@ + seq!['"'] + info.msg@
            + seq!['"'] + "}"@,
{
    match json_quote(info.msg.as_str()) {
        Some(j) => {
            let mut body = "{\"msg\":".to_owned();
            body.append(j.as_str());
            body.append("}");
            proof {
                assert(body@ =~= info_body(info.msg@));
            }
            gen_json_response(STATUS_LINE_OK, body.as_str())
        },
        None => vstd::pervasive::unreached(),
    }
}

/// The serialized body of the root greeting.
pub open spec fn root_body() -> Seq<char> {
    info_body("Hello from root"@)
}

/// The full response of the root route: a structured response carrying the
/// greeting object. The greeting needs no escape, so the body's bytes are
/// known exactly.
pub fn root_response() -> (r: String)
    ensures
        r@ == json_wire(STATUS_LINE_OK@, root_body()),
        r@ == json_wire(STATUS_LINE_OK@, "{\"msg\":\"Hello from root\"}"@),
{
    let info = InfoMsg { msg: "Hello from root".to_owned() };
    let r = info_response(&info);
    proof {
        reveal_strlit("Hello from root");
        reveal_strlit("{\"msg\":");
        reveal_strlit("}");
        reveal_strlit("{\"msg\":\"Hello from root\"}");
        assert(json_plain("Hello from root"@));
        assert(info_body("Hello from root"@) =~= "{\"msg\":\"Hello from root\"}"@);
    }
    r
}

/// The full response of the echo route: the percent-decoded segment as a
/// plain-text response, or the bad-request response where decoding fails.
pub fn echo_response(segment: &str) -> (r: String)
    ensures
        match percent_decoded(segment@) {
            Some(d) => r@ == text_wire(STATUS_LINE_OK@, d),
            None => r@ == bad_request_wire(),
        },
{
    match try_gen_text_response(STATUS_LINE_OK, segment) {
        Some(t) => t,
        None => bad_request_response(),
    }
}

/// The full response of the not-found outcome: a plain-text response with a
/// fixed body, which holds no percent escape and is emitted as it stands.
pub fn not_found_response() -> (r: String)
    ensures
        r@ == text_wire(STATUS_LINE_NOT_FOUND@, NOT_FOUND@),
{
    render_text_response(STATUS_LINE_NOT_FOUND, NOT_FOUND)
}

/// The wire bytes of the bad-request response.
pub open spec fn bad_request_wire() -> Seq<char> {
    text_wire(STATUS_LINE_BAD_REQUEST@, "400 Bad Request"@)
}

/// The full response to a request this server cannot make sense of: a
/// malformed request line, or an echo segment whose escapes do not decode.
pub fn bad_request_response() -> (r: String)
    ensures
        r@ == bad_request_wire(),
{
    render_text_response(STATUS_LINE_BAD_REQUEST, "400 Bad Request")
}

} // verus!
