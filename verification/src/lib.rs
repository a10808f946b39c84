pub mod codec;
pub mod handlers;
pub mod pool;
pub mod request;

use vstd::prelude::*;

verus! {

/// Status line of a successful response.
pub const STATUS_LINE_OK: &'static str = "HTTP/1.1 200 OK";

/// Status line of a not-found response.
pub const STATUS_LINE_NOT_FOUND: &'static str = "HTTP/1.1 404 NOT FOUND";

/// Status line of a bad-request response.
pub const STATUS_LINE_BAD_REQUEST: &'static str = "HTTP/1.1 400 BAD REQUEST";

/// Body of a not-found response.
pub const NOT_FOUND: &'static str = "404 Not Found";

/// The wire bytes this server answers a (method, path) pair with: the
/// structured greeting for `GET /`, the decoded segment for `GET /echo/..`,
/// and the not-found text for everything else.
pub open spec fn response_of(method: Seq<char>, path: Seq<char>) -> Seq<char> {
    if method == "GET"@ && path == "/"@ {
        codec::json_wire(STATUS_LINE_OK@, handlers::root_body())
    } else if method == "GET"@ && request::is_echo_path(path) {
        match codec::percent_decoded(request::echo_segment(path)) {
            Some(d) => codec::text_wire(STATUS_LINE_OK@, d),
            None => handlers::bad_request_wire(),
        }
    } else {
        codec::text_wire(STATUS_LINE_NOT_FOUND@, NOT_FOUND@)
    }
}

/// The wire bytes this server answers one raw request line with: a line that
/// does not parse is answered with the bad-request response.
pub open spec fn response_of_line(line: Seq<char>) -> Seq<char> {
    match request::parse_spec(line) {
        Ok(mp) => response_of(mp.0, mp.1),
        Err(_) => handlers::bad_request_wire(),
    }
}

/// Serves one request line: parses it, routes the tokens, and renders the
/// selected handler's response.
pub fn handle_request(line: &str) -> (r: String)
    ensures
        r@ == response_of_line(line@),
{
    match request::parse_request_line(line) {
        Ok(rl) => match request::route(rl.method.as_str(), rl.path.as_str()) {
            request::Route::Root => handlers::root_response(),
            request::Route::Echo(seg) => handlers::echo_response(seg.as_str()),
            request::Route::NotFound => handlers::not_found_response(),
        },
        Err(_) => handlers::bad_request_response(),
    }
}

} // verus!
