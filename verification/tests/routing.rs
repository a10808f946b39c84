use tcp_router::handle_request;
use tcp_router::request::{parse_request_line, route, ParseError, Route};

#[test]
fn root_route() {
    let res = handle_request("GET / HTTP/1.1");
    assert_eq!(
        res,
        "HTTP/1.1 200 OK\r\nContent-Type: application/json\r\n\r\n{\"msg\":\"Hello from root\"}"
    );
}

#[test]
fn echo_route() {
    let res = handle_request("GET /echo/abc HTTP/1.1");
    assert_eq!(res, "HTTP/1.1 200 OK\r\nContent-Length: 3\r\n\r\nabc");
}

#[test]
fn echo_route_decodes_segment() {
    let res = handle_request("GET /echo/a%20b HTTP/1.1");
    assert_eq!(res, "HTTP/1.1 200 OK\r\nContent-Length: 3\r\n\r\na b");
}

#[test]
fn echo_route_refuses_nested_path() {
    let res = handle_request("GET /echo/a/b HTTP/1.1");
    assert_eq!(
        res,
        "HTTP/1.1 404 NOT FOUND\r\nContent-Length: 13\r\n\r\n404 Not Found"
    );
}

#[test]
fn post_is_not_found() {
    let res = handle_request("POST / HTTP/1.1");
    assert_eq!(
        res,
        "HTTP/1.1 404 NOT FOUND\r\nContent-Length: 13\r\n\r\n404 Not Found"
    );
}

#[test]
fn missing_path_is_not_found() {
    let res = handle_request("GET /missing HTTP/1.1");
    assert_eq!(
        res,
        "HTTP/1.1 404 NOT FOUND\r\nContent-Length: 13\r\n\r\n404 Not Found"
    );
}

#[test]
fn undecodable_echo_is_bad_request() {
    let res = handle_request("GET /echo/%ff%fe HTTP/1.1");
    assert_eq!(
        res,
        "HTTP/1.1 400 BAD REQUEST\r\nContent-Length: 15\r\n\r\n400 Bad Request"
    );
}

#[test]
fn line_without_slash_is_bad_request() {
    let res = handle_request("NONSENSE");
    assert_eq!(
        res,
        "HTTP/1.1 400 BAD REQUEST\r\nContent-Length: 15\r\n\r\n400 Bad Request"
    );
}

#[test]
fn line_without_version_is_bad_request() {
    let res = handle_request("GET / HTTP/1.0");
    assert_eq!(
        res,
        "HTTP/1.1 400 BAD REQUEST\r\nContent-Length: 15\r\n\r\n400 Bad Request"
    );
}

#[test]
fn parse_splits_method_and_path() {
    let rl = parse_request_line("GET /echo/hi HTTP/1.1").unwrap();
    assert_eq!(rl.method, "GET");
    assert_eq!(rl.path, "/echo/hi");
}

#[test]
fn parse_trims_tokens() {
    let rl = parse_request_line("  GET   /   HTTP/1.1").unwrap();
    assert_eq!(rl.method, "GET");
    assert_eq!(rl.path, "/");
}

#[test]
fn parse_reports_missing_slash() {
    assert_eq!(
        parse_request_line("NONSENSE").unwrap_err(),
        ParseError::MissingSlash
    );
}

#[test]
fn parse_reports_missing_version() {
    assert_eq!(
        parse_request_line("GET /").unwrap_err(),
        ParseError::MissingVersion
    );
}

#[test]
fn route_selects_handlers() {
    assert!(matches!(route("GET", "/"), Route::Root));
    assert!(matches!(route("GET", "/echo/x"), Route::Echo(s) if s == "x"));
    assert!(matches!(route("GET", "/echo/"), Route::Echo(s) if s.is_empty()));
    assert!(matches!(route("GET", "/echo/a/b"), Route::NotFound));
    assert!(matches!(route("POST", "/"), Route::NotFound));
    assert!(matches!(route("GET", "/missing"), Route::NotFound));
}
