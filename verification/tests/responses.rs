use tcp_router::codec::{decimal_string, gen_json_response, gen_text_response, try_gen_text_response};
use tcp_router::handlers::{info_response, InfoMsg};
use tcp_router::STATUS_LINE_OK;

#[test]
fn json_response() {
    let mut obj = serde_json::Map::new();
    obj.insert(
        "msg".to_string(),
        serde_json::Value::String("Test".to_string()),
    );
    let serialized = serde_json::to_string(&serde_json::Value::Object(obj)).unwrap();
    let mut res = gen_json_response(STATUS_LINE_OK, &serialized);
    let mut res_good =
        format!("{STATUS_LINE_OK}\r\nContent-Type: application/json\r\n\r\n{{\"msg\": \"Test\"}}");
    res.retain(|char| !char.is_whitespace());
    res_good.retain(|char| !char.is_whitespace());
    assert_eq!(res, res_good);
}

#[test]
fn text_response() {
    let text = "hello";
    let length = text.len();
    let res = gen_text_response(STATUS_LINE_OK, text);
    let res_good = format!("{STATUS_LINE_OK}\r\nContent-Length: {length}\r\n\r\n{text}");
    assert_eq!(res, res_good);
}

#[test]
fn text_encoded_response() {
    let text = "hello world";
    let encoded_text = "hello%20world";
    let length = text.len();
    let res = gen_text_response(STATUS_LINE_OK, encoded_text);
    let res_good = format!("{STATUS_LINE_OK}\r\nContent-Length: {length}\r\n\r\n{text}");
    assert_eq!(res, res_good);
}

#[test]
fn text_response_counts_decoded_bytes() {
    // Each three-character escape decodes to one byte: 8 in, 4 out.
    let res = gen_text_response(STATUS_LINE_OK, "a%20b%21");
    assert_eq!(res, "HTTP/1.1 200 OK\r\nContent-Length: 4\r\n\r\na b!");
}

#[test]
fn text_response_rejects_bad_utf8() {
    // 0xff 0xfe is not valid UTF-8, so decoding fails.
    assert!(try_gen_text_response(STATUS_LINE_OK, "%ff%fe").is_none());
}

#[test]
fn text_response_keeps_malformed_escape() {
    // A '%' not followed by two hex digits stays as it is.
    let res = try_gen_text_response(STATUS_LINE_OK, "a%zz").unwrap();
    assert_eq!(res, "HTTP/1.1 200 OK\r\nContent-Length: 4\r\n\r\na%zz");
}

#[test]
fn decimal_rendering() {
    assert_eq!(decimal_string(0), "0");
    assert_eq!(decimal_string(7), "7");
    assert_eq!(decimal_string(10), "10");
    assert_eq!(decimal_string(65535), "65535");
}

#[test]
fn json_info_message_is_escaped() {
    let info = InfoMsg {
        msg: "say \"hi\"".to_string(),
    };
    let res = info_response(&info);
    assert_eq!(
        res,
        "HTTP/1.1 200 OK\r\nContent-Type: application/json\r\n\r\n{\"msg\":\"say \\\"hi\\\"\"}"
    );
}
