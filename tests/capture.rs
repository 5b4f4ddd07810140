use inspector_http::capture::{
    capture_request, decode_entry, decode_or_empty, header_text, join_target, parse_query, split_query,
};
use inspector_http::record::{get_method_color, MethodColor};
use inspector_http::HttpRequest;

fn pairs(v: &[(&str, &str)]) -> Vec<(String, String)> {
    v.iter().map(|(a, b)| (a.to_string(), b.to_string())).collect()
}

fn capture(target: &str, query: Option<&str>, headers: Vec<(String, Vec<u8>)>, body: &[u8]) -> HttpRequest {
    capture_request(
        "2024-01-15 10:30:45.123".to_string(),
        "POST".to_string(),
        target,
        query,
        &headers,
        "127.0.0.1:50000".to_string(),
        body,
    )
}

#[test]
fn query_keeps_duplicates_and_bare_keys() {
    let r = parse_query("a=1&a=2&b");
    assert_eq!(r, pairs(&[("a", "1"), ("a", "2"), ("b", "")]));
}

#[test]
fn query_is_percent_decoded() {
    let r = parse_query("name=John%20Doe&x%3Dy=a%26b&plus=a+b");
    assert_eq!(r, pairs(&[("name", "John Doe"), ("x=y", "a&b"), ("plus", "a+b")]));
}

#[test]
fn query_value_splits_at_first_equals() {
    let r = parse_query("k=v=w");
    assert_eq!(r, pairs(&[("k", "v=w")]));
}

#[test]
fn undecodable_query_part_becomes_empty() {
    let r = parse_query("bad=%FF&ok=1");
    assert_eq!(r, pairs(&[("bad", ""), ("ok", "1")]));
}

#[test]
fn empty_query_pieces_are_kept() {
    let r = parse_query("a=1&&");
    assert_eq!(r, pairs(&[("a", "1"), ("", ""), ("", "")]));
    assert_eq!(parse_query(""), pairs(&[("", "")]));
}

#[test]
fn path_holds_raw_query() {
    assert_eq!(join_target("/search", Some("q=a%20b")), "/search?q=a%20b");
    assert_eq!(join_target("/plain", None), "/plain");
}

#[test]
fn utf8_header_value_is_preserved() {
    let h = vec![("x-test".to_string(), "välué".as_bytes().to_vec())];
    let r = capture("/", None, h, b"");
    assert_eq!(r.headers, pairs(&[("x-test", "välué")]));
    assert_eq!(r.headers[0].1.as_bytes(), "välué".as_bytes());
}

#[test]
fn non_utf8_header_value_becomes_sentinel() {
    assert_eq!(header_text(&[0x66, 0xff, 0xfe]), "<binary>");
    let h = vec![
        ("x-bin".to_string(), vec![0xff, 0x00, 0x80]),
        ("x-bin".to_string(), b"second".to_vec()),
    ];
    let r = capture("/", None, h, b"");
    assert_eq!(r.headers, pairs(&[("x-bin", "<binary>"), ("x-bin", "second")]));
}

#[test]
fn body_size_counts_raw_bytes() {
    let body = [b'a', 0xff, b'b', 0xc3];
    let r = capture("/upload", None, Vec::new(), &body);
    assert_eq!(r.body_size, 4);
    assert_eq!(r.body, "a\u{FFFD}b\u{FFFD}");
    assert_eq!(r.body.chars().count(), 4);
}

#[test]
fn valid_body_is_kept_as_text() {
    let r = capture("/", None, Vec::new(), "{\"k\":\"välué\"}".as_bytes());
    assert_eq!(r.body, "{\"k\":\"välué\"}");
    assert_eq!(r.body_size, 15);
}

#[test]
fn record_holds_every_part() {
    let h = vec![("host".to_string(), b"localhost".to_vec())];
    let r = capture("/api/items", Some("a=1&a=2&b"), h, b"hello");
    assert_eq!(r.timestamp, "2024-01-15 10:30:45.123");
    assert_eq!(r.method, "POST");
    assert_eq!(r.path, "/api/items?a=1&a=2&b");
    assert_eq!(r.query_params, pairs(&[("a", "1"), ("a", "2"), ("b", "")]));
    assert_eq!(r.headers, pairs(&[("host", "localhost")]));
    assert_eq!(r.remote_addr, "127.0.0.1:50000");
    assert_eq!(r.body, "hello");
    assert_eq!(r.body_size, 5);
}

#[test]
fn unknown_method_is_kept() {
    let r = capture_request(
        "t".to_string(),
        "BREW".to_string(),
        "/pot",
        None,
        &Vec::new(),
        "10.0.0.1:1".to_string(),
        b"",
    );
    assert_eq!(r.method, "BREW");
    assert!(r.query_params.is_empty());
    assert_eq!(r.body_size, 0);
}

#[test]
fn method_colors() {
    assert_eq!(get_method_color("GET"), MethodColor::Green);
    assert_eq!(get_method_color("POST"), MethodColor::Blue);
    assert_eq!(get_method_color("PUT"), MethodColor::Yellow);
    assert_eq!(get_method_color("DELETE"), MethodColor::Red);
    assert_eq!(get_method_color("get"), MethodColor::White);
    assert_eq!(get_method_color("PATCH"), MethodColor::White);
}

#[test]
fn raw_pairs_before_decoding() {
    let r = split_query("a=1&a=%202&b&=x&c=");
    let expected: Vec<(String, Option<String>)> = vec![
        ("a".to_string(), Some("1".to_string())),
        ("a".to_string(), Some("%202".to_string())),
        ("b".to_string(), None),
        ("".to_string(), Some("x".to_string())),
        ("c".to_string(), Some("".to_string())),
    ];
    assert_eq!(r, expected);
}

#[test]
fn raw_pair_decoding() {
    assert_eq!(
        decode_entry(&("k%21".to_string(), Some("v%2Fw".to_string()))),
        ("k!".to_string(), "v/w".to_string())
    );
    assert_eq!(decode_entry(&("flag".to_string(), None)), ("flag".to_string(), String::new()));
    assert_eq!(decode_or_empty("caf%C3%A9"), "café");
    assert_eq!(decode_or_empty("%E9"), "");
    assert_eq!(decode_or_empty("100%"), "100%");
}

#[test]
fn capture_now_stamps_the_time() {
    let r = inspector_http::capture::capture_now(
        "GET".to_string(),
        "/now",
        Some("x=1"),
        &Vec::new(),
        "127.0.0.1:2".to_string(),
        b"abc",
    );
    assert_eq!(r.timestamp.len(), 23);
    assert_eq!(&r.timestamp[4..5], "-");
    assert_eq!(&r.timestamp[10..11], " ");
    assert_eq!(&r.timestamp[19..20], ".");
    assert_eq!(r.path, "/now?x=1");
    assert_eq!(r.body_size, 3);
}
