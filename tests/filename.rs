use inspector_http::filename::generate_filename;

fn pairs(v: &[(&str, &str)]) -> Vec<(String, String)> {
    v.iter().map(|(a, b)| (a.to_string(), b.to_string())).collect()
}

const STAMP: &str = "2024-01-15 10:30:45.123";

#[test]
fn json_body_name() {
    let h = pairs(&[("Content-Type", "application/json; charset=utf-8")]);
    assert_eq!(
        generate_filename(STAMP, "/api/users?id=5", &h),
        "20240115_103045123_api_users_id_5.json"
    );
}

#[test]
fn root_path_uses_request_prefix() {
    assert_eq!(generate_filename(STAMP, "/", &[]), "request_20240115_103045123.txt");
}

#[test]
fn header_name_matches_in_any_case() {
    let h = pairs(&[("x-other", "a"), ("CONTENT-TYPE", "  text/html ; q=1"), ("content-type", "image/png")]);
    assert_eq!(generate_filename(STAMP, "/index", &h), "20240115_103045123_index.html");
}

#[test]
fn unknown_type_is_txt() {
    let h = pairs(&[("content-type", "application/x-custom")]);
    assert_eq!(generate_filename(STAMP, "/a", &h), "20240115_103045123_a.txt");
    let h = pairs(&[("content-type", "image/svg+xml")]);
    assert_eq!(generate_filename(STAMP, "/a", &h), "20240115_103045123_a.svg");
}

#[test]
fn path_keeps_only_safe_characters() {
    assert_eq!(generate_filename(STAMP, "//a.b/c-d!e", &[]), "20240115_103045123_ab_c-de.txt");
    assert_eq!(generate_filename(STAMP, "/!!!", &[]), "request_20240115_103045123.txt");
}

#[test]
fn long_path_is_cut_to_fifty_bytes() {
    let path = format!("/{}", "x".repeat(80));
    let name = generate_filename(STAMP, &path, &[]);
    assert_eq!(name, format!("20240115_103045123_{}.txt", "x".repeat(50)));
}

#[test]
fn multibyte_path_is_cut_on_a_character_boundary() {
    let path = format!("/{}", "é".repeat(30));
    let name = generate_filename(STAMP, &path, &[]);
    assert_eq!(name, format!("20240115_103045123_{}.txt", "é".repeat(25)));
    let path = format!("/a{}", "é".repeat(30));
    let name = generate_filename(STAMP, &path, &[]);
    assert_eq!(name, format!("20240115_103045123_a{}.txt", "é".repeat(24)));
}
