use netcapture::headers::{content_type, find_header, find_header_any_case, status_code};
use netcapture::{Header, HeaderValue};

fn text(name: &str, value: &str) -> Header {
    Header { name: name.to_string(), value: HeaderValue::Text(value.to_string()) }
}

fn other(name: &str) -> Header {
    Header { name: name.to_string(), value: HeaderValue::Other }
}

#[test]
fn lower_case_header_is_found() {
    let h = vec![text("server", "x"), text("content-type", "application/json")];
    assert_eq!(content_type(&h), Some("application/json"));
}

#[test]
fn canonical_header_is_the_fallback() {
    let h = vec![text("Content-Type", "text/html"), text("server", "x")];
    assert_eq!(content_type(&h), Some("text/html"));
}

#[test]
fn lower_case_header_is_preferred() {
    let h = vec![text("Content-Type", "text/html"), text("content-type", "application/json")];
    assert_eq!(content_type(&h), Some("application/json"));
}

#[test]
fn other_spellings_are_found_too() {
    let h = vec![text("CONTENT-TYPE", "application/json")];
    assert_eq!(content_type(&h), Some("application/json"));
    let h = vec![text("server", "x"), text("Content-type", "text/css")];
    assert_eq!(content_type(&h), Some("text/css"));
    let h = vec![text("cOnTeNt-TyPe", "text/plain")];
    assert_eq!(content_type(&h), Some("text/plain"));
}

#[test]
fn first_of_the_other_spellings_is_taken() {
    let h = vec![text("CONTENT-TYPE", "text/html"), text("Content-type", "text/css")];
    assert_eq!(content_type(&h), Some("text/html"));
}

#[test]
fn exact_spellings_come_before_any_other() {
    let h = vec![
        text("CONTENT-TYPE", "text/html"),
        text("Content-Type", "text/css"),
        text("content-type", "application/json"),
    ];
    assert_eq!(content_type(&h), Some("application/json"));
    let h = vec![text("CONTENT-TYPE", "text/html"), text("Content-Type", "text/css")];
    assert_eq!(content_type(&h), Some("text/css"));
}

#[test]
fn names_that_differ_otherwise_are_not_found() {
    let h = vec![
        text("content-typ", "a"),
        text("content-types", "b"),
        text("content_type", "c"),
        text("c\u{f6}ntent-type", "d"),
        text("\u{212a}ontent-type", "e"),
        text("", "f"),
    ];
    assert_eq!(content_type(&h), None);
}

#[test]
fn header_in_any_case_is_found_by_name() {
    let h = vec![text("a", "1"), text("X-Id", "2"), text("x-id", "3")];
    match find_header_any_case(&h, "x-id") {
        Some(HeaderValue::Text(t)) => assert_eq!(t, "2"),
        found => panic!("unexpected: {:?}", found),
    }
    match find_header_any_case(&h, "X-ID") {
        Some(HeaderValue::Text(t)) => assert_eq!(t, "2"),
        found => panic!("unexpected: {:?}", found),
    }
    match find_header_any_case(&h, "A") {
        Some(HeaderValue::Text(t)) => assert_eq!(t, "1"),
        found => panic!("unexpected: {:?}", found),
    }
    assert!(find_header_any_case(&h, "x-i").is_none());
    assert!(find_header_any_case(&h, "b").is_none());
    assert!(find_header_any_case(&h, "[").is_none());
}

#[test]
fn only_letters_are_compared_without_case() {
    // '@' and '`', '[' and '{' are as far apart as 'A' and 'a', and differ.
    let h = vec![text("@[", "1")];
    assert!(find_header_any_case(&h, "`{").is_none());
    assert!(find_header_any_case(&h, "@[").is_some());
}

#[test]
fn no_headers_no_content_type() {
    let h: Vec<Header> = Vec::new();
    assert_eq!(content_type(&h), None);
}

#[test]
fn value_that_is_no_text_is_absent() {
    let h = vec![other("content-type")];
    assert_eq!(content_type(&h), None);
    // The lower-case header is the one found, text or not.
    let h = vec![other("content-type"), text("Content-Type", "text/html")];
    assert_eq!(content_type(&h), None);
    let h = vec![other("Content-Type")];
    assert_eq!(content_type(&h), None);
    let h = vec![other("Content-Type"), text("CONTENT-TYPE", "text/html")];
    assert_eq!(content_type(&h), None);
    let h = vec![other("CONTENT-TYPE"), text("Content-type", "text/html")];
    assert_eq!(content_type(&h), None);
}

#[test]
fn first_header_of_a_name_is_found() {
    let h = vec![text("a", "1"), text("b", "2"), text("a", "3")];
    match find_header(&h, "a") {
        Some(HeaderValue::Text(t)) => assert_eq!(t, "1"),
        found => panic!("unexpected: {:?}", found),
    }
    match find_header(&h, "b") {
        Some(HeaderValue::Text(t)) => assert_eq!(t, "2"),
        found => panic!("unexpected: {:?}", found),
    }
    assert!(find_header(&h, "c").is_none());
    assert!(find_header(&h, "A").is_none());
    assert!(find_header(&h, "").is_none());
}

#[test]
fn status_is_narrowed_to_sixteen_bits() {
    assert_eq!(status_code(0), 0);
    assert_eq!(status_code(200), 200);
    assert_eq!(status_code(404), 404);
    assert_eq!(status_code(65535), 65535);
    assert_eq!(status_code(65536), 0);
    assert_eq!(status_code(65536 + 404), 404);
    assert_eq!(status_code(-1), 65535);
    assert_eq!(status_code(-65536), 0);
    assert_eq!(status_code(i64::MAX), 65535);
    assert_eq!(status_code(i64::MIN), 0);
}
