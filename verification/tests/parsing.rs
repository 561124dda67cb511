use http_core::headers::Headers;
use http_core::num::parse_usize;
use http_core::reader::{parse_from_str, parse_headers, parse_request_line, required_body_length};

fn lines(raw: &[&[u8]]) -> Vec<Vec<u8>> {
    raw.iter().map(|l| l.to_vec()).collect()
}

#[test]
fn request_line_splits_into_three_tokens() {
    let (m, p, v) = parse_request_line(&b"GET /index.html HTTP/1.1".to_vec());
    assert_eq!(m, b"GET".to_vec());
    assert_eq!(p, b"/index.html".to_vec());
    assert_eq!(v, b"HTTP/1.1".to_vec());
}

#[test]
fn request_line_missing_tokens_default_to_empty() {
    let (m, p, v) = parse_request_line(&b"GET".to_vec());
    assert_eq!(m, b"GET".to_vec());
    assert_eq!(p, Vec::<u8>::new());
    assert_eq!(v, Vec::<u8>::new());
    let (m, p, v) = parse_request_line(&Vec::new());
    assert_eq!(m, Vec::<u8>::new());
    assert_eq!(p, Vec::<u8>::new());
    assert_eq!(v, Vec::<u8>::new());
}

#[test]
fn request_line_collapses_whitespace_runs() {
    let (m, p, v) = parse_request_line(&b"  GET\t\t/a  HTTP/1.0  ".to_vec());
    assert_eq!(m, b"GET".to_vec());
    assert_eq!(p, b"/a".to_vec());
    assert_eq!(v, b"HTTP/1.0".to_vec());
}

#[test]
fn header_lines_are_trimmed_and_split_on_first_colon() {
    let h = parse_headers(&lines(&[b"Host:  example  ", b"X-Note: a:b:c"]));
    assert_eq!(h.get(&b"Host".to_vec()), Some(b"example".to_vec()));
    assert_eq!(h.get(&b"X-Note".to_vec()), Some(b"a:b:c".to_vec()));
}

#[test]
fn blank_name_or_value_is_dropped() {
    let h = parse_headers(&lines(&[b": value", b"Name:", b"Name:   ", b"no colon here", b""]));
    assert_eq!(h.len(), 0);
}

#[test]
fn repeated_header_keeps_last_value() {
    let h = parse_headers(&lines(&[b"K: first", b"K: second"]));
    assert_eq!(h.len(), 1);
    assert_eq!(h.get(&b"K".to_vec()), Some(b"second".to_vec()));
}

#[test]
fn header_names_are_case_sensitive() {
    let h = parse_headers(&lines(&[b"Host: a", b"host: b"]));
    assert_eq!(h.len(), 2);
    assert_eq!(h.get(&b"Host".to_vec()), Some(b"a".to_vec()));
    assert_eq!(h.get(&b"host".to_vec()), Some(b"b".to_vec()));
}

#[test]
fn whole_head_parses_line_and_headers() {
    let raw = b"GET /user-agent HTTP/1.1\r\nHost: localhost:4221\r\nUser-Agent: curl/7.64.1\r\n"
        .to_vec();
    let (m, p, v, h) = parse_from_str(&raw);
    assert_eq!(m, b"GET".to_vec());
    assert_eq!(p, b"/user-agent".to_vec());
    assert_eq!(v, b"HTTP/1.1".to_vec());
    assert_eq!(h.len(), 2);
    assert_eq!(h.get(&b"Host".to_vec()), Some(b"localhost:4221".to_vec()));
    assert_eq!(h.get(&b"User-Agent".to_vec()), Some(b"curl/7.64.1".to_vec()));
}

#[test]
fn head_without_headers_parses_line_only() {
    let (m, p, v, h) = parse_from_str(&b"POST /files/a HTTP/1.1".to_vec());
    assert_eq!(m, b"POST".to_vec());
    assert_eq!(p, b"/files/a".to_vec());
    assert_eq!(v, b"HTTP/1.1".to_vec());
    assert_eq!(h.len(), 0);
}

#[test]
fn content_length_demands_positive_parse() {
    let mut h = Headers::new();
    h.insert(b"Content-Length".to_vec(), b"5".to_vec());
    assert_eq!(required_body_length(&h), Some(5));

    let mut h = Headers::new();
    h.insert(b"Content-Length".to_vec(), b"0".to_vec());
    assert_eq!(required_body_length(&h), None);

    let mut h = Headers::new();
    h.insert(b"Content-Length".to_vec(), b"abc".to_vec());
    assert_eq!(required_body_length(&h), None);

    let h = Headers::new();
    assert_eq!(required_body_length(&h), None);
}

#[test]
fn parse_usize_accepts_plus_and_rejects_overflow() {
    assert_eq!(parse_usize(&b"123".to_vec()), Some(123));
    assert_eq!(parse_usize(&b"+7".to_vec()), Some(7));
    assert_eq!(parse_usize(&b"0".to_vec()), Some(0));
    assert_eq!(parse_usize(&b"".to_vec()), None);
    assert_eq!(parse_usize(&b"+".to_vec()), None);
    assert_eq!(parse_usize(&b"-3".to_vec()), None);
    assert_eq!(parse_usize(&b"1 2".to_vec()), None);
    assert_eq!(parse_usize(&b"99999999999999999999999999".to_vec()), None);
    assert_eq!(parse_usize(&b"18446744073709551615".to_vec()), Some(usize::MAX));
}

#[test]
fn header_map_insert_and_lookup() {
    let mut h = Headers::new();
    assert_eq!(h.len(), 0);
    h.insert(b"A".to_vec(), b"1".to_vec());
    h.insert(b"B".to_vec(), b"2".to_vec());
    assert_eq!(h.len(), 2);
    assert!(h.contains(&b"A".to_vec()));
    assert!(!h.contains(&b"C".to_vec()));
    h.insert(b"A".to_vec(), b"3".to_vec());
    assert_eq!(h.len(), 2);
    assert_eq!(h.get(&b"A".to_vec()), Some(b"3".to_vec()));
    let (name, value) = h.entry_at(0);
    assert_eq!(name, b"A".to_vec());
    assert_eq!(value, b"3".to_vec());
}
