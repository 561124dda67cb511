use http_core::headers::Headers;
use http_core::method::HTTPMethod;
use http_core::request::{
    file_get_response, file_post_response, root_response, HTTPRequest, RoutePlan,
};
use http_core::version::HTTPVersion;

fn request(method: &[u8], path: &[u8], version: &[u8], headers: Headers) -> HTTPRequest {
    HTTPRequest::new(method.to_vec(), path.to_vec(), version.to_vec(), headers, None)
}

fn expect_respond(plan: RoutePlan) -> http_core::response::HTTPResponse {
    match plan {
        RoutePlan::Respond(r) => r,
        _ => panic!("expected a direct response"),
    }
}

#[test]
fn echo_route_returns_path_remainder() {
    let req = request(b"GET", b"/echo/abc", b"HTTP/1.1", Headers::new());
    let resp = expect_respond(req.route_request(&b"/tmp".to_vec()));
    assert_eq!(resp.status_code, 200);
    assert_eq!(resp.status_message, b"OK".to_vec());
    assert_eq!(resp.body, Some(b"abc".to_vec()));
    assert_eq!(resp.headers.get(&b"Content-Type".to_vec()), Some(b"text/plain".to_vec()));
    assert_eq!(resp.headers.get(&b"Content-Length".to_vec()), Some(b"3".to_vec()));
}

#[test]
fn echo_route_strips_repeated_prefix() {
    let req = request(b"GET", b"/echo//echo/x", b"HTTP/1.1", Headers::new());
    let resp = expect_respond(req.route_request(&b"/tmp".to_vec()));
    assert_eq!(resp.body, Some(b"x".to_vec()));
}

#[test]
fn echo_route_empty_remainder() {
    let req = request(b"GET", b"/echo/", b"HTTP/1.1", Headers::new());
    let resp = expect_respond(req.route_request(&b"/tmp".to_vec()));
    assert_eq!(resp.body, Some(Vec::new()));
    assert_eq!(resp.headers.get(&b"Content-Length".to_vec()), Some(b"0".to_vec()));
}

#[test]
fn user_agent_route_reflects_header() {
    let mut h = Headers::new();
    h.insert(b"User-Agent".to_vec(), b"curl/7.64.1".to_vec());
    let req = request(b"GET", b"/user-agent", b"HTTP/1.1", h);
    let resp = expect_respond(req.route_request(&b"/tmp".to_vec()));
    assert_eq!(resp.status_code, 200);
    assert_eq!(resp.body, Some(b"curl/7.64.1".to_vec()));
    assert_eq!(resp.headers.get(&b"Content-Length".to_vec()), Some(b"11".to_vec()));
}

#[test]
fn user_agent_route_without_header_uses_fallback() {
    let req = request(b"GET", b"/user-agent", b"HTTP/1.1", Headers::new());
    let resp = expect_respond(req.route_request(&b"/tmp".to_vec()));
    assert_eq!(resp.body, Some(b"Unable to determine User-Agent".to_vec()));
}

#[test]
fn unknown_method_yields_not_found() {
    let req = request(b"DELETE", b"/anything", b"HTTP/1.1", Headers::new());
    assert_eq!(req.method, HTTPMethod::DELETE);
    let resp = expect_respond(req.route_request(&b"/tmp".to_vec()));
    assert_eq!(resp.status_code, 404);
    assert_eq!(resp.status_message, b"Not Found".to_vec());
    assert_eq!(resp.body, None);
    assert_eq!(resp.headers.len(), 0);
}

#[test]
fn put_method_yields_not_found() {
    let req = request(b"PUT", b"/files/x", b"HTTP/1.1", Headers::new());
    let resp = expect_respond(req.route_request(&b"/tmp".to_vec()));
    assert_eq!(resp.status_code, 404);
}

#[test]
fn root_route_reads_index_file() {
    let req = request(b"GET", b"/", b"HTTP/1.1", Headers::new());
    match req.route_request(&b"/srv".to_vec()) {
        RoutePlan::ReadIndex { file_path } => {
            assert_eq!(file_path, b"/srv/index.html".to_vec());
        },
        _ => panic!("expected an index read"),
    }
}

#[test]
fn root_response_on_read_failure_is_placeholder_ok() {
    let resp = root_response(None);
    assert_eq!(resp.status_code, 200);
    assert_eq!(resp.body, Some(b"Error: Cannot read file".to_vec()));
    assert_eq!(resp.headers.get(&b"Content-Type".to_vec()), Some(b"text/html".to_vec()));
    assert_eq!(resp.headers.get(&b"Content-Length".to_vec()), Some(b"23".to_vec()));
}

#[test]
fn root_response_on_success_carries_content() {
    let resp = root_response(Some(b"<html></html>".to_vec()));
    assert_eq!(resp.status_code, 200);
    assert_eq!(resp.body, Some(b"<html></html>".to_vec()));
    assert_eq!(resp.headers.get(&b"Content-Length".to_vec()), Some(b"13".to_vec()));
}

#[test]
fn file_get_route_names_full_path() {
    let req = request(b"GET", b"/files/data.txt", b"HTTP/1.1", Headers::new());
    match req.route_request(&b"/srv".to_vec()) {
        RoutePlan::ReadFile { file_path } => {
            assert_eq!(file_path, b"/srv//files/data.txt".to_vec());
        },
        _ => panic!("expected a file read"),
    }
}

#[test]
fn post_then_get_round_trip() {
    let mut post = request(b"POST", b"/files/name.txt", b"HTTP/1.1", Headers::new());
    post.body = Some(b"hello world".to_vec());
    let dir = b"/srv".to_vec();
    let (written_path, written) = match post.route_request(&dir) {
        RoutePlan::WriteFile { file_path, content } => (file_path, content),
        _ => panic!("expected a file write"),
    };
    assert_eq!(written, b"hello world".to_vec());
    let post_resp = file_post_response(&written_path, &written);
    assert_eq!(post_resp.status_code, 201);
    assert_eq!(post_resp.status_message, b"Created".to_vec());
    assert_eq!(post_resp.body, None);
    assert_eq!(post_resp.headers.get(&b"Content-Length".to_vec()), Some(b"11".to_vec()));

    let get = request(b"GET", b"/files/name.txt", b"HTTP/1.1", Headers::new());
    let read_path = match get.route_request(&dir) {
        RoutePlan::ReadFile { file_path } => file_path,
        _ => panic!("expected a file read"),
    };
    assert_eq!(read_path, written_path);
    let get_resp = file_get_response(&read_path, written.clone());
    assert_eq!(get_resp.status_code, 200);
    assert_eq!(get_resp.body, Some(b"hello world".to_vec()));
}

#[test]
fn post_body_is_lossily_reencoded() {
    let mut post = request(b"POST", b"/files/raw.bin", b"HTTP/1.1", Headers::new());
    post.body = Some(vec![0xFF]);
    match post.route_request(&b"/srv".to_vec()) {
        RoutePlan::WriteFile { content, .. } => {
            assert_eq!(content, vec![0xEF, 0xBF, 0xBD]);
        },
        _ => panic!("expected a file write"),
    }
}

#[test]
fn post_without_body_writes_nothing() {
    let post = request(b"POST", b"/files/empty", b"HTTP/1.1", Headers::new());
    match post.route_request(&b"/srv".to_vec()) {
        RoutePlan::WriteFile { content, .. } => {
            assert_eq!(content, Vec::<u8>::new());
        },
        _ => panic!("expected a file write"),
    }
}

#[test]
fn get_twice_is_byte_identical() {
    let dir = b"/srv".to_vec();
    let content = b"stable bytes".to_vec();
    let first = {
        let req = request(b"GET", b"/files/a.html", b"HTTP/1.1", Headers::new());
        let path = match req.route_request(&dir) {
            RoutePlan::ReadFile { file_path } => file_path,
            _ => panic!("expected a file read"),
        };
        file_get_response(&path, content.clone()).serialize()
    };
    let second = {
        let req = request(b"GET", b"/files/a.html", b"HTTP/1.1", Headers::new());
        let path = match req.route_request(&dir) {
            RoutePlan::ReadFile { file_path } => file_path,
            _ => panic!("expected a file read"),
        };
        file_get_response(&path, content.clone()).serialize()
    };
    assert_eq!(first, second);
}

#[test]
fn content_type_table() {
    let req = request(b"GET", b"/", b"HTTP/1.1", Headers::new());
    assert_eq!(req.get_content_type(&b"html".to_vec()), b"text/html".to_vec());
    assert_eq!(req.get_content_type(&b"css".to_vec()), b"text/css".to_vec());
    assert_eq!(req.get_content_type(&b"js".to_vec()), b"text/js".to_vec());
    assert_eq!(req.get_content_type(&b"png".to_vec()), b"text/png".to_vec());
    assert_eq!(req.get_content_type(&b"jpg".to_vec()), b"text/jpg".to_vec());
    assert_eq!(req.get_content_type(&b"jpeg".to_vec()), b"text/jpeg".to_vec());
    assert_eq!(req.get_content_type(&b"svg".to_vec()), b"text/svg".to_vec());
    assert_eq!(req.get_content_type(&b"txt".to_vec()), b"application/octet-stream".to_vec());
    assert_eq!(req.get_content_type(&Vec::new()), b"application/octet-stream".to_vec());
}

#[test]
fn extension_drives_file_content_type() {
    let resp = file_get_response(&b"/srv//a/page.html".to_vec(), b"x".to_vec());
    assert_eq!(resp.headers.get(&b"Content-Type".to_vec()), Some(b"text/html".to_vec()));
    let resp = file_get_response(&b"/srv//a/archive.tar.gz".to_vec(), b"x".to_vec());
    assert_eq!(
        resp.headers.get(&b"Content-Type".to_vec()),
        Some(b"application/octet-stream".to_vec())
    );
    let resp = file_get_response(&b"/srv//a/.hidden".to_vec(), b"x".to_vec());
    assert_eq!(
        resp.headers.get(&b"Content-Type".to_vec()),
        Some(b"application/octet-stream".to_vec())
    );
    let resp = file_get_response(&b"/srv//no.dir/plain".to_vec(), b"x".to_vec());
    assert_eq!(
        resp.headers.get(&b"Content-Type".to_vec()),
        Some(b"application/octet-stream".to_vec())
    );
}

#[test]
fn unrecognized_tokens_degrade_to_defaults() {
    let req = request(b"BREW", b"/", b"HTTP/9.9", Headers::new());
    assert_eq!(req.method, HTTPMethod::GET);
    assert_eq!(req.version, HTTPVersion::HTTP1_0);
    let req = request(b"POST", b"/x", b"HTTP/2.0", Headers::new());
    assert_eq!(req.method, HTTPMethod::POST);
    assert_eq!(req.version, HTTPVersion::HTTP2_0);
}

#[test]
fn post_to_echo_path_still_writes_a_file() {
    let mut post = request(b"POST", b"/echo/abc", b"HTTP/1.1", Headers::new());
    post.body = Some(b"data".to_vec());
    match post.route_request(&b"/srv".to_vec()) {
        RoutePlan::WriteFile { file_path, content } => {
            assert_eq!(file_path, b"/srv//echo/abc".to_vec());
            assert_eq!(content, b"data".to_vec());
        },
        _ => panic!("expected a file write"),
    }
}

#[test]
fn user_agent_prefix_matches_longer_paths() {
    let mut h = Headers::new();
    h.insert(b"User-Agent".to_vec(), b"tester".to_vec());
    let req = request(b"GET", b"/user-agent-extra", b"HTTP/1.1", h);
    let resp = expect_respond(req.route_request(&b"/srv".to_vec()));
    assert_eq!(resp.body, Some(b"tester".to_vec()));
}

#[test]
fn echo_without_trailing_slash_is_a_file_read() {
    let req = request(b"GET", b"/echo", b"HTTP/1.1", Headers::new());
    match req.route_request(&b"/srv".to_vec()) {
        RoutePlan::ReadFile { file_path } => {
            assert_eq!(file_path, b"/srv//echo".to_vec());
        },
        _ => panic!("expected a file read"),
    }
}
