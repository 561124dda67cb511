use http_core::headers::Headers;
use http_core::method::HTTPMethod;
use http_core::request::HTTPRequest;
use http_core::response::HTTPResponse;
use http_core::session::{
    initial_state, session_step, SessionAction, SessionEvent, SessionState,
};
use http_core::status::HTTPStatus;
use http_core::version::HTTPVersion;

#[test]
fn status_codes_and_messages() {
    assert_eq!(HTTPStatus::OK.code(), 200);
    assert_eq!(HTTPStatus::OK.message(), b"OK".to_vec());
    assert_eq!(HTTPStatus::Created.code(), 201);
    assert_eq!(HTTPStatus::Created.message(), b"Created".to_vec());
    assert_eq!(HTTPStatus::BadRequest.code(), 400);
    assert_eq!(HTTPStatus::BadRequest.message(), b"Bad Request".to_vec());
    assert_eq!(HTTPStatus::Unauthorized.code(), 401);
    assert_eq!(HTTPStatus::Unauthorized.message(), b"Unauthorized".to_vec());
    assert_eq!(HTTPStatus::NotFound.code(), 404);
    assert_eq!(HTTPStatus::NotFound.message(), b"Not Found".to_vec());
    assert_eq!(HTTPStatus::InternalServerError.code(), 500);
    assert_eq!(HTTPStatus::InternalServerError.message(), b"Internal Server Error".to_vec());
}

#[test]
fn method_and_version_tokens_round_trip() {
    assert_eq!(HTTPMethod::from_token(&b"GET".to_vec()), Some(HTTPMethod::GET));
    assert_eq!(HTTPMethod::from_token(&b"POST".to_vec()), Some(HTTPMethod::POST));
    assert_eq!(HTTPMethod::from_token(&b"PUT".to_vec()), Some(HTTPMethod::PUT));
    assert_eq!(HTTPMethod::from_token(&b"DELETE".to_vec()), Some(HTTPMethod::DELETE));
    assert_eq!(HTTPMethod::from_token(&b"get".to_vec()), None);
    assert_eq!(HTTPMethod::GET.token(), b"GET".to_vec());
    assert_eq!(HTTPVersion::from_token(&b"HTTP/1.0".to_vec()), Some(HTTPVersion::HTTP1_0));
    assert_eq!(HTTPVersion::from_token(&b"HTTP/1.1".to_vec()), Some(HTTPVersion::HTTP1_1));
    assert_eq!(HTTPVersion::from_token(&b"HTTP/2.0".to_vec()), Some(HTTPVersion::HTTP2_0));
    assert_eq!(HTTPVersion::from_token(&b"HTTP/3".to_vec()), None);
    assert_eq!(HTTPVersion::HTTP2_0.token(), b"HTTP/2.0".to_vec());
}

#[test]
fn response_serializes_to_exact_wire_bytes() {
    let mut headers = Headers::new();
    headers.insert(b"Content-Type".to_vec(), b"text/plain".to_vec());
    headers.insert(b"Content-Length".to_vec(), b"2".to_vec());
    let resp = HTTPResponse::new(
        HTTPVersion::HTTP1_1,
        HTTPStatus::OK,
        headers,
        Some(b"hi".to_vec()),
    );
    let wire = resp.serialize();
    assert_eq!(
        wire,
        b"HTTP/1.1 200 OK\r\nContent-Type: text/plain\r\nContent-Length: 2\r\n\r\nhi".to_vec()
    );
}

#[test]
fn bodyless_response_ends_with_blank_line() {
    let resp = HTTPResponse::new(HTTPVersion::HTTP1_1, HTTPStatus::NotFound, Headers::new(), None);
    assert_eq!(resp.serialize(), b"HTTP/1.1 404 Not Found\r\n\r\n".to_vec());
}

#[test]
fn response_body_is_lossily_decoded_on_the_wire() {
    let resp = HTTPResponse::new(
        HTTPVersion::HTTP1_0,
        HTTPStatus::OK,
        Headers::new(),
        Some(vec![0xFF, 0x68]),
    );
    let mut expected = b"HTTP/1.0 200 OK\r\n\r\n".to_vec();
    expected.extend_from_slice(&[0xEF, 0xBF, 0xBD, 0x68]);
    assert_eq!(resp.serialize(), expected);
}

#[test]
fn request_serializes_like_its_wire_form() {
    let mut headers = Headers::new();
    headers.insert(b"Host".to_vec(), b"localhost".to_vec());
    let req = HTTPRequest::new(
        b"POST".to_vec(),
        b"/files/a".to_vec(),
        b"HTTP/1.1".to_vec(),
        headers,
        Some(b"abc".to_vec()),
    );
    assert_eq!(
        req.serialize(),
        b"POST /files/a HTTP/1.1\r\nHost: localhost\r\n\r\nabc".to_vec()
    );
}

#[test]
fn keep_alive_default_depends_on_version() {
    let one_one = HTTPRequest::new(
        b"GET".to_vec(),
        b"/".to_vec(),
        b"HTTP/1.1".to_vec(),
        Headers::new(),
        None,
    );
    assert!(one_one.keep_alive());
    let one_zero = HTTPRequest::new(
        b"GET".to_vec(),
        b"/".to_vec(),
        b"HTTP/1.0".to_vec(),
        Headers::new(),
        None,
    );
    assert!(!one_zero.keep_alive());
    let two = HTTPRequest::new(
        b"GET".to_vec(),
        b"/".to_vec(),
        b"HTTP/2.0".to_vec(),
        Headers::new(),
        None,
    );
    assert!(two.keep_alive());
}

#[test]
fn connection_close_overrides_version() {
    for version in [b"HTTP/1.0".as_slice(), b"HTTP/1.1", b"HTTP/2.0"] {
        let mut h = Headers::new();
        h.insert(b"Connection".to_vec(), b"close".to_vec());
        let req = HTTPRequest::new(
            b"GET".to_vec(),
            b"/".to_vec(),
            version.to_vec(),
            h,
            None,
        );
        assert!(!req.keep_alive());
    }
    let mut h = Headers::new();
    h.insert(b"Connection".to_vec(), b"CLOSE".to_vec());
    let req = HTTPRequest::new(
        b"GET".to_vec(),
        b"/".to_vec(),
        b"HTTP/1.1".to_vec(),
        h,
        None,
    );
    assert!(!req.keep_alive());
}

#[test]
fn other_connection_values_keep_alive() {
    let mut h = Headers::new();
    h.insert(b"Connection".to_vec(), b"keep-alive".to_vec());
    let req = HTTPRequest::new(
        b"GET".to_vec(),
        b"/".to_vec(),
        b"HTTP/1.0".to_vec(),
        h,
        None,
    );
    assert!(req.keep_alive());
}

#[test]
fn session_walks_one_kept_alive_cycle() {
    let st = initial_state();
    assert_eq!(st, SessionState::AwaitingRequest);
    let (st, action) = session_step(st, SessionEvent::BytesAvailable);
    assert_eq!(st, SessionState::Processing);
    assert_eq!(action, SessionAction::HandleRequest);
    let (st, action) = session_step(st, SessionEvent::ResponseWritten);
    assert_eq!(st, SessionState::ResponseSent);
    assert_eq!(action, SessionAction::CheckKeepAlive);
    let (st, action) = session_step(st, SessionEvent::KeepAlive { keep: true });
    assert_eq!(st, SessionState::AwaitingRequest);
    assert_eq!(action, SessionAction::AwaitNext);
    let (st, action) = session_step(st, SessionEvent::KeepAlive { keep: false });
    assert_eq!(st, SessionState::Closed);
    assert_eq!(action, SessionAction::Fail);
}

#[test]
fn session_closes_on_peer_close_and_failure() {
    let (st, action) = session_step(SessionState::AwaitingRequest, SessionEvent::PeerClosed);
    assert_eq!(st, SessionState::Closed);
    assert_eq!(action, SessionAction::TearDown);
    let (st, action) = session_step(SessionState::Processing, SessionEvent::IoFailure);
    assert_eq!(st, SessionState::Closed);
    assert_eq!(action, SessionAction::Fail);
    let (st, action) = session_step(
        SessionState::ResponseSent,
        SessionEvent::KeepAlive { keep: false },
    );
    assert_eq!(st, SessionState::Closed);
    assert_eq!(action, SessionAction::TearDown);
}

#[test]
fn request_body_is_lossily_reencoded_at_construction() {
    let req = HTTPRequest::new(
        b"POST".to_vec(),
        b"/x".to_vec(),
        b"HTTP/1.1".to_vec(),
        Headers::new(),
        Some(vec![0x61, 0xC0, 0x62]),
    );
    assert_eq!(req.body, Some(vec![0x61, 0xEF, 0xBF, 0xBD, 0x62]));
    let ascii = HTTPRequest::new(
        b"POST".to_vec(),
        b"/x".to_vec(),
        b"HTTP/1.1".to_vec(),
        Headers::new(),
        Some(b"plain".to_vec()),
    );
    assert_eq!(ascii.body, Some(b"plain".to_vec()));
}
