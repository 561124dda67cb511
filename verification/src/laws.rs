//! Protocol-level laws, stated over the same spec functions the
//! executable contracts use and proved once for all inputs.

use vstd::prelude::*;

use crate::bytes::has_prefix;
use crate::headers::{has_name, spec_lookup};
use crate::method::HTTPMethod;
use crate::num::spec_dec_rep;
use crate::request::{
    spec_echo_body, spec_file_get_response, spec_file_post_response, spec_full_path,
    spec_keep_alive, spec_not_found_response, spec_plain_ok_response, spec_post_content,
    spec_route, spec_user_agent_response, PlanView, RequestView,
};
use crate::response::spec_serialize_response;
use crate::session::{spec_session_step, SessionEvent, SessionState};
use crate::tokens::{
    spec_tok_close, spec_tok_connection, spec_tok_content_length, spec_tok_content_type,
    spec_tok_echo_prefix, spec_tok_root_path, spec_tok_text_plain, spec_tok_ua_default,
    spec_tok_user_agent, spec_tok_user_agent_path,
};
use crate::version::HTTPVersion;

verus! {

/// A GET of `/echo/<s>`, where `<s>` has no slash, is answered
/// directly: 200 OK, `text/plain`, body exactly `<s>`, and a
/// `Content-Length` naming `<s>`'s byte length.
pub proof fn lemma_echo_route(req: RequestView, dir: Seq<u8>, s: Seq<u8>)
    requires
        req.method == HTTPMethod::GET,
        req.path == spec_tok_echo_prefix() + s,
        forall|i: int| 0 <= i < s.len() ==> s[i] != 47,
    ensures
        spec_route(req, dir) == PlanView::Respond(spec_plain_ok_response(s)),
        spec_plain_ok_response(s).status_code == 200,
        spec_plain_ok_response(s).body == Some(s),
        spec_lookup(spec_plain_ok_response(s).headers, spec_tok_content_type()) == Some(
            spec_tok_text_plain(),
        ),
        spec_lookup(spec_plain_ok_response(s).headers, spec_tok_content_length()) == Some(
            spec_dec_rep(s.len()),
        ),
{
    assert(req.path.len() == 6 + s.len());
    assert(req.path != spec_tok_root_path());
    assert(req.path.subrange(0, 6) =~= spec_tok_echo_prefix());
    assert(has_prefix(req.path, spec_tok_echo_prefix()));
    assert(req.path.skip(6) =~= s);
    if has_prefix(s, spec_tok_echo_prefix()) {
        assert(s.subrange(0, 6)[0] == s[0]);
        assert(false);
    }
    assert(spec_echo_body(s) == s);
    assert(spec_echo_body(req.path) == spec_echo_body(req.path.skip(6)));
    assert(spec_echo_body(req.path) == s);
    let m = spec_plain_ok_response(s).headers;
    assert(spec_tok_content_type().len() != spec_tok_content_length().len());
    crate::headers::lemma_lookup_at(m, 0);
    crate::headers::lemma_lookup_at(m, 1);
}

/// A GET of a `/user-agent` path reflects the `User-Agent` header's
/// value as the body, or the fixed fallback text when the header is
/// absent.
pub proof fn lemma_user_agent_route(req: RequestView, dir: Seq<u8>)
    requires
        req.method == HTTPMethod::GET,
        has_prefix(req.path, spec_tok_user_agent_path()),
    ensures
        spec_route(req, dir) == PlanView::Respond(spec_user_agent_response(req.headers)),
        match spec_lookup(req.headers, spec_tok_user_agent()) {
            Some(v) => spec_user_agent_response(req.headers).body == Some(v),
            None => spec_user_agent_response(req.headers).body == Some(spec_tok_ua_default()),
        },
{
    assert(req.path.len() >= 11);
    assert(req.path != spec_tok_root_path());
    if has_prefix(req.path, spec_tok_echo_prefix()) {
        assert(req.path.subrange(0, 6)[1] == req.path[1]);
        assert(req.path.subrange(0, 11)[1] == req.path[1]);
        assert(false);
    }
}

/// A POST writes the request body's lossy re-encoding under the
/// request path and answers 201 Created; a GET of the same path reads
/// the same file, and the response built from the bytes the POST wrote
/// carries exactly those bytes with 200 OK.
pub proof fn lemma_file_round_trip(post: RequestView, get: RequestView, dir: Seq<u8>)
    requires
        post.method == HTTPMethod::POST,
        get.method == HTTPMethod::GET,
        get.path == post.path,
        get.path != spec_tok_root_path(),
        !has_prefix(get.path, spec_tok_echo_prefix()),
        !has_prefix(get.path, spec_tok_user_agent_path()),
    ensures
        spec_route(post, dir) == (PlanView::WriteFile {
            file_path: spec_full_path(dir, post.path),
            content: spec_post_content(post.body),
        }),
        spec_route(get, dir) == (PlanView::ReadFile {
            file_path: spec_full_path(dir, post.path),
        }),
        spec_file_post_response(
            spec_full_path(dir, post.path),
            spec_post_content(post.body),
        ).status_code == 201,
        spec_file_get_response(
            spec_full_path(dir, post.path),
            spec_post_content(post.body),
        ).status_code == 200,
        spec_file_get_response(spec_full_path(dir, post.path), spec_post_content(post.body)).body
            == Some(spec_post_content(post.body)),
{
}

/// Routing and response building are functions of the request, the
/// directory and the file's content alone: the same GET against an
/// unchanged file yields byte-identical wire responses.
pub proof fn lemma_get_idempotent(req1: RequestView, req2: RequestView, dir: Seq<u8>, content: Seq<u8>)
    requires
        req1 == req2,
    ensures
        spec_route(req1, dir) == spec_route(req2, dir),
        spec_serialize_response(spec_file_get_response(spec_full_path(dir, req1.path), content))
            == spec_serialize_response(
            spec_file_get_response(spec_full_path(dir, req2.path), content),
        ),
{
}

/// A method outside GET and POST falls through every route: 404 Not
/// Found, no headers, no body.
pub proof fn lemma_unmatched_is_not_found(req: RequestView, dir: Seq<u8>)
    requires
        req.method != HTTPMethod::GET,
        req.method != HTTPMethod::POST,
    ensures
        spec_route(req, dir) == PlanView::Respond(spec_not_found_response()),
        spec_not_found_response().status_code == 404,
        spec_not_found_response().body is None,
{
}

/// The keep-alive rules: without a `Connection` header, HTTP/1.1 and
/// HTTP/2.0 keep the connection and HTTP/1.0 closes it; a `Connection`
/// header equal to `close` (ASCII case ignored) closes it whatever the
/// version; and the session state machine turns that decision into
/// waiting for the next request or closing.
pub proof fn lemma_keep_alive_rules(req: RequestView)
    ensures
        !has_name(req.headers, spec_tok_connection()) && req.version != HTTPVersion::HTTP1_0
            ==> spec_keep_alive(req),
        !has_name(req.headers, spec_tok_connection()) && req.version == HTTPVersion::HTTP1_0
            ==> !spec_keep_alive(req),
        match spec_lookup(req.headers, spec_tok_connection()) {
            Some(v) => crate::bytes::spec_lower(v) == spec_tok_close() ==> !spec_keep_alive(req),
            None => true,
        },
        spec_session_step(SessionState::ResponseSent, (SessionEvent::KeepAlive { keep: true })).0
            == SessionState::AwaitingRequest,
        spec_session_step(SessionState::ResponseSent, (SessionEvent::KeepAlive { keep: false })).0
            == SessionState::Closed,
{
}

} // verus!
