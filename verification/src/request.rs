//! The HTTP request model and the routing decision. Routing is a pure
//! function from a request and the effective serving directory to a
//! plan: either a finished response (echo, user-agent reflection, not
//! found) or the file action the caller must carry out, paired here
//! with the verified builders that turn a file action's outcome into
//! the response.

use vstd::prelude::*;

use crate::bytes::{
    append_bytes, bytes_eq, copy_bytes, has_prefix, lossy_reencode, lossy_utf8, lower_bytes,
    spec_last_pos, spec_lower, last_pos_byte, starts_with_bytes, sub_vec,
};
use crate::headers::{spec_lookup, wf_headers, HeaderSeq, Headers};
use crate::method::{spec_parse_method, HTTPMethod};
use crate::num::{spec_dec_rep, usize_digits};
use crate::response::{spec_header_block, HTTPResponse, ResponseView};
use crate::status::{spec_status_code, spec_status_message, HTTPStatus};
use crate::tokens::{
    spec_tok_close, spec_tok_connection, spec_tok_content_length, spec_tok_content_type,
    spec_tok_echo_prefix, spec_tok_ext_css, spec_tok_ext_html, spec_tok_ext_jpeg,
    spec_tok_ext_jpg, spec_tok_ext_js, spec_tok_ext_png, spec_tok_ext_svg, spec_tok_index_file,
    spec_tok_octet_stream, spec_tok_placeholder, spec_tok_root_path, spec_tok_text_plain,
    spec_tok_text_slash, spec_tok_ua_default, spec_tok_user_agent, spec_tok_user_agent_path,
    tok_close, tok_connection, tok_content_length, tok_content_type, tok_echo_prefix,
    tok_ext_css, tok_ext_html, tok_ext_jpeg, tok_ext_jpg, tok_ext_js, tok_ext_png, tok_ext_svg,
    tok_index_file, tok_octet_stream, tok_placeholder, tok_root_path, tok_text_plain,
    tok_text_slash, tok_ua_default, tok_user_agent, tok_user_agent_path,
};
use crate::version::{spec_parse_version, HTTPVersion};

verus! {

pub ghost struct RequestView {
    pub method: HTTPMethod,
    pub path: Seq<u8>,
    pub version: HTTPVersion,
    pub headers: HeaderSeq,
    pub body: Option<Seq<u8>>,
}

pub struct HTTPRequest {
    pub method: HTTPMethod,
    pub path: Vec<u8>,
    pub version: HTTPVersion,
    pub headers: Headers,
    pub body: Option<Vec<u8>>,
}

impl View for HTTPRequest {
    type V = RequestView;

    open spec fn view(&self) -> RequestView {
        RequestView {
            method: self.method,
            path: self.path@,
            version: self.version,
            headers: self.headers@,
            body: match self.body {
                Some(b) => Some(b@),
                None => None,
            },
        }
    }
}

/// What routing asks of the caller: send a finished response, or
/// perform the named file action and then build the response from its
/// outcome.
pub enum RoutePlan {
    Respond(HTTPResponse),
    ReadIndex { file_path: Vec<u8> },
    ReadFile { file_path: Vec<u8> },
    WriteFile { file_path: Vec<u8>, content: Vec<u8> },
}

pub ghost enum PlanView {
    Respond(ResponseView),
    ReadIndex { file_path: Seq<u8> },
    ReadFile { file_path: Seq<u8> },
    WriteFile { file_path: Seq<u8>, content: Seq<u8> },
}

impl View for RoutePlan {
    type V = PlanView;

    open spec fn view(&self) -> PlanView {
        match self {
            RoutePlan::Respond(r) => PlanView::Respond(r@),
            RoutePlan::ReadIndex { file_path } => PlanView::ReadIndex { file_path: file_path@ },
            RoutePlan::ReadFile { file_path } => PlanView::ReadFile { file_path: file_path@ },
            RoutePlan::WriteFile { file_path, content } => PlanView::WriteFile {
                file_path: file_path@,
                content: content@,
            },
        }
    }
}

/// The method a token names, with the quirk the wire format keeps: an
/// unrecognized token degrades to GET.
pub open spec fn spec_method_or_default(s: Seq<u8>) -> HTTPMethod {
    match spec_parse_method(s) {
        Some(m) => m,
        None => HTTPMethod::GET,
    }
}

/// The version a token names; an unrecognized token degrades to
/// HTTP/1.0.
pub open spec fn spec_version_or_default(s: Seq<u8>) -> HTTPVersion {
    match spec_parse_version(s) {
        Some(v) => v,
        None => HTTPVersion::HTTP1_0,
    }
}

/// A file path under the serving directory: directory, slash, name.
pub open spec fn spec_full_path(dir: Seq<u8>, p: Seq<u8>) -> Seq<u8> {
    dir + seq![47u8] + p
}

/// The path with every leading `/echo/` removed, as
/// `trim_start_matches` does.
pub open spec fn spec_echo_body(p: Seq<u8>) -> Seq<u8>
    decreases p.len(),
{
    if has_prefix(p, spec_tok_echo_prefix()) {
        spec_echo_body(p.skip(6))
    } else {
        p
    }
}

/// The final path segment's extension: what follows its last dot,
/// empty when the segment has no dot past its first byte.
pub open spec fn spec_ext_of(p: Seq<u8>) -> Seq<u8> {
    let seg = p.skip(spec_last_pos(p, 47) + 1);
    let d = spec_last_pos(seg, 46);
    if d <= 0 {
        Seq::<u8>::empty()
    } else {
        seg.skip(d + 1)
    }
}

/// `text/<ext>` for the fixed table of known extensions, else
/// `application/octet-stream`.
pub open spec fn spec_content_type(ext: Seq<u8>) -> Seq<u8> {
    if ext == spec_tok_ext_html() || ext == spec_tok_ext_css() || ext == spec_tok_ext_js()
        || ext == spec_tok_ext_png() || ext == spec_tok_ext_jpg() || ext == spec_tok_ext_jpeg()
        || ext == spec_tok_ext_svg() {
        spec_tok_text_slash() + ext
    } else {
        spec_tok_octet_stream()
    }
}

/// A 200 OK with `Content-Type: text/plain` and an exact
/// `Content-Length`, carrying `body`.
pub open spec fn spec_plain_ok_response(body: Seq<u8>) -> ResponseView {
    ResponseView {
        version: HTTPVersion::HTTP1_1,
        status_code: 200,
        status_message: spec_status_message(HTTPStatus::OK),
        headers: seq![
            (spec_tok_content_type(), spec_tok_text_plain()),
            (spec_tok_content_length(), spec_dec_rep(body.len())),
        ],
        body: Some(body),
    }
}

pub open spec fn spec_echo_response(path: Seq<u8>) -> ResponseView {
    spec_plain_ok_response(spec_echo_body(path))
}

/// The `User-Agent` header's value, or the fixed fallback body.
pub open spec fn spec_user_agent_body(h: HeaderSeq) -> Seq<u8> {
    match spec_lookup(h, spec_tok_user_agent()) {
        Some(v) => v,
        None => spec_tok_ua_default(),
    }
}

pub open spec fn spec_user_agent_response(h: HeaderSeq) -> ResponseView {
    spec_plain_ok_response(spec_user_agent_body(h))
}

pub open spec fn spec_not_found_response() -> ResponseView {
    ResponseView {
        version: HTTPVersion::HTTP1_1,
        status_code: 404,
        status_message: spec_status_message(HTTPStatus::NotFound),
        headers: Seq::empty(),
        body: None,
    }
}

/// The response for the index page: the file's content when it could
/// be read, else 200 OK with the literal placeholder body.
pub open spec fn spec_root_response(content: Option<Seq<u8>>) -> ResponseView {
    let body = match content {
        Some(c) => c,
        None => spec_tok_placeholder(),
    };
    ResponseView {
        version: HTTPVersion::HTTP1_1,
        status_code: 200,
        status_message: spec_status_message(HTTPStatus::OK),
        headers: seq![
            (spec_tok_content_type(), spec_content_type(spec_tok_ext_html())),
            (spec_tok_content_length(), spec_dec_rep(body.len())),
        ],
        body: Some(body),
    }
}

/// The response for a file read that succeeded.
pub open spec fn spec_file_get_response(file_path: Seq<u8>, content: Seq<u8>) -> ResponseView {
    ResponseView {
        version: HTTPVersion::HTTP1_1,
        status_code: 200,
        status_message: spec_status_message(HTTPStatus::OK),
        headers: seq![
            (spec_tok_content_type(), spec_content_type(spec_ext_of(file_path))),
            (spec_tok_content_length(), spec_dec_rep(content.len())),
        ],
        body: Some(content),
    }
}

/// The response for a file write that succeeded: 201 Created, a
/// `Content-Length` naming the written byte count, and no body.
pub open spec fn spec_file_post_response(file_path: Seq<u8>, content: Seq<u8>) -> ResponseView {
    ResponseView {
        version: HTTPVersion::HTTP1_1,
        status_code: 201,
        status_message: spec_status_message(HTTPStatus::Created),
        headers: seq![
            (spec_tok_content_type(), spec_content_type(spec_ext_of(file_path))),
            (spec_tok_content_length(), spec_dec_rep(content.len())),
        ],
        body: None,
    }
}

/// The body bytes a POST writes: the request body, lossily re-encoded;
/// empty when there is none.
pub open spec fn spec_post_content(body: Option<Seq<u8>>) -> Seq<u8> {
    match body {
        Some(b) => lossy_utf8(b),
        None => lossy_utf8(Seq::<u8>::empty()),
    }
}

/// The ordered dispatch over method and path.
pub open spec fn spec_route(req: RequestView, dir: Seq<u8>) -> PlanView {
    if req.method == HTTPMethod::GET && req.path == spec_tok_root_path() {
        PlanView::ReadIndex { file_path: spec_full_path(dir, spec_tok_index_file()) }
    } else if req.method == HTTPMethod::GET && has_prefix(req.path, spec_tok_echo_prefix()) {
        PlanView::Respond(spec_echo_response(req.path))
    } else if req.method == HTTPMethod::GET && has_prefix(req.path, spec_tok_user_agent_path()) {
        PlanView::Respond(spec_user_agent_response(req.headers))
    } else if req.method == HTTPMethod::GET {
        PlanView::ReadFile { file_path: spec_full_path(dir, req.path) }
    } else if req.method == HTTPMethod::POST {
        PlanView::WriteFile {
            file_path: spec_full_path(dir, req.path),
            content: spec_post_content(req.body),
        }
    } else {
        PlanView::Respond(spec_not_found_response())
    }
}

/// Whether the connection stays open after this request's response: a
/// `Connection` header decides (anything but `close`, compared without
/// ASCII case); with none, HTTP/1.0 closes and later versions stay.
pub open spec fn spec_keep_alive(req: RequestView) -> bool {
    match spec_lookup(req.headers, spec_tok_connection()) {
        Some(v) => !(spec_lower(v) == spec_tok_close()),
        None => req.version != HTTPVersion::HTTP1_0,
    }
}

/// The wire rendering of a request, used when logging one: request
/// line, header lines, a blank line, then the lossily decoded body.
pub open spec fn spec_serialize_request(req: RequestView) -> Seq<u8> {
    crate::method::spec_method_token(req.method) + seq![32u8] + req.path + seq![32u8]
        + crate::version::spec_version_token(req.version) + seq![13u8, 10u8] + spec_header_block(
        req.headers,
    ) + seq![13u8, 10u8] + (match req.body {
        Some(b) => lossy_utf8(b),
        None => Seq::<u8>::empty(),
    })
}

fn full_path(dir: &Vec<u8>, p: &Vec<u8>) -> (r: Vec<u8>)
    ensures
        r@ == spec_full_path(dir@, p@),
{
    let mut r = copy_bytes(dir);
    r.push(47);
    proof {
        assert(r@ =~= dir@ + seq![47u8]);
    }
    append_bytes(&mut r, p);
    r
}

/// Build a plain-text 200 OK around `body`.
fn plain_ok(body: Vec<u8>) -> (r: HTTPResponse)
    ensures
        r@ == spec_plain_ok_response(body@),
        r.wf(),
{
    let mut headers = Headers::new();
    headers.insert(tok_content_type(), tok_text_plain());
    let len_digits = usize_digits(body.len());
    headers.insert(tok_content_length(), len_digits);
    proof {
        assert(headers@ =~= spec_plain_ok_response(body@).headers);
    }
    HTTPResponse::new(HTTPVersion::HTTP1_1, HTTPStatus::OK, headers, Some(body))
}

impl HTTPRequest {
    pub open spec fn wf(&self) -> bool {
        wf_headers(self@.headers)
    }

    /// Assemble a request from parsed tokens; an unrecognized method
    /// or version degrades to GET or HTTP/1.0, and the body is kept as
    /// its lossy UTF-8 re-encoding.
    pub fn new(
        method: Vec<u8>,
        path: Vec<u8>,
        version: Vec<u8>,
        headers: Headers,
        body: Option<Vec<u8>>,
    ) -> (r: HTTPRequest)
        ensures
            r@ == (RequestView {
                method: spec_method_or_default(method@),
                path: path@,
                version: spec_version_or_default(version@),
                headers: headers@,
                body: match body {
                    Some(b) => Some(lossy_utf8(b@)),
                    None => None,
                },
            }),
            wf_headers(headers@) ==> r.wf(),
    {
        let m = match HTTPMethod::from_token(&method) {
            Some(m) => m,
            None => HTTPMethod::GET,
        };
        let v = match HTTPVersion::from_token(&version) {
            Some(v) => v,
            None => HTTPVersion::HTTP1_0,
        };
        let b = match body {
            Some(raw) => Some(lossy_reencode(&raw)),
            None => None,
        };
        HTTPRequest { method: m, path, version: v, headers, body: b }
    }

    /// Decide the route for this request against the effective
    /// directory.
    pub fn route_request(&self, dir: &Vec<u8>) -> (r: RoutePlan)
        requires
            self.wf(),
        ensures
            r@ == spec_route(self@, dir@),
    {
        let root = tok_root_path();
        let echo = tok_echo_prefix();
        let ua = tok_user_agent_path();
        if self.method == HTTPMethod::GET && bytes_eq(&self.path, &root) {
            RoutePlan::ReadIndex { file_path: full_path(dir, &tok_index_file()) }
        } else if self.method == HTTPMethod::GET && starts_with_bytes(&self.path, &echo) {
            RoutePlan::Respond(self.handle_echo_request())
        } else if self.method == HTTPMethod::GET && starts_with_bytes(&self.path, &ua) {
            RoutePlan::Respond(self.handle_user_agent_request())
        } else if self.method == HTTPMethod::GET {
            RoutePlan::ReadFile { file_path: full_path(dir, &self.path) }
        } else if self.method == HTTPMethod::POST {
            let content = match &self.body {
                Some(b) => lossy_reencode(b),
                None => lossy_reencode(&Vec::new()),
            };
            RoutePlan::WriteFile { file_path: full_path(dir, &self.path), content }
        } else {
            RoutePlan::Respond(HTTPResponse::new(
                HTTPVersion::HTTP1_1,
                HTTPStatus::NotFound,
                Headers::new(),
                None,
            ))
        }
    }

    /// The echo route: 200 OK text/plain, the path after its `/echo/`
    /// prefixes as the body.
    pub fn handle_echo_request(&self) -> (r: HTTPResponse)
        ensures
            r@ == spec_echo_response(self@.path),
            r.wf(),
    {
        let echo = tok_echo_prefix();
        let mut cur = copy_bytes(&self.path);
        while starts_with_bytes(&cur, &echo)
            invariant
                echo@ == spec_tok_echo_prefix(),
                spec_echo_body(self@.path) == spec_echo_body(cur@),
            decreases cur@.len(),
        {
            let next = sub_vec(&cur, 6, cur.len());
            proof {
                assert(next@ =~= cur@.skip(6));
            }
            cur = next;
        }
        plain_ok(cur)
    }

    /// The user-agent route: 200 OK text/plain, the `User-Agent`
    /// header's value (or the fixed fallback) as the body.
    pub fn handle_user_agent_request(&self) -> (r: HTTPResponse)
        requires
            self.wf(),
        ensures
            r@ == spec_user_agent_response(self@.headers),
            r.wf(),
    {
        let body = match self.headers.get(&tok_user_agent()) {
            Some(v) => v,
            None => tok_ua_default(),
        };
        plain_ok(body)
    }

    /// The content type for a file extension.
    pub fn get_content_type(&self, extension: &Vec<u8>) -> (r: Vec<u8>)
        ensures
            r@ == spec_content_type(extension@),
    {
        content_type_for(extension)
    }

    /// Whether to keep the connection open after responding.
    pub fn keep_alive(&self) -> (r: bool)
        requires
            self.wf(),
        ensures
            r == spec_keep_alive(self@),
    {
        match self.headers.get(&tok_connection()) {
            Some(v) => {
                let lowered = lower_bytes(&v);
                !bytes_eq(&lowered, &tok_close())
            },
            None => !matches!(self.version, HTTPVersion::HTTP1_0),
        }
    }

    /// The wire rendering of this request, for logging.
    pub fn serialize(&self) -> (r: Vec<u8>)
        ensures
            r@ == spec_serialize_request(self@),
    {
        let mut out = self.method.token();
        out.push(32);
        proof {
            assert(out@ =~= crate::method::spec_method_token(self@.method) + seq![32u8]);
        }
        append_bytes(&mut out, &self.path);
        out.push(32);
        proof {
            assert(out@ =~= crate::method::spec_method_token(self@.method) + seq![32u8]
                + self@.path + seq![32u8]);
        }
        let vt = self.version.token();
        append_bytes(&mut out, &vt);
        out.push(13);
        out.push(10);
        let ghost head: Seq<u8> = crate::method::spec_method_token(self@.method) + seq![32u8]
            + self@.path + seq![32u8] + crate::version::spec_version_token(self@.version)
            + seq![13u8, 10u8];
        proof {
            assert(out@ =~= head);
            assert(self@.headers.take(0) =~= Seq::<(Seq<u8>, Seq<u8>)>::empty());
            assert(out@ =~= head + spec_header_block(self@.headers.take(0)));
        }
        let mut i: usize = 0;
        while i < self.headers.len()
            invariant
                i <= self@.headers.len(),
                self.headers@ == self@.headers,
                out@ == head + spec_header_block(self@.headers.take(i as int)),
            decreases self@.headers.len() - i,
        {
            let (name, value) = self.headers.entry_at(i);
            append_bytes(&mut out, &name);
            out.push(58);
            out.push(32);
            append_bytes(&mut out, &value);
            out.push(13);
            out.push(10);
            proof {
                assert(self@.headers.take(i + 1 as int).drop_last() =~= self@.headers.take(
                    i as int,
                ));
                assert(self@.headers.take(i + 1 as int).last() == self@.headers[i as int]);
                assert(out@ =~= head + spec_header_block(self@.headers.take(i + 1 as int)));
            }
            i += 1;
        }
        proof {
            assert(self@.headers.take(self@.headers.len() as int) =~= self@.headers);
        }
        out.push(13);
        out.push(10);
        match &self.body {
            Some(b) => {
                let lb = lossy_reencode(b);
                append_bytes(&mut out, &lb);
                proof {
                    assert(out@ =~= spec_serialize_request(self@));
                }
            },
            None => {
                proof {
                    assert(out@ =~= spec_serialize_request(self@));
                }
            },
        }
        out
    }
}

fn content_type_for(extension: &Vec<u8>) -> (r: Vec<u8>)
    ensures
        r@ == spec_content_type(extension@),
{
    let known = bytes_eq(extension, &tok_ext_html()) || bytes_eq(extension, &tok_ext_css())
        || bytes_eq(extension, &tok_ext_js()) || bytes_eq(extension, &tok_ext_png()) || bytes_eq(
        extension,
        &tok_ext_jpg(),
    ) || bytes_eq(extension, &tok_ext_jpeg()) || bytes_eq(extension, &tok_ext_svg());
    if known {
        let mut r = tok_text_slash();
        append_bytes(&mut r, extension);
        r
    } else {
        tok_octet_stream()
    }
}

/// Build the index-page response from the read's outcome; a failed
/// read yields the placeholder body, still 200 OK.
pub fn root_response(content: Option<Vec<u8>>) -> (r: HTTPResponse)
    ensures
        r@ == spec_root_response(match content {
            Some(c) => Some(c@),
            None => None,
        }),
        r.wf(),
{
    let body = match content {
        Some(c) => c,
        None => tok_placeholder(),
    };
    let mut headers = Headers::new();
    headers.insert(tok_content_type(), content_type_for(&tok_ext_html()));
    let len_digits = usize_digits(body.len());
    headers.insert(tok_content_length(), len_digits);
    proof {
        assert(headers@ =~= spec_root_response(match content {
            Some(c) => Some(c@),
            None => None,
        }).headers);
    }
    HTTPResponse::new(HTTPVersion::HTTP1_1, HTTPStatus::OK, headers, Some(body))
}

fn ext_of(file_path: &Vec<u8>) -> (r: Vec<u8>)
    ensures
        r@ == spec_ext_of(file_path@),
{
    let n: usize = file_path.len();
    let seg_start: usize = match last_pos_byte(file_path, 47) {
        Some(i) => {
            proof {
                assert(i < n);
            }
            i + 1
        },
        None => 0,
    };
    let seg = sub_vec(file_path, seg_start, file_path.len());
    proof {
        assert(seg@ =~= file_path@.skip(spec_last_pos(file_path@, 47) + 1));
    }
    match last_pos_byte(&seg, 46) {
        Some(d) => {
            if d == 0 {
                Vec::new()
            } else {
                let m: usize = seg.len();
                proof {
                    assert(d < m);
                }
                let r = sub_vec(&seg, d + 1, m);
                proof {
                    assert(r@ =~= seg@.skip(spec_last_pos(seg@, 46) + 1));
                }
                r
            }
        },
        None => Vec::new(),
    }
}

/// Build the response for a file read that succeeded.
pub fn file_get_response(file_path: &Vec<u8>, content: Vec<u8>) -> (r: HTTPResponse)
    ensures
        r@ == spec_file_get_response(file_path@, content@),
        r.wf(),
{
    let extension = ext_of(file_path);
    let mut headers = Headers::new();
    headers.insert(tok_content_type(), content_type_for(&extension));
    let len_digits = usize_digits(content.len());
    headers.insert(tok_content_length(), len_digits);
    proof {
        assert(headers@ =~= spec_file_get_response(file_path@, content@).headers);
    }
    HTTPResponse::new(HTTPVersion::HTTP1_1, HTTPStatus::OK, headers, Some(content))
}

/// Build the response for a file write that succeeded, from the bytes
/// that were written.
pub fn file_post_response(file_path: &Vec<u8>, content: &Vec<u8>) -> (r: HTTPResponse)
    ensures
        r@ == spec_file_post_response(file_path@, content@),
        r.wf(),
{
    let extension = ext_of(file_path);
    let mut headers = Headers::new();
    headers.insert(tok_content_type(), content_type_for(&extension));
    let len_digits = usize_digits(content.len());
    headers.insert(tok_content_length(), len_digits);
    proof {
        assert(headers@ =~= spec_file_post_response(file_path@, content@).headers);
    }
    HTTPResponse::new(HTTPVersion::HTTP1_1, HTTPStatus::Created, headers, None)
}

} // verus!
