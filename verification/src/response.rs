//! The HTTP response model and its wire serialization: status line,
//! header lines in map order, a blank line, then the body decoded as
//! UTF-8 with lossy replacement.

use vstd::prelude::*;

use crate::bytes::{append_bytes, lossy_reencode, lossy_utf8};
use crate::headers::{wf_headers, HeaderSeq, Headers};
use crate::num::{spec_dec_rep, u64_digits};
use crate::status::{spec_status_code, spec_status_message, HTTPStatus};
use crate::version::{spec_version_token, HTTPVersion};

verus! {

pub ghost struct ResponseView {
    pub version: HTTPVersion,
    pub status_code: u16,
    pub status_message: Seq<u8>,
    pub headers: HeaderSeq,
    pub body: Option<Seq<u8>>,
}

pub struct HTTPResponse {
    pub version: HTTPVersion,
    pub status_code: u16,
    pub status_message: Vec<u8>,
    pub headers: Headers,
    pub body: Option<Vec<u8>>,
}

impl View for HTTPResponse {
    type V = ResponseView;

    open spec fn view(&self) -> ResponseView {
        ResponseView {
            version: self.version,
            status_code: self.status_code,
            status_message: self.status_message@,
            headers: self.headers@,
            body: match self.body {
                Some(b) => Some(b@),
                None => None,
            },
        }
    }
}

impl HTTPResponse {
    pub open spec fn wf(&self) -> bool {
        wf_headers(self@.headers)
    }

    pub fn new(version: HTTPVersion, status: HTTPStatus, headers: Headers, body: Option<Vec<u8>>)
        -> (r: HTTPResponse)
        ensures
            r@ == (ResponseView {
                version,
                status_code: spec_status_code(status),
                status_message: spec_status_message(status),
                headers: headers@,
                body: match body {
                    Some(b) => Some(b@),
                    None => None,
                },
            }),
            wf_headers(headers@) ==> r.wf(),
    {
        let status_code = status.code();
        let status_message = status.message();
        HTTPResponse { version, status_code, status_message, headers, body }
    }

    /// The exact wire bytes of this response.
    pub fn serialize(&self) -> (r: Vec<u8>)
        ensures
            r@ == spec_serialize_response(self@),
    {
        let mut out = self.version.token();
        out.push(32);
        proof {
            assert(out@ =~= spec_version_token(self@.version) + seq![32u8]);
        }
        let code = u64_digits(self.status_code as u64);
        append_bytes(&mut out, &code);
        out.push(32);
        proof {
            assert(out@ =~= spec_version_token(self@.version) + seq![32u8] + spec_dec_rep(
                self@.status_code as nat,
            ) + seq![32u8]);
        }
        append_bytes(&mut out, &self.status_message);
        out.push(13);
        out.push(10);
        let ghost head: Seq<u8> = spec_version_token(self@.version) + seq![32u8] + spec_dec_rep(
            self@.status_code as nat,
        ) + seq![32u8] + self@.status_message + seq![13u8, 10u8];
        proof {
            assert(out@ =~= head);
            assert(self@.headers.take(0) =~= Seq::<(Seq<u8>, Seq<u8>)>::empty());
            assert(out@ =~= head + spec_header_block(self@.headers.take(0)));
        }
        let mut i: usize = 0;
        while i < self.headers.len()
            invariant
                i <= self@.headers.len(),
                self.headers@ == self@.headers,
                out@ == head + spec_header_block(self@.headers.take(i as int)),
            decreases self@.headers.len() - i,
        {
            let (name, value) = self.headers.entry_at(i);
            append_bytes(&mut out, &name);
            out.push(58);
            out.push(32);
            append_bytes(&mut out, &value);
            out.push(13);
            out.push(10);
            proof {
                assert(self@.headers.take(i + 1 as int).drop_last() =~= self@.headers.take(
                    i as int,
                ));
                assert(self@.headers.take(i + 1 as int).last() == self@.headers[i as int]);
                assert(out@ =~= head + spec_header_block(self@.headers.take(i + 1 as int)));
            }
            i += 1;
        }
        proof {
            assert(self@.headers.take(self@.headers.len() as int) =~= self@.headers);
        }
        out.push(13);
        out.push(10);
        match &self.body {
            Some(b) => {
                let lb = lossy_reencode(b);
                append_bytes(&mut out, &lb);
                proof {
                    assert(out@ =~= spec_serialize_response(self@));
                }
            },
            None => {
                proof {
                    assert(out@ =~= spec_serialize_response(self@));
                }
            },
        }
        out
    }
}

/// One header line: `name: value` followed by CRLF.
pub open spec fn spec_header_line(e: (Seq<u8>, Seq<u8>)) -> Seq<u8> {
    e.0 + seq![58u8, 32u8] + e.1 + seq![13u8, 10u8]
}

/// All header lines, in map order.
pub open spec fn spec_header_block(m: HeaderSeq) -> Seq<u8>
    decreases m.len(),
{
    if m.len() == 0 {
        Seq::empty()
    } else {
        spec_header_block(m.drop_last()) + spec_header_line(m.last())
    }
}

/// The wire bytes of a response: status line, header lines, a blank
/// line, then the lossily decoded body, if any.
pub open spec fn spec_serialize_response(r: ResponseView) -> Seq<u8> {
    spec_version_token(r.version) + seq![32u8] + spec_dec_rep(r.status_code as nat) + seq![32u8]
        + r.status_message + seq![13u8, 10u8] + spec_header_block(r.headers) + seq![13u8, 10u8]
        + (match r.body {
        Some(b) => lossy_utf8(b),
        None => Seq::<u8>::empty(),
    })
}

} // verus!
