//! HTTP protocol versions: a closed set of recognized wire tokens.

use vstd::prelude::*;

use crate::bytes::bytes_eq;

verus! {

#[derive(Clone, Copy, PartialEq, Eq, Structural, Debug)]
pub enum HTTPVersion {
    HTTP1_0,
    HTTP1_1,
    HTTP2_0,
}

/// The wire token of each version (`HTTP/1.0`, `HTTP/1.1`, `HTTP/2.0`).
pub open spec fn spec_version_token(v: HTTPVersion) -> Seq<u8> {
    match v {
        HTTPVersion::HTTP1_0 => seq![72u8, 84u8, 84u8, 80u8, 47u8, 49u8, 46u8, 48u8],
        HTTPVersion::HTTP1_1 => seq![72u8, 84u8, 84u8, 80u8, 47u8, 49u8, 46u8, 49u8],
        HTTPVersion::HTTP2_0 => seq![72u8, 84u8, 84u8, 80u8, 47u8, 50u8, 46u8, 48u8],
    }
}

/// The version a wire token names, if it names one.
pub open spec fn spec_parse_version(s: Seq<u8>) -> Option<HTTPVersion> {
    if s == spec_version_token(HTTPVersion::HTTP1_0) {
        Some(HTTPVersion::HTTP1_0)
    } else if s == spec_version_token(HTTPVersion::HTTP1_1) {
        Some(HTTPVersion::HTTP1_1)
    } else if s == spec_version_token(HTTPVersion::HTTP2_0) {
        Some(HTTPVersion::HTTP2_0)
    } else {
        None
    }
}

impl HTTPVersion {
    pub fn from_token(s: &Vec<u8>) -> (r: Option<HTTPVersion>)
        ensures
            r == spec_parse_version(s@),
    {
        let v10: Vec<u8> = vec![72u8, 84u8, 84u8, 80u8, 47u8, 49u8, 46u8, 48u8];
        let v11: Vec<u8> = vec![72u8, 84u8, 84u8, 80u8, 47u8, 49u8, 46u8, 49u8];
        let v20: Vec<u8> = vec![72u8, 84u8, 84u8, 80u8, 47u8, 50u8, 46u8, 48u8];
        if bytes_eq(s, &v10) {
            Some(HTTPVersion::HTTP1_0)
        } else if bytes_eq(s, &v11) {
            Some(HTTPVersion::HTTP1_1)
        } else if bytes_eq(s, &v20) {
            Some(HTTPVersion::HTTP2_0)
        } else {
            None
        }
    }

    pub fn token(&self) -> (r: Vec<u8>)
        ensures
            r@ == spec_version_token(*self),
    {
        match *self {
            HTTPVersion::HTTP1_0 => vec![72u8, 84u8, 84u8, 80u8, 47u8, 49u8, 46u8, 48u8],
            HTTPVersion::HTTP1_1 => vec![72u8, 84u8, 84u8, 80u8, 47u8, 49u8, 46u8, 49u8],
            HTTPVersion::HTTP2_0 => vec![72u8, 84u8, 84u8, 80u8, 47u8, 50u8, 46u8, 48u8],
        }
    }
}

} // verus!
