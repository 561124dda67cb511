//! HTTP request methods: a closed set of recognized wire tokens.

use vstd::prelude::*;

use crate::bytes::bytes_eq;

verus! {

#[derive(Clone, Copy, PartialEq, Eq, Structural, Debug)]
pub enum HTTPMethod {
    GET,
    POST,
    PUT,
    DELETE,
}

/// The wire token of each method (`GET`, `POST`, `PUT`, `DELETE`).
pub open spec fn spec_method_token(m: HTTPMethod) -> Seq<u8> {
    match m {
        HTTPMethod::GET => seq![71u8, 69u8, 84u8],
        HTTPMethod::POST => seq![80u8, 79u8, 83u8, 84u8],
        HTTPMethod::PUT => seq![80u8, 85u8, 84u8],
        HTTPMethod::DELETE => seq![68u8, 69u8, 76u8, 69u8, 84u8, 69u8],
    }
}

/// The method a wire token names, if it names one.
pub open spec fn spec_parse_method(s: Seq<u8>) -> Option<HTTPMethod> {
    if s == spec_method_token(HTTPMethod::GET) {
        Some(HTTPMethod::GET)
    } else if s == spec_method_token(HTTPMethod::POST) {
        Some(HTTPMethod::POST)
    } else if s == spec_method_token(HTTPMethod::PUT) {
        Some(HTTPMethod::PUT)
    } else if s == spec_method_token(HTTPMethod::DELETE) {
        Some(HTTPMethod::DELETE)
    } else {
        None
    }
}

impl HTTPMethod {
    pub fn from_token(s: &Vec<u8>) -> (r: Option<HTTPMethod>)
        ensures
            r == spec_parse_method(s@),
    {
        let get: Vec<u8> = vec![71u8, 69u8, 84u8];
        let post: Vec<u8> = vec![80u8, 79u8, 83u8, 84u8];
        let put: Vec<u8> = vec![80u8, 85u8, 84u8];
        let delete: Vec<u8> = vec![68u8, 69u8, 76u8, 69u8, 84u8, 69u8];
        if bytes_eq(s, &get) {
            Some(HTTPMethod::GET)
        } else if bytes_eq(s, &post) {
            Some(HTTPMethod::POST)
        } else if bytes_eq(s, &put) {
            Some(HTTPMethod::PUT)
        } else if bytes_eq(s, &delete) {
            Some(HTTPMethod::DELETE)
        } else {
            None
        }
    }

    pub fn token(&self) -> (r: Vec<u8>)
        ensures
            r@ == spec_method_token(*self),
    {
        match *self {
            HTTPMethod::GET => vec![71u8, 69u8, 84u8],
            HTTPMethod::POST => vec![80u8, 79u8, 83u8, 84u8],
            HTTPMethod::PUT => vec![80u8, 85u8, 84u8],
            HTTPMethod::DELETE => vec![68u8, 69u8, 76u8, 69u8, 84u8, 69u8],
        }
    }
}

} // verus!
