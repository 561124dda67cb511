//! HTTP status codes: a closed set, each with a fixed numeric code and
//! reason phrase.

use vstd::prelude::*;

verus! {

#[derive(Clone, Copy, PartialEq, Eq, Structural, Debug)]
pub enum HTTPStatus {
    OK,
    BadRequest,
    Unauthorized,
    NotFound,
    Created,
    InternalServerError,
}

pub open spec fn spec_status_code(s: HTTPStatus) -> u16 {
    match s {
        HTTPStatus::OK => 200,
        HTTPStatus::BadRequest => 400,
        HTTPStatus::Unauthorized => 401,
        HTTPStatus::NotFound => 404,
        HTTPStatus::Created => 201,
        HTTPStatus::InternalServerError => 500,
    }
}

/// The reason phrase for each status, as wire bytes (ASCII).
pub open spec fn spec_status_message(s: HTTPStatus) -> Seq<u8> {
    match s {
        HTTPStatus::OK => seq![79u8, 75u8],
        HTTPStatus::BadRequest => seq![66u8, 97u8, 100u8, 32u8, 82u8, 101u8, 113u8, 117u8, 101u8, 115u8, 116u8],
        HTTPStatus::Unauthorized => seq![85u8, 110u8, 97u8, 117u8, 116u8, 104u8, 111u8, 114u8, 105u8, 122u8, 101u8, 100u8],
        HTTPStatus::NotFound => seq![78u8, 111u8, 116u8, 32u8, 70u8, 111u8, 117u8, 110u8, 100u8],
        HTTPStatus::Created => seq![67u8, 114u8, 101u8, 97u8, 116u8, 101u8, 100u8],
        HTTPStatus::InternalServerError => seq![
            73u8, 110u8, 116u8, 101u8, 114u8, 110u8, 97u8, 108u8, 32u8, 83u8, 101u8, 114u8,
            118u8, 101u8, 114u8, 32u8, 69u8, 114u8, 114u8, 111u8, 114u8,
        ],
    }
}

impl HTTPStatus {
    pub fn code(&self) -> (r: u16)
        ensures
            r == spec_status_code(*self),
    {
        match *self {
            HTTPStatus::OK => 200,
            HTTPStatus::BadRequest => 400,
            HTTPStatus::Unauthorized => 401,
            HTTPStatus::NotFound => 404,
            HTTPStatus::Created => 201,
            HTTPStatus::InternalServerError => 500,
        }
    }

    /// The reason phrase, e.g. `OK` or `Not Found`.
    pub fn message(&self) -> (r: Vec<u8>)
        ensures
            r@ == spec_status_message(*self),
    {
        match *self {
            HTTPStatus::OK => vec![79u8, 75u8],
            HTTPStatus::BadRequest => vec![66u8, 97u8, 100u8, 32u8, 82u8, 101u8, 113u8, 117u8, 101u8, 115u8, 116u8],
            HTTPStatus::Unauthorized => vec![85u8, 110u8, 97u8, 117u8, 116u8, 104u8, 111u8, 114u8, 105u8, 122u8, 101u8, 100u8],
            HTTPStatus::NotFound => vec![78u8, 111u8, 116u8, 32u8, 70u8, 111u8, 117u8, 110u8, 100u8],
            HTTPStatus::Created => vec![67u8, 114u8, 101u8, 97u8, 116u8, 101u8, 100u8],
            HTTPStatus::InternalServerError => vec![
                73u8, 110u8, 116u8, 101u8, 114u8, 110u8, 97u8, 108u8, 32u8, 83u8, 101u8, 114u8,
                118u8, 101u8, 114u8, 32u8, 69u8, 114u8, 114u8, 111u8, 114u8,
            ],
        }
    }
}

} // verus!
