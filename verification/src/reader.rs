//! Parsing the header block of a request: the raw bytes read off the
//! wire up to the blank line, split on CRLF, become the request line's
//! three tokens and the header map; `Content-Length` then tells the
//! caller how many body bytes to read.

use vstd::prelude::*;

use crate::bytes::{
    colon_split, copy_bytes, spec_colon_split, spec_split_crlf, spec_split_ws, spec_trim,
    split_crlf, split_ws, trim_bytes, views,
};
use crate::headers::{spec_insert, spec_lookup, HeaderSeq, Headers};
use crate::num::spec_parse_usize;
use crate::tokens::{spec_tok_content_length, tok_content_length};

verus! {

/// The first three whitespace-delimited tokens of the request line:
/// method, path, version; missing tokens are empty.
pub open spec fn spec_request_line_parts(line: Seq<u8>) -> (Seq<u8>, Seq<u8>, Seq<u8>) {
    let toks = spec_split_ws(line);
    (
        if toks.len() > 0 {
            toks[0]
        } else {
            Seq::<u8>::empty()
        },
        if toks.len() > 1 {
            toks[1]
        } else {
            Seq::<u8>::empty()
        },
        if toks.len() > 2 {
            toks[2]
        } else {
            Seq::<u8>::empty()
        },
    )
}

pub fn parse_request_line(line: &Vec<u8>) -> (r: (Vec<u8>, Vec<u8>, Vec<u8>))
    ensures
        r.0@ == spec_request_line_parts(line@).0,
        r.1@ == spec_request_line_parts(line@).1,
        r.2@ == spec_request_line_parts(line@).2,
{
    let toks = split_ws(line);
    let method = if toks.len() > 0 {
        copy_bytes(&toks[0])
    } else {
        Vec::new()
    };
    let path = if toks.len() > 1 {
        copy_bytes(&toks[1])
    } else {
        Vec::new()
    };
    let version = if toks.len() > 2 {
        copy_bytes(&toks[2])
    } else {
        Vec::new()
    };
    (method, path, version)
}

/// A header line names an entry when it has a colon and both sides,
/// trimmed, are nonempty.
pub open spec fn spec_parse_header_line(line: Seq<u8>) -> Option<(Seq<u8>, Seq<u8>)> {
    let split = spec_colon_split(line);
    match split.1 {
        None => None,
        Some(rest) => {
            let name = spec_trim(split.0);
            let value = spec_trim(rest);
            if name.len() == 0 || value.len() == 0 {
                None
            } else {
                Some((name, value))
            }
        },
    }
}

/// Fold the header lines into a map, in order, dropping blank-sided
/// lines; a repeated name keeps the later value.
pub open spec fn spec_parse_headers(lines: Seq<Seq<u8>>) -> HeaderSeq
    decreases lines.len(),
{
    if lines.len() == 0 {
        Seq::empty()
    } else {
        let m = spec_parse_headers(lines.drop_last());
        match spec_parse_header_line(lines.last()) {
            Some(e) => spec_insert(m, e.0, e.1),
            None => m,
        }
    }
}

pub fn parse_headers(lines: &Vec<Vec<u8>>) -> (r: Headers)
    ensures
        r@ == spec_parse_headers(views(lines@)),
        r.wf(),
{
    let mut h = Headers::new();
    proof {
        assert(views(lines@).take(0) =~= Seq::<Seq<u8>>::empty());
    }
    let mut i: usize = 0;
    while i < lines.len()
        invariant
            i <= lines@.len(),
            h.wf(),
            h@ == spec_parse_headers(views(lines@).take(i as int)),
        decreases lines@.len() - i,
    {
        let split = colon_split(&lines[i]);
        match split.1 {
            Some(rest) => {
                let name = trim_bytes(&split.0);
                let value = trim_bytes(&rest);
                if name.len() > 0 && value.len() > 0 {
                    h.insert(name, value);
                }
            },
            None => {},
        }
        proof {
            assert(views(lines@).take(i + 1 as int).drop_last() =~= views(lines@).take(i as int));
            assert(views(lines@).take(i + 1 as int).last() == lines@[i as int]@);
        }
        i += 1;
    }
    proof {
        assert(views(lines@).take(lines@.len() as int) =~= views(lines@));
    }
    h
}

/// What the raw header block parses to: the request line's three
/// tokens and the header map from the remaining lines.
pub open spec fn spec_parsed_head(raw: Seq<u8>) -> (Seq<u8>, Seq<u8>, Seq<u8>, HeaderSeq) {
    let lines = spec_split_crlf(raw);
    let rl = spec_request_line_parts(lines[0]);
    (rl.0, rl.1, rl.2, spec_parse_headers(lines.skip(1)))
}

/// Split the raw header block into the request line's tokens and the
/// header map.
pub fn parse_from_str(raw: &Vec<u8>) -> (r: (Vec<u8>, Vec<u8>, Vec<u8>, Headers))
    ensures
        r.0@ == spec_parsed_head(raw@).0,
        r.1@ == spec_parsed_head(raw@).1,
        r.2@ == spec_parsed_head(raw@).2,
        r.3@ == spec_parsed_head(raw@).3,
        r.3.wf(),
{
    let lines = split_crlf(raw);
    let rl = parse_request_line(&lines[0]);
    let mut tail: Vec<Vec<u8>> = Vec::new();
    let mut i: usize = 1;
    while i < lines.len()
        invariant
            1 <= i <= lines@.len(),
            tail@.len() == i - 1,
            forall|k: int| 0 <= k < i - 1 ==> #[trigger] tail@[k]@ == lines@[k + 1]@,
        decreases lines@.len() - i,
    {
        let line = copy_bytes(&lines[i]);
        tail.push(line);
        i += 1;
    }
    proof {
        assert forall|k: int| 0 <= k < tail@.len() implies views(tail@)[k] == views(lines@).skip(
            1,
        )[k] by {
            assert(views(tail@)[k] == tail@[k]@);
            assert(views(lines@).skip(1)[k] == lines@[k + 1]@);
        }
        assert(views(tail@) =~= views(lines@).skip(1));
    }
    let headers = parse_headers(&tail);
    (rl.0, rl.1, rl.2, headers)
}

/// How many body bytes the header block demands: a `Content-Length`
/// that parses as a positive integer, else none.
pub open spec fn spec_body_length(h: HeaderSeq) -> Option<int> {
    match spec_lookup(h, spec_tok_content_length()) {
        Some(v) => match spec_parse_usize(v) {
            Some(n) => if n > 0 {
                Some(n)
            } else {
                None
            },
            None => None,
        },
        None => None,
    }
}

pub fn required_body_length(headers: &Headers) -> (r: Option<usize>)
    requires
        headers.wf(),
    ensures
        match r {
            Some(n) => spec_body_length(headers@) == Some(n as int) && n > 0,
            None => spec_body_length(headers@) is None,
        },
{
    match headers.get(&tok_content_length()) {
        Some(v) => match crate::num::parse_usize(&v) {
            Some(n) => if n > 0 {
                Some(n)
            } else {
                None
            },
            None => None,
        },
        None => None,
    }
}

} // verus!
