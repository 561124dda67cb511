//! Verified byte-sequence utilities: copying, comparison, whitespace
//! trimming, tokenization, line splitting on CRLF, and decimal
//! conversion. All wire-level parsing is built on these.

use vstd::prelude::*;

verus! {

/// ASCII whitespace, matching the ASCII subset of `char::is_whitespace`:
/// HT, LF, VT, FF, CR and space.
pub open spec fn is_ws(b: u8) -> bool {
    b == 32 || (9 <= b && b <= 13)
}

pub open spec fn has_prefix(s: Seq<u8>, p: Seq<u8>) -> bool {
    p.len() <= s.len() && s.subrange(0, p.len() as int) == p
}

/// Copy `v[a..b]` into a fresh vector.
pub fn sub_vec(v: &Vec<u8>, a: usize, b: usize) -> (r: Vec<u8>)
    requires
        a <= b && b <= v@.len(),
    ensures
        r@ == v@.subrange(a as int, b as int),
{
    let mut r: Vec<u8> = Vec::new();
    let mut i: usize = a;
    while i < b
        invariant
            a <= i <= b && b <= v@.len(),
            r@ == v@.subrange(a as int, i as int),
        decreases b - i,
    {
        proof {
            assert(v@.subrange(a as int, i + 1 as int) =~= v@.subrange(a as int, i as int).push(
                v@[i as int],
            ));
        }
        r.push(v[i]);
        i += 1;
    }
    r
}

pub fn copy_bytes(v: &Vec<u8>) -> (r: Vec<u8>)
    ensures
        r@ == v@,
{
    let r = sub_vec(v, 0, v.len());
    proof {
        assert(v@.subrange(0, v@.len() as int) =~= v@);
    }
    r
}

pub fn append_bytes(dst: &mut Vec<u8>, src: &Vec<u8>)
    ensures
        final(dst)@ == old(dst)@ + src@,
{
    let mut i: usize = 0;
    while i < src.len()
        invariant
            i <= src@.len(),
            dst@ == old(dst)@ + src@.subrange(0, i as int),
        decreases src@.len() - i,
    {
        proof {
            assert(old(dst)@ + src@.subrange(0, i + 1 as int) =~= (old(dst)@ + src@.subrange(
                0,
                i as int,
            )).push(src@[i as int]));
        }
        dst.push(src[i]);
        i += 1;
    }
    proof {
        assert(old(dst)@ + src@.subrange(0, src@.len() as int) =~= old(dst)@ + src@);
    }
}

pub fn bytes_eq(a: &Vec<u8>, b: &Vec<u8>) -> (r: bool)
    ensures
        r == (a@ == b@),
{
    if a.len() != b.len() {
        return false;
    }
    let mut i: usize = 0;
    while i < a.len()
        invariant
            i <= a@.len(),
            a@.len() == b@.len(),
            forall|k: int| 0 <= k < i ==> a@[k] == b@[k],
        decreases a@.len() - i,
    {
        if a[i] != b[i] {
            return false;
        }
        i += 1;
    }
    proof {
        assert(a@ =~= b@);
    }
    true
}

pub fn starts_with_bytes(v: &Vec<u8>, p: &Vec<u8>) -> (r: bool)
    ensures
        r == has_prefix(v@, p@),
{
    if p.len() > v.len() {
        return false;
    }
    let head = sub_vec(v, 0, p.len());
    bytes_eq(&head, p)
}

/// The longest suffix of `s` that does not begin with whitespace.
pub open spec fn spec_trim_front(s: Seq<u8>) -> Seq<u8>
    decreases s.len(),
{
    if s.len() == 0 || !is_ws(s[0]) {
        s
    } else {
        spec_trim_front(s.skip(1))
    }
}

/// The longest prefix of `s` that does not end with whitespace.
pub open spec fn spec_trim_back(s: Seq<u8>) -> Seq<u8>
    decreases s.len(),
{
    if s.len() == 0 || !is_ws(s[s.len() - 1]) {
        s
    } else {
        spec_trim_back(s.drop_last())
    }
}

/// `s` with leading and trailing ASCII whitespace removed.
pub open spec fn spec_trim(s: Seq<u8>) -> Seq<u8> {
    spec_trim_back(spec_trim_front(s))
}

pub fn trim_bytes(v: &Vec<u8>) -> (r: Vec<u8>)
    ensures
        r@ == spec_trim(v@),
{
    let mut a: usize = 0;
    proof {
        assert(v@.skip(0) =~= v@);
    }
    while a < v.len() && is_ws_byte(v[a])
        invariant
            a <= v@.len(),
            spec_trim_front(v@) == spec_trim_front(v@.skip(a as int)),
        decreases v@.len() - a,
    {
        proof {
            assert(v@.skip(a as int).skip(1) =~= v@.skip(a + 1 as int));
        }
        a += 1;
    }
    proof {
        if a < v@.len() {
            assert(spec_trim_front(v@) == v@.skip(a as int));
        } else {
            assert(v@.skip(a as int) =~= Seq::<u8>::empty());
            assert(spec_trim_front(v@) == v@.skip(a as int));
        }
    }
    let mut b: usize = v.len();
    while b > a && is_ws_byte(v[b - 1])
        invariant
            a <= b <= v@.len(),
            spec_trim_front(v@) == v@.skip(a as int),
            spec_trim_back(v@.skip(a as int)) == spec_trim_back(v@.subrange(a as int, b as int)),
        decreases b,
    {
        proof {
            assert(v@.subrange(a as int, b as int).drop_last() =~= v@.subrange(
                a as int,
                b - 1 as int,
            ));
        }
        b -= 1;
    }
    proof {
        if b > a {
            assert(spec_trim_back(v@.subrange(a as int, b as int)) == v@.subrange(
                a as int,
                b as int,
            ));
        } else {
            assert(v@.subrange(a as int, b as int) =~= Seq::<u8>::empty());
        }
    }
    sub_vec(v, a, b)
}

pub fn is_ws_byte(b: u8) -> (r: bool)
    ensures
        r == is_ws(b),
{
    b == 32 || (9 <= b && b <= 13)
}

/// Split on each occurrence of CRLF, scanning left to right; the
/// accumulator `cur` holds the token read so far.
pub open spec fn spec_split_crlf_from(s: Seq<u8>, cur: Seq<u8>) -> Seq<Seq<u8>>
    decreases s.len(),
{
    if s.len() == 0 {
        seq![cur]
    } else if s.len() >= 2 && s[0] == 13 && s[1] == 10 {
        seq![cur] + spec_split_crlf_from(s.skip(2), Seq::empty())
    } else {
        spec_split_crlf_from(s.skip(1), cur.push(s[0]))
    }
}

/// The pieces of `s` between occurrences of the two-byte CRLF
/// delimiter, in order; always at least one piece.
pub open spec fn spec_split_crlf(s: Seq<u8>) -> Seq<Seq<u8>> {
    spec_split_crlf_from(s, Seq::empty())
}

/// The views of a vector of byte vectors.
pub open spec fn views(v: Seq<Vec<u8>>) -> Seq<Seq<u8>> {
    Seq::new(v.len(), |i: int| v[i]@)
}

pub fn split_crlf(v: &Vec<u8>) -> (r: Vec<Vec<u8>>)
    ensures
        views(r@) == spec_split_crlf(v@),
        r@.len() >= 1,
{
    let mut out: Vec<Vec<u8>> = Vec::new();
    let mut cur: Vec<u8> = Vec::new();
    let mut i: usize = 0;
    proof {
        assert(v@.skip(0) =~= v@);
        assert(views(out@) + spec_split_crlf_from(v@, cur@) =~= spec_split_crlf_from(v@, cur@));
    }
    while i < v.len()
        invariant
            i <= v@.len(),
            spec_split_crlf(v@) == views(out@) + spec_split_crlf_from(v@.skip(i as int), cur@),
        decreases v@.len() - i,
    {
        if i + 1 < v.len() && v[i] == 13 && v[i + 1] == 10 {
            proof {
                assert(v@.skip(i as int)[0] == v@[i as int]);
                assert(v@.skip(i as int)[1] == v@[i + 1]);
                assert(v@.skip(i as int).skip(2) =~= v@.skip(i + 2));
                assert(views(out@.push(cur)) =~= views(out@) + seq![cur@]);
                assert(views(out@) + (seq![cur@] + spec_split_crlf_from(
                    v@.skip(i + 2),
                    Seq::empty(),
                )) =~= (views(out@) + seq![cur@]) + spec_split_crlf_from(
                    v@.skip(i + 2),
                    Seq::empty(),
                ));
            }
            out.push(cur);
            cur = Vec::new();
            i += 2;
        } else {
            proof {
                assert(v@.skip(i as int)[0] == v@[i as int]);
                assert(v@.skip(i as int).skip(1) =~= v@.skip(i + 1));
            }
            cur.push(v[i]);
            i += 1;
        }
    }
    proof {
        assert(v@.skip(i as int) =~= Seq::<u8>::empty());
        assert(views(out@.push(cur)) =~= views(out@) + seq![cur@]);
    }
    out.push(cur);
    out
}

/// Split on runs of ASCII whitespace, scanning left to right; empty
/// tokens are never produced.
pub open spec fn spec_split_ws_from(s: Seq<u8>, cur: Seq<u8>) -> Seq<Seq<u8>>
    decreases s.len(),
{
    if s.len() == 0 {
        if cur.len() > 0 {
            seq![cur]
        } else {
            seq![]
        }
    } else if is_ws(s[0]) {
        if cur.len() > 0 {
            seq![cur] + spec_split_ws_from(s.skip(1), Seq::empty())
        } else {
            spec_split_ws_from(s.skip(1), Seq::empty())
        }
    } else {
        spec_split_ws_from(s.skip(1), cur.push(s[0]))
    }
}

/// The maximal whitespace-free tokens of `s`, in order.
pub open spec fn spec_split_ws(s: Seq<u8>) -> Seq<Seq<u8>> {
    spec_split_ws_from(s, Seq::empty())
}

pub fn split_ws(v: &Vec<u8>) -> (r: Vec<Vec<u8>>)
    ensures
        views(r@) == spec_split_ws(v@),
{
    let mut out: Vec<Vec<u8>> = Vec::new();
    let mut cur: Vec<u8> = Vec::new();
    let mut i: usize = 0;
    proof {
        assert(v@.skip(0) =~= v@);
        assert(views(out@) + spec_split_ws_from(v@, cur@) =~= spec_split_ws_from(v@, cur@));
    }
    while i < v.len()
        invariant
            i <= v@.len(),
            spec_split_ws(v@) == views(out@) + spec_split_ws_from(v@.skip(i as int), cur@),
        decreases v@.len() - i,
    {
        proof {
            assert(v@.skip(i as int)[0] == v@[i as int]);
            assert(v@.skip(i as int).skip(1) =~= v@.skip(i + 1));
        }
        if is_ws_byte(v[i]) {
            proof {
                if cur@.len() == 0 {
                    assert(cur@ =~= Seq::<u8>::empty());
                }
            }
            if cur.len() > 0 {
                proof {
                    assert(views(out@.push(cur)) =~= views(out@) + seq![cur@]);
                    assert(views(out@) + (seq![cur@] + spec_split_ws_from(
                        v@.skip(i + 1),
                        Seq::empty(),
                    )) =~= (views(out@) + seq![cur@]) + spec_split_ws_from(
                        v@.skip(i + 1),
                        Seq::empty(),
                    ));
                }
                out.push(cur);
                cur = Vec::new();
            }
            i += 1;
        } else {
            cur.push(v[i]);
            i += 1;
        }
    }
    proof {
        assert(v@.skip(i as int) =~= Seq::<u8>::empty());
    }
    if cur.len() > 0 {
        proof {
            assert(views(out@.push(cur)) =~= views(out@) + seq![cur@]);
        }
        out.push(cur);
    } else {
        proof {
            assert(views(out@) + Seq::<Seq<u8>>::empty() =~= views(out@));
        }
    }
    out
}

/// Split at the first colon: the bytes before it, and the bytes after
/// it, or `None` when there is no colon at all.
pub open spec fn spec_colon_split_from(s: Seq<u8>, cur: Seq<u8>) -> (Seq<u8>, Option<Seq<u8>>)
    decreases s.len(),
{
    if s.len() == 0 {
        (cur, None)
    } else if s[0] == 58 {
        (cur, Some(s.skip(1)))
    } else {
        spec_colon_split_from(s.skip(1), cur.push(s[0]))
    }
}

pub open spec fn spec_colon_split(s: Seq<u8>) -> (Seq<u8>, Option<Seq<u8>>) {
    spec_colon_split_from(s, Seq::empty())
}

pub fn colon_split(v: &Vec<u8>) -> (r: (Vec<u8>, Option<Vec<u8>>))
    ensures
        r.0@ == spec_colon_split(v@).0,
        match r.1 {
            Some(rest) => spec_colon_split(v@).1 == Some(rest@),
            None => spec_colon_split(v@).1 is None,
        },
{
    let mut cur: Vec<u8> = Vec::new();
    let mut i: usize = 0;
    proof {
        assert(v@.skip(0) =~= v@);
    }
    while i < v.len()
        invariant
            i <= v@.len(),
            spec_colon_split(v@) == spec_colon_split_from(v@.skip(i as int), cur@),
        decreases v@.len() - i,
    {
        proof {
            assert(v@.skip(i as int)[0] == v@[i as int]);
            assert(v@.skip(i as int).skip(1) =~= v@.skip(i + 1));
        }
        if v[i] == 58 {
            let rest = sub_vec(v, i + 1, v.len());
            proof {
                assert(v@.subrange(i + 1, v@.len() as int) =~= v@.skip(i as int).skip(1));
            }
            return (cur, Some(rest));
        }
        cur.push(v[i]);
        i += 1;
    }
    proof {
        assert(v@.skip(i as int) =~= Seq::<u8>::empty());
    }
    (cur, None)
}

/// `i` is the last position of `c` in `s`.
pub open spec fn is_last_pos(s: Seq<u8>, c: u8, i: int) -> bool {
    0 <= i < s.len() && s[i] == c && (forall|j: int| i < j < s.len() ==> s[j] != c)
}

/// The last position of `c` in `s`, or -1 when `c` does not occur.
pub open spec fn spec_last_pos(s: Seq<u8>, c: u8) -> int {
    if exists|i: int| is_last_pos(s, c, i) {
        choose|i: int| is_last_pos(s, c, i)
    } else {
        -1
    }
}

pub fn last_pos_byte(v: &Vec<u8>, c: u8) -> (r: Option<usize>)
    ensures
        match r {
            Some(i) => i < v@.len() && spec_last_pos(v@, c) == i,
            None => spec_last_pos(v@, c) == -1,
        },
{
    let mut i: usize = v.len();
    while i > 0
        invariant
            i <= v@.len(),
            forall|j: int| i <= j < v@.len() ==> v@[j] != c,
        decreases i,
    {
        i -= 1;
        if v[i] == c {
            proof {
                assert(is_last_pos(v@, c, i as int));
                let w = choose|k: int| is_last_pos(v@, c, k);
                assert(is_last_pos(v@, c, w));
                if w < i as int {
                    assert(v@[i as int] != c);
                } else if w > i as int {
                    assert(v@[w] != c);
                }
            }
            return Some(i);
        }
    }
    proof {
        if exists|k: int| is_last_pos(v@, c, k) {
            let w = choose|k: int| is_last_pos(v@, c, k);
            assert(v@[w] != c);
        }
    }
    None
}

pub open spec fn all_ascii(s: Seq<u8>) -> bool {
    forall|i: int| 0 <= i < s.len() ==> #[trigger] s[i] < 128
}

/// The bytes of `String::from_utf8_lossy` on `b`: `b` itself when it is
/// valid UTF-8, else `b` with each ill-formed sequence replaced by the
/// replacement character.
pub uninterp spec fn lossy_utf8(b: Seq<u8>) -> Seq<u8>;

/// Relies on `String::from_utf8_lossy`: its result is a function of the
/// bytes alone; valid UTF-8 (so in particular pure ASCII) passes
/// through unchanged; and the result is itself valid UTF-8, hence a
/// fixed point of the same decoding.
#[verifier::external_body]
pub(crate) fn lossy_reencode(b: &Vec<u8>) -> (r: Vec<u8>)
    ensures
        r@ == lossy_utf8(b@),
        all_ascii(b@) ==> r@ == b@,
        lossy_utf8(r@) == r@,
{
    String::from_utf8_lossy(b.as_slice()).into_owned().into_bytes()
}

/// Map uppercase ASCII letters to lowercase; leave all else alone.
pub open spec fn lower_byte(b: u8) -> u8 {
    if 65 <= b && b <= 90 {
        (b + 32) as u8
    } else {
        b
    }
}

pub open spec fn spec_lower(s: Seq<u8>) -> Seq<u8> {
    Seq::new(s.len(), |i: int| lower_byte(s[i]))
}

pub fn lower_bytes(v: &Vec<u8>) -> (r: Vec<u8>)
    ensures
        r@ == spec_lower(v@),
{
    let mut r: Vec<u8> = Vec::new();
    let mut i: usize = 0;
    while i < v.len()
        invariant
            i <= v@.len(),
            r@ == spec_lower(v@).subrange(0, i as int),
        decreases v@.len() - i,
    {
        proof {
            assert(spec_lower(v@).subrange(0, i + 1 as int) =~= spec_lower(v@).subrange(
                0,
                i as int,
            ).push(lower_byte(v@[i as int])));
        }
        let b: u8 = v[i];
        if 65 <= b && b <= 90 {
            r.push(b + 32);
        } else {
            r.push(b);
        }
        i += 1;
    }
    proof {
        assert(spec_lower(v@).subrange(0, v@.len() as int) =~= spec_lower(v@));
    }
    r
}

} // verus!
