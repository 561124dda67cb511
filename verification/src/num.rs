//! Verified decimal conversion: reading a base-ten number from bytes
//! (as `str::parse::<usize>` does, with an optional leading plus sign
//! and overflow rejection) and rendering one back to bytes.

use vstd::prelude::*;

verus! {

pub open spec fn is_digit(b: u8) -> bool {
    48 <= b && b <= 57
}

pub open spec fn all_digits(s: Seq<u8>) -> bool {
    forall|i: int| 0 <= i < s.len() ==> is_digit(#[trigger] s[i])
}

/// The value of a digit string, most significant digit first.
pub open spec fn dec_val(s: Seq<u8>) -> int
    decreases s.len(),
{
    if s.len() == 0 {
        0
    } else {
        dec_val(s.drop_last()) * 10 + (s.last() - 48)
    }
}

/// What `str::parse::<usize>` yields on these bytes: an optional `+`,
/// then one or more digits whose value fits, else nothing.
pub open spec fn spec_parse_usize(s: Seq<u8>) -> Option<int> {
    let d = if s.len() >= 1 && s[0] == 43 {
        s.skip(1)
    } else {
        s
    };
    if d.len() == 0 || !all_digits(d) || dec_val(d) > usize::MAX as int {
        None
    } else {
        Some(dec_val(d))
    }
}

pub proof fn lemma_dec_val_nonneg(s: Seq<u8>)
    requires
        all_digits(s),
    ensures
        dec_val(s) >= 0,
    decreases s.len(),
{
    if s.len() > 0 {
        assert(all_digits(s.drop_last())) by {
            assert(forall|i: int|
                0 <= i < s.drop_last().len() ==> s.drop_last()[i] == #[trigger] s[i]);
        }
        lemma_dec_val_nonneg(s.drop_last());
    }
}

pub proof fn lemma_dec_val_mono(s: Seq<u8>, j: int)
    requires
        all_digits(s),
        0 <= j <= s.len(),
    ensures
        dec_val(s) >= dec_val(s.take(j)),
    decreases s.len(),
{
    if j == s.len() {
        assert(s.take(j) =~= s);
    } else {
        assert(all_digits(s.drop_last())) by {
            assert(forall|i: int|
                0 <= i < s.drop_last().len() ==> s.drop_last()[i] == #[trigger] s[i]);
        }
        lemma_dec_val_mono(s.drop_last(), j);
        assert(s.drop_last().take(j) =~= s.take(j));
        lemma_dec_val_nonneg(s.drop_last());
    }
}

pub fn parse_usize(v: &Vec<u8>) -> (r: Option<usize>)
    ensures
        match r {
            Some(n) => spec_parse_usize(v@) == Some(n as int),
            None => spec_parse_usize(v@) is None,
        },
{
    let st: usize = if v.len() >= 1 && v[0] == 43 {
        1
    } else {
        0
    };
    proof {
        if st == 1 {
            assert(v@.skip(1) =~= v@.subrange(1, v@.len() as int));
        } else {
            assert(v@ =~= v@.subrange(0, v@.len() as int));
        }
    }
    let ghost d: Seq<u8> = v@.subrange(st as int, v@.len() as int);
    if v.len() == st {
        return None;
    }
    let mut n: usize = 0;
    let mut i: usize = st;
    proof {
        assert(v@.subrange(st as int, st as int) =~= Seq::<u8>::empty());
    }
    while i < v.len()
        invariant
            st <= i <= v@.len(),
            st < v@.len(),
            d == v@.subrange(st as int, v@.len() as int),
            d == (if v@.len() >= 1 && v@[0] == 43 {
                v@.skip(1)
            } else {
                v@
            }),
            forall|k: int| st <= k < i ==> is_digit(#[trigger] v@[k]),
            n as int == dec_val(v@.subrange(st as int, i as int)),
        decreases v@.len() - i,
    {
        let b: u8 = v[i];
        if !(48 <= b && b <= 57) {
            proof {
                assert(d[i - st] == v@[i as int]);
                assert(!all_digits(d));
            }
            return None;
        }
        let dd: usize = (b - 48) as usize;
        proof {
            assert(v@.subrange(st as int, i + 1 as int).drop_last() =~= v@.subrange(
                st as int,
                i as int,
            ));
            assert(v@.subrange(st as int, i + 1 as int).last() == v@[i as int]);
            assert(dec_val(v@.subrange(st as int, i + 1 as int)) == n as int * 10 + dd);
        }
        if n > (usize::MAX - dd) / 10 {
            proof {
                assert(n as int * 10 + dd > usize::MAX as int) by (nonlinear_arith)
                    requires
                        n as int > (usize::MAX as int - dd) / 10,
                        0 <= dd <= 9,
                ;
                if all_digits(d) {
                    lemma_dec_val_mono(d, i + 1 - st);
                    assert(d.take(i + 1 - st) =~= v@.subrange(st as int, i + 1 as int));
                    assert(dec_val(d) > usize::MAX as int);
                }
            }
            return None;
        }
        proof {
            assert(n as int * 10 + dd <= usize::MAX as int) by (nonlinear_arith)
                requires
                    n as int <= (usize::MAX as int - dd) / 10,
                    0 <= dd <= 9,
            ;
        }
        n = n * 10 + dd;
        i += 1;
    }
    proof {
        assert(d =~= v@.subrange(st as int, v@.len() as int));
        assert(all_digits(d)) by {
            assert(forall|k: int| 0 <= k < d.len() ==> d[k] == #[trigger] v@[k + st]);
        }
    }
    Some(n)
}

/// The decimal digits of `n`, most significant first, no sign and no
/// leading zeros.
pub open spec fn spec_dec_rep(n: nat) -> Seq<u8>
    decreases n,
{
    if n < 10 {
        seq![(48 + n) as u8]
    } else {
        spec_dec_rep(n / 10).push((48 + n % 10) as u8)
    }
}

pub fn u64_digits(n: u64) -> (r: Vec<u8>)
    ensures
        r@ == spec_dec_rep(n as nat),
    decreases n,
{
    if n < 10 {
        let r: Vec<u8> = vec![48 + n as u8];
        r
    } else {
        let mut r = u64_digits(n / 10);
        r.push(48 + (n % 10) as u8);
        r
    }
}

pub fn usize_digits(n: usize) -> (r: Vec<u8>)
    ensures
        r@ == spec_dec_rep(n as nat),
{
    u64_digits(n as u64)
}

} // verus!
