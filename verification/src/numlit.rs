//! Reading decimal integer literals from the bytes of their source text,
//! with the same grammar that Rust's `str::parse` uses for integers: an
//! optional sign followed by one or more ASCII digits, and the value must
//! fit the target type.

use vstd::prelude::*;

verus! {

/// Every byte of `s` is an ASCII decimal digit.
pub open spec fn all_digits(s: Seq<u8>) -> bool {
    forall|i: int| 0 <= i < s.len() ==> 0x30 <= #[trigger] s[i] <= 0x39
}

/// The value of a sequence of ASCII digits, most significant first.
pub open spec fn digits_value(s: Seq<u8>) -> int
    decreases s.len(),
{
    if s.len() == 0 {
        0
    } else {
        digits_value(s.drop_last()) * 10 + (s.last() - 0x30)
    }
}

/// `s` is the text of an unsigned decimal literal: an optional `+` followed
/// by at least one digit.
pub open spec fn is_uint_literal(s: Seq<u8>) -> bool {
    if s.len() == 0 {
        false
    } else if s[0] == 0x2b {
        s.len() > 1 && all_digits(s.skip(1))
    } else {
        all_digits(s)
    }
}

/// The value of an unsigned decimal literal.
pub open spec fn uint_literal_value(s: Seq<u8>) -> int
    recommends
        is_uint_literal(s),
{
    if s.len() > 0 && s[0] == 0x2b {
        digits_value(s.skip(1))
    } else {
        digits_value(s)
    }
}

/// `s` is the text of a signed decimal literal: an optional `+` or `-`
/// followed by at least one digit.
pub open spec fn is_int_literal(s: Seq<u8>) -> bool {
    if s.len() == 0 {
        false
    } else if s[0] == 0x2b || s[0] == 0x2d {
        s.len() > 1 && all_digits(s.skip(1))
    } else {
        all_digits(s)
    }
}

/// The value of a signed decimal literal.
pub open spec fn int_literal_value(s: Seq<u8>) -> int
    recommends
        is_int_literal(s),
{
    if s.len() > 0 && s[0] == 0x2d {
        -digits_value(s.skip(1))
    } else if s.len() > 0 && s[0] == 0x2b {
        digits_value(s.skip(1))
    } else {
        digits_value(s)
    }
}

/// The value of a digit sequence is non-negative.
pub proof fn lemma_digits_value_nonneg(s: Seq<u8>)
    requires
        all_digits(s),
    ensures
        digits_value(s) >= 0,
    decreases s.len(),
{
    if s.len() > 0 {
        assert(all_digits(s.drop_last())) by {
            assert(forall|i: int|
                0 <= i < s.len() - 1 ==> s.drop_last()[i] == #[trigger] s[i]);
        }
        lemma_digits_value_nonneg(s.drop_last());
    }
}

/// Reading further digits never makes the value smaller.
pub proof fn lemma_digits_prefix_bound(s: Seq<u8>, i: int)
    requires
        all_digits(s),
        0 <= i <= s.len(),
    ensures
        digits_value(s) >= digits_value(s.take(i)),
    decreases s.len() - i,
{
    if i < s.len() {
        assert(s.take(i + 1).drop_last() =~= s.take(i));
        assert(s.take(i + 1).last() == s[i]);
        assert(all_digits(s.take(i))) by {
            assert(forall|j: int| 0 <= j < i ==> s.take(i)[j] == #[trigger] s[j]);
        }
        lemma_digits_value_nonneg(s.take(i));
        assert(digits_value(s.take(i + 1)) >= digits_value(s.take(i)));
        lemma_digits_prefix_bound(s, i + 1);
    } else {
        assert(s.take(i) =~= s);
    }
}

/// Accumulate the digits of `bytes` from position `start` on into a `u64`,
/// refusing any non-digit and any value above `bound`.
fn accumulate_digits(bytes: &Vec<u8>, start: usize, bound: u64) -> (r: Option<u64>)
    requires
        start <= bytes@.len(),
    ensures
        match r {
            Option::Some(acc) => {
                &&& all_digits(bytes@.skip(start as int))
                &&& acc == digits_value(bytes@.skip(start as int))
                &&& acc <= bound
            },
            Option::None => !(all_digits(bytes@.skip(start as int))
                && digits_value(bytes@.skip(start as int)) <= bound),
        },
{
    let ghost digs = bytes@.skip(start as int);
    let len = bytes.len();
    let mut acc: u64 = 0;
    let mut i: usize = start;
    while i < len
        invariant
            start <= i <= len,
            len == bytes@.len(),
            digs == bytes@.skip(start as int),
            all_digits(digs.take(i - start)),
            acc == digits_value(digs.take(i - start)),
            acc <= bound,
        decreases len - i,
    {
        let c = bytes[i];
        if c < 0x30 || c > 0x39 {
            proof {
                assert(digs[i - start] == c);
            }
            return Option::None;
        }
        let d = (c - 0x30) as u64;
        let overflow = if acc > bound / 10 {
            true
        } else if acc == bound / 10 {
            d > bound % 10
        } else {
            false
        };
        proof {
            assert(digs.take(i - start + 1).drop_last() =~= digs.take(i - start));
            assert(digs.take(i - start + 1).last() == digs[i - start]);
        }
        if overflow {
            proof {
                assert(10 * acc + d > bound);
                assert(digits_value(digs.take(i - start + 1)) > bound);
                if all_digits(digs) {
                    lemma_digits_prefix_bound(digs, i - start + 1);
                }
            }
            return Option::None;
        }
        proof {
            assert(10 * acc + d <= bound);
        }
        acc = acc * 10 + d;
        i = i + 1;
    }
    proof {
        assert(digs.take(i - start) =~= digs);
    }
    Option::Some(acc)
}

/// Read `bytes` as an `i64`, as `str::parse::<i64>` would: `Some(n)` exactly
/// when the text is a signed decimal literal whose value `n` fits in `i64`.
pub fn parse_i64(bytes: &Vec<u8>) -> (r: Option<i64>)
    ensures
        match r {
            Option::Some(n) => {
                &&& is_int_literal(bytes@)
                &&& i64::MIN <= int_literal_value(bytes@) <= i64::MAX
                &&& n == int_literal_value(bytes@)
            },
            Option::None => !(is_int_literal(bytes@)
                && i64::MIN <= int_literal_value(bytes@) <= i64::MAX),
        },
{
    let len = bytes.len();
    if len == 0 {
        return Option::None;
    }
    let first = bytes[0];
    let neg = first == 0x2d;
    let has_sign = neg || first == 0x2b;
    let start: usize = if has_sign {
        1
    } else {
        0
    };
    if start >= len {
        return Option::None;
    }
    let bound: u64 = if neg {
        0x8000_0000_0000_0000
    } else {
        0x7fff_ffff_ffff_ffff
    };
    match accumulate_digits(bytes, start, bound) {
        Option::None => {
            proof {
                if !has_sign {
                    assert(bytes@.skip(0) =~= bytes@);
                }
            }
            Option::None
        },
        Option::Some(acc) => {
            proof {
                if !has_sign {
                    assert(bytes@.skip(0) =~= bytes@);
                }
                lemma_digits_value_nonneg(bytes@.skip(start as int));
            }
            if neg {
                if acc == 0x8000_0000_0000_0000 {
                    Option::Some(i64::MIN)
                } else {
                    Option::Some(-(acc as i64))
                }
            } else {
                Option::Some(acc as i64)
            }
        },
    }
}

/// Read `bytes` as a `u64`, as `str::parse::<u64>` would: `Some(n)` exactly
/// when the text is an unsigned decimal literal whose value `n` fits in `u64`.
pub fn parse_u64(bytes: &Vec<u8>) -> (r: Option<u64>)
    ensures
        match r {
            Option::Some(n) => {
                &&& is_uint_literal(bytes@)
                &&& uint_literal_value(bytes@) <= u64::MAX
                &&& n == uint_literal_value(bytes@)
            },
            Option::None => !(is_uint_literal(bytes@) && uint_literal_value(bytes@) <= u64::MAX),
        },
{
    let len = bytes.len();
    if len == 0 {
        return Option::None;
    }
    let first = bytes[0];
    let has_sign = first == 0x2b;
    let start: usize = if has_sign {
        1
    } else {
        0
    };
    if start >= len {
        return Option::None;
    }
    let r = accumulate_digits(bytes, start, u64::MAX);
    proof {
        if !has_sign {
            assert(bytes@.skip(0) =~= bytes@);
        }
        if first == 0x2d && r is Some {
            assert(bytes@.skip(start as int)[0] == 0x2d);
        }
    }
    r
}

/// Read `bytes` as a `usize`: `Some(n)` exactly when the text is an unsigned
/// decimal literal whose value `n` fits in `usize`.
pub fn parse_usize(bytes: &Vec<u8>) -> (r: Option<usize>)
    ensures
        match r {
            Option::Some(n) => {
                &&& is_uint_literal(bytes@)
                &&& uint_literal_value(bytes@) <= usize::MAX
                &&& n == uint_literal_value(bytes@)
            },
            Option::None => !(is_uint_literal(bytes@) && uint_literal_value(bytes@) <= usize::MAX),
        },
{
    match parse_u64(bytes) {
        Option::None => Option::None,
        Option::Some(n) => {
            if n <= usize::MAX as u64 {
                Option::Some(n as usize)
            } else {
                Option::None
            }
        },
    }
}

} // verus!
