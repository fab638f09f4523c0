//! Verified decimal integer parsing, matching what the standard library's
//! `parse::<u32>()` and `parse::<i32>()` accept: an optional sign, then one or
//! more decimal digits, with the value in range.

use vstd::prelude::*;
use crate::chars::digit;
use crate::chars::digit_val;
use crate::chars::is_digit;

verus! {

/// Every character of the sequence is a decimal digit.
pub open spec fn all_digits(s: Seq<char>) -> bool {
    forall|i: int| 0 <= i < s.len() ==> is_digit(#[trigger] s[i])
}

/// Value of a decimal digit string, most significant digit first.
pub open spec fn digits_val(s: Seq<char>) -> nat
    decreases s.len(),
{
    if s.len() == 0 {
        0
    } else {
        digits_val(s.drop_last()) * 10 + digit_val(s.last())
    }
}

/// The digit part of an unsigned numeral: what follows an optional leading `+`.
pub open spec fn u32_digits_part(s: Seq<char>) -> Seq<char> {
    if s.len() >= 1 && s[0] == '+' {
        s.skip(1)
    } else {
        s
    }
}

/// The texts that `parse::<u32>()` accepts: an optional `+`, then one or more
/// decimal digits, with the value at most `u32::MAX`.
pub open spec fn u32_parses(s: Seq<char>) -> bool {
    let d = u32_digits_part(s);
    d.len() >= 1 && all_digits(d) && digits_val(d) <= u32::MAX
}

/// The numeric value of an unsigned numeral.
pub open spec fn u32_parse_val(s: Seq<char>) -> nat {
    digits_val(u32_digits_part(s))
}

/// The digit part of a signed numeral: what follows an optional leading sign.
pub open spec fn i32_digits_part(s: Seq<char>) -> Seq<char> {
    if s.len() >= 1 && (s[0] == '+' || s[0] == '-') {
        s.skip(1)
    } else {
        s
    }
}

/// The numeral carries a minus sign.
pub open spec fn i32_negative(s: Seq<char>) -> bool {
    s.len() >= 1 && s[0] == '-'
}

/// The texts that `parse::<i32>()` accepts.
pub open spec fn i32_parses(s: Seq<char>) -> bool {
    let d = i32_digits_part(s);
    d.len() >= 1 && all_digits(d) && (if i32_negative(s) {
        digits_val(d) <= 0x8000_0000
    } else {
        digits_val(d) <= 0x7FFF_FFFF
    })
}

/// The numeric value of a signed numeral.
pub open spec fn i32_parse_val(s: Seq<char>) -> int {
    if i32_negative(s) {
        -(digits_val(i32_digits_part(s)) as int)
    } else {
        digits_val(i32_digits_part(s)) as int
    }
}

/// The value of a digit string never falls when more digits follow.
pub proof fn lemma_digits_val_take_le(s: Seq<char>, k: int)
    requires
        0 <= k <= s.len(),
    ensures
        digits_val(s.take(k)) <= digits_val(s),
    decreases s.len() - k,
{
    if k == s.len() {
        assert(s.take(k) =~= s);
    } else {
        lemma_digits_val_take_le(s, k + 1);
        assert(s.take(k + 1).drop_last() =~= s.take(k));
    }
}

/// Parses an unsigned decimal numeral exactly as `parse::<u32>()` does:
/// `Some` for an optional `+` followed by digits whose value fits, `None`
/// otherwise.
pub fn parse_u32(s: &str) -> (r: Option<u32>)
    ensures
        r is Some <==> u32_parses(s@),
        r matches Some(v) ==> v as nat == u32_parse_val(s@),
{
    let n = s.unicode_len();
    let start: usize = if n >= 1 && s.get_char(0) == '+' {
        1
    } else {
        0
    };
    let ghost d = u32_digits_part(s@);
    proof {
        assert(d =~= s@.skip(start as int));
    }
    if start == n {
        return None;
    }
    let mut val: u64 = 0;
    let mut i: usize = start;
    while i < n
        invariant
            start <= i <= n,
            start < n,
            n == s@.len(),
            d == u32_digits_part(s@),
            d =~= s@.skip(start as int),
            all_digits(s@.subrange(start as int, i as int)),
            val == digits_val(s@.subrange(start as int, i as int)),
            val <= u32::MAX,
        decreases n - i,
    {
        let c = s.get_char(i);
        if !digit(c) {
            proof {
                assert(d[i - start] == s@[i as int]);
            }
            return None;
        }
        let dv: u64 = (c as u32 - '0' as u32) as u64;
        val = val * 10 + dv;
        proof {
            let pre = s@.subrange(start as int, i as int);
            let ext = s@.subrange(start as int, (i + 1) as int);
            assert(ext.drop_last() =~= pre);
            assert(ext.last() == s@[i as int]);
        }
        if val > 0xFFFF_FFFFu64 {
            proof {
                assert(s@.subrange(start as int, (i + 1) as int) =~= d.take(
                    (i + 1 - start) as int,
                ));
                lemma_digits_val_take_le(d, (i + 1 - start) as int);
            }
            return None;
        }
        i += 1;
    }
    proof {
        assert(s@.subrange(start as int, n as int) =~= d);
    }
    Some(val as u32)
}

/// Parses a signed decimal numeral exactly as `parse::<i32>()` does:
/// `Some` for an optional sign followed by digits whose value fits, `None`
/// otherwise.
pub fn parse_i32(s: &str) -> (r: Option<i32>)
    ensures
        r is Some <==> i32_parses(s@),
        r matches Some(v) ==> v as int == i32_parse_val(s@),
{
    let n = s.unicode_len();
    let mut neg = false;
    let mut start: usize = 0;
    if n >= 1 {
        let c0 = s.get_char(0);
        if c0 == '+' {
            start = 1;
        } else if c0 == '-' {
            start = 1;
            neg = true;
        }
    }
    let bound: u64 = if neg {
        0x8000_0000
    } else {
        0x7FFF_FFFF
    };
    let ghost d = i32_digits_part(s@);
    proof {
        assert(d =~= s@.skip(start as int));
    }
    if start == n {
        return None;
    }
    let mut val: u64 = 0;
    let mut i: usize = start;
    while i < n
        invariant
            start <= i <= n,
            start < n,
            n == s@.len(),
            neg == i32_negative(s@),
            bound == (if neg {
                0x8000_0000u64
            } else {
                0x7FFF_FFFFu64
            }),
            d == i32_digits_part(s@),
            d =~= s@.skip(start as int),
            all_digits(s@.subrange(start as int, i as int)),
            val == digits_val(s@.subrange(start as int, i as int)),
            val <= bound,
        decreases n - i,
    {
        let c = s.get_char(i);
        if !digit(c) {
            proof {
                assert(d[i - start] == s@[i as int]);
            }
            return None;
        }
        let dv: u64 = (c as u32 - '0' as u32) as u64;
        val = val * 10 + dv;
        proof {
            let pre = s@.subrange(start as int, i as int);
            let ext = s@.subrange(start as int, (i + 1) as int);
            assert(ext.drop_last() =~= pre);
            assert(ext.last() == s@[i as int]);
        }
        if val > bound {
            proof {
                assert(s@.subrange(start as int, (i + 1) as int) =~= d.take(
                    (i + 1 - start) as int,
                ));
                lemma_digits_val_take_le(d, (i + 1 - start) as int);
            }
            return None;
        }
        i += 1;
    }
    proof {
        assert(s@.subrange(start as int, n as int) =~= d);
    }
    if neg {
        if val == 0x8000_0000 {
            Some(i32::MIN)
        } else {
            Some(-(val as i32))
        }
    } else {
        Some(val as i32)
    }
}

} // verus!
