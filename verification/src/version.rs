//! Version-string validation: a version is accepted when it has at least
//! three dot-separated segments and each of the first three parses as a
//! non-negative integer. Segments beyond the third are ignored.

use vstd::prelude::*;
use crate::chars::is_digit;
use crate::parse::all_digits;
use crate::parse::parse_u32;
use crate::parse::u32_parses;
use crate::text::split_at;
use crate::text::split_on;

verus! {

/// The version texts that validation accepts: split at `.`, at least three
/// segments, the first three each an unsigned decimal numeral in range.
pub open spec fn version_valid(s: Seq<char>) -> bool {
    let parts = split_at(s, '.');
    parts.len() >= 3 && u32_parses(parts[0]) && u32_parses(parts[1]) && u32_parses(parts[2])
}

/// Validates a version string: `true` exactly when the text has at least
/// three dot-separated segments whose first three are unsigned decimal
/// numerals. The caller treats `false` as fatal.
pub fn verify_version(version: &str) -> (r: bool)
    ensures
        r == version_valid(version@),
{
    let parts = split_on(version, '.');
    if parts.len() < 3 {
        return false;
    }
    parse_u32(parts[0].as_str()).is_some() && parse_u32(parts[1].as_str()).is_some() && parse_u32(
        parts[2].as_str(),
    ).is_some()
}

/// An unsigned numeral contains no dot.
proof fn lemma_numeral_has_no_dot(s: Seq<char>)
    requires
        u32_parses(s),
    ensures
        forall|i: int| 0 <= i < s.len() ==> s[i] != '.',
{
    if s.len() >= 1 && s[0] == '+' {
        let d = s.skip(1);
        assert(all_digits(d));
        assert forall|i: int| 0 <= i < s.len() implies s[i] != '.' by {
            if i >= 1 {
                assert(d[i - 1] == s[i]);
                assert(is_digit(s[i]));
            }
        }
    } else {
        assert(all_digits(s));
        assert(forall|i: int| 0 <= i < s.len() ==> is_digit(#[trigger] s[i]));
    }
}

/// Law: every text of the form `<uint>.<uint>.<uint>`, with or without
/// further dot-separated material, passes version validation; the three
/// numerals come out as the first three segments.
pub proof fn lemma_version_form_accepted(a: Seq<char>, b: Seq<char>, c: Seq<char>, tail: Seq<char>)
    requires
        u32_parses(a),
        u32_parses(b),
        u32_parses(c),
        tail.len() == 0 || tail[0] == '.',
    ensures
        version_valid(a + seq!['.'] + b + seq!['.'] + c + tail),
{
    let whole = a + seq!['.'] + b + seq!['.'] + c + tail;
    let after_a = b + seq!['.'] + c + tail;
    let after_b = c + tail;
    lemma_numeral_has_no_dot(a);
    lemma_numeral_has_no_dot(b);
    lemma_numeral_has_no_dot(c);
    assert(whole =~= a + seq!['.'] + after_a);
    crate::text::lemma_split_prefix(a, after_a, '.');
    assert(after_a =~= b + seq!['.'] + after_b);
    crate::text::lemma_split_prefix(b, after_b, '.');
    if tail.len() == 0 {
        assert(after_b =~= c);
        crate::text::lemma_split_no_sep(c, '.');
    } else {
        assert(after_b =~= c + seq!['.'] + tail.skip(1));
        crate::text::lemma_split_prefix(c, tail.skip(1), '.');
    }
    let parts = split_at(whole, '.');
    assert(parts[0] == a);
    assert(parts[1] == b);
    assert(parts[2] == c);
}

} // verus!
