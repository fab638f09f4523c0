//! Verified text handling for the field collector: splitting a line at a
//! separator, trimming surrounding whitespace, and joining parts back together.

use vstd::prelude::*;
use crate::chars::is_wspace;
use crate::chars::wspace;

verus! {

/// The segments of `s` between occurrences of `sep`, in order. Empty segments
/// are preserved, so the result always has one more segment than `s` has
/// separators; an empty `s` yields one empty segment.
pub open spec fn split_at(s: Seq<char>, sep: char) -> Seq<Seq<char>>
    decreases s.len(),
{
    if s.len() == 0 {
        seq![Seq::<char>::empty()]
    } else if s[0] == sep {
        seq![Seq::<char>::empty()] + split_at(s.skip(1), sep)
    } else {
        let rest = split_at(s.skip(1), sep);
        seq![seq![s[0]] + rest[0]] + rest.skip(1)
    }
}

/// Splitting yields at least one segment.
pub proof fn lemma_split_at_len(s: Seq<char>, sep: char)
    ensures
        split_at(s, sep).len() >= 1,
    decreases s.len(),
{
    if s.len() > 0 {
        lemma_split_at_len(s.skip(1), sep);
    }
}

/// A text without the separator is a single segment.
pub proof fn lemma_split_no_sep(s: Seq<char>, sep: char)
    requires
        forall|i: int| 0 <= i < s.len() ==> s[i] != sep,
    ensures
        split_at(s, sep) =~~= seq![s],
    decreases s.len(),
{
    if s.len() > 0 {
        lemma_split_no_sep(s.skip(1), sep);
        assert(seq![s[0]] + s.skip(1) =~= s);
    }
}

/// Splitting a text that starts with a separator-free segment, a separator,
/// and a remainder yields that segment followed by the remainder's split.
pub proof fn lemma_split_prefix(seg: Seq<char>, rest: Seq<char>, sep: char)
    requires
        forall|i: int| 0 <= i < seg.len() ==> seg[i] != sep,
    ensures
        split_at(seg + seq![sep] + rest, sep) =~~= seq![seg] + split_at(rest, sep),
    decreases seg.len(),
{
    let whole = seg + seq![sep] + rest;
    if seg.len() == 0 {
        assert(whole =~= seq![sep] + rest);
        assert(whole.skip(1) =~= rest);
    } else {
        lemma_split_prefix(seg.skip(1), rest, sep);
        assert(whole.skip(1) =~= seg.skip(1) + seq![sep] + rest);
        lemma_split_at_len(whole.skip(1), sep);
        assert(seq![whole[0]] + split_at(whole.skip(1), sep)[0] =~= seg);
    }
}

/// Splits `s` at every occurrence of `sep`, as `str::split` does: empty
/// segments preserved, one segment more than there are separators.
pub fn split_on(s: &str, sep: char) -> (r: Vec<String>)
    ensures
        r.deep_view() == split_at(s@, sep),
        r.len() >= 1,
{
    let n = s.unicode_len();
    let mut segs: Vec<String> = Vec::new();
    let mut start: usize = 0;
    let mut i: usize = 0;
    proof {
        assert(s@.skip(0) =~= s@);
        assert(segs.deep_view() + split_at(s@, sep) =~~= split_at(s@, sep));
    }
    while i < n
        invariant
            start <= i <= n,
            n == s@.len(),
            forall|j: int| start <= j < i ==> s@[j] != sep,
            segs.deep_view() + split_at(s@.skip(start as int), sep) =~~= split_at(s@, sep),
        decreases n - i,
    {
        let c = s.get_char(i);
        if c == sep {
            let seg = s.substring_char(start, i).to_owned();
            proof {
                let tail = s@.skip((i + 1) as int);
                assert(s@.skip(start as int) =~= seg@ + seq![sep] + tail);
                lemma_split_prefix(seg@, tail, sep);
                assert((segs.deep_view().push(seg@)) + split_at(tail, sep) =~~= split_at(
                    s@,
                    sep,
                ));
            }
            segs.push(seg);
            start = i + 1;
        }
        i += 1;
    }
    let seg = s.substring_char(start, n).to_owned();
    proof {
        assert(s@.skip(start as int) =~= seg@);
        lemma_split_no_sep(seg@, sep);
        assert(segs.deep_view().push(seg@) =~~= split_at(s@, sep));
    }
    segs.push(seg);
    proof {
        lemma_split_at_len(s@, sep);
    }
    segs
}

/// `s` without its leading whitespace.
pub open spec fn trim_start_spec(s: Seq<char>) -> Seq<char>
    decreases s.len(),
{
    if s.len() > 0 && is_wspace(s[0]) {
        trim_start_spec(s.skip(1))
    } else {
        s
    }
}

/// `s` without its trailing whitespace.
pub open spec fn trim_end_spec(s: Seq<char>) -> Seq<char>
    decreases s.len(),
{
    if s.len() > 0 && is_wspace(s.last()) {
        trim_end_spec(s.drop_last())
    } else {
        s
    }
}

/// `s` without leading and trailing whitespace, as `str::trim` leaves it.
pub open spec fn trim_spec(s: Seq<char>) -> Seq<char> {
    trim_end_spec(trim_start_spec(s))
}

/// Dropping a whitespace prefix is what trimming the start does.
proof fn lemma_trim_start_skip(s: Seq<char>, k: int)
    requires
        0 <= k <= s.len(),
        forall|j: int| 0 <= j < k ==> is_wspace(s[j]),
        k < s.len() ==> !is_wspace(s[k]),
    ensures
        trim_start_spec(s) =~= s.skip(k),
    decreases k,
{
    if k == 0 {
        if s.len() > 0 {
            assert(!is_wspace(s[0]));
        }
        assert(s.skip(0) =~= s);
    } else {
        lemma_trim_start_skip(s.skip(1), k - 1);
        assert(s.skip(1).skip(k - 1) =~= s.skip(k));
    }
}

/// Dropping a whitespace suffix is what trimming the end does.
proof fn lemma_trim_end_take(s: Seq<char>, k: int)
    requires
        0 <= k <= s.len(),
        forall|j: int| k <= j < s.len() ==> is_wspace(s[j]),
        k > 0 ==> !is_wspace(s[k - 1]),
    ensures
        trim_end_spec(s) =~= s.take(k),
    decreases s.len() - k,
{
    if k == s.len() {
        assert(s.take(k) =~= s);
    } else {
        lemma_trim_end_take(s.drop_last(), k);
        assert(s.drop_last().take(k) =~= s.take(k));
    }
}

/// Removes leading and trailing whitespace from a line, as the field
/// collector does to every raw input line.
pub fn trim_line(s: &str) -> (r: String)
    ensures
        r@ == trim_spec(s@),
{
    let n = s.unicode_len();
    let mut a: usize = 0;
    while a < n && wspace(s.get_char(a))
        invariant
            a <= n,
            n == s@.len(),
            forall|j: int| 0 <= j < a ==> is_wspace(s@[j]),
        decreases n - a,
    {
        a += 1;
    }
    proof {
        lemma_trim_start_skip(s@, a as int);
    }
    if a == n {
        proof {
            assert(s@.skip(a as int) =~= Seq::<char>::empty());
        }
        return String::new();
    }
    let mut b: usize = n;
    while b > a + 1 && wspace(s.get_char(b - 1))
        invariant
            a < b <= n,
            n == s@.len(),
            !is_wspace(s@[a as int]),
            forall|j: int| b <= j < n ==> is_wspace(s@[j]),
        decreases b,
    {
        b -= 1;
    }
    proof {
        let t = s@.skip(a as int);
        if b == a + 1 && is_wspace(s@[b - 1]) {
            assert(false);
        }
        lemma_trim_end_take(t, (b - a) as int);
        assert(t.take((b - a) as int) =~= s@.subrange(a as int, b as int));
    }
    s.substring_char(a, b).to_owned()
}

/// The parts joined with `sep` between consecutive parts.
pub open spec fn join_with(parts: Seq<Seq<char>>, sep: Seq<char>) -> Seq<char>
    decreases parts.len(),
{
    if parts.len() == 0 {
        Seq::<char>::empty()
    } else if parts.len() == 1 {
        parts[0]
    } else {
        join_with(parts.drop_last(), sep) + sep + parts.last()
    }
}

/// Joins the parts with `sep` between consecutive parts, as `[_]::join` does.
pub fn join(parts: &Vec<String>, sep: &str) -> (r: String)
    ensures
        r@ == join_with(parts.deep_view(), sep@),
{
    let mut out = String::new();
    let mut i: usize = 0;
    while i < parts.len()
        invariant
            i <= parts.len(),
            out@ == join_with(parts.deep_view().take(i as int), sep@),
        decreases parts.len() - i,
    {
        if i > 0 {
            out.append(sep);
        }
        out.append(parts[i].as_str());
        proof {
            let pv = parts.deep_view();
            assert(pv.take((i + 1) as int).drop_last() =~= pv.take(i as int));
            assert(pv.take((i + 1) as int).last() == pv[i as int]);
            if i == 0 {
                assert(pv.take(1).len() == 1);
            }
        }
        i += 1;
    }
    proof {
        assert(parts.deep_view().take(parts.len() as int) =~= parts.deep_view());
    }
    out
}

} // verus!
