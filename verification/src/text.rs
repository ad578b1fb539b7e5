//! Character-level text utilities: prefix and equality tests on strings,
//! and decimal parsing of configuration values.

use vstd::prelude::*;
use vstd::string::StrSliceExecFns;

verus! {

/// `p` is a prefix of `s`, character by character.
pub open spec fn spec_has_prefix(s: Seq<char>, p: Seq<char>) -> bool {
    p.len() <= s.len() && s.subrange(0, p.len() as int) == p
}

/// Whether `p` is a prefix of `s`, compared character by character.
pub fn str_has_prefix(s: &str, p: &str) -> (r: bool)
    ensures
        r == spec_has_prefix(s@, p@),
{
    let sl = s.unicode_len();
    let pl = p.unicode_len();
    if pl > sl {
        return false;
    }
    let mut i: usize = 0;
    while i < pl
        invariant
            i <= pl,
            pl <= sl,
            pl == p@.len(),
            sl == s@.len(),
            forall|j: int| 0 <= j < i ==> s@[j] == p@[j],
        decreases pl - i,
    {
        if s.get_char(i) != p.get_char(i) {
            assert(s@.subrange(0, p@.len() as int)[i as int] == s@[i as int]);
            return false;
        }
        i += 1;
    }
    assert(s@.subrange(0, p@.len() as int) =~= p@);
    true
}

/// Whether two strings hold the same characters.
pub fn str_equal(a: &str, b: &str) -> (r: bool)
    ensures
        r == (a@ == b@),
{
    let al = a.unicode_len();
    let bl = b.unicode_len();
    if al != bl {
        return false;
    }
    let r = str_has_prefix(a, b);
    proof {
        assert(a@.subrange(0, b@.len() as int) =~= a@);
    }
    r
}

/// `c` is one of the ten decimal digit characters, `'0'` through `'9'`.
pub open spec fn is_digit_char(c: char) -> bool {
    48 <= c as u32 <= 57
}

/// Every character of `s` is a decimal digit.
pub open spec fn all_digit_chars(s: Seq<char>) -> bool {
    forall|i: int| 0 <= i < s.len() ==> is_digit_char(s[i])
}

/// The numeric value of a string of decimal digit characters, most
/// significant digit first.
pub open spec fn dec_value(s: Seq<char>) -> nat
    decreases s.len(),
{
    if s.len() == 0 {
        0
    } else {
        (dec_value(s.drop_last()) * 10 + (s.last() as u32 - 48)) as nat
    }
}

/// Where the digits of a number start: a single leading `'+'` is skipped.
pub open spec fn spec_digits_start(s: Seq<char>) -> int {
    if s.len() > 0 && s[0] == '+' {
        1
    } else {
        0
    }
}

/// What `str::parse::<u16>` accepts: an optional leading `'+'`, then one or
/// more decimal digits whose value fits in a `u16`.
pub open spec fn spec_parse_u16(s: Seq<char>) -> Option<u16> {
    let digits = s.subrange(spec_digits_start(s), s.len() as int);
    if digits.len() > 0 && all_digit_chars(digits) && dec_value(digits) <= u16::MAX {
        Some(dec_value(digits) as u16)
    } else {
        None
    }
}

/// A digit string is worth at least as much as any of its prefixes.
proof fn lemma_dec_value_prefix_le(s: Seq<char>, n: int)
    requires
        0 <= n <= s.len(),
        all_digit_chars(s),
    ensures
        dec_value(s.subrange(0, n)) <= dec_value(s),
    decreases s.len() - n,
{
    if n == s.len() {
        assert(s.subrange(0, n) =~= s);
    } else {
        assert(s.subrange(0, n + 1).drop_last() =~= s.subrange(0, n));
        assert(is_digit_char(s[n]));
        assert(dec_value(s.subrange(0, n)) <= dec_value(s.subrange(0, n + 1)));
        lemma_dec_value_prefix_le(s, n + 1);
    }
}

/// Parses a decimal `u16` as `str::parse::<u16>` does: an optional leading
/// `'+'`, then one or more digits; `None` on anything else or on overflow.
pub fn parse_u16(s: &str) -> (r: Option<u16>)
    ensures
        r == spec_parse_u16(s@),
{
    let len = s.unicode_len();
    if len == 0 {
        return None;
    }
    let start: usize = if s.get_char(0) == '+' {
        1
    } else {
        0
    };
    if start == len {
        return None;
    }
    let ghost digits = s@.subrange(spec_digits_start(s@), s@.len() as int);
    let mut i: usize = start;
    let mut acc: u32 = 0;
    while i < len
        invariant
            start <= i <= len,
            start < len,
            len == s@.len(),
            start == spec_digits_start(s@),
            digits == s@.subrange(start as int, len as int),
            all_digit_chars(s@.subrange(start as int, i as int)),
            acc == dec_value(s@.subrange(start as int, i as int)),
            acc <= u16::MAX,
        decreases len - i,
    {
        let c = s.get_char(i);
        let cv = c as u32;
        if cv < 48 || 57 < cv {
            assert(digits[i - start] == s@[i as int]);
            return None;
        }
        let next = acc * 10 + (cv - 48);
        assert(s@.subrange(start as int, i + 1).drop_last() =~= s@.subrange(
            start as int,
            i as int,
        ));
        assert(next == dec_value(s@.subrange(start as int, i + 1)));
        if next > 65535 {
            proof {
                if all_digit_chars(digits) {
                    assert(digits.subrange(0, i + 1 - start) =~= s@.subrange(
                        start as int,
                        i + 1,
                    ));
                    lemma_dec_value_prefix_le(digits, i + 1 - start);
                }
            }
            return None;
        }
        acc = next;
        i += 1;
    }
    assert(digits =~= s@.subrange(start as int, i as int));
    Some(acc as u16)
}

} // verus!
