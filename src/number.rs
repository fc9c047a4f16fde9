//! Unsigned decimal numbers as `str::parse` reads them.
use vstd::prelude::*;
use vstd::string::*;

verus! {

/// An ASCII decimal digit.
pub open spec fn is_decimal_digit(c: char) -> bool {
    '0' <= c && c <= '9'
}

/// The value of a run of decimal digits, most significant first.
pub open spec fn digits_value(d: Seq<char>) -> int
    decreases d.len(),
{
    if d.len() == 0 {
        0
    } else {
        10 * digits_value(d.drop_last()) + ((d.last() as u32) - ('0' as u32))
    }
}

/// The digits of an unsigned number: an optional leading `+` is dropped.
pub open spec fn unsigned_digits(s: Seq<char>) -> Seq<char> {
    if s.len() > 0 && s[0] == '+' {
        s.drop_first()
    } else {
        s
    }
}

/// The value of `s` read as an unsigned decimal number no larger than `max`: an optional
/// `+`, then one or more digits and nothing else. `None` for any other text.
pub open spec fn parse_unsigned(s: Seq<char>, max: int) -> Option<int> {
    let d = unsigned_digits(s);
    if d.len() > 0 && (forall|i: int| 0 <= i < d.len() ==> is_decimal_digit(#[trigger] d[i]))
        && digits_value(d) <= max {
        Some(digits_value(d))
    } else {
        None
    }
}

/// A run of decimal digits has a value of at least zero.
pub proof fn lemma_digits_value_nonnegative(d: Seq<char>)
    requires
        forall|i: int| 0 <= i < d.len() ==> is_decimal_digit(#[trigger] d[i]),
    ensures
        digits_value(d) >= 0,
    decreases d.len(),
{
    if d.len() > 0 {
        let rest = d.drop_last();
        assert forall|i: int| 0 <= i < rest.len() implies is_decimal_digit(#[trigger] rest[i]) by {
            assert(rest[i] == d[i]);
        }
        lemma_digits_value_nonnegative(rest);
        assert(is_decimal_digit(d[d.len() - 1]));
    }
}

/// A number read by `parse_unsigned` lies between zero and the bound.
pub proof fn lemma_parse_unsigned_in_range(s: Seq<char>, max: int)
    ensures
        parse_unsigned(s, max) matches Some(v) ==> 0 <= v <= max,
{
    let d = unsigned_digits(s);
    if parse_unsigned(s, max) is Some {
        lemma_digits_value_nonnegative(d);
    }
}

/// Relies on `<u64 as FromStr>::from_str`, called through `str::parse`: it accepts an optional
/// `+` followed by one or more ASCII digits whose value fits in `u64`, and rejects any other
/// text (empty, signs alone, `-`, whitespace, overflow).
#[verifier::external_body]
pub(crate) fn parse_u64(s: &str) -> (r: Option<u64>)
    ensures
        r == (match parse_unsigned(s@, u64::MAX as int) {
            Some(v) => Some(v as u64),
            None => None,
        }),
{
    s.parse::<u64>().ok()
}

/// The digits of a signed number: an optional leading `+` or `-` is dropped.
pub open spec fn signed_digits(s: Seq<char>) -> Seq<char> {
    if s.len() > 0 && (s[0] == '+' || s[0] == '-') {
        s.drop_first()
    } else {
        s
    }
}

/// `s` is an integer other than zero, of any size: an optional sign, then one or more
/// digits and nothing else, not all of them `0`.
pub open spec fn nonzero_integer(s: Seq<char>) -> bool {
    let d = signed_digits(s);
    &&& d.len() > 0
    &&& forall|i: int| 0 <= i < d.len() ==> is_decimal_digit(#[trigger] d[i])
    &&& exists|i: int| 0 <= i < d.len() && #[trigger] d[i] != '0'
}

/// Whether `s` is an integer other than zero, of any size.
pub fn is_nonzero_integer(s: &str) -> (r: bool)
    ensures
        r == nonzero_integer(s@),
{
    let n = s.unicode_len();
    if n == 0 {
        return false;
    }
    let first = s.get_char(0);
    let start: usize = if first == '+' || first == '-' {
        1
    } else {
        0
    };
    let ghost d = signed_digits(s@);
    assert(d =~= s@.skip(start as int));
    if start >= n {
        assert(d.len() == 0);
        return false;
    }
    let mut nonzero = false;
    let mut i: usize = start;
    while i < n
        invariant
            start <= i <= n,
            n == s@.len(),
            d == s@.skip(start as int),
            d == signed_digits(s@),
            forall|j: int| 0 <= j < i - start ==> is_decimal_digit(#[trigger] d[j]),
            nonzero == exists|j: int| 0 <= j < i - start && #[trigger] d[j] != '0',
        decreases n - i,
    {
        let c = s.get_char(i);
        assert(d[i - start] == c);
        if !('0' <= c && c <= '9') {
            assert(!is_decimal_digit(d[i - start]));
            return false;
        }
        if c != '0' {
            nonzero = true;
        }
        i = i + 1;
    }
    assert(d.len() == n - start);
    nonzero
}

} // verus!
