//! Unsigned decimal numerals: what a text must look like to be read as a
//! number, which number it is, and the canonical text of a number.

use std::num::ParseIntError;
use vstd::prelude::*;

verus! {

/// The error of the standard integer parser, carried through unopened.
#[verifier::external_type_specification]
#[verifier::external_body]
pub struct ExParseIntError(ParseIntError);

/// `c` is one of the ASCII digits `0` to `9`.
pub open spec fn is_digit(c: char) -> bool {
    '0' <= c && c <= '9'
}

/// The number that the digit `c` stands for.
pub open spec fn digit_value(c: char) -> nat
    recommends
        is_digit(c),
{
    (c as u32 - '0' as u32) as nat
}

/// Every character of `s` is a digit.
pub open spec fn all_digits(s: Seq<char>) -> bool {
    forall|i: int| 0 <= i < s.len() ==> is_digit(#[trigger] s[i])
}

/// The number written by the digits `s`, most significant digit first.
pub open spec fn digits_value(s: Seq<char>) -> nat
    decreases s.len(),
{
    if s.len() == 0 {
        0
    } else {
        10 * digits_value(s.drop_last()) + digit_value(s.last())
    }
}

/// What follows one optional leading `+`.
pub open spec fn unsigned_digits(s: Seq<char>) -> Seq<char> {
    if s.len() > 0 && s[0] == '+' {
        s.skip(1)
    } else {
        s
    }
}

/// `s` is an unsigned decimal numeral: an optional `+`, then one digit or more.
pub open spec fn is_unsigned_decimal(s: Seq<char>) -> bool {
    unsigned_digits(s).len() > 0 && all_digits(unsigned_digits(s))
}

/// The number that `s` is read as when it may be no larger than `max`.
pub open spec fn parse_unsigned(s: Seq<char>, max: nat) -> Option<nat> {
    if is_unsigned_decimal(s) && digits_value(unsigned_digits(s)) <= max {
        Some(digits_value(unsigned_digits(s)))
    } else {
        None
    }
}

/// The error that `str::parse::<u64>` reports for a text that it does not accept.
pub uninterp spec fn u64_parse_error(text: Seq<char>) -> ParseIntError;

/// The error that `str::parse::<u16>` reports for a text that it does not accept.
pub uninterp spec fn u16_parse_error(text: Seq<char>) -> ParseIntError;

/// Reads a `u64` with `str::parse`. The standard parser accepts an optional `+`
/// followed by decimal digits and nothing else, and fails on an empty text, on
/// any other character and on a number that does not fit the type. Which error
/// it reports depends on the text alone.
#[verifier::external_body]
pub(crate) fn parse_u64(text: &str) -> (r: Result<u64, ParseIntError>)
    ensures
        match r {
            Ok(n) => parse_unsigned(text@, u64::MAX as nat) == Some(n as nat),
            Err(e) => parse_unsigned(text@, u64::MAX as nat) is None && e == u64_parse_error(text@),
        },
{
    text.parse::<u64>()
}

/// Reads a `u16` with `str::parse`, which treats the text as for `u64` and
/// fails on a number above 65535.
#[verifier::external_body]
pub(crate) fn parse_u16(text: &str) -> (r: Result<u16, ParseIntError>)
    ensures
        match r {
            Ok(n) => parse_unsigned(text@, u16::MAX as nat) == Some(n as nat),
            Err(e) => parse_unsigned(text@, u16::MAX as nat) is None && e == u16_parse_error(text@),
        },
{
    text.parse::<u16>()
}

/// The character that writes the digit `d`.
pub open spec fn digit_char(d: nat) -> char
    recommends
        d < 10,
{
    ('0' as u8 + d) as u8 as char
}

/// The canonical text of `n`: its decimal digits, with no sign and no leading zero.
pub open spec fn decimal_text(n: nat) -> Seq<char>
    decreases n,
{
    if n < 10 {
        seq![digit_char(n)]
    } else {
        decimal_text(n / 10).push(digit_char(n % 10))
    }
}

/// The canonical text of a number is a non-empty run of digits that writes that number.
pub proof fn lemma_decimal_text_digits(n: nat)
    ensures
        decimal_text(n).len() > 0,
        all_digits(decimal_text(n)),
        digits_value(decimal_text(n)) == n,
    decreases n,
{
    let text = decimal_text(n);
    if n < 10 {
        assert(text.drop_last() =~= Seq::<char>::empty());
        assert(digits_value(text) == 10 * digits_value(text.drop_last()) + digit_value(
            text.last(),
        ));
    } else {
        lemma_decimal_text_digits(n / 10);
        assert(text.drop_last() =~= decimal_text(n / 10));
        assert(text.last() == digit_char(n % 10));
    }
}

/// Reading the canonical text of a number gives the number back, whenever it is
/// within the bound.
pub proof fn lemma_decimal_text_parses(n: nat, max: nat)
    requires
        n <= max,
    ensures
        parse_unsigned(decimal_text(n), max) == Some(n),
{
    lemma_decimal_text_digits(n);
    assert(is_digit(decimal_text(n)[0]));
}

/// A text with a character that is no digit, a leading `+` apart, is no number:
/// so is every text with a minus sign, a letter or a blank.
pub proof fn lemma_non_digit_is_rejected(s: Seq<char>, i: int, max: nat)
    requires
        0 <= i < s.len(),
        !is_digit(s[i]),
        !(i == 0 && s[0] == '+'),
    ensures
        parse_unsigned(s, max) is None,
{
    if s[0] == '+' {
        assert(unsigned_digits(s)[i - 1] == s[i]);
    }
}

} // verus!
