//! Durations written as a count of seconds or of milliseconds.

use crate::decimal::{
    decimal_text, is_digit, lemma_decimal_text_digits, lemma_decimal_text_parses,
    lemma_non_digit_is_rejected, parse_u64, parse_unsigned, u64_parse_error,
};
use crate::text::strip_suffix;
use std::num::ParseIntError;
use std::time::Duration;
use vstd::prelude::*;

verus! {

/// The whole length of a duration in nanoseconds, as `Duration::as_nanos` gives it.
pub uninterp spec fn duration_nanos(d: Duration) -> nat;

/// `Duration::from_secs` makes the duration of that many whole seconds.
pub assume_specification[ Duration::from_secs ](secs: u64) -> (d: Duration)
    ensures
        duration_nanos(d) == secs as nat * 1_000_000_000,
;

/// `Duration::from_millis` makes the duration of that many milliseconds.
pub assume_specification[ Duration::from_millis ](millis: u64) -> (d: Duration)
    ensures
        duration_nanos(d) == millis as nat * 1_000_000,
;

/// The nanoseconds of the duration that `s` writes as a count of seconds.
pub open spec fn seconds_text_nanos(s: Seq<char>) -> Option<nat> {
    match parse_unsigned(s, u64::MAX as nat) {
        Some(secs) => Some(secs * 1_000_000_000),
        None => None,
    }
}

/// The part of `s` that holds the count: what stands before `ms`, else what
/// stands before `s`, else the whole text.
pub open spec fn duration_count(s: Seq<char>) -> Seq<char> {
    if "ms"@.is_suffix_of(s) {
        s.take(s.len() - "ms"@.len())
    } else if "s"@.is_suffix_of(s) {
        s.take(s.len() - "s"@.len())
    } else {
        s
    }
}

/// The nanoseconds of the unit that `s` ends with: milliseconds after `ms`,
/// seconds otherwise.
pub open spec fn duration_unit_nanos(s: Seq<char>) -> nat {
    if "ms"@.is_suffix_of(s) {
        1_000_000
    } else {
        1_000_000_000
    }
}

/// The nanoseconds of the duration that `s` writes with or without a unit: its
/// count, which has to be a number of 64 bits, times its unit.
pub open spec fn duration_text_nanos(s: Seq<char>) -> Option<nat> {
    match parse_unsigned(duration_count(s), u64::MAX as nat) {
        Some(count) => Some(count * duration_unit_nanos(s)),
        None => None,
    }
}

/// The text that stands for a duration of `nanos` nanoseconds: its seconds
/// followed by `s` where they are whole, else its milliseconds followed by `ms`.
pub open spec fn duration_text(nanos: nat) -> Seq<char> {
    if nanos % 1_000_000_000 == 0 {
        decimal_text(nanos / 1_000_000_000) + "s"@
    } else {
        decimal_text(nanos / 1_000_000) + "ms"@
    }
}

/// Helper to parse a [Duration] from seconds: the text has to be an unsigned
/// decimal number of 64 bits, and the error is the integer parser's own.
pub fn parse_duration_from_secs(arg: &str) -> (r: Result<Duration, ParseIntError>)
    ensures
        match seconds_text_nanos(arg@) {
            Some(nanos) => r matches Ok(d) && duration_nanos(d) == nanos,
            None => r == Err::<Duration, ParseIntError>(u64_parse_error(arg@)),
        },
{
    match parse_u64(arg) {
        Ok(seconds) => Ok(Duration::from_secs(seconds)),
        Err(e) => Err(e),
    }
}

/// Helper to parse a [Duration] from seconds if it's a number or milliseconds if the input contains
/// a `ms` suffix:
///  * `5ms` -> 5 milliseconds
///  * `5` -> 5 seconds
///  * `5s` -> 5 seconds
///
/// One unit is taken off the end, and what is left has to be an unsigned decimal
/// number of 64 bits; where it is none, the error is the integer parser's for
/// what was left.
pub fn parse_duration_from_secs_or_ms(arg: &str) -> (r: Result<Duration, ParseIntError>)
    ensures
        match duration_text_nanos(arg@) {
            Some(nanos) => r matches Ok(d) && duration_nanos(d) == nanos,
            None => r == Err::<Duration, ParseIntError>(u64_parse_error(duration_count(arg@))),
        },
{
    if let Some(count) = strip_suffix(arg, "ms") {
        match parse_u64(count) {
            Ok(millis) => Ok(Duration::from_millis(millis)),
            Err(e) => Err(e),
        }
    } else if let Some(count) = strip_suffix(arg, "s") {
        parse_duration_from_secs(count)
    } else {
        parse_duration_from_secs(arg)
    }
}

/// A decimal number `n` that fits 64 bits is a duration of exactly `n` seconds.
pub proof fn lemma_seconds_of_decimal_text(n: nat)
    requires
        n <= u64::MAX,
    ensures
        seconds_text_nanos(decimal_text(n)) == Some(n * 1_000_000_000),
{
    lemma_decimal_text_parses(n, u64::MAX as nat);
}

/// A text with a character that is no digit, a leading `+` apart, is no
/// duration in seconds: a negative number is none, nor is a word.
pub proof fn lemma_seconds_reject_non_digits(s: Seq<char>, i: int)
    requires
        0 <= i < s.len(),
        !is_digit(s[i]),
        !(i == 0 && s[0] == '+'),
    ensures
        seconds_text_nanos(s) is None,
{
    lemma_non_digit_is_rejected(s, i, u64::MAX as nat);
}

/// A decimal number `n` followed by `ms` is `n` milliseconds; followed by `s`, or
/// by nothing, it is `n` seconds.
pub proof fn lemma_duration_text_forms(n: nat)
    requires
        n <= u64::MAX,
    ensures
        duration_text_nanos(decimal_text(n) + "ms"@) == Some(n * 1_000_000),
        duration_text_nanos(decimal_text(n) + "s"@) == Some(n * 1_000_000_000),
        duration_text_nanos(decimal_text(n)) == Some(n * 1_000_000_000),
{
    reveal_strlit("ms");
    reveal_strlit("s");
    let digits = decimal_text(n);
    let len = digits.len() as int;
    lemma_decimal_text_digits(n);
    lemma_decimal_text_parses(n, u64::MAX as nat);
    assert(is_digit(digits[len - 1]));

    let millis = digits + "ms"@;
    assert(millis.subrange(len, len + 2) =~= "ms"@);
    assert(millis.take(len) =~= digits);

    let seconds = digits + "s"@;
    assert(seconds.subrange(len, len + 1) =~= "s"@);
    assert(seconds.take(len) =~= digits);
    assert(!"ms"@.is_suffix_of(seconds)) by {
        if "ms"@.is_suffix_of(seconds) {
            assert(seconds.subrange(len - 1, len + 1)[0] == 'm');
        }
    }

    assert(!"s"@.is_suffix_of(digits)) by {
        if "s"@.is_suffix_of(digits) {
            assert(digits.subrange(len - 1, len)[0] == 's');
        }
    }
    assert(!"ms"@.is_suffix_of(digits)) by {
        if "ms"@.is_suffix_of(digits) {
            assert(digits.subrange(len - 2, len)[1] == 's');
        }
    }
}

/// Writing a duration that was read back as text and reading that text gives
/// the same duration.
pub proof fn lemma_duration_text_round_trip(s: Seq<char>)
    requires
        duration_text_nanos(s) is Some,
    ensures
        duration_text_nanos(duration_text(duration_text_nanos(s)->Some_0)) == duration_text_nanos(
            s,
        ),
{
    let nanos = duration_text_nanos(s)->Some_0;
    if nanos % 1_000_000_000 == 0 {
        lemma_duration_text_forms(nanos / 1_000_000_000);
    } else {
        lemma_duration_text_forms(nanos / 1_000_000);
    }
}

} // verus!
