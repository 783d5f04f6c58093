//! Block identifiers: a 32-byte hash written in hexadecimal, or a block number.

use crate::decimal::{parse_u64, parse_unsigned, u64_parse_error};
use alloy_primitives::B256;
use std::num::ParseIntError;
use std::str::FromStr;
use vstd::prelude::*;

verus! {

/// A block hash _or_ a block number
#[derive(Clone, Copy, Debug, PartialEq, Eq, Hash)]
pub enum BlockHashOrNumber {
    /// The hash
    Hash([u8; 32]),
    /// The number
    Number(u64),
}

/// `c` is a hexadecimal digit, in either case.
pub open spec fn is_hex_digit(c: char) -> bool {
    ('0' <= c && c <= '9') || ('a' <= c && c <= 'f') || ('A' <= c && c <= 'F')
}

/// The number that the hexadecimal digit `c` stands for.
pub open spec fn hex_digit_value(c: char) -> nat
    recommends
        is_hex_digit(c),
{
    if '0' <= c && c <= '9' {
        (c as u32 - '0' as u32) as nat
    } else if 'a' <= c && c <= 'f' {
        (c as u32 - 'a' as u32 + 10) as nat
    } else {
        (c as u32 - 'A' as u32 + 10) as nat
    }
}

/// What follows one optional leading `0x` or `0X`.
pub open spec fn hash_digits(s: Seq<char>) -> Seq<char> {
    if s.len() >= 2 && s[0] == '0' && (s[1] == 'x' || s[1] == 'X') {
        s.skip(2)
    } else {
        s
    }
}

/// `s` writes a 32-byte hash: an optional `0x`, then exactly 64 hexadecimal digits.
pub open spec fn is_hash_text(s: Seq<char>) -> bool {
    &&& hash_digits(s).len() == 64
    &&& forall|i: int| 0 <= i < 64 ==> is_hex_digit(#[trigger] hash_digits(s)[i])
}

/// The bytes of the hash that `s` writes: each pair of digits is one byte, the
/// first digit of a pair its upper half.
pub open spec fn hash_text_bytes(s: Seq<char>) -> Seq<u8>
    recommends
        is_hash_text(s),
{
    Seq::new(
        32,
        |i: int|
            (16 * hex_digit_value(hash_digits(s)[2 * i]) + hex_digit_value(
                hash_digits(s)[2 * i + 1],
            )) as u8,
    )
}

/// Reads a 32-byte hash with `B256::from_str`, which decodes hexadecimal text
/// into exactly 32 bytes: it drops a leading `0x` or `0X`, wants 64 digits of
/// either case after it, and fails on every other text.
#[verifier::external_body]
fn parse_hash(value: &str) -> (r: Option<[u8; 32]>)
    ensures
        r is Some <==> is_hash_text(value@),
        r is Some ==> r->Some_0@ == hash_text_bytes(value@),
{
    match B256::from_str(value) {
        Ok(hash) => Some(hash.0),
        Err(_) => None,
    }
}

/// Parse [`BlockHashOrNumber`]: a text that writes a 32-byte hash is that hash,
/// whatever else it could be read as; any other text is a block number, or the
/// integer parser's error where it is no number of 64 bits.
pub fn hash_or_num_value_parser(value: &str) -> (r: Result<BlockHashOrNumber, ParseIntError>)
    ensures
        if is_hash_text(value@) {
            r matches Ok(BlockHashOrNumber::Hash(hash)) && hash@ == hash_text_bytes(value@)
        } else {
            match parse_unsigned(value@, u64::MAX as nat) {
                Some(n) => r matches Ok(BlockHashOrNumber::Number(number)) && number == n,
                None => r == Err::<BlockHashOrNumber, ParseIntError>(u64_parse_error(value@)),
            }
        },
{
    match parse_hash(value) {
        Some(hash) => Ok(BlockHashOrNumber::Hash(hash)),
        None => match parse_u64(value) {
            Ok(number) => Ok(BlockHashOrNumber::Number(number)),
            Err(e) => Err(e),
        },
    }
}

} // verus!
