//! Standard base64 text of byte payloads.
//!
//! The text is defined here as a function of the bytes; the encoding itself
//! is done by the `base64-stream` crate.

use crate::error::{SecretError, SecretErrorView};
use vstd::prelude::*;

verus! {

/// The 64 characters of the standard alphabet, in the order of their values.
pub open spec fn alphabet() -> Seq<char> {
    "ABCDEFGHIJKLMNOPQRSTUVWXYZabcdefghijklmnopqrstuvwxyz0123456789+/"@
}

/// The character that stands for six bits of value `v`.
pub open spec fn sextet_char(v: int) -> char
    recommends
        0 <= v < 64,
{
    alphabet()[v]
}

/// The standard base64 text of `bytes`, padded with `=`: each group of three
/// bytes gives four characters, and a last group of one or two bytes gives
/// two or three characters and the padding.
pub open spec fn base64_text(bytes: Seq<u8>) -> Seq<char>
    decreases bytes.len(),
{
    if bytes.len() == 0 {
        Seq::empty()
    } else if bytes.len() == 1 {
        let x = bytes[0] as int;
        seq![sextet_char(x / 4), sextet_char(x % 4 * 16), '=', '=']
    } else if bytes.len() == 2 {
        let x = bytes[0] as int;
        let y = bytes[1] as int;
        seq![sextet_char(x / 4), sextet_char(x % 4 * 16 + y / 16), sextet_char(y % 16 * 4), '=']
    } else {
        let x = bytes[0] as int;
        let y = bytes[1] as int;
        let z = bytes[2] as int;
        seq![
            sextet_char(x / 4),
            sextet_char(x % 4 * 16 + y / 16),
            sextet_char(y % 16 * 4 + z / 64),
            sextet_char(z % 64),
        ] + base64_text(bytes.skip(3))
    }
}

/// The six bits that a character of the alphabet stands for.
pub open spec fn sextet_value(c: char) -> int {
    if 'A' <= c <= 'Z' {
        c as int - 'A' as int
    } else if 'a' <= c <= 'z' {
        c as int - 'a' as int + 26
    } else if '0' <= c <= '9' {
        c as int - '0' as int + 52
    } else if c == '+' {
        62
    } else {
        63
    }
}

/// The bytes that a padded base64 text stands for, read four characters at a
/// time up to the first padded group.
pub open spec fn base64_bytes(text: Seq<char>) -> Seq<u8>
    decreases text.len(),
{
    if text.len() < 4 {
        Seq::empty()
    } else {
        let a = sextet_value(text[0]);
        let b = sextet_value(text[1]);
        let c = sextet_value(text[2]);
        let d = sextet_value(text[3]);
        let first = (a * 4 + b / 16) as u8;
        let second = (b % 16 * 16 + c / 4) as u8;
        let third = (c % 4 * 64 + d) as u8;
        if text[2] == '=' {
            seq![first]
        } else if text[3] == '=' {
            seq![first, second]
        } else {
            seq![first, second, third] + base64_bytes(text.skip(4))
        }
    }
}

/// Every value below 64 is found again from its character, and no such
/// character is the padding.
proof fn lemma_sextet_round_trip(v: int)
    requires
        0 <= v < 64,
    ensures
        sextet_value(sextet_char(v)) == v,
        sextet_char(v) != '=',
{
    reveal_strlit("ABCDEFGHIJKLMNOPQRSTUVWXYZabcdefghijklmnopqrstuvwxyz0123456789+/");
}

/// Decoding the base64 text of any bytes gives those bytes back.
pub proof fn lemma_base64_round_trip(bytes: Seq<u8>)
    ensures
        base64_bytes(base64_text(bytes)) == bytes,
    decreases bytes.len(),
{
    let text = base64_text(bytes);
    if bytes.len() == 0 {
        assert(base64_bytes(text) =~= bytes);
    } else if bytes.len() == 1 {
        let x = bytes[0] as int;
        lemma_sextet_round_trip(x / 4);
        lemma_sextet_round_trip(x % 4 * 16);
        assert(base64_bytes(text) =~= bytes);
    } else if bytes.len() == 2 {
        let x = bytes[0] as int;
        let y = bytes[1] as int;
        lemma_sextet_round_trip(x / 4);
        lemma_sextet_round_trip(x % 4 * 16 + y / 16);
        lemma_sextet_round_trip(y % 16 * 4);
        assert(base64_bytes(text) =~= bytes);
    } else {
        let x = bytes[0] as int;
        let y = bytes[1] as int;
        let z = bytes[2] as int;
        let rest = bytes.skip(3);
        lemma_sextet_round_trip(x / 4);
        lemma_sextet_round_trip(x % 4 * 16 + y / 16);
        lemma_sextet_round_trip(y % 16 * 4 + z / 64);
        lemma_sextet_round_trip(z % 64);
        lemma_base64_round_trip(rest);
        assert(text.skip(4) =~= base64_text(rest));
        assert(base64_bytes(text) =~= seq![bytes[0], bytes[1], bytes[2]] + rest);
        assert(seq![bytes[0], bytes[1], bytes[2]] + rest =~= bytes);
    }
}

/// Reads a `base64_stream::ToBase64Reader` over `bytes` to its end with
/// `std::io::Read::read_to_string`.
///
/// Trusted: the reader yields the standard, padded base64 text of the bytes
/// it is given, and reading from a byte slice does not fail.
#[verifier::external_body]
fn read_base64(bytes: &[u8]) -> (outcome: Result<String, String>)
    ensures
        outcome is Ok,
        outcome->Ok_0@ == base64_text(bytes@),
{
    let mut text = String::new();
    let mut reader = base64_stream::ToBase64Reader::new(bytes);
    match std::io::Read::read_to_string(&mut reader, &mut text) {
        Ok(_) => Ok(text),
        Err(e) => Err(e.to_string()),
    }
}

/// The base64 text of what was read from a file: `read` is the file's whole
/// contents, or the reason why it could not be read.
pub fn base64(read: &Result<Vec<u8>, String>) -> (result: Result<String, SecretError>)
    ensures
        match *read {
            Ok(bytes) => result matches Ok(text) && text@ == base64_text(bytes@),
            Err(reason) => result matches Err(e) && e@ == SecretErrorView::IoError(reason@),
        },
{
    match read {
        Ok(bytes) => match read_base64(bytes.as_slice()) {
            Ok(text) => Ok(text),
            Err(reason) => Err(SecretError::IoError(reason)),
        },
        Err(reason) => Err(SecretError::IoError(reason.clone())),
    }
}

} // verus!
