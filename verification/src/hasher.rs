//! Digest of a byte sequence and its rendering as lowercase hexadecimal text.

use sha2::{Digest, Sha256};
use vstd::prelude::*;

verus! {

/// Number of bytes in a digest.
pub const DIGEST_LEN: usize = 32;

/// Number of characters in an identifier: two per digest byte.
pub const IDENTIFIER_LEN: usize = 64;

/// The SHA-256 digest of `data`.
pub uninterp spec fn sha256(data: Seq<u8>) -> Seq<u8>;

/// The sixteen lowercase hexadecimal digits, in order of their value.
pub open spec fn hex_alphabet() -> Seq<char> {
    seq!['0', '1', '2', '3', '4', '5', '6', '7', '8', '9', 'a', 'b', 'c', 'd', 'e', 'f']
}

/// `c` is one of the digits `0` to `9` or one of the letters `a` to `f`.
pub open spec fn is_hex_digit(c: char) -> bool {
    ('0' <= c <= '9') || ('a' <= c <= 'f')
}

/// The hexadecimal text of `bytes`: two digits per byte, the digit of the
/// high four bits first.
pub open spec fn hex_chars(bytes: Seq<u8>) -> Seq<char> {
    Seq::new(
        (2 * bytes.len()) as nat,
        |i: int|
            if i % 2 == 0 {
                hex_alphabet()[bytes[i / 2] as int / 16]
            } else {
                hex_alphabet()[bytes[i / 2] as int % 16]
            },
    )
}

/// The bytes of a text of one-byte characters.
pub open spec fn ascii_bytes(chars: Seq<char>) -> Seq<u8> {
    Seq::new(chars.len(), |i: int| chars[i] as u8)
}

/// The value of the hexadecimal digit whose character code is `code`, in
/// either case; `None` where `code` is no such digit.
pub open spec fn hex_value(code: u8) -> Option<u8> {
    if '0' <= code <= '9' {
        Some((code - '0') as u8)
    } else if 'a' <= code <= 'f' {
        Some((code - 'a' + 10) as u8)
    } else if 'A' <= code <= 'F' {
        Some((code - 'A' + 10) as u8)
    } else {
        None
    }
}

/// Every character of `text` is a hexadecimal digit, in either case.
pub open spec fn all_hex_digits(text: Seq<u8>) -> bool {
    forall|i: int| 0 <= i < text.len() ==> (#[trigger] hex_value(text[i])) is Some
}

/// The value of the digit at place `i` of `text`.
pub open spec fn digit_at(text: Seq<u8>, i: int) -> int {
    hex_value(text[i])->Some_0 as int
}

/// The bytes that the hexadecimal text `text` stands for; `None` where its
/// length is odd or one of its characters is no hexadecimal digit.
pub open spec fn hex_decoded(text: Seq<u8>) -> Option<Seq<u8>> {
    if text.len() % 2 == 0 && all_hex_digits(text) {
        Some(
            Seq::new(
                (text.len() / 2) as nat,
                |i: int| (16 * digit_at(text, 2 * i) + digit_at(text, 2 * i + 1)) as u8,
            ),
        )
    } else {
        None
    }
}

/// Each entry of the alphabet is a hexadecimal digit whose value is its place.
pub proof fn lemma_hex_alphabet(value: int)
    requires
        0 <= value < 16,
    ensures
        is_hex_digit(hex_alphabet()[value]),
        hex_value(hex_alphabet()[value] as u8) == Some(value as u8),
{
}

/// Hexadecimal text has two characters per byte, and each of them is one of
/// `0` to `9` or `a` to `f`.
pub proof fn lemma_hex_chars_shape(bytes: Seq<u8>)
    ensures
        hex_chars(bytes).len() == 2 * bytes.len(),
        forall|i: int|
            0 <= i < hex_chars(bytes).len() ==> is_hex_digit(#[trigger] hex_chars(bytes)[i]),
        vstd::utf8::is_ascii_chars(hex_chars(bytes)),
{
    assert forall|i: int| 0 <= i < hex_chars(bytes).len() implies is_hex_digit(
        #[trigger] hex_chars(bytes)[i],
    ) by {
        lemma_hex_alphabet(bytes[i / 2] as int / 16);
        lemma_hex_alphabet(bytes[i / 2] as int % 16);
    }
}

/// Decoding the hexadecimal text of a byte sequence succeeds and gives the
/// byte sequence back.
pub proof fn lemma_hex_round_trip(bytes: Seq<u8>)
    ensures
        hex_decoded(ascii_bytes(hex_chars(bytes))) == Some(bytes),
{
    let text = ascii_bytes(hex_chars(bytes));
    assert forall|i: int| 0 <= i < text.len() implies hex_value(text[i]) is Some by {
        lemma_hex_alphabet(bytes[i / 2] as int / 16);
        lemma_hex_alphabet(bytes[i / 2] as int % 16);
    }
    let back = hex_decoded(text)->Some_0;
    assert forall|k: int| 0 <= k < bytes.len() implies back[k] == bytes[k] by {
        lemma_hex_alphabet(bytes[k] as int / 16);
        lemma_hex_alphabet(bytes[k] as int % 16);
    }
    assert(back =~= bytes);
}

/// Two byte sequences with the same hexadecimal text are the same sequence.
pub proof fn lemma_hex_chars_injective(a: Seq<u8>, b: Seq<u8>)
    requires
        hex_chars(a) == hex_chars(b),
    ensures
        a == b,
{
    lemma_hex_round_trip(a);
    lemma_hex_round_trip(b);
}

/// Calls `Sha256::digest` of the crate sha2 and copies the 32 bytes that it
/// returns into an array. The contract gives that result its name: it is the
/// SHA-256 digest of `data`, and depends on nothing else.
#[verifier::external_body]
pub(crate) fn sha256_hash(data: &[u8]) -> (hash: [u8; 32])
    ensures
        hash@ == sha256(data@),
{
    let result = Sha256::digest(data);
    let mut hash = [0u8; 32];
    hash.copy_from_slice(&result);
    hash
}

/// Calls `hex::encode`, which writes for each byte, in order, the lowercase
/// digit of its high four bits and then that of its low four bits.
#[verifier::external_body]
fn hex_encode(digest: &[u8; 32]) -> (text: String)
    ensures
        text@ == hex_chars(digest@),
{
    hex::encode(digest)
}

/// Renders a digest as 64 lowercase hexadecimal characters.
pub fn to_hex(digest: &[u8; 32]) -> (text: String)
    ensures
        text@ == hex_chars(digest@),
        text@.len() == IDENTIFIER_LEN,
        forall|i: int| 0 <= i < text@.len() ==> is_hex_digit(#[trigger] text@[i]),
        text.is_ascii(),
{
    let text = hex_encode(digest);
    proof {
        lemma_hex_chars_shape(digest@);
    }
    text
}

/// The content identifier of `data`: the hexadecimal text of its SHA-256
/// digest.
pub fn content_id(data: &[u8]) -> (cid: String)
    ensures
        cid@ == hex_chars(sha256(data@)),
        cid@.len() == IDENTIFIER_LEN,
        forall|i: int| 0 <= i < cid@.len() ==> is_hex_digit(#[trigger] cid@[i]),
{
    let digest = sha256_hash(data);
    to_hex(&digest)
}

} // verus!
