//! The mint gate: from a sample buffer to its content identifier and digest.

use crate::encoder::encoded;
use crate::hasher::{
    ascii_bytes, hex_chars, hex_decoded, is_hex_digit, lemma_hex_round_trip, sha256, sha256_hash,
    to_hex, DIGEST_LEN, IDENTIFIER_LEN,
};
use crate::samples::SampleBuffer;
use vstd::prelude::*;
use vstd::slice::slice_to_vec;
use vstd::string::*;

verus! {

/// The digest of a signal: the SHA-256 digest of its canonical bytes.
pub open spec fn content_digest(samples: Seq<u32>) -> Seq<u8> {
    sha256(encoded(samples))
}

/// The identifier of a signal: the hexadecimal text of its digest.
pub open spec fn identifier(samples: Seq<u32>) -> Seq<char> {
    hex_chars(content_digest(samples))
}

/// Failure of a gate operation.
#[derive(Clone, Copy, Debug, PartialEq, Eq)]
pub enum MyError {
    Unknown,
}

/// The mint gate. It keeps no state of its own.
#[derive(Clone, Copy, Debug, PartialEq, Eq)]
pub struct RemixOnChain {}

impl RemixOnChain {
    /// A mint gate.
    pub fn new() -> (gate: RemixOnChain) {
        RemixOnChain {}
    }

    /// The identifier of the signal as text, for inspection: 64 characters,
    /// each one of `0` to `9` or `a` to `f`, one byte per character. Always
    /// succeeds.
    pub fn generate_wave(&self, samples: &SampleBuffer) -> (res: Result<Vec<u8>, Vec<u8>>)
        ensures
            res is Ok,
            res->Ok_0@ == ascii_bytes(identifier(samples@)),
            res->Ok_0@.len() == IDENTIFIER_LEN,
            forall|i: int|
                0 <= i < IDENTIFIER_LEN ==> is_hex_digit(#[trigger] res->Ok_0@[i] as char),
    {
        let cid = identifier_of(samples);
        let text = cid.as_str();
        let bytes = text.as_bytes_vec();
        proof {
            is_ascii_spec_bytes(text);
            assert(bytes@ =~= ascii_bytes(identifier(samples@)));
            assert forall|i: int| 0 <= i < IDENTIFIER_LEN implies is_hex_digit(
                #[trigger] bytes@[i] as char,
            ) by {
                assert(is_hex_digit(cid@[i]));
            }
        }
        Ok(bytes)
    }

    /// The raw digest of the signal: 32 bytes, those that the text of
    /// `generate_wave` spells out. Always succeeds, tests nothing and leaves
    /// the mint gate as it was.
    pub fn mint_if_valid(&mut self, samples: &SampleBuffer) -> (res: Result<Vec<u8>, Vec<u8>>)
        ensures
            res is Ok,
            res->Ok_0@ == content_digest(samples@),
            res->Ok_0@.len() == DIGEST_LEN,
            hex_decoded(ascii_bytes(identifier(samples@))) == Some(res->Ok_0@),
            *final(self) == *old(self),
    {
        let digest = digest_of(samples);
        proof {
            lemma_hex_round_trip(content_digest(samples@));
        }
        Ok(slice_to_vec(digest.as_slice()))
    }
}

/// The digest of the signal in `samples`.
pub fn digest_of(samples: &SampleBuffer) -> (digest: [u8; 32])
    ensures
        digest@ == content_digest(samples@),
{
    let bytes = samples.encode();
    sha256_hash(bytes.as_slice())
}

/// The identifier of the signal in `samples`: the hexadecimal text of its
/// digest, 64 characters of `0` to `9` and `a` to `f`.
pub fn identifier_of(samples: &SampleBuffer) -> (cid: String)
    ensures
        cid@ == identifier(samples@),
        cid@.len() == IDENTIFIER_LEN,
        forall|i: int| 0 <= i < cid@.len() ==> is_hex_digit(#[trigger] cid@[i]),
        cid.is_ascii(),
{
    let digest = digest_of(samples);
    to_hex(&digest)
}

/// Equal signals have equal digests and equal identifiers.
pub proof fn lemma_identifier_deterministic(a: Seq<u32>, b: Seq<u32>)
    requires
        a == b,
    ensures
        content_digest(a) == content_digest(b),
        identifier(a) == identifier(b),
{
}

/// Two signals with the same identifier have the same digest.
pub proof fn lemma_same_identifier_same_digest(a: Seq<u32>, b: Seq<u32>)
    requires
        identifier(a) == identifier(b),
    ensures
        content_digest(a) == content_digest(b),
{
    lemma_hex_round_trip(content_digest(a));
    lemma_hex_round_trip(content_digest(b));
}

/// Decoding the identifier of a signal gives its digest.
pub proof fn lemma_identifier_spells_digest(samples: Seq<u32>)
    ensures
        hex_decoded(ascii_bytes(identifier(samples))) == Some(content_digest(samples)),
{
    lemma_hex_round_trip(content_digest(samples));
}

} // verus!
