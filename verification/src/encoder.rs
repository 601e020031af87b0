//! Canonical byte encoding of a sample sequence.
//!
//! A sample is held as the 32-bit pattern of an IEEE-754 single-precision
//! number. Encoding writes each pattern as four bytes, least significant
//! first, in sample order; no bit of a pattern is changed on the way.

use vstd::prelude::*;

verus! {

/// Byte `k` of `word`, where byte 0 is the least significant.
pub open spec fn le_byte(word: u32, k: int) -> u8 {
    if k == 0 {
        (word % 256) as u8
    } else if k == 1 {
        (word / 256 % 256) as u8
    } else if k == 2 {
        (word / 65536 % 256) as u8
    } else {
        (word / 16777216 % 256) as u8
    }
}

/// The word whose bytes, least significant first, are `b0`, `b1`, `b2`, `b3`.
pub open spec fn le_word(b0: u8, b1: u8, b2: u8, b3: u8) -> u32 {
    (b0 + 256 * b1 + 65536 * b2 + 16777216 * b3) as u32
}

/// The encoding of `samples`: four bytes per sample, in sample order.
pub open spec fn encoded(samples: Seq<u32>) -> Seq<u8> {
    Seq::new((4 * samples.len()) as nat, |i: int| le_byte(samples[i / 4], i % 4))
}

/// The samples that `bytes` holds, read four bytes at a time. Trailing bytes
/// that do not fill a sample are not part of the result.
pub open spec fn decoded(bytes: Seq<u8>) -> Seq<u32> {
    Seq::new(
        (bytes.len() / 4) as nat,
        |i: int| le_word(bytes[4 * i], bytes[4 * i + 1], bytes[4 * i + 2], bytes[4 * i + 3]),
    )
}

/// Splitting a word into its four bytes and joining them again gives the word.
pub proof fn lemma_word_of_bytes(word: u32)
    ensures
        le_word(le_byte(word, 0), le_byte(word, 1), le_byte(word, 2), le_byte(word, 3)) == word,
{
}

/// Joining four bytes into a word and splitting it again gives the bytes.
pub proof fn lemma_bytes_of_word(b0: u8, b1: u8, b2: u8, b3: u8)
    ensures
        le_byte(le_word(b0, b1, b2, b3), 0) == b0,
        le_byte(le_word(b0, b1, b2, b3), 1) == b1,
        le_byte(le_word(b0, b1, b2, b3), 2) == b2,
        le_byte(le_word(b0, b1, b2, b3), 3) == b3,
{
}

/// Decoding an encoded sample sequence reproduces it exactly.
pub proof fn lemma_decode_encode(samples: Seq<u32>)
    ensures
        decoded(encoded(samples)) == samples,
{
    let bytes = encoded(samples);
    assert forall|i: int| 0 <= i < samples.len() implies decoded(bytes)[i] == samples[i] by {
        lemma_word_of_bytes(samples[i]);
    }
    assert(decoded(bytes) =~= samples);
}

/// Encoding the samples decoded from a whole number of four-byte groups
/// reproduces the bytes exactly.
pub proof fn lemma_encode_decode(bytes: Seq<u8>)
    requires
        bytes.len() % 4 == 0,
    ensures
        encoded(decoded(bytes)) == bytes,
{
    let samples = decoded(bytes);
    assert forall|j: int| 0 <= j < bytes.len() implies encoded(samples)[j] == bytes[j] by {
        let i = j / 4;
        lemma_bytes_of_word(bytes[4 * i], bytes[4 * i + 1], bytes[4 * i + 2], bytes[4 * i + 3]);
    }
    assert(encoded(samples) =~= bytes);
}

/// Two sample sequences with the same encoding are the same sequence.
pub proof fn lemma_encoding_injective(a: Seq<u32>, b: Seq<u32>)
    requires
        encoded(a) == encoded(b),
    ensures
        a == b,
{
    lemma_decode_encode(a);
    lemma_decode_encode(b);
}

/// Encodes `samples` as bytes: each sample as four bytes, least significant
/// first, in sample order.
pub fn encode_samples(samples: &[u32]) -> (bytes: Vec<u8>)
    requires
        4 * samples@.len() <= usize::MAX,
    ensures
        bytes@ == encoded(samples@),
        bytes@.len() == 4 * samples@.len(),
{
    let count: usize = samples.len();
    let mut bytes: Vec<u8> = Vec::with_capacity(count * 4);
    let mut i: usize = 0;
    while i < count
        invariant
            count == samples@.len(),
            i <= count,
            bytes@.len() == 4 * i,
            forall|j: int| 0 <= j < 4 * i ==> bytes@[j] == le_byte(samples@[j / 4], j % 4),
        decreases count - i,
    {
        let word: u32 = samples[i];
        bytes.push((word % 256) as u8);
        bytes.push((word / 256 % 256) as u8);
        bytes.push((word / 65536 % 256) as u8);
        bytes.push((word / 16777216 % 256) as u8);
        i += 1;
    }
    assert(bytes@ =~= encoded(samples@));
    bytes
}

/// Decodes `bytes` into samples, four bytes per sample. Succeeds exactly when
/// the length of `bytes` is a multiple of four.
pub fn decode_samples(bytes: &[u8]) -> (samples: Option<Vec<u32>>)
    ensures
        samples is Some <==> bytes@.len() % 4 == 0,
        samples is Some ==> samples->Some_0@ == decoded(bytes@),
{
    let len: usize = bytes.len();
    if len % 4 != 0 {
        return None;
    }
    let count: usize = len / 4;
    let mut samples: Vec<u32> = Vec::with_capacity(count);
    let mut i: usize = 0;
    while i < count
        invariant
            len == bytes@.len(),
            len == 4 * count,
            i <= count,
            samples@.len() == i,
            forall|j: int|
                0 <= j < i ==> samples@[j] == le_word(
                    bytes@[4 * j],
                    bytes@[4 * j + 1],
                    bytes@[4 * j + 2],
                    bytes@[4 * j + 3],
                ),
        decreases count - i,
    {
        let b0: u32 = bytes[4 * i] as u32;
        let b1: u32 = bytes[4 * i + 1] as u32;
        let b2: u32 = bytes[4 * i + 2] as u32;
        let b3: u32 = bytes[4 * i + 3] as u32;
        samples.push(b0 + 256 * b1 + 65536 * b2 + 16777216 * b3);
        i += 1;
    }
    assert(samples@ =~= decoded(bytes@));
    Some(samples)
}

} // verus!
