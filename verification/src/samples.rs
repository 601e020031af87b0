//! The sample buffer: the synthesized signal, complete.

use crate::encoder::{encode_samples, encoded};
use crate::oscillator::TOTAL_SAMPLES;
use vstd::prelude::*;

verus! {

/// A synthesized signal: exactly `TOTAL_SAMPLES` samples in order, each held
/// as the bit pattern of a single-precision number.
pub struct SampleBuffer {
    bits: Vec<u32>,
}

impl View for SampleBuffer {
    type V = Seq<u32>;

    closed spec fn view(&self) -> Seq<u32> {
        self.bits@
    }
}

impl SampleBuffer {
    #[verifier::type_invariant]
    spec fn complete(&self) -> bool {
        self.bits@.len() == TOTAL_SAMPLES
    }

    /// Takes a signal as a buffer. Succeeds exactly when the signal has
    /// `TOTAL_SAMPLES` samples; the buffer then holds them unchanged.
    pub fn new(bits: Vec<u32>) -> (buffer: Option<SampleBuffer>)
        ensures
            buffer is Some <==> bits@.len() == TOTAL_SAMPLES,
            buffer is Some ==> buffer->Some_0@ == bits@,
    {
        if bits.len() == TOTAL_SAMPLES {
            Some(SampleBuffer { bits })
        } else {
            None
        }
    }

    /// The number of samples, which is the same for every buffer.
    pub fn len(&self) -> (count: usize)
        ensures
            count == TOTAL_SAMPLES,
            count == self@.len(),
    {
        proof {
            use_type_invariant(self);
        }
        self.bits.len()
    }

    /// The samples in order.
    pub fn as_slice(&self) -> (bits: &[u32])
        ensures
            bits@ == self@,
            bits@.len() == TOTAL_SAMPLES,
    {
        proof {
            use_type_invariant(self);
        }
        self.bits.as_slice()
    }

    /// The canonical bytes of the buffer: four per sample, least significant
    /// first, in sample order.
    pub fn encode(&self) -> (bytes: Vec<u8>)
        ensures
            bytes@ == encoded(self@),
            bytes@.len() == 4 * TOTAL_SAMPLES,
    {
        proof {
            use_type_invariant(self);
        }
        encode_samples(self.bits.as_slice())
    }
}

} // verus!
