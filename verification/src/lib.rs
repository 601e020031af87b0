//! Content identifiers for synthesized signals.
//!
//! A 64-bit seed selects an oscillator bank; the samples that a synthesizer
//! produces from the bank are encoded as little-endian bytes, hashed with
//! SHA-256 and rendered as lowercase hexadecimal text.

pub mod encoder;
pub mod gate;
pub mod hasher;
pub mod oscillator;
pub mod samples;

pub use gate::{MyError, RemixOnChain};
pub use oscillator::OscillatorBank;
pub use samples::SampleBuffer;
