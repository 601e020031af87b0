//! The oscillator bank that a seed selects.
//!
//! A bank holds three oscillators: a sine, a sawtooth and a square generator.
//! Each has a frequency in whole hertz and an initial phase, given as an exact
//! fraction of one period. The synthesizer that drives the bank evaluates
//! these fractions in single precision; the bank itself holds integers only.

use vstd::prelude::*;

verus! {

/// Samples per second.
pub const SAMPLE_RATE: u32 = 44100;

/// Length of the synthesized signal in seconds.
pub const DURATION_SECS: u32 = 2;

/// Number of samples in the synthesized signal.
pub const TOTAL_SAMPLES: usize = 88200;

/// Lowest frequency of an oscillator, in hertz.
pub const BASE_FREQUENCY: u16 = 100;

/// Number of distinct frequencies that a sub-seed can select.
pub const FREQUENCY_STEPS: u16 = 901;

/// Denominator of a seed-derived initial phase.
pub const PHASE_STEPS: u32 = 255;

/// An exact non-negative fraction.
#[derive(Clone, Copy, Debug, PartialEq, Eq)]
pub struct Fraction {
    pub numerator: u32,
    pub denominator: u32,
}

impl Fraction {
    /// The fraction has a value: its denominator is not zero.
    pub open spec fn wf(&self) -> bool {
        self.denominator > 0
    }

    /// The value lies between 0 and 1, both included.
    pub open spec fn within_unit(&self) -> bool {
        self.wf() && self.numerator <= self.denominator
    }
}

/// One periodic generator: its frequency and where in its period it starts.
#[derive(Clone, Copy, Debug, PartialEq, Eq)]
pub struct Oscillator {
    /// Frequency in hertz.
    pub frequency: u16,
    /// Initial phase, as a fraction of one period.
    pub phase: Fraction,
}

impl Oscillator {
    /// The frequency lies in the band and the initial phase within one period.
    pub open spec fn wf(&self) -> bool {
        &&& BASE_FREQUENCY <= self.frequency < BASE_FREQUENCY + FREQUENCY_STEPS
        &&& self.phase.within_unit()
    }

    /// The phase advance per sample: frequency over sample rate.
    pub open spec fn spec_increment(&self) -> Fraction {
        Fraction { numerator: self.frequency as u32, denominator: SAMPLE_RATE }
    }

    /// The phase advance per sample: frequency over sample rate.
    pub fn increment(&self) -> (step: Fraction)
        ensures
            step == self.spec_increment(),
    {
        Fraction { numerator: self.frequency as u32, denominator: SAMPLE_RATE }
    }
}

/// The three oscillators that are mixed into the signal.
#[derive(Clone, Copy, Debug, PartialEq, Eq)]
pub struct OscillatorBank {
    pub sine: Oscillator,
    pub sawtooth: Oscillator,
    pub square: Oscillator,
}

/// The eight bytes of `seed`, least significant first.
pub open spec fn seed_bytes(seed: u64) -> Seq<u8> {
    seq![
        (seed % 0x100) as u8,
        (seed / 0x100 % 0x100) as u8,
        (seed / 0x1_0000 % 0x100) as u8,
        (seed / 0x100_0000 % 0x100) as u8,
        (seed / 0x1_0000_0000 % 0x100) as u8,
        (seed / 0x100_0000_0000 % 0x100) as u8,
        (seed / 0x1_0000_0000_0000 % 0x100) as u8,
        (seed / 0x100_0000_0000_0000 % 0x100) as u8,
    ]
}

/// The 16-bit sub-seed that the bytes `2 * pair` and `2 * pair + 1` of `seed`
/// hold, least significant byte first.
pub open spec fn sub_seed(seed: u64, pair: int) -> u16 {
    (seed_bytes(seed)[2 * pair] + 0x100 * seed_bytes(seed)[2 * pair + 1]) as u16
}

/// The frequency that a sub-seed selects.
pub open spec fn frequency_of(sub: u16) -> u16 {
    (BASE_FREQUENCY + sub % FREQUENCY_STEPS) as u16
}

/// The initial phase that a seed byte selects.
pub open spec fn phase_of(byte: u8) -> Fraction {
    Fraction { numerator: byte as u32, denominator: PHASE_STEPS }
}

/// The initial phase of the square oscillator, which no seed changes.
pub open spec fn square_phase() -> Fraction {
    Fraction { numerator: 49, denominator: 100 }
}

/// The bank that `seed` selects: sub-seeds 0, 1 and 2 give the frequencies of
/// the sine, sawtooth and square oscillators; bytes 6 and 7 give the initial
/// phases of the sine and sawtooth oscillators.
pub open spec fn bank_of(seed: u64) -> OscillatorBank {
    OscillatorBank {
        sine: Oscillator {
            frequency: frequency_of(sub_seed(seed, 0)),
            phase: phase_of(seed_bytes(seed)[6]),
        },
        sawtooth: Oscillator {
            frequency: frequency_of(sub_seed(seed, 1)),
            phase: phase_of(seed_bytes(seed)[7]),
        },
        square: Oscillator { frequency: frequency_of(sub_seed(seed, 2)), phase: square_phase() },
    }
}

impl OscillatorBank {
    /// Each of the three oscillators is well formed.
    pub open spec fn wf(&self) -> bool {
        self.sine.wf() && self.sawtooth.wf() && self.square.wf()
    }

    /// Derives the bank that `seed` selects. Every seed is valid.
    pub fn from_seed(seed: u64) -> (bank: OscillatorBank)
        ensures
            bank == bank_of(seed),
            bank.wf(),
    {
        let sub0: u16 = (seed % 0x1_0000) as u16;
        let sub1: u16 = (seed / 0x1_0000 % 0x1_0000) as u16;
        let sub2: u16 = (seed / 0x1_0000_0000 % 0x1_0000) as u16;
        let byte6: u8 = (seed / 0x1_0000_0000_0000 % 0x100) as u8;
        let byte7: u8 = (seed / 0x100_0000_0000_0000 % 0x100) as u8;
        proof {
            lemma_sub_seed_value(seed);
        }
        OscillatorBank {
            sine: Oscillator { frequency: derive_frequency(sub0), phase: derive_phase(byte6) },
            sawtooth: Oscillator { frequency: derive_frequency(sub1), phase: derive_phase(byte7) },
            square: Oscillator {
                frequency: derive_frequency(sub2),
                phase: Fraction { numerator: 49, denominator: 100 },
            },
        }
    }
}

/// Maps a sub-seed into the band of frequencies.
pub fn derive_frequency(sub: u16) -> (frequency: u16)
    ensures
        frequency == frequency_of(sub),
        BASE_FREQUENCY <= frequency < BASE_FREQUENCY + FREQUENCY_STEPS,
{
    BASE_FREQUENCY + sub % FREQUENCY_STEPS
}

/// Maps a seed byte to an initial phase.
pub fn derive_phase(byte: u8) -> (phase: Fraction)
    ensures
        phase == phase_of(byte),
        phase.within_unit(),
{
    Fraction { numerator: byte as u32, denominator: PHASE_STEPS }
}

/// The number of samples in the signal: sample rate times duration.
pub fn total_samples() -> (count: usize)
    ensures
        count == SAMPLE_RATE * DURATION_SECS,
        count == TOTAL_SAMPLES,
{
    (SAMPLE_RATE as usize) * (DURATION_SECS as usize)
}

/// Each sub-seed is a 16-bit slice of the seed.
pub proof fn lemma_sub_seed_value(seed: u64)
    ensures
        sub_seed(seed, 0) == seed % 0x1_0000,
        sub_seed(seed, 1) == seed / 0x1_0000 % 0x1_0000,
        sub_seed(seed, 2) == seed / 0x1_0000_0000 % 0x1_0000,
{
    assert(seed % 0x100 + 0x100 * (seed / 0x100 % 0x100) == seed % 0x1_0000) by (bit_vector);
    assert(seed / 0x1_0000 % 0x100 + 0x100 * (seed / 0x100_0000 % 0x100) == seed / 0x1_0000
        % 0x1_0000) by (bit_vector);
    assert(seed / 0x1_0000_0000 % 0x100 + 0x100 * (seed / 0x100_0000_0000 % 0x100) == seed
        / 0x1_0000_0000 % 0x1_0000) by (bit_vector);
}

/// Every frequency that a sub-seed selects lies between 100 Hz and 1000 Hz,
/// both included.
pub proof fn lemma_frequency_band(sub: u16)
    ensures
        100 <= frequency_of(sub) <= 1000,
{
}

/// A sub-seed whose remainder modulo 901 is not 900 selects a frequency
/// below 1000 Hz.
pub proof fn lemma_frequency_below_top(sub: u16)
    requires
        sub % 901 != 900,
    ensures
        100 <= frequency_of(sub) < 1000,
{
}

/// Where none of the three sub-seeds of a seed leaves remainder 900 modulo
/// 901, all three frequencies of its bank lie below 1000 Hz.
pub proof fn lemma_bank_frequencies_below_top(seed: u64)
    requires
        sub_seed(seed, 0) % 901 != 900,
        sub_seed(seed, 1) % 901 != 900,
        sub_seed(seed, 2) % 901 != 900,
    ensures
        100 <= bank_of(seed).sine.frequency < 1000,
        100 <= bank_of(seed).sawtooth.frequency < 1000,
        100 <= bank_of(seed).square.frequency < 1000,
{
}

/// Two seeds select the same bank exactly when their sub-seeds leave the same
/// remainders modulo 901 and their last two bytes agree.
pub proof fn lemma_same_bank(a: u64, b: u64)
    ensures
        bank_of(a) == bank_of(b) <==> {
            &&& sub_seed(a, 0) % 901 == sub_seed(b, 0) % 901
            &&& sub_seed(a, 1) % 901 == sub_seed(b, 1) % 901
            &&& sub_seed(a, 2) % 901 == sub_seed(b, 2) % 901
            &&& seed_bytes(a)[6] == seed_bytes(b)[6]
            &&& seed_bytes(a)[7] == seed_bytes(b)[7]
        },
{
}

/// The bank of every seed is well formed: all three frequencies lie in the
/// band and all three initial phases within one period.
pub proof fn lemma_bank_of_wf(seed: u64)
    ensures
        bank_of(seed).wf(),
{
}

/// The phase advance per sample of a well-formed oscillator is more than
/// nothing and less than one period.
pub proof fn lemma_increment_within_period(oscillator: Oscillator)
    requires
        oscillator.wf(),
    ensures
        oscillator.spec_increment().wf(),
        0 < oscillator.spec_increment().numerator < oscillator.spec_increment().denominator,
{
}

} // verus!
