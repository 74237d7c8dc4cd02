//! The delta encoder: a running sum of amplitudes, reduced modulo 255, turned
//! into one 8-bit unsigned sample per amplitude.

use vstd::arithmetic::div_mod::lemma_mod_multiples_vanish;
use vstd::prelude::*;

verus! {

/// The modulus of the accumulator.
pub const ACCUMULATOR_MODULUS: i64 = 255;

/// The factor by which the accumulator is scaled before its low byte is taken.
pub const SAMPLE_SCALE: u32 = 8388608;

/// A multiple of the modulus that lifts any sum of an accumulator and an `i32`
/// amplitude to a value that is not negative.
const LIFT: i64 = 2147483775;

/// The accumulator after `amplitude` is added to `acc`: the sum taken modulo
/// 255, always in `0..255`.
pub open spec fn next_accumulator(acc: int, amplitude: int) -> int {
    (acc + amplitude) % 255
}

/// The sample that stands for an accumulator: the low byte of `acc * 2^23`.
pub open spec fn sample_of(acc: int) -> u8 {
    ((acc * 8388608) % 256) as u8
}

/// The accumulator after every amplitude of `amps` is added in turn to `acc`.
pub open spec fn accumulate(acc: int, amps: Seq<i32>) -> int
    decreases amps.len(),
{
    if amps.len() == 0 {
        acc
    } else {
        next_accumulator(accumulate(acc, amps.drop_last()), amps.last() as int)
    }
}

/// The samples that an encoder whose accumulator is `acc` emits for `amps`.
pub open spec fn encoded_samples(acc: int, amps: Seq<i32>) -> Seq<u8>
    decreases amps.len(),
{
    if amps.len() == 0 {
        Seq::empty()
    } else {
        encoded_samples(acc, amps.drop_last()).push(sample_of(accumulate(acc, amps)))
    }
}

/// Encodes unit amplitudes into samples, one per amplitude, carrying its
/// accumulator from one call to the next.
pub struct DeltaEncoder {
    accumulator: i32,
}

impl View for DeltaEncoder {
    type V = int;

    closed spec fn view(&self) -> int {
        self.accumulator as int
    }
}

impl DeltaEncoder {
    /// The accumulator lies in `0..255`.
    pub open spec fn wf(&self) -> bool {
        0 <= self@ < 255
    }

    /// A fresh encoder, its accumulator 0.
    pub fn new() -> (r: DeltaEncoder)
        ensures
            r@ == 0,
            r.wf(),
    {
        DeltaEncoder { accumulator: 0 }
    }

    /// The current accumulator.
    pub fn accumulator(&self) -> (r: i32)
        ensures
            r == self@,
    {
        self.accumulator
    }

    /// Adds `amplitude` to the accumulator, modulo 255, and returns the sample
    /// for the new accumulator.
    pub fn encode_next(&mut self, amplitude: i32) -> (sample: u8)
        requires
            old(self).wf(),
        ensures
            final(self).wf(),
            final(self)@ == next_accumulator(old(self)@, amplitude as int),
            sample == sample_of(final(self)@),
    {
        let sum: i64 = self.accumulator as i64 + amplitude as i64;
        let lifted: i64 = sum + LIFT;
        let reduced: i64 = lifted % ACCUMULATOR_MODULUS;
        proof {
            lemma_mod_multiples_vanish(8421505, sum as int, 255);
        }
        self.accumulator = reduced as i32;
        let acc: u32 = reduced as u32;
        assert(acc * 8388608 < 0x1_0000_0000) by (nonlinear_arith)
            requires
                acc < 255,
        ;
        let product: u32 = acc.wrapping_mul(SAMPLE_SCALE);
        assert(product == acc * 8388608);
        let sample: u8 = (product & 0xffu32) as u8;
        assert(product & 0xffu32 == product % 256) by (bit_vector);
        sample
    }

    /// Encodes each amplitude of `amps` in turn, returning one sample for each.
    pub fn encode_amplitudes(&mut self, amps: &[i32]) -> (samples: Vec<u8>)
        requires
            old(self).wf(),
        ensures
            final(self).wf(),
            final(self)@ == accumulate(old(self)@, amps@),
            samples@ == encoded_samples(old(self)@, amps@),
            samples@.len() == amps@.len(),
    {
        let ghost acc0 = self@;
        let mut samples: Vec<u8> = Vec::new();
        for i in 0..amps.len()
            invariant
                self.wf(),
                self@ == accumulate(acc0, amps@.take(i as int)),
                samples@ == encoded_samples(acc0, amps@.take(i as int)),
                samples@.len() == i,
        {
            assert(amps@.take(i + 1).drop_last() =~= amps@.take(i as int));
            let sample = self.encode_next(amps[i]);
            samples.push(sample);
        }
        assert(amps@.take(amps.len() as int) =~= amps@);
        samples
    }
}

/// Encoding `a` followed by `b` is encoding `a`, then encoding `b` from the
/// accumulator that `a` left.
pub proof fn lemma_encode_concat(acc: int, a: Seq<i32>, b: Seq<i32>)
    ensures
        accumulate(acc, a + b) == accumulate(accumulate(acc, a), b),
        encoded_samples(acc, a + b) == encoded_samples(acc, a) + encoded_samples(
            accumulate(acc, a),
            b,
        ),
    decreases b.len(),
{
    if b.len() == 0 {
        assert(a + b =~= a);
        assert(encoded_samples(acc, a) + encoded_samples(accumulate(acc, a), b) =~= encoded_samples(acc, a));
    } else {
        lemma_encode_concat(acc, a, b.drop_last());
        assert((a + b).drop_last() =~= a + b.drop_last());
        assert((a + b).last() == b.last());
        assert(encoded_samples(acc, a + b) =~= encoded_samples(acc, a) + encoded_samples(
            accumulate(acc, a),
            b,
        ));
    }
}

/// Two encoders that both start from a fresh accumulator emit the same samples
/// for the same amplitudes, and end with the same accumulator.
pub proof fn lemma_fresh_encoders_agree(e1: DeltaEncoder, e2: DeltaEncoder, amps: Seq<i32>)
    requires
        e1@ == 0,
        e2@ == 0,
    ensures
        encoded_samples(e1@, amps) == encoded_samples(e2@, amps),
        accumulate(e1@, amps) == accumulate(e2@, amps),
{
}

} // verus!
