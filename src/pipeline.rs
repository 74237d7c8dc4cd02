//! The whole transform: bytes to amplitudes to samples, through one encoder.

use crate::bits::{amplitudes, i32_bit_amplitudes, BitOrder};
use crate::encoder::{accumulate, encoded_samples, lemma_encode_concat, DeltaEncoder};
use vstd::prelude::*;

verus! {

/// The amplitudes of every byte of `bytes` in turn, eight for each.
pub open spec fn stream_amplitudes(bytes: Seq<u8>, order: BitOrder) -> Seq<i32>
    decreases bytes.len(),
{
    if bytes.len() == 0 {
        Seq::empty()
    } else {
        stream_amplitudes(bytes.drop_last(), order) + amplitudes(bytes.last(), order)
    }
}

/// Expands `byte` in the given bit order and encodes its eight amplitudes with
/// `encoder`, returning the eight samples.
pub fn encode_byte(encoder: &mut DeltaEncoder, byte: u8, order: BitOrder) -> (samples: Vec<u8>)
    requires
        old(encoder).wf(),
    ensures
        final(encoder).wf(),
        final(encoder)@ == accumulate(old(encoder)@, amplitudes(byte, order)),
        samples@ == encoded_samples(old(encoder)@, amplitudes(byte, order)),
        samples@.len() == 8,
{
    let amps = i32_bit_amplitudes(byte, order);
    encoder.encode_amplitudes(amps.as_slice())
}

/// Encodes a whole byte stream with a fresh encoder: eight samples for each
/// byte, none for an empty stream.
pub fn encode_stream(bytes: &[u8], order: BitOrder) -> (samples: Vec<u8>)
    ensures
        samples@ == encoded_samples(0, stream_amplitudes(bytes@, order)),
        samples@.len() == 8 * bytes@.len(),
{
    let mut encoder = DeltaEncoder::new();
    let mut samples: Vec<u8> = Vec::new();
    for i in 0..bytes.len()
        invariant
            encoder.wf(),
            encoder@ == accumulate(0, stream_amplitudes(bytes@.take(i as int), order)),
            samples@ == encoded_samples(0, stream_amplitudes(bytes@.take(i as int), order)),
            samples@.len() == 8 * i,
    {
        let ghost done = stream_amplitudes(bytes@.take(i as int), order);
        let mut next = encode_byte(&mut encoder, bytes[i], order);
        proof {
            assert(bytes@.take(i + 1).drop_last() =~= bytes@.take(i as int));
            lemma_encode_concat(0, done, amplitudes(bytes@[i as int], order));
        }
        samples.append(&mut next);
    }
    assert(bytes@.take(bytes.len() as int) =~= bytes@);
    samples
}

} // verus!
