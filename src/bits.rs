//! Expansion of a byte into eight unit amplitudes, one per bit.

use vstd::prelude::*;

verus! {

/// Which end of a byte is emitted first.
#[derive(Clone, Copy, Debug, PartialEq, Eq, Structural)]
pub enum BitOrder {
    /// Bit 0 (the least significant) gives the first amplitude.
    LittleEndianBits,
    /// Bit 7 (the most significant) gives the first amplitude.
    BigEndianBits,
}

/// Whether bit `i` of `b` is set.
pub open spec fn bit_set(b: u8, i: int) -> bool {
    (b >> (i as u8)) & 1u8 == 1u8
}

/// The amplitude that stands for one bit: `+1` when set, `-1` when clear.
pub open spec fn amplitude_of(bit: bool) -> i32 {
    if bit { 1i32 } else { -1i32 }
}

/// The amplitudes of `b`, bit 0 first.
pub open spec fn amplitudes_le(b: u8) -> Seq<i32> {
    Seq::new(8, |i: int| amplitude_of(bit_set(b, i)))
}

/// The amplitudes of `b`, bit 7 first.
pub open spec fn amplitudes_be(b: u8) -> Seq<i32> {
    Seq::new(8, |i: int| amplitude_of(bit_set(b, 7 - i)))
}

/// The amplitudes of `b` in the given bit order.
pub open spec fn amplitudes(b: u8, order: BitOrder) -> Seq<i32> {
    match order {
        BitOrder::LittleEndianBits => amplitudes_le(b),
        BitOrder::BigEndianBits => amplitudes_be(b),
    }
}

/// The bits that a sequence of amplitudes stands for: `+1` is a set bit.
pub open spec fn bits_of_amplitudes(a: Seq<i32>) -> Seq<bool> {
    a.map_values(|x: i32| x == 1)
}

/// A bit as the value 0 or 1.
pub open spec fn bit_value(bit: bool) -> u8 {
    if bit { 1u8 } else { 0u8 }
}

/// The byte made of the first `n` bits of `bits`, `bits[i]` at position `i`.
pub open spec fn byte_from_bits_le_prefix(bits: Seq<bool>, n: nat) -> u8
    decreases n,
{
    if n == 0 {
        0u8
    } else {
        byte_from_bits_le_prefix(bits, (n - 1) as nat) | (bit_value(bits[n - 1]) << ((n - 1) as u8))
    }
}

/// The byte made of the first `n` bits of `bits`, `bits[i]` at position `7 - i`.
pub open spec fn byte_from_bits_be_prefix(bits: Seq<bool>, n: nat) -> u8
    decreases n,
{
    if n == 0 {
        0u8
    } else {
        byte_from_bits_be_prefix(bits, (n - 1) as nat) | (bit_value(bits[n - 1]) << ((8 - n) as u8))
    }
}

/// The byte whose bit `i` is `bits[i]`.
pub open spec fn byte_from_bits_le(bits: Seq<bool>) -> u8 {
    byte_from_bits_le_prefix(bits, 8)
}

/// The byte whose bit `7 - i` is `bits[i]`.
pub open spec fn byte_from_bits_be(bits: Seq<bool>) -> u8 {
    byte_from_bits_be_prefix(bits, 8)
}

/// The byte that a sequence of eight bits in the given order stands for.
pub open spec fn byte_from_bits(bits: Seq<bool>, order: BitOrder) -> u8 {
    match order {
        BitOrder::LittleEndianBits => byte_from_bits_le(bits),
        BitOrder::BigEndianBits => byte_from_bits_be(bits),
    }
}

/// Expands `in_byte` into eight amplitudes in the given bit order.
pub fn i32_bit_amplitudes(in_byte: u8, order: BitOrder) -> (r: [i32; 8])
    ensures
        r@ == amplitudes(in_byte, order),
        forall|i: int| 0 <= i < 8 ==> r@[i] == 1 || r@[i] == -1,
{
    match order {
        BitOrder::LittleEndianBits => i32_bit_amplitudes_le(in_byte),
        BitOrder::BigEndianBits => i32_bit_amplitudes_be(in_byte),
    }
}

/// Expands `in_byte` into eight amplitudes, bit 0 first.
pub fn i32_bit_amplitudes_le(in_byte: u8) -> (r: [i32; 8])
    ensures
        r@ == amplitudes_le(in_byte),
{
    let mut out_buf: [i32; 8] = [0i32; 8];
    for i in 0..8usize
        invariant
            out_buf@.len() == 8,
            forall|j: int| 0 <= j < i ==> out_buf@[j] == amplitude_of(bit_set(in_byte, j)),
    {
        let shift: u8 = i as u8;
        let bit: u8 = (in_byte >> shift) & 1u8;
        assert(bit <= 1u8) by (bit_vector)
            requires
                bit == (in_byte >> shift) & 1u8,
        ;
        out_buf[i] = (bit as i32) * 2 - 1;
    }
    assert(out_buf@ =~= amplitudes_le(in_byte));
    out_buf
}

/// Expands `in_byte` into eight amplitudes, bit 7 first: those of
/// `i32_bit_amplitudes_le` reversed.
pub fn i32_bit_amplitudes_be(in_byte: u8) -> (r: [i32; 8])
    ensures
        r@ == amplitudes_be(in_byte),
        r@ == amplitudes_le(in_byte).reverse(),
{
    let le = i32_bit_amplitudes_le(in_byte);
    let mut out_buf: [i32; 8] = [0i32; 8];
    for i in 0..8usize
        invariant
            out_buf@.len() == 8,
            le@ == amplitudes_le(in_byte),
            forall|j: int| 0 <= j < i ==> out_buf@[j] == le@[7 - j],
    {
        out_buf[i] = le[7 - i];
    }
    assert(out_buf@ =~= amplitudes_le(in_byte).reverse());
    assert(out_buf@ =~= amplitudes_be(in_byte));
    out_buf
}

/// Packs eight bits into a byte, `bits[i]` at bit `i`.
pub fn u8_from_bits_le(bits: [bool; 8]) -> (r: u8)
    ensures
        r == byte_from_bits_le(bits@),
{
    let mut out_byte: u8 = 0;
    for i in 0..8usize
        invariant
            out_byte == byte_from_bits_le_prefix(bits@, i as nat),
    {
        let v: u8 = if bits[i] { 1u8 } else { 0u8 };
        out_byte = out_byte | (v << (i as u8));
    }
    out_byte
}

/// Packs eight bits into a byte, `bits[i]` at bit `7 - i`.
pub fn u8_from_bits_be(bits: [bool; 8]) -> (r: u8)
    ensures
        r == byte_from_bits_be(bits@),
{
    let mut out_byte: u8 = 0;
    for i in 0..8usize
        invariant
            out_byte == byte_from_bits_be_prefix(bits@, i as nat),
    {
        let v: u8 = if bits[i] { 1u8 } else { 0u8 };
        out_byte = out_byte | (v << ((7 - i) as u8));
    }
    out_byte
}

/// Bit `k` of `b` as the value 0 or 1.
spec fn bit_at(b: u8, k: u8) -> u8 {
    if (b >> k) & 1u8 == 1u8 { 1u8 } else { 0u8 }
}

/// A byte is the union of its eight bits, each at its own position.
proof fn lemma_byte_is_its_bits(b: u8)
    ensures
        b == (((((((0u8 | (bit_at(b, 0) << 0u8)) | (bit_at(b, 1) << 1u8)) | (bit_at(b, 2) << 2u8))
            | (bit_at(b, 3) << 3u8)) | (bit_at(b, 4) << 4u8)) | (bit_at(b, 5) << 5u8)) | (bit_at(
            b,
            6,
        ) << 6u8)) | (bit_at(b, 7) << 7u8),
        b == (((((((0u8 | (bit_at(b, 7) << 7u8)) | (bit_at(b, 6) << 6u8)) | (bit_at(b, 5) << 5u8))
            | (bit_at(b, 4) << 4u8)) | (bit_at(b, 3) << 3u8)) | (bit_at(b, 2) << 2u8)) | (bit_at(
            b,
            1,
        ) << 1u8)) | (bit_at(b, 0) << 0u8),
{
    assert(b == (((((((0u8 | (bit_at(b, 0) << 0u8)) | (bit_at(b, 1) << 1u8)) | (bit_at(b, 2) << 2u8))
        | (bit_at(b, 3) << 3u8)) | (bit_at(b, 4) << 4u8)) | (bit_at(b, 5) << 5u8)) | (bit_at(b, 6)
        << 6u8)) | (bit_at(b, 7) << 7u8)) by (bit_vector);
    assert(b == (((((((0u8 | (bit_at(b, 7) << 7u8)) | (bit_at(b, 6) << 6u8)) | (bit_at(b, 5) << 5u8))
        | (bit_at(b, 4) << 4u8)) | (bit_at(b, 3) << 3u8)) | (bit_at(b, 2) << 2u8)) | (bit_at(b, 1)
        << 1u8)) | (bit_at(b, 0) << 0u8)) by (bit_vector);
}

/// Reading the bits back out of the amplitudes of any byte, `+1` as a set bit
/// and in the same bit order, gives that byte again.
pub proof fn lemma_amplitudes_round_trip(b: u8, order: BitOrder)
    ensures
        byte_from_bits(bits_of_amplitudes(amplitudes(b, order)), order) == b,
{
    let bits = bits_of_amplitudes(amplitudes(b, order));
    lemma_byte_is_its_bits(b);
    reveal_with_fuel(byte_from_bits_le_prefix, 9);
    reveal_with_fuel(byte_from_bits_be_prefix, 9);
    assert forall|k: int| 0 <= k < 8 implies bit_value(#[trigger] bits[k]) == match order {
        BitOrder::LittleEndianBits => bit_at(b, k as u8),
        BitOrder::BigEndianBits => bit_at(b, (7 - k) as u8),
    } by {}
}

/// Every amplitude of every byte, in either bit order, is `+1` or `-1`.
pub proof fn lemma_amplitudes_are_unit(b: u8, order: BitOrder)
    ensures
        amplitudes(b, order).len() == 8,
        forall|i: int| 0 <= i < 8 ==> #[trigger] amplitudes(b, order)[i] == 1 || amplitudes(b, order)[i] == -1,
{
}

/// The big-endian amplitudes of any byte are its little-endian ones reversed.
pub proof fn lemma_big_endian_is_reversed(b: u8)
    ensures
        amplitudes(b, BitOrder::BigEndianBits) == amplitudes(b, BitOrder::LittleEndianBits).reverse(),
{
    assert(amplitudes_be(b) =~= amplitudes_le(b).reverse());
}

} // verus!
