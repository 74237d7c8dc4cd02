use bitwave::bits::{i32_bit_amplitudes, BitOrder};
use bitwave::config::{input_bit_order, output_endianness, OutputEndianness};
use bitwave::encoder::DeltaEncoder;
use bitwave::pipeline::{encode_byte, encode_stream};

#[test]
fn fresh_encoder_starts_at_zero() {
    assert_eq!(DeltaEncoder::new().accumulator(), 0);
}

#[test]
fn end_to_end_byte_one() {
    let amps = i32_bit_amplitudes(0x01, BitOrder::LittleEndianBits);
    assert_eq!(amps, [1, -1, -1, -1, -1, -1, -1, -1]);
    let mut encoder = DeltaEncoder::new();
    let mut trajectory = Vec::new();
    let mut samples = Vec::new();
    for a in amps {
        samples.push(encoder.encode_next(a));
        trajectory.push(encoder.accumulator());
    }
    assert_eq!(trajectory, vec![1, 0, 254, 253, 252, 251, 250, 249]);
    let expected: Vec<u8> = trajectory
        .iter()
        .map(|&acc| ((acc as i64 * 8388608) % 256) as u8)
        .collect();
    assert_eq!(samples, expected);
    assert_eq!(samples, vec![0u8; 8]);
}

#[test]
fn accumulator_wraps_upward_at_modulus() {
    let mut encoder = DeltaEncoder::new();
    for _ in 0..254 {
        encoder.encode_next(1);
    }
    assert_eq!(encoder.accumulator(), 254);
    encoder.encode_next(1);
    assert_eq!(encoder.accumulator(), 0);
    encoder.encode_next(1);
    assert_eq!(encoder.accumulator(), 1);
}

#[test]
fn accumulator_takes_floored_remainder_of_wide_amplitudes() {
    let mut encoder = DeltaEncoder::new();
    assert_eq!(encoder.encode_next(i32::MIN), 0);
    assert_eq!(encoder.accumulator(), 127);
    encoder.encode_next(i32::MAX);
    assert_eq!(encoder.accumulator(), 254);
    encoder.encode_next(300);
    assert_eq!(encoder.accumulator(), 44);
}

#[test]
fn fresh_encoders_agree() {
    let amps = [1, -1, -1, 1, 1, 1, -1, -1, -1, -1, -1, 1];
    let mut first = DeltaEncoder::new();
    let mut second = DeltaEncoder::new();
    let a = first.encode_amplitudes(&amps);
    let b = second.encode_amplitudes(&amps);
    assert_eq!(a, b);
    assert_eq!(a.len(), amps.len());
    assert_eq!(first.accumulator(), second.accumulator());
    assert_eq!(first.accumulator(), 253);
}

#[test]
fn encode_byte_carries_accumulator() {
    let mut encoder = DeltaEncoder::new();
    let samples = encode_byte(&mut encoder, 0xff, BitOrder::BigEndianBits);
    assert_eq!(samples.len(), 8);
    assert_eq!(encoder.accumulator(), 8);
    encode_byte(&mut encoder, 0x00, BitOrder::LittleEndianBits);
    assert_eq!(encoder.accumulator(), 0);
    encode_byte(&mut encoder, 0x00, BitOrder::LittleEndianBits);
    assert_eq!(encoder.accumulator(), 247);
}

#[test]
fn encode_stream_of_empty_input_is_empty() {
    assert!(encode_stream(&[], BitOrder::LittleEndianBits).is_empty());
    assert!(encode_stream(&[], BitOrder::BigEndianBits).is_empty());
}

#[test]
fn encode_stream_gives_eight_samples_per_byte() {
    let bytes = [0x01u8, 0xa5, 0x00];
    let samples = encode_stream(&bytes, BitOrder::LittleEndianBits);
    assert_eq!(samples.len(), 24);
    let mut encoder = DeltaEncoder::new();
    let mut expected = Vec::new();
    for b in bytes {
        expected.extend(encode_byte(&mut encoder, b, BitOrder::LittleEndianBits));
    }
    assert_eq!(samples, expected);
}

#[test]
fn bit_order_defaults_to_host() {
    assert_eq!(input_bit_order(None, true), BitOrder::BigEndianBits);
    assert_eq!(input_bit_order(None, false), BitOrder::LittleEndianBits);
    assert_eq!(
        input_bit_order(Some(BitOrder::BigEndianBits), false),
        BitOrder::BigEndianBits
    );
    assert_eq!(
        input_bit_order(Some(BitOrder::LittleEndianBits), true),
        BitOrder::LittleEndianBits
    );
}

#[test]
fn output_endianness_defaults_to_native() {
    assert_eq!(output_endianness(None), OutputEndianness::Native);
    assert_eq!(
        output_endianness(Some(OutputEndianness::Big)),
        OutputEndianness::Big
    );
    assert_eq!(
        output_endianness(Some(OutputEndianness::Little)),
        OutputEndianness::Little
    );
}
