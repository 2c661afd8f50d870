use quinoa_audio::sample::{
    abs_sample_bits, compute_batch_peak, convert_batch, decode_samples, sample_to_i16,
};

fn bits_of(samples: &[f32]) -> Vec<u32> {
    samples.iter().map(|s| s.to_bits()).collect()
}

fn bytes_of(samples: &[f32]) -> Vec<u8> {
    let mut out = Vec::new();
    for s in samples {
        out.extend_from_slice(&s.to_le_bytes());
    }
    out
}

#[test]
fn conversion_of_one() {
    assert_eq!(sample_to_i16(1.0f32.to_bits()), 32767);
}

#[test]
fn conversion_of_minus_one() {
    assert_eq!(sample_to_i16((-1.0f32).to_bits()), -32767);
}

#[test]
fn conversion_of_zero() {
    assert_eq!(sample_to_i16(0.0f32.to_bits()), 0);
    assert_eq!(sample_to_i16((-0.0f32).to_bits()), 0);
}

#[test]
fn conversion_clamps_before_scaling() {
    assert_eq!(sample_to_i16(1.5f32.to_bits()), 32767);
    assert_eq!(sample_to_i16((-2.5f32).to_bits()), -32767);
    assert_eq!(sample_to_i16(f32::INFINITY.to_bits()), 32767);
    assert_eq!(sample_to_i16(f32::NEG_INFINITY.to_bits()), -32767);
}

#[test]
fn conversion_of_interior_values() {
    assert_eq!(sample_to_i16(0.5f32.to_bits()), 16383);
    assert_eq!(sample_to_i16((-0.5f32).to_bits()), -16383);
    assert_eq!(sample_to_i16(0.25f32.to_bits()), 8191);
    for v in [0.1f32, 0.3, 0.9, -0.7, 0.001, -0.0625, 0.999] {
        let expected = (v.clamp(-1.0, 1.0) * 32767.0) as i16;
        let got = sample_to_i16(v.to_bits());
        assert!(
            (got - expected).abs() <= 1,
            "conversion of {} gave {}, formula gives {}",
            v,
            got,
            expected
        );
    }
}

#[test]
fn conversion_of_non_numbers_and_subnormals() {
    assert_eq!(sample_to_i16(f32::NAN.to_bits()), 0);
    assert_eq!(sample_to_i16(f32::from_bits(1).to_bits()), 0);
    assert_eq!(sample_to_i16(f32::MIN_POSITIVE.to_bits()), 0);
}

#[test]
fn decoding_assembles_little_endian_samples() {
    let samples = [0.5f32, -0.25, 1.0, 0.0];
    let decoded = decode_samples(&bytes_of(&samples));
    assert_eq!(decoded, bits_of(&samples));
}

#[test]
fn decoding_ignores_trailing_partial_sample() {
    let mut bytes = bytes_of(&[0.5f32]);
    bytes.extend_from_slice(&[1, 2, 3]);
    assert_eq!(decode_samples(&bytes).len(), 1);
    assert_eq!(decode_samples(&Vec::new()).len(), 0);
}

#[test]
fn batch_peak_is_largest_magnitude() {
    let peak = compute_batch_peak(&bits_of(&[0.1, -0.9, 0.5]));
    assert_eq!(f32::from_bits(peak), 0.9);
    assert_eq!(compute_batch_peak(&Vec::new()), 0);
}

#[test]
fn batch_peak_ignores_non_numbers() {
    let peak = compute_batch_peak(&bits_of(&[0.2, f32::NAN, -0.4]));
    assert_eq!(f32::from_bits(peak), 0.4);
    assert_eq!(compute_batch_peak(&bits_of(&[f32::NAN])), 0);
}

#[test]
fn abs_bits_clears_the_sign() {
    assert_eq!(abs_sample_bits((-0.5f32).to_bits()), 0.5f32.to_bits());
    assert_eq!(abs_sample_bits(0.5f32.to_bits()), 0.5f32.to_bits());
}

#[test]
fn batch_conversion_converts_each_sample() {
    let converted = convert_batch(&bits_of(&[1.0, -1.0, 0.0, 0.5, 1.5]));
    assert_eq!(converted, vec![32767, -32767, 0, 16383, 32767]);
}

#[test]
fn conversion_agrees_with_float_arithmetic_across_a_sweep() {
    // A deterministic sweep over varied bit patterns: signs, magnitudes in
    // and out of range, subnormals and non-numbers alike.  Exact
    // multiply-then-truncate may differ from rounded float arithmetic by at
    // most one step on boundary values.
    let mut x: u32 = 0x12345678;
    for _ in 0..20000 {
        x = x.wrapping_mul(1664525).wrapping_add(1013904223);
        let f = f32::from_bits(x);
        let expected = (f.clamp(-1.0, 1.0) * 32767.0) as i16;
        let got = sample_to_i16(x);
        assert!(
            (got as i32 - expected as i32).abs() <= 1,
            "conversion of bits {:08x} gave {}, float arithmetic gives {}",
            x,
            got,
            expected
        );
    }
}
