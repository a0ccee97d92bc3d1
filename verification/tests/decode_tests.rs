//! Vibric decoding: the header layout, channel de-interleaving, the time
//! axis, and each rejection.

use suzu::vibric::{decode_vibric, fx_from_f32_bits, read_u32, DecodeError};
use suzu::fx::FX_BOUND;

fn err_of(r: Result<suzu::chart::ChartModel, DecodeError>) -> DecodeError {
    match r {
        Err(e) => e,
        Ok(_) => panic!("expected a decode error"),
    }
}

fn push_u32(b: &mut Vec<u8>, v: u32) {
    b.extend_from_slice(&v.to_le_bytes());
}

fn push_f32(b: &mut Vec<u8>, v: f32) {
    b.extend_from_slice(&v.to_bits().to_le_bytes());
}

/// A minimal file: 2 channels, 4 samples per block, 1 s blocks, 8 samples.
fn minimal_file(samples: &[f32]) -> Vec<u8> {
    let mut b = vec![86u8, 73, 66, 82]; // magic
    push_u32(&mut b, 2); // channels
    push_u32(&mut b, 4); // sample_size
    push_u32(&mut b, 0); // spectral_lines
    push_u32(&mut b, 0); // cutoff_freq
    push_f32(&mut b, 2.0); // freq_resolution
    push_f32(&mut b, 1.0); // block_time
    push_u32(&mut b, 0); // total_time
    push_u32(&mut b, 0); // blocks_set
    push_u32(&mut b, samples.len() as u32); // data_size
    push_u32(&mut b, 0); // blocks_received
    push_f32(&mut b, 1.0); // max_value
    push_f32(&mut b, -1.0); // min_value
    for &s in samples {
        push_f32(&mut b, s);
    }
    b
}

#[test]
fn round_trip_decodes_one_channel_on_a_time_grid() {
    let samples = [0.5f32, -0.5, 1.0, 2.0, -1.5, 0.25, 3.0, 0.0];
    let bytes = minimal_file(&samples);
    let chart = decode_vibric(&bytes, 0, "rec").unwrap();
    // 8 samples over 2 channels: 4 points, x stepping block_time/sample_size
    assert_eq!(chart.data.len(), 4);
    let dt = 250_000i64; // 1.0 s / 4 samples, in millionths
    for (k, p) in chart.data.iter().enumerate() {
        assert_eq!(p.x, k as i64 * dt);
    }
    // channel 0 takes the even-indexed samples
    assert_eq!(chart.data[0].y, 500_000);
    assert_eq!(chart.data[1].y, 1_000_000);
    assert_eq!(chart.data[2].y, -1_500_000);
    assert_eq!(chart.data[3].y, 3_000_000);
    // sample rate: freq_resolution * sample_size = 2.0 * 4
    assert_eq!(chart.sample_rate, 8_000_000);
    assert_eq!(chart.metadata.title, "rec");
}

#[test]
fn second_channel_takes_the_odd_samples() {
    let samples = [0.5f32, -0.5, 1.0, 2.0, -1.5, 0.25, 3.0, 0.0];
    let bytes = minimal_file(&samples);
    let chart = decode_vibric(&bytes, 1, "rec").unwrap();
    assert_eq!(chart.data.len(), 4);
    assert_eq!(chart.data[0].y, -500_000);
    assert_eq!(chart.data[1].y, 2_000_000);
    assert_eq!(chart.data[2].y, 250_000);
    assert_eq!(chart.data[3].y, 0);
}

#[test]
fn bad_signature_is_rejected_first() {
    let mut bytes = minimal_file(&[0.0f32; 8]);
    bytes[0] = 88;
    assert_eq!(err_of(decode_vibric(&bytes, 0, "t")), DecodeError::BadSignature);
}

#[test]
fn truncation_is_rejected() {
    // too short for the signature
    assert_eq!(err_of(decode_vibric(&vec![86u8, 73], 0, "t")), DecodeError::Truncated);
    // header truncated
    let bytes = minimal_file(&[0.0f32; 8]);
    let short = bytes[..40].to_vec();
    assert_eq!(err_of(decode_vibric(&short, 0, "t")), DecodeError::Truncated);
    // samples truncated
    let short = bytes[..bytes.len() - 4].to_vec();
    assert_eq!(err_of(decode_vibric(&short, 0, "t")), DecodeError::Truncated);
}

#[test]
fn out_of_range_channel_is_rejected() {
    let bytes = minimal_file(&[0.0f32; 8]);
    assert_eq!(err_of(decode_vibric(&bytes, 2, "t")), DecodeError::InvalidChannel);
    assert_eq!(err_of(decode_vibric(&bytes, 9, "t")), DecodeError::InvalidChannel);
}

#[test]
fn decode_error_messages() {
    assert_eq!(DecodeError::BadSignature.message(), "Vibric file: bad signature");
    assert_eq!(DecodeError::Truncated.message(), "Vibric file: truncated data");
    assert_eq!(DecodeError::InvalidChannel.message(), "Vibric file: no such channel");
}

#[test]
fn read_u32_is_little_endian() {
    let bytes = vec![0x78u8, 0x56, 0x34, 0x12, 0xFF];
    assert_eq!(read_u32(&bytes, 0), 0x1234_5678);
    assert_eq!(read_u32(&bytes, 1), 0xFF12_3456);
}

#[test]
fn float_bits_decode_into_millionths() {
    assert_eq!(fx_from_f32_bits(1.0f32.to_bits()), 1_000_000);
    assert_eq!(fx_from_f32_bits((-2.5f32).to_bits()), -2_500_000);
    assert_eq!(fx_from_f32_bits(0.0f32.to_bits()), 0);
    assert_eq!(fx_from_f32_bits((-0.0f32).to_bits()), 0);
    assert_eq!(fx_from_f32_bits(0.125f32.to_bits()), 125_000);
    // truncation toward zero below the millionth grain
    assert_eq!(fx_from_f32_bits(1.5e-7f32.to_bits()), 0);
    // saturation and undefined patterns
    assert_eq!(fx_from_f32_bits(f32::INFINITY.to_bits()), FX_BOUND);
    assert_eq!(fx_from_f32_bits(f32::NEG_INFINITY.to_bits()), -FX_BOUND);
    assert_eq!(fx_from_f32_bits(f32::NAN.to_bits()), 0);
    assert_eq!(fx_from_f32_bits(f32::MAX.to_bits()), FX_BOUND);
}
