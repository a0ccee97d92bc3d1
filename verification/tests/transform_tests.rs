//! Transform service: filters, the Haar level, spectrum post-processing
//! and short-time aggregation, plus a full spectral scenario against a
//! real Fourier transform.

use rustfft::num_complex::Complex;
use rustfft::FftPlanner;
use suzu::chart::Point;
use suzu::fx::FX_SCALE;
use suzu::transform::{
    apply_fft_filter, fft_forward, haar_wavelet_transform, isqrt_u128, stft_forward,
    FftFilterType, FFT_NORM_THRESHOLD,
};

fn pts(v: &[(i64, i64)]) -> Vec<Point> {
    v.iter().map(|&(x, y)| Point::new(x, y)).collect()
}

fn xs(v: &[Point]) -> Vec<i64> {
    v.iter().map(|p| p.x).collect()
}

#[test]
fn low_pass_keeps_at_most_cutoff() {
    let data = pts(&[(1_000_000, 1), (2_000_000, 2), (3_000_000, 3)]);
    let out = apply_fft_filter(&data, FftFilterType::LowPass(2_000_000));
    assert_eq!(xs(&out), vec![1_000_000, 2_000_000]);
}

#[test]
fn high_pass_keeps_at_least_cutoff() {
    let data = pts(&[(1_000_000, 1), (2_000_000, 2), (3_000_000, 3)]);
    let out = apply_fft_filter(&data, FftFilterType::HighPass(2_000_000));
    assert_eq!(xs(&out), vec![2_000_000, 3_000_000]);
}

#[test]
fn band_pass_keeps_the_inside() {
    let data = pts(&[(1, 0), (2, 0), (3, 0), (4, 0)]);
    let out = apply_fft_filter(&data, FftFilterType::BandPass(2, 3));
    assert_eq!(xs(&out), vec![2, 3]);
}

#[test]
fn band_stop_keeps_the_outside() {
    let data = pts(&[(1, 0), (2, 0), (3, 0), (4, 0)]);
    let out = apply_fft_filter(&data, FftFilterType::BandStop(2, 3));
    assert_eq!(xs(&out), vec![1, 2, 3, 4]);
    let out = apply_fft_filter(&data, FftFilterType::BandStop(1, 4));
    assert_eq!(xs(&out), vec![1, 4]);
}

#[test]
fn haar_averages_pairs() {
    let data = pts(&[(0, 2_000_000), (1, 4_000_000), (2, 6_000_000), (3, 10_000_000)]);
    let out = haar_wavelet_transform(&data);
    assert_eq!(out.len(), 2);
    assert_eq!(out[0].x, 0);
    assert_eq!(out[0].y, 3_000_000);
    assert_eq!(out[1].x, FX_SCALE);
    assert_eq!(out[1].y, 8_000_000);
}

#[test]
fn haar_pads_a_trailing_odd_sample_with_zero() {
    let data = pts(&[(0, 2_000_000), (1, 4_000_000), (2, 6_000_000)]);
    let out = haar_wavelet_transform(&data);
    assert_eq!(out.len(), 2);
    assert_eq!(out[0].y, 3_000_000);
    assert_eq!(out[1].y, 3_000_000);
}

#[test]
fn isqrt_exact_bounds() {
    assert_eq!(isqrt_u128(0), 0);
    assert_eq!(isqrt_u128(1), 1);
    assert_eq!(isqrt_u128(3), 1);
    assert_eq!(isqrt_u128(4), 2);
    assert_eq!(isqrt_u128(99), 9);
    assert_eq!(isqrt_u128(100), 10);
    assert_eq!(isqrt_u128(1_000_000_000_000), 1_000_000);
}

#[test]
fn fft_postprocess_shifts_maps_and_thresholds() {
    // 4 bins at 4.0 Hz sample rate: per-bin resolution 1.0 Hz.
    // Natural-order bin 1 lands at shifted slot 3 = +1.0 Hz.
    let bins: Vec<(i64, i64)> = vec![(0, 0), (8_000_000, 0), (0, 0), (0, 0)];
    let out = fft_forward(&bins, 4_000_000);
    assert_eq!(out.len(), 1);
    assert_eq!(out[0].x, 1_000_000);
    // norm = 2 * |bin| / n = 2 * 8.0 / 4 = 4.0
    assert_eq!(out[0].y, 4_000_000);
}

#[test]
fn fft_postprocess_drops_negative_frequencies_and_noise() {
    // energy in natural bin 3 lands at shifted slot 1 = -1.0 Hz: dropped;
    // a magnitude under the 0.1 display threshold is dropped too
    let bins: Vec<(i64, i64)> = vec![(0, 0), (0, 0), (0, 0), (8_000_000, 0)];
    assert_eq!(fft_forward(&bins, 4_000_000).len(), 0);
    let faint: Vec<(i64, i64)> = vec![(0, 0), (100_000, 0), (0, 0), (0, 0)];
    // norm = 2*0.1/4 = 0.05 < 0.1
    assert_eq!(fft_forward(&faint, 4_000_000).len(), 0);
    assert!(FFT_NORM_THRESHOLD == 100_000);
}

#[test]
fn stft_mean_power_per_frame() {
    // frame 0: one sample of modulus 1.0 -> power 1.0; frame 1: two samples
    let frames: Vec<Vec<(i64, i64)>> = vec![
        vec![(1_000_000, 0)],
        vec![(1_000_000, 0), (0, 3_000_000)],
        vec![],
    ];
    let out = stft_forward(&frames);
    assert_eq!(out.len(), 3);
    assert_eq!(out[0].x, 0);
    assert_eq!(out[0].y, 1_000_000);
    assert_eq!(out[1].x, FX_SCALE);
    // (1.0^2 + 3.0^2) / 2 = 5.0
    assert_eq!(out[1].y, 5_000_000);
    assert_eq!(out[2].y, 0);
}

#[test]
fn sine_spectrum_peaks_at_its_frequency() {
    // a pure 10 Hz sine sampled at 64 Hz over 64 points: the one-sided
    // display spectrum must peak within one bin (1 Hz) of 10 Hz
    let n = 64usize;
    let rate_hz = 64.0f64;
    let f_hz = 10.0f64;
    let mut buffer: Vec<Complex<f64>> = (0..n)
        .map(|i| {
            let t = i as f64 / rate_hz;
            Complex::new((2.0 * std::f64::consts::PI * f_hz * t).sin(), 0.0)
        })
        .collect();
    let mut planner = FftPlanner::new();
    planner.plan_fft_forward(n).process(&mut buffer);
    let bins: Vec<(i64, i64)> = buffer
        .iter()
        .map(|c| ((c.re * 1e6) as i64, (c.im * 1e6) as i64))
        .collect();
    let out = fft_forward(&bins, (rate_hz * 1e6) as i64);
    assert!(!out.is_empty());
    let peak = out.iter().max_by_key(|p| p.y).unwrap();
    assert!(
        (peak.x - 10_000_000).abs() <= 1_000_000,
        "peak at {} millionth-Hz",
        peak.x
    );
    // an amplitude-1 sine has normalised peak magnitude about 1.0
    assert!(peak.y > 900_000 && peak.y < 1_100_000);
}
