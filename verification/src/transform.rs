//! Transform service: pure functions from one chart's samples to a new
//! chart's samples — band filters, single-level Haar wavelet, spectrum
//! post-processing and short-time spectrum aggregation.
//!
//! Everything here works on fixed-point values; the raw spectra that a
//! Fourier transform produces are handed in as argument data, so each
//! function's result is pinned for every input.

use vstd::prelude::*;
use crate::chart::Point;
use crate::fx::{fx_ok, fx_clamp, fx_mul_div_spec, fx_mul_div, FX_BOUND};

verus! {

/// A frequency-domain band filter with its fixed-point cutoffs.
#[derive(Clone, Copy, PartialEq, Eq, Structural, Debug)]
pub enum FftFilterType {
    LowPass(i64),
    HighPass(i64),
    BandPass(i64, i64),
    BandStop(i64, i64),
}

/// Whether the filter keeps a point at frequency `x`.
pub open spec fn filter_keeps(f: FftFilterType, x: int) -> bool {
    match f {
        FftFilterType::LowPass(c) => x <= c,
        FftFilterType::HighPass(c) => x >= c,
        FftFilterType::BandPass(lo, hi) => lo <= x && x <= hi,
        FftFilterType::BandStop(lo, hi) => x <= lo || x >= hi,
    }
}

/// The subsequence of `s` the filter keeps, in order.
pub open spec fn spec_filter(s: Seq<Point>, f: FftFilterType) -> Seq<Point>
    decreases s.len(),
{
    if s.len() == 0 {
        Seq::<Point>::empty()
    } else if filter_keeps(f, s.last().x as int) {
        spec_filter(s.drop_last(), f).push(s.last())
    } else {
        spec_filter(s.drop_last(), f)
    }
}

/// Keep exactly the points whose frequency (their `x`) passes the filter.
pub fn apply_fft_filter(points: &Vec<Point>, filter: FftFilterType) -> (r: Vec<Point>)
    ensures
        r@ == spec_filter(points@, filter),
{
    let mut out: Vec<Point> = Vec::new();
    let n = points.len();
    let mut i: usize = 0;
    while i < n
        invariant
            0 <= i <= n,
            n == points@.len(),
            out@ == spec_filter(points@.take(i as int), filter),
        decreases n - i,
    {
        let p = points[i];
        let keep = match filter {
            FftFilterType::LowPass(c) => p.x <= c,
            FftFilterType::HighPass(c) => p.x >= c,
            FftFilterType::BandPass(lo, hi) => lo <= p.x && p.x <= hi,
            FftFilterType::BandStop(lo, hi) => p.x <= lo || p.x >= hi,
        };
        if keep {
            out.push(p);
        }
        proof {
            assert(points@.take(i + 1).drop_last() =~= points@.take(i as int));
            assert(points@.take(i + 1).last() == points@[i as int]);
        }
        i = i + 1;
    }
    proof {
        assert(points@.take(n as int) =~= points@);
    }
    out
}

/// Mean of two fixed-point values, rounded toward zero.
pub open spec fn spec_pair_avg(a: int, b: int) -> int {
    if a + b >= 0 {
        (a + b) / 2
    } else {
        -((-(a + b)) / 2)
    }
}

/// The approximation coefficients of one forward Haar level over the
/// amplitudes `y`: the `i`-th is the mean of samples `2i` and `2i + 1`,
/// with a trailing odd sample paired with zero.  Their count is the input
/// length halved, rounded up.
pub open spec fn spec_haar_approx(y: Seq<int>, i: int) -> int
    recommends
        0 <= i,
        2 * i < y.len(),
{
    if 2 * i + 1 < y.len() {
        spec_pair_avg(y[2 * i], y[2 * i + 1])
    } else {
        spec_pair_avg(y[2 * i], 0)
    }
}

/// The amplitudes of a point sequence.
pub open spec fn spec_ys(points: Seq<Point>) -> Seq<int> {
    points.map(|i: int, p: Point| p.y as int)
}

/// Single-level forward Haar decomposition of the amplitudes of `points`:
/// the result holds the approximation (low-pass) coefficients, one point
/// per input pair, at whole-unit x positions 0, 1, 2, ...; the detail
/// coefficients are not surfaced.
pub fn haar_wavelet_transform(points: &Vec<Point>) -> (r: Vec<Point>)
    requires
        forall|i: int| 0 <= i < points@.len() ==> (#[trigger] points@[i]).wf(),
    ensures
        r@.len() == (points@.len() + 1) / 2,
        forall|i: int|
            0 <= i < r@.len() ==> (#[trigger] r@[i]).x as int == fx_mul_div_spec(
                crate::fx::FX_SCALE as int,
                i,
                1,
            ) && r@[i].y as int == spec_haar_approx(spec_ys(points@), i),
        forall|i: int| 0 <= i < r@.len() ==> (#[trigger] r@[i]).wf(),
{
    let n = points.len();
    let count = n / 2 + n % 2;
    let mut out: Vec<Point> = Vec::new();
    let mut i: usize = 0;
    proof {
        assert(count as int == (points@.len() + 1) / 2);
    }
    while i < count
        invariant
            0 <= i <= count,
            n == points@.len(),
            count == n / 2 + n % 2,
            count as int == (points@.len() + 1) / 2,
            forall|j: int| 0 <= j < points@.len() ==> (#[trigger] points@[j]).wf(),
            out@.len() == i,
            forall|j: int|
                0 <= j < i ==> (#[trigger] out@[j]).x as int == fx_mul_div_spec(
                    crate::fx::FX_SCALE as int,
                    j,
                    1,
                ) && out@[j].y as int == spec_haar_approx(spec_ys(points@), j),
            forall|j: int| 0 <= j < i ==> (#[trigger] out@[j]).wf(),
        decreases count - i,
    {
        let a: i64 = points[2 * i].y;
        let b: i64 = if 2 * i + 1 < n {
            points[2 * i + 1].y
        } else {
            0
        };
        let s: i64 = a + b;
        let avg: i64 = if s >= 0 {
            ((s as u64) / 2) as i64
        } else {
            -((((-(s as i128)) as u64) / 2) as i64)
        };
        let x: i64 = fx_mul_div(crate::fx::FX_SCALE, i as i64, 1);
        proof {
            assert(avg as int == spec_haar_approx(spec_ys(points@), i as int));
            assert(fx_ok(avg as int));
        }
        out.push(Point { x, y: avg });
        i = i + 1;
    }
    out
}


/// Integer square root: the greatest `m` whose square is at most `x`
/// (computed by quartering, so it is well-founded for every `x`).
pub open spec fn spec_isqrt(x: int) -> int
    decreases x,
{
    if x < 1 {
        0
    } else {
        let s = 2 * spec_isqrt(x / 4);
        if (s + 1) * (s + 1) <= x {
            s + 1
        } else {
            s
        }
    }
}

/// `spec_isqrt` is characterised by the two square bounds.
pub proof fn lemma_isqrt_bounds(x: int)
    requires
        x >= 0,
    ensures
        0 <= spec_isqrt(x),
        spec_isqrt(x) * spec_isqrt(x) <= x,
        x < (spec_isqrt(x) + 1) * (spec_isqrt(x) + 1),
    decreases x,
{
    if x >= 1 {
        lemma_isqrt_bounds(x / 4);
        let s0 = spec_isqrt(x / 4);
        let s = 2 * s0;
        assert(4 * (x / 4) <= x && x <= 4 * (x / 4) + 3);
        assert(s * s <= x) by (nonlinear_arith)
            requires
                s == 2 * s0,
                s0 * s0 <= x / 4,
                4 * (x / 4) <= x,
        ;
        assert(x < (s + 2) * (s + 2)) by (nonlinear_arith)
            requires
                s == 2 * s0,
                x / 4 < (s0 + 1) * (s0 + 1),
                x <= 4 * (x / 4) + 3,
        ;
        if (s + 1) * (s + 1) <= x {
            assert(spec_isqrt(x) == s + 1);
        } else {
            assert(spec_isqrt(x) == s);
        }
    }
}

/// Two numbers within the same pair of square bounds are equal.
proof fn lemma_isqrt_unique(x: int, a: int, b: int)
    requires
        0 <= a,
        0 <= b,
        a * a <= x < (a + 1) * (a + 1),
        b * b <= x < (b + 1) * (b + 1),
    ensures
        a == b,
{
    assert(a == b) by (nonlinear_arith)
        requires
            0 <= a,
            0 <= b,
            a * a <= x < (a + 1) * (a + 1),
            b * b <= x < (b + 1) * (b + 1),
    ;
}

/// Integer square root of a 128-bit value below `2^126`.
pub fn isqrt_u128(x: u128) -> (r: u64)
    requires
        x < 0x4000_0000_0000_0000_0000_0000_0000_0000u128,
    ensures
        r as int == spec_isqrt(x as int),
{
    let mut lo: u64 = 0;
    let mut hi: u64 = 0x8000_0000_0000_0000;
    proof {
        assert((hi as int) * (hi as int) == 0x4000_0000_0000_0000_0000_0000_0000_0000int);
    }
    while hi - lo > 1
        invariant
            lo < hi <= 0x8000_0000_0000_0000,
            (lo as int) * (lo as int) <= x as int,
            (x as int) < (hi as int) * (hi as int),
        decreases hi - lo,
    {
        let mid: u64 = lo + (hi - lo) / 2;
        proof {
            assert((mid as int) * (mid as int) <= 0x4000_0000_0000_0000_0000_0000_0000_0000int)
                by (nonlinear_arith)
                requires
                    0 <= mid as int <= 0x8000_0000_0000_0000int,
            ;
        }
        let sq: u128 = (mid as u128) * (mid as u128);
        if sq <= x {
            lo = mid;
        } else {
            hi = mid;
        }
    }
    proof {
        lemma_isqrt_bounds(x as int);
        lemma_isqrt_unique(x as int, lo as int, spec_isqrt(x as int));
    }
    lo
}

/// The spectrum bin that lands at position `k` after the center shift that
/// orders bins by ascending signed frequency: the upper half comes first,
/// then the lower half; with an odd bin count the last slot is left empty.
pub open spec fn spec_shifted_bin(b: Seq<(i64, i64)>, k: int) -> (i64, i64) {
    let half = b.len() as int / 2;
    if k < half {
        b[k + half]
    } else if k < 2 * half {
        b[k - half]
    } else {
        (0i64, 0i64)
    }
}

/// Magnitude of one spectrum bin, normalised for a one-sided display
/// spectrum: twice its modulus over the bin count, clamped; components are
/// first clamped into the fixed-point range.
pub open spec fn spec_bin_norm(re: int, im: int, n: int) -> int
    recommends
        n > 0,
{
    let cr = fx_clamp(re);
    let ci = fx_clamp(im);
    fx_clamp(2 * spec_isqrt(cr * cr + ci * ci) / n)
}

/// Frequency of shifted bin `k`: `(k - n/2)` steps of the per-bin
/// resolution, saturating.
pub open spec fn spec_bin_freq(freq_res: int, n: int, k: int) -> int {
    fx_mul_div_spec(freq_res, k - n / 2, 1)
}

/// Per-bin frequency resolution: the sample rate split over the bins; zero
/// guards an empty spectrum or a nonsensical (non-positive) rate.
pub open spec fn spec_freq_res(sample_rate: int, n: int) -> int {
    if n <= 0 || sample_rate <= 0 {
        0
    } else {
        sample_rate / n
    }
}

/// The displayed spectrum points among the first `k` shifted bins: one
/// point per bin at non-negative frequency whose normalised magnitude
/// reaches the display threshold.
pub open spec fn spec_fft_points(b: Seq<(i64, i64)>, freq_res: int, k: int) -> Seq<Point>
    decreases k,
{
    let n = b.len() as int;
    if k <= 0 || n <= 0 {
        Seq::<Point>::empty()
    } else {
        let prev = spec_fft_points(b, freq_res, k - 1);
        let bin = spec_shifted_bin(b, k - 1);
        let freq = spec_bin_freq(freq_res, n, k - 1);
        let norm = spec_bin_norm(bin.0 as int, bin.1 as int, n);
        if freq >= 0 && norm >= FFT_NORM_THRESHOLD {
            prev.push(Point { x: freq as i64, y: norm as i64 })
        } else {
            prev
        }
    }
}

/// Smallest normalised magnitude the one-sided display spectrum keeps
/// (0.1 in whole units).
pub const FFT_NORM_THRESHOLD: i64 = 100_000;

/// Post-process a raw complex spectrum (fixed-point re/im pairs, natural
/// bin order) into display points: center-shift, map bins to signed
/// frequencies, normalise magnitudes, and keep only non-negative
/// frequencies of visible magnitude.
pub fn fft_forward(bins: &Vec<(i64, i64)>, sample_rate: i64) -> (r: Vec<Point>)
    ensures
        r@ == spec_fft_points(bins@, spec_freq_res(sample_rate as int, bins@.len() as int),
            bins@.len() as int),
        forall|i: int| 0 <= i < r@.len() ==> (#[trigger] r@[i]).wf(),
{
    let n = bins.len();
    if n == 0 {
        let out: Vec<Point> = Vec::new();
        return out;
    }
    let freq_res: i64 = if sample_rate <= 0 {
        0
    } else {
        ((sample_rate as u64) / (n as u64)) as i64
    };
    proof {
        assert(freq_res as int == spec_freq_res(sample_rate as int, n as int));
    }
    let half = n / 2;
    let mut out: Vec<Point> = Vec::new();
    let mut k: usize = 0;
    while k < n
        invariant
            0 <= k <= n,
            n == bins@.len(),
            n > 0,
            half == n / 2,
            freq_res as int == spec_freq_res(sample_rate as int, n as int),
            0 <= freq_res,
            out@ == spec_fft_points(bins@, freq_res as int, k as int),
            forall|i: int| 0 <= i < out@.len() ==> (#[trigger] out@[i]).wf(),
        decreases n - k,
    {
        let bin: (i64, i64) = if k < half {
            bins[k + half]
        } else if k < 2 * half {
            bins[k - half]
        } else {
            (0i64, 0i64)
        };
        proof {
            assert(bin == spec_shifted_bin(bins@, k as int));
        }
        let freq: i64 = if k >= half {
            let d: u64 = (k - half) as u64;
            proof {
                assert((freq_res as int) * (d as int) < 0x8000_0000_0000_0000_0000_0000_0000_0000int)
                    by (nonlinear_arith)
                    requires
                        0 <= freq_res as int,
                        (freq_res as int) < 0x8000_0000_0000_0000int,
                        0 <= d as int,
                        (d as int) < 0x1_0000_0000_0000_0000int,
                ;
            }
            let mag: u128 = (freq_res as u128) * (d as u128);
            if mag > FX_BOUND as u128 {
                FX_BOUND
            } else {
                mag as i64
            }
        } else {
            let d: u64 = (half - k) as u64;
            proof {
                assert((freq_res as int) * (d as int) < 0x8000_0000_0000_0000_0000_0000_0000_0000int)
                    by (nonlinear_arith)
                    requires
                        0 <= freq_res as int,
                        (freq_res as int) < 0x8000_0000_0000_0000int,
                        0 <= d as int,
                        (d as int) < 0x1_0000_0000_0000_0000int,
                ;
            }
            let mag: u128 = (freq_res as u128) * (d as u128);
            if mag > FX_BOUND as u128 {
                -FX_BOUND
            } else {
                -(mag as i64)
            }
        };
        proof {
            let a = freq_res as int;
            let diff = k as int - (n as int) / 2;
            crate::fx::lemma_fx_mul_div_one(a, diff);
            if k >= half {
                assert(a * diff == a * (k as int - half as int)) by (nonlinear_arith)
                    requires
                        diff == k as int - half as int,
                ;
            } else {
                assert(a * diff == -(a * (half as int - k as int))) by (nonlinear_arith)
                    requires
                        diff == k as int - half as int,
                ;
            }
            assert(freq as int == spec_bin_freq(freq_res as int, n as int, k as int));
        }
        let cr: i64 = if bin.0 > FX_BOUND {
            FX_BOUND
        } else if bin.0 < -FX_BOUND {
            -FX_BOUND
        } else {
            bin.0
        };
        let ci: i64 = if bin.1 > FX_BOUND {
            FX_BOUND
        } else if bin.1 < -FX_BOUND {
            -FX_BOUND
        } else {
            bin.1
        };
        let re: i128 = cr as i128;
        let im: i128 = ci as i128;
        proof {
            assert(re * re + im * im < 0x4000_0000_0000_0000_0000_0000_0000_0000int
                && re * re >= 0 && im * im >= 0) by (nonlinear_arith)
                requires
                    -0x4000_0000_0000_0000int <= re <= 0x4000_0000_0000_0000int,
                    -0x4000_0000_0000_0000int <= im <= 0x4000_0000_0000_0000int,
            ;
        }
        let sq: u128 = (re * re) as u128 + (im * im) as u128;
        let modulus: u64 = isqrt_u128(sq);
        let doubled: u128 = 2 * (modulus as u128) / (n as u128);
        let norm: i64 = if doubled > FX_BOUND as u128 {
            FX_BOUND
        } else {
            doubled as i64
        };
        proof {
            lemma_isqrt_bounds(sq as int);
            assert(norm as int == spec_bin_norm(bin.0 as int, bin.1 as int, n as int));
        }
        if freq >= 0 && norm >= FFT_NORM_THRESHOLD {
            out.push(Point { x: freq, y: norm });
        }
        k = k + 1;
    }
    out
}


/// Power of one fixed-point complex sample: the squared modulus scaled
/// back into millionth units, components and result clamped.
pub open spec fn spec_power(re: int, im: int) -> int {
    let cr = fx_clamp(re);
    let ci = fx_clamp(im);
    fx_clamp((cr * cr + ci * ci) / (crate::fx::FX_SCALE as int))
}

/// Saturating sum of the powers of a frame's samples.
pub open spec fn spec_power_sum(f: Seq<(i64, i64)>) -> int
    decreases f.len(),
{
    if f.len() == 0 {
        0
    } else {
        fx_clamp(spec_power_sum(f.drop_last()) + spec_power(f.last().0 as int, f.last().1 as int))
    }
}

/// Each power is non-negative, so the saturating sum is too.
proof fn lemma_power_sum_nonneg(f: Seq<(i64, i64)>)
    ensures
        0 <= spec_power_sum(f) <= FX_BOUND as int,
    decreases f.len(),
{
    if f.len() > 0 {
        lemma_power_sum_nonneg(f.drop_last());
        let re = f.last().0 as int;
        let im = f.last().1 as int;
        let cr = fx_clamp(re);
        let ci = fx_clamp(im);
        assert(cr * cr >= 0 && ci * ci >= 0) by (nonlinear_arith);
        vstd::arithmetic::div_mod::lemma_div_pos_is_pos(cr * cr + ci * ci,
            crate::fx::FX_SCALE as int);
    }
}

/// Mean power of one frame: the saturating power sum split over the
/// frame's samples; an empty frame has zero power.
pub open spec fn spec_frame_power(f: Seq<(i64, i64)>) -> int {
    if f.len() == 0 {
        0
    } else {
        spec_power_sum(f) / f.len() as int
    }
}

/// Aggregate per-frame spectra (fixed-point re/im pairs) into one point
/// per frame: x is the frame index in whole units, y the frame's mean
/// power.
pub fn stft_forward(frames: &Vec<Vec<(i64, i64)>>) -> (r: Vec<Point>)
    ensures
        r@.len() == frames@.len(),
        forall|t: int|
            0 <= t < r@.len() ==> (#[trigger] r@[t]).x as int == fx_clamp(
                (crate::fx::FX_SCALE as int) * t,
            ) && r@[t].y as int == spec_frame_power(frames@[t]@),
        forall|t: int| 0 <= t < r@.len() ==> (#[trigger] r@[t]).wf(),
{
    let n = frames.len();
    let mut out: Vec<Point> = Vec::new();
    let mut t: usize = 0;
    while t < n
        invariant
            0 <= t <= n,
            n == frames@.len(),
            out@.len() == t,
            forall|j: int|
                0 <= j < t ==> (#[trigger] out@[j]).x as int == fx_clamp(
                    (crate::fx::FX_SCALE as int) * j,
                ) && out@[j].y as int == spec_frame_power(frames@[j]@),
            forall|j: int| 0 <= j < t ==> (#[trigger] out@[j]).wf(),
        decreases n - t,
    {
        let frame: &Vec<(i64, i64)> = &frames[t];
        let flen = frame.len();
        let mut acc: i64 = 0;
        let mut i: usize = 0;
        proof {
            lemma_power_sum_nonneg(frame@.take(0));
        }
        while i < flen
            invariant
                0 <= i <= flen,
                flen == frame@.len(),
                acc as int == spec_power_sum(frame@.take(i as int)),
                0 <= acc <= FX_BOUND,
            decreases flen - i,
        {
            let c = frame[i];
            let cr: i64 = if c.0 > FX_BOUND {
                FX_BOUND
            } else if c.0 < -FX_BOUND {
                -FX_BOUND
            } else {
                c.0
            };
            let ci: i64 = if c.1 > FX_BOUND {
                FX_BOUND
            } else if c.1 < -FX_BOUND {
                -FX_BOUND
            } else {
                c.1
            };
            let re: i128 = cr as i128;
            let im: i128 = ci as i128;
            proof {
                assert(re * re + im * im < 0x4000_0000_0000_0000_0000_0000_0000_0000int
                    && re * re >= 0 && im * im >= 0) by (nonlinear_arith)
                    requires
                        -0x4000_0000_0000_0000int <= re <= 0x4000_0000_0000_0000int,
                        -0x4000_0000_0000_0000int <= im <= 0x4000_0000_0000_0000int,
                ;
            }
            let sq: u128 = (re * re) as u128 + (im * im) as u128;
            let scaled: u128 = sq / 1_000_000u128;
            let p: i64 = if scaled > FX_BOUND as u128 {
                FX_BOUND
            } else {
                scaled as i64
            };
            proof {
                assert(p as int == spec_power(c.0 as int, c.1 as int));
                assert(frame@.take(i + 1).drop_last() =~= frame@.take(i as int));
                assert(frame@.take(i + 1).last() == frame@[i as int]);
            }
            acc = crate::fx::fx_add(acc, p);
            i = i + 1;
        }
        proof {
            assert(frame@.take(flen as int) =~= frame@);
        }
        let y: i64 = if flen == 0 {
            0
        } else {
            ((acc as u64) / (flen as u64)) as i64
        };
        proof {
            if flen > 0 {
                vstd::arithmetic::div_mod::lemma_div_pos_is_pos(acc as int, flen as int);
                vstd::arithmetic::div_mod::lemma_div_nonincreasing(acc as int, flen as int);
            }
            assert(y as int == spec_frame_power(frame@));
        }
        let mag: u128 = 1_000_000u128 * (t as u128);
        let x: i64 = if mag > FX_BOUND as u128 {
            FX_BOUND
        } else {
            mag as i64
        };
        proof {
            assert(x as int == fx_clamp((crate::fx::FX_SCALE as int) * (t as int)));
        }
        out.push(Point { x, y });
        t = t + 1;
    }
    out
}

/// Number of short-time frames over `n` samples with hop `hop`: the count
/// of hops that cover the signal, `n / hop` rounded up.
pub fn stft_frame_count(n: usize, hop: usize) -> (r: usize)
    requires
        hop > 0,
    ensures
        r as int == (n as int + hop as int - 1) / (hop as int),
{
    let q = n / hop;
    let rem = n % hop;
    proof {
        vstd::arithmetic::div_mod::lemma_fundamental_div_mod(n as int, hop as int);
        assert(n as int == (hop as int) * (q as int) + rem as int);
        if rem == 0 {
            assert(n as int + hop as int - 1 == (hop as int) * (q as int) + (hop as int - 1));
            vstd::arithmetic::div_mod::lemma_fundamental_div_mod_converse(
                n as int + hop as int - 1,
                hop as int,
                q as int,
                hop as int - 1,
            );
        } else {
            assert((hop as int) * (q as int + 1) == (hop as int) * (q as int) + hop as int)
                by (nonlinear_arith);
            assert(n as int + hop as int - 1 == (hop as int) * (q as int + 1) + (rem as int - 1));
            if hop >= 2 {
                vstd::arithmetic::div_mod::lemma_div_is_ordered_by_denominator(n as int, 2,
                    hop as int);
                vstd::arithmetic::div_mod::lemma_div_nonincreasing(n as int, 2);
            }
            assert(q < usize::MAX);
            vstd::arithmetic::div_mod::lemma_fundamental_div_mod_converse(
                n as int + hop as int - 1,
                hop as int,
                q as int + 1,
                rem as int - 1,
            );
        }
    }
    if rem == 0 {
        q
    } else {
        q + 1
    }
}

} // verus!
