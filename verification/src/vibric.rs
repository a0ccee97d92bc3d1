//! Decoder for the Vibric binary waveform container.
//!
//! A file is a 4-byte magic signature, twelve fixed-width little-endian
//! header fields (eight 32-bit integers and four 32-bit floats), then
//! `data_size` little-endian 32-bit float samples interleaved across
//! channels.  The caller reads the file into bytes; everything from bytes to
//! chart is decoded here.  Float fields are carried as fixed-point values:
//! the bit pattern is taken apart and scaled into millionth units, rounding
//! toward zero, saturating at the fixed-point range, with an undefined
//! (not-a-number) pattern mapped to zero.

use vstd::prelude::*;
use crate::fx::{fx_ok, fx_clamp, FX_BOUND};
use crate::chart::{ChartModel, Point, DisplayType};

verus! {

/// First byte of the magic signature (`V`).
pub const VIBRIC_MAGIC_0: u8 = 86;

/// Second byte of the magic signature (`I`).
pub const VIBRIC_MAGIC_1: u8 = 73;

/// Third byte of the magic signature (`B`).
pub const VIBRIC_MAGIC_2: u8 = 66;

/// Fourth byte of the magic signature (`R`).
pub const VIBRIC_MAGIC_3: u8 = 82;

/// Bytes in the prologue: the signature and twelve 4-byte fields.
pub const VIBRIC_HEADER_SIZE: u64 = 52;

/// The little-endian 32-bit word at offset `o`.
pub open spec fn le_u32(b: Seq<u8>, o: int) -> int
    recommends
        0 <= o,
        o + 4 <= b.len(),
{
    b[o] + 256 * b[o + 1] + 65536 * b[o + 2] + 16777216 * b[o + 3]
}

/// Read the little-endian 32-bit word at offset `o`.
pub fn read_u32(bytes: &Vec<u8>, o: usize) -> (r: u32)
    requires
        o + 4 <= bytes@.len(),
    ensures
        r as int == le_u32(bytes@, o as int),
{
    let n = bytes.len();
    assert(o + 4 <= n);
    let b0 = bytes[o] as u32;
    let b1 = bytes[o + 1] as u32;
    let b2 = bytes[o + 2] as u32;
    let b3 = bytes[o + 3] as u32;
    b0 + 256 * b1 + 65536 * b2 + 16777216 * b3
}

/// Two to the power `n`.
pub open spec fn pow2(n: int) -> int
    decreases n,
{
    if n <= 0 {
        1
    } else {
        2 * pow2(n - 1)
    }
}

proof fn lemma_pow2_pos(n: int)
    ensures
        pow2(n) >= 1,
    decreases n,
{
    if n > 0 {
        lemma_pow2_pos(n - 1);
    }
}

proof fn lemma_pow2_monotone(a: int, b: int)
    requires
        a <= b,
    ensures
        pow2(a) <= pow2(b),
    decreases b - a,
{
    lemma_pow2_pos(a);
    if a < b {
        lemma_pow2_monotone(a, b - 1);
        lemma_pow2_pos(b - 1);
    }
}

/// Two to the power `k`, for exponents a 64-bit word can hold.
fn pow2_u64(k: u32) -> (r: u64)
    requires
        k <= 63,
    ensures
        r as int == pow2(k as int),
        r >= 1,
{
    let mut r: u64 = 1;
    let mut i: u32 = 0;
    while i < k
        invariant
            0 <= i <= k <= 63,
            r as int == pow2(i as int),
            1 <= r,
        decreases k - i,
    {
        proof {
            lemma_pow2_monotone(i + 1, 63);
            assert(pow2(63) == 0x8000_0000_0000_0000) by {
                reveal_with_fuel(pow2, 64);
            }
        }
        r = r * 2;
        i = i + 1;
    }
    r
}

/// The fixed-point value (millionth units) denoted by an IEEE 32-bit float
/// bit pattern: sign, biased exponent and mantissa are taken apart, the
/// magnitude `m * 2^(e-150)` is scaled by one million rounding toward zero,
/// and the result is clamped into the fixed-point range.  An infinity
/// saturates; a not-a-number pattern denotes zero.
#[verifier::opaque]
pub open spec fn fx_of_f32_bits(bits: u32) -> int {
    let sign_neg = bits >= 0x8000_0000;
    let expo = (bits / 0x0080_0000) % 256;
    let frac = bits % 0x0080_0000;
    if expo == 255 {
        if frac != 0 {
            0
        } else if sign_neg {
            -FX_BOUND as int
        } else {
            FX_BOUND as int
        }
    } else {
        let m = if expo == 0 {
            frac as int
        } else {
            frac as int + 0x0080_0000
        };
        let e2 = (if expo == 0 {
            1int
        } else {
            expo as int
        }) - 150;
        let mag = if e2 >= 0 {
            m * 1_000_000 * pow2(e2)
        } else {
            (m * 1_000_000) / pow2(-e2)
        };
        if sign_neg {
            fx_clamp(-mag)
        } else {
            fx_clamp(mag)
        }
    }
}

/// Decode an IEEE 32-bit float bit pattern into a fixed-point value.
pub fn fx_from_f32_bits(bits: u32) -> (r: i64)
    ensures
        r as int == fx_of_f32_bits(bits),
        fx_ok(r as int),
{
    proof {
        reveal(fx_of_f32_bits);
    }
    let sign_neg = bits >= 0x8000_0000;
    let expo: u32 = (bits / 0x0080_0000) % 256;
    let frac: u32 = bits % 0x0080_0000;
    if expo == 255 {
        if frac != 0 {
            0
        } else if sign_neg {
            -FX_BOUND
        } else {
            FX_BOUND
        }
    } else {
        let m: u64 = if expo == 0 {
            frac as u64
        } else {
            frac as u64 + 0x0080_0000
        };
        let base: u64 = m * 1_000_000;
        let ghost e2 = (if expo == 0 {
            1int
        } else {
            expo as int
        }) - 150;
        let mag: u64 = if expo >= 150 {
            let k: u32 = expo - 150;
            proof {
                assert(e2 == k as int);
            }
            if k >= 20 {
                proof {
                    assert(m >= 0x0080_0000);
                    lemma_pow2_monotone(20, e2);
                    assert(pow2(20) == 0x10_0000) by {
                        reveal_with_fuel(pow2, 21);
                    }
                    assert(m * 1_000_000 * pow2(e2) > FX_BOUND as int) by (nonlinear_arith)
                        requires
                            m >= 0x0080_0000,
                            pow2(e2) >= 0x10_0000,
                            FX_BOUND == 4_611_686_018_427_387_903i64,
                    ;
                }
                0xFFFF_FFFF_FFFF_FFFFu64
            } else {
                let p = pow2_u64(k);
                proof {
                    assert(m < 0x0100_0000);
                    lemma_pow2_monotone(k as int, 19);
                    assert(pow2(19) == 0x8_0000) by {
                        reveal_with_fuel(pow2, 20);
                    }
                    assert(m * 1_000_000 * pow2(e2) < 0x0100_0000 * 1_000_000 * 0x8_0000int + 1)
                        by (nonlinear_arith)
                        requires
                            0 <= m < 0x0100_0000,
                            1 <= pow2(e2) <= 0x8_0000,
                    ;
                }
                base * p
            }
        } else {
            let k: u32 = 150 - (if expo == 0 {
                1
            } else {
                expo
            });
            proof {
                assert(e2 == -(k as int));
            }
            if k >= 44 {
                proof {
                    assert(base < 0x1000_0000_0000);
                    assert(pow2(44) == 0x1000_0000_0000) by {
                        reveal_with_fuel(pow2, 45);
                    }
                    lemma_pow2_monotone(44, k as int);
                    lemma_pow2_pos(k as int);
                    assert((m * 1_000_000) / pow2(-e2) == 0) by {
                        vstd::arithmetic::div_mod::lemma_basic_div(
                            base as int,
                            pow2(-e2),
                        );
                    }
                }
                0
            } else {
                let p = pow2_u64(k);
                let q = base / p;
                proof {
                    lemma_pow2_pos(-e2);
                }
                q
            }
        };
        let clamped: i64 = if mag > FX_BOUND as u64 {
            FX_BOUND
        } else {
            mag as i64
        };
        if sign_neg {
            -clamped
        } else {
            clamped
        }
    }
}


/// Errors a Vibric decode can raise.
#[derive(Clone, Copy, PartialEq, Eq, Structural, Debug)]
pub enum DecodeError {
    /// The magic signature did not match.
    BadSignature,
    /// The bytes end before the header or the declared samples do.
    Truncated,
    /// The requested channel is not below the channel count.
    InvalidChannel,
}

impl DecodeError {
    /// The message shown for this error.
    pub fn message(&self) -> (r: String)
        ensures
            r@ == match self {
                DecodeError::BadSignature => "Vibric file: bad signature"@,
                DecodeError::Truncated => "Vibric file: truncated data"@,
                DecodeError::InvalidChannel => "Vibric file: no such channel"@,
            },
    {
        match self {
            DecodeError::BadSignature => String::from_str("Vibric file: bad signature"),
            DecodeError::Truncated => String::from_str("Vibric file: truncated data"),
            DecodeError::InvalidChannel => String::from_str("Vibric file: no such channel"),
        }
    }
}

/// The fixed-layout record read from the file prologue.  Integer fields are
/// the file's own words; the four float fields are carried as fixed-point
/// values decoded from their bit patterns.
pub struct SignalHeader {
    pub channels: u32,
    pub sample_size: u32,
    pub spectral_lines: u32,
    pub cutoff_freq: u32,
    pub freq_resolution: i64,
    pub block_time: i64,
    pub total_time: u32,
    pub blocks_set: u32,
    pub data_size: u32,
    pub blocks_received: u32,
    pub max_value: i64,
    pub min_value: i64,
}

/// The first four bytes carry the magic signature.
pub open spec fn has_signature(b: Seq<u8>) -> bool {
    &&& b.len() >= 4
    &&& b[0] == VIBRIC_MAGIC_0
    &&& b[1] == VIBRIC_MAGIC_1
    &&& b[2] == VIBRIC_MAGIC_2
    &&& b[3] == VIBRIC_MAGIC_3
}

/// The header the prologue of `b` denotes.
pub open spec fn spec_header(b: Seq<u8>) -> SignalHeader
    recommends
        b.len() >= VIBRIC_HEADER_SIZE,
{
    SignalHeader {
        channels: le_u32(b, 4) as u32,
        sample_size: le_u32(b, 8) as u32,
        spectral_lines: le_u32(b, 12) as u32,
        cutoff_freq: le_u32(b, 16) as u32,
        freq_resolution: fx_of_f32_bits(le_u32(b, 20) as u32) as i64,
        block_time: fx_of_f32_bits(le_u32(b, 24) as u32) as i64,
        total_time: le_u32(b, 28) as u32,
        blocks_set: le_u32(b, 32) as u32,
        data_size: le_u32(b, 36) as u32,
        blocks_received: le_u32(b, 40) as u32,
        max_value: fx_of_f32_bits(le_u32(b, 44) as u32) as i64,
        min_value: fx_of_f32_bits(le_u32(b, 48) as u32) as i64,
    }
}

/// Time step between consecutive samples of one channel: the block duration
/// split over the block's samples (zero when the header declares no
/// samples per block, so a malformed header cannot divide by zero).
pub open spec fn spec_dt(h: SignalHeader) -> int {
    if h.sample_size == 0 {
        0
    } else if h.block_time >= 0 {
        h.block_time as int / h.sample_size as int
    } else {
        -((-(h.block_time as int)) / h.sample_size as int)
    }
}

/// Sample rate the header declares: frequency resolution times samples per
/// block, saturating.
pub open spec fn spec_sample_rate(h: SignalHeader) -> int {
    crate::fx::fx_mul_div_spec(h.freq_resolution as int, h.sample_size as int, 1)
}

/// How many samples of the file belong to `channel`.
pub open spec fn spec_channel_count(data_size: int, channels: int, channel: int) -> int {
    if data_size <= channel {
        0
    } else {
        (data_size - 1 - channel) / channels + 1
    }
}

/// The `k`-th point of `channel`: its time coordinate is `k` steps of `dt`
/// (saturating), its amplitude the decoded sample `channel + k * channels`.
pub open spec fn spec_channel_point(b: Seq<u8>, h: SignalHeader, channel: int, k: int) -> crate::chart::Point {
    crate::chart::Point {
        x: crate::fx::fx_mul_div_spec(spec_dt(h), k, 1) as i64,
        y: fx_of_f32_bits(
            le_u32(b, VIBRIC_HEADER_SIZE as int + 4 * (channel + k * (h.channels as int))) as u32,
        ) as i64,
    }
}

/// Read the twelve header fields that follow the signature.
pub fn read_header(bytes: &Vec<u8>) -> (h: SignalHeader)
    requires
        bytes@.len() >= VIBRIC_HEADER_SIZE,
    ensures
        h == spec_header(bytes@),
        fx_ok(h.freq_resolution as int),
        fx_ok(h.block_time as int),
        fx_ok(h.max_value as int),
        fx_ok(h.min_value as int),
{
    SignalHeader {
        channels: read_u32(bytes, 4),
        sample_size: read_u32(bytes, 8),
        spectral_lines: read_u32(bytes, 12),
        cutoff_freq: read_u32(bytes, 16),
        freq_resolution: fx_from_f32_bits(read_u32(bytes, 20)),
        block_time: fx_from_f32_bits(read_u32(bytes, 24)),
        total_time: read_u32(bytes, 28),
        blocks_set: read_u32(bytes, 32),
        data_size: read_u32(bytes, 36),
        blocks_received: read_u32(bytes, 40),
        max_value: fx_from_f32_bits(read_u32(bytes, 44)),
        min_value: fx_from_f32_bits(read_u32(bytes, 48)),
    }
}

/// Decode one channel of a Vibric file into a chart.
///
/// The bytes must open with the magic signature (`BadSignature` otherwise),
/// reach through the header and the `data_size` declared samples
/// (`Truncated` otherwise), and the channel must be below the declared
/// channel count (`InvalidChannel` otherwise); exactly then a chart is
/// returned.  Its points are the channel's samples in file order: the
/// `k`-th point sits at time `k * dt` and carries the decoded amplitude;
/// the viewport bounds are derived from the points as `ChartModel::new`
/// states.
#[verifier::rlimit(100)]
pub fn decode_vibric(bytes: &Vec<u8>, channel: usize, title: &str) -> (r: Result<
    ChartModel,
    DecodeError,
>)
    ensures
        bytes@.len() < 4 ==> r == Result::<ChartModel, DecodeError>::Err(DecodeError::Truncated),
        bytes@.len() >= 4 && !has_signature(bytes@) ==> r == Result::<ChartModel, DecodeError>::Err(
            DecodeError::BadSignature,
        ),
        has_signature(bytes@) && bytes@.len() < VIBRIC_HEADER_SIZE ==> r == Result::<
            ChartModel,
            DecodeError,
        >::Err(DecodeError::Truncated),
        has_signature(bytes@) && bytes@.len() >= VIBRIC_HEADER_SIZE && bytes@.len()
            < VIBRIC_HEADER_SIZE + 4 * (spec_header(bytes@).data_size as int) ==> r == Result::<
            ChartModel,
            DecodeError,
        >::Err(DecodeError::Truncated),
        has_signature(bytes@) && bytes@.len() >= VIBRIC_HEADER_SIZE + 4 * (spec_header(
            bytes@,
        ).data_size as int) && channel as int >= spec_header(bytes@).channels as int ==> r
            == Result::<ChartModel, DecodeError>::Err(DecodeError::InvalidChannel),
        has_signature(bytes@) && bytes@.len() >= VIBRIC_HEADER_SIZE + 4 * (spec_header(
            bytes@,
        ).data_size as int) && (channel as int) < spec_header(bytes@).channels as int ==> ({
            let h = spec_header(bytes@);
            let count = spec_channel_count(h.data_size as int, h.channels as int, channel as int);
            &&& r is Ok
            &&& r->Ok_0.wf()
            &&& r->Ok_0.data@.len() == count
            &&& forall|k: int|
                0 <= k < count ==> r->Ok_0.data@[k] == spec_channel_point(
                    bytes@,
                    h,
                    channel as int,
                    k,
                )
            &&& r->Ok_0.sample_rate as int == spec_sample_rate(h)
            &&& r->Ok_0.metadata.title@ == title@
            &&& r->Ok_0.metadata.transform == crate::chart::ChartTransform::Standard
            &&& r->Ok_0.metadata.chart_display_type == crate::chart::DisplayType::Line
            &&& r->Ok_0.x_min == crate::chart::min_x(r->Ok_0.data@)
            &&& r->Ok_0.x_max == crate::chart::max_x(r->Ok_0.data@)
            &&& r->Ok_0.y_min == fx_clamp(
                crate::chart::min_y(r->Ok_0.data@) - crate::chart::CHART_Y_MARGIN,
            )
            &&& r->Ok_0.y_max == fx_clamp(
                crate::chart::max_y(r->Ok_0.data@) + crate::chart::CHART_Y_MARGIN,
            )
        }),
{
    let n = bytes.len();
    if n < 4 {
        return Err(DecodeError::Truncated);
    }
    if !(bytes[0] == VIBRIC_MAGIC_0 && bytes[1] == VIBRIC_MAGIC_1 && bytes[2] == VIBRIC_MAGIC_2
        && bytes[3] == VIBRIC_MAGIC_3) {
        return Err(DecodeError::BadSignature);
    }
    if (n as u64) < VIBRIC_HEADER_SIZE {
        return Err(DecodeError::Truncated);
    }
    let header = read_header(bytes);
    if (n as u64) < VIBRIC_HEADER_SIZE + 4 * (header.data_size as u64) {
        return Err(DecodeError::Truncated);
    }
    if (channel as u64) >= (header.channels as u64) {
        return Err(DecodeError::InvalidChannel);
    }

    let dt: i64 = if header.sample_size == 0 {
        0
    } else {
        let neg = header.block_time < 0;
        let m: u64 = if neg {
            (-(header.block_time as i128)) as u64
        } else {
            header.block_time as u64
        };
        let q: u64 = m / (header.sample_size as u64);
        if neg {
            -(q as i64)
        } else {
            q as i64
        }
    };
    proof {
        if header.sample_size != 0 {
            let b = header.block_time as int;
            let ss = header.sample_size as int;
            let m0 = if b >= 0 {
                b
            } else {
                -b
            };
            vstd::arithmetic::div_mod::lemma_div_pos_is_pos(m0, ss);
            vstd::arithmetic::div_mod::lemma_div_nonincreasing(m0, ss);
            assert(0 <= m0 / ss <= m0);
        }
        assert(dt as int == spec_dt(header));
        assert(fx_ok(dt as int));
    }
    let sample_rate: i64 = crate::fx::fx_mul_div(header.freq_resolution, header.sample_size as i64,
        1);

    let count: u64 = if (header.data_size as u64) <= (channel as u64) {
        0
    } else {
        ((header.data_size as u64) - 1 - (channel as u64)) / (header.channels as u64) + 1
    };
    proof {
        assert(count as int == spec_channel_count(header.data_size as int, header.channels as int,
            channel as int));
    }

    let mut points: Vec<Point> = Vec::new();
    let mut k: u64 = 0;
    while k < count
        invariant
            0 <= k <= count,
            header == spec_header(bytes@),
            count as int == spec_channel_count(header.data_size as int, header.channels as int,
                channel as int),
            (channel as int) < header.channels as int,
            n == bytes@.len(),
            n as int >= VIBRIC_HEADER_SIZE + 4 * (header.data_size as int),
            dt as int == spec_dt(header),
            fx_ok(dt as int),
            points@.len() == k,
            forall|j: int|
                0 <= j < k ==> points@[j] == spec_channel_point(bytes@, header, channel as int, j),
            forall|j: int| 0 <= j < k ==> (#[trigger] points@[j]).wf(),
        decreases count - k,
    {
        proof {
            let ds = header.data_size as int;
            let ch = header.channels as int;
            let c = channel as int;
            assert(c + k * ch < ds) by (nonlinear_arith)
                requires
                    0 <= k < spec_channel_count(ds, ch, c),
                    spec_channel_count(ds, ch, c) == (ds - 1 - c) / ch + 1,
                    ds > c >= 0,
                    ch > c,
                    ch > 0,
            ;
        }
        let i: u64 = (channel as u64) + k * (header.channels as u64);
        let off: u64 = VIBRIC_HEADER_SIZE + 4 * i;
        let x: i64 = crate::fx::fx_mul_div(dt, k as i64, 1);
        let y: i64 = fx_from_f32_bits(read_u32(bytes, off as usize));
        points.push(Point { x, y });
        proof {
            assert(points@[k as int] == spec_channel_point(bytes@, header, channel as int,
                k as int));
        }
        k = k + 1;
    }

    let chart = ChartModel::new(points, DisplayType::Line, sample_rate, title, None);
    Ok(chart)
}

/// A reader for Vibric signal files.
pub struct VibricReadingClient;

impl VibricReadingClient {
    pub fn new() -> (r: VibricReadingClient) {
        VibricReadingClient
    }
}

/// A parser from the bytes of a signal file to a chart; the caller reads
/// the file and names the chart (usually after the file's stem).
pub trait FileReadOnly {
    /// Decode `channel` of the signal file whose content is `bytes`.
    fn parse_signal_file(&self, bytes: &Vec<u8>, channel: usize, title: &str) -> Result<
        ChartModel,
        DecodeError,
    >;
}

impl FileReadOnly for VibricReadingClient {
    fn parse_signal_file(&self, bytes: &Vec<u8>, channel: usize, title: &str) -> Result<
        ChartModel,
        DecodeError,
    > {
        decode_vibric(bytes, channel, title)
    }
}

} // verus!
