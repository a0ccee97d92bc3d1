//! Chart model: points, viewport bounds and display metadata.

use vstd::prelude::*;
use crate::fx::{fx_ok, fx_clamp, FX_BOUND};

verus! {

/// Additive margin put above and below the data when initial Y bounds are
/// computed (0.07 in whole units).
pub const CHART_Y_MARGIN: i64 = 70_000;

/// One sample of a displayable series: `x` is time or frequency, `y` is
/// amplitude or magnitude, both in fixed-point units.
#[derive(Clone, Copy, PartialEq, Eq, Structural, Debug)]
pub struct Point {
    pub x: i64,
    pub y: i64,
}

impl Point {
    pub open spec fn wf(self) -> bool {
        fx_ok(self.x as int) && fx_ok(self.y as int)
    }

    pub fn new(x: i64, y: i64) -> (p: Point)
        requires
            fx_ok(x as int),
            fx_ok(y as int),
        ensures
            p.x == x,
            p.y == y,
            p.wf(),
    {
        Point { x, y }
    }
}

/// How a chart is drawn.
#[derive(Clone, Copy, PartialEq, Eq, Structural, Debug)]
pub enum DisplayType {
    Line,
    Scatter,
    Bar,
}

/// Which derivation produced a chart.
#[derive(Clone, Copy, PartialEq, Eq, Structural, Debug)]
pub enum ChartTransform {
    Standard,
    Fft,
    Stft,
    WaveletHaar,
    Filtered,
}

impl ChartTransform {
    /// The label shown for this derivation.
    pub fn label(&self) -> (r: String)
        ensures
            r@ == match *self {
                ChartTransform::Standard => "Standard"@,
                ChartTransform::Fft => "FFT"@,
                ChartTransform::Stft => "STFT"@,
                ChartTransform::WaveletHaar => "Haar"@,
                ChartTransform::Filtered => "Filtered"@,
            },
    {
        match *self {
            ChartTransform::Standard => String::from_str("Standard"),
            ChartTransform::Fft => String::from_str("FFT"),
            ChartTransform::Stft => String::from_str("STFT"),
            ChartTransform::WaveletHaar => String::from_str("Haar"),
            ChartTransform::Filtered => String::from_str("Filtered"),
        }
    }
}

/// Title, derivation kind and display style of a chart.
pub struct ChartMetadata {
    pub title: String,
    pub transform: ChartTransform,
    pub chart_display_type: DisplayType,
}

impl ChartMetadata {
    pub fn new(
        title: &str,
        transform: Option<ChartTransform>,
        chart_display_type: DisplayType,
    ) -> (r: ChartMetadata)
        ensures
            r.title@ == title@,
            r.transform == transform.unwrap_or(ChartTransform::Standard),
            r.chart_display_type == chart_display_type,
    {
        let t = match transform {
            Some(t) => t,
            None => ChartTransform::Standard,
        };
        ChartMetadata { title: String::from_str(title), transform: t, chart_display_type }
    }

    /// The description listed beside the title: the derivation's label.
    pub fn description(&self) -> (r: String)
        ensures
            r@ == match self.transform {
                ChartTransform::Standard => "Standard"@,
                ChartTransform::Fft => "FFT"@,
                ChartTransform::Stft => "STFT"@,
                ChartTransform::WaveletHaar => "Haar"@,
                ChartTransform::Filtered => "Filtered"@,
            },
    {
        self.transform.label()
    }
}

/// Least `x` among the points of `s`, or 0 when `s` is empty.
pub open spec fn min_x(s: Seq<Point>) -> int
    decreases s.len(),
{
    if s.len() == 0 {
        0
    } else if s.len() == 1 {
        s[0].x as int
    } else {
        let rest = min_x(s.drop_first());
        if s[0].x as int <= rest {
            s[0].x as int
        } else {
            rest
        }
    }
}

/// Greatest `x` among the points of `s`, or 0 when `s` is empty.
pub open spec fn max_x(s: Seq<Point>) -> int
    decreases s.len(),
{
    if s.len() == 0 {
        0
    } else if s.len() == 1 {
        s[0].x as int
    } else {
        let rest = max_x(s.drop_first());
        if s[0].x as int >= rest {
            s[0].x as int
        } else {
            rest
        }
    }
}

/// Least `y` among the points of `s`, or 0 when `s` is empty.
pub open spec fn min_y(s: Seq<Point>) -> int
    decreases s.len(),
{
    if s.len() == 0 {
        0
    } else if s.len() == 1 {
        s[0].y as int
    } else {
        let rest = min_y(s.drop_first());
        if s[0].y as int <= rest {
            s[0].y as int
        } else {
            rest
        }
    }
}

/// Greatest `y` among the points of `s`, or 0 when `s` is empty.
pub open spec fn max_y(s: Seq<Point>) -> int
    decreases s.len(),
{
    if s.len() == 0 {
        0
    } else if s.len() == 1 {
        s[0].y as int
    } else {
        let rest = max_y(s.drop_first());
        if s[0].y as int >= rest {
            s[0].y as int
        } else {
            rest
        }
    }
}

/// One displayable series with its viewport and metadata.
///
/// The viewport invariant (`wf`) holds from construction on and is preserved
/// by every mutation: `x_min <= x_max`, `y_min <= y_max`, and every bound and
/// every point coordinate stays inside the fixed-point range, so no bound is
/// ever infinite or undefined.
pub struct ChartModel {
    pub data: Vec<Point>,
    pub x_min: i64,
    pub x_max: i64,
    pub y_min: i64,
    pub y_max: i64,
    pub sample_rate: i64,
    pub metadata: ChartMetadata,
}

impl ChartModel {
    pub open spec fn wf(self) -> bool {
        &&& self.x_min <= self.x_max
        &&& self.y_min <= self.y_max
        &&& fx_ok(self.x_min as int)
        &&& fx_ok(self.x_max as int)
        &&& fx_ok(self.y_min as int)
        &&& fx_ok(self.y_max as int)
        &&& forall|i: int| 0 <= i < self.data@.len() ==> (#[trigger] self.data@[i]).wf()
    }

    /// Build a chart over `data`: X bounds are the least and greatest `x`,
    /// Y bounds the least and greatest `y` widened by `CHART_Y_MARGIN`
    /// (clamped into the fixed-point range).  An empty chart gets the
    /// degenerate but finite viewport `[0, 0] x [-margin, margin]`.
    pub fn new(
        data: Vec<Point>,
        chart_display_type: DisplayType,
        sample_rate: i64,
        title: &str,
        transform: Option<ChartTransform>,
    ) -> (r: ChartModel)
        requires
            forall|i: int| 0 <= i < data@.len() ==> (#[trigger] data@[i]).wf(),
        ensures
            r.wf(),
            r.data == data,
            r.x_min == min_x(data@),
            r.x_max == max_x(data@),
            r.y_min == fx_clamp(min_y(data@) - CHART_Y_MARGIN),
            r.y_max == fx_clamp(max_y(data@) + CHART_Y_MARGIN),
            r.sample_rate == sample_rate,
            r.metadata.title@ == title@,
            r.metadata.transform == transform.unwrap_or(ChartTransform::Standard),
            r.metadata.chart_display_type == chart_display_type,
    {
        let mut x_min: i64 = 0;
        let mut x_max: i64 = 0;
        let mut y_min: i64 = 0;
        let mut y_max: i64 = 0;
        let n = data.len();
        let mut i: usize = 0;
        while i < n
            invariant
                0 <= i <= n,
                n == data@.len(),
                forall|j: int| 0 <= j < data@.len() ==> (#[trigger] data@[j]).wf(),
                x_min == min_x(data@.take(i as int)),
                x_max == max_x(data@.take(i as int)),
                y_min == min_y(data@.take(i as int)),
                y_max == max_y(data@.take(i as int)),
                fx_ok(x_min as int),
                fx_ok(x_max as int),
                fx_ok(y_min as int),
                fx_ok(y_max as int),
                x_min <= x_max,
                y_min <= y_max,
            decreases n - i,
        {
            let p = data[i];
            if i == 0 {
                x_min = p.x;
                x_max = p.x;
                y_min = p.y;
                y_max = p.y;
            } else {
                if p.x < x_min {
                    x_min = p.x;
                }
                if p.x > x_max {
                    x_max = p.x;
                }
                if p.y < y_min {
                    y_min = p.y;
                }
                if p.y > y_max {
                    y_max = p.y;
                }
            }
            proof {
                lemma_bounds_push(data@.take(i as int), data@[i as int]);
                assert(data@.take(i + 1) =~= data@.take(i as int).push(data@[i as int]));
            }
            i = i + 1;
        }
        proof {
            assert(data@.take(n as int) =~= data@);
        }
        let y_lo: i64 = if y_min - CHART_Y_MARGIN < -FX_BOUND {
            -FX_BOUND
        } else {
            y_min - CHART_Y_MARGIN
        };
        let y_hi: i64 = if y_max + CHART_Y_MARGIN > FX_BOUND {
            FX_BOUND
        } else {
            y_max + CHART_Y_MARGIN
        };
        ChartModel {
            data,
            x_min,
            x_max,
            y_min: y_lo,
            y_max: y_hi,
            sample_rate,
            metadata: ChartMetadata::new(title, transform, chart_display_type),
        }
    }

    /// The points as bare coordinate pairs, in order.
    pub fn data_to_pure_coordinates(&self) -> (r: Vec<(i64, i64)>)
        ensures
            r@.len() == self.data@.len(),
            forall|i: int|
                0 <= i < r@.len() ==> #[trigger] r@[i] == (self.data@[i].x, self.data@[i].y),
    {
        let mut out: Vec<(i64, i64)> = Vec::new();
        let n = self.data.len();
        let mut i: usize = 0;
        while i < n
            invariant
                0 <= i <= n,
                n == self.data@.len(),
                out@.len() == i,
                forall|j: int|
                    0 <= j < i ==> #[trigger] out@[j] == (self.data@[j].x, self.data@[j].y),
            decreases n - i,
        {
            let p = self.data[i];
            out.push((p.x, p.y));
            i = i + 1;
        }
        out
    }
}

/// Appending one point moves each running bound to the new coordinate
/// exactly when that coordinate passes the old bound (for a non-empty
/// prefix), and starts the bounds at the point itself for an empty one.
proof fn lemma_bounds_push(s: Seq<Point>, p: Point)
    ensures
        min_x(s.push(p)) == if s.len() == 0 || (p.x as int) < min_x(s) {
            p.x as int
        } else {
            min_x(s)
        },
        max_x(s.push(p)) == if s.len() == 0 || (p.x as int) > max_x(s) {
            p.x as int
        } else {
            max_x(s)
        },
        min_y(s.push(p)) == if s.len() == 0 || (p.y as int) < min_y(s) {
            p.y as int
        } else {
            min_y(s)
        },
        max_y(s.push(p)) == if s.len() == 0 || (p.y as int) > max_y(s) {
            p.y as int
        } else {
            max_y(s)
        },
    decreases s.len(),
{
    if s.len() == 0 {
        assert(s.push(p).len() == 1);
    } else {
        assert(s.push(p).drop_first() =~= s.drop_first().push(p));
        lemma_bounds_push(s.drop_first(), p);
        if s.len() == 1 {
            assert(s.drop_first().len() == 0);
        }
    }
}

} // verus!
