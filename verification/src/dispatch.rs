//! Command dispatcher: resolves a tokenized command line against the three
//! dispatch surfaces (chart view, chart explorer, general), validates
//! arities and argument types, applies session mutations, and surfaces
//! typed errors.
//!
//! Work that only the surrounding process can do — reading a file, running
//! a floating-point Fourier transform — is returned as a `PendingAction`;
//! the caller performs it and hands the plain result back to a completion
//! function, which finishes the mutation here.

use vstd::prelude::*;
use crate::chart::{ChartModel, ChartTransform, Point, CHART_Y_MARGIN, min_x, max_x, min_y, max_y};
use crate::commands::{
    GeneralCommands, ChartViewCommands, ChartExplorerCommands, parse_general_command,
    parse_chart_view_command, parse_chart_explorer_command, spec_general_command,
    spec_chart_view_command, spec_chart_explorer_command,
};
use crate::errors::{CommandError, spec_error_message};
use crate::fx::fx_clamp;
use crate::session::{ApplicationState, ApplicationMode, scale_result, move_result, spec_switch};
use crate::text::{parse_fx, parse_u32, parse_usize, spec_parse_fx, all_digits, digits_val};
use crate::transform::{
    FftFilterType, apply_fft_filter, haar_wavelet_transform, spec_filter, filter_keeps, spec_haar_approx,
    spec_ys,
};
use crate::files::{FileType, file_type_from_extension, spec_file_type};
use crate::vibric::{decode_vibric, DecodeError};

verus! {

/// Outside work a dispatched command still needs.
pub enum PendingAction {
    /// Nothing left: the command was handled (or rejected) in full.
    Nothing,
    /// Read the file at `path` and hand its bytes to `complete_open`.
    OpenFile { path: String },
    /// Compute the complex spectrum of the current chart's amplitudes and
    /// hand it to `complete_fft`.
    Fft,
    /// Compute windowed spectra with the given window and hop and hand
    /// them to `complete_stft`.
    Stft { window_size: usize, hop_size: usize },
}

/// What one surface did with the line.
#[derive(Clone, Copy, PartialEq, Eq, Structural, Debug)]
pub enum ChartViewOutcome {
    NotClaimed,
    Done,
    NeedFft,
    NeedStft { window_size: usize, hop_size: usize },
}

/// What the explorer surface did with the line.
#[derive(Clone, Copy, PartialEq, Eq, Structural, Debug)]
pub enum ExplorerOutcome {
    NotClaimed,
    Done,
    NeedOpen,
}

/// The line is empty or holds only the command prefix.
pub open spec fn tokens_empty_command(tokens: Seq<String>) -> bool {
    tokens.len() == 0 || tokens[0]@ == ":"@
}

/// Everything but the pending command, the charts and the selection is
/// unchanged.
pub open spec fn same_frame(pre: ApplicationState, post: ApplicationState) -> bool {
    &&& post.is_running == pre.is_running
    &&& post.mode == pre.mode
    &&& post.error == pre.error
    &&& post.workspace_size == pre.workspace_size
    &&& post.version_component_size == pre.version_component_size
    &&& post.help_component_size == pre.help_component_size
    &&& post.chart_workspace_size == pre.chart_workspace_size
    &&& post.file_explorer_size == pre.file_explorer_size
}

/// `post` is `pre` with the pending command cleared.
pub open spec fn state_cleared(pre: ApplicationState, post: ApplicationState) -> bool {
    &&& same_frame(pre, post)
    &&& post.command is None
    &&& post.charts@ == pre.charts@
    &&& post.current_chart_id == pre.current_chart_id
}

/// `post` is `pre` with the pending command cleared and the current chart's
/// viewport rescaled.
pub open spec fn state_scaled(
    pre: ApplicationState,
    post: ApplicationState,
    zoom_in: bool,
    mult: int,
) -> bool {
    &&& same_frame(pre, post)
    &&& post.command is None
    &&& post.current_chart_id == pre.current_chart_id
    &&& post.charts@ =~= pre.charts@.update(pre.current_chart_id as int,
        post.charts@[pre.current_chart_id as int])
    &&& scale_result(pre.charts@[pre.current_chart_id as int],
        post.charts@[pre.current_chart_id as int], zoom_in, mult)
}

/// `post` is `pre` with the pending command cleared and the current chart's
/// viewport panned (a no-op pan on an empty session only clears).
pub open spec fn state_moved(
    pre: ApplicationState,
    post: ApplicationState,
    left: bool,
    points: int,
) -> bool {
    if pre.charts@.len() == 0 {
        state_cleared(pre, post)
    } else {
        &&& same_frame(pre, post)
        &&& post.command is None
        &&& post.current_chart_id == pre.current_chart_id
        &&& post.charts@ =~= pre.charts@.update(pre.current_chart_id as int,
            post.charts@[pre.current_chart_id as int])
        &&& move_result(pre.charts@[pre.current_chart_id as int],
            post.charts@[pre.current_chart_id as int], left, points)
    }
}

/// `c` is the chart derived from `src` with points `pts` and derivation
/// `tr`: same title, display style and sample rate, fresh viewport bounds
/// computed from `pts`.
pub open spec fn derived_chart_ok(
    src: ChartModel,
    c: ChartModel,
    pts: Seq<Point>,
    tr: ChartTransform,
) -> bool {
    &&& c.data@ == pts
    &&& c.sample_rate == src.sample_rate
    &&& c.metadata.title@ == src.metadata.title@
    &&& c.metadata.transform == tr
    &&& c.metadata.chart_display_type == src.metadata.chart_display_type
    &&& c.x_min == min_x(pts)
    &&& c.x_max == max_x(pts)
    &&& c.y_min == fx_clamp(min_y(pts) - CHART_Y_MARGIN)
    &&& c.y_max == fx_clamp(max_y(pts) + CHART_Y_MARGIN)
}

/// `post` is `pre` with the pending command cleared and a derived chart
/// appended (which becomes current).
pub open spec fn state_added(pre: ApplicationState, post: ApplicationState, c: ChartModel) -> bool {
    &&& same_frame(pre, post)
    &&& post.command is None
    &&& post.charts@ =~= pre.charts@.push(c)
    &&& post.current_chart_id == pre.charts@.len()
}

/// The chart-view surface's contract, one case per verb.
pub open spec fn chart_view_step(
    pre: ApplicationState,
    tokens: Seq<String>,
    post: ApplicationState,
    r: Result<ChartViewOutcome, CommandError>,
) -> bool {
    if pre.command is None {
        post == pre && r == Result::<ChartViewOutcome, CommandError>::Ok(
            ChartViewOutcome::NotClaimed,
        )
    } else if tokens_empty_command(tokens) {
        post == pre && r == Result::<ChartViewOutcome, CommandError>::Err(
            CommandError::EmptyCommand,
        )
    } else {
        match spec_chart_view_command(tokens[0]@) {
            None => post == pre && r == Result::<ChartViewOutcome, CommandError>::Ok(
                ChartViewOutcome::NotClaimed,
            ),
            Some(cmd) => match cmd {
                ChartViewCommands::ZoomIn => scale_step(pre, tokens, post, r, false),
                ChartViewCommands::ZoomOut => scale_step(pre, tokens, post, r, true),
                ChartViewCommands::MoveLeft => move_step(pre, tokens, post, r, true),
                ChartViewCommands::MoveRight => move_step(pre, tokens, post, r, false),
                ChartViewCommands::FastFourierTransform => {
                    if pre.charts@.len() == 0 {
                        post == pre && r == Result::<ChartViewOutcome, CommandError>::Err(
                            CommandError::NoChart,
                        )
                    } else {
                        state_cleared(pre, post) && r == Result::<
                            ChartViewOutcome,
                            CommandError,
                        >::Ok(ChartViewOutcome::NeedFft)
                    }
                },
                ChartViewCommands::ShortTimeFourierTransform => stft_step(pre, tokens, post, r),
                ChartViewCommands::HaarWaveletTransform => haar_step(pre, post, r),
                ChartViewCommands::FftFilterLowPass => filter_one_step(pre, tokens, post, r, true),
                ChartViewCommands::FftFilterHighPass => filter_one_step(pre, tokens, post, r,
                    false),
                ChartViewCommands::FftFilterBandPass => filter_two_step(pre, tokens, post, r, true),
                ChartViewCommands::FftFilterBandStop => filter_two_step(pre, tokens, post, r,
                    false),
            },
        }
    }
}

/// Zoom commands: one fixed-point argument, then a current chart.  The
/// enlarging verb reaches the dividing branch (the half-width shrinks for
/// multipliers above the widening coefficient) and the shrinking verb the
/// multiplying one, so the argument's size does the real work.
pub open spec fn scale_step(
    pre: ApplicationState,
    tokens: Seq<String>,
    post: ApplicationState,
    r: Result<ChartViewOutcome, CommandError>,
    zoom_in: bool,
) -> bool {
    if tokens.len() < 2 {
        post == pre && r == Result::<ChartViewOutcome, CommandError>::Err(
            CommandError::NotEnoughArguments,
        )
    } else {
        match spec_parse_fx(tokens[1]@) {
            None => post == pre && r == Result::<ChartViewOutcome, CommandError>::Err(
                CommandError::InvalidArguments(tokens[1]),
            ),
            Some(v) => {
                if pre.charts@.len() == 0 {
                    post == pre && r == Result::<ChartViewOutcome, CommandError>::Err(
                        CommandError::NoChart,
                    )
                } else if v <= 0 {
                    state_cleared(pre, post) && r == Result::<ChartViewOutcome, CommandError>::Ok(
                        ChartViewOutcome::Done,
                    )
                } else {
                    state_scaled(pre, post, zoom_in, v) && r == Result::<
                        ChartViewOutcome,
                        CommandError,
                    >::Ok(ChartViewOutcome::Done)
                }
            },
        }
    }
}

/// Pan commands: one fixed-point argument; an empty session pans nothing.
pub open spec fn move_step(
    pre: ApplicationState,
    tokens: Seq<String>,
    post: ApplicationState,
    r: Result<ChartViewOutcome, CommandError>,
    left: bool,
) -> bool {
    if tokens.len() < 2 {
        post == pre && r == Result::<ChartViewOutcome, CommandError>::Err(
            CommandError::NotEnoughArguments,
        )
    } else {
        match spec_parse_fx(tokens[1]@) {
            None => post == pre && r == Result::<ChartViewOutcome, CommandError>::Err(
                CommandError::InvalidArguments(tokens[1]),
            ),
            Some(v) => state_moved(pre, post, left, v) && r == Result::<
                ChartViewOutcome,
                CommandError,
            >::Ok(ChartViewOutcome::Done),
        }
    }
}

/// The short-time transform: window and hop arguments, then a current
/// chart; the spectra themselves are outside work.
pub open spec fn stft_step(
    pre: ApplicationState,
    tokens: Seq<String>,
    post: ApplicationState,
    r: Result<ChartViewOutcome, CommandError>,
) -> bool {
    if tokens.len() < 3 {
        post == pre && r == Result::<ChartViewOutcome, CommandError>::Err(
            CommandError::NotEnoughArguments,
        )
    } else if !(tokens[1]@.len() > 0 && all_digits(tokens[1]@) && digits_val(tokens[1]@)
        <= usize::MAX) {
        post == pre && r == Result::<ChartViewOutcome, CommandError>::Err(
            CommandError::InvalidArguments(tokens[1]),
        )
    } else if !(tokens[2]@.len() > 0 && all_digits(tokens[2]@) && digits_val(tokens[2]@)
        <= usize::MAX) {
        post == pre && r == Result::<ChartViewOutcome, CommandError>::Err(
            CommandError::InvalidArguments(tokens[2]),
        )
    } else if pre.charts@.len() == 0 {
        post == pre && r == Result::<ChartViewOutcome, CommandError>::Err(CommandError::NoChart)
    } else {
        state_cleared(pre, post) && r == Result::<ChartViewOutcome, CommandError>::Ok(
            ChartViewOutcome::NeedStft {
                window_size: digits_val(tokens[1]@) as usize,
                hop_size: digits_val(tokens[2]@) as usize,
            },
        )
    }
}

/// The wavelet transform is computed in place: a current chart is the only
/// requirement, and the derived chart holds the Haar approximation.
pub open spec fn haar_step(
    pre: ApplicationState,
    post: ApplicationState,
    r: Result<ChartViewOutcome, CommandError>,
) -> bool {
    if pre.charts@.len() == 0 {
        post == pre && r == Result::<ChartViewOutcome, CommandError>::Err(CommandError::NoChart)
    } else {
        let src = pre.charts@[pre.current_chart_id as int];
        &&& r == Result::<ChartViewOutcome, CommandError>::Ok(ChartViewOutcome::Done)
        &&& post.charts@.len() == pre.charts@.len() + 1
        &&& state_added(pre, post, post.charts@.last())
        &&& {
            let c = post.charts@.last();
            &&& c.data@.len() == (src.data@.len() + 1) / 2
            &&& forall|i: int|
                0 <= i < c.data@.len() ==> (#[trigger] c.data@[i]).y as int == spec_haar_approx(
                    spec_ys(src.data@),
                    i,
                ) && c.data@[i].x as int == fx_clamp((crate::fx::FX_SCALE as int) * i)
            &&& derived_chart_ok(src, c, c.data@, ChartTransform::WaveletHaar)
        }
    }
}

/// Single-cutoff band filters: one fixed-point cutoff, then a current
/// chart; the derived chart keeps exactly the passing points.
pub open spec fn filter_one_step(
    pre: ApplicationState,
    tokens: Seq<String>,
    post: ApplicationState,
    r: Result<ChartViewOutcome, CommandError>,
    low_pass: bool,
) -> bool {
    if tokens.len() < 2 {
        post == pre && r == Result::<ChartViewOutcome, CommandError>::Err(
            CommandError::NotEnoughArguments,
        )
    } else {
        match spec_parse_fx(tokens[1]@) {
            None => post == pre && r == Result::<ChartViewOutcome, CommandError>::Err(
                CommandError::InvalidArguments(tokens[1]),
            ),
            Some(v) => {
                if pre.charts@.len() == 0 {
                    post == pre && r == Result::<ChartViewOutcome, CommandError>::Err(
                        CommandError::NoChart,
                    )
                } else {
                    let f = if low_pass {
                        FftFilterType::LowPass(v as i64)
                    } else {
                        FftFilterType::HighPass(v as i64)
                    };
                    filter_applied(pre, post, r, f)
                }
            },
        }
    }
}

/// Two-cutoff band filters: low and high fixed-point cutoffs in that
/// order, then a current chart.
pub open spec fn filter_two_step(
    pre: ApplicationState,
    tokens: Seq<String>,
    post: ApplicationState,
    r: Result<ChartViewOutcome, CommandError>,
    band_pass: bool,
) -> bool {
    if tokens.len() < 3 {
        post == pre && r == Result::<ChartViewOutcome, CommandError>::Err(
            CommandError::NotEnoughArguments,
        )
    } else {
        match spec_parse_fx(tokens[1]@) {
            None => post == pre && r == Result::<ChartViewOutcome, CommandError>::Err(
                CommandError::InvalidArguments(tokens[1]),
            ),
            Some(lo) => match spec_parse_fx(tokens[2]@) {
                None => post == pre && r == Result::<ChartViewOutcome, CommandError>::Err(
                    CommandError::InvalidArguments(tokens[2]),
                ),
                Some(hi) => {
                    if pre.charts@.len() == 0 {
                        post == pre && r == Result::<ChartViewOutcome, CommandError>::Err(
                            CommandError::NoChart,
                        )
                    } else {
                        let f = if band_pass {
                            FftFilterType::BandPass(lo as i64, hi as i64)
                        } else {
                            FftFilterType::BandStop(lo as i64, hi as i64)
                        };
                        filter_applied(pre, post, r, f)
                    }
                },
            },
        }
    }
}

/// The state change shared by all four filters once the cutoffs parsed and
/// a chart exists.
pub open spec fn filter_applied(
    pre: ApplicationState,
    post: ApplicationState,
    r: Result<ChartViewOutcome, CommandError>,
    f: FftFilterType,
) -> bool {
    let src = pre.charts@[pre.current_chart_id as int];
    &&& r == Result::<ChartViewOutcome, CommandError>::Ok(ChartViewOutcome::Done)
    &&& post.charts@.len() == pre.charts@.len() + 1
    &&& state_added(pre, post, post.charts@.last())
    &&& derived_chart_ok(src, post.charts@.last(), spec_filter(src.data@, f),
        ChartTransform::Filtered)
}

impl ApplicationState {
    /// Append a chart derived from the current one: same title, display
    /// style and sample rate, fresh bounds over `pts`; the pending command
    /// is cleared.
    fn push_derived(&mut self, pts: Vec<Point>, tr: ChartTransform)
        requires
            old(self).wf(),
            old(self).charts@.len() > 0,
            forall|i: int| 0 <= i < pts@.len() ==> (#[trigger] pts@[i]).wf(),
        ensures
            final(self).wf(),
            final(self).charts@.len() == old(self).charts@.len() + 1,
            final(self).charts@.last().data@ == pts@,
            state_added(*old(self), *final(self), final(self).charts@.last()),
            derived_chart_ok(
                old(self).charts@[old(self).current_chart_id as int],
                final(self).charts@.last(),
                pts@,
                tr,
            ),
    {
        let idx = self.current_chart_id;
        let display = self.charts[idx].metadata.chart_display_type;
        let sample_rate = self.charts[idx].sample_rate;
        let title = self.charts[idx].metadata.title.clone();
        let chart = ChartModel::new(pts, display, sample_rate, title.as_str(), Some(tr));
        self.add_chart(chart);
        self.set_command(None);
    }

    /// Resolve the line against the chart-view verbs: viewport zooms and
    /// pans, the transforms and the band filters.  Transforms whose raw
    /// spectra only the caller can compute are claimed and reported as
    /// outcomes that need completion.
    pub fn chart_view_update(&mut self, tokens: &Vec<String>) -> (r: Result<
        ChartViewOutcome,
        CommandError,
    >)
        requires
            old(self).wf(),
        ensures
            final(self).wf(),
            chart_view_step(*old(self), tokens@, *final(self), r),
    {
        if self.command.is_none() {
            return Ok(ChartViewOutcome::NotClaimed);
        }
        if tokens.len() == 0 || crate::text::str_eq(tokens[0].as_str(), ":") {
            return Err(CommandError::EmptyCommand);
        }
        let cmd = match parse_chart_view_command(tokens[0].as_str()) {
            Some(c) => c,
            None => {
                return Ok(ChartViewOutcome::NotClaimed);
            },
        };
        match cmd {
            ChartViewCommands::ZoomIn => self.scale_command(tokens, false),
            ChartViewCommands::ZoomOut => self.scale_command(tokens, true),
            ChartViewCommands::MoveLeft => self.move_command(tokens, true),
            ChartViewCommands::MoveRight => self.move_command(tokens, false),
            ChartViewCommands::FastFourierTransform => {
                if self.charts.len() == 0 {
                    Err(CommandError::NoChart)
                } else {
                    self.set_command(None);
                    Ok(ChartViewOutcome::NeedFft)
                }
            },
            ChartViewCommands::ShortTimeFourierTransform => {
                if tokens.len() < 3 {
                    return Err(CommandError::NotEnoughArguments);
                }
                let w = match parse_usize(tokens[1].as_str()) {
                    Some(w) => w,
                    None => {
                        return Err(CommandError::InvalidArguments(tokens[1].clone()));
                    },
                };
                let h = match parse_usize(tokens[2].as_str()) {
                    Some(h) => h,
                    None => {
                        return Err(CommandError::InvalidArguments(tokens[2].clone()));
                    },
                };
                if self.charts.len() == 0 {
                    return Err(CommandError::NoChart);
                }
                self.set_command(None);
                Ok(ChartViewOutcome::NeedStft { window_size: w, hop_size: h })
            },
            ChartViewCommands::HaarWaveletTransform => {
                if self.charts.len() == 0 {
                    return Err(CommandError::NoChart);
                }
                let pts = haar_wavelet_transform(&self.charts[self.current_chart_id].data);
                self.push_derived(pts, ChartTransform::WaveletHaar);
                Ok(ChartViewOutcome::Done)
            },
            ChartViewCommands::FftFilterLowPass => self.filter_one_command(tokens, true),
            ChartViewCommands::FftFilterHighPass => self.filter_one_command(tokens, false),
            ChartViewCommands::FftFilterBandPass => self.filter_two_command(tokens, true),
            ChartViewCommands::FftFilterBandStop => self.filter_two_command(tokens, false),
        }
    }

    /// One zoom command: argument checks, then the rescale.
    fn scale_command(&mut self, tokens: &Vec<String>, zoom_in: bool) -> (r: Result<
        ChartViewOutcome,
        CommandError,
    >)
        requires
            old(self).wf(),
            old(self).command is Some,
            !tokens_empty_command(tokens@),
        ensures
            final(self).wf(),
            scale_step(*old(self), tokens@, *final(self), r, zoom_in),
    {
        if tokens.len() < 2 {
            return Err(CommandError::NotEnoughArguments);
        }
        let v = match parse_fx(tokens[1].as_str()) {
            Some(v) => v,
            None => {
                return Err(CommandError::InvalidArguments(tokens[1].clone()));
            },
        };
        if self.charts.len() == 0 {
            return Err(CommandError::NoChart);
        }
        let res = self.plot_scale(zoom_in, v);
        self.set_command(None);
        proof {
            assert(res is Ok);
        }
        Ok(ChartViewOutcome::Done)
    }

    /// One pan command: argument checks, then the shift.
    fn move_command(&mut self, tokens: &Vec<String>, left: bool) -> (r: Result<
        ChartViewOutcome,
        CommandError,
    >)
        requires
            old(self).wf(),
            old(self).command is Some,
            !tokens_empty_command(tokens@),
        ensures
            final(self).wf(),
            move_step(*old(self), tokens@, *final(self), r, left),
    {
        if tokens.len() < 2 {
            return Err(CommandError::NotEnoughArguments);
        }
        let v = match parse_fx(tokens[1].as_str()) {
            Some(v) => v,
            None => {
                return Err(CommandError::InvalidArguments(tokens[1].clone()));
            },
        };
        self.plot_move(left, v);
        self.set_command(None);
        Ok(ChartViewOutcome::Done)
    }

    /// One single-cutoff filter command.
    fn filter_one_command(&mut self, tokens: &Vec<String>, low_pass: bool) -> (r: Result<
        ChartViewOutcome,
        CommandError,
    >)
        requires
            old(self).wf(),
            old(self).command is Some,
            !tokens_empty_command(tokens@),
        ensures
            final(self).wf(),
            filter_one_step(*old(self), tokens@, *final(self), r, low_pass),
    {
        if tokens.len() < 2 {
            return Err(CommandError::NotEnoughArguments);
        }
        let v = match parse_fx(tokens[1].as_str()) {
            Some(v) => v,
            None => {
                return Err(CommandError::InvalidArguments(tokens[1].clone()));
            },
        };
        if self.charts.len() == 0 {
            return Err(CommandError::NoChart);
        }
        let f = if low_pass {
            FftFilterType::LowPass(v)
        } else {
            FftFilterType::HighPass(v)
        };
        let pts = apply_fft_filter(&self.charts[self.current_chart_id].data, f);
        proof {
            lemma_filter_points_wf(self.charts@[self.current_chart_id as int].data@, f);
        }
        self.push_derived(pts, ChartTransform::Filtered);
        Ok(ChartViewOutcome::Done)
    }

    /// One two-cutoff filter command.
    fn filter_two_command(&mut self, tokens: &Vec<String>, band_pass: bool) -> (r: Result<
        ChartViewOutcome,
        CommandError,
    >)
        requires
            old(self).wf(),
            old(self).command is Some,
            !tokens_empty_command(tokens@),
        ensures
            final(self).wf(),
            filter_two_step(*old(self), tokens@, *final(self), r, band_pass),
    {
        if tokens.len() < 3 {
            return Err(CommandError::NotEnoughArguments);
        }
        let lo = match parse_fx(tokens[1].as_str()) {
            Some(v) => v,
            None => {
                return Err(CommandError::InvalidArguments(tokens[1].clone()));
            },
        };
        let hi = match parse_fx(tokens[2].as_str()) {
            Some(v) => v,
            None => {
                return Err(CommandError::InvalidArguments(tokens[2].clone()));
            },
        };
        if self.charts.len() == 0 {
            return Err(CommandError::NoChart);
        }
        let f = if band_pass {
            FftFilterType::BandPass(lo, hi)
        } else {
            FftFilterType::BandStop(lo, hi)
        };
        let pts = apply_fft_filter(&self.charts[self.current_chart_id].data, f);
        proof {
            lemma_filter_points_wf(self.charts@[self.current_chart_id as int].data@, f);
        }
        self.push_derived(pts, ChartTransform::Filtered);
        Ok(ChartViewOutcome::Done)
    }
}

/// A filtered subsequence of well-formed points is well-formed.
proof fn lemma_filter_points_wf(s: Seq<Point>, f: FftFilterType)
    requires
        forall|i: int| 0 <= i < s.len() ==> (#[trigger] s[i]).wf(),
    ensures
        forall|i: int| 0 <= i < spec_filter(s, f).len() ==> (#[trigger] spec_filter(s, f)[i]).wf(),
    decreases s.len(),
{
    if s.len() > 0 {
        assert(forall|i: int| 0 <= i < s.drop_last().len() ==> (#[trigger] s.drop_last()[i]).wf());
        lemma_filter_points_wf(s.drop_last(), f);
        assert(s.last().wf());
        let fl = spec_filter(s, f);
        let prev = spec_filter(s.drop_last(), f);
        assert forall|i: int| 0 <= i < fl.len() implies (#[trigger] fl[i]).wf() by {
            if filter_keeps(f, s.last().x as int) {
                assert(fl == prev.push(s.last()));
                if i < prev.len() {
                    assert(fl[i] == prev[i]);
                } else {
                    assert(fl[i] == s.last());
                }
            } else {
                assert(fl == prev);
            }
        }
    }
}


/// The explorer surface's contract, one case per verb.
pub open spec fn explorer_step(
    pre: ApplicationState,
    tokens: Seq<String>,
    post: ApplicationState,
    r: Result<ExplorerOutcome, CommandError>,
) -> bool {
    if pre.command is None {
        post == pre && r == Result::<ExplorerOutcome, CommandError>::Ok(ExplorerOutcome::NotClaimed)
    } else if tokens_empty_command(tokens) {
        post == pre && r == Result::<ExplorerOutcome, CommandError>::Err(CommandError::EmptyCommand)
    } else {
        match spec_chart_explorer_command(tokens[0]@) {
            None => post == pre && r == Result::<ExplorerOutcome, CommandError>::Ok(
                ExplorerOutcome::NotClaimed,
            ),
            Some(cmd) => match cmd {
                ChartExplorerCommands::OpenFile => {
                    if tokens.len() < 2 {
                        post == pre && r == Result::<ExplorerOutcome, CommandError>::Err(
                            CommandError::NotEnoughArguments,
                        )
                    } else {
                        state_cleared(pre, post) && r == Result::<ExplorerOutcome, CommandError>::Ok(
                            ExplorerOutcome::NeedOpen,
                        )
                    }
                },
                ChartExplorerCommands::CloseWorkingView => {
                    &&& r == Result::<ExplorerOutcome, CommandError>::Ok(ExplorerOutcome::Done)
                    &&& same_frame(pre, post)
                    &&& post.command is None
                    &&& if pre.charts@.len() == 0 {
                        post.charts@ == pre.charts@ && post.current_chart_id
                            == pre.current_chart_id
                    } else {
                        post.charts@ =~= pre.charts@.remove(pre.current_chart_id as int)
                            && post.current_chart_id as int == if pre.current_chart_id > 0 {
                            pre.current_chart_id - 1
                        } else {
                            0int
                        }
                    }
                },
                ChartExplorerCommands::SwitchWorkingView => {
                    if tokens.len() < 2 {
                        post == pre && r == Result::<ExplorerOutcome, CommandError>::Err(
                            CommandError::NotEnoughArguments,
                        )
                    } else if !(tokens[1]@.len() > 0 && all_digits(tokens[1]@) && digits_val(
                        tokens[1]@,
                    ) <= u32::MAX) {
                        post == pre && r == Result::<ExplorerOutcome, CommandError>::Err(
                            CommandError::InvalidArguments(tokens[1]),
                        )
                    } else if pre.charts@.len() == 0 {
                        post == pre && r == Result::<ExplorerOutcome, CommandError>::Err(
                            CommandError::NoChart,
                        )
                    } else {
                        &&& r == Result::<ExplorerOutcome, CommandError>::Ok(ExplorerOutcome::Done)
                        &&& same_frame(pre, post)
                        &&& post.command is None
                        &&& post.charts@ == pre.charts@
                        &&& post.current_chart_id as int == spec_switch(digits_val(tokens[1]@),
                            pre.charts@.len() as int)
                    }
                },
            },
        }
    }
}

/// The general surface's contract, one case per verb; the result's flag
/// says whether the surface claimed the line.  The settings verb resolves
/// but is bound to no operation, so it is left unclaimed.
pub open spec fn general_step(
    pre: ApplicationState,
    tokens: Seq<String>,
    post: ApplicationState,
    r: Result<bool, CommandError>,
) -> bool {
    if pre.command is None {
        post == pre && r == Result::<bool, CommandError>::Ok(false)
    } else if tokens_empty_command(tokens) {
        post == pre && r == Result::<bool, CommandError>::Err(CommandError::EmptyCommand)
    } else {
        match spec_general_command(tokens[0]@) {
            None => post == pre && r == Result::<bool, CommandError>::Ok(false),
            Some(cmd) => match cmd {
                GeneralCommands::About => {
                    &&& r == Result::<bool, CommandError>::Ok(true)
                    &&& general_frame(pre, post)
                    &&& post.is_running == pre.is_running
                    &&& post.file_explorer_size == pre.file_explorer_size
                    &&& post.chart_workspace_size == pre.chart_workspace_size
                    &&& post.mode == ApplicationMode::Static
                    &&& post.workspace_size == 0
                    &&& post.version_component_size == 100
                    &&& post.help_component_size == 0
                },
                GeneralCommands::Help => {
                    &&& r == Result::<bool, CommandError>::Ok(true)
                    &&& general_frame(pre, post)
                    &&& post.is_running == pre.is_running
                    &&& post.file_explorer_size == pre.file_explorer_size
                    &&& post.chart_workspace_size == pre.chart_workspace_size
                    &&& post.mode == ApplicationMode::Static
                    &&& post.workspace_size == 0
                    &&& post.version_component_size == 0
                    &&& post.help_component_size == 100
                },
                GeneralCommands::OpenCloseChartsExplorer => {
                    &&& r == Result::<bool, CommandError>::Ok(true)
                    &&& general_frame(pre, post)
                    &&& post.is_running == pre.is_running
                    &&& post.mode == pre.mode
                    &&& post.workspace_size == pre.workspace_size
                    &&& post.version_component_size == pre.version_component_size
                    &&& post.help_component_size == pre.help_component_size
                    &&& if pre.file_explorer_size == 0 {
                        post.file_explorer_size == 15 && post.chart_workspace_size == 85
                    } else {
                        post.file_explorer_size == 0 && post.chart_workspace_size == 100
                    }
                },
                GeneralCommands::OpenSettings => post == pre && r == Result::<
                    bool,
                    CommandError,
                >::Ok(false),
                GeneralCommands::Quit => {
                    &&& r == Result::<bool, CommandError>::Ok(true)
                    &&& general_frame(pre, post)
                    &&& !post.is_running
                    &&& post.mode == pre.mode
                    &&& post.workspace_size == pre.workspace_size
                    &&& post.version_component_size == pre.version_component_size
                    &&& post.help_component_size == pre.help_component_size
                    &&& post.file_explorer_size == pre.file_explorer_size
                    &&& post.chart_workspace_size == pre.chart_workspace_size
                },
            },
        }
    }
}

/// What every claimed general command preserves: the charts, the selection,
/// the error slot; the pending command is cleared.
pub open spec fn general_frame(pre: ApplicationState, post: ApplicationState) -> bool {
    &&& post.command is None
    &&& post.error == pre.error
    &&& post.charts@ == pre.charts@
    &&& post.current_chart_id == pre.current_chart_id
}

impl ApplicationState {
    /// Resolve the line against the explorer verbs: opening a file,
    /// closing the current view, switching views.  Opening needs the file's
    /// bytes, which only the caller can read, so it is claimed and
    /// reported.
    pub fn chart_explorer_update(&mut self, tokens: &Vec<String>) -> (r: Result<
        ExplorerOutcome,
        CommandError,
    >)
        requires
            old(self).wf(),
        ensures
            final(self).wf(),
            explorer_step(*old(self), tokens@, *final(self), r),
            r == Result::<ExplorerOutcome, CommandError>::Ok(ExplorerOutcome::NeedOpen)
                ==> tokens@.len() >= 2,
    {
        if self.command.is_none() {
            return Ok(ExplorerOutcome::NotClaimed);
        }
        if tokens.len() == 0 || crate::text::str_eq(tokens[0].as_str(), ":") {
            return Err(CommandError::EmptyCommand);
        }
        let cmd = match parse_chart_explorer_command(tokens[0].as_str()) {
            Some(c) => c,
            None => {
                return Ok(ExplorerOutcome::NotClaimed);
            },
        };
        match cmd {
            ChartExplorerCommands::OpenFile => {
                if tokens.len() < 2 {
                    return Err(CommandError::NotEnoughArguments);
                }
                self.set_command(None);
                Ok(ExplorerOutcome::NeedOpen)
            },
            ChartExplorerCommands::CloseWorkingView => {
                self.delete_current_chart();
                self.set_command(None);
                Ok(ExplorerOutcome::Done)
            },
            ChartExplorerCommands::SwitchWorkingView => {
                if tokens.len() < 2 {
                    return Err(CommandError::NotEnoughArguments);
                }
                let id = match parse_u32(tokens[1].as_str()) {
                    Some(id) => id,
                    None => {
                        return Err(CommandError::InvalidArguments(tokens[1].clone()));
                    },
                };
                if self.charts.len() == 0 {
                    return Err(CommandError::NoChart);
                }
                proof {
                    crate::text::lemma_digits_val_nonneg(tokens@[1]@);
                }
                self.change_current_chart(id);
                self.set_command(None);
                Ok(ExplorerOutcome::Done)
            },
        }
    }

    /// Resolve the line against the general verbs: the version and help
    /// widgets, the explorer toggle and quitting.
    pub fn general_update(&mut self, tokens: &Vec<String>) -> (r: Result<bool, CommandError>)
        requires
            old(self).wf(),
        ensures
            final(self).wf(),
            general_step(*old(self), tokens@, *final(self), r),
    {
        if self.command.is_none() {
            return Ok(false);
        }
        if tokens.len() == 0 || crate::text::str_eq(tokens[0].as_str(), ":") {
            return Err(CommandError::EmptyCommand);
        }
        let cmd = match parse_general_command(tokens[0].as_str()) {
            Some(c) => c,
            None => {
                return Ok(false);
            },
        };
        match cmd {
            GeneralCommands::About => {
                self.show_version();
                self.set_command(None);
                Ok(true)
            },
            GeneralCommands::Help => {
                self.show_help();
                self.set_command(None);
                Ok(true)
            },
            GeneralCommands::OpenCloseChartsExplorer => {
                self.change_file_explorer_visibility();
                self.set_command(None);
                Ok(true)
            },
            GeneralCommands::OpenSettings => Ok(false),
            GeneralCommands::Quit => {
                self.quit();
                self.set_command(None);
                Ok(true)
            },
        }
    }
}


/// `post` is `pre` put into error mode with message `msg`, the pending
/// command cleared, charts and selection untouched.
pub open spec fn state_errored(pre: ApplicationState, post: ApplicationState, msg: Seq<char>) -> bool {
    &&& post.is_running == pre.is_running
    &&& post.mode == ApplicationMode::Error
    &&& match post.error {
        Some(e) => e@ == msg,
        None => false,
    }
    &&& post.command is None
    &&& post.charts@ == pre.charts@
    &&& post.current_chart_id == pre.current_chart_id
    &&& post.workspace_size == pre.workspace_size
    &&& post.version_component_size == pre.version_component_size
    &&& post.help_component_size == pre.help_component_size
    &&& post.chart_workspace_size == pre.chart_workspace_size
    &&& post.file_explorer_size == pre.file_explorer_size
}

/// What one full dispatch pass leaves behind when the chart-view surface
/// owns the verb: an error puts the state in error mode, success stands as
/// the surface left it, and transforms that need outside work become
/// actions (the pending command is cleared either way).  The witnesses are
/// the surface's own result and post-state, which the verb and the
/// pre-state determine.
pub open spec fn wrap_view(
    pre: ApplicationState,
    tokens: Seq<String>,
    post: ApplicationState,
    a: PendingAction,
) -> bool {
    exists|mid: ApplicationState, r: Result<ChartViewOutcome, CommandError>|
        {
            &&& #[trigger] chart_view_step(pre, tokens, mid, r)
            &&& match r {
                Result::Ok(ChartViewOutcome::Done) => post == mid && a is Nothing,
                Result::Ok(ChartViewOutcome::NeedFft) => post == mid && a is Fft,
                Result::Ok(ChartViewOutcome::NeedStft { window_size: w, hop_size: h }) => post
                    == mid && a == PendingAction::Stft { window_size: w, hop_size: h },
                Result::Ok(ChartViewOutcome::NotClaimed) => false,
                Result::Err(e) => state_errored(pre, post, spec_error_message(e)) && a is Nothing,
            }
        }
}

/// As `wrap_view`, for the explorer surface; an accepted open command
/// becomes the action that asks the caller for the file's bytes.
pub open spec fn wrap_explorer(
    pre: ApplicationState,
    tokens: Seq<String>,
    post: ApplicationState,
    a: PendingAction,
) -> bool {
    exists|mid: ApplicationState, r: Result<ExplorerOutcome, CommandError>|
        {
            &&& #[trigger] explorer_step(pre, tokens, mid, r)
            &&& match r {
                Result::Ok(ExplorerOutcome::Done) => post == mid && a is Nothing,
                Result::Ok(ExplorerOutcome::NeedOpen) => post == mid && tokens.len() >= 2 && a
                    == PendingAction::OpenFile { path: tokens[1] },
                Result::Ok(ExplorerOutcome::NotClaimed) => false,
                Result::Err(e) => state_errored(pre, post, spec_error_message(e)) && a is Nothing,
            }
        }
}

/// As `wrap_view`, for the general surface.
pub open spec fn wrap_general(
    pre: ApplicationState,
    tokens: Seq<String>,
    post: ApplicationState,
    a: PendingAction,
) -> bool {
    exists|mid: ApplicationState|
        {
            &&& #[trigger] general_step(pre, tokens, mid, Result::<bool, CommandError>::Ok(true))
            &&& post == mid
            &&& a is Nothing
        }
}

/// The whole dispatch pass: each surface tries the line in turn (chart
/// view, explorer, general); the first to recognise the verb settles the
/// outcome; a line no surface claims is reported once as a syntax error
/// against the full pending command — unless an earlier error is already
/// showing — and the pending command is cleared in every case.
pub open spec fn dispatch_step(
    pre: ApplicationState,
    tokens: Seq<String>,
    post: ApplicationState,
    a: PendingAction,
) -> bool {
    if pre.command is None {
        post == pre && a is Nothing
    } else if tokens_empty_command(tokens) {
        state_errored(pre, post, spec_error_message(CommandError::EmptyCommand)) && a is Nothing
    } else if spec_chart_view_command(tokens[0]@) is Some {
        wrap_view(pre, tokens, post, a)
    } else if spec_chart_explorer_command(tokens[0]@) is Some {
        wrap_explorer(pre, tokens, post, a)
    } else if spec_general_command(tokens[0]@) matches Some(g)
        && g != GeneralCommands::OpenSettings {
        wrap_general(pre, tokens, post, a)
    } else {
        a is Nothing && if pre.error is None {
            state_errored(pre, post, spec_error_message(CommandError::CommandSyntax(
                pre.command->Some_0,
            )))
        } else {
            state_cleared(pre, post)
        }
    }
}

impl ApplicationState {
    /// Dispatch the pending command, pre-split into whitespace tokens, down
    /// the surface chain.  Errors are recorded in error mode; an
    /// unrecognised verb is reported once as a syntax error; the pending
    /// command is consumed exactly once.  The returned action names the
    /// outside work (a file read, a spectrum) the command still needs.
    pub fn process_pending(&mut self, tokens: &Vec<String>) -> (a: PendingAction)
        requires
            old(self).wf(),
        ensures
            final(self).wf(),
            dispatch_step(*old(self), tokens@, *final(self), a),
    {
        if self.command.is_none() {
            return PendingAction::Nothing;
        }
        let mut action = PendingAction::Nothing;
        let ghost pre = *self;

        let r1 = self.chart_view_update(tokens);
        let ghost mid1 = *self;
        let ghost gr1 = r1;
        let mut errored = false;
        match r1 {
            Ok(ChartViewOutcome::NotClaimed) => {},
            Ok(ChartViewOutcome::Done) => {},
            Ok(ChartViewOutcome::NeedFft) => {
                action = PendingAction::Fft;
            },
            Ok(ChartViewOutcome::NeedStft { window_size, hop_size }) => {
                action = PendingAction::Stft { window_size, hop_size };
            },
            Err(e) => {
                let m = e.message();
                self.set_error(Some(m));
                errored = true;
            },
        }

        let r2 = self.chart_explorer_update(tokens);
        let ghost mid2 = *self;
        let ghost gr2 = r2;
        match &r2 {
            Ok(ExplorerOutcome::NotClaimed) => {},
            Ok(ExplorerOutcome::Done) => {},
            Ok(ExplorerOutcome::NeedOpen) => {
                action = PendingAction::OpenFile { path: tokens[1].clone() };
            },
            Err(e) => {
                let m = e.message();
                self.set_error(Some(m));
                errored = true;
            },
        }

        let r3 = self.general_update(tokens);
        let ghost gr3 = r3;
        match &r3 {
            Ok(_) => {},
            Err(e) => {
                let m = e.message();
                self.set_error(Some(m));
                errored = true;
            },
        }

        if self.error.is_none() {
            let cmd_left = match &self.command {
                Some(c) => Some(c.clone()),
                None => None,
            };
            if let Some(c) = cmd_left {
                let m = CommandError::CommandSyntax(c).message();
                self.set_error(Some(m));
            }
        }
        self.set_command(None);
        proof {
            let fin = *self;
            if tokens@.len() > 0 {
                crate::commands::lemma_verbs_disjoint(tokens@[0]@);
            }
            if tokens_empty_command(tokens@) {
            } else if spec_chart_view_command(tokens@[0]@) is Some {
                match gr1 {
                    Result::Err(e) => {
                        assert(chart_view_step(pre, tokens@, mid1, gr1));
                        assert(state_errored(pre, fin, spec_error_message(e)));
                        assert(wrap_view(pre, tokens@, fin, action));
                    },
                    Result::Ok(o) => {
                        assert(o != ChartViewOutcome::NotClaimed);
                        assert(chart_view_step(pre, tokens@, fin, gr1));
                        assert(wrap_view(pre, tokens@, fin, action));
                    },
                }
            } else if spec_chart_explorer_command(tokens@[0]@) is Some {
                match gr2 {
                    Result::Err(e) => {
                        assert(explorer_step(pre, tokens@, mid2, gr2));
                        assert(state_errored(pre, fin, spec_error_message(e)));
                        assert(wrap_explorer(pre, tokens@, fin, action));
                    },
                    Result::Ok(o) => {
                        assert(o != ExplorerOutcome::NotClaimed);
                        assert(explorer_step(pre, tokens@, fin, gr2));
                        assert(wrap_explorer(pre, tokens@, fin, action));
                    },
                }
            } else if spec_general_command(tokens@[0]@) matches Some(g)
                && g != GeneralCommands::OpenSettings {
                assert(gr3 == Result::<bool, CommandError>::Ok(true));
                assert(general_step(pre, tokens@, fin, Result::<bool, CommandError>::Ok(true)));
                assert(wrap_general(pre, tokens@, fin, action));
            } else {
            }
        }
        action
    }
}


impl ApplicationState {
    /// Finish a spectrum command: the caller computed the current chart's
    /// raw complex spectrum (fixed-point re/im pairs, natural bin order)
    /// and hands it back; the post-processed display spectrum becomes a new
    /// chart and the current selection.
    pub fn complete_fft(&mut self, bins: &Vec<(i64, i64)>)
        requires
            old(self).wf(),
            old(self).charts@.len() > 0,
        ensures
            final(self).wf(),
            final(self).charts@.len() == old(self).charts@.len() + 1,
            state_added(*old(self), *final(self), final(self).charts@.last()),
            ({
                let src = old(self).charts@[old(self).current_chart_id as int];
                let pts = crate::transform::spec_fft_points(
                    bins@,
                    crate::transform::spec_freq_res(src.sample_rate as int, bins@.len() as int),
                    bins@.len() as int,
                );
                derived_chart_ok(src, final(self).charts@.last(), pts, ChartTransform::Fft)
            }),
    {
        let sample_rate = self.charts[self.current_chart_id].sample_rate;
        let pts = crate::transform::fft_forward(bins, sample_rate);
        self.push_derived(pts, ChartTransform::Fft);
    }

    /// Finish a short-time spectrum command: the caller computed one
    /// windowed spectrum per frame; their mean powers become a new chart
    /// and the current selection.
    pub fn complete_stft(&mut self, frames: &Vec<Vec<(i64, i64)>>)
        requires
            old(self).wf(),
            old(self).charts@.len() > 0,
        ensures
            final(self).wf(),
            final(self).charts@.len() == old(self).charts@.len() + 1,
            state_added(*old(self), *final(self), final(self).charts@.last()),
            ({
                let src = old(self).charts@[old(self).current_chart_id as int];
                let c = final(self).charts@.last();
                &&& c.data@.len() == frames@.len()
                &&& forall|t: int|
                    0 <= t < c.data@.len() ==> (#[trigger] c.data@[t]).x as int == fx_clamp(
                        (crate::fx::FX_SCALE as int) * t,
                    ) && c.data@[t].y as int == crate::transform::spec_frame_power(frames@[t]@)
                &&& derived_chart_ok(src, c, c.data@, ChartTransform::Stft)
            }),
    {
        let pts = crate::transform::stft_forward(frames);
        self.push_derived(pts, ChartTransform::Stft);
    }

    /// Finish an open command: the caller read the file into bytes and
    /// extracted its extension and stem.  A path with no extension is
    /// silently ignored; an unsupported extension or a malformed file is
    /// surfaced in error mode; a well-formed file becomes a new chart named
    /// after the stem.
    pub fn complete_open(&mut self, extension: Option<&str>, bytes: &Vec<u8>, title: &str)
        requires
            old(self).wf(),
        ensures
            final(self).wf(),
            extension is None ==> *final(self) == *old(self),
            extension matches Some(ext) ==> match spec_file_type(ext@) {
                None => state_errored_keep_command(*old(self), *final(self),
                    "Unsupported file type"@),
                Some(FileType::Vibric) => ({
                    ||| (exists|e: DecodeError|
                        decode_err(bytes@, e) && state_errored_keep_command(*old(self),
                            *final(self), spec_decode_message(e)))
                    ||| (decode_ok(bytes@) && final(self).charts@.len() == old(self).charts@.len()
                        + 1 && opened_chart(*old(self), *final(self), bytes@, title@))
                }),
            },
    {
        let ext = match extension {
            Some(e) => e,
            None => {
                return ;
            },
        };
        match crate::files::file_type_from_extension(ext) {
            Err(fe) => {
                let m = fe.message();
                self.set_error(Some(m));
            },
            Ok(FileType::Vibric) => {
                match decode_vibric(bytes, 0, title) {
                    Err(de) => {
                        let m = de.message();
                        self.set_error(Some(m));
                        proof {
                            assert(decode_err(bytes@, de));
                        }
                    },
                    Ok(chart) => {
                        self.add_chart(chart);
                    },
                }
            },
        }
    }
}

/// `post` is `pre` in error mode with message `msg`; unlike a dispatch
/// error the pending command slot is not touched (completions run after
/// the dispatcher already consumed it).
pub open spec fn state_errored_keep_command(
    pre: ApplicationState,
    post: ApplicationState,
    msg: Seq<char>,
) -> bool {
    &&& post.is_running == pre.is_running
    &&& post.mode == ApplicationMode::Error
    &&& match post.error {
        Some(e) => e@ == msg,
        None => false,
    }
    &&& post.command == pre.command
    &&& post.charts@ == pre.charts@
    &&& post.current_chart_id == pre.current_chart_id
    &&& post.workspace_size == pre.workspace_size
    &&& post.version_component_size == pre.version_component_size
    &&& post.help_component_size == pre.help_component_size
    &&& post.chart_workspace_size == pre.chart_workspace_size
    &&& post.file_explorer_size == pre.file_explorer_size
}

/// The message a decode error renders as.
pub open spec fn spec_decode_message(e: DecodeError) -> Seq<char> {
    match e {
        DecodeError::BadSignature => "Vibric file: bad signature"@,
        DecodeError::Truncated => "Vibric file: truncated data"@,
        DecodeError::InvalidChannel => "Vibric file: no such channel"@,
    }
}

/// The bytes fail to decode as channel 0 of a Vibric file with error `e`.
pub open spec fn decode_err(b: Seq<u8>, e: DecodeError) -> bool {
    match e {
        DecodeError::Truncated => b.len() < 4 || (crate::vibric::has_signature(b) && (b.len()
            < crate::vibric::VIBRIC_HEADER_SIZE || b.len() < crate::vibric::VIBRIC_HEADER_SIZE + 4
            * (crate::vibric::spec_header(b).data_size as int))),
        DecodeError::BadSignature => b.len() >= 4 && !crate::vibric::has_signature(b),
        DecodeError::InvalidChannel => crate::vibric::has_signature(b) && b.len()
            >= crate::vibric::VIBRIC_HEADER_SIZE + 4 * (crate::vibric::spec_header(
            b,
        ).data_size as int) && crate::vibric::spec_header(b).channels == 0,
    }
}

/// The bytes decode as channel 0 of a Vibric file.
pub open spec fn decode_ok(b: Seq<u8>) -> bool {
    &&& crate::vibric::has_signature(b)
    &&& b.len() >= crate::vibric::VIBRIC_HEADER_SIZE + 4 * (crate::vibric::spec_header(
        b,
    ).data_size as int)
    &&& crate::vibric::spec_header(b).channels > 0
}

/// The chart appended by a successful open: channel 0 of the decoded file,
/// named after the file's stem, with the decoder's point and bound
/// contract.
pub open spec fn opened_chart(
    pre: ApplicationState,
    post: ApplicationState,
    b: Seq<u8>,
    title: Seq<char>,
) -> bool {
    let h = crate::vibric::spec_header(b);
    let count = crate::vibric::spec_channel_count(h.data_size as int, h.channels as int, 0);
    let c = post.charts@.last();
    &&& post.charts@ =~= pre.charts@.push(c)
    &&& post.current_chart_id == pre.charts@.len()
    &&& post.is_running == pre.is_running
    &&& post.mode == pre.mode
    &&& post.error == pre.error
    &&& post.command == pre.command
    &&& post.workspace_size == pre.workspace_size
    &&& post.version_component_size == pre.version_component_size
    &&& post.help_component_size == pre.help_component_size
    &&& post.chart_workspace_size == pre.chart_workspace_size
    &&& post.file_explorer_size == pre.file_explorer_size
    &&& c.data@.len() == count
    &&& forall|k: int|
        0 <= k < count ==> c.data@[k] == crate::vibric::spec_channel_point(b, h, 0, k)
    &&& c.sample_rate as int == crate::vibric::spec_sample_rate(h)
    &&& c.metadata.title@ == title
    &&& c.metadata.transform == ChartTransform::Standard
    &&& c.metadata.chart_display_type == crate::chart::DisplayType::Line
    &&& c.x_min == min_x(c.data@)
    &&& c.x_max == max_x(c.data@)
    &&& c.y_min == fx_clamp(min_y(c.data@) - CHART_Y_MARGIN)
    &&& c.y_max == fx_clamp(max_y(c.data@) + CHART_Y_MARGIN)
}

} // verus!
