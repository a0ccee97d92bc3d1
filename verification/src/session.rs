//! Session store: the ordered charts of one working session, the current
//! selection, the application mode, the pending command and the viewport
//! operations on the current chart.

use vstd::prelude::*;
use crate::chart::{ChartModel, Point};
use crate::errors::ChartViewError;
use crate::fx::{fx_ok, fx_clamp, fx_mul_div_spec, fx_mul_div, fx_add, fx_sub, FX_SCALE, FX_BOUND};

verus! {

/// Interaction mode of the application.
#[derive(Clone, Copy, PartialEq, Eq, Structural, Debug)]
pub enum ApplicationMode {
    Input,
    Error,
    Explorer,
    Static,
}

/// Numerator of the factor applied to the X half-width on zoom in (4/5).
pub const ZOOM_IN_NUM: i64 = 4;

/// Denominator of the factor applied to the X half-width on zoom in.
pub const ZOOM_IN_DEN: i64 = 5;

/// Numerator of the factor applied to the X half-width on zoom out (6/5).
pub const ZOOM_OUT_NUM: i64 = 6;

/// Denominator of the factor applied to the X half-width on zoom out.
pub const ZOOM_OUT_DEN: i64 = 5;

/// Number of grid steps the canvas is divided into; one pan step moves a
/// tenth of one grid step.
pub const CANVAS_STEPS: i64 = 17;

/// The new X half-width after one scale operation on half-width `half` with
/// fixed-point multiplier `mult`: zooming in multiplies by
/// `ZOOM_IN_NUM/ZOOM_IN_DEN * mult`, zooming out by
/// `ZOOM_OUT_NUM/ZOOM_OUT_DEN / mult`, each step saturating.
pub open spec fn spec_scaled_half(half: int, zoom_in: bool, mult: int) -> int {
    if zoom_in {
        fx_mul_div_spec(fx_mul_div_spec(half, mult, FX_SCALE as int), ZOOM_IN_NUM as int,
            ZOOM_IN_DEN as int)
    } else {
        fx_mul_div_spec(fx_mul_div_spec(half, FX_SCALE as int, mult), ZOOM_OUT_NUM as int,
            ZOOM_OUT_DEN as int)
    }
}

/// Least `y` among the points of `s` whose `x` lies in `[lo, hi]`, or `None`
/// when no point does.
pub open spec fn min_y_in_window(s: Seq<Point>, lo: int, hi: int) -> Option<int>
    decreases s.len(),
{
    if s.len() == 0 {
        None
    } else {
        let rest = min_y_in_window(s.drop_first(), lo, hi);
        if lo <= s[0].x as int <= hi {
            match rest {
                None => Some(s[0].y as int),
                Some(m) => Some(if s[0].y as int <= m { s[0].y as int } else { m }),
            }
        } else {
            rest
        }
    }
}

/// Greatest `y` among the points of `s` whose `x` lies in `[lo, hi]`, or
/// `None` when no point does.
pub open spec fn max_y_in_window(s: Seq<Point>, lo: int, hi: int) -> Option<int>
    decreases s.len(),
{
    if s.len() == 0 {
        None
    } else {
        let rest = max_y_in_window(s.drop_first(), lo, hi);
        if lo <= s[0].x as int <= hi {
            match rest {
                None => Some(s[0].y as int),
                Some(m) => Some(if s[0].y as int >= m { s[0].y as int } else { m }),
            }
        } else {
            rest
        }
    }
}

/// The current index after switching to chart `id` in a session of `len`
/// charts.
pub open spec fn spec_switch(id: int, len: int) -> int
    recommends
        len > 0,
{
    id % len
}

/// The current index after one forward (`offset == 1`) or backward
/// (`offset == len - 1`) wraparound step from `cur`.
pub open spec fn spec_advance(cur: int, offset: int, len: int) -> int
    recommends
        len > 0,
{
    (cur + offset) % len
}

/// Shared state of one run: mode, layout sizes, the pending command, the
/// last error, and the session's charts with their current selection.
pub struct ApplicationState {
    pub is_running: bool,
    pub mode: ApplicationMode,
    pub workspace_size: u16,
    pub version_component_size: u16,
    pub help_component_size: u16,
    pub chart_workspace_size: u16,
    pub file_explorer_size: u16,
    pub command: Option<String>,
    pub error: Option<String>,
    pub charts: Vec<ChartModel>,
    pub current_chart_id: usize,
}

impl ApplicationState {
    /// Invariant: the current index stays in range while charts exist, is 0
    /// when none do, and every chart keeps its viewport well-formed.
    pub open spec fn wf(self) -> bool {
        &&& self.charts@.len() == 0 ==> self.current_chart_id == 0
        &&& self.charts@.len() > 0 ==> self.current_chart_id < self.charts@.len()
        &&& forall|i: int| 0 <= i < self.charts@.len() ==> (#[trigger] self.charts@[i]).wf()
    }

    pub open spec fn spec_mode(self) -> ApplicationMode {
        self.mode
    }

    pub open spec fn spec_is_running(self) -> bool {
        self.is_running
    }

    pub open spec fn spec_command(self) -> Option<String> {
        self.command
    }

    pub open spec fn spec_error(self) -> Option<String> {
        self.error
    }

    pub open spec fn spec_charts(self) -> Seq<ChartModel> {
        self.charts@
    }

    pub open spec fn spec_current_id(self) -> int {
        self.current_chart_id as int
    }

    pub open spec fn spec_workspace_size(self) -> int {
        self.workspace_size as int
    }

    pub open spec fn spec_version_component_size(self) -> int {
        self.version_component_size as int
    }

    pub open spec fn spec_help_component_size(self) -> int {
        self.help_component_size as int
    }

    pub open spec fn spec_chart_workspace_size(self) -> int {
        self.chart_workspace_size as int
    }

    pub open spec fn spec_file_explorer_size(self) -> int {
        self.file_explorer_size as int
    }

    /// A fresh session: running, static mode, explorer shown at 15% beside
    /// an 85% chart workspace, no command, no error, no charts.
    pub fn new() -> (r: ApplicationState)
        ensures
            r.wf(),
            r.spec_is_running(),
            r.spec_mode() == ApplicationMode::Static,
            r.spec_file_explorer_size() == 15,
            r.spec_chart_workspace_size() == 85,
            r.spec_workspace_size() == 100,
            r.spec_version_component_size() == 0,
            r.spec_help_component_size() == 0,
            r.spec_command() is None,
            r.spec_error() is None,
            r.spec_charts() =~= Seq::<ChartModel>::empty(),
            r.spec_current_id() == 0,
    {
        ApplicationState {
            is_running: true,
            mode: ApplicationMode::Static,
            file_explorer_size: 15,
            chart_workspace_size: 85,
            workspace_size: 100,
            version_component_size: 0,
            help_component_size: 0,
            command: None,
            error: None,
            charts: Vec::new(),
            current_chart_id: 0,
        }
    }

    pub fn is_running(&self) -> (r: bool)
        ensures
            r == self.spec_is_running(),
    {
        self.is_running
    }

    pub fn mode(&self) -> (r: ApplicationMode)
        ensures
            r == self.spec_mode(),
    {
        self.mode
    }

    pub fn file_explorer_size(&self) -> (r: u16)
        ensures
            r as int == self.spec_file_explorer_size(),
    {
        self.file_explorer_size
    }

    pub fn chart_workspace_size(&self) -> (r: u16)
        ensures
            r as int == self.spec_chart_workspace_size(),
    {
        self.chart_workspace_size
    }

    pub fn workspace_size(&self) -> (r: u16)
        ensures
            r as int == self.spec_workspace_size(),
    {
        self.workspace_size
    }

    pub fn version_component_size(&self) -> (r: u16)
        ensures
            r as int == self.spec_version_component_size(),
    {
        self.version_component_size
    }

    pub fn help_component_size(&self) -> (r: u16)
        ensures
            r as int == self.spec_help_component_size(),
    {
        self.help_component_size
    }

    pub fn command(&self) -> (r: &Option<String>)
        ensures
            r == self.spec_command(),
    {
        &self.command
    }

    pub fn error(&self) -> (r: &Option<String>)
        ensures
            r == self.spec_error(),
    {
        &self.error
    }

    /// Store (or clear) the pending command; nothing else changes.
    pub fn set_command(&mut self, command: Option<String>)
        ensures
            final(self).spec_command() == command,
            unchanged_but_command(*old(self), *final(self)),
    {
        self.command = command;
    }

    /// Record an error (or clear the slot) and enter error mode.  Returns
    /// true so a key-handling chain can fold it into a boolean guard.
    pub fn set_error(&mut self, error: Option<String>) -> (r: bool)
        ensures
            r,
            final(self).spec_mode() == ApplicationMode::Error,
            final(self).spec_error() == error,
            unchanged_but_mode_error(*old(self), *final(self)),
    {
        self.mode = ApplicationMode::Error;
        self.error = error;
        true
    }

    pub fn to_input_mode(&mut self)
        ensures
            final(self).spec_mode() == ApplicationMode::Input,
            unchanged_but_mode_error(*old(self), *final(self)),
            final(self).spec_error() == old(self).spec_error(),
    {
        self.mode = ApplicationMode::Input;
    }

    pub fn to_explorer_mode(&mut self)
        ensures
            final(self).spec_mode() == ApplicationMode::Explorer,
            unchanged_but_mode_error(*old(self), *final(self)),
            final(self).spec_error() == old(self).spec_error(),
    {
        self.mode = ApplicationMode::Explorer;
    }

    /// Back to static mode: the side widgets collapse and the workspace
    /// takes the whole width again.
    pub fn to_static_mode(&mut self)
        ensures
            final(self).spec_mode() == ApplicationMode::Static,
            final(self).spec_version_component_size() == 0,
            final(self).spec_help_component_size() == 0,
            final(self).spec_workspace_size() == 100,
            unchanged_but_layout(*old(self), *final(self)),
    {
        self.mode = ApplicationMode::Static;
        self.version_component_size = 0;
        self.help_component_size = 0;
        self.workspace_size = 100;
    }

    pub fn quit(&mut self)
        ensures
            !final(self).spec_is_running(),
            unchanged_but_running(*old(self), *final(self)),
    {
        self.is_running = false;
    }

    /// Show the version widget over the whole width.
    pub fn show_version(&mut self)
        ensures
            final(self).spec_mode() == ApplicationMode::Static,
            final(self).spec_workspace_size() == 0,
            final(self).spec_version_component_size() == 100,
            final(self).spec_help_component_size() == 0,
            unchanged_but_layout(*old(self), *final(self)),
    {
        self.to_static_mode();
        self.workspace_size = 0;
        self.version_component_size = 100;
    }

    /// Show the command table over the whole width.
    pub fn show_help(&mut self)
        ensures
            final(self).spec_mode() == ApplicationMode::Static,
            final(self).spec_workspace_size() == 0,
            final(self).spec_help_component_size() == 100,
            final(self).spec_version_component_size() == 0,
            unchanged_but_layout(*old(self), *final(self)),
    {
        self.to_static_mode();
        self.workspace_size = 0;
        self.help_component_size = 100;
    }

    /// Toggle the file explorer between hidden and a 15% column.
    pub fn change_file_explorer_visibility(&mut self)
        ensures
            old(self).spec_file_explorer_size() == 0 ==> final(self).spec_file_explorer_size()
                == 15 && final(self).spec_chart_workspace_size() == 85,
            old(self).spec_file_explorer_size() != 0 ==> final(self).spec_file_explorer_size() == 0
                && final(self).spec_chart_workspace_size() == 100,
            unchanged_but_explorer(*old(self), *final(self)),
    {
        if self.file_explorer_size == 0 {
            self.file_explorer_size = 15;
            self.chart_workspace_size = 85;
        } else {
            self.file_explorer_size = 0;
            self.chart_workspace_size = 100;
        }
    }

    pub fn charts(&self) -> (r: &Vec<ChartModel>)
        ensures
            r@ == self.spec_charts(),
    {
        &self.charts
    }

    pub fn current_chart_id(&self) -> (r: usize)
        ensures
            r as int == self.spec_current_id(),
    {
        self.current_chart_id
    }

    /// The current chart, or none when the session is empty.
    pub fn get_current_chart(&self) -> (r: Option<&ChartModel>)
        requires
            self.wf(),
        ensures
            self.spec_charts().len() == 0 ==> r is None,
            self.spec_charts().len() > 0 ==> r == Some(
                &self.spec_charts()[self.spec_current_id()],
            ),
    {
        if self.charts.len() == 0 {
            None
        } else {
            Some(&self.charts[self.current_chart_id])
        }
    }

    /// Append a chart; it becomes the current one.
    pub fn add_chart(&mut self, data: ChartModel)
        requires
            old(self).wf(),
            data.wf(),
        ensures
            final(self).wf(),
            final(self).spec_charts() =~= old(self).spec_charts().push(data),
            final(self).spec_current_id() == old(self).spec_charts().len(),
            unchanged_but_charts(*old(self), *final(self)),
    {
        self.charts.push(data);
        self.current_chart_id = self.charts.len() - 1;
    }

    /// Remove the current chart; the selection moves one back (or stays at
    /// 0).  Removing from an empty session is a no-op, never a panic.
    pub fn delete_current_chart(&mut self)
        requires
            old(self).wf(),
        ensures
            final(self).wf(),
            old(self).spec_charts().len() == 0 ==> *final(self) == *old(self),
            old(self).spec_charts().len() > 0 ==> final(self).spec_charts() =~= old(
                self,
            ).spec_charts().remove(old(self).spec_current_id()),
            old(self).spec_charts().len() > 0 ==> final(self).spec_current_id() == if old(
                self,
            ).spec_current_id() > 0 {
                old(self).spec_current_id() - 1
            } else {
                0
            },
            unchanged_but_charts(*old(self), *final(self)),
    {
        if self.charts.len() > 0 {
            self.charts.remove(self.current_chart_id);
            if self.current_chart_id > 0 {
                self.current_chart_id = self.current_chart_id - 1;
            }
        }
    }

    /// Select chart `id mod len`; a no-op on an empty session (the guard the
    /// modulo needs).
    pub fn change_current_chart(&mut self, id: u32)
        requires
            old(self).wf(),
        ensures
            final(self).wf(),
            old(self).spec_charts().len() == 0 ==> *final(self) == *old(self),
            old(self).spec_charts().len() > 0 ==> final(self).spec_current_id() == spec_switch(
                id as int,
                old(self).spec_charts().len() as int,
            ),
            final(self).spec_charts() == old(self).spec_charts(),
            unchanged_but_charts(*old(self), *final(self)),
    {
        if self.charts.len() > 0 {
            self.current_chart_id = (id as usize) % self.charts.len();
        }
    }

    /// Move the selection forward by one, wrapping around; a no-op on an
    /// empty session.
    pub fn move_current_chart_forward(&mut self)
        requires
            old(self).wf(),
        ensures
            final(self).wf(),
            old(self).spec_charts().len() == 0 ==> *final(self) == *old(self),
            old(self).spec_charts().len() > 0 ==> final(self).spec_current_id() == spec_advance(
                old(self).spec_current_id(),
                1,
                old(self).spec_charts().len() as int,
            ),
            final(self).spec_charts() == old(self).spec_charts(),
            unchanged_but_charts(*old(self), *final(self)),
    {
        if self.charts.len() > 0 {
            self.current_chart_id = (self.current_chart_id + 1) % self.charts.len();
        }
    }

    /// Move the selection backward by one, wrapping around; a no-op on an
    /// empty session.
    pub fn move_current_chart_backward(&mut self)
        requires
            old(self).wf(),
        ensures
            final(self).wf(),
            old(self).spec_charts().len() == 0 ==> *final(self) == *old(self),
            old(self).spec_charts().len() > 0 ==> final(self).spec_current_id() == spec_advance(
                old(self).spec_current_id(),
                old(self).spec_charts().len() - 1,
                old(self).spec_charts().len() as int,
            ),
            final(self).spec_charts() == old(self).spec_charts(),
            unchanged_but_charts(*old(self), *final(self)),
    {
        let len = self.charts.len();
        if len > 0 {
            if self.current_chart_id == 0 {
                self.current_chart_id = len - 1;
            } else {
                self.current_chart_id = self.current_chart_id - 1;
            }
            proof {
                let c = old(self).spec_current_id();
                let l = old(self).spec_charts().len() as int;
                assert((c + (l - 1)) % l == if c == 0 {
                    l - 1
                } else {
                    c - 1
                }) by {
                    if c == 0 {
                        vstd::arithmetic::div_mod::lemma_small_mod((l - 1) as nat, l as nat);
                    } else {
                        assert(c + (l - 1) == l + (c - 1));
                        assert((l + (c - 1)) % l == (c - 1) % l) by {
                            vstd::arithmetic::div_mod::lemma_mod_add_multiples_vanish(
                                c - 1,
                                l,
                            );
                        }
                        vstd::arithmetic::div_mod::lemma_small_mod((c - 1) as nat, l as nat);
                    }
                }
            }
        }
    }
}

/// The shift applied to both X bounds by one pan of `points` steps on a
/// window of width `width`: a tenth of a canvas grid step per requested
/// step.
pub open spec fn spec_pan_shift(width: int, points: int) -> int {
    fx_mul_div_spec(width, points, CANVAS_STEPS as int * 10 * FX_SCALE as int)
}

/// The viewport a scale operation leaves on `pre`: the X window is resized
/// around its center, then the Y bounds are re-derived from the points whose
/// `x` falls inside the new X window, widened by one twentieth of their
/// spread; when no point falls inside, the Y bounds stay.  Data and metadata
/// are untouched.
pub open spec fn scale_result(pre: ChartModel, post: ChartModel, zoom_in: bool, mult: int) -> bool {
    let center = pre.x_min + (pre.x_max - pre.x_min) / 2;
    let half = spec_scaled_half((pre.x_max - pre.x_min) / 2, zoom_in, mult);
    let nx_min = fx_clamp(center - half);
    let nx_max = fx_clamp(center + half);
    &&& post.x_min == nx_min
    &&& post.x_max == nx_max
    &&& match (min_y_in_window(pre.data@, nx_min, nx_max), max_y_in_window(
        pre.data@,
        nx_min,
        nx_max,
    )) {
        (Some(lo), Some(hi)) => {
            let pad = (hi - lo) / 20;
            post.y_min == fx_clamp(lo - pad) && post.y_max == fx_clamp(hi + pad)
        },
        _ => post.y_min == pre.y_min && post.y_max == pre.y_max,
    }
    &&& post.data == pre.data
    &&& post.sample_rate == pre.sample_rate
    &&& post.metadata == pre.metadata
}

/// The viewport a pan operation leaves on `pre`: both X bounds move by the
/// same shift, so the width is preserved; a pan that would push a bound out
/// of the fixed-point range is a no-op; Y bounds are never touched by a pan.
pub open spec fn move_result(pre: ChartModel, post: ChartModel, left: bool, points: int) -> bool {
    let shift = if left {
        -spec_pan_shift(pre.x_max - pre.x_min, points)
    } else {
        spec_pan_shift(pre.x_max - pre.x_min, points)
    };
    &&& if fx_ok(pre.x_min + shift) && fx_ok(pre.x_max + shift) {
        post.x_min == pre.x_min + shift && post.x_max == pre.x_max + shift
    } else {
        post.x_min == pre.x_min && post.x_max == pre.x_max
    }
    &&& post.y_min == pre.y_min
    &&& post.y_max == pre.y_max
    &&& post.data == pre.data
    &&& post.sample_rate == pre.sample_rate
    &&& post.metadata == pre.metadata
}

/// Extending the scanned prefix by one point either starts, lowers/raises or
/// keeps the windowed Y bounds, depending on whether the new point's `x`
/// lies inside `[lo, hi]`.
proof fn lemma_window_push(s: Seq<Point>, p: Point, lo: int, hi: int)
    ensures
        min_y_in_window(s.push(p), lo, hi) == if lo <= p.x as int <= hi {
            match min_y_in_window(s, lo, hi) {
                None => Some(p.y as int),
                Some(m) => Some(if p.y as int <= m { p.y as int } else { m }),
            }
        } else {
            min_y_in_window(s, lo, hi)
        },
        max_y_in_window(s.push(p), lo, hi) == if lo <= p.x as int <= hi {
            match max_y_in_window(s, lo, hi) {
                None => Some(p.y as int),
                Some(m) => Some(if p.y as int >= m { p.y as int } else { m }),
            }
        } else {
            max_y_in_window(s, lo, hi)
        },
    decreases s.len(),
{
    if s.len() == 0 {
        assert(s.push(p)[0] == p);
        assert(s.push(p).drop_first() =~= Seq::<Point>::empty());
        assert(min_y_in_window(Seq::<Point>::empty(), lo, hi) is None);
        assert(max_y_in_window(Seq::<Point>::empty(), lo, hi) is None);
    } else {
        assert(s.push(p)[0] == s[0]);
        assert(s.push(p).drop_first() =~= s.drop_first().push(p));
        lemma_window_push(s.drop_first(), p, lo, hi);
    }
}

impl ApplicationState {
    /// Rescale the current chart's viewport around its X center: zooming in
    /// multiplies the half-width by the narrowing coefficient and the
    /// multiplier, zooming out by the widening coefficient over the
    /// multiplier.  Fails when the session has no chart; a non-positive
    /// multiplier leaves the viewport unchanged (the guard the zoom-out
    /// division needs).
    pub fn plot_scale(&mut self, zoom_in: bool, zoom_multiplier: i64) -> (r: Result<
        (),
        ChartViewError,
    >)
        requires
            old(self).wf(),
        ensures
            final(self).wf(),
            old(self).spec_charts().len() == 0 ==> r == Result::<(), ChartViewError>::Err(
                ChartViewError::NoCurrentChart,
            ) && *final(self) == *old(self),
            old(self).spec_charts().len() > 0 ==> r is Ok,
            old(self).spec_charts().len() > 0 && zoom_multiplier <= 0 ==> *final(self) == *old(
                self,
            ),
            old(self).spec_charts().len() > 0 && zoom_multiplier > 0 ==> final(self).spec_charts()
                =~= old(self).spec_charts().update(
                old(self).spec_current_id(),
                final(self).spec_charts()[old(self).spec_current_id()],
            ) && scale_result(
                old(self).spec_charts()[old(self).spec_current_id()],
                final(self).spec_charts()[old(self).spec_current_id()],
                zoom_in,
                zoom_multiplier as int,
            ),
            final(self).spec_current_id() == old(self).spec_current_id(),
            unchanged_but_charts(*old(self), *final(self)),
    {
        if self.charts.len() == 0 {
            return Err(ChartViewError::NoCurrentChart);
        }
        if zoom_multiplier <= 0 {
            return Ok(());
        }
        let idx = self.current_chart_id;
        let x_min = self.charts[idx].x_min;
        let x_max = self.charts[idx].x_max;
        let half: i64 = (x_max - x_min) / 2;
        let center: i64 = x_min + half;
        let new_half: i64 = if zoom_in {
            fx_mul_div(fx_mul_div(half, zoom_multiplier, FX_SCALE), ZOOM_IN_NUM, ZOOM_IN_DEN)
        } else {
            fx_mul_div(fx_mul_div(half, FX_SCALE, zoom_multiplier), ZOOM_OUT_NUM, ZOOM_OUT_DEN)
        };
        let nx_min = fx_sub(center, new_half);
        let nx_max = fx_add(center, new_half);
        proof {
            assert(half == (x_max - x_min) / 2int) by {
                assert(x_max - x_min >= 0);
            }
        }

        let n = self.charts[idx].data.len();
        let mut found: bool = false;
        let mut y_lo: i64 = 0;
        let mut y_hi: i64 = 0;
        let mut i: usize = 0;
        while i < n
            invariant
                0 <= i <= n,
                idx < self.charts@.len(),
                n == self.charts@[idx as int].data@.len(),
                forall|j: int|
                    0 <= j < self.charts@[idx as int].data@.len() ==> (
                    #[trigger] self.charts@[idx as int].data@[j]).wf(),
                !found ==> min_y_in_window(
                    self.charts@[idx as int].data@.take(i as int),
                    nx_min as int,
                    nx_max as int,
                ) is None && max_y_in_window(
                    self.charts@[idx as int].data@.take(i as int),
                    nx_min as int,
                    nx_max as int,
                ) is None,
                found ==> min_y_in_window(
                    self.charts@[idx as int].data@.take(i as int),
                    nx_min as int,
                    nx_max as int,
                ) == Some(y_lo as int) && max_y_in_window(
                    self.charts@[idx as int].data@.take(i as int),
                    nx_min as int,
                    nx_max as int,
                ) == Some(y_hi as int),
                found ==> y_lo <= y_hi && fx_ok(y_lo as int) && fx_ok(y_hi as int),
            decreases n - i,
        {
            let p = self.charts[idx].data[i];
            if p.x >= nx_min && p.x <= nx_max {
                if !found {
                    found = true;
                    y_lo = p.y;
                    y_hi = p.y;
                } else {
                    if p.y < y_lo {
                        y_lo = p.y;
                    }
                    if p.y > y_hi {
                        y_hi = p.y;
                    }
                }
            }
            proof {
                let data = self.charts@[idx as int].data@;
                lemma_window_push(data.take(i as int), data[i as int], nx_min as int,
                    nx_max as int);
                assert(data.take(i + 1) =~= data.take(i as int).push(data[i as int]));
            }
            i = i + 1;
        }
        proof {
            assert(self.charts@[idx as int].data@.take(n as int) =~= self.charts@[
                idx as int].data@);
        }

        let c = &mut self.charts[idx];
        c.x_min = nx_min;
        c.x_max = nx_max;
        if found {
            let pad: i64 = ((y_hi - y_lo) as u64 / 20) as i64;
            c.y_min = fx_sub(y_lo, pad);
            c.y_max = fx_add(y_hi, pad);
            proof {
                assert(pad == (y_hi as int - y_lo as int) / 20int) by {
                    assert(y_hi - y_lo >= 0);
                }
            }
        }
        Ok(())
    }

    /// Pan the current chart's X window by `points` tenths of a grid step,
    /// preserving its width; Y bounds are untouched.  A pan on an empty
    /// session, or one that would leave the fixed-point range, is a no-op.
    pub fn plot_move(&mut self, left: bool, points: i64)
        requires
            old(self).wf(),
        ensures
            final(self).wf(),
            old(self).spec_charts().len() == 0 ==> *final(self) == *old(self),
            old(self).spec_charts().len() > 0 ==> final(self).spec_charts() =~= old(
                self,
            ).spec_charts().update(
                old(self).spec_current_id(),
                final(self).spec_charts()[old(self).spec_current_id()],
            ) && move_result(
                old(self).spec_charts()[old(self).spec_current_id()],
                final(self).spec_charts()[old(self).spec_current_id()],
                left,
                points as int,
            ),
            final(self).spec_current_id() == old(self).spec_current_id(),
            unchanged_but_charts(*old(self), *final(self)),
    {
        if self.charts.len() == 0 {
            proof {
                assert(final(self).spec_charts() =~= old(self).spec_charts());
            }
            return ;
        }
        let idx = self.current_chart_id;
        let x_min = self.charts[idx].x_min;
        let x_max = self.charts[idx].x_max;
        let width: i64 = x_max - x_min;
        let delta: i64 = fx_mul_div(width, points, CANVAS_STEPS * 10 * FX_SCALE);
        let shift: i64 = if left {
            -delta
        } else {
            delta
        };
        let s1: i64 = x_min + shift;
        let s2: i64 = x_max + shift;
        if -FX_BOUND <= s1 && s1 <= FX_BOUND && -FX_BOUND <= s2 && s2 <= FX_BOUND {
            let c = &mut self.charts[idx];
            c.x_min = s1;
            c.x_max = s2;
        } else {
            proof {
                assert(self.charts@ =~= self.charts@.update(idx as int, self.charts@[idx as int]));
            }
        }
    }
}

/// Everything except the pending command is unchanged.
pub open spec fn unchanged_but_command(a: ApplicationState, b: ApplicationState) -> bool {
    &&& b.spec_is_running() == a.spec_is_running()
    &&& b.spec_mode() == a.spec_mode()
    &&& b.spec_error() == a.spec_error()
    &&& b.spec_charts() == a.spec_charts()
    &&& b.spec_current_id() == a.spec_current_id()
    &&& unchanged_layout_sizes(a, b)
}

/// Everything except mode and error slot is unchanged.
pub open spec fn unchanged_but_mode_error(a: ApplicationState, b: ApplicationState) -> bool {
    &&& b.spec_is_running() == a.spec_is_running()
    &&& b.spec_command() == a.spec_command()
    &&& b.spec_charts() == a.spec_charts()
    &&& b.spec_current_id() == a.spec_current_id()
    &&& unchanged_layout_sizes(a, b)
}

/// Everything except mode and the layout sizes is unchanged.
pub open spec fn unchanged_but_layout(a: ApplicationState, b: ApplicationState) -> bool {
    &&& b.spec_is_running() == a.spec_is_running()
    &&& b.spec_command() == a.spec_command()
    &&& b.spec_error() == a.spec_error()
    &&& b.spec_charts() == a.spec_charts()
    &&& b.spec_current_id() == a.spec_current_id()
    &&& b.spec_file_explorer_size() == a.spec_file_explorer_size()
    &&& b.spec_chart_workspace_size() == a.spec_chart_workspace_size()
}

/// Everything except the running flag is unchanged.
pub open spec fn unchanged_but_running(a: ApplicationState, b: ApplicationState) -> bool {
    &&& b.spec_mode() == a.spec_mode()
    &&& b.spec_command() == a.spec_command()
    &&& b.spec_error() == a.spec_error()
    &&& b.spec_charts() == a.spec_charts()
    &&& b.spec_current_id() == a.spec_current_id()
    &&& unchanged_layout_sizes(a, b)
}

/// Everything except the explorer/workspace split is unchanged.
pub open spec fn unchanged_but_explorer(a: ApplicationState, b: ApplicationState) -> bool {
    &&& b.spec_is_running() == a.spec_is_running()
    &&& b.spec_mode() == a.spec_mode()
    &&& b.spec_command() == a.spec_command()
    &&& b.spec_error() == a.spec_error()
    &&& b.spec_charts() == a.spec_charts()
    &&& b.spec_current_id() == a.spec_current_id()
    &&& b.spec_workspace_size() == a.spec_workspace_size()
    &&& b.spec_version_component_size() == a.spec_version_component_size()
    &&& b.spec_help_component_size() == a.spec_help_component_size()
}

/// Everything except the chart list and selection is unchanged.
pub open spec fn unchanged_but_charts(a: ApplicationState, b: ApplicationState) -> bool {
    &&& b.spec_is_running() == a.spec_is_running()
    &&& b.spec_mode() == a.spec_mode()
    &&& b.spec_command() == a.spec_command()
    &&& b.spec_error() == a.spec_error()
    &&& unchanged_layout_sizes(a, b)
}

/// All five layout sizes are unchanged.
pub open spec fn unchanged_layout_sizes(a: ApplicationState, b: ApplicationState) -> bool {
    &&& b.spec_workspace_size() == a.spec_workspace_size()
    &&& b.spec_version_component_size() == a.spec_version_component_size()
    &&& b.spec_help_component_size() == a.spec_help_component_size()
    &&& b.spec_file_explorer_size() == a.spec_file_explorer_size()
    &&& b.spec_chart_workspace_size() == a.spec_chart_workspace_size()
}

/// Switching to the same chart twice selects the index that one switch
/// selects: `switch` is idempotent.
pub proof fn lemma_switch_idempotent(id: int, len: int)
    requires
        len > 0,
        0 <= id,
    ensures
        spec_switch(spec_switch(id, len), len) == spec_switch(id, len),
{
    vstd::arithmetic::div_mod::lemma_mod_pos_bound(id, len);
    vstd::arithmetic::div_mod::lemma_small_mod((id % len) as nat, len as nat);
}

/// One step forward followed by one step backward (both wrapping) returns
/// the selection to where it started, for any non-empty session.
pub proof fn lemma_advance_round_trip(cur: int, len: int)
    requires
        len > 0,
        0 <= cur < len,
    ensures
        spec_advance(spec_advance(cur, 1, len), len - 1, len) == cur,
{
    vstd::arithmetic::div_mod::lemma_mod_pos_bound(cur + 1, len);
    let f = (cur + 1) % len;
    if cur + 1 < len {
        vstd::arithmetic::div_mod::lemma_small_mod((cur + 1) as nat, len as nat);
        assert(f == cur + 1);
        assert(f + (len - 1) == cur + len);
        vstd::arithmetic::div_mod::lemma_mod_add_multiples_vanish(cur, len);
        vstd::arithmetic::div_mod::lemma_small_mod(cur as nat, len as nat);
    } else {
        assert(cur + 1 == len);
        vstd::arithmetic::div_mod::lemma_mod_self_0(len);
        assert(f == 0);
        vstd::arithmetic::div_mod::lemma_small_mod((len - 1) as nat, len as nat);
        assert(spec_advance(0, len - 1, len) == len - 1);
        assert(cur == len - 1);
    }
}

} // verus!
