//! Viewport zoom and pan arithmetic, and the bound invariants they keep.

use suzu::chart::{ChartModel, DisplayType, Point};
use suzu::fx::{FX_BOUND, FX_SCALE};
use suzu::session::ApplicationState;

fn session_with(points: Vec<(i64, i64)>) -> ApplicationState {
    let pts: Vec<Point> = points.iter().map(|&(x, y)| Point::new(x, y)).collect();
    let mut s = ApplicationState::new();
    s.add_chart(ChartModel::new(pts, DisplayType::Line, FX_SCALE, "t", None));
    s
}

fn bounds(s: &ApplicationState) -> (i64, i64, i64, i64) {
    let c = s.get_current_chart().unwrap();
    (c.x_min, c.x_max, c.y_min, c.y_max)
}

#[test]
fn initial_bounds_cover_data_with_margin() {
    let s = session_with(vec![(0, 0), (2_000_000, 10_000_000)]);
    let (x0, x1, y0, y1) = bounds(&s);
    assert_eq!(x0, 0);
    assert_eq!(x1, 2_000_000);
    assert_eq!(y0, -70_000);
    assert_eq!(y1, 10_070_000);
}

#[test]
fn empty_chart_gets_finite_degenerate_bounds() {
    let s = session_with(vec![]);
    let (x0, x1, y0, y1) = bounds(&s);
    assert_eq!(x0, 0);
    assert_eq!(x1, 0);
    assert_eq!(y0, -70_000);
    assert_eq!(y1, 70_000);
    assert!(x0 <= x1 && y0 <= y1);
}

#[test]
fn zoom_in_shrinks_x_window_around_center() {
    let mut s = session_with(vec![(0, 0), (2_000_000, 10_000_000)]);
    // multiplier 1.0: the half-width 1.0 becomes 0.8 around center 1.0
    s.plot_scale(true, FX_SCALE).unwrap();
    let (x0, x1, y0, y1) = bounds(&s);
    assert_eq!(x0, 200_000);
    assert_eq!(x1, 1_800_000);
    // no point falls inside the new window, so Y stays put
    assert_eq!(y0, -70_000);
    assert_eq!(y1, 10_070_000);
}

#[test]
fn zoom_rescans_y_over_visible_points() {
    let mut s = session_with(vec![
        (0, 0),
        (1_000_000, 4_000_000),
        (2_000_000, 10_000_000),
    ]);
    s.plot_scale(true, FX_SCALE).unwrap();
    let (x0, x1, y0, y1) = bounds(&s);
    assert_eq!(x0, 200_000);
    assert_eq!(x1, 1_800_000);
    // only (1.0, 4.0) is visible: spread 0, so padding 0
    assert_eq!(y0, 4_000_000);
    assert_eq!(y1, 4_000_000);
}

#[test]
fn zoom_y_padding_is_one_twentieth_of_spread() {
    let mut s = session_with(vec![
        (900_000, 1_000_000),
        (1_100_000, 3_000_000),
        (5_000_000, 99_000_000),
    ]);
    s.plot_scale(true, FX_SCALE).unwrap();
    let c = s.get_current_chart().unwrap();
    // the new window [1.31, 4.59] holds none of the three points, so the
    // Y bounds keep their construction-time values
    assert_eq!(c.y_min, 1_000_000 - 70_000);
    assert_eq!(c.y_max, 99_000_000 + 70_000);
}

#[test]
fn zoom_out_widens_x_window() {
    let mut s = session_with(vec![(0, 0), (2_000_000, 10_000_000)]);
    s.plot_scale(false, FX_SCALE).unwrap();
    let (x0, x1, _, _) = bounds(&s);
    // half-width 1.0 becomes 1.2 around center 1.0
    assert_eq!(x0, -200_000);
    assert_eq!(x1, 2_200_000);
}

#[test]
fn zoom_with_zero_multiplier_is_a_guarded_no_op() {
    let mut s = session_with(vec![(0, 0), (2_000_000, 10_000_000)]);
    assert!(s.plot_scale(false, 0).is_ok());
    let (x0, x1, _, _) = bounds(&s);
    assert_eq!(x0, 0);
    assert_eq!(x1, 2_000_000);
}

#[test]
fn zoom_on_empty_session_fails() {
    let mut s = ApplicationState::new();
    assert!(s.plot_scale(true, FX_SCALE).is_err());
}

#[test]
fn pan_preserves_width() {
    let mut s = session_with(vec![(0, 0), (1_700_000, 1_000_000)]);
    // width 1.7, one step right: 1.7 * 1.0 / 170 = 0.01
    s.plot_move(false, FX_SCALE);
    let (x0, x1, y0, y1) = bounds(&s);
    assert_eq!(x0, 10_000);
    assert_eq!(x1, 1_710_000);
    assert_eq!(x1 - x0, 1_700_000);
    // pan never touches Y
    assert_eq!(y0, -70_000);
    assert_eq!(y1, 1_070_000);
    s.plot_move(true, FX_SCALE);
    let (x0b, x1b, _, _) = bounds(&s);
    assert_eq!(x0b, 0);
    assert_eq!(x1b, 1_700_000);
}

#[test]
fn bounds_stay_ordered_and_finite_under_any_op_sequence() {
    let mut s = session_with(vec![(0, 0), (2_000_000, 10_000_000), (-5, 7)]);
    let multipliers = [1, 0, FX_SCALE, 37, i64::MAX, 250_000, -3];
    for (i, &m) in multipliers.iter().enumerate() {
        let _ = s.plot_scale(i % 2 == 0, m);
        s.plot_move(i % 3 == 0, m);
        let (x0, x1, y0, y1) = bounds(&s);
        assert!(x0 <= x1, "x bounds out of order after step {}", i);
        assert!(y0 <= y1, "y bounds out of order after step {}", i);
        assert!(-FX_BOUND <= x0 && x1 <= FX_BOUND);
        assert!(-FX_BOUND <= y0 && y1 <= FX_BOUND);
    }
}
