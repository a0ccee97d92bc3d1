//! Session store behaviour: defaults, chart management, selection moves.

use suzu::chart::{ChartModel, DisplayType, Point};
use suzu::session::{ApplicationMode, ApplicationState};

fn chart_with(points: Vec<(i64, i64)>, title: &str) -> ChartModel {
    let pts: Vec<Point> = points.iter().map(|&(x, y)| Point::new(x, y)).collect();
    ChartModel::new(pts, DisplayType::Line, 1_000_000, title, None)
}

#[test]
fn new_session_defaults() {
    let s = ApplicationState::new();
    assert!(s.is_running());
    assert_eq!(s.mode(), ApplicationMode::Static);
    assert_eq!(s.file_explorer_size(), 15);
    assert_eq!(s.chart_workspace_size(), 85);
    assert_eq!(s.workspace_size(), 100);
    assert_eq!(s.version_component_size(), 0);
    assert_eq!(s.help_component_size(), 0);
    assert!(s.command().is_none());
    assert!(s.error().is_none());
    assert_eq!(s.charts().len(), 0);
    assert_eq!(s.current_chart_id(), 0);
    assert!(s.get_current_chart().is_none());
}

#[test]
fn add_makes_current() {
    let mut s = ApplicationState::new();
    s.add_chart(chart_with(vec![(0, 0)], "a"));
    s.add_chart(chart_with(vec![(1, 1)], "b"));
    assert_eq!(s.charts().len(), 2);
    assert_eq!(s.current_chart_id(), 1);
    assert_eq!(s.get_current_chart().unwrap().metadata.title, "b");
}

#[test]
fn delete_current_on_one_chart_session_empties_it() {
    let mut s = ApplicationState::new();
    s.add_chart(chart_with(vec![(0, 0)], "only"));
    s.delete_current_chart();
    assert_eq!(s.charts().len(), 0);
    assert!(s.get_current_chart().is_none());
    // a second delete is a no-op, not a panic
    s.delete_current_chart();
    assert_eq!(s.charts().len(), 0);
    assert!(s.get_current_chart().is_none());
}

#[test]
fn delete_moves_selection_back() {
    let mut s = ApplicationState::new();
    s.add_chart(chart_with(vec![(0, 0)], "a"));
    s.add_chart(chart_with(vec![(1, 1)], "b"));
    s.add_chart(chart_with(vec![(2, 2)], "c"));
    assert_eq!(s.current_chart_id(), 2);
    s.delete_current_chart();
    assert_eq!(s.charts().len(), 2);
    assert_eq!(s.current_chart_id(), 1);
    assert_eq!(s.get_current_chart().unwrap().metadata.title, "b");
}

#[test]
fn switch_is_idempotent() {
    let mut s = ApplicationState::new();
    s.add_chart(chart_with(vec![(0, 0)], "a"));
    s.add_chart(chart_with(vec![(1, 1)], "b"));
    s.add_chart(chart_with(vec![(2, 2)], "c"));
    s.change_current_chart(7);
    assert_eq!(s.current_chart_id(), 1); // 7 mod 3
    s.change_current_chart(7);
    assert_eq!(s.current_chart_id(), 1);
}

#[test]
fn switch_on_empty_session_is_guarded() {
    let mut s = ApplicationState::new();
    s.change_current_chart(5);
    assert_eq!(s.current_chart_id(), 0);
    assert_eq!(s.charts().len(), 0);
}

#[test]
fn advance_round_trip() {
    let mut s = ApplicationState::new();
    s.add_chart(chart_with(vec![(0, 0)], "a"));
    s.add_chart(chart_with(vec![(1, 1)], "b"));
    s.add_chart(chart_with(vec![(2, 2)], "c"));
    s.change_current_chart(1);
    s.move_current_chart_forward();
    assert_eq!(s.current_chart_id(), 2);
    s.move_current_chart_backward();
    assert_eq!(s.current_chart_id(), 1);
    // wraparound at the ends
    s.change_current_chart(2);
    s.move_current_chart_forward();
    assert_eq!(s.current_chart_id(), 0);
    s.move_current_chart_backward();
    assert_eq!(s.current_chart_id(), 2);
}

#[test]
fn mode_transitions() {
    let mut s = ApplicationState::new();
    s.to_input_mode();
    assert_eq!(s.mode(), ApplicationMode::Input);
    s.to_explorer_mode();
    assert_eq!(s.mode(), ApplicationMode::Explorer);
    s.to_static_mode();
    assert_eq!(s.mode(), ApplicationMode::Static);
    assert_eq!(s.workspace_size(), 100);
    s.show_version();
    assert_eq!(s.workspace_size(), 0);
    assert_eq!(s.version_component_size(), 100);
    s.show_help();
    assert_eq!(s.help_component_size(), 100);
    assert_eq!(s.version_component_size(), 0);
    s.quit();
    assert!(!s.is_running());
}

#[test]
fn explorer_visibility_toggles() {
    let mut s = ApplicationState::new();
    s.change_file_explorer_visibility();
    assert_eq!(s.file_explorer_size(), 0);
    assert_eq!(s.chart_workspace_size(), 100);
    s.change_file_explorer_visibility();
    assert_eq!(s.file_explorer_size(), 15);
    assert_eq!(s.chart_workspace_size(), 85);
}

#[test]
fn set_error_enters_error_mode() {
    let mut s = ApplicationState::new();
    let flagged = s.set_error(Some(String::from("boom")));
    assert!(flagged);
    assert_eq!(s.mode(), ApplicationMode::Error);
    assert_eq!(s.error().as_deref(), Some("boom"));
}
