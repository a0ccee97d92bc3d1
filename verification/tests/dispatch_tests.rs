//! Command dispatch: claiming, arity and type errors, the syntax fallback,
//! and the completion flows for outside work.

use suzu::chart::{ChartModel, ChartTransform, DisplayType, Point};
use suzu::dispatch::PendingAction;
use suzu::errors::{ChartProcessingError, ChartViewError, CommandError, GraphicViewError};
use suzu::session::{ApplicationMode, ApplicationState};

fn toks(line: &str) -> Vec<String> {
    line.split_whitespace().map(String::from).collect()
}

fn session_with_chart() -> ApplicationState {
    let pts = vec![
        Point::new(0, 0),
        Point::new(1_000_000, 2_000_000),
        Point::new(2_000_000, 1_000_000),
    ];
    let mut s = ApplicationState::new();
    s.add_chart(ChartModel::new(pts, DisplayType::Line, 4_000_000, "rec", None));
    s
}

fn dispatch(s: &mut ApplicationState, line: &str) -> PendingAction {
    s.set_command(Some(String::from(line)));
    let tokens = toks(line);
    s.process_pending(&tokens)
}

#[test]
fn unparsable_filter_argument_is_reported() {
    let mut s = session_with_chart();
    let a = dispatch(&mut s, ":flp abc");
    assert!(matches!(a, PendingAction::Nothing));
    assert_eq!(s.error().as_deref(), Some("Invalid argument: abc, use :h for help"));
    assert_eq!(s.mode(), ApplicationMode::Error);
    assert!(s.command().is_none());
    assert_eq!(s.charts().len(), 1);
}

#[test]
fn missing_argument_precedes_the_chart_check() {
    // argument validation comes before the no-chart check, consistently
    let mut s = ApplicationState::new();
    let a = dispatch(&mut s, ":swv");
    assert!(matches!(a, PendingAction::Nothing));
    assert_eq!(s.error().as_deref(), Some("Not enough arguments, use :h for help"));
    // with the argument present the empty session is the error
    let mut s = ApplicationState::new();
    dispatch(&mut s, ":swv 2");
    assert_eq!(
        s.error().as_deref(),
        Some("No chart selected, use :of to open a chart file")
    );
}

#[test]
fn unrecognized_verb_reports_syntax_once_and_clears_the_command() {
    let mut s = ApplicationState::new();
    let a = dispatch(&mut s, ":xyz");
    assert!(matches!(a, PendingAction::Nothing));
    assert_eq!(s.error().as_deref(), Some("No such command: :xyz, use :h for help"));
    assert!(s.command().is_none());
    assert_eq!(s.mode(), ApplicationMode::Error);
}

#[test]
fn empty_command_is_reported() {
    let mut s = ApplicationState::new();
    dispatch(&mut s, ":");
    assert_eq!(s.error().as_deref(), Some("Try some commands, use :h for help"));
    assert!(s.command().is_none());
}

#[test]
fn settings_verb_resolves_but_binds_no_operation() {
    let mut s = ApplicationState::new();
    dispatch(&mut s, ":sf");
    assert_eq!(s.error().as_deref(), Some("No such command: :sf, use :h for help"));
}

#[test]
fn general_commands_mutate_the_session() {
    let mut s = ApplicationState::new();
    dispatch(&mut s, ":h");
    assert_eq!(s.help_component_size(), 100);
    assert!(s.error().is_none());
    dispatch(&mut s, ":a");
    assert_eq!(s.version_component_size(), 100);
    dispatch(&mut s, ":ce");
    assert_eq!(s.file_explorer_size(), 0);
    dispatch(&mut s, ":q");
    assert!(!s.is_running());
}

#[test]
fn switch_and_close_via_dispatch() {
    let mut s = session_with_chart();
    s.add_chart(ChartModel::new(vec![], DisplayType::Line, 0, "b", None));
    dispatch(&mut s, ":swv 5");
    assert_eq!(s.current_chart_id(), 1); // 5 mod 2
    assert!(s.error().is_none());
    dispatch(&mut s, ":cwv");
    assert_eq!(s.charts().len(), 1);
    assert_eq!(s.current_chart_id(), 0);
}

#[test]
fn zoom_via_dispatch_rescales_the_current_chart() {
    let mut s = session_with_chart();
    dispatch(&mut s, ":zo 1.0");
    // :zo reaches the narrowing branch (mirroring the key bindings):
    // half-width 1.0 becomes 0.8 around center 1.0
    assert!(s.error().is_none());
    let c = s.get_current_chart().unwrap();
    assert_eq!(c.x_min, 200_000);
    assert_eq!(c.x_max, 1_800_000);
}

#[test]
fn filters_via_dispatch_derive_a_new_chart() {
    let mut s = session_with_chart();
    dispatch(&mut s, ":flp 1.5");
    assert!(s.error().is_none());
    assert_eq!(s.charts().len(), 2);
    assert_eq!(s.current_chart_id(), 1);
    let c = s.get_current_chart().unwrap();
    assert_eq!(c.metadata.transform, ChartTransform::Filtered);
    assert_eq!(c.metadata.title, "rec");
    assert_eq!(c.data.len(), 2); // x <= 1.5
    let mut s = session_with_chart();
    dispatch(&mut s, ":fbp 0.5 1.5");
    let c = s.get_current_chart().unwrap();
    assert_eq!(c.data.len(), 1); // 0.5 <= x <= 1.5
}

#[test]
fn haar_via_dispatch_derives_a_new_chart() {
    let mut s = session_with_chart();
    dispatch(&mut s, ":hwt");
    assert!(s.error().is_none());
    let c = s.get_current_chart().unwrap();
    assert_eq!(c.metadata.transform, ChartTransform::WaveletHaar);
    assert_eq!(c.data.len(), 2);
    assert_eq!(c.data[0].y, 1_000_000); // avg(0, 2.0)
    assert_eq!(c.data[1].y, 500_000); // avg(1.0, 0-padding)
}

#[test]
fn transforms_without_a_chart_are_rejected() {
    let mut s = ApplicationState::new();
    dispatch(&mut s, ":fft");
    assert_eq!(
        s.error().as_deref(),
        Some("No chart selected, use :of to open a chart file")
    );
    let mut s = ApplicationState::new();
    dispatch(&mut s, ":hwt");
    assert!(s.error().is_some());
}

#[test]
fn fft_flow_returns_an_action_and_completes() {
    let mut s = session_with_chart();
    let a = dispatch(&mut s, ":fft");
    assert!(matches!(a, PendingAction::Fft));
    assert!(s.command().is_none());
    assert!(s.error().is_none());
    // the caller computes the spectrum and hands it back
    let bins: Vec<(i64, i64)> = vec![(0, 0), (6_000_000, 0), (0, 0), (0, 0)];
    s.complete_fft(&bins);
    assert_eq!(s.charts().len(), 2);
    let c = s.get_current_chart().unwrap();
    assert_eq!(c.metadata.transform, ChartTransform::Fft);
    assert_eq!(c.data.len(), 1);
    assert_eq!(c.data[0].x, 1_000_000);
    assert_eq!(c.data[0].y, 3_000_000);
}

#[test]
fn stft_flow_validates_arguments_then_returns_an_action() {
    let mut s = session_with_chart();
    let a = dispatch(&mut s, ":sft 4 2");
    match a {
        PendingAction::Stft { window_size, hop_size } => {
            assert_eq!(window_size, 4);
            assert_eq!(hop_size, 2);
        },
        _ => panic!("expected a short-time transform action"),
    }
    let frames: Vec<Vec<(i64, i64)>> = vec![vec![(2_000_000, 0)], vec![(0, 0)]];
    s.complete_stft(&frames);
    let c = s.get_current_chart().unwrap();
    assert_eq!(c.metadata.transform, ChartTransform::Stft);
    assert_eq!(c.data.len(), 2);
    assert_eq!(c.data[0].y, 4_000_000);
    assert_eq!(c.data[1].y, 0);

    let mut s = session_with_chart();
    dispatch(&mut s, ":sft 4");
    assert_eq!(s.error().as_deref(), Some("Not enough arguments, use :h for help"));
    let mut s = session_with_chart();
    dispatch(&mut s, ":sft 4 x");
    assert_eq!(s.error().as_deref(), Some("Invalid argument: x, use :h for help"));
}

#[test]
fn open_flow_returns_the_path_then_completes_from_bytes() {
    let mut s = ApplicationState::new();
    let a = dispatch(&mut s, ":of /tmp/rec.bin");
    match a {
        PendingAction::OpenFile { path } => assert_eq!(path, "/tmp/rec.bin"),
        _ => panic!("expected an open action"),
    }
    assert!(s.command().is_none());
    // the caller reads the bytes; a malformed file is surfaced
    let bad = vec![1u8, 2, 3, 4, 5];
    s.complete_open(Some("bin"), &bad, "rec");
    assert_eq!(s.error().as_deref(), Some("Vibric file: bad signature"));
    // an unsupported extension is surfaced
    let mut s = ApplicationState::new();
    s.complete_open(Some("wav"), &bad, "rec");
    assert_eq!(s.error().as_deref(), Some("Unsupported file type"));
    // no extension: silently ignored
    let mut s = ApplicationState::new();
    s.complete_open(None, &bad, "rec");
    assert!(s.error().is_none());
    assert_eq!(s.charts().len(), 0);
}

#[test]
fn open_completion_decodes_a_well_formed_file() {
    let mut bytes = vec![86u8, 73, 66, 82];
    for word in [1u32, 2, 0, 0] {
        bytes.extend_from_slice(&word.to_le_bytes());
    }
    bytes.extend_from_slice(&1.0f32.to_bits().to_le_bytes()); // freq_resolution
    bytes.extend_from_slice(&1.0f32.to_bits().to_le_bytes()); // block_time
    for word in [0u32, 0, 2, 0] {
        bytes.extend_from_slice(&word.to_le_bytes());
    }
    bytes.extend_from_slice(&0.0f32.to_bits().to_le_bytes());
    bytes.extend_from_slice(&0.0f32.to_bits().to_le_bytes());
    bytes.extend_from_slice(&0.5f32.to_bits().to_le_bytes());
    bytes.extend_from_slice(&0.25f32.to_bits().to_le_bytes());
    let mut s = ApplicationState::new();
    s.complete_open(Some("bin"), &bytes, "rec");
    assert!(s.error().is_none());
    assert_eq!(s.charts().len(), 1);
    let c = s.get_current_chart().unwrap();
    assert_eq!(c.data.len(), 2);
    assert_eq!(c.data[0].y, 500_000);
    assert_eq!(c.data[1].y, 250_000);
    assert_eq!(c.metadata.title, "rec");
}

#[test]
fn error_types_render_their_messages() {
    assert_eq!(
        CommandError::CommandSyntax(String::from(":nope")).message(),
        "No such command: :nope, use :h for help"
    );
    assert_eq!(
        CommandError::InvalidArguments(String::from("zz")).message(),
        "Invalid argument: zz, use :h for help"
    );
    assert_eq!(CommandError::NotEnoughArguments.message(), "Not enough arguments, use :h for help");
    assert_eq!(CommandError::EmptyCommand.message(), "Try some commands, use :h for help");
    assert_eq!(
        CommandError::NoChart.message(),
        "No chart selected, use :of to open a chart file"
    );
    assert_eq!(ChartViewError::NoCurrentChart.message(), "No current chart found");
    assert_eq!(GraphicViewError::NoCurrentPlot.message(), "No current plot found");
    assert_eq!(
        ChartProcessingError::StftError.message(),
        "STFT error. Try changing the window size or hop size."
    );
    assert_eq!(
        ChartProcessingError::NonStandard.message(),
        "To perform this operation the chart should be in the STANDARD view"
    );
}
