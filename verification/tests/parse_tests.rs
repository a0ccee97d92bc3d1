//! Token parsing: verbs, integers and fixed-point decimals.

use suzu::commands::{
    parse_chart_explorer_command, parse_chart_view_command, parse_general_command,
    parse_graphic_view_command, ChartExplorerCommands, ChartViewCommands, GeneralCommands,
    GraphicViewCommands,
};
use suzu::files::{file_type_from_extension, FileError, FileType};
use suzu::fx::FX_BOUND;
use suzu::text::{parse_fx, parse_u32, parse_usize, str_eq};

#[test]
fn str_eq_compares_characters() {
    assert!(str_eq("abc", "abc"));
    assert!(!str_eq("abc", "abd"));
    assert!(!str_eq("abc", "ab"));
    assert!(str_eq("", ""));
}

#[test]
fn parse_u32_accepts_digits_only() {
    assert_eq!(parse_u32("0"), Some(0));
    assert_eq!(parse_u32("42"), Some(42));
    assert_eq!(parse_u32("4294967295"), Some(u32::MAX));
    assert_eq!(parse_u32("4294967296"), None);
    assert_eq!(parse_u32(""), None);
    assert_eq!(parse_u32("-1"), None);
    assert_eq!(parse_u32("1.0"), None);
    assert_eq!(parse_u32("x2"), None);
}

#[test]
fn parse_usize_accepts_digits_only() {
    assert_eq!(parse_usize("256"), Some(256));
    assert_eq!(parse_usize("abc"), None);
}

#[test]
fn parse_fx_decimal_values() {
    assert_eq!(parse_fx("1.5"), Some(1_500_000));
    assert_eq!(parse_fx("120"), Some(120_000_000));
    assert_eq!(parse_fx("120.0"), Some(120_000_000));
    assert_eq!(parse_fx("-2.25"), Some(-2_250_000));
    assert_eq!(parse_fx("0.000001"), Some(1));
    // the seventh fractional digit is cut off
    assert_eq!(parse_fx("0.0000019"), Some(1));
    assert_eq!(parse_fx("0"), Some(0));
    assert_eq!(parse_fx("-0"), Some(0));
}

#[test]
fn parse_fx_rejects_malformed_tokens() {
    assert_eq!(parse_fx("abc"), None);
    assert_eq!(parse_fx(""), None);
    assert_eq!(parse_fx("-"), None);
    assert_eq!(parse_fx("."), None);
    assert_eq!(parse_fx(".5"), None);
    assert_eq!(parse_fx("1."), None);
    assert_eq!(parse_fx("1.2.3"), None);
    assert_eq!(parse_fx("1e3"), None);
    assert_eq!(parse_fx("1 2"), None);
}

#[test]
fn parse_fx_saturates_huge_magnitudes() {
    assert_eq!(parse_fx("99999999999999999999999"), Some(FX_BOUND));
    assert_eq!(parse_fx("-99999999999999999999999"), Some(-FX_BOUND));
}

#[test]
fn verbs_resolve_per_surface() {
    assert_eq!(parse_general_command(":q"), Some(GeneralCommands::Quit));
    assert_eq!(parse_general_command(":a"), Some(GeneralCommands::About));
    assert_eq!(parse_general_command(":h"), Some(GeneralCommands::Help));
    assert_eq!(
        parse_general_command(":ce"),
        Some(GeneralCommands::OpenCloseChartsExplorer)
    );
    assert_eq!(parse_general_command(":sf"), Some(GeneralCommands::OpenSettings));
    assert_eq!(parse_general_command(":fft"), None);

    assert_eq!(
        parse_chart_view_command(":fft"),
        Some(ChartViewCommands::FastFourierTransform)
    );
    assert_eq!(
        parse_chart_view_command(":sft"),
        Some(ChartViewCommands::ShortTimeFourierTransform)
    );
    assert_eq!(
        parse_chart_view_command(":hwt"),
        Some(ChartViewCommands::HaarWaveletTransform)
    );
    assert_eq!(parse_chart_view_command(":zi"), Some(ChartViewCommands::ZoomIn));
    assert_eq!(parse_chart_view_command(":zo"), Some(ChartViewCommands::ZoomOut));
    assert_eq!(parse_chart_view_command(":ml"), Some(ChartViewCommands::MoveLeft));
    assert_eq!(parse_chart_view_command(":mr"), Some(ChartViewCommands::MoveRight));
    assert_eq!(
        parse_chart_view_command(":flp"),
        Some(ChartViewCommands::FftFilterLowPass)
    );
    assert_eq!(
        parse_chart_view_command(":fhp"),
        Some(ChartViewCommands::FftFilterHighPass)
    );
    assert_eq!(
        parse_chart_view_command(":fbp"),
        Some(ChartViewCommands::FftFilterBandPass)
    );
    assert_eq!(
        parse_chart_view_command(":fbs"),
        Some(ChartViewCommands::FftFilterBandStop)
    );
    assert_eq!(parse_chart_view_command(":of"), None);

    assert_eq!(
        parse_chart_explorer_command(":of"),
        Some(ChartExplorerCommands::OpenFile)
    );
    assert_eq!(
        parse_chart_explorer_command(":cwv"),
        Some(ChartExplorerCommands::CloseWorkingView)
    );
    assert_eq!(
        parse_chart_explorer_command(":swv"),
        Some(ChartExplorerCommands::SwitchWorkingView)
    );
    assert_eq!(parse_chart_explorer_command(":zi"), None);

    assert_eq!(
        parse_graphic_view_command(":fl"),
        Some(GraphicViewCommands::FftFilterLowPass)
    );
    assert_eq!(parse_graphic_view_command(":xyz"), None);
}

#[test]
fn file_types_resolve_by_extension() {
    assert_eq!(file_type_from_extension("bin"), Ok(FileType::Vibric));
    assert_eq!(file_type_from_extension("wav"), Err(FileError::UnsupportedType));
    assert_eq!(FileError::UnsupportedType.message(), "Unsupported file type");
    assert_eq!(FileError::ExtensionParseError.message(), "File extension parse error");
    assert_eq!(FileError::PathParseError.message(), "File path parse error");
}
