//! Command verbs, one closed set per dispatch surface.
//!
//! A command line is a leading `:`-prefixed verb token followed by
//! positional arguments.  Each surface resolves the verb against its own
//! set; a verb no surface knows is not an error of the surface — the caller
//! reports it once no surface has claimed the line.

use vstd::prelude::*;
use crate::text::str_eq;

verus! {

/// Session-wide operations.
#[derive(Clone, Copy, PartialEq, Eq, Structural, Debug)]
pub enum GeneralCommands {
    About,
    Help,
    OpenCloseChartsExplorer,
    OpenSettings,
    Quit,
}

/// The general verb a token denotes, if any.
pub open spec fn spec_general_command(s: Seq<char>) -> Option<GeneralCommands> {
    if s == ":a"@ {
        Some(GeneralCommands::About)
    } else if s == ":h"@ {
        Some(GeneralCommands::Help)
    } else if s == ":ce"@ {
        Some(GeneralCommands::OpenCloseChartsExplorer)
    } else if s == ":sf"@ {
        Some(GeneralCommands::OpenSettings)
    } else if s == ":q"@ {
        Some(GeneralCommands::Quit)
    } else {
        None
    }
}

/// Resolve a token against the general verbs.
pub fn parse_general_command(token: &str) -> (r: Option<GeneralCommands>)
    ensures
        r == spec_general_command(token@),
{
    if str_eq(token, ":a") {
        Some(GeneralCommands::About)
    } else if str_eq(token, ":h") {
        Some(GeneralCommands::Help)
    } else if str_eq(token, ":ce") {
        Some(GeneralCommands::OpenCloseChartsExplorer)
    } else if str_eq(token, ":sf") {
        Some(GeneralCommands::OpenSettings)
    } else if str_eq(token, ":q") {
        Some(GeneralCommands::Quit)
    } else {
        None
    }
}

/// Viewport and transform operations of the chart view.
#[derive(Clone, Copy, PartialEq, Eq, Structural, Debug)]
pub enum ChartViewCommands {
    ZoomIn,
    ZoomOut,
    MoveLeft,
    MoveRight,
    FastFourierTransform,
    ShortTimeFourierTransform,
    HaarWaveletTransform,
    FftFilterLowPass,
    FftFilterHighPass,
    FftFilterBandPass,
    FftFilterBandStop,
}

/// The chart-view verb a token denotes, if any.
pub open spec fn spec_chart_view_command(s: Seq<char>) -> Option<ChartViewCommands> {
    if s == ":zi"@ {
        Some(ChartViewCommands::ZoomIn)
    } else if s == ":zo"@ {
        Some(ChartViewCommands::ZoomOut)
    } else if s == ":ml"@ {
        Some(ChartViewCommands::MoveLeft)
    } else if s == ":mr"@ {
        Some(ChartViewCommands::MoveRight)
    } else if s == ":fft"@ {
        Some(ChartViewCommands::FastFourierTransform)
    } else if s == ":sft"@ {
        Some(ChartViewCommands::ShortTimeFourierTransform)
    } else if s == ":hwt"@ {
        Some(ChartViewCommands::HaarWaveletTransform)
    } else if s == ":flp"@ {
        Some(ChartViewCommands::FftFilterLowPass)
    } else if s == ":fhp"@ {
        Some(ChartViewCommands::FftFilterHighPass)
    } else if s == ":fbp"@ {
        Some(ChartViewCommands::FftFilterBandPass)
    } else if s == ":fbs"@ {
        Some(ChartViewCommands::FftFilterBandStop)
    } else {
        None
    }
}

/// Resolve a token against the chart-view verbs.
pub fn parse_chart_view_command(token: &str) -> (r: Option<ChartViewCommands>)
    ensures
        r == spec_chart_view_command(token@),
{
    if str_eq(token, ":zi") {
        Some(ChartViewCommands::ZoomIn)
    } else if str_eq(token, ":zo") {
        Some(ChartViewCommands::ZoomOut)
    } else if str_eq(token, ":ml") {
        Some(ChartViewCommands::MoveLeft)
    } else if str_eq(token, ":mr") {
        Some(ChartViewCommands::MoveRight)
    } else if str_eq(token, ":fft") {
        Some(ChartViewCommands::FastFourierTransform)
    } else if str_eq(token, ":sft") {
        Some(ChartViewCommands::ShortTimeFourierTransform)
    } else if str_eq(token, ":hwt") {
        Some(ChartViewCommands::HaarWaveletTransform)
    } else if str_eq(token, ":flp") {
        Some(ChartViewCommands::FftFilterLowPass)
    } else if str_eq(token, ":fhp") {
        Some(ChartViewCommands::FftFilterHighPass)
    } else if str_eq(token, ":fbp") {
        Some(ChartViewCommands::FftFilterBandPass)
    } else if str_eq(token, ":fbs") {
        Some(ChartViewCommands::FftFilterBandStop)
    } else {
        None
    }
}

/// File and view-management operations of the chart explorer.
#[derive(Clone, Copy, PartialEq, Eq, Structural, Debug)]
pub enum ChartExplorerCommands {
    OpenFile,
    CloseWorkingView,
    SwitchWorkingView,
}

/// The explorer verb a token denotes, if any.
pub open spec fn spec_chart_explorer_command(s: Seq<char>) -> Option<ChartExplorerCommands> {
    if s == ":of"@ {
        Some(ChartExplorerCommands::OpenFile)
    } else if s == ":cwv"@ {
        Some(ChartExplorerCommands::CloseWorkingView)
    } else if s == ":swv"@ {
        Some(ChartExplorerCommands::SwitchWorkingView)
    } else {
        None
    }
}

/// Resolve a token against the explorer verbs.
pub fn parse_chart_explorer_command(token: &str) -> (r: Option<ChartExplorerCommands>)
    ensures
        r == spec_chart_explorer_command(token@),
{
    if str_eq(token, ":of") {
        Some(ChartExplorerCommands::OpenFile)
    } else if str_eq(token, ":cwv") {
        Some(ChartExplorerCommands::CloseWorkingView)
    } else if str_eq(token, ":swv") {
        Some(ChartExplorerCommands::SwitchWorkingView)
    } else {
        None
    }
}

/// Verbs of the earlier graphic-view surface, kept for its callers; the
/// chart-view surface supersedes it.
#[derive(Clone, Copy, PartialEq, Eq, Structural, Debug)]
pub enum GraphicViewCommands {
    OpenFile,
    ZoomIn,
    ZoomOut,
    MoveLeft,
    MoveRight,
    FastFourierTransform,
    FftFilterLowPass,
    CloseWorkingView,
    SwitchWorkingView,
}

/// The graphic-view verb a token denotes, if any.
pub open spec fn spec_graphic_view_command(s: Seq<char>) -> Option<GraphicViewCommands> {
    if s == ":of"@ {
        Some(GraphicViewCommands::OpenFile)
    } else if s == ":zi"@ {
        Some(GraphicViewCommands::ZoomIn)
    } else if s == ":zo"@ {
        Some(GraphicViewCommands::ZoomOut)
    } else if s == ":ml"@ {
        Some(GraphicViewCommands::MoveLeft)
    } else if s == ":mr"@ {
        Some(GraphicViewCommands::MoveRight)
    } else if s == ":fft"@ {
        Some(GraphicViewCommands::FastFourierTransform)
    } else if s == ":fl"@ {
        Some(GraphicViewCommands::FftFilterLowPass)
    } else if s == ":cwv"@ {
        Some(GraphicViewCommands::CloseWorkingView)
    } else if s == ":swv"@ {
        Some(GraphicViewCommands::SwitchWorkingView)
    } else {
        None
    }
}

/// Resolve a token against the graphic-view verbs.
pub fn parse_graphic_view_command(token: &str) -> (r: Option<GraphicViewCommands>)
    ensures
        r == spec_graphic_view_command(token@),
{
    if str_eq(token, ":of") {
        Some(GraphicViewCommands::OpenFile)
    } else if str_eq(token, ":zi") {
        Some(GraphicViewCommands::ZoomIn)
    } else if str_eq(token, ":zo") {
        Some(GraphicViewCommands::ZoomOut)
    } else if str_eq(token, ":ml") {
        Some(GraphicViewCommands::MoveLeft)
    } else if str_eq(token, ":mr") {
        Some(GraphicViewCommands::MoveRight)
    } else if str_eq(token, ":fft") {
        Some(GraphicViewCommands::FastFourierTransform)
    } else if str_eq(token, ":fl") {
        Some(GraphicViewCommands::FftFilterLowPass)
    } else if str_eq(token, ":cwv") {
        Some(GraphicViewCommands::CloseWorkingView)
    } else if str_eq(token, ":swv") {
        Some(GraphicViewCommands::SwitchWorkingView)
    } else {
        None
    }
}

/// The three surfaces' verb sets are pairwise disjoint: a token at most
/// one surface recognises settles which surface claims the line.
pub proof fn lemma_verbs_disjoint(s: Seq<char>)
    ensures
        spec_chart_view_command(s) is Some ==> spec_chart_explorer_command(s) is None,
        spec_chart_view_command(s) is Some ==> spec_general_command(s) is None,
        spec_chart_explorer_command(s) is Some ==> spec_general_command(s) is None,
{
    broadcast use vstd::string::group_string_axioms;

    reveal_strlit(":a");
    reveal_strlit(":h");
    reveal_strlit(":ce");
    reveal_strlit(":sf");
    reveal_strlit(":q");
    reveal_strlit(":zi");
    reveal_strlit(":zo");
    reveal_strlit(":ml");
    reveal_strlit(":mr");
    reveal_strlit(":fft");
    reveal_strlit(":sft");
    reveal_strlit(":hwt");
    reveal_strlit(":flp");
    reveal_strlit(":fhp");
    reveal_strlit(":fbp");
    reveal_strlit(":fbs");
    reveal_strlit(":of");
    reveal_strlit(":cwv");
    reveal_strlit(":swv");
    assert(":a"@.len() == 2 && ":a"@[0] == ':' && ":a"@[1] == 'a');
    assert(":h"@.len() == 2 && ":h"@[0] == ':' && ":h"@[1] == 'h');
    assert(":ce"@.len() == 3 && ":ce"@[0] == ':' && ":ce"@[1] == 'c' && ":ce"@[2] == 'e');
    assert(":sf"@.len() == 3 && ":sf"@[0] == ':' && ":sf"@[1] == 's' && ":sf"@[2] == 'f');
    assert(":q"@.len() == 2 && ":q"@[0] == ':' && ":q"@[1] == 'q');
    assert(":zi"@.len() == 3 && ":zi"@[0] == ':' && ":zi"@[1] == 'z' && ":zi"@[2] == 'i');
    assert(":zo"@.len() == 3 && ":zo"@[0] == ':' && ":zo"@[1] == 'z' && ":zo"@[2] == 'o');
    assert(":ml"@.len() == 3 && ":ml"@[0] == ':' && ":ml"@[1] == 'm' && ":ml"@[2] == 'l');
    assert(":mr"@.len() == 3 && ":mr"@[0] == ':' && ":mr"@[1] == 'm' && ":mr"@[2] == 'r');
    assert(":fft"@.len() == 4 && ":fft"@[0] == ':' && ":fft"@[1] == 'f' && ":fft"@[2] == 'f' && ":fft"@[3] == 't');
    assert(":sft"@.len() == 4 && ":sft"@[0] == ':' && ":sft"@[1] == 's' && ":sft"@[2] == 'f' && ":sft"@[3] == 't');
    assert(":hwt"@.len() == 4 && ":hwt"@[0] == ':' && ":hwt"@[1] == 'h' && ":hwt"@[2] == 'w' && ":hwt"@[3] == 't');
    assert(":flp"@.len() == 4 && ":flp"@[0] == ':' && ":flp"@[1] == 'f' && ":flp"@[2] == 'l' && ":flp"@[3] == 'p');
    assert(":fhp"@.len() == 4 && ":fhp"@[0] == ':' && ":fhp"@[1] == 'f' && ":fhp"@[2] == 'h' && ":fhp"@[3] == 'p');
    assert(":fbp"@.len() == 4 && ":fbp"@[0] == ':' && ":fbp"@[1] == 'f' && ":fbp"@[2] == 'b' && ":fbp"@[3] == 'p');
    assert(":fbs"@.len() == 4 && ":fbs"@[0] == ':' && ":fbs"@[1] == 'f' && ":fbs"@[2] == 'b' && ":fbs"@[3] == 's');
    assert(":of"@.len() == 3 && ":of"@[0] == ':' && ":of"@[1] == 'o' && ":of"@[2] == 'f');
    assert(":cwv"@.len() == 4 && ":cwv"@[0] == ':' && ":cwv"@[1] == 'c' && ":cwv"@[2] == 'w' && ":cwv"@[3] == 'v');
    assert(":swv"@.len() == 4 && ":swv"@[0] == ':' && ":swv"@[1] == 's' && ":swv"@[2] == 'w' && ":swv"@[3] == 'v');
}

} // verus!
