//! Typed errors surfaced by the session engine.
//!
//! Each error renders itself as the one-line message shown in the command
//! console.

use vstd::prelude::*;

verus! {

/// Errors raised while resolving a command line.
pub enum CommandError {
    /// No surface recognised the verb; holds the full command line.
    CommandSyntax(String),
    /// An argument failed to parse; holds the offending token.
    InvalidArguments(String),
    /// The verb was recognised but an argument is missing.
    NotEnoughArguments,
    /// The line was empty or held only the command prefix.
    EmptyCommand,
    /// The operation needs a current chart and the session is empty.
    NoChart,
}

/// The message a command error renders as.
pub open spec fn spec_error_message(e: CommandError) -> Seq<char> {
    match e {
        CommandError::CommandSyntax(s) => "No such command: "@ + s@ + ", use :h for help"@,
        CommandError::InvalidArguments(s) => "Invalid argument: "@ + s@ + ", use :h for help"@,
        CommandError::NotEnoughArguments => "Not enough arguments, use :h for help"@,
        CommandError::EmptyCommand => "Try some commands, use :h for help"@,
        CommandError::NoChart => "No chart selected, use :of to open a chart file"@,
    }
}

impl CommandError {
    /// The message shown for this error.
    pub fn message(&self) -> (r: String)
        ensures
            r@ == spec_error_message(*self),
    {
        match self {
            CommandError::CommandSyntax(s) => String::from_str("No such command: ").concat(
                s.as_str(),
            ).concat(", use :h for help"),
            CommandError::InvalidArguments(s) => String::from_str("Invalid argument: ").concat(
                s.as_str(),
            ).concat(", use :h for help"),
            CommandError::NotEnoughArguments => String::from_str(
                "Not enough arguments, use :h for help",
            ),
            CommandError::EmptyCommand => String::from_str("Try some commands, use :h for help"),
            CommandError::NoChart => String::from_str(
                "No chart selected, use :of to open a chart file",
            ),
        }
    }
}

/// Errors raised by chart-view viewport operations.
#[derive(Clone, Copy, PartialEq, Eq, Structural, Debug)]
pub enum ChartViewError {
    NoCurrentChart,
}

impl ChartViewError {
    pub fn message(&self) -> (r: String)
        ensures
            r@ == "No current chart found"@,
    {
        String::from_str("No current chart found")
    }
}

/// Errors raised by the earlier graphic-view surface.
#[derive(Clone, Copy, PartialEq, Eq, Structural, Debug)]
pub enum GraphicViewError {
    NoCurrentPlot,
}

impl GraphicViewError {
    pub fn message(&self) -> (r: String)
        ensures
            r@ == "No current plot found"@,
    {
        String::from_str("No current plot found")
    }
}

/// Errors raised by the transform pipeline.
#[derive(Clone, Copy, PartialEq, Eq, Structural, Debug)]
pub enum ChartProcessingError {
    /// The short-time transform failed for the given window and hop.
    StftError,
    /// The operation needs a chart still in the standard view.
    NonStandard,
}

impl ChartProcessingError {
    pub fn message(&self) -> (r: String)
        ensures
            r@ == match self {
                ChartProcessingError::StftError => {
                    "STFT error. Try changing the window size or hop size."@
                },
                ChartProcessingError::NonStandard => {
                    "To perform this operation the chart should be in the STANDARD view"@
                },
            },
    {
        match self {
            ChartProcessingError::StftError => String::from_str(
                "STFT error. Try changing the window size or hop size.",
            ),
            ChartProcessingError::NonStandard => String::from_str(
                "To perform this operation the chart should be in the STANDARD view",
            ),
        }
    }
}

} // verus!
