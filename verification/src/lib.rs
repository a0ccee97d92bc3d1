//! Verified session engine for an interactive signal-recording viewer.
//!
//! The crate decodes a binary waveform container into charts, keeps the
//! multi-chart session with its current selection, derives new charts
//! through spectral transforms and filters, maintains viewport bounds, and
//! resolves textual commands into typed operations.

pub mod fx;
pub mod text;
pub mod chart;
pub mod errors;
pub mod session;
pub mod vibric;
pub mod commands;
pub mod files;
pub mod transform;
pub mod dispatch;
pub mod console;
pub mod cli;
