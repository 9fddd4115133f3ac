//! Decoding of the values that parameter IDs (PIDs) report.
pub mod air;
pub mod diagnostics;
pub mod engine;
pub mod fuel;
pub mod sensors;
