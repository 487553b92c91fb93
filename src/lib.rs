//! State and text handling for a notebook fan-control front end.
//!
//! The library turns the output of the fan-control command-line tool into
//! structured values, decides which configuration is selected at start-up,
//! validates the manual fan speed and builds the tool's command lines.
//! Running the tool, reading files and drawing widgets happen elsewhere.

pub mod text;
pub mod device;
pub mod status;
pub mod command;
pub mod veltrix;
