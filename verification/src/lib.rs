//! Layered configuration resolution for a browser-automation command line.
//!
//! Settings arrive from several layers — config files, environment
//! variables, and command-line flags — and are folded into one total
//! settings object under a fixed precedence order, with per-field
//! provenance for values that came from an explicit command-line flag.

pub mod loader;
pub mod record;
pub mod resolve;
pub mod sanitize;
pub mod text;
pub mod tokens;
