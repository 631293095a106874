//! Structured-log event formatter: renders each log event as a single JSON
//! line, enriched with trace correlation identifiers resolved from the
//! active span's trace-context extension.

pub mod format;
pub mod json;
pub mod laws;
pub mod sink;
pub mod trace;
