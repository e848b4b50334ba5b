//! Re-renders JSON log records as single human-readable lines.
//!
//! Each record is offered to a fixed, ordered set of recognizers. The one
//! that scores highest renders the record; records that no recognizer
//! claims are left to a generic JSON reformatter.
pub mod json;
pub mod text;
pub mod number;
pub mod palette;
pub mod protocols;
pub mod nginx;
pub mod tracing;
pub mod dispatch;
pub mod lines;
