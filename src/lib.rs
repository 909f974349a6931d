//! Renders structured log records as plain text, colourised text, or
//! newline-delimited JSON.

pub mod record;
pub mod text;
pub mod style;
pub mod clean;
pub mod pretty;
pub mod ndjson;
pub mod sink;
