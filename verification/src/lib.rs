//! Chunked generation of random file content, with argument validation and
//! textual progress reporting.

pub mod args;
pub mod confirm;
pub mod progress;
pub mod random;
pub mod writer;
