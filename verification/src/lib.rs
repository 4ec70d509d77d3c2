//! Read the lines of a text source into a `String` or a `Vec<String>`,
//! under three line-ending policies: keep each terminator, clip it, or
//! trim surrounding whitespace from each line.
//!
//! The model of the computation lives in [`lines`] and the properties it
//! satisfies in [`laws`]; the executable splitter and aggregator live in
//! [`splitter`] and [`aggregate`]; [`source`] holds the in-memory buffered
//! stream, and [`traits`] the capability traits through which every source
//! exposes the same six operations.

pub mod aggregate;
pub mod laws;
pub mod lines;
pub mod source;
pub mod splitter;
pub mod traits;
