//! What the library's operations mean, stated on their inputs and results.
//!
//! Each law says of every input what a result has to satisfy, or how the results
//! for two inputs are related.

pub mod changelog;
pub mod document;
pub mod manifest;
pub mod metadata;
pub mod paths;
pub mod string_map;
pub mod text;
pub mod types;
pub mod views;
pub mod wire;
pub mod write;
