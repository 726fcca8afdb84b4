//! Iceberg companion metadata for the changelogs of Paimon tables, and query
//! results for the PostgreSQL wire protocol.
pub mod avro;
pub mod changelog;
pub mod changelog_commit_callback;
pub mod commit_callback;
pub mod document;
pub mod error;
pub mod ids;
pub mod json;
pub mod laws;
pub mod manifest;
pub mod metadata;
pub mod path_factory;
pub mod runs;
pub mod string_map;
pub mod succession;
pub mod table;
pub mod text;
pub mod types;
pub mod wire;
pub mod write;
pub mod write_builder;
