//! A schema-driven SQL statement generator and schema reader.
//!
//! The crate models tables as ordered sequences of typed, optionally
//! constrained columns, renders `CREATE TABLE`, `INSERT`, `SELECT` and
//! `SELECT COUNT` statements from that model, and reconstructs the model
//! from storage-engine catalog metadata.  Every rendering and parsing
//! function carries a contract that pins down the produced text and the
//! exact conditions under which each error is reported.

pub mod configuration;
pub mod definitions;
pub mod introspect;
pub mod queries;
pub mod query_builder;
pub mod errors;
pub mod render;
