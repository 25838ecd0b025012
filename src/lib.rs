//! A database access layer that opens sessions against five kinds of storage
//! engines, runs caller-supplied query text and normalises every engine's
//! answer into one tabular model, with catalog listing and tabular export.
//!
//! This crate holds the engine-independent logic: descriptor dispatch, value
//! coercion, result assembly, catalog planning, the connection registry and
//! the export encoders. Network sessions are driven by the caller.

pub mod text;
pub mod error;
pub mod json;
pub mod value;
pub mod results;
pub mod descriptor;
pub mod catalog;
pub mod registry;
pub mod export;
pub mod settings;
