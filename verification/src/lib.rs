//! Machine-report library: collects system facts into one immutable
//! snapshot and renders it as a box-drawing table or a JSON document.
//!
//! The snapshot pipeline is split into pure, verified steps: parsers turn
//! probe output into plain values, per-category collectors assemble typed
//! records under the fast/full timing budget, and the aggregator merges the
//! seven collector results into one `SystemInfo` value.

#![allow(unused_imports)]

pub mod collectors;
pub mod config;
pub mod error;
pub mod install;
pub mod numfmt;
pub mod render;
pub mod report;
pub mod sysapi;
pub mod text;

pub use collectors::{CollectMode, SystemInfo};
pub use config::Config;
pub use error::AppError;
