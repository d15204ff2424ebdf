//! A verified core for a command-line client of a time-tracking web service.
//!
//! The crate covers credential resolution (merging a CLI-supplied API key
//! with one stored in a config file), the config-file codec, and the typed
//! REST client layer: building authenticated request descriptions and
//! decoding JSON response bodies into domain entities.  All I/O (filesystem,
//! HTTP, terminal) lives outside this crate; the functions here map plain
//! values to plain values and carry contracts for what they compute.

pub mod api;
pub mod cli;
pub mod commands;
pub mod config;
pub mod entry;
pub mod json;
pub mod payload;
pub mod startup;
pub mod text;
pub mod timestamp;
