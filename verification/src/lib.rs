//! Change-detection and account-lifecycle engine for a desktop application
//! that keeps its session state in an embedded key-value store.
//!
//! The library models the store as typed snapshots, computes structural
//! diffs between consecutive snapshots, and drives the backup / restore /
//! relaunch workflows as explicit state machines whose decisions are fully
//! specified. Its own on-disk documents are written and read by verified
//! renderers and strict parsers that are proved inverse to each other; the
//! surrounding process, filesystem and timer plumbing stays outside, and
//! every access to the row store, the process table and the system clock
//! goes through a small set of trusted wrappers.

pub mod backup;
pub mod diff;
pub mod keys;
pub mod manage;
pub mod monitor;
pub mod path_config;
pub mod paths;
pub mod process;
pub mod settings;
pub mod snapshot;
pub mod store;
pub mod text;
pub mod workflow;
