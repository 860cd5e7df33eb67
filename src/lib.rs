//! Mirrors one directory tree onto another.
//!
//! The library holds the decisions of a sync: how a source path maps to its
//! destination, when a destination file is already up to date, what a
//! directory's reconciliation creates, copies and deletes, how a failed
//! directory halts its own subtree, and the progress counters. The program
//! around it performs the filesystem work that these decisions call for.

pub mod path;
pub mod meta;
pub mod progress;
pub mod reconcile;
pub mod sync;
pub mod laws;
