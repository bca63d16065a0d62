//! Verified core of a file/directory copy utility.
//!
//! The library holds the decision logic of the tool: validating source and
//! destination paths, choosing how a single source is copied (byte copy,
//! hard link, symbolic link), resolving per-entry conflicts during a
//! directory copy, and comparing content digests after a copy. The
//! surrounding binary performs the filesystem work and feeds observations
//! back into these functions.

pub mod args;
pub mod error;
pub mod files;
pub mod hash;
pub mod order;
pub mod path_ops;
pub mod progress;
