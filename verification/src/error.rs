//! Errors that the copy logic can report.

use vstd::prelude::*;

verus! {

/// Why an invocation, or a single source of it, was refused or failed.
///
/// Each variant carries what a caller needs to name the failing path or,
/// for a digest mismatch, both digests for diagnosis.
#[derive(Debug, PartialEq, Eq)]
pub enum CopyError {
    /// A source path does not exist; holds that path.
    SourceNotFound(String),
    /// Several sources were given but the destination directory is missing
    /// and `force` is not set; holds the destination path.
    DestinationDirectoryMissing(String),
    /// The destination already exists and `force` is not set; holds the
    /// destination path.
    AlreadyExists(String),
    /// Source and destination digests differ; holds both digests as
    /// lowercase hexadecimal strings.
    HashMismatch { source_hex: String, destination_hex: String },
    /// Computing a digest failed; holds the underlying error's message.
    Hashing(String),
}

} // verus!
