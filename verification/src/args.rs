//! The options of one invocation.

use vstd::prelude::*;

verus! {

/// The recognized options of a single invocation: one or more sources, one
/// destination, and the flags that steer copying. Immutable once built.
#[derive(Debug)]
pub struct Args {
    /// Source files or directories to copy.
    pub source: Vec<String>,
    /// Destination file or directory.
    pub destination: String,
    /// Overwrite the destination if it exists, and create missing directories.
    pub force: bool,
    /// Hard-link a file instead of copying its bytes.
    pub hard_link: bool,
    /// Symbolically link a file instead of copying its bytes.
    pub symlink: bool,
    /// Compare source and destination digests once copied.
    pub verify: bool,
    /// Suppress the progress display.
    pub no_progress: bool,
    /// Do not inhibit system idle sleep during the run.
    pub no_keep_awake: bool,
    /// Also keep the display awake during the run.
    pub keep_display_awake: bool,
}

} // verus!
