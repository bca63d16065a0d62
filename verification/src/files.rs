//! Decisions for copying one source: which mechanism a file copy uses, how a
//! conflicting entry of a directory copy is resolved, and which options a
//! directory copy runs with. The filesystem work itself is carried out by the
//! caller, which feeds its observations (does the destination exist, is the
//! source a directory) into these functions.

use vstd::prelude::*;

use crate::args::Args;
use crate::error::CopyError;

verus! {

/// How a single file reaches its destination.
#[derive(Debug, Clone, Copy, PartialEq, Eq, Structural)]
pub enum FileCopyMethod {
    /// Create a hard link instead of copying bytes.
    HardLink,
    /// Create a symbolic link instead of copying bytes.
    Symlink,
    /// Copy the bytes, overwriting an existing destination when `overwrite`
    /// is set.
    ByteCopy { overwrite: bool },
}

/// The state a directory copy reports for the entry it is about to transfer.
#[derive(Debug, Clone, Copy, PartialEq, Eq, Structural)]
pub enum DirEntryState {
    /// Nothing stands in the way of the entry.
    Normal,
    /// The entry already exists at the destination.
    Exists,
    /// The entry cannot be accessed.
    NoAccess,
}

/// What to do with the entry a directory copy reports.
#[derive(Debug, Clone, Copy, PartialEq, Eq, Structural)]
pub enum DirDisposition {
    /// Overwrite whatever stands at the destination.
    Overwrite,
    /// Leave this entry out and go on with the rest.
    Skip,
    /// Go on while nothing is wrong; abort on any conflict or error.
    ContinueOrAbort,
}

/// The options a directory copy runs with.
#[derive(Debug, Clone, Copy, PartialEq, Eq, Structural)]
pub struct DirCopyOptions {
    /// Overwrite existing entries at the destination.
    pub overwrite: bool,
    /// Place the source's contents directly into the destination directory,
    /// with no extra nesting level named after the source.
    pub copy_inside: bool,
}

/// How one source, file or directory, is to be copied.
#[derive(Debug, Clone, Copy, PartialEq, Eq, Structural)]
pub enum CopyPlan {
    /// The source is a directory: copy it recursively with these options.
    Dir(DirCopyOptions),
    /// The source is a file: transfer it by this method.
    File(FileCopyMethod),
}

/// The copy method the flags of `args` select for a file source: a hard link
/// first, else a symbolic link, else a byte copy that overwrites only under
/// `force`.
pub open spec fn spec_file_copy_method(args: Args) -> FileCopyMethod {
    if args.hard_link {
        FileCopyMethod::HardLink
    } else if args.symlink {
        FileCopyMethod::Symlink
    } else {
        FileCopyMethod::ByteCopy { overwrite: args.force }
    }
}

/// Decide how one file source reaches the destination path `destination`.
///
/// An existing destination without `force` is refused before any method,
/// hard link and symbolic link included, is considered.
pub fn file_copy_plan(args: &Args, destination: &String, destination_exists: bool) -> (r: Result<
    FileCopyMethod,
    CopyError,
>)
    ensures
        r is Ok <==> !(destination_exists && !args.force),
        r matches Ok(m) ==> m == spec_file_copy_method(*args),
        r matches Err(e) ==> (e matches CopyError::AlreadyExists(p) && p@ == destination@),
{
    if destination_exists && !args.force {
        Err(CopyError::AlreadyExists(destination.clone()))
    } else if args.hard_link {
        Ok(FileCopyMethod::HardLink)
    } else if args.symlink {
        Ok(FileCopyMethod::Symlink)
    } else {
        Ok(FileCopyMethod::ByteCopy { overwrite: args.force })
    }
}

/// The disposition a directory copy takes for an entry in `state`: without
/// `force` any conflict aborts the copy; under `force` an inaccessible entry
/// is skipped and every other entry is overwritten.
pub open spec fn spec_dir_disposition(state: DirEntryState, force: bool) -> DirDisposition {
    if !force {
        DirDisposition::ContinueOrAbort
    } else if state is NoAccess {
        DirDisposition::Skip
    } else {
        DirDisposition::Overwrite
    }
}

/// Resolve one reported entry of a directory copy to a disposition.
pub fn dir_entry_disposition(state: DirEntryState, force: bool) -> (r: DirDisposition)
    ensures
        r == spec_dir_disposition(state, force),
{
    if matches!(state, DirEntryState::Exists) && force {
        DirDisposition::Overwrite
    } else if matches!(state, DirEntryState::NoAccess) && force {
        DirDisposition::Skip
    } else if force {
        DirDisposition::Overwrite
    } else {
        DirDisposition::ContinueOrAbort
    }
}

/// The options a directory copy runs with: overwrite only under `force`,
/// and always copy-inside semantics.
pub fn dir_copy_options(args: &Args) -> (r: DirCopyOptions)
    ensures
        r.overwrite == args.force,
        r.copy_inside,
{
    DirCopyOptions { overwrite: args.force, copy_inside: true }
}

/// Decide how one source is copied: a directory source is copied recursively
/// with the options of [`dir_copy_options`]; a file source goes by
/// [`file_copy_plan`], which refuses an existing destination without `force`.
pub fn perform_copy_operation(
    args: &Args,
    source_is_dir: bool,
    destination: &String,
    destination_exists: bool,
) -> (r: Result<CopyPlan, CopyError>)
    ensures
        source_is_dir ==> r == Ok::<CopyPlan, CopyError>(
            CopyPlan::Dir(DirCopyOptions { overwrite: args.force, copy_inside: true }),
        ),
        !source_is_dir ==> {
            &&& r is Ok <==> !(destination_exists && !args.force)
            &&& (r matches Ok(p) ==> p == CopyPlan::File(spec_file_copy_method(*args)))
            &&& (r matches Err(e) ==> (e matches CopyError::AlreadyExists(q) && q@
                == destination@))
        },
{
    if source_is_dir {
        Ok(CopyPlan::Dir(dir_copy_options(args)))
    } else {
        match file_copy_plan(args, destination, destination_exists) {
            Ok(m) => Ok(CopyPlan::File(m)),
            Err(e) => Err(e),
        }
    }
}

} // verus!
