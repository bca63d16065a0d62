//! Validation of the sources and resolution of the destination path.
//!
//! The caller observes the filesystem (which sources exist, whether the
//! destination and its parent exist) and hands those observations in as
//! [`PathFacts`]; [`ensure_valid_paths`] either refuses the invocation or
//! returns the [`ResolvePlan`] of directory creations and canonicalization
//! the caller is to carry out.

use vstd::prelude::*;

use crate::args::Args;
use crate::error::CopyError;

verus! {

/// What the caller observed on the filesystem before any mutation, in the
/// order of `Args::source` for the sources.
#[derive(Debug)]
pub struct PathFacts {
    /// For each source path, whether it exists.
    pub source_exists: Vec<bool>,
    /// Whether the destination path exists.
    pub destination_exists: bool,
    /// Whether the destination path has a parent path at all.
    pub has_parent: bool,
    /// Whether that parent path exists; meaningless when `has_parent` is
    /// false.
    pub parent_exists: bool,
}

impl PathFacts {
    /// The facts describe the sources of `args` one for one.
    pub open spec fn describes(self, args: Args) -> bool {
        self.source_exists@.len() == args.source@.len()
    }
}

/// The filesystem work that resolving the destination asks of the caller.
#[derive(Debug, Clone, Copy, PartialEq, Eq, Structural)]
pub struct ResolvePlan {
    /// Create the destination as a directory, with all missing parents.
    pub create_destination_dir: bool,
    /// The destination exists (or is being created for several sources):
    /// resolve it to an absolute, symlink-free path and use that. Otherwise
    /// the literal destination string is the future path.
    pub canonicalize_destination: bool,
    /// Create the destination's missing parent directories.
    pub create_parent_dirs: bool,
}

/// The destination string names a directory explicitly: it ends with a
/// path separator.
pub open spec fn spec_ends_with_separator(s: Seq<char>) -> bool {
    s.len() > 0 && s[s.len() - 1] == '/'
}

/// Whether `s` ends with a path separator.
pub fn ends_with_separator(s: &String) -> (r: bool)
    ensures
        r == spec_ends_with_separator(s@),
{
    let n = s.as_str().unicode_len();
    if n == 0 {
        false
    } else {
        s.as_str().get_char(n - 1) == '/'
    }
}

/// The part of a path after its last separator: the name of the file the
/// path points at. A path that ends with a separator has an empty base name.
pub open spec fn spec_base_name(s: Seq<char>) -> Seq<char>
    decreases s.len(),
{
    if s.len() == 0 {
        s
    } else if s[s.len() - 1] == '/' {
        Seq::empty()
    } else {
        spec_base_name(s.drop_last()).push(s[s.len() - 1])
    }
}

/// The base name of a path is the suffix that follows its last separator:
/// cutting `s` at any `k` with no separator at or after `k` and a separator
/// just before `k` (or `k` at the start) yields exactly `spec_base_name(s)`.
pub proof fn lemma_base_name_is_suffix(s: Seq<char>, k: int)
    requires
        0 <= k <= s.len(),
        forall|j: int| k <= j < s.len() ==> s[j] != '/',
        k > 0 ==> s[k - 1] == '/',
    ensures
        spec_base_name(s) == s.subrange(k, s.len() as int),
    decreases s.len(),
{
    if s.len() == 0 {
        assert(s.subrange(0, 0) =~= s);
    } else if k == s.len() {
        assert(s.subrange(k, s.len() as int) =~= Seq::<char>::empty());
    } else {
        let t = s.drop_last();
        lemma_base_name_is_suffix(t, k);
        assert(t.subrange(k, t.len() as int).push(s[s.len() - 1]) =~= s.subrange(
            k,
            s.len() as int,
        ));
    }
}

/// The name of the file that `path` points at: everything after the last
/// separator, or all of `path` when it holds no separator.
pub fn base_name(path: &String) -> (r: String)
    ensures
        r@ == spec_base_name(path@),
{
    let n = path.as_str().unicode_len();
    let mut k = n;
    while k > 0 && path.as_str().get_char(k - 1) != '/'
        invariant
            k <= n,
            n == path@.len(),
            forall|j: int| k <= j < n ==> path@[j] != '/',
        decreases k,
    {
        k = k - 1;
    }
    let tail = path.as_str().substring_char(k, n);
    proof {
        lemma_base_name_is_suffix(path@, k as int);
    }
    tail.to_owned()
}

/// `name` placed under the directory `dir`: a separator is put between the
/// two unless `dir` already ends with one or is empty.
pub open spec fn spec_join_path(dir: Seq<char>, name: Seq<char>) -> Seq<char> {
    if dir.len() == 0 {
        name
    } else if dir[dir.len() - 1] == '/' {
        dir + name
    } else {
        dir + seq!['/'] + name
    }
}

/// Join `name` onto the directory path `dir`.
pub fn join_path(dir: &String, name: &String) -> (r: String)
    ensures
        r@ == spec_join_path(dir@, name@),
{
    if dir.as_str().unicode_len() == 0 {
        name.clone()
    } else if ends_with_separator(dir) {
        let mut r = dir.clone();
        r.append(name.as_str());
        r
    } else {
        let mut r = dir.clone();
        r.append("/");
        r.append(name.as_str());
        proof {
            reveal_strlit("/");
            assert(r@ =~= dir@ + seq!['/'] + name@);
        }
        r
    }
}

/// The concrete path one source is copied to: a file source going into an
/// existing destination directory lands under its own base name; every other
/// source uses the resolved destination as it stands.
pub fn per_source_target(
    destination: &String,
    destination_is_dir: bool,
    source: &String,
    source_is_file: bool,
) -> (r: String)
    ensures
        r@ == if source_is_file && destination_is_dir {
            spec_join_path(destination@, spec_base_name(source@))
        } else {
            destination@
        },
{
    if source_is_file && destination_is_dir {
        let name = base_name(source);
        join_path(destination, &name)
    } else {
        destination.clone()
    }
}

/// The plan that resolving the destination of `args` produces once every
/// source is known to exist and a missing destination directory was not
/// refused.
///
/// The destination directory is created either because several sources need
/// one (under `force`), or because a single missing destination is spelled
/// with a trailing separator (under `force`). The destination is
/// canonicalized exactly when it exists or is being created for several
/// sources; a directory created only for its trailing separator keeps the
/// literal spelling. Missing parents are created under `force` where no
/// directory creation already provides them.
pub open spec fn spec_resolve_plan(args: Args, facts: PathFacts) -> ResolvePlan {
    let multi_create = args.source@.len() > 1 && !facts.destination_exists && args.force;
    let canonicalize = facts.destination_exists || multi_create;
    let separator_create = !canonicalize && spec_ends_with_separator(args.destination@)
        && args.force;
    let create_destination = multi_create || separator_create;
    ResolvePlan {
        create_destination_dir: create_destination,
        canonicalize_destination: canonicalize,
        create_parent_dirs: args.force && facts.has_parent && !facts.parent_exists
            && !create_destination,
    }
}

/// Validate every source and resolve the destination.
///
/// A missing source refuses the whole invocation, naming the first missing
/// source in the order given, before anything else is considered. With
/// several sources and a missing destination, the destination directory is
/// refused without `force` and planned for creation with it. Otherwise the
/// returned plan is exactly [`spec_resolve_plan`].
pub fn ensure_valid_paths(args: &Args, facts: &PathFacts) -> (r: Result<ResolvePlan, CopyError>)
    requires
        facts.describes(*args),
    ensures
        (r matches Err(CopyError::SourceNotFound(_))) <==> (exists|i: int|
            0 <= i < facts.source_exists@.len() && !facts.source_exists@[i]),
        r matches Err(CopyError::SourceNotFound(p)) ==> (exists|i: int|
            {
                &&& 0 <= i < facts.source_exists@.len()
                &&& !facts.source_exists@[i]
                &&& forall|j: int| 0 <= j < i ==> facts.source_exists@[j]
                &&& p@ == args.source@[i]@
            }),
        (r matches Err(CopyError::DestinationDirectoryMissing(p)) && p@ == args.destination@)
            <==> {
            &&& forall|i: int|
                0 <= i < facts.source_exists@.len() ==> facts.source_exists@[i]
            &&& args.source@.len() > 1
            &&& !facts.destination_exists
            &&& !args.force
        },
        r is Ok <==> {
            &&& forall|i: int|
                0 <= i < facts.source_exists@.len() ==> facts.source_exists@[i]
            &&& !(args.source@.len() > 1 && !facts.destination_exists && !args.force)
        },
        r matches Ok(plan) ==> plan == spec_resolve_plan(*args, *facts),
{
    let n = args.source.len();
    let mut i: usize = 0;
    while i < n
        invariant
            n == args.source@.len(),
            facts.describes(*args),
            0 <= i <= n,
            forall|j: int| 0 <= j < i ==> facts.source_exists@[j],
        decreases n - i,
    {
        if !facts.source_exists[i] {
            return Err(CopyError::SourceNotFound(args.source[i].clone()));
        }
        i = i + 1;
    }

    if n > 1 && !facts.destination_exists && !args.force {
        return Err(CopyError::DestinationDirectoryMissing(args.destination.clone()));
    }

    let multi_create = n > 1 && !facts.destination_exists && args.force;
    let canonicalize = facts.destination_exists || multi_create;
    let separator_create = !canonicalize && ends_with_separator(&args.destination) && args.force;
    let create_destination = multi_create || separator_create;
    Ok(
        ResolvePlan {
            create_destination_dir: create_destination,
            canonicalize_destination: canonicalize,
            create_parent_dirs: args.force && facts.has_parent && !facts.parent_exists
                && !create_destination,
        },
    )
}

} // verus!
