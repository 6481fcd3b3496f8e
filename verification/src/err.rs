//! The two error taxonomies of the tool: why a path string yields no rename,
//! and why a resolved rename could not be carried out.
//!
//! Every failure is classified once, reported once, and never retried. Where
//! the underlying cause is an I/O fault, the variant carries that fault's
//! description text, which the reporter prints verbatim.

use vstd::prelude::*;

verus! {

/// Why a raw path string cannot yield a rename. Terminal: produced and
/// immediately reported.
#[derive(Clone, Copy, Debug, PartialEq, Eq, Structural)]
pub enum PathStrError {
    /// The path has no file-name component (it is empty, a bare root, or a
    /// `.`/`..` component).
    MissingFileName,
    /// The file name holds no extension (no dot, or only the leading dot of a
    /// hidden file).
    MissingExtension,
    /// The extension is not representable as valid text. A caller that decodes
    /// raw platform bytes reports it with this variant; paths that arrive as
    /// ordinary strings never produce it.
    NonUnicodeExtension,
    /// The extension is already its own lowercased form: nothing to do.
    LowercaseExtension,
}

/// Why a resolved rename could not be executed. Terminal: produced at
/// apply-time and immediately reported.
#[derive(Clone, Debug, PartialEq, Eq)]
pub enum PathFsError {
    /// The source path failed its precondition.
    Src(SrcPathFsError),
    /// The destination path failed its precondition.
    Dst(DstPathFsError),
    /// The rename operation itself failed; carries the I/O fault's description.
    Rename(String),
}

/// What disqualified the source path.
#[derive(Clone, Debug, PartialEq, Eq)]
pub enum SrcPathFsError {
    /// Querying the source's metadata failed; carries the I/O fault's
    /// description.
    Access(String),
    /// The source exists but is not a regular file (a directory, a device, a
    /// symlink to a non-file).
    NotARegularFile,
}

/// What disqualified the destination path.
#[derive(Clone, Debug, PartialEq, Eq)]
pub enum DstPathFsError {
    /// Querying the destination's existence failed; carries the I/O fault's
    /// description.
    ExistenceCheck(String),
    /// The destination already exists: never overwrite.
    Exists,
}

} // verus!
