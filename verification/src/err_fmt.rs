//! The fixed diagnostic phrases, and the formatting of one skip line.
//!
//! Every error variant maps to a stable human-readable phrase; where the
//! cause was an I/O fault, the phrase is that fault's description verbatim.
//! A skip line reads `"<file>: <reason>"` and ends with a newline.

use vstd::prelude::*;
use vstd::string::StringExecFns;

use crate::err::DstPathFsError;
use crate::err::PathFsError;
use crate::err::PathStrError;
use crate::err::SrcPathFsError;

verus! {

/// The diagnostic line for a skipped file: the file name, the cause, a
/// newline.
pub open spec fn skip_line(file_name: Seq<char>, cause: Seq<char>) -> Seq<char> {
    file_name + ": "@ + cause + "\n"@
}

/// The fixed phrase for each path-string failure.
pub open spec fn src_str_err_spec(cause: PathStrError) -> Seq<char> {
    match cause {
        PathStrError::MissingFileName => "missing file name"@,
        PathStrError::MissingExtension => "missing extension"@,
        PathStrError::NonUnicodeExtension => "non-Unicode extension"@,
        PathStrError::LowercaseExtension => "extension is lowercase"@,
    }
}

/// The phrase for a disqualified source: the I/O fault's description, or the
/// fixed phrase for a non-regular file.
pub open spec fn fs_src_err_spec(cause: SrcPathFsError) -> Seq<char> {
    match cause {
        SrcPathFsError::Access(m) => m@,
        SrcPathFsError::NotARegularFile => "not a regular file"@,
    }
}

/// The phrase for a disqualified destination: the I/O fault's description,
/// or the fixed phrase naming the path that already exists.
pub open spec fn fs_dst_err_spec(cause: DstPathFsError, dst: Seq<char>) -> Seq<char> {
    match cause {
        DstPathFsError::ExistenceCheck(m) => m@,
        DstPathFsError::Exists => "Exists: "@ + dst,
    }
}

/// The phrase for each executor failure.
pub open spec fn fs_err_spec(cause: PathFsError, dst: Seq<char>) -> Seq<char> {
    match cause {
        PathFsError::Src(e) => fs_src_err_spec(e),
        PathFsError::Dst(e) => fs_dst_err_spec(e, dst),
        PathFsError::Rename(m) => m@,
    }
}

/// Formats the diagnostic line for a skipped file.
pub fn format_skip(file_name: &String, cause: &str) -> (r: String)
    ensures
        r@ == skip_line(file_name@, cause@),
{
    let r = String::from_str(file_name.as_str()).concat(": ").concat(cause).concat("\n");
    proof {
        assert(r@ =~= skip_line(file_name@, cause@));
    }
    r
}

/// Maps a path-string failure to its fixed phrase.
pub fn src_str_err(cause: &PathStrError) -> (r: &'static str)
    ensures
        r@ == src_str_err_spec(*cause),
{
    match cause {
        PathStrError::MissingFileName => "missing file name",
        PathStrError::MissingExtension => "missing extension",
        PathStrError::NonUnicodeExtension => "non-Unicode extension",
        PathStrError::LowercaseExtension => "extension is lowercase",
    }
}

/// Maps a source failure to its phrase.
pub fn fs_src_err(cause: &SrcPathFsError) -> (r: String)
    ensures
        r@ == fs_src_err_spec(*cause),
{
    match cause {
        SrcPathFsError::Access(m) => m.clone(),
        SrcPathFsError::NotARegularFile => String::from_str("not a regular file"),
    }
}

/// Maps a destination failure to its phrase; an existing destination is
/// named in it.
pub fn fs_dst_err(cause: &DstPathFsError, dst: &String) -> (r: String)
    ensures
        r@ == fs_dst_err_spec(*cause, dst@),
{
    match cause {
        DstPathFsError::ExistenceCheck(m) => m.clone(),
        DstPathFsError::Exists => String::from_str("Exists: ").concat(dst.as_str()),
    }
}

/// Maps a failed rename operation to its phrase: the fault's description.
pub fn fs_rename_err(cause: &String, _dst: &String) -> (r: String)
    ensures
        r@ == cause@,
{
    cause.clone()
}

/// Maps an executor failure to its phrase, dispatching on where it arose.
pub fn fs_err(cause: &PathFsError, dst: &String) -> (r: String)
    ensures
        r@ == fs_err_spec(*cause, dst@),
{
    match cause {
        PathFsError::Src(e) => fs_src_err(e),
        PathFsError::Dst(e) => fs_dst_err(e, dst),
        PathFsError::Rename(m) => fs_rename_err(m, dst),
    }
}

} // verus!
