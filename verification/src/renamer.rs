//! The rename executor's decision rules.
//!
//! The executor re-checks, for every resolved rename and in both modes, that
//! the source is an accessible regular file and that the destination does
//! not exist, in that order and each at most once. The filesystem itself is
//! the caller's: what the queries observed arrives here as a probe value,
//! and the one mutating rename is performed by the caller only when `apply`
//! directs it — which it never does in simulate mode, and never onto an
//! existing destination.

use vstd::prelude::*;

use crate::err::DstPathFsError;
use crate::err::PathFsError;
use crate::err::SrcPathFsError;

verus! {

/// One proposed filesystem change: rename `src` to `dst`. Immutable once
/// constructed, consumed once, never persisted.
pub struct Rename {
    pub src: String,
    pub dst: String,
}

/// The two resolvable behaviours of the executor.
#[derive(Clone, Copy, Debug, PartialEq, Eq, Structural)]
pub enum RenameMode {
    /// Perform every check, then really rename.
    Execute,
    /// Perform every check, touch nothing, and report the would-be rename as
    /// a success.
    Simulate,
}

/// What a metadata query of the source path observed.
#[derive(Clone, Debug, PartialEq, Eq)]
pub enum SrcProbe {
    /// The query itself failed; carries the I/O fault's description.
    Error(String),
    /// The query succeeded and said whether the source is a regular file.
    Meta { is_file: bool },
}

/// What an existence query of the destination path observed.
#[derive(Clone, Debug, PartialEq, Eq)]
pub enum DstProbe {
    /// The query itself failed; carries the I/O fault's description.
    Error(String),
    /// The query succeeded and said whether the destination exists.
    Exists(bool),
}

/// How the source probe is classified: the source must be an accessible
/// regular file.
pub open spec fn check_src_spec(src: SrcProbe) -> Result<(), SrcPathFsError> {
    match src {
        SrcProbe::Error(m) => Err(SrcPathFsError::Access(m)),
        SrcProbe::Meta { is_file } => if is_file {
            Ok(())
        } else {
            Err(SrcPathFsError::NotARegularFile)
        },
    }
}

/// How the destination probe is classified: the destination must be absent,
/// never overwritten.
pub open spec fn check_dst_spec(dst: DstProbe) -> Result<(), DstPathFsError> {
    match dst {
        DstProbe::Error(m) => Err(DstPathFsError::ExistenceCheck(m)),
        DstProbe::Exists(present) => if present {
            Err(DstPathFsError::Exists)
        } else {
            Ok(())
        },
    }
}

/// The executor's combined precondition: the source check first, and only on
/// its success the destination check.
pub open spec fn check_spec(src: SrcProbe, dst: DstProbe) -> Result<(), PathFsError> {
    if check_src_spec(src) is Err {
        Err(PathFsError::Src(check_src_spec(src)->Err_0))
    } else if check_dst_spec(dst) is Err {
        Err(PathFsError::Dst(check_dst_spec(dst)->Err_0))
    } else {
        Ok(())
    }
}

/// What the executor directs once the checks ran: a failure to report, or
/// whether the caller must now perform the mutating rename. True only in
/// execute mode with every check passed.
pub open spec fn apply_spec(renamer: Renamer, src: SrcProbe, dst: DstProbe) -> Result<
    bool,
    PathFsError,
> {
    if check_spec(src, dst) is Err {
        Err(check_spec(src, dst)->Err_0)
    } else {
        Ok(renamer.mode is Execute)
    }
}

/// The executor: holds the resolved mode and applies the decision rules.
pub struct Renamer {
    pub mode: RenameMode,
}

impl Renamer {
    /// Selects the behaviour: execute when asked, otherwise simulate (the
    /// default, dry run).
    pub fn resolve(execute: bool) -> (r: Renamer)
        ensures
            r.mode == (if execute {
                RenameMode::Execute
            } else {
                RenameMode::Simulate
            }),
    {
        if execute {
            Renamer { mode: RenameMode::Execute }
        } else {
            Renamer { mode: RenameMode::Simulate }
        }
    }

    /// Classifies what the source metadata query observed.
    pub fn check_src(&self, src: SrcProbe) -> (r: Result<(), SrcPathFsError>)
        ensures
            r == check_src_spec(src),
    {
        match src {
            SrcProbe::Error(m) => Err(SrcPathFsError::Access(m)),
            SrcProbe::Meta { is_file } => {
                if is_file {
                    Ok(())
                } else {
                    Err(SrcPathFsError::NotARegularFile)
                }
            },
        }
    }

    /// Classifies what the destination existence query observed.
    pub fn check_dst(&self, dst: DstProbe) -> (r: Result<(), DstPathFsError>)
        ensures
            r == check_dst_spec(dst),
    {
        match dst {
            DstProbe::Error(m) => Err(DstPathFsError::ExistenceCheck(m)),
            DstProbe::Exists(present) => {
                if present {
                    Err(DstPathFsError::Exists)
                } else {
                    Ok(())
                }
            },
        }
    }

    /// Runs both checks in order, source first.
    pub fn check(&self, src: SrcProbe, dst: DstProbe) -> (r: Result<(), PathFsError>)
        ensures
            r == check_spec(src, dst),
    {
        match self.check_src(src) {
            Err(e) => Err(PathFsError::Src(e)),
            Ok(()) => match self.check_dst(dst) {
                Err(e) => Err(PathFsError::Dst(e)),
                Ok(()) => Ok(()),
            },
        }
    }

    /// Applies the decision rules for one rename: a failed check is returned
    /// to be reported, and otherwise the result says whether the caller must
    /// now perform the mutating rename — only in execute mode.
    pub fn apply(&self, src: SrcProbe, dst: DstProbe) -> (r: Result<bool, PathFsError>)
        ensures
            r == apply_spec(*self, src, dst),
    {
        match self.check(src, dst) {
            Err(e) => Err(e),
            Ok(()) => match self.mode {
                RenameMode::Execute => Ok(true),
                RenameMode::Simulate => Ok(false),
            },
        }
    }
}

} // verus!
