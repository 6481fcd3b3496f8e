//! The per-line pipeline: validate, check, act, report.
//!
//! Each input line is processed to completion before the next is read, in
//! steps that the caller drives. `process_file_name` analyzes the line and
//! reports a failed analysis at once. For a resolved rename the caller
//! queries the source's metadata and hands the probe to `process_src_probe`;
//! only when the source passes is the destination's existence queried and
//! handed to `process_dst_probe`, which says whether the one mutating rename
//! must now be performed. When it was, `finish_rename` reports how it went.
//! Each check runs at most once per line, and no state crosses lines.

use vstd::prelude::*;

use crate::analyze::analyze_path_string;
use crate::analyze::analyze_spec;
use crate::err::PathFsError;
use crate::err_fmt::fs_err_spec;
use crate::err_fmt::skip_line;
use crate::err_fmt::src_str_err_spec;
use crate::renamer::check_dst_spec;
use crate::renamer::check_src_spec;
use crate::renamer::DstProbe;
use crate::renamer::Rename;
use crate::renamer::RenameMode;
use crate::renamer::Renamer;
use crate::renamer::SrcProbe;
use crate::reporter::rename_line;
use crate::reporter::Reporter;

verus! {

/// Analyzes one input line. On failure the skip is reported at once and
/// nothing more happens for this line; on success the resolved rename is
/// handed back for the filesystem steps, and nothing is reported yet.
pub fn process_file_name(reporter: &mut Reporter, file_name: &String) -> (r: Option<Rename>)
    ensures
        analyze_spec(file_name@) is Err ==> r is None,
        analyze_spec(file_name@) is Err ==> final(reporter).diagnostic.deep_view() == old(reporter).diagnostic.deep_view().push(
            skip_line(file_name@, src_str_err_spec(analyze_spec(file_name@)->Err_0)),
        ),
        analyze_spec(file_name@) is Err ==> final(reporter).success == old(reporter).success,
        analyze_spec(file_name@) is Ok ==> r is Some,
        analyze_spec(file_name@) is Ok ==> r->Some_0.src@ == file_name@,
        analyze_spec(file_name@) is Ok ==> r->Some_0.dst@ == analyze_spec(file_name@)->Ok_0,
        analyze_spec(file_name@) is Ok ==> *final(reporter) == *old(reporter),
{
    match analyze_path_string(file_name) {
        Err(err) => {
            reporter.report_src_str_err(file_name, &err);
            None
        },
        Ok(dst) => Some(Rename { src: file_name.clone(), dst }),
    }
}

/// First filesystem step, run in both modes: classifies what the source
/// metadata query observed. A failure is reported at once and ends the line,
/// so the destination is never queried for it. Returns whether to go on to
/// the destination check.
pub fn process_src_probe(
    renamer: &Renamer,
    reporter: &mut Reporter,
    rename: &Rename,
    src: SrcProbe,
) -> (go_on: bool)
    ensures
        go_on == (check_src_spec(src) is Ok),
        check_src_spec(src) is Err ==> final(reporter).diagnostic.deep_view() == old(reporter).diagnostic.deep_view().push(
            skip_line(
                rename.src@,
                fs_err_spec(PathFsError::Src(check_src_spec(src)->Err_0), rename.dst@),
            ),
        ),
        check_src_spec(src) is Err ==> final(reporter).success == old(reporter).success,
        check_src_spec(src) is Ok ==> *final(reporter) == *old(reporter),
{
    match renamer.check_src(src) {
        Err(e) => {
            let err = PathFsError::Src(e);
            reporter.report_fs_error(&rename.src, &rename.dst, &err);
            false
        },
        Ok(()) => true,
    }
}

/// Second filesystem step, reached only when the source passed: classifies
/// what the destination existence query observed and reports every outcome
/// that ends the line here — a failed check as a skip, and in simulate mode
/// a passing check as a success, the very line an execute run reports after
/// the rename. The result says whether the caller must now perform the
/// mutating rename: only in execute mode with the destination absent.
pub fn process_dst_probe(
    renamer: &Renamer,
    reporter: &mut Reporter,
    rename: &Rename,
    dst: DstProbe,
) -> (perform: bool)
    ensures
        perform == (renamer.mode is Execute && check_dst_spec(dst) is Ok),
        check_dst_spec(dst) is Err ==> final(reporter).diagnostic.deep_view() == old(reporter).diagnostic.deep_view().push(
            skip_line(
                rename.src@,
                fs_err_spec(PathFsError::Dst(check_dst_spec(dst)->Err_0), rename.dst@),
            ),
        ),
        check_dst_spec(dst) is Err ==> final(reporter).success == old(reporter).success,
        check_dst_spec(dst) is Ok && renamer.mode is Simulate ==> final(reporter).success.deep_view() == old(reporter).success.deep_view().push(
            rename_line(rename.src@, rename.dst@),
        ),
        check_dst_spec(dst) is Ok && renamer.mode is Simulate ==> final(reporter).diagnostic
            == old(reporter).diagnostic,
        check_dst_spec(dst) is Ok && renamer.mode is Execute ==> *final(reporter) == *old(reporter),
{
    match renamer.check_dst(dst) {
        Err(e) => {
            let err = PathFsError::Dst(e);
            reporter.report_fs_error(&rename.src, &rename.dst, &err);
            false
        },
        Ok(()) => match renamer.mode {
            RenameMode::Execute => true,
            RenameMode::Simulate => {
                reporter.report_rename(&rename.src, &rename.dst);
                false
            },
        },
    }
}

/// Consumes the outcome of the mutating rename the executor directed: a
/// success is reported on the success channel, with the same formatted text
/// a simulate run uses, and a failure as a skip carrying the fault's
/// description.
pub fn finish_rename(reporter: &mut Reporter, rename: &Rename, outcome: Result<(), String>)
    ensures
        outcome is Ok ==> final(reporter).success.deep_view() == old(reporter).success.deep_view().push(rename_line(rename.src@, rename.dst@)),
        outcome is Ok ==> final(reporter).diagnostic == old(reporter).diagnostic,
        outcome is Err ==> final(reporter).diagnostic.deep_view() == old(reporter).diagnostic.deep_view().push(
            skip_line(rename.src@, fs_err_spec(PathFsError::Rename(outcome->Err_0), rename.dst@)),
        ),
        outcome is Err ==> final(reporter).success == old(reporter).success,
{
    match outcome {
        Ok(()) => {
            reporter.report_rename(&rename.src, &rename.dst);
        },
        Err(m) => {
            let err = PathFsError::Rename(m);
            reporter.report_fs_error(&rename.src, &rename.dst, &err);
        },
    }
}

} // verus!
