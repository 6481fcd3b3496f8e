//! The outcome reporter: two in-memory output channels.
//!
//! One line is appended per outcome: successful renames (performed or
//! simulated) on the success channel, skips and faults on the diagnostic
//! channel. The caller prints each channel's lines, in order, as they are
//! appended; substituting the in-memory channels for real streams is what
//! lets every report be checked.

use vstd::prelude::*;
use vstd::string::StringExecFns;

use crate::err::PathFsError;
use crate::err::PathStrError;
use crate::err_fmt;
use crate::err_fmt::fs_err_spec;
use crate::err_fmt::skip_line;
use crate::err_fmt::src_str_err_spec;

verus! {

/// The success line for one rename: source, arrow, destination, newline.
pub open spec fn rename_line(src: Seq<char>, dst: Seq<char>) -> Seq<char> {
    src + " -> "@ + dst + "\n"@
}

/// The diagnostic line for an unreadable input line: the fault's
/// description, newline-terminated.
pub open spec fn read_error_line(error: Seq<char>) -> Seq<char> {
    error + "\n"@
}

/// The two output channels, each a sequence of formatted, newline-terminated
/// lines in the order they were reported.
pub struct Reporter {
    pub success: Vec<String>,
    pub diagnostic: Vec<String>,
}

impl Reporter {
    /// A reporter whose channels are both still empty.
    pub fn new() -> (r: Reporter)
        ensures
            r.success.deep_view() == Seq::<Seq<char>>::empty(),
            r.diagnostic.deep_view() == Seq::<Seq<char>>::empty(),
    {
        let r = Reporter { success: Vec::new(), diagnostic: Vec::new() };
        proof {
            assert(r.success.deep_view() =~= Seq::<Seq<char>>::empty());
            assert(r.diagnostic.deep_view() =~= Seq::<Seq<char>>::empty());
        }
        r
    }

    /// Appends one line to the success channel: the rename that was carried
    /// out, or would be in a dry run.
    pub fn report_rename(&mut self, src: &String, dst: &String)
        ensures
            final(self).success.deep_view() == old(self).success.deep_view().push(
                rename_line(src@, dst@),
            ),
            final(self).diagnostic == old(self).diagnostic,
    {
        let msg = String::from_str(src.as_str()).concat(" -> ").concat(dst.as_str()).concat("\n");
        proof {
            assert(msg@ =~= rename_line(src@, dst@));
        }
        self.success.push(msg);
        proof {
            assert(self.success.deep_view() =~= old(self).success.deep_view().push(
                rename_line(src@, dst@),
            ));
        }
    }

    /// Appends one skip line to the diagnostic channel.
    pub fn report_skip(&mut self, file_name: &String, cause: &str)
        ensures
            final(self).diagnostic.deep_view() == old(self).diagnostic.deep_view().push(
                skip_line(file_name@, cause@),
            ),
            final(self).success == old(self).success,
    {
        let msg = err_fmt::format_skip(file_name, cause);
        self.diagnostic.push(msg);
        proof {
            assert(self.diagnostic.deep_view() =~= old(self).diagnostic.deep_view().push(
                skip_line(file_name@, cause@),
            ));
        }
    }

    /// Reports why a path string yielded no rename: a skip with the fixed
    /// phrase of the cause.
    pub fn report_src_str_err(&mut self, file_name: &String, cause: &PathStrError)
        ensures
            final(self).diagnostic.deep_view() == old(self).diagnostic.deep_view().push(
                skip_line(file_name@, src_str_err_spec(*cause)),
            ),
            final(self).success == old(self).success,
    {
        let explanation = err_fmt::src_str_err(cause);
        self.report_skip(file_name, explanation);
    }

    /// Reports why a resolved rename was not carried out: a skip with the
    /// cause's phrase, which names the destination where it already exists.
    pub fn report_fs_error(&mut self, src: &String, dst: &String, cause: &PathFsError)
        ensures
            final(self).diagnostic.deep_view() == old(self).diagnostic.deep_view().push(
                skip_line(src@, fs_err_spec(*cause, dst@)),
            ),
            final(self).success == old(self).success,
    {
        let explanation = err_fmt::fs_err(cause, dst);
        self.report_skip(src, explanation.as_str());
    }

    /// Reports that an input line could not be read; the run stops after
    /// this.
    pub fn report_stdin_read_error(&mut self, error: &String)
        ensures
            final(self).diagnostic.deep_view() == old(self).diagnostic.deep_view().push(
                read_error_line(error@),
            ),
            final(self).success == old(self).success,
    {
        let msg = String::from_str(error.as_str()).concat("\n");
        proof {
            assert(msg@ =~= read_error_line(error@));
        }
        self.diagnostic.push(msg);
        proof {
            assert(self.diagnostic.deep_view() =~= old(self).diagnostic.deep_view().push(
                read_error_line(error@),
            ));
        }
    }
}

} // verus!
