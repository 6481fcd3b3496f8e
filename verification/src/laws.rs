//! The laws of the library, each proved once and for all inputs: what the
//! analyzer decides for every class of path, that its transformation is a
//! fixed point, and that the executor never directs a mutating rename it
//! must not.

use vstd::prelude::*;

use crate::analyze::analyze_spec;
use crate::analyze::destination_of;
use crate::analyze::extension_of;
use crate::analyze::extension_settled;
use crate::analyze::file_name_of;
use crate::analyze::has_extension;
use crate::analyze::has_file_name;
use crate::analyze::last_index_of;
use crate::analyze::lemma_last_index_of_at;
use crate::analyze::lemma_last_index_of_none;
use crate::analyze::lemma_last_index_of_props;
use crate::analyze::lemma_trimmed_len_bounds;
use crate::analyze::trimmed;
use crate::analyze::trimmed_len;
use crate::err::PathFsError;
use crate::err::PathStrError;
use crate::fold::fold_settled;
use crate::fold::lower_of;
use crate::renamer::apply_spec;
use crate::renamer::DstProbe;
use crate::renamer::Rename;
use crate::renamer::Renamer;
use crate::renamer::SrcProbe;
use crate::reporter::rename_line;
use crate::reporter::Reporter;

verus! {

/// A path whose file name holds no dot at all is reported as missing its
/// extension.
pub proof fn lemma_no_dot_means_missing_extension(p: Seq<char>)
    requires
        has_file_name(p),
        !file_name_of(p).contains('.'),
    ensures
        analyze_spec(p) == Err::<Seq<char>, PathStrError>(PathStrError::MissingExtension),
{
    let f = file_name_of(p);
    assert forall|j: int| 0 <= j < f.len() implies f[j] != '.' by {
        if f[j] == '.' {
            assert(f.contains('.'));
        }
    }
    lemma_last_index_of_none(f, '.');
}

/// A path whose extension is already its own lowercased form is reported as
/// already lowercase: nothing to do.
pub proof fn lemma_settled_extension_means_skip(p: Seq<char>)
    requires
        has_file_name(p),
        has_extension(file_name_of(p)),
        extension_settled(file_name_of(p)),
    ensures
        analyze_spec(p) == Err::<Seq<char>, PathStrError>(PathStrError::LowercaseExtension),
{
}

/// A path whose extension folding changes is renamed, and the destination
/// differs from the source in the extension substring alone: the prefix up
/// to the extension is kept character for character, and what follows it is
/// exactly the folded extension.
pub proof fn lemma_rename_changes_only_extension(p: Seq<char>)
    requires
        has_file_name(p),
        has_extension(file_name_of(p)),
        !extension_settled(file_name_of(p)),
    ensures
        analyze_spec(p) is Ok,
        analyze_spec(p)->Ok_0.take(trimmed_len(p) - extension_of(file_name_of(p)).len()) == p.take(
            trimmed_len(p) - extension_of(file_name_of(p)).len(),
        ),
        analyze_spec(p)->Ok_0.skip(trimmed_len(p) - extension_of(file_name_of(p)).len())
            == lower_of(extension_of(file_name_of(p))),
{
    let f = file_name_of(p);
    let e = extension_of(f);
    let k = trimmed_len(p) - e.len();
    let d = destination_of(p);
    lemma_trimmed_len_bounds(p);
    lemma_last_index_of_props(trimmed(p), '/');
    lemma_last_index_of_props(f, '.');
    assert(0 <= k <= p.len());
    assert(d.take(k) =~= p.take(k));
    assert(d.skip(k) =~= lower_of(e));
}

/// Applying the analyzer to a rename's destination finds nothing left to do:
/// the transformation reaches a fixed point after one application. The law
/// holds wherever folding settles the extension (see `fold_settled`); the
/// folding stays uninterpreted here, so that condition is taken as given
/// rather than derived.
pub proof fn lemma_destination_is_fixed_point(p: Seq<char>)
    requires
        analyze_spec(p) is Ok,
        fold_settled(extension_of(file_name_of(p))),
    ensures
        analyze_spec(analyze_spec(p)->Ok_0) == Err::<Seq<char>, PathStrError>(
            PathStrError::LowercaseExtension,
        ),
{
    let tl = trimmed_len(p);
    let t = trimmed(p);
    let ls = last_index_of(t, '/');
    let f = file_name_of(p);
    let dot = last_index_of(f, '.');
    let e = extension_of(f);
    let low = lower_of(e);
    let k = tl - e.len();
    let d = destination_of(p);

    lemma_trimmed_len_bounds(p);
    lemma_last_index_of_props(t, '/');
    lemma_last_index_of_props(f, '.');
    assert(f.len() == tl - ls - 1);
    assert(1 <= dot < f.len());
    assert(e.len() == f.len() - dot - 1);
    assert(k == ls + dot + 2);
    assert(d.len() == k + low.len());

    // the folded extension holds no separator and no dot
    assert forall|i: int| 0 <= i < low.len() implies low[i] != '/' && low[i] != '.' by {
        if low[i] == '/' {
            assert(low.contains('/'));
        }
        if low[i] == '.' {
            assert(low.contains('.'));
        }
    }

    // the destination ends in the folded extension, so trimming takes
    // nothing from it
    assert(d[d.len() - 1] == low[low.len() - 1]);
    assert(trimmed_len(d) == d.len());
    assert(trimmed(d) =~= d);

    // the destination's last separator is the source's
    if ls >= 0 {
        assert(d[ls] == t[ls]);
        assert forall|j: int| ls < j < d.len() implies d[j] != '/' by {
            if j < k {
                assert(d[j] == t[j]);
            } else {
                assert(d[j] == low[j - k]);
            }
        }
        lemma_last_index_of_at(d, '/', ls);
    } else {
        assert forall|j: int| 0 <= j < d.len() implies d[j] != '/' by {
            if j < k {
                assert(d[j] == t[j]);
            } else {
                assert(d[j] == low[j - k]);
            }
        }
        lemma_last_index_of_none(d, '/');
    }
    assert(last_index_of(d, '/') == ls);

    // the destination's file name: the stem with its dot, then the folded
    // extension
    let fd = file_name_of(d);
    assert(fd =~= f.take(dot + 1) + low);
    assert(fd.len() == dot + 1 + low.len());
    assert(fd.len() >= 3);
    assert(has_file_name(d)) by {
        assert(seq!['.', '.'].len() == 2);
    }

    // its last dot is still the stem's dot, so its extension is the folded
    // form, which folds to itself
    assert(fd[dot] == f[dot]);
    assert forall|j: int| dot < j < fd.len() implies fd[j] != '.' by {
        assert(fd[j] == low[j - dot - 1]);
    }
    lemma_last_index_of_at(fd, '.', dot);
    assert(has_extension(fd));
    assert(extension_of(fd) =~= low);
    assert(extension_settled(fd));
}

/// The executor never directs the mutating rename when the destination
/// already exists, in either mode: never overwrite.
pub proof fn lemma_never_renames_onto_existing(renamer: Renamer, src: SrcProbe, dst: DstProbe)
    requires
        dst == DstProbe::Exists(true),
    ensures
        apply_spec(renamer, src, dst) != Ok::<bool, PathFsError>(true),
{
}

/// A simulate run never directs the mutating rename, whatever the probes
/// observed: no filesystem mutation ever occurs in a dry run.
pub proof fn lemma_simulate_never_mutates(renamer: Renamer, src: SrcProbe, dst: DstProbe)
    requires
        renamer.mode is Simulate,
    ensures
        apply_spec(renamer, src, dst) != Ok::<bool, PathFsError>(true),
{
}

/// A dry run loses no report: the success line a simulate run appends when
/// every check passes is the very line an execute run appends once the rename
/// succeeded. Two runs over the same rename whose channels started equal end
/// with equal channels, one having mutated nothing.
pub proof fn lemma_simulate_reports_the_execute_text(
    simulated: Reporter,
    simulated_after: Reporter,
    executed: Reporter,
    executed_after: Reporter,
    rename: Rename,
)
    requires
        simulated.success.deep_view() == executed.success.deep_view(),
        simulated.diagnostic.deep_view() == executed.diagnostic.deep_view(),
        simulated_after.success.deep_view() == simulated.success.deep_view().push(
            rename_line(rename.src@, rename.dst@),
        ),
        simulated_after.diagnostic == simulated.diagnostic,
        executed_after.success.deep_view() == executed.success.deep_view().push(
            rename_line(rename.src@, rename.dst@),
        ),
        executed_after.diagnostic == executed.diagnostic,
    ensures
        simulated_after.success.deep_view() == executed_after.success.deep_view(),
        simulated_after.diagnostic.deep_view() == executed_after.diagnostic.deep_view(),
{
}

} // verus!
