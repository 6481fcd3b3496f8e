//! Case folding of extensions.
//!
//! The folding itself is Unicode lowercasing as the standard library defines
//! it. Its full mapping is not restated here; the contracts name the folded
//! form `lower_of` and the analyzer's promises are exact up to that name: a
//! path is renamed precisely when its extension differs from `lower_of` of
//! itself, and the destination carries `lower_of` of the extension.

use vstd::prelude::*;

verus! {

/// The lowercased form of a sequence of characters, as `str::to_lowercase`
/// computes it.
pub uninterp spec fn lower_of(s: Seq<char>) -> Seq<char>;

/// Whether folding settles `e` in one step: the folded form is a real
/// extension — nonempty, free of separators and dots — and folds to itself.
/// Lowercasing as the standard library performs it gives such a form for
/// every extension an uppercase file name carries in practice; the analyzer's
/// fixed-point law is stated under this condition, since the folding itself
/// stays uninterpreted here.
pub open spec fn fold_settled(e: Seq<char>) -> bool {
    &&& lower_of(e).len() > 0
    &&& !lower_of(e).contains('/')
    &&& !lower_of(e).contains('.')
    &&& lower_of(lower_of(e)) == lower_of(e)
}

/// Relies on `str::to_lowercase`: the result is a pure function of the
/// characters alone (locale-independent Unicode lowercasing).
#[verifier::external_body]
pub(crate) fn lowercase(s: &str) -> (r: String)
    ensures
        r@ == lower_of(s@),
{
    s.to_lowercase()
}

} // verus!
