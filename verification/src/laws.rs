//! Laws of the owning container, stated over the same model its contracts
//! use: the owner's data as a sequence, a selection as a pair of bounds, and
//! a transform step as a splice of the selection.

use vstd::prelude::*;

use crate::owning::splice;
use crate::transform::derived_sel;
use crate::transform::Compose;
use crate::transform::MapFunc;
use crate::transform::Total;
use crate::transform::TryMapFunc;

verus! {

/// A transform that leaves the selection's contents unchanged leaves the
/// owner's data exactly as it was: mapping with a pure transform and then
/// extracting the owner returns the original owner value, unchanged.
pub proof fn lemma_pure_map_keeps_owner<E>(data: Seq<E>, lo: int, hi: int)
    requires
        0 <= lo <= hi <= data.len(),
    ensures
        splice(data, lo, hi, data.subrange(lo, hi)) == data,
{
    assert(splice(data, lo, hi, data.subrange(lo, hi)) =~= data);
}

/// Mapping with any transform that does not rewrite the selection's contents
/// leaves the owner's data it returns — and so the owner value that
/// extraction then yields — exactly equal to the original.
pub proof fn lemma_map_pure_transform_keeps_owner<E, F: MapFunc<E>>(
    data: Seq<E>,
    lo: int,
    hi: int,
    f: F,
)
    requires
        0 <= lo <= hi <= data.len(),
        f.post(data.subrange(lo, hi)) == data.subrange(lo, hi),
    ensures
        splice(data, lo, hi, f.post(data.subrange(lo, hi))) == data,
{
    lemma_pure_map_keeps_owner(data, lo, hi);
}

/// Rewriting a selection and then reading a window of it sees exactly the
/// corresponding window of the rewritten contents.
pub proof fn lemma_splice_subrange<E>(data: Seq<E>, lo: int, hi: int, mid: Seq<E>, a: int, b: int)
    requires
        0 <= lo <= hi <= data.len(),
        0 <= a <= b <= mid.len(),
    ensures
        splice(data, lo, hi, mid).subrange(lo + a, lo + b) == mid.subrange(a, b),
{
    assert(splice(data, lo, hi, mid).subrange(lo + a, lo + b) =~= mid.subrange(a, b));
}

/// Splicing into a spliced region nests: rewriting a window of an already
/// rewritten selection is one rewrite of the original selection.
pub proof fn lemma_splice_splice<E>(
    data: Seq<E>,
    lo: int,
    hi: int,
    mid: Seq<E>,
    a: int,
    b: int,
    inner: Seq<E>,
)
    requires
        0 <= lo <= hi <= data.len(),
        0 <= a <= b <= mid.len(),
    ensures
        splice(splice(data, lo, hi, mid), lo + a, lo + b, inner) == splice(
            data,
            lo,
            hi,
            splice(mid, a, b, inner),
        ),
{
    assert(splice(splice(data, lo, hi, mid), lo + a, lo + b, inner) =~= splice(
        data,
        lo,
        hi,
        splice(mid, a, b, inner),
    ));
}

/// Mapping is compositional: mapping with `f` and then with `g` leaves the
/// same owner data, and selects the same bounds of it, as mapping once with
/// the composed transform. The borrows reconstituted afterwards are therefore
/// the same slice of the same data.
pub proof fn lemma_map_compose<E, F: MapFunc<E>, G: MapFunc<E>>(
    data: Seq<E>,
    lo: int,
    hi: int,
    f: F,
    g: G,
)
    requires
        0 <= lo <= hi <= data.len(),
    ensures
        splice(
            splice(data, lo, hi, f.post(data.subrange(lo, hi))),
            lo + f.out_lo(data.subrange(lo, hi)),
            lo + f.out_hi(data.subrange(lo, hi)),
            g.post(derived_sel(f, data.subrange(lo, hi))),
        ) == splice(
            data,
            lo,
            hi,
            (Compose { f, g }).post(data.subrange(lo, hi)),
        ),
        splice(data, lo, hi, f.post(data.subrange(lo, hi))).subrange(
            lo + f.out_lo(data.subrange(lo, hi)),
            lo + f.out_hi(data.subrange(lo, hi)),
        ) == derived_sel(f, data.subrange(lo, hi)),
        lo + f.out_lo(data.subrange(lo, hi)) + g.out_lo(derived_sel(f, data.subrange(lo, hi)))
            == lo + (Compose { f, g }).out_lo(data.subrange(lo, hi)),
        lo + f.out_lo(data.subrange(lo, hi)) + g.out_hi(derived_sel(f, data.subrange(lo, hi)))
            == lo + (Compose { f, g }).out_hi(data.subrange(lo, hi)),
{
    let cur = data.subrange(lo, hi);
    f.call_wf(cur);
    g.call_wf(derived_sel(f, cur));
    lemma_splice_subrange(data, lo, hi, f.post(cur), f.out_lo(cur), f.out_hi(cur));
    lemma_splice_splice(
        data,
        lo,
        hi,
        f.post(cur),
        f.out_lo(cur),
        f.out_hi(cur),
        g.post(derived_sel(f, cur)),
    );
}

/// The success path of a fallible step built from an infallible transform is
/// that transform exactly: it always succeeds, rewrites the selection the
/// same way, and derives the same bounds. Its failure path cannot be taken at
/// all.
pub proof fn lemma_total_try_matches_map<E, F: MapFunc<E>>(f: F, cur: Seq<E>)
    ensures
        (Total { f }).ok(cur),
        (Total { f }).post(cur) == f.post(cur),
        (Total { f }).out_lo(cur) == f.out_lo(cur),
        (Total { f }).out_hi(cur) == f.out_hi(cur),
{
}

} // verus!
