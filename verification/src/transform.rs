//! Transform steps for the owning container.
//!
//! A transform is handed the reconstituted reference — a slice covering
//! exactly the current selection, exclusive or shared as the container's
//! origin allows — for the duration of one call, and returns a freshly
//! derived reference into that slice. The container erases the result and
//! stores it in place of the old selector.
//!
//! Each trait carries the transform's meaning as spec functions over the
//! selection's contents, so a container's `map` can state exactly what owner
//! data and what selection come out.

use vstd::prelude::*;

use crate::class::DerivedConst;
use crate::class::DerivedMut;
use crate::owning::splice;

verus! {

/// A transform that may be passed to `map` on an exclusive-origin container.
///
/// `call` receives the current selection as an exclusive slice; it may
/// rewrite the elements (to `post` of what they were, keeping their number)
/// and returns a derivation whose bounds, relative to the slice it was
/// handed, are `out_lo..out_hi` of the contents it found.
pub trait MapFunc<E> {
    /// The selection's contents after the call, as a function of the contents
    /// before it.
    spec fn post(self, cur: Seq<E>) -> Seq<E>;

    /// Lower bound of the derived reference, relative to the selection.
    spec fn out_lo(self, cur: Seq<E>) -> int;

    /// Upper bound of the derived reference, relative to the selection.
    spec fn out_hi(self, cur: Seq<E>) -> int;

    /// The transform keeps the selection's length and derives a reference
    /// that lies within it.
    proof fn call_wf(self, cur: Seq<E>)
        ensures
            self.post(cur).len() == cur.len(),
            0 <= self.out_lo(cur) <= self.out_hi(cur) <= cur.len(),
    ;

    /// Perform the transform under exclusive access to the selection, for
    /// exactly the duration of this call.
    fn call(self, seg: &mut [E]) -> (r: DerivedMut)
        ensures
            final(seg)@ == self.post(old(seg)@),
            r.lo == self.out_lo(old(seg)@),
            r.hi == self.out_hi(old(seg)@),
    ;
}

/// A transform that may be passed to `map` on a shared-origin container.
///
/// `call` receives the current selection read-only; it cannot change the
/// owner's data, only derive a narrower view of it.
pub trait SharedMapFunc<E> {
    /// Lower bound of the derived view, relative to the selection.
    spec fn out_lo(self, cur: Seq<E>) -> int;

    /// Upper bound of the derived view, relative to the selection.
    spec fn out_hi(self, cur: Seq<E>) -> int;

    /// The derived view lies within the selection.
    proof fn call_wf(self, cur: Seq<E>)
        ensures
            0 <= self.out_lo(cur) <= self.out_hi(cur) <= cur.len(),
    ;

    /// Derive a view of the selection, under shared access scoped to this
    /// call.
    fn call(self, seg: &[E]) -> (r: DerivedConst)
        ensures
            r.lo == self.out_lo(seg@),
            r.hi == self.out_hi(seg@),
    ;
}

/// A transform that may be passed to `try_map`: like `MapFunc`, but it may
/// report failure instead of a derived reference. `ok` says on exactly which
/// selection contents it succeeds; on the others it returns `err` of them.
pub trait TryMapFunc<E> {
    type Error;

    /// Whether the transform succeeds on a selection with these contents.
    spec fn ok(self, cur: Seq<E>) -> bool;

    /// On success, the selection's contents after the call.
    spec fn post(self, cur: Seq<E>) -> Seq<E>;

    /// On success, the lower bound of the derived reference, relative to the
    /// selection.
    spec fn out_lo(self, cur: Seq<E>) -> int;

    /// On success, the upper bound of the derived reference, relative to the
    /// selection.
    spec fn out_hi(self, cur: Seq<E>) -> int;

    /// On failure, the error reported.
    spec fn err(self, cur: Seq<E>) -> Self::Error;

    /// On the contents it accepts, the transform keeps the selection's length
    /// and derives a reference within it.
    proof fn call_wf(self, cur: Seq<E>)
        ensures
            self.ok(cur) ==> self.post(cur).len() == cur.len(),
            self.ok(cur) ==> 0 <= self.out_lo(cur) <= self.out_hi(cur) <= cur.len(),
    ;

    /// Perform the transform under exclusive access to the selection; succeed
    /// or report failure exactly as `ok` says.
    fn call(self, seg: &mut [E]) -> (r: Result<DerivedMut, Self::Error>)
        ensures
            self.ok(old(seg)@) ==> r is Ok,
            self.ok(old(seg)@) ==> final(seg)@ == self.post(old(seg)@),
            self.ok(old(seg)@) ==> r->Ok_0.lo == self.out_lo(old(seg)@),
            self.ok(old(seg)@) ==> r->Ok_0.hi == self.out_hi(old(seg)@),
            !self.ok(old(seg)@) ==> r is Err,
            !self.ok(old(seg)@) ==> r->Err_0 == self.err(old(seg)@),
    ;
}

/// Derive the first `k` elements of the selection, or all of it if it is
/// shorter. Leaves the elements themselves untouched.
#[derive(Clone, Copy)]
pub struct Prefix {
    pub k: usize,
}

impl<E> MapFunc<E> for Prefix {
    open spec fn post(self, cur: Seq<E>) -> Seq<E> {
        cur
    }

    open spec fn out_lo(self, cur: Seq<E>) -> int {
        0
    }

    open spec fn out_hi(self, cur: Seq<E>) -> int {
        if self.k <= cur.len() {
            self.k as int
        } else {
            cur.len() as int
        }
    }

    proof fn call_wf(self, cur: Seq<E>) {
    }

    fn call(self, seg: &mut [E]) -> (r: DerivedMut) {
        let n = seg.len();
        let m = if self.k <= n {
            self.k
        } else {
            n
        };
        DerivedMut { lo: 0, hi: m }
    }
}

impl<E> SharedMapFunc<E> for Prefix {
    open spec fn out_lo(self, cur: Seq<E>) -> int {
        0
    }

    open spec fn out_hi(self, cur: Seq<E>) -> int {
        if self.k <= cur.len() {
            self.k as int
        } else {
            cur.len() as int
        }
    }

    proof fn call_wf(self, cur: Seq<E>) {
    }

    fn call(self, seg: &[E]) -> (r: DerivedConst) {
        let n = seg.len();
        let m = if self.k <= n {
            self.k
        } else {
            n
        };
        DerivedConst { lo: 0, hi: m }
    }
}

/// Derive everything past the first `k` elements of the selection (the empty
/// tail if it is shorter). Leaves the elements themselves untouched.
#[derive(Clone, Copy)]
pub struct Skip {
    pub k: usize,
}

impl<E> MapFunc<E> for Skip {
    open spec fn post(self, cur: Seq<E>) -> Seq<E> {
        cur
    }

    open spec fn out_lo(self, cur: Seq<E>) -> int {
        if self.k <= cur.len() {
            self.k as int
        } else {
            cur.len() as int
        }
    }

    open spec fn out_hi(self, cur: Seq<E>) -> int {
        cur.len() as int
    }

    proof fn call_wf(self, cur: Seq<E>) {
    }

    fn call(self, seg: &mut [E]) -> (r: DerivedMut) {
        let n = seg.len();
        let m = if self.k <= n {
            self.k
        } else {
            n
        };
        DerivedMut { lo: m, hi: n }
    }
}

impl<E> SharedMapFunc<E> for Skip {
    open spec fn out_lo(self, cur: Seq<E>) -> int {
        if self.k <= cur.len() {
            self.k as int
        } else {
            cur.len() as int
        }
    }

    open spec fn out_hi(self, cur: Seq<E>) -> int {
        cur.len() as int
    }

    proof fn call_wf(self, cur: Seq<E>) {
    }

    fn call(self, seg: &[E]) -> (r: DerivedConst) {
        let n = seg.len();
        let m = if self.k <= n {
            self.k
        } else {
            n
        };
        DerivedConst { lo: m, hi: n }
    }
}

/// The ASCII upper-case form of a byte.
pub open spec fn upper_byte(b: u8) -> u8 {
    if 97 <= b <= 122 {
        (b - 32) as u8
    } else {
        b
    }
}

/// Rewrite every byte of the selection to its ASCII upper-case form, keeping
/// the whole selection selected.
#[derive(Clone, Copy)]
pub struct Upper;

impl MapFunc<u8> for Upper {
    open spec fn post(self, cur: Seq<u8>) -> Seq<u8> {
        Seq::new(cur.len(), |i: int| upper_byte(cur[i]))
    }

    open spec fn out_lo(self, cur: Seq<u8>) -> int {
        0
    }

    open spec fn out_hi(self, cur: Seq<u8>) -> int {
        cur.len() as int
    }

    proof fn call_wf(self, cur: Seq<u8>) {
    }

    fn call(self, seg: &mut [u8]) -> (r: DerivedMut) {
        let n = seg.len();
        let mut i: usize = 0;
        while i < n
            invariant
                i <= n,
                n == seg@.len(),
                forall|j: int| 0 <= j < i ==> seg@[j] == upper_byte(old(seg)@[j]),
                forall|j: int| i <= j < n ==> seg@[j] == old(seg)@[j],
            decreases n - i,
        {
            let b = seg[i];
            let ub = if 97 <= b && b <= 122 {
                b - 32
            } else {
                b
            };
            seg[i] = ub;
            i += 1;
        }
        proof {
            assert(seg@ =~= self.post(old(seg)@));
        }
        DerivedMut { lo: 0, hi: n }
    }
}

/// Where the first word of `s` ends, scanning from `i`: the first position at
/// or past `i` holding an ASCII space, or the end if there is none.
pub open spec fn word_end_from(s: Seq<u8>, i: int) -> int
    decreases s.len() - i,
{
    if i < 0 || i >= s.len() {
        s.len() as int
    } else if s[i] == 32 {
        i
    } else {
        word_end_from(s, i + 1)
    }
}

/// Where the first word of `s` ends: the position of its first ASCII space,
/// or its length if there is none.
pub open spec fn word_end(s: Seq<u8>) -> int {
    word_end_from(s, 0)
}

/// The scan never leaves `i..=len`.
pub proof fn lemma_word_end_from_bounds(s: Seq<u8>, i: int)
    requires
        0 <= i <= s.len(),
    ensures
        i <= word_end_from(s, i) <= s.len(),
    decreases s.len() - i,
{
    if i < s.len() && s[i] != 32 {
        lemma_word_end_from_bounds(s, i + 1);
    }
}

/// Derive the first space-delimited word of the selection: the bytes before
/// its first ASCII space, or the whole selection if it has none.
#[derive(Clone, Copy)]
pub struct FirstWord;

impl SharedMapFunc<u8> for FirstWord {
    open spec fn out_lo(self, cur: Seq<u8>) -> int {
        0
    }

    open spec fn out_hi(self, cur: Seq<u8>) -> int {
        word_end(cur)
    }

    proof fn call_wf(self, cur: Seq<u8>) {
        lemma_word_end_from_bounds(cur, 0);
    }

    fn call(self, seg: &[u8]) -> (r: DerivedConst) {
        let n = seg.len();
        let mut i: usize = 0;
        while i < n
            invariant
                0 <= i <= n,
                n == seg@.len(),
                word_end(seg@) == word_end_from(seg@, i as int),
            decreases n - i,
        {
            if seg[i] == 32 {
                return DerivedConst { lo: 0, hi: i };
            }
            i += 1;
        }
        DerivedConst { lo: 0, hi: n }
    }
}

/// A fallible transform that derives exactly the first `k` elements of the
/// selection, reporting `k` as the error if the selection is shorter.
#[derive(Clone, Copy)]
pub struct BoundedPrefix {
    pub k: usize,
}

impl<E> TryMapFunc<E> for BoundedPrefix {
    type Error = usize;

    open spec fn ok(self, cur: Seq<E>) -> bool {
        self.k <= cur.len()
    }

    open spec fn post(self, cur: Seq<E>) -> Seq<E> {
        cur
    }

    open spec fn out_lo(self, cur: Seq<E>) -> int {
        0
    }

    open spec fn out_hi(self, cur: Seq<E>) -> int {
        self.k as int
    }

    open spec fn err(self, cur: Seq<E>) -> usize {
        self.k
    }

    proof fn call_wf(self, cur: Seq<E>) {
    }

    fn call(self, seg: &mut [E]) -> (r: Result<DerivedMut, usize>) {
        if self.k <= seg.len() {
            Ok(DerivedMut { lo: 0, hi: self.k })
        } else {
            Err(self.k)
        }
    }
}

/// An infallible transform seen as a fallible one: it always succeeds, and
/// its success path is the underlying transform exactly.
#[derive(Clone, Copy)]
pub struct Total<F> {
    pub f: F,
}

impl<E, F: MapFunc<E>> TryMapFunc<E> for Total<F> {
    type Error = ();

    open spec fn ok(self, cur: Seq<E>) -> bool {
        true
    }

    open spec fn post(self, cur: Seq<E>) -> Seq<E> {
        self.f.post(cur)
    }

    open spec fn out_lo(self, cur: Seq<E>) -> int {
        self.f.out_lo(cur)
    }

    open spec fn out_hi(self, cur: Seq<E>) -> int {
        self.f.out_hi(cur)
    }

    open spec fn err(self, cur: Seq<E>) -> () {
        ()
    }

    proof fn call_wf(self, cur: Seq<E>) {
        self.f.call_wf(cur);
    }

    fn call(self, seg: &mut [E]) -> (r: Result<DerivedMut, ()>) {
        Ok(self.f.call(seg))
    }
}

/// The contents of the selection a transform derives, after it has run on
/// contents `cur`: the middle piece a second transform would then be handed.
pub open spec fn derived_sel<E, F: MapFunc<E>>(f: F, cur: Seq<E>) -> Seq<E> {
    f.post(cur).subrange(f.out_lo(cur), f.out_hi(cur))
}

/// Two transforms run one after the other as a single transform: first `f`
/// on the whole selection, then `g` on the selection `f` derived.
#[derive(Clone, Copy)]
pub struct Compose<F, G> {
    pub f: F,
    pub g: G,
}

impl<E, F: MapFunc<E>, G: MapFunc<E>> MapFunc<E> for Compose<F, G> {
    open spec fn post(self, cur: Seq<E>) -> Seq<E> {
        splice(
            self.f.post(cur),
            self.f.out_lo(cur),
            self.f.out_hi(cur),
            self.g.post(derived_sel(self.f, cur)),
        )
    }

    open spec fn out_lo(self, cur: Seq<E>) -> int {
        self.f.out_lo(cur) + self.g.out_lo(derived_sel(self.f, cur))
    }

    open spec fn out_hi(self, cur: Seq<E>) -> int {
        self.f.out_lo(cur) + self.g.out_hi(derived_sel(self.f, cur))
    }

    proof fn call_wf(self, cur: Seq<E>) {
        self.f.call_wf(cur);
        self.g.call_wf(derived_sel(self.f, cur));
        assert(self.post(cur).len() == cur.len());
    }

    fn call(self, seg: &mut [E]) -> (r: DerivedMut) {
        proof {
            self.f.call_wf(seg@);
        }
        let Compose { f, g } = self;
        let d1 = f.call(seg);
        let (front, back) = seg.split_at_mut(d1.lo);
        let (mid, tail) = back.split_at_mut(d1.hi - d1.lo);
        proof {
            assert(mid@ =~= derived_sel(f, old(seg)@));
            g.call_wf(mid@);
        }
        let d2 = g.call(mid);
        proof {
            assert(d2.lo <= d1.hi - d1.lo);
            assert(d2.hi <= d1.hi - d1.lo);
        }
        DerivedMut { lo: d1.lo + d2.lo, hi: d1.lo + d2.hi }
    }
}

} // verus!

