//! The owning container: exactly one owner together with exactly one erased
//! reference into the owner's data.
//!
//! The owner's dereferenced data is a `Vec` of elements; its heap buffer is
//! what the erased selectors point into, and it stays put while the container
//! (which may itself be moved freely) holds the owner. Every accessor
//! reconstitutes a real slice whose permitted duration is exactly the duration
//! of the access call, and the classification of the stored selector decides
//! statically which accessors exist at all.

use vstd::prelude::*;
use vstd::slice::slice_subrange;

use crate::class::ConstSeg;
use crate::class::HasRefClass;
use crate::class::MutSeg;
use crate::class::Pair;
use crate::class::RefClass;
use crate::class::SharedRef;
use crate::class::Triple;
use crate::transform::MapFunc;
use crate::transform::SharedMapFunc;
use crate::transform::TryMapFunc;

verus! {

/// `s` with the elements `lo..hi` replaced by `mid`.
///
/// This is the shape every transform step leaves the owner's data in: the
/// elements outside the selection are untouched, the selection itself is
/// rewritten.
pub open spec fn splice<E>(s: Seq<E>, lo: int, hi: int, mid: Seq<E>) -> Seq<E> {
    s.subrange(0, lo) + mid + s.subrange(hi, s.len() as int)
}

/// An owner and an erased reference into data reachable from it, bundled as
/// one movable value. Never observable partially initialized: every
/// constructor fills both fields, every destructor releases the erased
/// reference first and the owner last (in safe code, by field order alone).
pub struct OwningRef<O, T> {
    owner: O,
    borrow: T,
}

impl<O, T> OwningRef<O, T> {
    /// The owner held inside.
    pub closed spec fn spec_owner(self) -> O {
        self.owner
    }

    /// The erased reference held inside.
    pub closed spec fn erased(self) -> T {
        self.borrow
    }

    /// Drop the erased reference, and unwrap to the underlying owner,
    /// returned intact with full unrestricted access.
    pub fn into_owner(self) -> (r: O)
        ensures
            r == self.spec_owner(),
    {
        let OwningRef { owner, borrow } = self;
        owner
    }

    /// A shared reference to the underlying owner, scoped to this call.
    ///
    /// Offered only for shared-origin containers: exposing the owner beside a
    /// live exclusive-origin erased reference would open a second path into
    /// mutably-aliased data, so for those containers this method does not
    /// exist.
    pub fn as_owner(&self) -> (r: &O) where T: SharedRef
        ensures
            *r == self.spec_owner(),
    {
        &self.owner
    }
}

impl<E, T: RefClass> OwningRef<Vec<E>, T> {
    /// The owner's dereferenced data.
    pub open spec fn owner_view(self) -> Seq<E> {
        self.spec_owner()@
    }

    /// The container's invariant: the erased reference is valid for the data
    /// the owner currently holds. Constructors establish it and every
    /// operation preserves it.
    pub open spec fn wf(self) -> bool {
        self.erased().wf(self.owner_view().len())
    }

    /// Build a container from an owner and an already-derived erased
    /// reference. The caller supplies the derivation; the obligation that it
    /// actually lies within the owner's data is the precondition here, checked
    /// statically instead of being left as a manual contract.
    pub fn new_raw(owner: Vec<E>, borrow: T) -> (r: Self)
        requires
            borrow.wf(owner@.len()),
        ensures
            r.wf(),
            r.owner_view() == owner@,
            r.erased() == borrow,
    {
        OwningRef { owner, borrow }
    }
}

impl<E> OwningRef<Vec<E>, MutSeg> {
    /// Lower bound of the stored selection in the owner's data.
    pub open spec fn sel_lo(self) -> int {
        self.erased().lo as int
    }

    /// Upper bound of the stored selection in the owner's data.
    pub open spec fn sel_hi(self) -> int {
        self.erased().hi as int
    }

    /// The contents of the stored selection.
    pub open spec fn sel(self) -> Seq<E> {
        self.owner_view().subrange(self.sel_lo(), self.sel_hi())
    }

    /// A container holding `owner` and the erased form of an exclusive direct
    /// dereference of it: the selection covers the whole of the owner's data.
    pub fn new(owner: Vec<E>) -> (r: Self)
        ensures
            r.wf(),
            r.owner_view() == owner@,
            r.sel_lo() == 0,
            r.sel_hi() == owner@.len(),
            r.sel() == owner@,
    {
        let n = owner.len();
        let r = OwningRef { owner, borrow: MutSeg { lo: 0, hi: n } };
        proof {
            assert(r.sel() =~= r.owner_view());
        }
        r
    }

    /// Reconstitute the stored reference as a shared slice scoped to this
    /// call. Always available: narrowing an exclusive-origin erased form to
    /// shared access is safe.
    pub fn borrow(&self) -> (r: &[E])
        requires
            self.wf(),
        ensures
            r@ == self.sel(),
    {
        slice_subrange(self.owner.as_slice(), self.borrow.lo, self.borrow.hi)
    }

    /// Reconstitute the stored reference as an exclusive slice scoped to this
    /// call, preserving the mutability that was erased. Offered only for
    /// exclusive-origin containers; writes through the slice land in the
    /// owner's data, outside the selection nothing changes.
    pub fn borrow_mut(&mut self) -> (r: &mut [E])
        requires
            old(self).wf(),
        ensures
            r@ == old(self).sel(),
            final(self).erased() == old(self).erased(),
            final(self).owner_view() == splice(
                old(self).owner_view(),
                old(self).sel_lo(),
                old(self).sel_hi(),
                final(r)@,
            ),
            final(r)@.len() == old(self).sel().len() ==> final(self).wf(),
    {
        let lo = self.borrow.lo;
        let hi = self.borrow.hi;
        let whole = self.owner.as_mut_slice();
        let (left, rest) = whole.split_at_mut(lo);
        let (seg, right) = rest.split_at_mut(hi - lo);
        seg
    }

    /// Convert this container into one that points at something reachable
    /// from the previous selection.
    ///
    /// The stored reference is reconstituted as an exclusive slice for
    /// exactly the duration of the transform call; the transform's result is
    /// erased and stored with the same owner. The owner keeps every element
    /// outside the old selection, and is destroyed exactly once on every
    /// path: both parts live in locals here, so even an abnormal exit of the
    /// transform releases the derived reference first and the owner last.
    pub fn map<F: MapFunc<E>>(self, f: F) -> (r: Self)
        requires
            self.wf(),
        ensures
            r.wf(),
            r.owner_view() == splice(
                self.owner_view(),
                self.sel_lo(),
                self.sel_hi(),
                f.post(self.sel()),
            ),
            r.sel_lo() == self.sel_lo() + f.out_lo(self.sel()),
            r.sel_hi() == self.sel_lo() + f.out_hi(self.sel()),
    {
        let OwningRef { mut owner, borrow } = self;
        let lo = borrow.lo;
        let hi = borrow.hi;
        let ghost data = owner@;
        let whole = owner.as_mut_slice();
        let (left, rest) = whole.split_at_mut(lo);
        let (seg, right) = rest.split_at_mut(hi - lo);
        proof {
            assert(seg@ =~= data.subrange(lo as int, hi as int));
            f.call_wf(seg@);
        }
        let d = f.call(seg);
        let c = d.into_class();
        proof {
            assert(c.lo <= hi - lo);
            assert(c.hi <= hi - lo);
        }
        OwningRef { owner, borrow: MutSeg { lo: lo + c.lo, hi: lo + c.hi } }
    }

    /// Try to convert this container into one that points at something
    /// reachable from the previous selection.
    ///
    /// The success path is `map` exactly. On failure the owner and the
    /// erased reference are dropped with the failed attempt — reference
    /// first, owner last, the owner exactly once — and only the error value
    /// survives.
    pub fn try_map<F: TryMapFunc<E>>(self, f: F) -> (r: Result<Self, F::Error>)
        requires
            self.wf(),
        ensures
            f.ok(self.sel()) ==> r is Ok,
            f.ok(self.sel()) ==> r->Ok_0.wf(),
            f.ok(self.sel()) ==> r->Ok_0.owner_view() == splice(
                self.owner_view(),
                self.sel_lo(),
                self.sel_hi(),
                f.post(self.sel()),
            ),
            f.ok(self.sel()) ==> r->Ok_0.sel_lo() == self.sel_lo() + f.out_lo(self.sel()),
            f.ok(self.sel()) ==> r->Ok_0.sel_hi() == self.sel_lo() + f.out_hi(self.sel()),
            !f.ok(self.sel()) ==> r is Err,
            !f.ok(self.sel()) ==> r->Err_0 == f.err(self.sel()),
    {
        let OwningRef { mut owner, borrow } = self;
        let lo = borrow.lo;
        let hi = borrow.hi;
        let ghost data = owner@;
        let whole = owner.as_mut_slice();
        let (left, rest) = whole.split_at_mut(lo);
        let (seg, right) = rest.split_at_mut(hi - lo);
        proof {
            assert(seg@ =~= data.subrange(lo as int, hi as int));
            f.call_wf(seg@);
        }
        let d = match f.call(seg) {
            Ok(d) => d,
            Err(e) => {
                return Err(e);
            },
        };
        let c = d.into_class();
        proof {
            assert(c.lo <= hi - lo);
            assert(c.hi <= hi - lo);
        }
        Ok(OwningRef { owner, borrow: MutSeg { lo: lo + c.lo, hi: lo + c.hi } })
    }
}

impl<E> OwningRef<Vec<E>, ConstSeg> {
    /// Lower bound of the stored selection in the owner's data.
    pub open spec fn sel_lo(self) -> int {
        self.erased().lo as int
    }

    /// Upper bound of the stored selection in the owner's data.
    pub open spec fn sel_hi(self) -> int {
        self.erased().hi as int
    }

    /// The contents of the stored selection.
    pub open spec fn sel(self) -> Seq<E> {
        self.owner_view().subrange(self.sel_lo(), self.sel_hi())
    }

    /// A container holding `owner` and the erased form of a shared direct
    /// dereference of it: the selection covers the whole of the owner's data.
    pub fn new_shared(owner: Vec<E>) -> (r: Self)
        ensures
            r.wf(),
            r.owner_view() == owner@,
            r.sel_lo() == 0,
            r.sel_hi() == owner@.len(),
            r.sel() == owner@,
    {
        let n = owner.len();
        let r = OwningRef { owner, borrow: ConstSeg { lo: 0, hi: n } };
        proof {
            assert(r.sel() =~= r.owner_view());
        }
        r
    }

    /// Reconstitute the stored reference as a shared slice scoped to this
    /// call.
    pub fn borrow(&self) -> (r: &[E])
        requires
            self.wf(),
        ensures
            r@ == self.sel(),
    {
        slice_subrange(self.owner.as_slice(), self.borrow.lo, self.borrow.hi)
    }

    /// Convert this container into one that points at something reachable
    /// from the previous selection. A shared-origin container hands the
    /// transform the selection read-only, so the owner's data is unchanged;
    /// the derived view is erased and stored with the same owner.
    pub fn map<F: SharedMapFunc<E>>(self, f: F) -> (r: Self)
        requires
            self.wf(),
        ensures
            r.wf(),
            r.owner_view() == self.owner_view(),
            r.sel_lo() == self.sel_lo() + f.out_lo(self.sel()),
            r.sel_hi() == self.sel_lo() + f.out_hi(self.sel()),
    {
        let OwningRef { owner, borrow } = self;
        let lo = borrow.lo;
        let hi = borrow.hi;
        proof {
            f.call_wf(owner@.subrange(lo as int, hi as int));
        }
        let seg = slice_subrange(owner.as_slice(), lo, hi);
        let d = f.call(seg);
        let c = d.into_class();
        OwningRef { owner, borrow: ConstSeg { lo: lo + c.lo, hi: lo + c.hi } }
    }

    /// Derive two independent views of the selection with two shared
    /// transforms and keep both, as a two-slot group erased slot by slot,
    /// with the same owner: one container carrying views into two parts of
    /// one owner's data.
    pub fn map_pair<F: SharedMapFunc<E>, G: SharedMapFunc<E>>(self, f: F, g: G) -> (r: OwningRef<
        Vec<E>,
        Pair<ConstSeg, ConstSeg>,
    >)
        requires
            self.wf(),
        ensures
            r.wf(),
            r.owner_view() == self.owner_view(),
            r.erased().first.lo as int == self.sel_lo() + f.out_lo(self.sel()),
            r.erased().first.hi as int == self.sel_lo() + f.out_hi(self.sel()),
            r.erased().second.lo as int == self.sel_lo() + g.out_lo(self.sel()),
            r.erased().second.hi as int == self.sel_lo() + g.out_hi(self.sel()),
    {
        let OwningRef { owner, borrow } = self;
        let lo = borrow.lo;
        let hi = borrow.hi;
        proof {
            f.call_wf(owner@.subrange(lo as int, hi as int));
            g.call_wf(owner@.subrange(lo as int, hi as int));
        }
        let seg = slice_subrange(owner.as_slice(), lo, hi);
        let d = Pair { first: f.call(seg), second: g.call(seg) };
        let c = d.into_class();
        OwningRef {
            owner,
            borrow: Pair {
                first: ConstSeg { lo: lo + c.first.lo, hi: lo + c.first.hi },
                second: ConstSeg { lo: lo + c.second.lo, hi: lo + c.second.hi },
            },
        }
    }

    /// Derive three independent views of the selection with three shared
    /// transforms and keep all of them, as a three-slot group erased slot by
    /// slot, with the same owner.
    pub fn map_triple<F: SharedMapFunc<E>, G: SharedMapFunc<E>, H: SharedMapFunc<E>>(
        self,
        f: F,
        g: G,
        h: H,
    ) -> (r: OwningRef<Vec<E>, Triple<ConstSeg, ConstSeg, ConstSeg>>)
        requires
            self.wf(),
        ensures
            r.wf(),
            r.owner_view() == self.owner_view(),
            r.erased().first.lo as int == self.sel_lo() + f.out_lo(self.sel()),
            r.erased().first.hi as int == self.sel_lo() + f.out_hi(self.sel()),
            r.erased().second.lo as int == self.sel_lo() + g.out_lo(self.sel()),
            r.erased().second.hi as int == self.sel_lo() + g.out_hi(self.sel()),
            r.erased().third.lo as int == self.sel_lo() + h.out_lo(self.sel()),
            r.erased().third.hi as int == self.sel_lo() + h.out_hi(self.sel()),
    {
        let OwningRef { owner, borrow } = self;
        let lo = borrow.lo;
        let hi = borrow.hi;
        proof {
            f.call_wf(owner@.subrange(lo as int, hi as int));
            g.call_wf(owner@.subrange(lo as int, hi as int));
            h.call_wf(owner@.subrange(lo as int, hi as int));
        }
        let seg = slice_subrange(owner.as_slice(), lo, hi);
        let d = Triple { first: f.call(seg), second: g.call(seg), third: h.call(seg) };
        let c = d.into_class();
        OwningRef {
            owner,
            borrow: Triple {
                first: ConstSeg { lo: lo + c.first.lo, hi: lo + c.first.hi },
                second: ConstSeg { lo: lo + c.second.lo, hi: lo + c.second.hi },
                third: ConstSeg { lo: lo + c.third.lo, hi: lo + c.third.hi },
            },
        }
    }
}

impl<E> OwningRef<Vec<E>, Pair<ConstSeg, ConstSeg>> {
    /// Reconstitute both slots of a two-slot shared group as slices scoped to
    /// this call, in slot order, each slot independently of the other.
    pub fn borrow(&self) -> (r: (&[E], &[E]))
        requires
            self.wf(),
        ensures
            r.0@ == self.owner_view().subrange(
                self.erased().first.lo as int,
                self.erased().first.hi as int,
            ),
            r.1@ == self.owner_view().subrange(
                self.erased().second.lo as int,
                self.erased().second.hi as int,
            ),
    {
        let a = slice_subrange(self.owner.as_slice(), self.borrow.first.lo, self.borrow.first.hi);
        let b = slice_subrange(
            self.owner.as_slice(),
            self.borrow.second.lo,
            self.borrow.second.hi,
        );
        (a, b)
    }
}

impl<E> OwningRef<Vec<E>, Triple<ConstSeg, ConstSeg, ConstSeg>> {
    /// Reconstitute all three slots of a three-slot shared group as slices
    /// scoped to this call, in slot order, each slot independently of the
    /// others.
    pub fn borrow(&self) -> (r: (&[E], &[E], &[E]))
        requires
            self.wf(),
        ensures
            r.0@ == self.owner_view().subrange(
                self.erased().first.lo as int,
                self.erased().first.hi as int,
            ),
            r.1@ == self.owner_view().subrange(
                self.erased().second.lo as int,
                self.erased().second.hi as int,
            ),
            r.2@ == self.owner_view().subrange(
                self.erased().third.lo as int,
                self.erased().third.hi as int,
            ),
    {
        let a = slice_subrange(self.owner.as_slice(), self.borrow.first.lo, self.borrow.first.hi);
        let b = slice_subrange(
            self.owner.as_slice(),
            self.borrow.second.lo,
            self.borrow.second.hi,
        );
        let c = slice_subrange(self.owner.as_slice(), self.borrow.third.lo, self.borrow.third.hi);
        (a, b, c)
    }
}

} // verus!
