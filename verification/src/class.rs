//! The reference-class erasure protocol.
//!
//! A reference into an owner's data is erased to a duration-free *segment
//! selector*: the pair of bounds of the elements it covers. An erased form
//! remembers, in its type, whether it descends from an exclusive or from a
//! shared derivation; that classification gates which accessors the owning
//! container offers. Fixed-arity groups of selectors compose elementwise, in
//! a fixed order, with no cross-slot interaction.

use vstd::prelude::*;

verus! {

/// An erased reference of exclusive origin: the sole mutable path into the
/// elements `lo..hi` of its owner's data.
#[derive(Clone, Copy)]
pub struct MutSeg {
    pub lo: usize,
    pub hi: usize,
}

/// An erased reference of shared origin: a read-only view of the elements
/// `lo..hi` of its owner's data, of which many may be in scope at once.
#[derive(Clone, Copy)]
pub struct ConstSeg {
    pub lo: usize,
    pub hi: usize,
}

/// An erased, duration-free reference form.
///
/// `wf(n)` says that the form is valid for an owner whose dereferenced data
/// has `n` elements; a container upholds it for as long as it holds the owner.
pub trait RefClass: Copy + Sized {
    /// Validity for an owner whose data has `n` elements.
    spec fn wf(self, n: nat) -> bool;
}

/// Erased forms that descend only from shared derivations, and so may coexist
/// with a shared reference to their owner. No exclusive-origin form, nor any
/// group containing one, implements this.
pub trait SharedRef {}

impl RefClass for MutSeg {
    open spec fn wf(self, n: nat) -> bool {
        self.lo <= self.hi <= n
    }
}

impl RefClass for ConstSeg {
    open spec fn wf(self, n: nat) -> bool {
        self.lo <= self.hi <= n
    }
}

impl SharedRef for ConstSeg {}

/// A freshly derived reference that still carries its access duration in
/// spirit: it is only ever produced inside a transform call and erased by the
/// container immediately on return. Its bounds are relative to the segment
/// the transform was handed.
pub trait HasRefClass: Sized {
    type Class: RefClass;

    /// The erased form this derivation turns into.
    spec fn spec_class(self) -> Self::Class;

    /// Erase: discard the access duration, keeping only the selector.
    fn into_class(self) -> (r: Self::Class)
        ensures
            r == self.spec_class(),
    ;
}

/// A derivation made under exclusive access: erases to a `MutSeg`.
#[derive(Clone, Copy)]
pub struct DerivedMut {
    pub lo: usize,
    pub hi: usize,
}

/// A derivation made under shared access: erases to a `ConstSeg`.
#[derive(Clone, Copy)]
pub struct DerivedConst {
    pub lo: usize,
    pub hi: usize,
}

impl HasRefClass for DerivedMut {
    type Class = MutSeg;

    open spec fn spec_class(self) -> MutSeg {
        MutSeg { lo: self.lo, hi: self.hi }
    }

    fn into_class(self) -> (r: MutSeg) {
        MutSeg { lo: self.lo, hi: self.hi }
    }
}

impl HasRefClass for DerivedConst {
    type Class = ConstSeg;

    open spec fn spec_class(self) -> ConstSeg {
        ConstSeg { lo: self.lo, hi: self.hi }
    }

    fn into_class(self) -> (r: ConstSeg) {
        ConstSeg { lo: self.lo, hi: self.hi }
    }
}

/// A two-slot group of erased forms, composed elementwise in fixed order.
/// Nesting pairs (and triples) yields any bounded arity.
#[derive(Clone, Copy)]
pub struct Pair<A, B> {
    pub first: A,
    pub second: B,
}

impl<A: RefClass, B: RefClass> RefClass for Pair<A, B> {
    open spec fn wf(self, n: nat) -> bool {
        self.first.wf(n) && self.second.wf(n)
    }
}

impl<A: SharedRef, B: SharedRef> SharedRef for Pair<A, B> {}

impl<A: HasRefClass, B: HasRefClass> HasRefClass for Pair<A, B> {
    type Class = Pair<A::Class, B::Class>;

    open spec fn spec_class(self) -> Pair<A::Class, B::Class> {
        Pair { first: self.first.spec_class(), second: self.second.spec_class() }
    }

    fn into_class(self) -> (r: Pair<A::Class, B::Class>) {
        Pair { first: self.first.into_class(), second: self.second.into_class() }
    }
}

/// A three-slot group of erased forms, composed elementwise in fixed order.
#[derive(Clone, Copy)]
pub struct Triple<A, B, C> {
    pub first: A,
    pub second: B,
    pub third: C,
}

impl<A: RefClass, B: RefClass, C: RefClass> RefClass for Triple<A, B, C> {
    open spec fn wf(self, n: nat) -> bool {
        self.first.wf(n) && self.second.wf(n) && self.third.wf(n)
    }
}

impl<A: SharedRef, B: SharedRef, C: SharedRef> SharedRef for Triple<A, B, C> {}

impl<A: HasRefClass, B: HasRefClass, C: HasRefClass> HasRefClass for Triple<A, B, C> {
    type Class = Triple<A::Class, B::Class, C::Class>;

    open spec fn spec_class(self) -> Triple<A::Class, B::Class, C::Class> {
        Triple {
            first: self.first.spec_class(),
            second: self.second.spec_class(),
            third: self.third.spec_class(),
        }
    }

    fn into_class(self) -> (r: Triple<A::Class, B::Class, C::Class>) {
        Triple {
            first: self.first.into_class(),
            second: self.second.into_class(),
            third: self.third.into_class(),
        }
    }
}

} // verus!
