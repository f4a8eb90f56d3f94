//! An "owning reference" container: one value that bundles an owner of
//! heap-resident data together with a reference into that data, kept in a
//! duration-free erased form so the pair can be stored, moved, and re-derived
//! ("mapped") without the caller tracking the owner's lifetime.
//!
//! The owner's dereferenced data is modelled as a sequence of elements held in
//! a `Vec`; an erased reference is a segment selector into that sequence.
//! Reconstitution hands out a real slice scoped to the access call, and the
//! shared/exclusive classification of the stored selector decides statically
//! which accessors a container offers.

mod class;
mod laws;
mod owning;
mod transform;

pub use class::ConstSeg;
pub use class::DerivedConst;
pub use class::DerivedMut;
pub use class::HasRefClass;
pub use class::MutSeg;
pub use class::Pair;
pub use class::RefClass;
pub use class::SharedRef;
pub use class::Triple;
pub use laws::lemma_map_compose;
pub use laws::lemma_map_pure_transform_keeps_owner;
pub use laws::lemma_pure_map_keeps_owner;
pub use laws::lemma_splice_splice;
pub use laws::lemma_splice_subrange;
pub use laws::lemma_total_try_matches_map;
pub use owning::splice;
pub use owning::OwningRef;
pub use transform::derived_sel;
pub use transform::upper_byte;
pub use transform::word_end;
pub use transform::word_end_from;
pub use transform::BoundedPrefix;
pub use transform::Compose;
pub use transform::FirstWord;
pub use transform::MapFunc;
pub use transform::Prefix;
pub use transform::SharedMapFunc;
pub use transform::Skip;
pub use transform::Total;
pub use transform::TryMapFunc;
pub use transform::Upper;
