//! What a record type must offer to take part in a benchmark.

use vstd::prelude::*;
use crate::stream::Stream;

verus! {

/// A record type of which pseudo-random instances can be drawn.
///
/// `generated` is the mathematical account of one draw: the record that a
/// stream yields and the stream that is left. `generate` must compute
/// exactly that, so that a stream fixes every record drawn from it.
/// `well_formed` says in which ranges the fields of a drawn record lie.
pub trait Generate: Sized + View {
    /// The record drawn at `stream`, and the stream after it.
    spec fn generated(stream: Stream) -> (Self::V, Stream);

    /// Whether the fields of a record lie in the ranges they are drawn
    /// from.
    spec fn well_formed(record: Self::V) -> bool;

    /// Every record drawn is well formed.
    proof fn lemma_generated_well_formed(stream: Stream)
        ensures
            Self::well_formed(Self::generated(stream).0),
    ;

    /// Draws one record.
    fn generate(stream: &mut Stream) -> (record: Self)
        ensures
            record@ == Self::generated(*old(stream)).0,
            *final(stream) == Self::generated(*old(stream)).1,
    ;
}

/// A record type whose values can be compared field by field.
pub trait StructuralEq: Sized + View {
    /// Whether the two records hold equal values in every field.
    fn same(&self, other: &Self) -> (equal: bool)
        ensures
            equal == (self@ == other@),
    ;
}

/// The records of a sequence, each by its view.
pub open spec fn views<T: View>(records: Seq<T>) -> Seq<T::V> {
    records.map_values(|record: T| record@)
}

} // verus!
