//! The round-trip verifier: structural equality of two datasets.

use vstd::prelude::*;
use crate::codec::{DecodeError, EncodeError};
use crate::record::{views, StructuralEq};
use crate::session::Event;

verus! {

/// Whether `decoded` holds the same records as `original`, in the same
/// order, each equal in every field.
pub fn verify<T: StructuralEq>(original: &Vec<T>, decoded: &Vec<T>) -> (equal: bool)
    ensures
        equal == (views(original@) == views(decoded@)),
{
    if original.len() != decoded.len() {
        assert(views(original@).len() != views(decoded@).len());
        return false;
    }
    let mut at: usize = 0;
    while at < original.len()
        invariant
            at <= original.len(),
            original.len() == decoded.len(),
            forall|i: int| 0 <= i < at ==> original@[i]@ == decoded@[i]@,
        decreases original.len() - at,
    {
        if !original[at].same(&decoded[at]) {
            assert(views(original@)[at as int] != views(decoded@)[at as int]);
            return false;
        }
        at = at + 1;
    }
    assert(views(original@) =~= views(decoded@));
    true
}

/// What the outcome of the representative encode means to a session.
pub open spec fn encode_event(outcome: Result<usize, EncodeError>) -> Event {
    match outcome {
        Ok(size) => Event::Encoded { size },
        Err(error) => Event::EncodeFailed(error),
    }
}

/// What the outcome of decoding the representative buffer means to a
/// session that works on `original`.
pub open spec fn decode_event<V>(original: Seq<V>, outcome: Result<Seq<V>, DecodeError>) -> Event {
    match outcome {
        Ok(decoded) => Event::Decoded { equal: original == decoded },
        Err(error) => Event::DecodeFailed(error),
    }
}

/// Turns the outcome of the representative encode, the buffer's size or an
/// error, into the event for the session.
pub fn encoded(outcome: Result<usize, EncodeError>) -> (event: Event)
    ensures
        event == encode_event(outcome),
{
    match outcome {
        Ok(size) => Event::Encoded { size },
        Err(error) => Event::EncodeFailed(error),
    }
}

/// Turns the outcome of decoding the representative buffer into the event
/// for the session: a decoded value is compared with the original.
pub fn decoded<T: StructuralEq>(original: &Vec<T>, outcome: &Result<Vec<T>, DecodeError>) -> (event:
    Event)
    ensures
        event == decode_event(
            views(original@),
            match *outcome {
                Ok(value) => Ok(views(value@)),
                Err(error) => Err(error),
            },
        ),
{
    match outcome {
        Ok(value) => Event::Decoded { equal: verify(original, value) },
        Err(error) => Event::DecodeFailed(*error),
    }
}

} // verus!
