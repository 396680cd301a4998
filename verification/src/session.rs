//! The order of work on one backend for one family: verification first,
//! then the two timed operations.
//!
//! The codec and the timing engine run outside; a session decides from
//! what they report what is to be done next.

use vstd::prelude::*;
use crate::codec::{Backend, DecodeError, EncodeError, Operation};
use crate::family::Family;

verus! {

/// Why a session ended without a result.
#[derive(Clone, Copy, Debug, PartialEq, Eq, Structural)]
pub enum Fault {
    /// The representative encode failed.
    Encode(EncodeError),
    /// Decoding the representative buffer failed.
    Decode(DecodeError),
    /// The decoded value differs from the original.
    Mismatch,
}

/// Where a session stands.
#[derive(Clone, Copy, Debug, PartialEq, Eq, Structural)]
pub enum Phase {
    /// Waiting for the one representative encode.
    Encoding,
    /// Waiting for the decode of the representative buffer, of `size`
    /// bytes, and its comparison with the original.
    Decoding { size: usize },
    /// The round trip held; waiting for the timing of `operation`.
    Measuring { size: usize, operation: Operation },
    /// Both operations are timed.
    Complete { size: usize },
    /// The session ended without a result.
    Failed(Fault),
}

/// What the outside reports to a session.
#[derive(Clone, Copy, Debug, PartialEq, Eq, Structural)]
pub enum Event {
    /// The representative encode gave a buffer of `size` bytes.
    Encoded { size: usize },
    /// The representative encode failed.
    EncodeFailed(EncodeError),
    /// The representative buffer was decoded; `equal` says whether the
    /// value equals the original.
    Decoded { equal: bool },
    /// Decoding the representative buffer failed.
    DecodeFailed(DecodeError),
    /// The timing engine is done with the operation asked for.
    Measured,
}

/// What a session asks the outside to do.
#[derive(Clone, Copy, Debug, PartialEq, Eq, Structural)]
pub enum Action {
    /// Encode the dataset once and report the buffer's size.
    Encode,
    /// Decode that buffer, compare the value with the original, and report.
    Decode,
    /// Time the operation; deserializing reads the representative buffer.
    Measure(Operation),
    /// Record `size` as the encoded size and go on to the next backend.
    Report { size: usize },
    /// Leave this backend out for this family and go on to the next.
    Skip,
    /// Stop the run: a backend gave back a value that differs.
    Abort,
}

impl Phase {
    /// The phase after `event`. An event that the phase does not wait for
    /// changes nothing.
    pub open spec fn after(self, event: Event) -> Phase {
        match (self, event) {
            (Phase::Encoding, Event::Encoded { size }) => Phase::Decoding { size },
            (Phase::Encoding, Event::EncodeFailed(error)) => Phase::Failed(Fault::Encode(error)),
            (Phase::Decoding { size }, Event::Decoded { equal }) => if equal {
                Phase::Measuring { size, operation: Operation::Serialize }
            } else {
                Phase::Failed(Fault::Mismatch)
            },
            (Phase::Decoding { size }, Event::DecodeFailed(error)) => Phase::Failed(
                Fault::Decode(error),
            ),
            (Phase::Measuring { size, operation: Operation::Serialize }, Event::Measured) => {
                Phase::Measuring { size, operation: Operation::Deserialize }
            },
            (Phase::Measuring { size, operation: Operation::Deserialize }, Event::Measured) => {
                Phase::Complete { size }
            },
            _ => self,
        }
    }

    /// What the phase asks for.
    pub open spec fn pending(self) -> Action {
        match self {
            Phase::Encoding => Action::Encode,
            Phase::Decoding { size } => Action::Decode,
            Phase::Measuring { size, operation } => Action::Measure(operation),
            Phase::Complete { size } => Action::Report { size },
            Phase::Failed(Fault::Mismatch) => Action::Abort,
            Phase::Failed(_) => Action::Skip,
        }
    }

    /// The round trip held: the representative buffer decoded to a value
    /// equal to the original.
    pub open spec fn verified(self) -> bool {
        self is Measuring || self is Complete
    }

    /// The size of the representative buffer, once there is one.
    pub open spec fn size(self) -> Option<usize> {
        match self {
            Phase::Decoding { size } => Some(size),
            Phase::Measuring { size, operation } => Some(size),
            Phase::Complete { size } => Some(size),
            _ => None,
        }
    }

    /// The session is over.
    pub open spec fn ended(self) -> bool {
        self is Complete || self is Failed
    }

    /// The phase after a sequence of events, taken in order.
    pub open spec fn after_all(self, events: Seq<Event>) -> Phase
        decreases events.len(),
    {
        if events.len() == 0 {
            self
        } else {
            self.after_all(events.drop_last()).after(events.last())
        }
    }
}

/// A session as a mathematical value.
pub struct SessionModel {
    pub family: Family,
    pub backend: Backend,
    pub phase: Phase,
    /// Everything reported to the session so far, in order.
    pub history: Seq<Event>,
}

/// The work on one backend for one family.
///
/// A session keeps, as ghost state, what was reported to it; its phase is
/// always the one that this history leads to from the start.
pub struct Session {
    family: Family,
    backend: Backend,
    phase: Phase,
    history: Ghost<Seq<Event>>,
}

impl View for Session {
    type V = SessionModel;

    closed spec fn view(&self) -> SessionModel {
        SessionModel {
            family: self.family,
            backend: self.backend,
            phase: self.phase,
            history: self.history@,
        }
    }
}

impl Session {
    #[verifier::type_invariant]
    spec fn phase_follows_history(self) -> bool {
        self.phase == Phase::Encoding.after_all(self.history@)
    }

    /// A session that has done nothing yet.
    pub fn new(family: Family, backend: Backend) -> (session: Session)
        ensures
            session@ == (SessionModel {
                family,
                backend,
                phase: Phase::Encoding,
                history: Seq::empty(),
            }),
    {
        Session { family, backend, phase: Phase::Encoding, history: Ghost(Seq::empty()) }
    }

    /// The family that the session works on.
    pub fn family(&self) -> (family: Family)
        ensures
            family == self@.family,
    {
        self.family
    }

    /// The backend that the session works on.
    pub fn backend(&self) -> (backend: Backend)
        ensures
            backend == self@.backend,
    {
        self.backend
    }

    /// Where the session stands: where its history has led it.
    pub fn phase(&self) -> (phase: Phase)
        ensures
            phase == self@.phase,
            phase == Phase::Encoding.after_all(self@.history),
    {
        proof {
            use_type_invariant(self);
        }
        self.phase
    }

    /// What the session asks for now.
    pub fn pending(&self) -> (action: Action)
        ensures
            action == self@.phase.pending(),
    {
        match self.phase {
            Phase::Encoding => Action::Encode,
            Phase::Decoding { size } => Action::Decode,
            Phase::Measuring { size, operation } => Action::Measure(operation),
            Phase::Complete { size } => Action::Report { size },
            Phase::Failed(Fault::Mismatch) => Action::Abort,
            Phase::Failed(_) => Action::Skip,
        }
    }

    /// Takes in what the outside reports and says what is to be done next.
    pub fn handle(&mut self, event: Event) -> (action: Action)
        ensures
            final(self)@.family == old(self)@.family,
            final(self)@.backend == old(self)@.backend,
            final(self)@.history == old(self)@.history.push(event),
            final(self)@.phase == old(self)@.phase.after(event),
            action == final(self)@.phase.pending(),
    {
        proof {
            use_type_invariant(&*self);
        }
        let next = match (self.phase, event) {
            (Phase::Encoding, Event::Encoded { size }) => Phase::Decoding { size },
            (Phase::Encoding, Event::EncodeFailed(error)) => Phase::Failed(Fault::Encode(error)),
            (Phase::Decoding { size }, Event::Decoded { equal }) => if equal {
                Phase::Measuring { size, operation: Operation::Serialize }
            } else {
                Phase::Failed(Fault::Mismatch)
            },
            (Phase::Decoding { size }, Event::DecodeFailed(error)) => Phase::Failed(
                Fault::Decode(error),
            ),
            (Phase::Measuring { size, operation: Operation::Serialize }, Event::Measured) => {
                Phase::Measuring { size, operation: Operation::Deserialize }
            },
            (Phase::Measuring { size, operation: Operation::Deserialize }, Event::Measured) => {
                Phase::Complete { size }
            },
            (phase, _) => phase,
        };
        let ghost history = self.history@.push(event);
        assert(history.drop_last() =~= self.history@);
        *self = Session {
            family: self.family,
            backend: self.backend,
            phase: next,
            history: Ghost(history),
        };
        self.pending()
    }
}

impl Event {
    /// The event reports the outcome of an encode.
    pub open spec fn is_encode_outcome(self) -> bool {
        self is Encoded || self is EncodeFailed
    }

    /// The event reports the outcome of a decode.
    pub open spec fn is_decode_outcome(self) -> bool {
        self is Decoded || self is DecodeFailed
    }
}

/// None of the first `upto` events reports the outcome of an encode.
pub open spec fn no_encode_before(events: Seq<Event>, upto: int) -> bool {
    forall|k: int| 0 <= k < upto ==> !(#[trigger] events[k]).is_encode_outcome()
}

/// None of the events strictly between the places `from` and `upto`
/// reports the outcome of a decode.
pub open spec fn no_decode_between(events: Seq<Event>, from: int, upto: int) -> bool {
    forall|k: int| from < k < upto ==> !(#[trigger] events[k]).is_decode_outcome()
}

/// The event at place `i` is the first that reports the outcome of an
/// encode: the representative encode.
pub open spec fn first_encode(events: Seq<Event>, i: int) -> bool {
    &&& 0 <= i < events.len()
    &&& events[i].is_encode_outcome()
    &&& no_encode_before(events, i)
}

/// The representative encode is at place `i` and gave `size` bytes.
pub open spec fn encoded_at(events: Seq<Event>, i: int, size: usize) -> bool {
    first_encode(events, i) && events[i] == (Event::Encoded { size })
}

/// The event at place `j` is the first after place `i` that reports the
/// outcome of a decode.
pub open spec fn first_decode(events: Seq<Event>, i: int, j: int) -> bool {
    &&& i < j < events.len()
    &&& events[j].is_decode_outcome()
    &&& no_decode_between(events, i, j)
}

/// The representative encode is at place `i` and gave `size` bytes, and
/// the first decode after it is at place `j` and reports `outcome`.
pub open spec fn decoded_at(
    events: Seq<Event>,
    i: int,
    j: int,
    size: usize,
    outcome: Event,
) -> bool {
    encoded_at(events, i, size) && first_decode(events, i, j) && events[j] == outcome
}

/// The number of timings reported after place `j`.
pub open spec fn measured_after(events: Seq<Event>, j: int) -> nat
    decreases events.len(),
{
    if events.len() <= j + 1 || events.len() == 0 {
        0
    } else {
        measured_after(events.drop_last(), j) + if events.last() is Measured {
            1nat
        } else {
            0nat
        }
    }
}

/// The representative encode gave `size` bytes and the first decode after
/// it gave back the original.
pub open spec fn round_trip_seen(events: Seq<Event>, size: usize) -> bool {
    exists|i: int, j: int| #[trigger]
        decoded_at(events, i, j, size, Event::Decoded { equal: true })
}

/// A new session waits for the decode after `events`: the representative
/// encode gave `size` bytes, and no decode outcome has followed.
pub open spec fn awaits_decode(events: Seq<Event>, size: usize) -> bool {
    exists|i: int| #[trigger]
        encoded_at(events, i, size) && no_decode_between(events, i, events.len() as int)
}

/// The round trip has held with a buffer of `size` bytes, and `timings`
/// timings were reported since.
pub open spec fn verified_with(events: Seq<Event>, size: usize, timings: nat) -> bool {
    exists|i: int, j: int| #[trigger]
        decoded_at(events, i, j, size, Event::Decoded { equal: true }) && measured_after(
            events,
            j,
        ) == timings
}

/// The round trip has held with a buffer of `size` bytes, and two timings
/// or more were reported since.
pub open spec fn completed_with(events: Seq<Event>, size: usize) -> bool {
    exists|i: int, j: int| #[trigger]
        decoded_at(events, i, j, size, Event::Decoded { equal: true }) && measured_after(
            events,
            j,
        ) >= 2
}

/// The session ended on `fault`: the representative encode failed, or it
/// gave a buffer and the first decode after it failed or gave a value
/// that differs.
pub open spec fn faulted_with(events: Seq<Event>, fault: Fault) -> bool {
    match fault {
        Fault::Encode(error) => exists|i: int| #[trigger]
            first_encode(events, i) && events[i] == Event::EncodeFailed(error),
        Fault::Decode(error) => exists|i: int, j: int, size: usize| #[trigger]
            decoded_at(events, i, j, size, Event::DecodeFailed(error)),
        Fault::Mismatch => exists|i: int, j: int, size: usize| #[trigger]
            decoded_at(events, i, j, size, Event::Decoded { equal: false }),
    }
}

/// The number of timings that were reported when a session asks for the
/// timing of `operation`.
pub open spec fn timings_before(operation: Operation) -> nat {
    match operation {
        Operation::Serialize => 0,
        Operation::Deserialize => 1,
    }
}

/// What a history must hold for a new session to stand at `phase` after
/// it.
///
/// The first encode outcome and the first decode outcome after it
/// decide; of the timings only those after that decode count.
pub open spec fn leads_to(events: Seq<Event>, phase: Phase) -> bool {
    match phase {
        Phase::Encoding => no_encode_before(events, events.len() as int),
        Phase::Decoding { size } => awaits_decode(events, size),
        Phase::Measuring { size, operation } => verified_with(
            events,
            size,
            timings_before(operation),
        ),
        Phase::Complete { size } => completed_with(events, size),
        Phase::Failed(fault) => faulted_with(events, fault),
    }
}

/// A session that is over takes in nothing more.
pub proof fn lemma_ended_stays(phase: Phase, event: Event)
    requires
        phase.ended(),
    ensures
        phase.after(event) == phase,
{
}

/// Once the round trip has held, it holds for the rest of the session,
/// and the size stays the one of the representative buffer.
pub proof fn lemma_verified_stays(phase: Phase, event: Event)
    requires
        phase.verified(),
    ensures
        phase.after(event).verified(),
        phase.after(event).size() == phase.size(),
{
}

/// What places `i` and `j` say of a history, they say of the history with
/// one more event.
proof fn lemma_places_stay(events: Seq<Event>, i: int, j: int, size: usize, outcome: Event)
    requires
        events.len() > 0,
    ensures
        first_encode(events.drop_last(), i) ==> first_encode(events, i),
        encoded_at(events.drop_last(), i, size) ==> encoded_at(events, i, size),
        decoded_at(events.drop_last(), i, j, size, outcome) ==> decoded_at(
            events,
            i,
            j,
            size,
            outcome,
        ),
{
    let earlier = events.drop_last();
    assert(forall|k: int| 0 <= k < earlier.len() ==> earlier[k] == events[k]);
}

/// The phase of a new session after a history is one that the history
/// leads to.
pub proof fn lemma_history_leads_to_phase(events: Seq<Event>)
    ensures
        leads_to(events, Phase::Encoding.after_all(events)),
    decreases events.len(),
{
    if events.len() > 0 {
        let earlier = events.drop_last();
        let last = events.last();
        let end = events.len() - 1;
        let before = Phase::Encoding.after_all(earlier);
        lemma_history_leads_to_phase(earlier);
        assert(forall|k: int| 0 <= k < earlier.len() ==> earlier[k] == events[k]);
        match before {
            Phase::Encoding => {
                assert(no_encode_before(events, end));
                match last {
                    Event::Encoded { size } => {
                        assert(encoded_at(events, end, size));
                        assert(no_decode_between(events, end, events.len() as int));
                        assert(awaits_decode(events, size));
                    },
                    Event::EncodeFailed(error) => {
                        assert(first_encode(events, end));
                        assert(faulted_with(events, Fault::Encode(error)));
                    },
                    _ => {
                        assert(!last.is_encode_outcome());
                        assert(no_encode_before(events, events.len() as int));
                    },
                }
            },
            Phase::Decoding { size } => {
                let i = choose|i: int| #[trigger]
                    encoded_at(earlier, i, size) && no_decode_between(
                        earlier,
                        i,
                        earlier.len() as int,
                    );
                lemma_places_stay(events, i, 0, size, last);
                assert(no_decode_between(events, i, end));
                match last {
                    Event::Decoded { equal } => {
                        assert(decoded_at(events, i, end, size, last));
                        assert(measured_after(events, end) == 0);
                        if equal {
                            assert(decoded_at(
                                events,
                                i,
                                end,
                                size,
                                Event::Decoded { equal: true },
                            ));
                            assert(verified_with(events, size, 0));
                        } else {
                            assert(decoded_at(
                                events,
                                i,
                                end,
                                size,
                                Event::Decoded { equal: false },
                            ));
                            assert(faulted_with(events, Fault::Mismatch));
                        }
                    },
                    Event::DecodeFailed(error) => {
                        assert(decoded_at(events, i, end, size, last));
                        assert(faulted_with(events, Fault::Decode(error)));
                    },
                    _ => {
                        assert(!last.is_decode_outcome());
                        assert(encoded_at(events, i, size));
                        assert(no_decode_between(events, i, events.len() as int));
                        assert(awaits_decode(events, size));
                    },
                }
            },
            Phase::Measuring { size, operation } => {
                let outcome = Event::Decoded { equal: true };
                let (i, j) = choose|i: int, j: int| #[trigger]
                    decoded_at(earlier, i, j, size, outcome) && measured_after(earlier, j)
                        == timings_before(operation);
                lemma_places_stay(events, i, j, size, outcome);
                assert(decoded_at(events, i, j, size, outcome));
                assert(j < earlier.len());
                let timings = measured_after(events, j);
                assert(timings == measured_after(earlier, j) + if last is Measured {
                    1nat
                } else {
                    0nat
                });
                if timings >= 2 {
                    assert(completed_with(events, size));
                } else {
                    assert(verified_with(events, size, timings));
                }
            },
            Phase::Complete { size } => {
                let outcome = Event::Decoded { equal: true };
                let (i, j) = choose|i: int, j: int| #[trigger]
                    decoded_at(earlier, i, j, size, outcome) && measured_after(earlier, j) >= 2;
                lemma_places_stay(events, i, j, size, outcome);
                assert(decoded_at(events, i, j, size, outcome));
                assert(j < earlier.len());
                assert(completed_with(events, size));
            },
            Phase::Failed(Fault::Encode(error)) => {
                let i = choose|i: int| #[trigger]
                    first_encode(earlier, i) && earlier[i] == Event::EncodeFailed(error);
                lemma_places_stay(events, i, 0, 0, last);
                assert(first_encode(events, i));
                assert(faulted_with(events, Fault::Encode(error)));
            },
            Phase::Failed(Fault::Decode(error)) => {
                let outcome = Event::DecodeFailed(error);
                let (i, j, size) = choose|i: int, j: int, size: usize| #[trigger]
                    decoded_at(earlier, i, j, size, outcome);
                lemma_places_stay(events, i, j, size, outcome);
                assert(decoded_at(events, i, j, size, outcome));
                assert(faulted_with(events, Fault::Decode(error)));
            },
            Phase::Failed(Fault::Mismatch) => {
                let outcome = Event::Decoded { equal: false };
                let (i, j, size) = choose|i: int, j: int, size: usize| #[trigger]
                    decoded_at(earlier, i, j, size, outcome);
                lemma_places_stay(events, i, j, size, outcome);
                assert(decoded_at(events, i, j, size, outcome));
                assert(faulted_with(events, Fault::Mismatch));
            },
        }
    }
}

/// A history leads to one phase only.
pub proof fn lemma_history_leads_to_one_phase(events: Seq<Event>, one: Phase, other: Phase)
    requires
        leads_to(events, one),
        leads_to(events, other),
    ensures
        one == other,
{
    lemma_first_places_are_unique(events);
}

/// The phase after a history is the only one that the history leads to:
/// a new session stands at `phase` after `events` exactly if `events` lead
/// to `phase`.
pub proof fn lemma_phase_by_history(events: Seq<Event>, phase: Phase)
    ensures
        Phase::Encoding.after_all(events) == phase <==> leads_to(events, phase),
{
    lemma_history_leads_to_phase(events);
    if leads_to(events, phase) {
        lemma_history_leads_to_one_phase(events, phase, Phase::Encoding.after_all(events));
    }
}

/// Verification comes before measurement: whatever is reported to a new
/// session and in whatever order, it asks for a timing, or ends complete,
/// exactly if the representative encode gave a buffer and the first decode
/// after it gave back the original; and the size it then holds is the one
/// of that encode.
pub proof fn lemma_measured_only_after_round_trip(events: Seq<Event>)
    ensures
        Phase::Encoding.after_all(events).verified() ==> round_trip_seen(
            events,
            Phase::Encoding.after_all(events).size()->Some_0,
        ),
        forall|size: usize|
            round_trip_seen(events, size) ==> Phase::Encoding.after_all(events).verified()
                && Phase::Encoding.after_all(events).size() == Some(size),
{
    lemma_history_leads_to_phase(events);
    let actual = Phase::Encoding.after_all(events);
    assert forall|size: usize| round_trip_seen(events, size) implies actual.verified()
        && actual.size() == Some(size) by {
        let (i, j) = choose|i: int, j: int| #[trigger]
            decoded_at(events, i, j, size, Event::Decoded { equal: true });
        let count = measured_after(events, j);
        let reached = if count == 0 {
            Phase::Measuring { size, operation: Operation::Serialize }
        } else if count == 1 {
            Phase::Measuring { size, operation: Operation::Deserialize }
        } else {
            Phase::Complete { size }
        };
        if count >= 2 {
            assert(completed_with(events, size));
        } else {
            assert(verified_with(events, size, count));
        }
        assert(leads_to(events, reached));
        lemma_history_leads_to_one_phase(events, reached, actual);
    }
}

/// A session that ended on a fault never asked for a timing: no phase on
/// its way was one in which the round trip had held.
pub proof fn lemma_fault_is_never_measured(events: Seq<Event>, upto: int)
    requires
        0 <= upto <= events.len(),
        Phase::Encoding.after_all(events) is Failed,
    ensures
        !Phase::Encoding.after_all(events.take(upto)).verified(),
    decreases events.len() - upto,
{
    if upto < events.len() {
        let next = events.take(upto + 1);
        assert(next.drop_last() == events.take(upto));
        lemma_fault_is_never_measured(events, upto + 1);
        if Phase::Encoding.after_all(events.take(upto)).verified() {
            lemma_verified_stays(Phase::Encoding.after_all(events.take(upto)), next.last());
        }
    } else {
        assert(events.take(upto) == events);
    }
}

/// The first encode outcome has one place, and so has the first decode
/// outcome after it.
proof fn lemma_first_places_are_unique(events: Seq<Event>)
    ensures
        forall|i: int, k: int| first_encode(events, i) && first_encode(events, k) ==> i == k,
        forall|i: int, j: int, k: int|
            first_decode(events, i, j) && first_decode(events, i, k) ==> j == k,
{
    assert forall|i: int, k: int| first_encode(events, i) && first_encode(events, k) implies i
        == k by {
        if i < k {
            assert(!events[i].is_encode_outcome());
        } else if k < i {
            assert(!events[k].is_encode_outcome());
        }
    }
    assert forall|i: int, j: int, k: int|
        first_decode(events, i, j) && first_decode(events, i, k) implies j == k by {
        if j < k {
            assert(!events[j].is_decode_outcome());
        } else if k < j {
            assert(!events[k].is_decode_outcome());
        }
    }
}

} // verus!
