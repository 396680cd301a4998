//! One run over families and backends: what each ended session adds to
//! the run's result, and when the run stops.

use vstd::prelude::*;
use crate::codec::Backend;
use crate::family::Family;
use crate::report::{lemma_size_in_extends, size_in, Report, SizeEntry};
use crate::session::{
    lemma_measured_only_after_round_trip, round_trip_seen, Fault, Phase, Session, SessionModel,
};

verus! {

/// A run's result so far, as a mathematical value.
pub struct RunModel {
    /// The sizes recorded, in the order of recording.
    pub sizes: Seq<SizeEntry>,
    /// A backend gave back a value that differs: the run is void.
    pub aborted: bool,
}

impl RunModel {
    /// The result after a session is taken in.
    ///
    /// A complete session adds its size, unless the pair has one. A
    /// session that ended on an encode or decode error adds nothing, and
    /// the run goes on. A mismatch aborts the run, and an aborted run takes
    /// in nothing more.
    pub open spec fn concluded(self, session: SessionModel) -> RunModel {
        if self.aborted {
            self
        } else {
            match session.phase {
                Phase::Complete { size } => if size_in(
                    self.sizes,
                    session.family,
                    session.backend,
                ) is None {
                    RunModel {
                        sizes: self.sizes.push(
                            SizeEntry {
                                family: session.family,
                                backend: session.backend,
                                bytes: size,
                            },
                        ),
                        aborted: false,
                    }
                } else {
                    self
                },
                Phase::Failed(Fault::Mismatch) => RunModel { sizes: self.sizes, aborted: true },
                _ => self,
            }
        }
    }

    /// The result after a sequence of sessions is taken in, one after the
    /// other.
    pub open spec fn concluded_all(self, sessions: Seq<SessionModel>) -> RunModel
        decreases sessions.len(),
    {
        if sessions.len() == 0 {
            self
        } else {
            self.concluded_all(sessions.drop_last()).concluded(sessions.last())
        }
    }

    /// What the run reports for a family and a backend: nothing once it is
    /// aborted.
    pub open spec fn reported(self, family: Family, backend: Backend) -> Option<usize> {
        if self.aborted {
            None
        } else {
            size_in(self.sizes, family, backend)
        }
    }
}

/// A run: the report that grows with each complete session.
#[derive(Debug)]
pub struct Run {
    report: Report,
    aborted: bool,
}

impl View for Run {
    type V = RunModel;

    closed spec fn view(&self) -> RunModel {
        RunModel { sizes: self.report@, aborted: self.aborted }
    }
}

impl Run {
    /// A run that starts with an empty result.
    pub fn new() -> (run: Run)
        ensures
            run@.sizes == Seq::<SizeEntry>::empty(),
            !run@.aborted,
    {
        Run { report: Report::new(), aborted: false }
    }

    /// Whether the run may go on to another backend.
    pub fn may_continue(&self) -> (go_on: bool)
        ensures
            go_on == !self@.aborted,
    {
        !self.aborted
    }

    /// The sizes recorded so far.
    pub fn report(&self) -> (report: &Report)
        ensures
            report@ == self@.sizes,
    {
        &self.report
    }

    /// What the run reports for a family and a backend.
    pub fn reported(&self, family: Family, backend: Backend) -> (size: Option<usize>)
        ensures
            size == self@.reported(family, backend),
    {
        if self.aborted {
            None
        } else {
            self.report.size(family, backend)
        }
    }

    /// Takes in a session. A size is recorded for a session only where an
    /// encode of that size and a decode that gave back the original are
    /// in the session's history.
    pub fn conclude(&mut self, session: &Session)
        ensures
            final(self)@ == old(self)@.concluded(session@),
            final(self)@.sizes != old(self)@.sizes ==> session@.phase is Complete
                && round_trip_seen(session@.history, session@.phase->Complete_size),
    {
        if !self.aborted {
            match session.phase() {
                Phase::Complete { size } => {
                    proof {
                        lemma_measured_only_after_round_trip(session@.history);
                    }
                    self.report.record(session.family(), session.backend(), size);
                },
                Phase::Failed(Fault::Mismatch) => {
                    self.aborted = true;
                },
                _ => {},
            }
        }
    }
}

/// Nothing that is recorded changes afterwards: the sizes before a
/// session is taken in are the start of the sizes after it, and a pair that
/// has a size keeps it.
pub proof fn lemma_recorded_sizes_stay(run: RunModel, session: SessionModel)
    ensures
        run.sizes.is_prefix_of(run.concluded(session).sizes),
        forall|family: Family, backend: Backend|
            size_in(run.sizes, family, backend) is Some ==> size_in(
                run.concluded(session).sizes,
                family,
                backend,
            ) == size_in(run.sizes, family, backend),
{
    assert forall|family: Family, backend: Backend|
        size_in(run.sizes, family, backend) is Some implies size_in(
        run.concluded(session).sizes,
        family,
        backend,
    ) == size_in(run.sizes, family, backend) by {
        lemma_size_in_extends(run.sizes, run.concluded(session).sizes, family, backend);
    }
}

/// An aborted run stays aborted and takes in nothing more.
pub proof fn lemma_abort_is_final(run: RunModel, sessions: Seq<SessionModel>)
    requires
        run.aborted,
    ensures
        run.concluded_all(sessions) == run,
    decreases sessions.len(),
{
    if sessions.len() > 0 {
        lemma_abort_is_final(run, sessions.drop_last());
    }
}

/// A backend that is not run is not reported: where no session is for a
/// pair of family and backend, and the run had no size for the pair, it has
/// none afterwards.
pub proof fn lemma_unrun_pair_is_unreported(
    run: RunModel,
    sessions: Seq<SessionModel>,
    family: Family,
    backend: Backend,
)
    requires
        size_in(run.sizes, family, backend) is None,
        forall|k: int|
            0 <= k < sessions.len() ==> !((#[trigger] sessions[k]).family == family
                && sessions[k].backend == backend),
    ensures
        size_in(run.concluded_all(sessions).sizes, family, backend) is None,
        run.concluded_all(sessions).reported(family, backend) is None,
    decreases sessions.len(),
{
    if sessions.len() > 0 {
        let earlier = sessions.drop_last();
        assert(forall|k: int| 0 <= k < earlier.len() ==> earlier[k] == sessions[k]);
        lemma_unrun_pair_is_unreported(run, earlier, family, backend);
        lemma_size_after(run.concluded_all(earlier).sizes, sessions.last(), family, backend);
    }
}

/// The order in which two backends are run does not show in the result:
/// taking in their sessions in either order aborts the run or not alike,
/// and reports the same size for every family and backend.
pub proof fn lemma_order_of_backends(run: RunModel, first: SessionModel, second: SessionModel)
    requires
        first.family != second.family || first.backend != second.backend,
    ensures
        run.concluded(first).concluded(second).aborted == run.concluded(second).concluded(
            first,
        ).aborted,
        forall|family: Family, backend: Backend|
            run.concluded(first).concluded(second).reported(family, backend) == run.concluded(
                second,
            ).concluded(first).reported(family, backend),
{
    let one = run.concluded(first).concluded(second);
    let other = run.concluded(second).concluded(first);
    assert forall|family: Family, backend: Backend|
        one.reported(family, backend) == other.reported(family, backend) by {
        lemma_size_after(run.sizes, first, family, backend);
        lemma_size_after(run.sizes, second, family, backend);
        lemma_size_after(run.concluded(first).sizes, second, family, backend);
        lemma_size_after(run.concluded(second).sizes, first, family, backend);
        lemma_size_after(run.sizes, first, second.family, second.backend);
        lemma_size_after(run.sizes, second, first.family, first.backend);
    }
}

/// The size that a pair has once one more entry is recorded for the
/// session's pair.
proof fn lemma_size_after(
    sizes: Seq<SizeEntry>,
    session: SessionModel,
    family: Family,
    backend: Backend,
)
    ensures
        session.phase matches Phase::Complete { size } ==> size_in(
            sizes.push(SizeEntry { family: session.family, backend: session.backend, bytes: size }),
            family,
            backend,
        ) == if size_in(sizes, family, backend) is Some {
            size_in(sizes, family, backend)
        } else if session.family == family && session.backend == backend {
            Some(size)
        } else {
            None
        },
{
    if let Phase::Complete { size } = session.phase {
        let entry = SizeEntry { family: session.family, backend: session.backend, bytes: size };
        assert(sizes.push(entry).drop_last() == sizes);
    }
}

} // verus!
