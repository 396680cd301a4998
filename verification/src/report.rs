//! The size reporter's record: one encoded size for each family and
//! backend, never changed once it is there.

use vstd::prelude::*;
use crate::codec::Backend;
use crate::family::Family;

verus! {

/// The encoded size of one family's dataset under one backend.
#[derive(Clone, Copy, Debug, PartialEq, Eq, Structural)]
pub struct SizeEntry {
    pub family: Family,
    pub backend: Backend,
    pub bytes: usize,
}

impl SizeEntry {
    /// The entry is the one of `family` and `backend`.
    pub open spec fn is_for(self, family: Family, backend: Backend) -> bool {
        self.family == family && self.backend == backend
    }
}

/// The size that `entries` hold for a family and a backend: that of the
/// earliest entry for the pair.
pub open spec fn size_in(entries: Seq<SizeEntry>, family: Family, backend: Backend) -> Option<
    usize,
>
    decreases entries.len(),
{
    if entries.len() == 0 {
        None
    } else {
        match size_in(entries.drop_last(), family, backend) {
            Some(bytes) => Some(bytes),
            None => if entries.last().is_for(family, backend) {
                Some(entries.last().bytes)
            } else {
                None
            },
        }
    }
}

/// No two entries are for the same family and backend.
pub open spec fn distinct_pairs(entries: Seq<SizeEntry>) -> bool {
    forall|i: int, j: int|
        0 <= i < j < entries.len() ==> !(#[trigger] entries[i]).is_for(
            (#[trigger] entries[j]).family,
            entries[j].backend,
        )
}

/// A pair has a size exactly if some entry is for it, and then the size
/// is an entry's.
pub proof fn lemma_size_in(entries: Seq<SizeEntry>, family: Family, backend: Backend)
    ensures
        size_in(entries, family, backend) is None <==> forall|i: int|
            0 <= i < entries.len() ==> !(#[trigger] entries[i]).is_for(family, backend),
        size_in(entries, family, backend) matches Some(bytes) ==> exists|i: int|
            0 <= i < entries.len() && (#[trigger] entries[i]).is_for(family, backend)
                && entries[i].bytes == bytes,
    decreases entries.len(),
{
    if entries.len() > 0 {
        let earlier = entries.drop_last();
        lemma_size_in(earlier, family, backend);
        assert(forall|i: int| 0 <= i < earlier.len() ==> earlier[i] == entries[i]);
        match size_in(earlier, family, backend) {
            Some(bytes) => {
                let i = choose|i: int|
                    0 <= i < earlier.len() && (#[trigger] earlier[i]).is_for(family, backend)
                        && earlier[i].bytes == bytes;
                assert(entries[i].is_for(family, backend) && entries[i].bytes == bytes);
            },
            None => {
                if entries.last().is_for(family, backend) {
                    assert(entries[entries.len() - 1].is_for(family, backend));
                }
            },
        }
    }
}

/// The sizes recorded in one run.
#[derive(Debug)]
pub struct Report {
    entries: Vec<SizeEntry>,
}

impl View for Report {
    type V = Seq<SizeEntry>;

    closed spec fn view(&self) -> Seq<SizeEntry> {
        self.entries@
    }
}

impl Report {
    #[verifier::type_invariant]
    spec fn one_entry_for_each_pair(self) -> bool {
        distinct_pairs(self.entries@)
    }

    /// Each pair of family and backend has at most one entry. This holds
    /// of every report.
    pub open spec fn wf(&self) -> bool {
        distinct_pairs(self@)
    }

    /// A report without entries.
    pub fn new() -> (report: Report)
        ensures
            report@ == Seq::<SizeEntry>::empty(),
    {
        Report { entries: Vec::new() }
    }

    /// The number of entries.
    pub fn len(&self) -> (len: usize)
        ensures
            len == self@.len(),
            self.wf(),
    {
        proof {
            use_type_invariant(self);
        }
        self.entries.len()
    }

    /// The entry at `index`, in the order of recording.
    pub fn entry(&self, index: usize) -> (entry: Option<SizeEntry>)
        ensures
            entry == if index < self@.len() {
                Some(self@[index as int])
            } else {
                None
            },
    {
        if index < self.entries.len() {
            Some(self.entries[index])
        } else {
            None
        }
    }

    /// The size recorded for a family and a backend, if there is one.
    pub fn size(&self, family: Family, backend: Backend) -> (size: Option<usize>)
        ensures
            size == size_in(self@, family, backend),
    {
        let mut at: usize = 0;
        while at < self.entries.len()
            invariant
                at <= self.entries.len(),
                size_in(self.entries@.take(at as int), family, backend) is None,
            decreases self.entries.len() - at,
        {
            let entry = self.entries[at];
            assert(self.entries@.take(at + 1).drop_last() == self.entries@.take(at as int));
            if entry.family == family && entry.backend == backend {
                proof {
                    lemma_size_in_extends(
                        self.entries@.take(at + 1),
                        self.entries@,
                        family,
                        backend,
                    );
                }
                return Some(entry.bytes);
            }
            at = at + 1;
        }
        assert(self.entries@.take(at as int) == self.entries@);
        None
    }

    /// Records the size of a pair that has none yet, and says whether it
    /// did. A pair that has a size keeps it.
    pub fn record(&mut self, family: Family, backend: Backend, bytes: usize) -> (fresh: bool)
        ensures
            fresh == (size_in(old(self)@, family, backend) is None),
            final(self)@ == if fresh {
                old(self)@.push(SizeEntry { family, backend, bytes })
            } else {
                old(self)@
            },
            size_in(final(self)@, family, backend) == if fresh {
                Some(bytes)
            } else {
                size_in(old(self)@, family, backend)
            },
            final(self).wf(),
    {
        proof {
            use_type_invariant(&*self);
        }
        if self.size(family, backend).is_some() {
            false
        } else {
            proof {
                lemma_size_in(self@, family, backend);
            }
            // The entries are taken out while they grow, so that the report
            // holds distinct pairs at every moment.
            let mut entries: Vec<SizeEntry> = Vec::new();
            core::mem::swap(&mut entries, &mut self.entries);
            let ghost before = entries@;
            entries.push(SizeEntry { family, backend, bytes });
            assert(entries@.drop_last() =~= before);
            self.entries = entries;
            true
        }
    }
}

/// What a report holds for a pair stays what it is when entries follow.
pub proof fn lemma_size_in_extends(
    earlier: Seq<SizeEntry>,
    later: Seq<SizeEntry>,
    family: Family,
    backend: Backend,
)
    requires
        earlier.is_prefix_of(later),
        size_in(earlier, family, backend) is Some,
    ensures
        size_in(later, family, backend) == size_in(earlier, family, backend),
    decreases later.len(),
{
    if later.len() > earlier.len() {
        assert(earlier.is_prefix_of(later.drop_last()));
        lemma_size_in_extends(earlier, later.drop_last(), family, backend);
    } else {
        assert(earlier == later);
    }
}

} // verus!
