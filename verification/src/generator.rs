//! The dataset generator: a sequence of records drawn from a seeded stream.

use vstd::prelude::*;
use crate::record::{views, Generate};
use crate::seed::GenerationSeed;
use crate::stream::{CountRange, Stream};

verus! {

/// The first `count` records drawn at `stream`, and the stream after them.
pub open spec fn generated_records<T: Generate>(stream: Stream, count: nat) -> (Seq<T::V>, Stream)
    decreases count,
{
    if count == 0 {
        (Seq::empty(), stream)
    } else {
        let (earlier, rest) = generated_records::<T>(stream, (count - 1) as nat);
        let (last, after) = T::generated(rest);
        (earlier.push(last), after)
    }
}

/// Every record of the sequence is well formed.
pub open spec fn all_well_formed<T: Generate>(records: Seq<T::V>) -> bool {
    forall|i: int| 0 <= i < records.len() ==> T::well_formed(#[trigger] records[i])
}

/// The number of records that a draw at `stream` selects from `range`.
pub open spec fn generated_count(stream: Stream, range: CountRange) -> nat {
    range.select(stream.peek_u64()) as nat
}

/// The sequence that `generate_vec` draws at `stream`: its length is drawn
/// first, then its records one after another.
pub open spec fn generated_vec<T: Generate>(stream: Stream, range: CountRange) -> (
    Seq<T::V>,
    Stream,
) {
    generated_records::<T>(stream.skip(2), generated_count(stream, range))
}

/// The dataset of a seed: what `generate_vec` draws at the start of the
/// seed's stream.
pub open spec fn dataset_of<T: Generate>(seed: GenerationSeed, range: CountRange) -> Seq<T::V> {
    generated_vec::<T>(Stream { seed, position: 0 }, range).0
}

/// Drawing `count` records yields `count` records.
pub proof fn lemma_generated_len<T: Generate>(stream: Stream, count: nat)
    ensures
        generated_records::<T>(stream, count).0.len() == count,
    decreases count,
{
    if count > 0 {
        lemma_generated_len::<T>(stream, (count - 1) as nat);
    }
}

/// Every record among the first `count` drawn is well formed.
pub proof fn lemma_generated_records_well_formed<T: Generate>(stream: Stream, count: nat)
    ensures
        all_well_formed::<T>(generated_records::<T>(stream, count).0),
    decreases count,
{
    if count > 0 {
        lemma_generated_records_well_formed::<T>(stream, (count - 1) as nat);
        T::lemma_generated_well_formed(generated_records::<T>(stream, (count - 1) as nat).1);
    }
}

/// What `generate_vec` draws has a length in the range and holds well-formed
/// records only.
pub proof fn lemma_generated_vec_well_formed<T: Generate>(stream: Stream, range: CountRange)
    requires
        range.wf(),
    ensures
        range.contains(generated_vec::<T>(stream, range).0.len() as int),
        all_well_formed::<T>(generated_vec::<T>(stream, range).0),
{
    lemma_generated_len::<T>(stream.skip(2), generated_count(stream, range));
    lemma_generated_records_well_formed::<T>(stream.skip(2), generated_count(stream, range));
}

/// Draws a sequence of records: the length once from `range`, then each
/// record in turn from the same stream.
pub fn generate_vec<T: Generate>(stream: &mut Stream, range: CountRange) -> (records: Vec<T>)
    requires
        range.wf(),
    ensures
        views(records@) == generated_vec::<T>(*old(stream), range).0,
        *final(stream) == generated_vec::<T>(*old(stream), range).1,
        records.len() == generated_count(*old(stream), range),
        range.contains(records.len() as int),
        all_well_formed::<T>(views(records@)),
{
    proof {
        lemma_generated_vec_well_formed::<T>(*old(stream), range);
    }
    let count = stream.count_in(range);
    let ghost start = *stream;
    let mut records: Vec<T> = Vec::with_capacity(count);
    let mut done: usize = 0;
    while done < count
        invariant
            done <= count,
            records.len() == done,
            views(records@) == generated_records::<T>(start, done as nat).0,
            *stream == generated_records::<T>(start, done as nat).1,
        decreases count - done,
    {
        let record = T::generate(stream);
        let ghost before = records@;
        records.push(record);
        done = done + 1;
        assert(views(records@) =~= views(before).push(record@));
    }
    records
}

/// Generates the dataset of a seed: a fresh stream is started from the seed
/// and the sequence drawn from it.
pub fn generate_dataset<T: Generate>(seed: GenerationSeed, range: CountRange) -> (records: Vec<T>)
    requires
        range.wf(),
    ensures
        views(records@) == dataset_of::<T>(seed, range),
        range.contains(records.len() as int),
        all_well_formed::<T>(views(records@)),
{
    let mut stream = Stream::new(seed);
    generate_vec(&mut stream, range)
}

/// Generation is a function of the seed: two runs that start from equal
/// constants draw equal datasets, whatever the family.
pub proof fn lemma_generation_is_deterministic<T: Generate>(
    first: GenerationSeed,
    second: GenerationSeed,
    range: CountRange,
)
    requires
        first.state == second.state,
        first.stream == second.stream,
    ensures
        dataset_of::<T>(first, range) == dataset_of::<T>(second, range),
{
}

/// Two streams at the same place of the same seed yield the same sequence
/// and are left at the same place.
pub proof fn lemma_equal_streams_generate_alike<T: Generate>(
    first: Stream,
    second: Stream,
    range: CountRange,
)
    requires
        first.seed == second.seed,
        first.position == second.position,
    ensures
        generated_vec::<T>(first, range) == generated_vec::<T>(second, range),
{
}

/// A range that holds one count yields that count, whatever is drawn.
pub proof fn lemma_fixed_count(stream: Stream, range: CountRange)
    requires
        range.max == range.min + 1,
    ensures
        generated_count(stream, range) == range.min,
{
}

/// With a fixed count the dataset has exactly that many records.
pub proof fn lemma_fixed_count_len<T: Generate>(seed: GenerationSeed, range: CountRange)
    requires
        range.max == range.min + 1,
    ensures
        dataset_of::<T>(seed, range).len() == range.min,
{
    let stream = Stream { seed, position: 0 };
    lemma_fixed_count(stream, range);
    lemma_generated_len::<T>(stream.skip(2), range.min as nat);
}

/// Drawing more records leaves the earlier ones as they were.
pub proof fn lemma_more_records_extend<T: Generate>(stream: Stream, fewer: nat, more: nat)
    requires
        fewer <= more,
    ensures
        generated_records::<T>(stream, fewer).0.is_prefix_of(
            generated_records::<T>(stream, more).0,
        ),
    decreases more,
{
    lemma_generated_len::<T>(stream, fewer);
    if fewer < more {
        lemma_more_records_extend::<T>(stream, fewer, (more - 1) as nat);
        lemma_generated_len::<T>(stream, (more - 1) as nat);
    }
}

/// For one seed, the dataset of a fixed count is the start of the dataset
/// of every larger fixed count.
pub proof fn lemma_larger_dataset_extends<T: Generate>(
    seed: GenerationSeed,
    smaller: CountRange,
    larger: CountRange,
)
    requires
        smaller.max == smaller.min + 1,
        larger.max == larger.min + 1,
        smaller.min <= larger.min,
    ensures
        dataset_of::<T>(seed, smaller).is_prefix_of(dataset_of::<T>(seed, larger)),
{
    let stream = Stream { seed, position: 0 };
    lemma_fixed_count(stream, smaller);
    lemma_fixed_count(stream, larger);
    lemma_more_records_extend::<T>(stream.skip(2), smaller.min as nat, larger.min as nat);
}

} // verus!
