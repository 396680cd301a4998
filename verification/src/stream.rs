//! The seeded pseudo-random stream that all synthetic data is drawn from.

use vstd::prelude::*;
use rand_core::RngCore;
use crate::seed::GenerationSeed;

verus! {

/// The 32-bit output at place `index` of the PCG-XSH-RR 64/32 stream that
/// starts from the constants `state` and `stream`.
pub uninterp spec fn pcg_output(state: u64, stream: u64, index: u64) -> u32;

/// Builds `rand_pcg::Lcg64Xsh32::new(state, stream)`, moves it `index`
/// places forward with `advance`, and takes one `next_u32`.
///
/// Trusted: the generator holds no state but the two constants and its
/// place, so the value is the same on every call with the same arguments.
#[verifier::external_body]
fn pcg_draw(state: u64, stream: u64, index: u64) -> (value: u32)
    ensures
        value == pcg_output(state, stream, index),
{
    let mut generator = rand_pcg::Lcg64Xsh32::new(state, stream);
    generator.advance(index);
    generator.next_u32()
}

/// The number of places after which a stream repeats.
pub open spec fn period() -> int {
    0x1_0000_0000_0000_0000
}

/// A half-open range `[min, max)` of record counts.
#[derive(Clone, Copy, Debug, PartialEq, Eq, Structural)]
pub struct CountRange {
    pub min: usize,
    pub max: usize,
}

impl CountRange {
    /// The range holds at least one count.
    pub open spec fn wf(self) -> bool {
        self.min < self.max
    }

    /// The range holds `count`.
    pub open spec fn contains(self, count: int) -> bool {
        self.min <= count < self.max
    }

    /// The count that a 64-bit draw selects from the range.
    pub open spec fn select(self, draw: u64) -> int {
        self.min + draw % ((self.max - self.min) as u64)
    }

    /// The range `[min, max)`, or `None` where it would be empty.
    pub fn new(min: usize, max: usize) -> (range: Option<CountRange>)
        ensures
            range == if min < max {
                Some(CountRange { min, max })
            } else {
                None
            },
    {
        if min < max {
            Some(CountRange { min, max })
        } else {
            None
        }
    }

    /// The range `[count, count + 1)` that holds `count` alone, or `None`
    /// where `count + 1` is not a `usize`.
    pub fn exactly(count: usize) -> (range: Option<CountRange>)
        ensures
            range == if count < usize::MAX {
                Some(CountRange { min: count, max: (count + 1) as usize })
            } else {
                None
            },
    {
        if count < usize::MAX {
            Some(CountRange { min: count, max: count + 1 })
        } else {
            None
        }
    }
}

/// A position in the stream of one seed.
#[derive(Clone, Copy, Debug, PartialEq, Eq, Structural)]
pub struct Stream {
    pub seed: GenerationSeed,
    pub position: u64,
}

impl Stream {
    /// The value that the next 32-bit draw returns.
    pub open spec fn peek(self) -> u32 {
        pcg_output(self.seed.state, self.seed.stream, self.position)
    }

    /// The stream `count` draws later. Positions wrap at the period.
    pub open spec fn skip(self, count: nat) -> Stream {
        Stream { seed: self.seed, position: ((self.position + count) % period()) as u64 }
    }

    /// The value that the next 64-bit draw returns: the first 32 bits drawn
    /// are its low half, the next 32 its high half.
    pub open spec fn peek_u64(self) -> u64 {
        (self.skip(1).peek() * 0x1_0000_0000 + self.peek()) as u64
    }

    /// Skipping in two steps is skipping once by the sum.
    pub proof fn lemma_skip_add(self, first: nat, second: nat)
        ensures
            self.skip(first).skip(second) == self.skip(first + second),
    {
        let here = self.position as int;
        assert(((here + first) % period() + second) % period() == (here + first + second)
            % period());
    }

    /// The stream of `seed` before any draw.
    pub fn new(seed: GenerationSeed) -> (stream: Stream)
        ensures
            stream.seed == seed,
            stream.position == 0,
    {
        Stream { seed, position: 0 }
    }

    /// Draws 32 bits.
    pub fn next_u32(&mut self) -> (value: u32)
        ensures
            value == old(self).peek(),
            *final(self) == old(self).skip(1),
    {
        let value = pcg_draw(self.seed.state, self.seed.stream, self.position);
        self.position = self.position.wrapping_add(1);
        value
    }

    /// Draws 64 bits, as two 32-bit draws.
    pub fn next_u64(&mut self) -> (value: u64)
        ensures
            value == old(self).peek_u64(),
            *final(self) == old(self).skip(2),
    {
        let low: u64 = self.next_u32() as u64;
        let high: u64 = self.next_u32() as u64;
        proof {
            old(self).lemma_skip_add(1, 1);
        }
        high * 0x1_0000_0000 + low
    }

    /// Draws a value below `bound`.
    pub fn below(&mut self, bound: u32) -> (value: u32)
        requires
            bound > 0,
        ensures
            value == old(self).peek() % bound,
            value < bound,
            *final(self) == old(self).skip(1),
    {
        let draw = self.next_u32();
        draw % bound
    }

    /// Draws a record count from `range`.
    pub fn count_in(&mut self, range: CountRange) -> (count: usize)
        requires
            range.wf(),
        ensures
            count == range.select(old(self).peek_u64()),
            range.contains(count as int),
            *final(self) == old(self).skip(2),
    {
        let width: u64 = (range.max - range.min) as u64;
        let offset: u64 = self.next_u64() % width;
        range.min + offset as usize
    }
}

} // verus!
