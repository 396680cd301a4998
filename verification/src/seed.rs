//! The seed that fixes a run's synthetic data.

use vstd::prelude::*;

verus! {

/// The pair of 64-bit constants from which a pseudo-random stream starts.
#[derive(Clone, Copy, Debug, PartialEq, Eq, Structural)]
pub struct GenerationSeed {
    pub state: u64,
    pub stream: u64,
}

impl GenerationSeed {
    /// A seed made of the two constants.
    pub fn new(state: u64, stream: u64) -> (seed: GenerationSeed)
        ensures
            seed.state == state,
            seed.stream == stream,
    {
        GenerationSeed { state, stream }
    }
}

} // verus!
