//! A harness core for comparing serialization codecs on deterministic
//! synthetic workloads.
//!
//! A run generates one dataset for each benchmark family from a fixed seed
//! and takes every registered backend through the same steps on it: one
//! representative encode, a decode of that buffer and a comparison with the
//! dataset, and only then the two timed operations. The codecs and the
//! timing engine run outside this library; what is decided here is what
//! they are asked to do, in which order, and what is recorded.
//!
//! - [`seed`], [`stream`]: the seed and the pseudo-random stream it fixes.
//! - [`record`], [`text`], [`generator`], [`datasets`]: what a record type
//!   offers, and the generation of sequences of records.
//! - [`roundtrip`]: structural equality of a decoded dataset with its
//!   source.
//! - [`codec`], [`envelope`], [`registry`]: the backends, the outer layer of
//!   the layered codec, and the set of backends that take part.
//! - [`family`]: the families and the labels of their results.
//! - [`session`], [`report`], [`run`]: the order of work on one backend,
//!   the recorded sizes, and the result of a whole run.

pub mod seed;
pub mod stream;
pub mod record;
pub mod text;
pub mod generator;
pub mod roundtrip;
pub mod datasets;
pub mod codec;
pub mod envelope;
pub mod registry;
pub mod family;
pub mod session;
pub mod report;
pub mod run;
