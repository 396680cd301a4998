//! The log family: structured log entries.

use vstd::prelude::*;
use crate::record::{Generate, StructuralEq};
use crate::stream::Stream;
use crate::text::{generate_text, generated_text, is_lowercase, lemma_generated_text, same_bytes};

verus! {

/// The shortest message, in bytes.
pub const MESSAGE_MIN: u32 = 8;

/// The bound that every message is shorter than, in bytes.
pub const MESSAGE_MAX: u32 = 64;

/// The severity of an entry.
#[derive(Clone, Copy, Debug, PartialEq, Eq, Structural)]
pub enum Level {
    Trace,
    Debug,
    Info,
    Warn,
    Error,
}

/// One log entry.
#[derive(Clone, Debug, PartialEq, Eq)]
pub struct Log {
    pub level: Level,
    pub timestamp: u64,
    pub message: Vec<u8>,
}

/// A log entry as a mathematical value.
pub struct LogModel {
    pub level: Level,
    pub timestamp: u64,
    pub message: Seq<u8>,
}

impl LogModel {
    /// The message has a permitted length and holds lower-case letters only.
    pub open spec fn wf(self) -> bool {
        &&& MESSAGE_MIN <= self.message.len() < MESSAGE_MAX
        &&& is_lowercase(self.message)
    }
}

impl View for Log {
    type V = LogModel;

    open spec fn view(&self) -> LogModel {
        LogModel { level: self.level, timestamp: self.timestamp, message: self.message@ }
    }
}

/// The level that a draw selects.
pub open spec fn level_of(draw: u32) -> Level {
    let index = draw % 5;
    if index == 0 {
        Level::Trace
    } else if index == 1 {
        Level::Debug
    } else if index == 2 {
        Level::Info
    } else if index == 3 {
        Level::Warn
    } else {
        Level::Error
    }
}

fn generate_level(stream: &mut Stream) -> (level: Level)
    ensures
        level == level_of(old(stream).peek()),
        *final(stream) == old(stream).skip(1),
{
    let index = stream.below(5);
    if index == 0 {
        Level::Trace
    } else if index == 1 {
        Level::Debug
    } else if index == 2 {
        Level::Info
    } else if index == 3 {
        Level::Warn
    } else {
        Level::Error
    }
}

impl Generate for Log {
    /// One draw for the level, a 64-bit draw for the timestamp, then the
    /// message.
    open spec fn generated(stream: Stream) -> (LogModel, Stream) {
        let (message, after) = generated_text(stream.skip(3), MESSAGE_MIN, MESSAGE_MAX);
        (
            LogModel {
                level: level_of(stream.peek()),
                timestamp: stream.skip(1).peek_u64(),
                message,
            },
            after,
        )
    }

    open spec fn well_formed(log: LogModel) -> bool {
        log.wf()
    }

    proof fn lemma_generated_well_formed(stream: Stream) {
        lemma_generated_text(stream.skip(3), MESSAGE_MIN, MESSAGE_MAX);
    }

    fn generate(stream: &mut Stream) -> (log: Log) {
        let level = generate_level(stream);
        let timestamp = stream.next_u64();
        proof {
            old(stream).lemma_skip_add(1, 2);
        }
        let message = generate_text(stream, MESSAGE_MIN, MESSAGE_MAX);
        Log { level, timestamp, message }
    }
}

impl StructuralEq for Log {
    fn same(&self, other: &Log) -> (equal: bool) {
        self.level == other.level && self.timestamp == other.timestamp && same_bytes(
            &self.message,
            &other.message,
        )
    }
}

} // verus!
