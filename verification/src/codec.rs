//! The codec backends under test and what an adapter can report.

use vstd::prelude::*;

verus! {

/// A serialization backend.
#[derive(Clone, Copy, Debug, PartialEq, Eq, Structural)]
pub enum Backend {
    /// The bitcode codec on its own.
    Bitcode,
    /// The layered codec: bitcode's output as the payload of an rkyv
    /// archive.
    BitcodeRkyv,
}

/// One of the two timed operations.
#[derive(Clone, Copy, Debug, PartialEq, Eq, Structural)]
pub enum Operation {
    Serialize,
    Deserialize,
}

/// Why an adapter produced no buffer.
#[derive(Clone, Copy, Debug, PartialEq, Eq, Structural)]
pub enum EncodeError {
    /// The codec reported a failure.
    Codec,
    /// The payload is longer than an envelope can hold.
    PayloadTooLarge,
    /// The outer layer reported a failure.
    Envelope,
}

/// Why an adapter produced no value.
#[derive(Clone, Copy, Debug, PartialEq, Eq, Structural)]
pub enum DecodeError {
    /// The codec reported a failure.
    Codec,
    /// The outer layer did not validate.
    Envelope,
}

impl Backend {
    /// The backend's name: in the label of its group of timings and with
    /// its encoded size.
    pub open spec fn name_spec(self) -> Seq<char> {
        match self {
            Backend::Bitcode => "bitcode"@,
            Backend::BitcodeRkyv => "bitcode + rkyv"@,
        }
    }

    /// The backend's name: in the label of its group of timings and with
    /// its encoded size.
    pub fn name(self) -> (name: &'static str)
        ensures
            name@ == self.name_spec(),
    {
        match self {
            Backend::Bitcode => "bitcode",
            Backend::BitcodeRkyv => "bitcode + rkyv",
        }
    }
}

impl Operation {
    /// The label of the operation within a backend's group, the same for
    /// every backend.
    pub open spec fn name_spec(self) -> Seq<char> {
        match self {
            Operation::Serialize => "serialize"@,
            Operation::Deserialize => "deserialize"@,
        }
    }

    /// The label of the operation within a backend's group, the same for
    /// every backend.
    pub fn name(self) -> (name: &'static str)
        ensures
            name@ == self.name_spec(),
    {
        match self {
            Operation::Serialize => "serialize",
            Operation::Deserialize => "deserialize",
        }
    }
}

/// The two backends have different names, and so have the two operations.
pub proof fn lemma_names_differ()
    ensures
        Backend::Bitcode.name_spec() != Backend::BitcodeRkyv.name_spec(),
        Operation::Serialize.name_spec() != Operation::Deserialize.name_spec(),
{
    reveal_strlit("bitcode");
    reveal_strlit("bitcode + rkyv");
    reveal_strlit("serialize");
    reveal_strlit("deserialize");
    assert("bitcode"@.len() != "bitcode + rkyv"@.len());
    assert("serialize"@.len() != "deserialize"@.len());
}

/// The output of the inner codec, on its way into or out of an envelope.
#[derive(Clone, Debug, PartialEq, Eq)]
pub struct Bytes {
    pub bytes: Vec<u8>,
}

impl View for Bytes {
    type V = Seq<u8>;

    open spec fn view(&self) -> Seq<u8> {
        self.bytes@
    }
}

impl From<Vec<u8>> for Bytes {
    fn from(value: Vec<u8>) -> (bytes: Bytes) {
        Bytes { bytes: value }
    }
}

impl vstd::std_specs::convert::FromSpecImpl<Vec<u8>> for Bytes {
    open spec fn obeys_from_spec() -> bool {
        true
    }

    open spec fn from_spec(value: Vec<u8>) -> Bytes {
        Bytes { bytes: value }
    }
}

impl Into<Vec<u8>> for Bytes {
    fn into(self) -> (value: Vec<u8>) {
        self.bytes
    }
}

impl vstd::std_specs::convert::IntoSpecImpl<Vec<u8>> for Bytes {
    open spec fn obeys_into_spec() -> bool {
        true
    }

    open spec fn into_spec(self) -> Vec<u8> {
        self.bytes
    }
}

} // verus!
