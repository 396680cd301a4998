//! The outer layer of the layered codec: a payload archived with rkyv.
//!
//! The inner codec's bytes go into the envelope as they are; decoding
//! opens the envelope first and hands the payload back to the inner codec.

use vstd::prelude::*;
use crate::codec::{Bytes, DecodeError, EncodeError};

verus! {

/// `rkyv::util::AlignedVec`, the byte buffer that an archive is written
/// to. Nothing is claimed of what is inside but through `buffer_bytes`.
#[verifier::external_type_specification]
#[verifier::external_body]
pub struct ExAlignedVec<const ALIGNMENT: usize>(rkyv::util::AlignedVec<ALIGNMENT>);

/// `rkyv::rancor::Error`, the error of archiving and of access. It is
/// carried through and never looked into.
#[verifier::external_type_specification]
#[verifier::external_body]
pub struct ExArchiveError(rkyv::rancor::Error);

/// The longest payload that the archive's 32-bit offset reaches, in
/// bytes.
pub const PAYLOAD_MAX: usize = 0x8000_0000;

/// The number of zero bytes that follow a payload of `len` bytes, so that
/// the archive's root starts at a multiple of four.
pub open spec fn padding(len: nat) -> nat {
    ((4 - len % 4) % 4) as nat
}

/// The length of the envelope of a payload of `len` bytes: the payload,
/// its padding, and a root of eight bytes.
pub open spec fn envelope_len_of(len: nat) -> nat {
    len + padding(len) + 8
}

/// Whether an envelope takes a payload of `len` bytes: the offset from
/// the root back to the payload fits 32 bits, and the envelope is no longer
/// than an aligned buffer can be.
pub open spec fn fits(len: nat) -> bool {
    len <= PAYLOAD_MAX && envelope_len_of(len) <= isize::MAX - 15
}

/// The four bytes of a number below 2^32, lowest byte first.
pub open spec fn le_bytes(value: int) -> Seq<u8> {
    seq![
        (value % 0x100) as u8,
        (value / 0x100 % 0x100) as u8,
        (value / 0x1_0000 % 0x100) as u8,
        (value / 0x100_0000 % 0x100) as u8,
    ]
}

/// The envelope of a payload: the payload itself, zero bytes up to a
/// multiple of four, and the root, which holds the offset from the root
/// back to the payload's start as a 32-bit two's complement number and the
/// payload's length, both lowest byte first.
pub open spec fn envelope_of(payload: Seq<u8>) -> Seq<u8> {
    let body = payload.len() + padding(payload.len());
    payload + Seq::new(padding(payload.len()), |i: int| 0u8) + le_bytes(
        (0x1_0000_0000 - body) % 0x1_0000_0000,
    ) + le_bytes(payload.len() as int)
}

/// The bytes that an aligned buffer holds, in order.
pub uninterp spec fn buffer_bytes(buffer: rkyv::util::AlignedVec) -> Seq<u8>;

/// Whether `rkyv::to_bytes` reports an error on a byte vector.
pub uninterp spec fn rkyv_refuses(payload: Seq<u8>) -> bool;

/// What `rkyv::access` finds in an aligned buffer read as an archived byte
/// vector: the bytes of that vector, or `None` where validation fails.
pub uninterp spec fn rkyv_payload(envelope: Seq<u8>) -> Option<Seq<u8>>;

/// `rkyv::util::AlignedVec::len`: the number of bytes that the buffer
/// holds.
#[verifier::external_body]
fn aligned_len(buffer: &rkyv::util::AlignedVec) -> (len: usize)
    ensures
        len == buffer_bytes(*buffer).len(),
{
    buffer.len()
}

/// `rkyv::to_bytes` with `rancor::Error`, on a byte vector.
///
/// Trusted: whether an archive is made is fixed by the bytes archived. An
/// archive that is made holds the payload, zero bytes up to a multiple of
/// four, and the root of offset and length, as `envelope_of` writes it out;
/// and `rkyv::access` finds the payload in it. Payloads that do not fit are
/// left out: rkyv panics where the offset does not fit 32 bits or the
/// buffer would pass its largest capacity.
#[verifier::external_body]
fn archive_bytes(payload: &Vec<u8>) -> (result: Result<
    rkyv::util::AlignedVec,
    rkyv::rancor::Error,
>)
    requires
        fits(payload@.len()),
    ensures
        match result {
            Ok(buffer) => {
                &&& !rkyv_refuses(payload@)
                &&& buffer_bytes(buffer) == envelope_of(payload@)
                &&& rkyv_payload(buffer_bytes(buffer)) == Some(payload@)
            },
            Err(_) => rkyv_refuses(payload@),
        },
{
    rkyv::to_bytes::<rkyv::rancor::Error>(payload)
}

/// `rkyv::access` with `rancor::Error`, for an archived byte vector at the
/// root of the buffer; the slice handed out is the archived vector's own.
///
/// Trusted: an aligned buffer starts at a multiple of its alignment, so
/// what validation finds is fixed by the bytes held.
#[verifier::external_body]
fn access_bytes<'a>(envelope: &'a rkyv::util::AlignedVec) -> (result: Result<
    &'a [u8],
    rkyv::rancor::Error,
>)
    ensures
        match result {
            Ok(payload) => rkyv_payload(buffer_bytes(*envelope)) == Some(payload@),
            Err(_) => rkyv_payload(buffer_bytes(*envelope)) is None,
        },
{
    match rkyv::access::<rkyv::vec::ArchivedVec<u8>, rkyv::rancor::Error>(envelope.as_slice()) {
        Ok(archived) => Ok(archived.as_slice()),
        Err(error) => Err(error),
    }
}

/// The envelope of a payload, or the reason why there is none.
pub open spec fn archived(payload: Seq<u8>) -> Result<Seq<u8>, EncodeError> {
    if !fits(payload.len()) {
        Err(EncodeError::PayloadTooLarge)
    } else if rkyv_refuses(payload) {
        Err(EncodeError::Envelope)
    } else {
        Ok(envelope_of(payload))
    }
}

/// The payload of an envelope, or the reason why there is none.
pub open spec fn unarchived(envelope: Seq<u8>) -> Result<Seq<u8>, DecodeError> {
    match rkyv_payload(envelope) {
        Some(payload) => Ok(payload),
        None => Err(DecodeError::Envelope),
    }
}

/// What the outer layer's answer to an archiving request means to the
/// adapter: the buffer, or an envelope error.
pub fn sealed(outcome: Result<rkyv::util::AlignedVec, rkyv::rancor::Error>) -> (result: Result<
    rkyv::util::AlignedVec,
    EncodeError,
>)
    ensures
        match outcome {
            Ok(buffer) => result == Ok::<rkyv::util::AlignedVec, EncodeError>(buffer),
            Err(_) => result == Err::<rkyv::util::AlignedVec, EncodeError>(EncodeError::Envelope),
        },
{
    match outcome {
        Ok(buffer) => Ok(buffer),
        Err(_) => Err(EncodeError::Envelope),
    }
}

/// What the outer layer's answer to an access means to the adapter: the
/// payload, or an envelope error.
pub fn opened<'a>(outcome: Result<&'a [u8], rkyv::rancor::Error>) -> (result: Result<
    &'a [u8],
    DecodeError,
>)
    ensures
        match outcome {
            Ok(payload) => result == Ok::<&[u8], DecodeError>(payload),
            Err(_) => result == Err::<&[u8], DecodeError>(DecodeError::Envelope),
        },
{
    match outcome {
        Ok(payload) => Ok(payload),
        Err(_) => Err(DecodeError::Envelope),
    }
}

/// Wraps the inner codec's output in an envelope. An envelope that is
/// made opens to the payload again.
pub fn ser_archive(payload: &Bytes) -> (result: Result<rkyv::util::AlignedVec, EncodeError>)
    ensures
        match result {
            Ok(buffer) => {
                &&& archived(payload@) == Ok::<Seq<u8>, EncodeError>(buffer_bytes(buffer))
                &&& unarchived(buffer_bytes(buffer)) == Ok::<Seq<u8>, DecodeError>(payload@)
                &&& buffer_bytes(buffer).len() == envelope_len_of(payload@.len())
            },
            Err(error) => archived(payload@) == Err::<Seq<u8>, EncodeError>(error),
        },
{
    proof {
        lemma_envelope_holds_payload(payload@);
    }
    let len = payload.bytes.len();
    if len > PAYLOAD_MAX {
        return Err(EncodeError::PayloadTooLarge);
    }
    let envelope_len = len + (4 - len % 4) % 4 + 8;
    if envelope_len > usize::MAX / 2 - 15 {
        Err(EncodeError::PayloadTooLarge)
    } else {
        sealed(archive_bytes(&payload.bytes))
    }
}

/// Opens an envelope and hands out the payload that the inner codec is to
/// decode.
pub fn de_archive<'a>(envelope: &'a rkyv::util::AlignedVec) -> (result: Result<
    &'a [u8],
    DecodeError,
>)
    ensures
        match result {
            Ok(payload) => unarchived(buffer_bytes(*envelope)) == Ok::<Seq<u8>, DecodeError>(
                payload@,
            ),
            Err(error) => unarchived(buffer_bytes(*envelope)) == Err::<Seq<u8>, DecodeError>(
                error,
            ),
        },
{
    opened(access_bytes(envelope))
}

/// The number of bytes of an envelope: what the size reporter records for
/// the layered codec, the outer layer's framing included.
pub fn envelope_len(envelope: &rkyv::util::AlignedVec) -> (len: usize)
    ensures
        len == buffer_bytes(*envelope).len(),
{
    aligned_len(envelope)
}

/// The layered encoding of a value whose inner encoding is `inner`.
pub open spec fn layered_encoding(inner: Result<Seq<u8>, EncodeError>) -> Result<
    Seq<u8>,
    EncodeError,
> {
    match inner {
        Ok(payload) => archived(payload),
        Err(error) => Err(error),
    }
}

/// The layered codec's encode, given what the inner codec made of the
/// value: its bytes go into an envelope, its error is passed on.
pub fn layered(inner: Result<Vec<u8>, EncodeError>) -> (result: Result<
    rkyv::util::AlignedVec,
    EncodeError,
>)
    ensures
        match result {
            Ok(buffer) => {
                &&& layered_encoding(views_of(inner)) == Ok::<Seq<u8>, EncodeError>(
                    buffer_bytes(buffer),
                )
                &&& unarchived(buffer_bytes(buffer)) == Ok::<Seq<u8>, DecodeError>(
                    inner->Ok_0@,
                )
            },
            Err(error) => layered_encoding(views_of(inner)) == Err::<Seq<u8>, EncodeError>(
                error,
            ),
        },
{
    match inner {
        Ok(bytes) => {
            let payload = Bytes::from(bytes);
            ser_archive(&payload)
        },
        Err(error) => Err(error),
    }
}

/// The inner codec's outcome with its bytes as a sequence.
pub open spec fn views_of(inner: Result<Vec<u8>, EncodeError>) -> Result<Seq<u8>, EncodeError> {
    match inner {
        Ok(bytes) => Ok(bytes@),
        Err(error) => Err(error),
    }
}

/// The value that layered decoding finds in `envelope`, with `decode_inner`
/// as the inner codec's decoder.
pub open spec fn layered_decoding<D>(
    decode_inner: spec_fn(Seq<u8>) -> Result<D, DecodeError>,
    envelope: Seq<u8>,
) -> Result<D, DecodeError> {
    match unarchived(envelope) {
        Ok(payload) => decode_inner(payload),
        Err(error) => Err(error),
    }
}

/// An envelope is eight bytes and the padding longer than its payload,
/// and starts with the payload.
pub proof fn lemma_envelope_holds_payload(payload: Seq<u8>)
    ensures
        envelope_of(payload).len() == envelope_len_of(payload.len()),
        envelope_of(payload).len() >= payload.len() + 8,
        envelope_of(payload).subrange(0, payload.len() as int) == payload,
{
    assert(envelope_of(payload).subrange(0, payload.len() as int) =~= payload);
}

/// A longer payload never has a shorter envelope.
pub proof fn lemma_envelope_grows_with_payload(shorter: Seq<u8>, longer: Seq<u8>)
    requires
        shorter.len() <= longer.len(),
    ensures
        envelope_of(shorter).len() <= envelope_of(longer).len(),
{
    lemma_envelope_holds_payload(shorter);
    lemma_envelope_holds_payload(longer);
}

/// Decoding undoes the layers in the reverse order of encoding: where the
/// inner codec gives back `data` from its own output, and the envelope
/// made of that output opens to it again, as every envelope does that
/// `ser_archive` hands out, layered decoding of the layered encoding gives
/// back `data`.
pub proof fn lemma_layered_inverse<D>(
    encode_inner: spec_fn(D) -> Result<Seq<u8>, EncodeError>,
    decode_inner: spec_fn(Seq<u8>) -> Result<D, DecodeError>,
    data: D,
)
    requires
        encode_inner(data) is Ok,
        decode_inner(encode_inner(data)->Ok_0) == Ok::<D, DecodeError>(data),
        archived(encode_inner(data)->Ok_0) is Ok,
        unarchived(archived(encode_inner(data)->Ok_0)->Ok_0) == Ok::<Seq<u8>, DecodeError>(
            encode_inner(data)->Ok_0,
        ),
    ensures
        layered_encoding(encode_inner(data)) is Ok,
        layered_decoding(decode_inner, layered_encoding(encode_inner(data))->Ok_0) == Ok::<
            D,
            DecodeError,
        >(data),
{
}

} // verus!
