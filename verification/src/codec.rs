//! The external MessagePack codec: serialization and deserialization of one
//! structured value, and the encode path that builds a length-prefixed frame.
//!
//! The value type and the codec itself come from the `rmpv` crate and are
//! opaque here; the framing around them is verified.

use vstd::prelude::*;
use crate::wire::{frame_for, put_u32_be};

verus! {

/// The structured value carried by one frame. Opaque: the framer never looks
/// inside a value, it only moves values between the codec and the caller.
#[verifier::external_type_specification]
#[verifier::external_body]
pub struct ExValue(rmpv::Value);

/// The error type of the external deserializer.
#[verifier::external_type_specification]
#[verifier::external_body]
pub struct ExDecodeError(rmpv::decode::Error);

/// Everything that can go wrong in the framing layer.
#[derive(Clone, Copy, Debug, PartialEq, Eq, Structural)]
pub enum FrameError {
    /// A complete frame was buffered, but its payload does not deserialize to
    /// exactly one value. Protocol-fatal: framing alignment can no longer be
    /// trusted, so no resynchronization is attempted.
    InvalidPayload,
    /// The input ended in the middle of a frame.
    UnexpectedEof,
    /// A value could not be serialized. Local to one submission; the
    /// write side stays usable.
    SerializationFailed,
}

/// Holds exactly when the bytes `p` parse as one MessagePack value that
/// consumes all of `p`: the verdict of `rmpv::decode::read_value` on these
/// bytes, which depends on the bytes alone.
pub uninterp spec fn payload_decodes(p: Seq<u8>) -> bool;

/// Relies on `rmpv::decode::read_value`: reads one MessagePack value from the
/// front of `payload` and reports how many bytes it consumed. The consumed
/// count never exceeds the bytes available, and the read consumes the whole
/// payload exactly when the payload is one whole value.
#[verifier::external_body]
fn read_one_value(payload: &Vec<u8>) -> (r: Result<(rmpv::Value, usize), rmpv::decode::Error>)
    ensures
        r matches Ok(vc) ==> vc.1 <= payload@.len(),
        payload_decodes(payload@) <==> (r matches Ok(vc) && vc.1 == payload@.len()),
{
    let mut cur = std::io::Cursor::new(payload.as_slice());
    match rmpv::decode::read_value(&mut cur) {
        Ok(v) => Ok((v, cur.position() as usize)),
        Err(e) => Err(e),
    }
}

/// Relies on `rmpv::encode::write_value`: serializes one value in MessagePack
/// format. Nothing is assumed about the bytes produced. Every error path in
/// `write_value` wraps an I/O error of the writer, and writing into a `Vec`
/// cannot fail, so the call always succeeds; the error arm stands only to
/// satisfy the signature.
#[verifier::external_body]
pub(crate) fn serialize(v: &rmpv::Value) -> (r: Option<Vec<u8>>)
    ensures
        r is Some,
{
    let mut out: Vec<u8> = Vec::new();
    match rmpv::encode::write_value(&mut out, v) {
        Ok(()) => Some(out),
        Err(_) => None,
    }
}

/// Deserializes one frame payload. The payload must hold exactly one value:
/// a payload the codec rejects, or one with trailing bytes after the value,
/// is `InvalidPayload`.
pub(crate) fn deserialize_payload(payload: &Vec<u8>) -> (r: Result<rmpv::Value, FrameError>)
    ensures
        r is Ok <==> payload_decodes(payload@),
        r is Err ==> r == Err::<rmpv::Value, FrameError>(FrameError::InvalidPayload),
{
    match read_one_value(payload) {
        Ok((v, consumed)) => {
            if consumed == payload.len() {
                Ok(v)
            } else {
                Err(FrameError::InvalidPayload)
            }
        },
        Err(_) => Err(FrameError::InvalidPayload),
    }
}

/// Appends the frame for `payload` to `dst`: the 4-byte big-endian payload
/// length, then the payload itself.
pub fn encode_payload(payload: &Vec<u8>, dst: &mut Vec<u8>)
    requires
        payload@.len() <= u32::MAX,
    ensures
        final(dst)@ == old(dst)@ + frame_for(payload@),
{
    put_u32_be(payload.len() as u32, dst);
    let ghost mid = dst@;
    let mut i: usize = 0;
    while i < payload.len()
        invariant
            i <= payload@.len(),
            dst@ == mid + payload@.take(i as int),
        decreases payload@.len() - i,
    {
        dst.push(payload[i]);
        proof {
            assert(mid + payload@.take(i as int) + seq![payload@[i as int]]
                =~= mid + payload@.take(i + 1));
        }
        i = i + 1;
    }
    assert(dst@ =~= old(dst)@ + frame_for(payload@));
}

/// Encoder: serializes `v` and appends its length-prefixed frame to `dst`.
/// On success the bytes appended are one well-formed frame; on failure
/// (`SerializationFailed`: the codec rejected the value, or its serialization
/// does not fit a 32-bit length) `dst` is untouched and may be reused.
pub fn encode(v: &rmpv::Value, dst: &mut Vec<u8>) -> (r: Result<(), FrameError>)
    ensures
        r is Ok ==> exists|p: Seq<u8>|
            p.len() <= u32::MAX && final(dst)@ == old(dst)@ + #[trigger] frame_for(p),
        r is Err ==> final(dst)@ == old(dst)@
            && r == Err::<(), FrameError>(FrameError::SerializationFailed),
{
    match serialize(v) {
        None => Err(FrameError::SerializationFailed),
        Some(payload) => {
            if payload.len() as u64 > u32::MAX as u64 {
                Err(FrameError::SerializationFailed)
            } else {
                encode_payload(&payload, dst);
                Ok(())
            }
        },
    }
}

} // verus!
