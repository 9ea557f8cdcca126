//! Length-prefixed framing for MessagePack values.
//!
//! Each frame on the wire is a 4-byte unsigned big-endian length `n`
//! followed by exactly `n` bytes of serialized payload.

pub mod codec;
pub mod decode;
pub mod framed;
pub mod wire;
pub mod write;
