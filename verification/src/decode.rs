//! The incremental decode state machine and the read half of the transport.
//!
//! The decoder consumes an append-only byte buffer. It reports a complete
//! frame as soon as one is buffered, asks for more input otherwise, and never
//! fails on a short buffer: a decode attempt that lacks bytes leaves the
//! buffer and its own state unchanged.
//!
//! The decoder imposes no maximum frame length: a peer may declare any
//! 32-bit payload length and the buffer grows to hold it. Bounding frame
//! size against untrusted peers is deliberately left to the layer above.

use vstd::prelude::*;
use crate::codec::{deserialize_payload, payload_decodes, FrameError};
use crate::wire::{be32, frame_ready, read_u32_be, ready_payload, ready_rest, HEAD_LENGTH};

verus! {

/// The decoder is waiting either for a 4-byte header or for the body whose
/// length the header declared. The header bytes stay at the front of the
/// buffer until the whole frame is buffered.
#[derive(Clone, Copy, Debug, PartialEq, Eq, Structural)]
pub enum DecodeState {
    /// Fewer than 4 header bytes seen so far.
    Head,
    /// The header declared this payload length; the body is not complete yet.
    Data(u32),
}

/// The incremental decoder: a small state machine over a growing buffer.
pub struct Decoder {
    state: DecodeState,
}

/// What one decode attempt produced.
#[derive(Debug, PartialEq)]
pub enum DecodeOutcome {
    /// One complete frame was buffered and its payload deserialized to
    /// exactly one value.
    Produced(rmpv::Value),
    /// Not enough bytes for a complete frame; feed more input and retry.
    Incomplete,
    /// A complete frame was buffered but its payload is not one value.
    /// Protocol-fatal.
    Failed(FrameError),
}

/// What end-of-input means for the bytes still buffered.
#[derive(Clone, Copy, Debug, PartialEq, Eq, Structural)]
pub enum EofOutcome {
    /// The input ended exactly between frames.
    End,
    /// The input ended in the middle of a frame: `UnexpectedEof`.
    Failed(FrameError),
}

impl Decoder {
    /// The decoder's state is consistent with buffer `b`: a declared body
    /// length is always the one the header at the front of `b` declares.
    pub closed spec fn wf_with(self, b: Seq<u8>) -> bool {
        self.state matches DecodeState::Data(n) ==> b.len() >= 4 && be32(b) == n
    }

    /// The decoder has not yet committed to a header.
    pub closed spec fn awaiting_header(self) -> bool {
        self.state is Head
    }

    /// A fresh decoder, awaiting its first header.
    pub fn new() -> (r: Decoder)
        ensures
            r.awaiting_header(),
            forall|b: Seq<u8>| r.wf_with(b),
    {
        Decoder { state: DecodeState::Head }
    }

    /// Step one: once 4 header bytes are buffered, read the payload length,
    /// reserve room for the body, and move to awaiting that body. With fewer
    /// than 4 bytes buffered, leave everything unchanged.
    fn decode_head(&mut self, src: &mut Vec<u8>) -> (r: Option<u32>)
        requires
            old(self).awaiting_header(),
        ensures
            final(src)@ == old(src)@,
            old(src)@.len() < 4 ==> r is None && *final(self) == *old(self),
            old(src)@.len() >= 4 ==> {
                &&& r == Some((be32(old(src)@) as u32))
                &&& final(self).state == DecodeState::Data(be32(old(src)@) as u32)
            },
    {
        if src.len() < HEAD_LENGTH {
            return None;
        }
        let n = read_u32_be(src);
        // Make sure the buffer can grow to hold the incoming body without
        // repeated reallocation.
        src.reserve(n as usize);
        self.state = DecodeState::Data(n);
        Some(n)
    }

    /// Step two: once the declared body is fully buffered, remove the header
    /// and the payload from the front of the buffer and hand the payload
    /// back. With a shorter buffer, leave everything unchanged.
    fn decode_data(&self, n: u32, src: &mut Vec<u8>) -> (r: Option<Vec<u8>>)
        requires
            old(src)@.len() >= 4,
            be32(old(src)@) == n,
        ensures
            old(src)@.len() - 4 < n ==> r is None && final(src)@ == old(src)@,
            old(src)@.len() - 4 >= n ==> {
                &&& frame_ready(old(src)@)
                &&& r matches Some(p) && p@ == ready_payload(old(src)@)
                &&& final(src)@ == ready_rest(old(src)@)
            },
    {
        if src.len() - HEAD_LENGTH < n as usize {
            return None;
        }
        let body = src.split_off(HEAD_LENGTH);
        let mut payload = body;
        let rest = payload.split_off(n as usize);
        *src = rest;
        assert(payload@ =~= ready_payload(old(src)@));
        assert(src@ =~= ready_rest(old(src)@));
        Some(payload)
    }

    /// Framing half of a decode attempt: yields the payload of the frame at
    /// the front of the buffer when one is complete, and asks for more input
    /// otherwise. The outcome is a function of the buffer contents alone.
    pub fn decode_frame(&mut self, src: &mut Vec<u8>) -> (r: Option<Vec<u8>>)
        requires
            old(self).wf_with(old(src)@),
        ensures
            final(self).wf_with(final(src)@),
            !frame_ready(old(src)@) ==> r is None && final(src)@ == old(src)@,
            frame_ready(old(src)@) ==> {
                &&& r matches Some(p) && p@ == ready_payload(old(src)@)
                &&& final(src)@ == ready_rest(old(src)@)
                &&& final(self).awaiting_header()
            },
    {
        let n: u32 = match self.state {
            DecodeState::Head => {
                match self.decode_head(src) {
                    Some(n) => n,
                    None => {
                        return None;
                    },
                }
            },
            DecodeState::Data(n) => n,
        };
        match self.decode_data(n, src) {
            Some(payload) => {
                self.state = DecodeState::Head;
                // Room for the next frame's header.
                src.reserve(HEAD_LENGTH);
                Some(payload)
            },
            None => None,
        }
    }

    /// One full decode attempt: framing, then the external codec on the
    /// payload of a completed frame. `Incomplete` exactly when no complete
    /// frame is buffered; otherwise the frame is consumed from the buffer and
    /// either a value is produced or the payload is rejected as
    /// `InvalidPayload`.
    pub fn decode(&mut self, src: &mut Vec<u8>) -> (r: DecodeOutcome)
        requires
            old(self).wf_with(old(src)@),
        ensures
            final(self).wf_with(final(src)@),
            !frame_ready(old(src)@) ==> r is Incomplete && final(src)@ == old(src)@,
            frame_ready(old(src)@) ==> {
                &&& (r is Produced <==> payload_decodes(ready_payload(old(src)@)))
                &&& !(r is Incomplete)
                &&& r is Failed ==> r == DecodeOutcome::Failed(FrameError::InvalidPayload)
                &&& final(src)@ == ready_rest(old(src)@)
                &&& final(self).awaiting_header()
            },
    {
        match self.decode_frame(src) {
            None => DecodeOutcome::Incomplete,
            Some(payload) => {
                match deserialize_payload(&payload) {
                    Ok(v) => DecodeOutcome::Produced(v),
                    Err(e) => DecodeOutcome::Failed(e),
                }
            },
        }
    }
}

/// The read half of the transport: the input buffer and the decoder over it.
/// The owner pulls bytes from the underlying source, feeds them here, and
/// polls for complete values.
pub struct FramedRead {
    decoder: Decoder,
    buf: Vec<u8>,
}

impl FramedRead {
    /// The decoder's state is consistent with the buffered bytes.
    pub closed spec fn wf(self) -> bool {
        self.decoder.wf_with(self.buf@)
    }

    /// The bytes pulled from the source and not yet consumed as frames.
    pub closed spec fn buffered(self) -> Seq<u8> {
        self.buf@
    }

    /// A fresh read half with an empty buffer.
    pub fn new() -> (r: FramedRead)
        ensures
            r.wf(),
            r.buffered() == Seq::<u8>::empty(),
    {
        FramedRead { decoder: Decoder::new(), buf: Vec::new() }
    }

    /// Appends bytes pulled from the underlying source to the tail of the
    /// input buffer. Never consumes anything.
    pub fn feed(&mut self, chunk: &[u8])
        requires
            old(self).wf(),
        ensures
            final(self).wf(),
            final(self).buffered() == old(self).buffered() + chunk@,
    {
        let ghost pre = self.buf@;
        let mut i: usize = 0;
        while i < chunk.len()
            invariant
                i <= chunk@.len(),
                self.buf@ == pre + chunk@.take(i as int),
                self.decoder == old(self).decoder,
            decreases chunk@.len() - i,
        {
            let b = *vstd::slice::slice_index_get(chunk, i);
            self.buf.push(b);
            proof {
                assert(pre + chunk@.take(i as int) + seq![chunk@[i as int]]
                    =~= pre + chunk@.take(i + 1));
            }
            i = i + 1;
        }
        proof {
            assert(self.buf@ =~= pre + chunk@);
            if self.decoder.state matches DecodeState::Data(n) {
                crate::wire::lemma_be32_prefix(pre, chunk@);
            }
        }
    }

    /// One poll against the buffered bytes: a value if a complete frame is
    /// buffered and its payload deserializes, `Incomplete` if more input is
    /// needed (the buffer is left untouched), `Failed(InvalidPayload)` if a
    /// completed frame's payload is rejected by the codec.
    pub fn try_next(&mut self) -> (r: DecodeOutcome)
        requires
            old(self).wf(),
        ensures
            final(self).wf(),
            !frame_ready(old(self).buffered()) ==> r is Incomplete
                && final(self).buffered() == old(self).buffered(),
            frame_ready(old(self).buffered()) ==> {
                &&& (r is Produced <==> payload_decodes(ready_payload(old(self).buffered())))
                &&& !(r is Incomplete)
                &&& r is Failed ==> r == DecodeOutcome::Failed(FrameError::InvalidPayload)
                &&& final(self).buffered() == ready_rest(old(self).buffered())
            },
    {
        self.decoder.decode(&mut self.buf)
    }

    /// What end-of-input means right now: a clean end when the buffer is
    /// empty, a truncated frame (`UnexpectedEof`) when bytes of an unfinished
    /// frame are still buffered — never a silently wrong value.
    pub fn eof_outcome(&self) -> (r: EofOutcome)
        ensures
            self.buffered().len() == 0 ==> r == EofOutcome::End,
            self.buffered().len() > 0 ==> r == EofOutcome::Failed(FrameError::UnexpectedEof),
    {
        if self.buf.len() == 0 {
            EofOutcome::End
        } else {
            EofOutcome::Failed(FrameError::UnexpectedEof)
        }
    }

    /// How many bytes are buffered and not yet consumed as frames.
    pub fn buffered_len(&self) -> (r: usize)
        ensures
            r == self.buffered().len(),
    {
        self.buf.len()
    }

    /// Relies on the `format!` macro of std. A one-line summary of the read
    /// half's state for logs: the decoder's phase and a byte count only,
    /// never the buffered bytes themselves.
    #[verifier::external_body]
    pub fn debug_summary(&self) -> String {
        let phase = match self.decoder.state {
            DecodeState::Head => format!("awaiting header"),
            DecodeState::Data(n) => format!("awaiting {} body bytes", n),
        };
        format!("FramedRead {{ {}, {} bytes buffered }}", phase, self.buf.len())
    }
}

} // verus!
