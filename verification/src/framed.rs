//! The bidirectional transport: one read half and one write half composed
//! into a single object that both yields decoded values and accepts values to
//! send, each side keeping its own state.

use vstd::prelude::*;
use crate::codec::{payload_decodes, FrameError};
use crate::decode::{DecodeOutcome, EofOutcome, FramedRead};
use crate::wire::{frame_for, frame_ready, ready_payload, ready_rest};
use crate::write::{FramedWrite, SubmitOutcome};

verus! {

/// Read and write halves over one duplex connection. The connection handle
/// itself stays with the owner, which pulls bytes from it into `feed` and
/// pushes `pending_bytes` out of it.
pub struct Framed {
    read: FramedRead,
    write: FramedWrite,
}

impl Framed {
    /// Both halves are internally consistent.
    pub closed spec fn wf(self) -> bool {
        self.read.wf() && self.write.wf()
    }

    /// The inbound bytes buffered and not yet consumed as frames.
    pub closed spec fn buffered(self) -> Seq<u8> {
        self.read.buffered()
    }

    /// The outbound bytes of the pending frame not yet handed to the sink.
    pub closed spec fn pending(self) -> Seq<u8> {
        self.write.pending()
    }

    /// Every outbound frame accepted so far, in submission order.
    pub closed spec fn accepted(self) -> Seq<Seq<u8>> {
        self.write.accepted()
    }

    /// Every outbound byte handed to the sink so far, in order.
    pub closed spec fn sent_bytes(self) -> Seq<u8> {
        self.write.sent_bytes()
    }

    /// A fresh transport with empty buffers on both sides.
    pub fn new() -> (r: Framed)
        ensures
            r.wf(),
            r.buffered() == Seq::<u8>::empty(),
            r.pending() == Seq::<u8>::empty(),
            r.accepted() == Seq::<Seq<u8>>::empty(),
            r.sent_bytes() == Seq::<u8>::empty(),
    {
        Framed { read: FramedRead::new(), write: FramedWrite::new() }
    }

    /// Appends bytes pulled from the connection to the inbound buffer.
    pub fn feed(&mut self, chunk: &[u8])
        requires
            old(self).wf(),
        ensures
            final(self).wf(),
            final(self).buffered() == old(self).buffered() + chunk@,
            final(self).pending() == old(self).pending(),
            final(self).accepted() == old(self).accepted(),
            final(self).sent_bytes() == old(self).sent_bytes(),
    {
        self.read.feed(chunk);
    }

    /// One poll of the read side against the buffered bytes.
    pub fn try_next(&mut self) -> (r: DecodeOutcome)
        requires
            old(self).wf(),
        ensures
            final(self).wf(),
            final(self).pending() == old(self).pending(),
            final(self).accepted() == old(self).accepted(),
            final(self).sent_bytes() == old(self).sent_bytes(),
            !frame_ready(old(self).buffered()) ==> r is Incomplete
                && final(self).buffered() == old(self).buffered(),
            frame_ready(old(self).buffered()) ==> {
                &&& (r is Produced <==> payload_decodes(ready_payload(old(self).buffered())))
                &&& !(r is Incomplete)
                &&& r is Failed ==> r == DecodeOutcome::Failed(FrameError::InvalidPayload)
                &&& final(self).buffered() == ready_rest(old(self).buffered())
            },
    {
        self.read.try_next()
    }

    /// What end-of-input on the connection means for the read side now.
    pub fn eof_outcome(&self) -> (r: EofOutcome)
        ensures
            self.buffered().len() == 0 ==> r == EofOutcome::End,
            self.buffered().len() > 0 ==> r == EofOutcome::Failed(FrameError::UnexpectedEof),
    {
        self.read.eof_outcome()
    }

    /// Submits a value to the write side; rejected while a frame is pending.
    pub fn start_send(&mut self, item: rmpv::Value) -> (r: SubmitOutcome)
        requires
            old(self).wf(),
        ensures
            final(self).wf(),
            final(self).buffered() == old(self).buffered(),
            final(self).sent_bytes() == old(self).sent_bytes(),
            old(self).pending().len() > 0 ==> {
                &&& r == SubmitOutcome::Rejected(item)
                &&& final(self).pending() == old(self).pending()
                &&& final(self).accepted() == old(self).accepted()
            },
            old(self).pending().len() == 0 ==> match r {
                SubmitOutcome::Accepted => {
                    &&& exists|p: Seq<u8>|
                        p.len() <= u32::MAX && final(self).pending() == #[trigger] frame_for(p)
                    &&& final(self).accepted() == old(self).accepted().push(final(self).pending())
                },
                SubmitOutcome::Rejected(_) => false,
                SubmitOutcome::Failed(e) => {
                    &&& e == FrameError::SerializationFailed
                    &&& final(self).pending() == old(self).pending()
                    &&& final(self).accepted() == old(self).accepted()
                },
            },
    {
        self.write.start_send(item)
    }

    /// The bytes of the pending frame still to hand to the connection.
    pub fn pending_bytes(&self) -> (r: &Vec<u8>)
        ensures
            r@ == self.pending(),
    {
        self.write.pending_bytes()
    }

    /// Records that the connection accepted the first `n` pending bytes.
    pub fn advance(&mut self, n: usize)
        requires
            old(self).wf(),
            n <= old(self).pending().len(),
        ensures
            final(self).wf(),
            final(self).buffered() == old(self).buffered(),
            final(self).pending() == old(self).pending().skip(n as int),
            final(self).sent_bytes() == old(self).sent_bytes()
                + old(self).pending().take(n as int),
            final(self).accepted() == old(self).accepted(),
    {
        self.write.advance(n);
    }

    /// Whether the write side has handed its whole pending frame (if any) to
    /// the connection.
    pub fn is_drained(&self) -> (r: bool)
        ensures
            r == (self.pending().len() == 0),
    {
        self.write.is_drained()
    }

    /// A reference to the read half.
    pub fn read_half(&self) -> (r: &FramedRead)
        ensures
            r.buffered() == self.buffered(),
            self.wf() ==> r.wf(),
    {
        &self.read
    }

    /// A reference to the write half.
    pub fn write_half(&self) -> (r: &FramedWrite)
        ensures
            r.pending() == self.pending(),
            r.accepted() == self.accepted(),
            r.sent_bytes() == self.sent_bytes(),
            self.wf() ==> r.wf(),
    {
        &self.write
    }

    /// Relies on the `format!` macro of std. A one-line summary of both
    /// halves for logs: state tags and byte counts only, never the buffered
    /// bytes themselves.
    #[verifier::external_body]
    pub fn debug_summary(&self) -> String {
        format!("Framed {{ {}, {} }}", self.read.debug_summary(), self.write.debug_summary())
    }

    /// Consumes the transport, returning its two halves. Bytes still buffered
    /// on either side travel with the halves and are not recoverable through
    /// the underlying connection.
    pub fn into_parts(self) -> (r: (FramedRead, FramedWrite))
        ensures
            r.0.buffered() == self.buffered(),
            r.1.pending() == self.pending(),
            r.1.accepted() == self.accepted(),
            r.1.sent_bytes() == self.sent_bytes(),
            self.wf() ==> r.0.wf() && r.1.wf(),
    {
        (self.read, self.write)
    }
}

} // verus!
