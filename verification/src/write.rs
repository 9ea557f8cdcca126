//! The write half of the transport: at most one frame in flight at a time.
//!
//! A submitted value is serialized and framed at once; the frame's bytes are
//! then handed to the underlying sink piecewise, as it accepts them. A second
//! value is rejected until the pending frame has been written out in full, so
//! the bytes of two frames are never interleaved on the wire.

use vstd::prelude::*;
use crate::codec::{encode, FrameError};
use crate::wire::frame_for;

verus! {

/// All of `frames` laid end to end, in order.
pub open spec fn cat(frames: Seq<Seq<u8>>) -> Seq<u8>
    decreases frames.len(),
{
    if frames.len() == 0 {
        Seq::empty()
    } else {
        cat(frames.drop_last()) + frames.last()
    }
}

/// Appending one more frame extends the concatenation at its tail.
pub proof fn lemma_cat_push(frames: Seq<Seq<u8>>, x: Seq<u8>)
    ensures
        cat(frames.push(x)) == cat(frames) + x,
{
    assert(frames.push(x).drop_last() =~= frames);
}

/// What one submission attempt produced.
#[derive(Debug, PartialEq)]
pub enum SubmitOutcome {
    /// The value was serialized; its frame is now pending.
    Accepted,
    /// The previous frame is not fully written yet; the value is handed back
    /// to the caller, to be submitted again after a drain.
    Rejected(rmpv::Value),
    /// The value could not be serialized (`SerializationFailed`). The write
    /// half is unchanged and stays usable.
    Failed(FrameError),
}

/// The write half of the transport. `frame` holds the bytes of the pending
/// frame not yet accepted by the sink; the ghost history records every
/// accepted frame and every byte handed to the sink.
pub struct FramedWrite {
    frame: Vec<u8>,
    accepted: Ghost<Seq<Seq<u8>>>,
    sent: Ghost<Seq<u8>>,
}

impl FramedWrite {
    /// Bytes of the pending frame still to hand to the sink; empty when
    /// drained.
    pub closed spec fn pending(self) -> Seq<u8> {
        self.frame@
    }

    /// Every frame accepted so far, in submission order.
    pub closed spec fn accepted(self) -> Seq<Seq<u8>> {
        self.accepted@
    }

    /// Every byte handed to the sink so far, in order.
    pub closed spec fn sent_bytes(self) -> Seq<u8> {
        self.sent@
    }

    /// The sent bytes followed by the pending remainder are exactly the
    /// accepted frames laid end to end: at most one frame is ever partially
    /// written, and no byte is sent out of order.
    pub closed spec fn wf(self) -> bool {
        self.sent@ + self.frame@ == cat(self.accepted@)
    }

    /// A fresh write half with nothing pending and nothing sent.
    pub fn new() -> (r: FramedWrite)
        ensures
            r.wf(),
            r.pending() == Seq::<u8>::empty(),
            r.accepted() == Seq::<Seq<u8>>::empty(),
            r.sent_bytes() == Seq::<u8>::empty(),
    {
        let r = FramedWrite {
            frame: Vec::new(),
            accepted: Ghost(Seq::empty()),
            sent: Ghost(Seq::empty()),
        };
        proof {
            assert(r.sent@ + r.frame@ =~= cat(r.accepted@));
        }
        r
    }

    /// Whether a frame is pending: a later submission is rejected until the
    /// pending frame is drained.
    pub fn has_pending(&self) -> (r: bool)
        ensures
            r == (self.pending().len() > 0),
    {
        self.frame.len() > 0
    }

    /// Serializes `item` and installs its length-prefixed frame as the
    /// pending frame. On failure the write half is unchanged.
    pub fn set_frame(&mut self, item: &rmpv::Value) -> (r: Result<(), FrameError>)
        requires
            old(self).wf(),
            old(self).pending().len() == 0,
        ensures
            final(self).wf(),
            r is Ok ==> {
                &&& exists|p: Seq<u8>|
                    p.len() <= u32::MAX && final(self).pending() == #[trigger] frame_for(p)
                &&& final(self).accepted() == old(self).accepted().push(final(self).pending())
                &&& final(self).sent_bytes() == old(self).sent_bytes()
            },
            r is Err ==> {
                &&& r == Err::<(), FrameError>(FrameError::SerializationFailed)
                &&& final(self).pending() == old(self).pending()
                &&& final(self).accepted() == old(self).accepted()
                &&& final(self).sent_bytes() == old(self).sent_bytes()
            },
    {
        let mut buf: Vec<u8> = Vec::new();
        match encode(item, &mut buf) {
            Ok(()) => {
                self.frame = buf;
                proof {
                    lemma_cat_push(self.accepted@, self.frame@);
                }
                self.accepted = Ghost(self.accepted@.push(self.frame@));
                proof {
                    assert(self.sent@ + self.frame@ =~= cat(self.accepted@));
                }
                Ok(())
            },
            Err(e) => Err(e),
        }
    }

    /// Producer contract with backpressure: a value is accepted only when no
    /// frame is pending; otherwise it is handed back unchanged and the caller
    /// retries after draining. A rejected or failed submission leaves the
    /// write half exactly as it was.
    pub fn start_send(&mut self, item: rmpv::Value) -> (r: SubmitOutcome)
        requires
            old(self).wf(),
        ensures
            final(self).wf(),
            final(self).sent_bytes() == old(self).sent_bytes(),
            old(self).pending().len() > 0 ==> {
                &&& r == SubmitOutcome::Rejected(item)
                &&& final(self).pending() == old(self).pending()
                &&& final(self).accepted() == old(self).accepted()
            },
            old(self).pending().len() == 0 ==> match r {
                SubmitOutcome::Accepted => {
                    &&& exists|p: Seq<u8>|
                        p.len() <= u32::MAX && final(self).pending() == #[trigger] frame_for(p)
                    &&& final(self).accepted() == old(self).accepted().push(final(self).pending())
                },
                SubmitOutcome::Rejected(_) => false,
                SubmitOutcome::Failed(e) => {
                    &&& e == FrameError::SerializationFailed
                    &&& final(self).pending() == old(self).pending()
                    &&& final(self).accepted() == old(self).accepted()
                },
            },
    {
        if self.frame.len() > 0 {
            return SubmitOutcome::Rejected(item);
        }
        match self.set_frame(&item) {
            Ok(()) => SubmitOutcome::Accepted,
            Err(e) => SubmitOutcome::Failed(e),
        }
    }

    /// The bytes of the pending frame still to hand to the sink. The owner
    /// writes some prefix of them to the sink and then calls `advance` with
    /// the count the sink accepted.
    pub fn pending_bytes(&self) -> (r: &Vec<u8>)
        ensures
            r@ == self.pending(),
    {
        &self.frame
    }

    /// Records that the sink accepted the first `n` bytes of the pending
    /// frame: they move from pending to sent, in order.
    pub fn advance(&mut self, n: usize)
        requires
            old(self).wf(),
            n <= old(self).pending().len(),
        ensures
            final(self).wf(),
            final(self).pending() == old(self).pending().skip(n as int),
            final(self).sent_bytes() == old(self).sent_bytes()
                + old(self).pending().take(n as int),
            final(self).accepted() == old(self).accepted(),
    {
        let tail = self.frame.split_off(n);
        self.sent = Ghost(self.sent@ + self.frame@);
        self.frame = tail;
        proof {
            assert(self.frame@ =~= old(self).pending().skip(n as int));
            assert(self.sent@ + self.frame@ =~= cat(self.accepted@));
        }
    }

    /// Whether the pending frame (if any) has been fully handed to the sink;
    /// only then may the sink itself be flushed and a new value submitted.
    pub fn is_drained(&self) -> (r: bool)
        ensures
            r == (self.pending().len() == 0),
    {
        self.frame.len() == 0
    }

    /// Relies on the `format!` macro of std. A one-line summary of the write
    /// half's state for logs: a byte count only, never the pending bytes
    /// themselves.
    #[verifier::external_body]
    pub fn debug_summary(&self) -> String {
        format!("FramedWrite {{ {} pending bytes }}", self.frame.len())
    }
}

/// Law: the bytes handed to the sink are always a prefix of the accepted
/// frames laid end to end in submission order — frames reach the wire whole,
/// in order, never interleaved.
pub proof fn lemma_sent_in_order(w: FramedWrite)
    requires
        w.wf(),
    ensures
        w.sent_bytes() == cat(w.accepted()).take(w.sent_bytes().len() as int),
{
    assert(w.sent_bytes() =~= cat(w.accepted()).take(w.sent_bytes().len() as int));
}

/// Law: once the pending frame is fully drained, the wire holds exactly every
/// accepted frame, in order.
pub proof fn lemma_drained_wire(w: FramedWrite)
    requires
        w.wf(),
        w.pending().len() == 0,
    ensures
        w.sent_bytes() == cat(w.accepted()),
{
    assert(w.sent_bytes() =~= cat(w.accepted()));
}

} // verus!
