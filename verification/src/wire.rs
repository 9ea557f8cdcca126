//! The length-prefix wire format: a 4-byte unsigned big-endian length
//! followed by that many payload bytes.

use vstd::prelude::*;

verus! {

/// Number of bytes in the length prefix of every frame.
pub const HEAD_LENGTH: usize = 4;

/// The unsigned big-endian value of the first four bytes of `b`.
pub open spec fn be32(b: Seq<u8>) -> int
    recommends
        b.len() >= 4,
{
    b[0] * 0x100_0000 + b[1] * 0x1_0000 + b[2] * 0x100 + b[3]
}

/// The four big-endian bytes of `n`.
pub open spec fn u32_be_bytes(n: u32) -> Seq<u8> {
    seq![
        (n / 0x100_0000) as u8,
        ((n / 0x1_0000) % 0x100) as u8,
        ((n / 0x100) % 0x100) as u8,
        (n % 0x100) as u8,
    ]
}

/// Reads the 4-byte big-endian length prefix at the front of `src`.
pub fn read_u32_be(src: &Vec<u8>) -> (n: u32)
    requires
        src@.len() >= 4,
    ensures
        n as int == be32(src@),
{
    let b0 = src[0] as u32;
    let b1 = src[1] as u32;
    let b2 = src[2] as u32;
    let b3 = src[3] as u32;
    b0 * 0x100_0000 + b1 * 0x1_0000 + b2 * 0x100 + b3
}

/// Appends the 4-byte big-endian encoding of `n` to `dst`.
pub fn put_u32_be(n: u32, dst: &mut Vec<u8>)
    ensures
        final(dst)@ == old(dst)@ + u32_be_bytes(n),
{
    dst.push((n / 0x100_0000) as u8);
    dst.push(((n / 0x1_0000) % 0x100) as u8);
    dst.push(((n / 0x100) % 0x100) as u8);
    dst.push((n % 0x100) as u8);
    assert(dst@ =~= old(dst)@ + u32_be_bytes(n));
}

/// A frame: the 4-byte big-endian length of `payload` followed by `payload`.
pub open spec fn frame_for(payload: Seq<u8>) -> Seq<u8>
    recommends
        payload.len() <= u32::MAX,
{
    u32_be_bytes(payload.len() as u32) + payload
}

/// Whether `b` begins with one complete frame: a full header whose declared
/// payload length is entirely buffered.
pub open spec fn frame_ready(b: Seq<u8>) -> bool {
    b.len() >= 4 && b.len() - 4 >= be32(b)
}

/// The payload of the complete frame at the front of `b`.
pub open spec fn ready_payload(b: Seq<u8>) -> Seq<u8>
    recommends
        frame_ready(b),
{
    b.subrange(4, 4 + be32(b))
}

/// The bytes of `b` after the complete frame at its front.
pub open spec fn ready_rest(b: Seq<u8>) -> Seq<u8>
    recommends
        frame_ready(b),
{
    b.skip(4 + be32(b))
}

/// The length prefix depends only on the first four bytes, so appending
/// input never changes a header already buffered.
pub proof fn lemma_be32_prefix(b: Seq<u8>, c: Seq<u8>)
    requires
        b.len() >= 4,
    ensures
        be32(b + c) == be32(b),
{
    assert((b + c)[0] == b[0]);
    assert((b + c)[1] == b[1]);
    assert((b + c)[2] == b[2]);
    assert((b + c)[3] == b[3]);
}

/// Writing a length and reading it back yields the same length.
pub proof fn lemma_be32_round_trip(n: u32)
    ensures
        be32(u32_be_bytes(n)) == n as int,
{
    let m = n as int;
    assert((m / 0x100_0000) * 0x100_0000 + ((m / 0x1_0000) % 0x100) * 0x1_0000
        + ((m / 0x100) % 0x100) * 0x100 + (m % 0x100) == m) by (nonlinear_arith)
        requires
            0 <= m < 0x1_0000_0000,
    ;
    assert(0 <= m / 0x100_0000 < 0x100) by (nonlinear_arith)
        requires
            0 <= m < 0x1_0000_0000,
    ;
}

/// Law: a complete frame decodes back to exactly the payload it was built
/// from, with no bytes left over.
pub proof fn lemma_frame_round_trip(p: Seq<u8>)
    requires
        p.len() <= u32::MAX,
    ensures
        frame_ready(frame_for(p)),
        ready_payload(frame_for(p)) == p,
        ready_rest(frame_for(p)) == Seq::<u8>::empty(),
{
    let n = p.len() as u32;
    let f = frame_for(p);
    lemma_be32_round_trip(n);
    lemma_be32_prefix(u32_be_bytes(n), p);
    assert(f.len() == 4 + p.len());
    assert(be32(f) == p.len());
    assert(ready_payload(f) =~= p);
    assert(ready_rest(f) =~= Seq::<u8>::empty());
}

/// Law: no strict prefix of a frame holds a complete frame, so a decoder fed
/// a truncated frame can only report that more input is needed, never hand
/// back a wrong payload.
pub proof fn lemma_partial_frame_incomplete(p: Seq<u8>, k: int)
    requires
        p.len() <= u32::MAX,
        0 <= k < frame_for(p).len(),
    ensures
        !frame_ready(frame_for(p).take(k)),
{
    let f = frame_for(p);
    let g = f.take(k);
    if k >= 4 {
        lemma_frame_round_trip(p);
        assert(g[0] == f[0] && g[1] == f[1] && g[2] == f[2] && g[3] == f[3]);
        assert(be32(g) == be32(f));
        assert(g.len() - 4 < p.len());
    }
}

/// Law: the two halves of input split at any byte offset rebuild the original
/// bytes when appended in turn, so a decoder driven over the growing buffer
/// sees the same contents whether the bytes came in one read or two.
pub proof fn lemma_split_feed(b: Seq<u8>, k: int)
    requires
        0 <= k <= b.len(),
    ensures
        b.take(k) + b.skip(k) == b,
{
    assert(b.take(k) + b.skip(k) =~= b);
}

/// Law: with more input queued behind it, a complete frame still decodes to
/// exactly its own payload and leaves the queued bytes, in order, at the
/// front of the buffer — so several buffered frames come out one by one, in
/// the order they were laid down.
pub proof fn lemma_frame_then_rest(p: Seq<u8>, more: Seq<u8>)
    requires
        p.len() <= u32::MAX,
    ensures
        frame_ready(frame_for(p) + more),
        ready_payload(frame_for(p) + more) == p,
        ready_rest(frame_for(p) + more) == more,
{
    let n = p.len() as u32;
    let f = frame_for(p) + more;
    assert(f =~= u32_be_bytes(n) + (p + more));
    lemma_be32_round_trip(n);
    lemma_be32_prefix(u32_be_bytes(n), p + more);
    assert(be32(f) == p.len());
    assert(ready_payload(f) =~= p);
    assert(ready_rest(f) =~= more);
}

/// Law: the zero-length payload frame is exactly the four zero bytes; it is
/// complete on its own and carries the empty payload.
pub proof fn lemma_empty_payload_frame()
    ensures
        frame_for(Seq::<u8>::empty()) == seq![0u8, 0u8, 0u8, 0u8],
        frame_ready(frame_for(Seq::<u8>::empty())),
        ready_payload(frame_for(Seq::<u8>::empty())) == Seq::<u8>::empty(),
{
    lemma_frame_round_trip(Seq::<u8>::empty());
    assert(frame_for(Seq::<u8>::empty()) =~= seq![0u8, 0u8, 0u8, 0u8]);
}

} // verus!
