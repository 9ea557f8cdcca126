//! Tests of the bidirectional transport: both directions on one object.

use framed_msgpack::codec::encode;
use framed_msgpack::decode::DecodeOutcome;
use framed_msgpack::framed::Framed;
use framed_msgpack::write::SubmitOutcome;
use rmpv::Value;

#[test]
fn echo_loop_over_a_duplex_pipe() {
    // One peer's outgoing bytes are the other's incoming bytes.
    let request = Value::from(vec![(Value::from("op"), Value::from("ping"))]);

    let mut client = Framed::new();
    assert_eq!(client.start_send(request.clone()), SubmitOutcome::Accepted);
    let mut pipe: Vec<u8> = Vec::new();
    while !client.is_drained() {
        let pending = client.pending_bytes();
        let n = 1usize.max(pending.len() / 2).min(pending.len());
        pipe.extend_from_slice(&pending[..n]);
        client.advance(n);
    }

    let mut server = Framed::new();
    server.feed(&pipe);
    assert_eq!(server.try_next(), DecodeOutcome::Produced(request));
    assert_eq!(server.try_next(), DecodeOutcome::Incomplete);
}

#[test]
fn reads_and_writes_are_independent() {
    // Encoding out never consults or disturbs the decode state, and the
    // other way round.
    let mut t = Framed::new();
    let mut incoming: Vec<u8> = Vec::new();
    encode(&Value::from(1), &mut incoming).unwrap();

    // Feed half the incoming frame, then interleave a send.
    t.feed(&incoming[..3]);
    assert_eq!(t.try_next(), DecodeOutcome::Incomplete);
    assert_eq!(t.start_send(Value::from(2)), SubmitOutcome::Accepted);
    t.feed(&incoming[3..]);
    assert_eq!(t.try_next(), DecodeOutcome::Produced(Value::from(1)));

    // The pending outbound frame is still intact.
    let mut expected = Vec::new();
    encode(&Value::from(2), &mut expected).unwrap();
    assert_eq!(t.pending_bytes().clone(), expected);
}

#[test]
fn into_parts_hands_over_both_halves() {
    let mut t = Framed::new();
    let mut incoming: Vec<u8> = Vec::new();
    encode(&Value::from("hi"), &mut incoming).unwrap();
    t.feed(&incoming);
    assert_eq!(t.start_send(Value::from(9)), SubmitOutcome::Accepted);

    assert_eq!(t.read_half().buffered_len(), incoming.len());
    assert!(t.write_half().has_pending());
    assert!(t.debug_summary().len() > 0);

    let (mut r, mut w) = t.into_parts();
    assert_eq!(r.try_next(), DecodeOutcome::Produced(Value::from("hi")));
    let n = w.pending_bytes().len();
    w.advance(n);
    assert!(w.is_drained());
}
