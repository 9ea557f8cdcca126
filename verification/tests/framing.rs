//! End-to-end tests of the framing layer driven with the real MessagePack
//! codec linked in.

use framed_msgpack::codec::{encode, encode_payload, FrameError};
use framed_msgpack::decode::{DecodeOutcome, Decoder, EofOutcome, FramedRead};
use framed_msgpack::framed::Framed;
use rmpv::Value;

fn frame_of(v: &Value) -> Vec<u8> {
    let mut buf: Vec<u8> = Vec::new();
    encode(v, &mut buf).expect("serializable value");
    buf
}

#[test]
fn encode_exact_bytes() {
    // MessagePack encodes the integer 42 as the single byte 0x2a.
    assert_eq!(frame_of(&Value::from(42)), vec![0, 0, 0, 1, 0x2a]);
    // The string "hi" is 0xa2 'h' 'i'.
    assert_eq!(
        frame_of(&Value::from("hi")),
        vec![0, 0, 0, 3, 0xa2, 0x68, 0x69]
    );
}

#[test]
fn encode_payload_prefixes_length() {
    let payload: Vec<u8> = vec![9, 8, 7];
    let mut dst: Vec<u8> = Vec::new();
    encode_payload(&payload, &mut dst);
    assert_eq!(dst, vec![0, 0, 0, 3, 9, 8, 7]);
}

#[test]
fn round_trip_integer_byte_by_byte() {
    // The full decoder state machine fed one byte per poll attempt: every
    // proper prefix is Incomplete, the last byte completes the value.
    let v = Value::from(42);
    let frame = frame_of(&v);
    let mut r = FramedRead::new();
    for (i, b) in frame.iter().enumerate() {
        if i + 1 < frame.len() {
            r.feed(&[*b]);
            assert_eq!(r.try_next(), DecodeOutcome::Incomplete);
        } else {
            r.feed(&[*b]);
            assert_eq!(r.try_next(), DecodeOutcome::Produced(Value::from(42)));
        }
    }
    assert_eq!(r.buffered_len(), 0);
    assert_eq!(r.try_next(), DecodeOutcome::Incomplete);
}

#[test]
fn round_trip_various_values() {
    let values = vec![
        Value::Nil,
        Value::from(true),
        Value::from(-7),
        Value::from(0x1_0000_0000u64),
        Value::from("hi"),
        Value::from("a longer string payload to cross the fixstr limit ..."),
        Value::from(vec![1u8, 2, 3].as_slice()),
        Value::from(vec![Value::from(1), Value::from("two"), Value::Nil]),
        Value::from(vec![(Value::from("key"), Value::from(42))]),
    ];
    for v in values {
        let frame = frame_of(&v);
        let mut r = FramedRead::new();
        r.feed(&frame);
        assert_eq!(r.try_next(), DecodeOutcome::Produced(v));
        assert_eq!(r.buffered_len(), 0);
    }
}

#[test]
fn split_at_every_offset() {
    // Any valid frame split into two reads at any byte offset decodes to the
    // same value as one read.
    let v = Value::from(vec![Value::from("hi"), Value::from(1000)]);
    let frame = frame_of(&v);
    for k in 0..=frame.len() {
        let mut r = FramedRead::new();
        r.feed(&frame[..k]);
        let first = r.try_next();
        if k < frame.len() {
            assert_eq!(first, DecodeOutcome::Incomplete);
            r.feed(&frame[k..]);
            assert_eq!(r.try_next(), DecodeOutcome::Produced(v.clone()));
        } else {
            assert_eq!(first, DecodeOutcome::Produced(v.clone()));
        }
        assert_eq!(r.buffered_len(), 0);
    }
}

#[test]
fn truncated_frame_is_unexpected_eof() {
    // A frame cut short at any point yields UnexpectedEof at end-of-input,
    // never a silently wrong value.
    let frame = frame_of(&Value::from("hi"));
    for k in 0..frame.len() {
        let mut r = FramedRead::new();
        r.feed(&frame[..k]);
        assert_eq!(r.try_next(), DecodeOutcome::Incomplete);
        if k == 0 {
            // Nothing buffered at all: a clean end between frames.
            assert_eq!(r.eof_outcome(), EofOutcome::End);
        } else {
            assert_eq!(
                r.eof_outcome(),
                EofOutcome::Failed(FrameError::UnexpectedEof)
            );
        }
    }
}

#[test]
fn zero_length_payload_frame() {
    // A zero-length payload frame is legal at the framing layer: the frame
    // completes and hands the codec an empty payload.
    let mut buf: Vec<u8> = vec![0, 0, 0, 0];
    let mut d = Decoder::new();
    let payload = d.decode_frame(&mut buf).expect("frame is complete");
    assert_eq!(payload, Vec::<u8>::new());
    assert_eq!(buf.len(), 0);

    // The MessagePack codec defines no empty-payload value: it rejects the
    // empty payload, so a full decode reports InvalidPayload.
    let mut buf: Vec<u8> = vec![0, 0, 0, 0];
    let mut d = Decoder::new();
    assert_eq!(
        d.decode(&mut buf),
        DecodeOutcome::Failed(FrameError::InvalidPayload)
    );
}

#[test]
fn invalid_payload_is_fatal() {
    // A complete frame whose payload announces a two-character string but
    // holds only one byte of it: the codec rejects the payload.
    let mut r = FramedRead::new();
    r.feed(&[0, 0, 0, 2, 0xa2, 0x68]);
    assert_eq!(
        r.try_next(),
        DecodeOutcome::Failed(FrameError::InvalidPayload)
    );
}

#[test]
fn trailing_bytes_after_value_are_invalid() {
    // The payload holds two values' worth of bytes; deserialization must
    // consume the whole payload, so this is InvalidPayload.
    let mut r = FramedRead::new();
    r.feed(&[0, 0, 0, 2, 0x2a, 0x2a]);
    assert_eq!(
        r.try_next(),
        DecodeOutcome::Failed(FrameError::InvalidPayload)
    );
}

#[test]
fn large_frame_length_prefix() {
    // A payload past 65535 bytes exercises the upper bytes of the 4-byte
    // big-endian length prefix.
    let blob = vec![7u8; 70000];
    let v = Value::from(blob.as_slice());
    let mut frame: Vec<u8> = Vec::new();
    encode(&v, &mut frame).unwrap();
    // bin32 marker, its own 4-byte length, then the blob: 70005 bytes.
    assert_eq!(frame.len(), 4 + 70005);
    assert_eq!(&frame[..4], &[0x00, 0x01, 0x11, 0x75]);

    let mut r = FramedRead::new();
    r.feed(&frame[..5000]);
    assert_eq!(r.try_next(), DecodeOutcome::Incomplete);
    r.feed(&frame[5000..]);
    assert_eq!(r.try_next(), DecodeOutcome::Produced(v));
}

#[test]
fn two_frames_one_buffer() {
    // Encode 42, append the encode of "hi", feed the combined buffer in one
    // shot: two values in order, then Incomplete on the exhausted buffer.
    let mut wire: Vec<u8> = Vec::new();
    encode(&Value::from(42), &mut wire).unwrap();
    encode(&Value::from("hi"), &mut wire).unwrap();

    let mut t = Framed::new();
    t.feed(&wire);
    assert_eq!(t.try_next(), DecodeOutcome::Produced(Value::from(42)));
    assert_eq!(t.try_next(), DecodeOutcome::Produced(Value::from("hi")));
    assert_eq!(t.try_next(), DecodeOutcome::Incomplete);
    assert_eq!(t.eof_outcome(), EofOutcome::End);
}
