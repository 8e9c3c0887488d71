use fluxy::network::protocol::{decode_len, encode_len, Frame, FrameDecoder, FrameError, Message};

fn framed(payload: &[u8]) -> Vec<u8> {
    let mut out = Vec::new();
    Message::write_to(payload, &mut out);
    out
}

#[test]
fn frame_carries_length_prefix_little_endian() {
    assert_eq!(framed(&[1, 2, 3]), vec![3, 0, 0, 0, 1, 2, 3]);
}

#[test]
fn prefix_bytes_are_least_significant_first() {
    assert_eq!(encode_len(0x0403_0201), [1, 2, 3, 4]);
    assert_eq!(encode_len(65536), [0, 0, 1, 0]);
    assert_eq!(decode_len(&[1, 2, 3, 4]), 0x0403_0201);
    assert_eq!(decode_len(&[0xff, 0xff, 0xff, 0xff]), u32::MAX);
}

#[test]
fn write_to_appends_to_what_the_writer_holds() {
    let mut out = vec![7u8];
    Message::write_to(&[9], &mut out);
    assert_eq!(out, vec![7, 1, 0, 0, 0, 9]);
}

#[test]
fn read_from_empty_stream_is_no_message() {
    assert_eq!(Message::read_from(&[]), Ok(None));
}

#[test]
fn read_from_truncated_prefix_is_error() {
    assert_eq!(Message::read_from(&[5]), Err(FrameError::TruncatedPrefix));
    assert_eq!(Message::read_from(&[5, 0, 0]), Err(FrameError::TruncatedPrefix));
}

#[test]
fn read_from_truncated_payload_is_error() {
    assert_eq!(Message::read_from(&[2, 0, 0, 0, 1]), Err(FrameError::TruncatedPayload));
}

#[test]
fn round_trip_of_an_empty_payload() {
    let bytes = framed(&[]);
    assert_eq!(bytes, vec![0, 0, 0, 0]);
    assert_eq!(
        Message::read_from(&bytes),
        Ok(Some(Frame { payload: vec![], consumed: 4 }))
    );
}

#[test]
fn round_trip_of_a_full_chunk() {
    let payload: Vec<u8> = (0..65536u32).map(|i| (i % 251) as u8).collect();
    let bytes = framed(&payload);
    assert_eq!(&bytes[..4], &[0, 0, 1, 0]);
    assert_eq!(
        Message::read_from(&bytes),
        Ok(Some(Frame { payload, consumed: 65540 }))
    );
}

#[test]
fn round_trip_leaves_what_follows_the_frame() {
    let mut bytes = framed(b"first");
    bytes.extend_from_slice(&framed(b"second"));
    let first = Message::read_from(&bytes).unwrap().unwrap();
    assert_eq!(first.payload, b"first".to_vec());
    assert_eq!(first.consumed, 9);
    let second = Message::read_from(&bytes[first.consumed..]).unwrap().unwrap();
    assert_eq!(second.payload, b"second".to_vec());
    assert_eq!(Message::read_from(&bytes[first.consumed + second.consumed..]), Ok(None));
}

#[test]
fn decoder_waits_for_whole_frame() {
    let mut decoder = FrameDecoder::new();
    decoder.feed(&[2, 0, 0, 0, 9]);
    assert_eq!(decoder.next_frame(), None);
    assert_eq!(decoder.pending(), 5);
    decoder.feed(&[8, 1]);
    assert_eq!(decoder.next_frame(), Some(vec![9, 8]));
    assert_eq!(decoder.pending(), 1);
    assert_eq!(decoder.next_frame(), None);
}

#[test]
fn decoder_hands_out_frames_in_order() {
    let mut decoder = FrameDecoder::new();
    let mut bytes = framed(b"a");
    bytes.extend_from_slice(&framed(b""));
    bytes.extend_from_slice(&framed(b"bc"));
    for byte in &bytes {
        decoder.feed(&[*byte]);
    }
    assert_eq!(decoder.next_frame(), Some(b"a".to_vec()));
    assert_eq!(decoder.next_frame(), Some(vec![]));
    assert_eq!(decoder.next_frame(), Some(b"bc".to_vec()));
    assert_eq!(decoder.next_frame(), None);
    assert_eq!(decoder.finish(), Ok(()));
}

#[test]
fn decoder_judges_the_end_of_the_stream() {
    let mut decoder = FrameDecoder::new();
    assert_eq!(decoder.finish(), Ok(()));
    decoder.feed(&[3, 0]);
    assert_eq!(decoder.finish(), Err(FrameError::TruncatedPrefix));
    decoder.feed(&[0, 0, 1]);
    assert_eq!(decoder.finish(), Err(FrameError::TruncatedPayload));
    decoder.feed(&[2, 3]);
    assert_eq!(decoder.finish(), Ok(()));
}
