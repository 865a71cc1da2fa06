use native_host::framing::{FrameRead, decode_prefix, encode_frame, encode_prefix, read_frame_at};

#[test]
fn prefix_is_little_endian() {
    let p = encode_prefix(0x0102_0304);
    assert_eq!(p, vec![0x04, 0x03, 0x02, 0x01]);
    assert_eq!(decode_prefix(&p), 0x0102_0304);
}

#[test]
fn prefix_round_trip_small_and_large() {
    for n in [0u32, 1, 255, 256, 65536, u32::MAX] {
        assert_eq!(decode_prefix(&encode_prefix(n)), n);
    }
}

#[test]
fn frame_round_trip_yields_equal_payload() {
    let payload = b"{\"action\":\"ping\"}".to_vec();
    let frame = encode_frame(&payload);
    assert_eq!(frame.len(), 4 + payload.len());
    match read_frame_at(&frame, 0) {
        FrameRead::Message { payload: got, next } => {
            assert_eq!(got, payload);
            assert_eq!(next, frame.len());
        }
        FrameRead::EndOfStream => panic!("a whole frame must decode"),
    }
}

#[test]
fn empty_payload_frame_round_trips() {
    let payload: Vec<u8> = Vec::new();
    let frame = encode_frame(&payload);
    assert_eq!(frame, vec![0, 0, 0, 0]);
    match read_frame_at(&frame, 0) {
        FrameRead::Message { payload: got, next } => {
            assert_eq!(got, payload);
            assert_eq!(next, 4);
        }
        FrameRead::EndOfStream => panic!("the empty frame must decode"),
    }
}

#[test]
fn short_prefix_reads_as_end_of_stream() {
    for k in 0..4 {
        let stream = vec![9u8; k];
        assert!(matches!(read_frame_at(&stream, 0), FrameRead::EndOfStream));
    }
}

#[test]
fn truncated_payload_reads_as_end_of_stream() {
    let payload = b"hello".to_vec();
    let frame = encode_frame(&payload);
    for k in 0..frame.len() {
        let truncated = frame[..k].to_vec();
        assert!(matches!(read_frame_at(&truncated, 0), FrameRead::EndOfStream));
    }
}

#[test]
fn two_frames_decode_in_sequence() {
    let first = b"one".to_vec();
    let second = b"second!".to_vec();
    let mut stream = encode_frame(&first);
    stream.extend_from_slice(&encode_frame(&second));
    let next = match read_frame_at(&stream, 0) {
        FrameRead::Message { payload, next } => {
            assert_eq!(payload, first);
            next
        }
        FrameRead::EndOfStream => panic!("first frame must decode"),
    };
    match read_frame_at(&stream, next) {
        FrameRead::Message { payload, next } => {
            assert_eq!(payload, second);
            assert_eq!(next, stream.len());
        }
        FrameRead::EndOfStream => panic!("second frame must decode"),
    }
}
