use dictation::wire::{
    decode_frame, encode_frame, frame_header, payload_len, FrameError, HEADER_LEN, MAX_FRAME_LEN,
    NO_FRAME_LIMIT,
};

fn payload_of(len: usize) -> Vec<u8> {
    (0..len).map(|i| (i * 7 + 3) as u8).collect()
}

#[test]
fn encode_frame_prefixes_the_length() {
    let frame = encode_frame(&[1, 2, 3], NO_FRAME_LIMIT).unwrap();
    assert_eq!(frame, vec![3, 0, 0, 0, 1, 2, 3]);
}

#[test]
fn encode_frame_of_nothing_is_a_bare_header() {
    let frame = encode_frame(&[], NO_FRAME_LIMIT).unwrap();
    assert_eq!(frame, vec![0, 0, 0, 0]);
    assert_eq!(frame.len(), HEADER_LEN);
}

#[test]
fn encode_frame_writes_the_length_least_significant_byte_first() {
    let frame = encode_frame(&payload_of(258), NO_FRAME_LIMIT).unwrap();
    assert_eq!(&frame[..4], &[2, 1, 0, 0]);
    let frame = encode_frame(&payload_of(0x01_02_03), NO_FRAME_LIMIT).unwrap();
    assert_eq!(&frame[..4], &[3, 2, 1, 0]);
    assert_eq!(frame.len(), 4 + 0x01_02_03);
    assert_eq!(&frame[..4], &(0x01_02_03u32).to_le_bytes());
}

#[test]
fn encode_frame_refuses_a_payload_over_the_limit() {
    assert_eq!(encode_frame(&[1, 2, 3], 2), Err(FrameError::TooLarge));
    assert!(encode_frame(&[1, 2, 3], 3).is_ok());
    assert!(encode_frame(&[], 0).is_ok());
}

#[test]
fn decode_frame_gives_back_what_was_encoded() {
    for len in [0usize, 1, 2, 255, 256, 257, 70_000] {
        let payload = payload_of(len);
        let bytes = encode_frame(&payload, MAX_FRAME_LEN).unwrap();
        let frame = decode_frame(&bytes, MAX_FRAME_LEN).unwrap();
        assert_eq!(frame.payload, payload);
        assert_eq!(frame.consumed, len + 4);
    }
}

#[test]
fn decode_frame_fails_on_a_short_header() {
    for bytes in [&[][..], &[5][..], &[5, 0][..], &[5, 0, 0][..]] {
        assert_eq!(decode_frame(bytes, NO_FRAME_LIMIT).err(), Some(FrameError::Truncated));
    }
}

#[test]
fn decode_frame_fails_on_every_cut_of_a_frame() {
    let bytes = encode_frame(&payload_of(40), NO_FRAME_LIMIT).unwrap();
    for keep in 0..bytes.len() {
        assert_eq!(
            decode_frame(&bytes[..keep], NO_FRAME_LIMIT).err(),
            Some(FrameError::Truncated),
            "cut at {}",
            keep
        );
    }
    assert!(decode_frame(&bytes, NO_FRAME_LIMIT).is_ok());
}

#[test]
fn decode_frame_refuses_a_declared_length_over_the_limit() {
    let header = (MAX_FRAME_LEN + 1).to_le_bytes();
    assert_eq!(decode_frame(&header, MAX_FRAME_LEN).err(), Some(FrameError::TooLarge));
    assert_eq!(decode_frame(&header, NO_FRAME_LIMIT).err(), Some(FrameError::Truncated));
    let at_limit = MAX_FRAME_LEN.to_le_bytes();
    assert_eq!(decode_frame(&at_limit, MAX_FRAME_LEN).err(), Some(FrameError::Truncated));
}

#[test]
fn decode_frame_leaves_the_next_frame_alone() {
    let mut stream = encode_frame(b"first", NO_FRAME_LIMIT).unwrap();
    stream.extend(encode_frame(b"second!", NO_FRAME_LIMIT).unwrap());
    let first = decode_frame(&stream, NO_FRAME_LIMIT).unwrap();
    assert_eq!(first.payload, b"first");
    assert_eq!(first.consumed, 9);
    let second = decode_frame(&stream[first.consumed..], NO_FRAME_LIMIT).unwrap();
    assert_eq!(second.payload, b"second!");
    assert_eq!(first.consumed + second.consumed, stream.len());
}

#[test]
fn decode_frame_reads_the_largest_length_bytes() {
    let bytes = [0xFF, 0xFF, 0xFF, 0xFF, 1, 2, 3];
    assert_eq!(decode_frame(&bytes, NO_FRAME_LIMIT).err(), Some(FrameError::Truncated));
    assert_eq!(decode_frame(&bytes, MAX_FRAME_LEN).err(), Some(FrameError::TooLarge));
}

#[test]
fn frame_carries_a_serialized_value() {
    let value = ("StreamAudio".to_string(), vec![1u32, 2, 3], 16000u32);
    let payload = rmp_serde::to_vec(&value).unwrap();
    let bytes = encode_frame(&payload, MAX_FRAME_LEN).unwrap();
    let frame = decode_frame(&bytes, MAX_FRAME_LEN).unwrap();
    let back: (String, Vec<u32>, u32) = rmp_serde::from_slice(&frame.payload).unwrap();
    assert_eq!(back, value);
    let cut = decode_frame(&bytes[..bytes.len() - 1], MAX_FRAME_LEN);
    assert_eq!(cut.err(), Some(FrameError::Truncated));
}

#[test]
fn frame_header_is_the_prefix_of_the_frame() {
    for len in [0usize, 1, 255, 256, 65_536, 1_000_000] {
        let header = frame_header(len, NO_FRAME_LIMIT).unwrap();
        assert_eq!(header, (len as u32).to_le_bytes());
        let frame = encode_frame(&payload_of(len), NO_FRAME_LIMIT).unwrap();
        assert_eq!(&frame[..4], &header);
    }
    assert_eq!(frame_header(0x0403_0201, NO_FRAME_LIMIT), Ok([1, 2, 3, 4]));
}

#[test]
fn frame_header_refuses_a_length_over_the_limit() {
    assert_eq!(frame_header(11, 10), Err(FrameError::TooLarge));
    assert_eq!(frame_header(10, 10), Ok([10, 0, 0, 0]));
    assert_eq!(
        frame_header(MAX_FRAME_LEN as usize + 1, MAX_FRAME_LEN),
        Err(FrameError::TooLarge)
    );
    assert!(frame_header(u32::MAX as usize, NO_FRAME_LIMIT).is_ok());
    assert_eq!(
        frame_header(u32::MAX as usize + 1, NO_FRAME_LIMIT),
        Err(FrameError::TooLarge)
    );
}

#[test]
fn payload_len_reads_what_frame_header_wrote() {
    for len in [0usize, 7, 300, 70_000, MAX_FRAME_LEN as usize] {
        let header = frame_header(len, MAX_FRAME_LEN).unwrap();
        assert_eq!(payload_len(&header, MAX_FRAME_LEN), Ok(len));
    }
    assert_eq!(payload_len(&[1, 2, 3, 4], NO_FRAME_LIMIT), Ok(0x0403_0201));
    assert_eq!(payload_len(&[0xFF; 4], NO_FRAME_LIMIT), Ok(u32::MAX as usize));
}

#[test]
fn payload_len_refuses_a_declared_length_over_the_limit() {
    assert_eq!(payload_len(&[0xFF; 4], MAX_FRAME_LEN), Err(FrameError::TooLarge));
    assert_eq!(payload_len(&[11, 0, 0, 0], 10), Err(FrameError::TooLarge));
    assert_eq!(payload_len(&[10, 0, 0, 0], 10), Ok(10));
}
