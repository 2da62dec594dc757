use m8_bridge::slip::{encode, SlipDecoder, ESC_END, ESC_ESC, FRAME_END, FRAME_ESC, MAX_FRAME};

fn feed_all(dec: &mut SlipDecoder, bytes: &[u8]) -> Vec<Vec<u8>> {
    let mut frames = Vec::new();
    for &b in bytes {
        if let Some(f) = dec.feed(b) {
            frames.push(f);
        }
    }
    frames
}

#[test]
fn encode_appends_end_marker() {
    let payload: Vec<u8> = vec![1, 2, 3];
    let encoded = encode(&payload);
    assert_eq!(encoded, vec![1, 2, 3, FRAME_END]);
}

#[test]
fn encode_escapes_reserved_bytes() {
    let payload: Vec<u8> = vec![FRAME_END, FRAME_ESC];
    let encoded = encode(&payload);
    assert_eq!(
        encoded,
        vec![FRAME_ESC, ESC_END, FRAME_ESC, ESC_ESC, FRAME_END]
    );
}

#[test]
fn round_trip_plain_payload() {
    let payload: Vec<u8> = vec![0xFB, 0x00, 0x7F, 0x10];
    let mut dec = SlipDecoder::new();
    let frames = feed_all(&mut dec, &encode(&payload));
    assert_eq!(frames, vec![payload]);
}

#[test]
fn round_trip_payload_with_markers_and_escapes() {
    let payload: Vec<u8> = vec![FRAME_END, 1, FRAME_ESC, FRAME_END, FRAME_ESC, 0];
    let mut dec = SlipDecoder::new();
    let frames = feed_all(&mut dec, &encode(&payload));
    assert_eq!(frames, vec![payload]);
}

#[test]
fn round_trip_largest_frame() {
    let mut payload: Vec<u8> = Vec::new();
    for i in 0..MAX_FRAME {
        payload.push((i % 256) as u8);
    }
    let mut dec = SlipDecoder::new();
    let frames = feed_all(&mut dec, &encode(&payload));
    assert_eq!(frames.len(), 1);
    assert_eq!(frames[0], payload);
}

#[test]
fn two_frames_in_one_stream() {
    let first: Vec<u8> = vec![10, 20];
    let second: Vec<u8> = vec![30];
    let mut bytes = encode(&first);
    bytes.extend(encode(&second));
    let mut dec = SlipDecoder::new();
    let frames = feed_all(&mut dec, &bytes);
    assert_eq!(frames, vec![first, second]);
}

#[test]
fn incremental_feeding_yields_frame_only_at_end() {
    let payload: Vec<u8> = vec![5, 6, 7];
    let encoded = encode(&payload);
    let mut dec = SlipDecoder::new();
    for (i, &b) in encoded.iter().enumerate() {
        let r = dec.feed(b);
        if i + 1 < encoded.len() {
            assert!(r.is_none());
        } else {
            assert_eq!(r, Some(payload.clone()));
        }
    }
}

#[test]
fn unterminated_escape_is_frame_incomplete() {
    let mut dec = SlipDecoder::new();
    assert!(dec.feed(1).is_none());
    assert!(dec.feed(FRAME_ESC).is_none());
    // the escape is still pending: nothing has been emitted, no panic
    assert_eq!(dec.feed(ESC_END), None);
    assert_eq!(dec.feed(FRAME_END), Some(vec![1, FRAME_END]));
}

#[test]
fn oversized_frame_is_dropped_and_decoding_resumes() {
    let mut big: Vec<u8> = Vec::new();
    for _ in 0..(MAX_FRAME + 1) {
        big.push(0x42);
    }
    let next: Vec<u8> = vec![9, 8, 7];
    let mut bytes = encode(&big);
    bytes.extend(encode(&next));
    let mut dec = SlipDecoder::new();
    let frames = feed_all(&mut dec, &bytes);
    // the oversized frame is gone; the following frame decodes cleanly
    assert_eq!(frames, vec![next]);
}

#[test]
fn empty_frame_is_emitted_empty() {
    let mut dec = SlipDecoder::new();
    assert_eq!(dec.feed(FRAME_END), Some(Vec::new()));
}

#[test]
fn arbitrary_bytes_never_yield_oversized_frames() {
    // a pseudo-random byte soup, fed incrementally
    let mut dec = SlipDecoder::new();
    let mut x: u32 = 0x12345678;
    for _ in 0..20000 {
        x = x.wrapping_mul(1103515245).wrapping_add(12345);
        let b = (x >> 16) as u8;
        if let Some(f) = dec.feed(b) {
            assert!(f.len() <= MAX_FRAME);
        }
    }
}
