use tg_cli::frame::{decode_frame, encode_frame, Decoded, IPC_FRAME_MAX, LENGTH_FIELD_LEN, MAX_FRAME_LEN};

#[test]
fn frame_limits() {
    assert_eq!(IPC_FRAME_MAX, 16 * 1024 * 1024);
    assert_eq!(MAX_FRAME_LEN, IPC_FRAME_MAX);
    assert_eq!(LENGTH_FIELD_LEN, 4);
}

#[test]
fn encode_prefixes_big_endian_length() {
    let out = match encode_frame(b"{\"a\":1}", MAX_FRAME_LEN) {
        Ok(v) => v,
        Err(_) => panic!("refused a small payload"),
    };
    assert_eq!(out, b"\x00\x00\x00\x07{\"a\":1}".to_vec());
}

#[test]
fn encode_long_length_bytes() {
    let payload = vec![7u8; 0x010203];
    let out = match encode_frame(&payload, MAX_FRAME_LEN) {
        Ok(v) => v,
        Err(_) => panic!("refused"),
    };
    assert_eq!(&out[..4], &[0x00, 0x01, 0x02, 0x03]);
    assert_eq!(out.len(), 4 + 0x010203);
}

#[test]
fn encode_empty_payload() {
    let out = match encode_frame(b"", MAX_FRAME_LEN) {
        Ok(v) => v,
        Err(_) => panic!("refused"),
    };
    assert_eq!(out, vec![0u8, 0, 0, 0]);
}

#[test]
fn encode_refuses_oversized_payload() {
    match encode_frame(b"hello", 4) {
        Ok(_) => panic!("accepted an oversized payload"),
        Err(e) => {
            assert_eq!(e.size, 5);
            assert_eq!(e.max, 4);
        }
    }
    assert!(encode_frame(b"hell", 4).is_ok());
}

#[test]
fn decode_roundtrip_with_trailing_bytes() {
    let mut buf = match encode_frame(b"ping", MAX_FRAME_LEN) {
        Ok(v) => v,
        Err(_) => panic!("refused"),
    };
    buf.extend_from_slice(b"\x00\x00");
    match decode_frame(&buf, MAX_FRAME_LEN) {
        Decoded::Frame(p, used) => {
            assert_eq!(p, b"ping".to_vec());
            assert_eq!(used, 8);
        }
        _ => panic!("expected a frame"),
    }
}

#[test]
fn decode_incomplete_prefix_and_body() {
    assert!(matches!(decode_frame(b"", MAX_FRAME_LEN), Decoded::Incomplete));
    assert!(matches!(decode_frame(b"\x00\x00\x00", MAX_FRAME_LEN), Decoded::Incomplete));
    assert!(matches!(decode_frame(b"\x00\x00\x00\x05abc", MAX_FRAME_LEN), Decoded::Incomplete));
}

#[test]
fn decode_too_large() {
    match decode_frame(b"\x01\x00\x00\x01", MAX_FRAME_LEN) {
        Decoded::TooLarge(n) => assert_eq!(n, 0x0100_0001),
        _ => panic!("expected TooLarge"),
    }
    match decode_frame(b"\xff\xff\xff\xff", 10) {
        Decoded::TooLarge(n) => assert_eq!(n, 0xffff_ffff),
        _ => panic!("expected TooLarge"),
    }
}

#[test]
fn decode_frame_at_limit() {
    let mut buf = vec![0u8, 0, 0, 3];
    buf.extend_from_slice(b"xyz");
    match decode_frame(&buf, 3) {
        Decoded::Frame(p, used) => {
            assert_eq!(p, b"xyz".to_vec());
            assert_eq!(used, 7);
        }
        _ => panic!("expected a frame"),
    }
}

#[test]
fn two_frames_decode_in_order() {
    let mut buf = match encode_frame(b"one", MAX_FRAME_LEN) {
        Ok(v) => v,
        Err(_) => panic!("refused"),
    };
    match encode_frame(b"second", MAX_FRAME_LEN) {
        Ok(v) => buf.extend_from_slice(&v),
        Err(_) => panic!("refused"),
    }
    let used = match decode_frame(&buf, MAX_FRAME_LEN) {
        Decoded::Frame(p, used) => {
            assert_eq!(p, b"one".to_vec());
            used
        }
        _ => panic!("expected a frame"),
    };
    match decode_frame(&buf[used..], MAX_FRAME_LEN) {
        Decoded::Frame(p, used2) => {
            assert_eq!(p, b"second".to_vec());
            assert_eq!(used + used2, buf.len());
        }
        _ => panic!("expected a frame"),
    }
}
