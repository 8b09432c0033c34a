use build_executor::codec::{declared_length, frame, unframe, FramingError, DEFAULT_PORT, PREFIX_LEN};

#[test]
fn a_frame_is_read_back_whatever_follows_it() {
    let uuid = uuid::Uuid::new_v4();
    let payload = format!("{{\"uuid\":\"{}\",\"type\":\"LowLevelError\"}}", uuid);

    let mut bytes_over_wire = frame(payload.as_bytes()).unwrap();
    bytes_over_wire.extend_from_slice("Polluting the buffer with extra bytes.".as_bytes());

    // Read the frame by hand.
    {
        let len = u32::from_be_bytes([
            bytes_over_wire[0],
            bytes_over_wire[1],
            bytes_over_wire[2],
            bytes_over_wire[3],
        ]) as usize;
        let buf = bytes_over_wire[4..4 + len].to_vec();

        assert_eq!(buf.len(), len);
        assert_eq!(String::from_utf8(buf).unwrap(), payload);
    }

    // Read the frame with the codec.
    {
        let (read, used) = unframe(&bytes_over_wire).unwrap();
        assert_eq!(String::from_utf8(read).unwrap(), payload);
        assert_eq!(used, 4 + payload.len());
    }
}

#[test]
fn the_length_prefix_is_big_endian() {
    let payload = vec![0xabu8; 0x0102];
    let bytes = frame(&payload).unwrap();
    assert_eq!(&bytes[..4], &[0x00, 0x00, 0x01, 0x02]);
    assert_eq!(&bytes[4..], &payload[..]);
    assert_eq!(declared_length(&bytes), Some(0x0102));
    assert_eq!(declared_length(&[0x01, 0x02, 0x03, 0x04]), Some(0x0102_0304));
    assert_eq!(declared_length(&[0xff, 0xff, 0xff, 0xff, 0x00]), Some(u32::MAX));
    assert_eq!(PREFIX_LEN, 4);
}

#[test]
fn an_empty_payload_is_a_frame_of_four_bytes() {
    let bytes = frame(&[]).unwrap();
    assert_eq!(bytes, vec![0u8, 0, 0, 0]);
    assert_eq!(unframe(&bytes), Ok((vec![], 4)));
}

#[test]
fn a_frame_that_ends_early_is_a_framing_error() {
    assert_eq!(unframe(&[]), Err(FramingError::Truncated));
    assert_eq!(unframe(&[0, 0, 0]), Err(FramingError::Truncated));
    assert_eq!(declared_length(&[0, 0, 0]), None);
    assert_eq!(unframe(&[0, 0, 0, 5, 1, 2, 3, 4]), Err(FramingError::Truncated));
    assert_eq!(unframe(&[0, 0, 0, 5, 1, 2, 3, 4, 5]), Ok((vec![1, 2, 3, 4, 5], 9)));
}

#[test]
fn frames_follow_each_other_on_the_wire() {
    let mut wire = frame(b"first").unwrap();
    wire.extend(frame(b"second!").unwrap());
    let (a, used) = unframe(&wire).unwrap();
    assert_eq!(a, b"first");
    let (b, used_b) = unframe(&wire[used..]).unwrap();
    assert_eq!(b, b"second!");
    assert_eq!(used + used_b, wire.len());
}

#[test]
fn the_default_port() {
    assert_eq!(DEFAULT_PORT, 6969);
}
