use build_executor::encoding::Base64Encoded;

#[test]
fn base64_read_to_buf() {
    let b64 = Base64Encoded::create("test".as_ref());

    let read = b64.read_to_buffer().unwrap();
    assert_eq!(String::from_utf8(read).unwrap(), "test");
}

#[test]
fn base64_write_to_stream() {
    let b64 = Base64Encoded::create("test".as_ref());

    let mut buf = vec![];
    b64.write_to(&mut buf).unwrap();
    assert_eq!(String::from_utf8(buf).unwrap(), "test");
}

#[test]
fn base64_write_appends_after_what_is_there() {
    let b64 = Base64Encoded::create(&[1u8, 2, 3]);
    let mut buf = vec![9u8];
    b64.write_to(&mut buf).unwrap();
    assert_eq!(buf, vec![9u8, 1, 2, 3]);
}

#[test]
fn base64_text_is_standard_and_padded() {
    let b64 = Base64Encoded::create("test".as_bytes());
    assert_eq!(b64.0, "dGVzdA==");
    assert_eq!(Base64Encoded::create(b"").0, "");
    assert_eq!(Base64Encoded::create(b"console.log(1)").0, "Y29uc29sZS5sb2coMSk=");
}

#[test]
fn base64_round_trip_keeps_every_byte() {
    let all: Vec<u8> = (0..=255u8).collect();
    let b64 = Base64Encoded::create(&all);
    assert_eq!(b64.read_to_buffer().unwrap(), all);
}

#[test]
fn invalid_base64_is_rejected() {
    let bad = Base64Encoded("not base64!".to_string());
    assert!(bad.read_to_buffer().is_err());
    let mut buf = vec![7u8];
    assert!(bad.write_to(&mut buf).is_err());
    assert_eq!(buf, vec![7u8]);
}
