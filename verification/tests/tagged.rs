use build_executor::build_status::BuildStatus;
use build_executor::tagged::Tagged;

#[test]
fn fork_keeps_the_identifier_and_replaces_the_payload() {
    let first = Tagged { uuid: 0x1234_5678_9abc_def0_1122_3344_5566_7788, inner: 7u32 };
    let forked = first.fork("payload");
    assert_eq!(forked.uuid, first.uuid);
    assert_eq!(forked.inner, "payload");
    assert_eq!(first.inner, 7);
}

#[test]
fn fork_of_a_fork_still_carries_the_first_identifier() {
    let first = Tagged::new(());
    let status = first.fork(1u8).fork(BuildStatus::LowLevelError);
    assert_eq!(status.uuid, first.uuid);
    assert!(matches!(status.inner, BuildStatus::LowLevelError));
}

#[test]
fn new_wraps_the_payload_under_a_fresh_identifier() {
    let a = Tagged::new(5u8);
    let b = Tagged::new(5u8);
    assert_eq!(a.inner, 5);
    assert_ne!(a.uuid, b.uuid);
    assert_eq!(uuid::Uuid::from_u128(a.uuid).get_version_num(), 4);
    for tagged in [&a, &b] {
        assert_eq!((tagged.uuid >> 76) & 0xf, 4);
        assert_eq!((tagged.uuid >> 62) & 0x3, 2);
        assert_eq!(tagged.uuid / 0x1000_0000_0000_0000_0000 % 0x10, 4);
        assert_eq!(tagged.uuid / 0x4000_0000_0000_0000 % 4, 2);
    }
}

#[test]
fn tagged_dereferences_to_its_payload() {
    let tagged = Tagged::new(String::from("abc"));
    assert_eq!(tagged.len(), 3);
    assert_eq!(*tagged, "abc");
}

#[test]
fn the_identifier_is_written_hyphenated_in_lower_case() {
    let tagged = Tagged { uuid: 0x1234_5678_9ABC_DEF0_1122_3344_5566_7788, inner: () };
    assert_eq!(tagged.identifier(), "12345678-9abc-def0-1122-334455667788");
    let zero = Tagged { uuid: 0, inner: () };
    assert_eq!(zero.identifier(), "00000000-0000-0000-0000-000000000000");
}
