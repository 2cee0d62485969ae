use nautilus_common::uuid::UUID4;

#[test]
fn test_uuid_hyphenated_text() {
    let u = UUID4::from_u128(0x12345678_9abc_def0_1234_56789abcdef0);
    assert_eq!(u.to_text().as_str(), "12345678-9abc-def0-1234-56789abcdef0");
}

#[test]
fn test_uuid_text_zero_padded() {
    let u = UUID4::from_u128(0x42);
    assert_eq!(u.to_text().as_str(), "00000000-0000-0000-0000-000000000042");
}

#[test]
fn test_uuid_text_all_bits_set() {
    let u = UUID4::from_u128(u128::MAX);
    assert_eq!(u.to_text().as_str(), "ffffffff-ffff-ffff-ffff-ffffffffffff");
}

#[test]
fn test_uuid_copies_by_value() {
    let a = UUID4::from_u128(9);
    let b = a;
    assert_eq!(a, b);
    assert_eq!(b.value, 9);
}
