use ledger_collation::ledger::{
    KeyImage, KeyImageQuery, KeyImageResult, KeyImageResultCode, TimestampResultCode,
    KEY_IMAGE_LEN, SPENT_AT_NOT_LOCATED, TIMESTAMP_UNKNOWN,
};

#[test]
fn key_image_result_codes_on_the_wire() {
    assert_eq!(KeyImageResultCode::Spent.code(), 1);
    assert_eq!(KeyImageResultCode::NotSpent.code(), 2);
    assert_eq!(KeyImageResultCode::KeyImageError.code(), 3);
}

#[test]
fn key_image_result_codes_read_back() {
    assert_eq!(KeyImageResultCode::from_code(0), None);
    assert_eq!(KeyImageResultCode::from_code(1), Some(KeyImageResultCode::Spent));
    assert_eq!(KeyImageResultCode::from_code(2), Some(KeyImageResultCode::NotSpent));
    assert_eq!(
        KeyImageResultCode::from_code(3),
        Some(KeyImageResultCode::KeyImageError)
    );
    assert_eq!(KeyImageResultCode::from_code(4), None);
    assert_eq!(KeyImageResultCode::from_code(u32::MAX), None);
    for code in [
        KeyImageResultCode::Spent,
        KeyImageResultCode::NotSpent,
        KeyImageResultCode::KeyImageError,
    ] {
        assert_eq!(KeyImageResultCode::from_code(code.code()), Some(code));
    }
}

#[test]
fn timestamp_result_codes_on_the_wire() {
    assert_eq!(TimestampResultCode::TimestampFound.code(), 1);
    assert_eq!(TimestampResultCode::WatcherBehind.code(), 2);
    assert_eq!(TimestampResultCode::Unavailable.code(), 3);
    assert_eq!(TimestampResultCode::WatcherDatabaseError.code(), 4);
    assert_eq!(TimestampResultCode::BlockIndexOutOfBounds.code(), 5);
}

#[test]
fn timestamp_result_codes_read_back() {
    assert_eq!(TimestampResultCode::from_code(0), None);
    assert_eq!(TimestampResultCode::from_code(6), None);
    for code in [
        TimestampResultCode::TimestampFound,
        TimestampResultCode::WatcherBehind,
        TimestampResultCode::Unavailable,
        TimestampResultCode::WatcherDatabaseError,
        TimestampResultCode::BlockIndexOutOfBounds,
    ] {
        assert_eq!(TimestampResultCode::from_code(code.code()), Some(code));
    }
}

#[test]
fn key_image_holds_its_bytes() {
    assert_eq!(KEY_IMAGE_LEN, 32);
    let mut bytes = [0u8; 32];
    for (at, byte) in bytes.iter_mut().enumerate() {
        *byte = at as u8;
    }
    let key_image = KeyImage::new(bytes);
    assert_eq!(key_image.bytes, bytes);
    assert_eq!(key_image.as_bytes(), &bytes[..]);
    assert_eq!(key_image.as_bytes().len(), 32);
}

#[test]
fn default_result_of_a_query() {
    let key_image = KeyImage::new([3u8; 32]);
    let result = KeyImageResult::default_for(&KeyImageQuery { key_image });
    assert_eq!(SPENT_AT_NOT_LOCATED, 1);
    assert_eq!(TIMESTAMP_UNKNOWN, u64::MAX);
    assert_eq!(
        result,
        KeyImageResult {
            key_image,
            spent_at: 1,
            timestamp: u64::MAX,
            timestamp_result_code: 1,
            key_image_result_code: 2,
        }
    );
    assert_eq!(
        KeyImageResultCode::from_code(result.key_image_result_code),
        Some(KeyImageResultCode::NotSpent)
    );
    assert_eq!(
        TimestampResultCode::from_code(result.timestamp_result_code),
        Some(TimestampResultCode::TimestampFound)
    );
}
