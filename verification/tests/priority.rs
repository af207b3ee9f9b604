use ledger_collation::ledger::{KeyImage, KeyImageResult, KeyImageResultCode, TimestampResultCode};
use ledger_collation::priority::should_overwrite_key_image_search_result;

fn key_image_from(n: u64) -> KeyImage {
    let mut bytes = [0u8; 32];
    bytes[..8].copy_from_slice(&n.to_le_bytes());
    KeyImage::new(bytes)
}

fn result(key_image: KeyImage, code: u32) -> KeyImageResult {
    KeyImageResult {
        key_image,
        spent_at: 1,
        timestamp: 123456,
        timestamp_result_code: TimestampResultCode::TimestampFound.code(),
        key_image_result_code: code,
    }
}

#[test]
fn should_overwrite_tests() {
    // Images don't match
    let client_result = KeyImageResult {
        key_image: key_image_from(123456),
        spent_at: 1,
        timestamp: 123456,
        timestamp_result_code: TimestampResultCode::TimestampFound.code(),
        key_image_result_code: KeyImageResultCode::NotSpent.code(),
    };
    let shard_result = KeyImageResult {
        key_image: key_image_from(654321),
        spent_at: 1,
        timestamp: 123456,
        timestamp_result_code: TimestampResultCode::TimestampFound.code(),
        key_image_result_code: KeyImageResultCode::Spent.code(),
    };
    assert!(!should_overwrite_key_image_search_result(
        &client_result,
        &shard_result
    ));
}

#[test]
fn spent_overwrites_whatever_the_client_holds() {
    let key_image = key_image_from(7);
    let shard = result(key_image, KeyImageResultCode::Spent.code());
    for client_code in [
        KeyImageResultCode::NotSpent.code(),
        KeyImageResultCode::Spent.code(),
        KeyImageResultCode::KeyImageError.code(),
        0,
        99,
    ] {
        let client = result(key_image, client_code);
        assert!(should_overwrite_key_image_search_result(&client, &shard));
    }
}

#[test]
fn error_overwrites_not_spent_only() {
    let key_image = key_image_from(7);
    let shard = result(key_image, KeyImageResultCode::KeyImageError.code());
    assert!(should_overwrite_key_image_search_result(
        &result(key_image, KeyImageResultCode::NotSpent.code()),
        &shard
    ));
    assert!(!should_overwrite_key_image_search_result(
        &result(key_image, KeyImageResultCode::Spent.code()),
        &shard
    ));
    assert!(!should_overwrite_key_image_search_result(
        &result(key_image, KeyImageResultCode::KeyImageError.code()),
        &shard
    ));
    assert!(!should_overwrite_key_image_search_result(
        &result(key_image, 0),
        &shard
    ));
}

#[test]
fn not_spent_overwrites_nothing() {
    let key_image = key_image_from(7);
    let shard = result(key_image, KeyImageResultCode::NotSpent.code());
    for client_code in [
        KeyImageResultCode::NotSpent.code(),
        KeyImageResultCode::Spent.code(),
        KeyImageResultCode::KeyImageError.code(),
    ] {
        let client = result(key_image, client_code);
        assert!(!should_overwrite_key_image_search_result(&client, &shard));
    }
}

#[test]
fn a_code_that_stands_for_nothing_overwrites_nothing() {
    let key_image = key_image_from(7);
    for shard_code in [0, 4, 5, u32::MAX] {
        let shard = result(key_image, shard_code);
        let client = result(key_image, KeyImageResultCode::NotSpent.code());
        assert!(!should_overwrite_key_image_search_result(&client, &shard));
    }
}

#[test]
fn other_key_image_overwrites_nothing_whatever_it_reports() {
    let client = result(key_image_from(1), KeyImageResultCode::NotSpent.code());
    for shard_code in [
        KeyImageResultCode::Spent.code(),
        KeyImageResultCode::KeyImageError.code(),
        KeyImageResultCode::NotSpent.code(),
    ] {
        let shard = result(key_image_from(2), shard_code);
        assert!(!should_overwrite_key_image_search_result(&client, &shard));
    }
}

#[test]
fn key_images_are_compared_in_every_byte() {
    let code = KeyImageResultCode::Spent.code();
    let base = [9u8; 32];
    let client = result(KeyImage::new(base), KeyImageResultCode::NotSpent.code());
    assert!(should_overwrite_key_image_search_result(
        &client,
        &result(KeyImage::new(base), code)
    ));
    for at in 0..32 {
        let mut other = base;
        other[at] ^= 0x80;
        assert!(!should_overwrite_key_image_search_result(
            &client,
            &result(KeyImage::new(other), code)
        ));
    }
}
