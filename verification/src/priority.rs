//! The rule that says when a shard's result takes the place of the result a
//! client holds: spent outranks error, and error outranks not spent.

use crate::ledger::{KeyImageResult, KeyImageResultCode, KeyImageResultView};
use crate::selector::{ct_eq_bytes, ct_eq_u32};
use vstd::prelude::*;

verus! {

impl KeyImageResultView {
    /// The code that the result carries, read from its wire number.
    pub open spec fn code(self) -> Option<KeyImageResultCode> {
        KeyImageResultCode::spec_from_code(self.key_image_result_code)
    }
}

/// Whether `shard` takes the place of `client`.
///
/// It does so only when both speak of the same key image, and then when the
/// shard says spent, whatever the client holds, or when the shard reports an
/// error and the client still holds not spent.
pub open spec fn should_overwrite(client: KeyImageResultView, shard: KeyImageResultView) -> bool {
    let images_match = client.key_image == shard.key_image;
    let shard_is_spent = shard.code() == Some(KeyImageResultCode::Spent);
    let shard_is_error = shard.code() == Some(KeyImageResultCode::KeyImageError);
    let client_is_not_spent = client.code() == Some(KeyImageResultCode::NotSpent);
    images_match && (shard_is_spent || (shard_is_error && client_is_not_spent))
}

/// Decides whether `shard_key_image_search_result` takes the place of
/// `client_key_image_search_result`.
///
/// Every comparison is made in constant time and all of them are made on
/// every call. Each answer is a byte that is 0 or 1, and the answers are
/// combined bit by bit, so that no step depends on what an earlier one found.
pub fn should_overwrite_key_image_search_result(
    client_key_image_search_result: &KeyImageResult,
    shard_key_image_search_result: &KeyImageResult,
) -> (overwrite: bool)
    ensures
        overwrite == should_overwrite(
            client_key_image_search_result@,
            shard_key_image_search_result@,
        ),
{
    let do_key_images_match: u8 = ct_eq_bytes(
        client_key_image_search_result.key_image.as_bytes(),
        shard_key_image_search_result.key_image.as_bytes(),
    );

    let client_code_is_not_spent: u8 = ct_eq_u32(
        client_key_image_search_result.key_image_result_code,
        KeyImageResultCode::NotSpent.code(),
    );
    let shard_code_is_spent: u8 = ct_eq_u32(
        shard_key_image_search_result.key_image_result_code,
        KeyImageResultCode::Spent.code(),
    );
    let shard_code_is_error: u8 = ct_eq_u32(
        shard_key_image_search_result.key_image_result_code,
        KeyImageResultCode::KeyImageError.code(),
    );

    let combined: u8 = do_key_images_match & (shard_code_is_spent | (shard_code_is_error
        & client_code_is_not_spent));
    assert(combined != 0 <==> do_key_images_match == 1 && (shard_code_is_spent == 1 || (
    shard_code_is_error == 1 && client_code_is_not_spent == 1))) by (bit_vector)
        requires
            do_key_images_match <= 1,
            shard_code_is_spent <= 1,
            shard_code_is_error <= 1,
            client_code_is_not_spent <= 1,
            combined == do_key_images_match & (shard_code_is_spent | (shard_code_is_error
                & client_code_is_not_spent)),
    ;
    combined != 0
}

} // verus!
