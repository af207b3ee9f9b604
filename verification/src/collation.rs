//! Merging the shards' results into one result for each query.

use crate::ledger::{
    default_result, KeyImageQuery, KeyImageQueryView, KeyImageResult, KeyImageResultView,
};
use crate::priority::{should_overwrite, should_overwrite_key_image_search_result};
use crate::selector::{cmov_u32, cmov_u64};
use vstd::prelude::*;

verus! {

/// `client` with what `shard` reports in place of its own report. The key
/// image stays the client's.
pub open spec fn overwritten(
    client: KeyImageResultView,
    shard: KeyImageResultView,
) -> KeyImageResultView {
    KeyImageResultView {
        key_image: client.key_image,
        spent_at: shard.spent_at,
        timestamp: shard.timestamp,
        timestamp_result_code: shard.timestamp_result_code,
        key_image_result_code: shard.key_image_result_code,
    }
}

/// What `client` becomes once `shard` has been looked at.
pub open spec fn merged_with(
    client: KeyImageResultView,
    shard: KeyImageResultView,
) -> KeyImageResultView {
    if should_overwrite(client, shard) {
        overwritten(client, shard)
    } else {
        client
    }
}

/// What `client` becomes once every result in `shards` has been looked at,
/// the first one first.
pub open spec fn merged(
    client: KeyImageResultView,
    shards: Seq<KeyImageResultView>,
) -> KeyImageResultView
    decreases shards.len(),
{
    if shards.len() == 0 {
        client
    } else {
        merged_with(merged(client, shards.drop_last()), shards.last())
    }
}

/// The results that the client gets for `queries` when the shards have
/// reported `shards`: one for each query, in the order of the queries, each
/// the default for its query merged with all that the shards reported.
pub open spec fn collated(
    queries: Seq<KeyImageQueryView>,
    shards: Seq<KeyImageResultView>,
) -> Seq<KeyImageResultView> {
    Seq::new(queries.len(), |i: int| merged(default_result(queries[i].key_image), shards))
}

/// Looks at one shard result on behalf of one client result, and takes the
/// shard's report over where the priority rule says so.
///
/// Each of the four fields of the report is moved by a constant-time
/// selection under the same condition, whether or not the condition holds.
pub fn maybe_overwrite_key_image_search_result(
    client_key_image_search_result: &mut KeyImageResult,
    shard_key_image_search_result: &KeyImageResult,
)
    ensures
        final(client_key_image_search_result)@ == merged_with(
            old(client_key_image_search_result)@,
            shard_key_image_search_result@,
        ),
        final(client_key_image_search_result).key_image == old(
            client_key_image_search_result,
        ).key_image,
{
    let should_overwrite_key_image_search_result = should_overwrite_key_image_search_result(
        client_key_image_search_result,
        shard_key_image_search_result,
    );

    cmov_u32(
        &mut client_key_image_search_result.key_image_result_code,
        should_overwrite_key_image_search_result,
        &shard_key_image_search_result.key_image_result_code,
    );

    cmov_u64(
        &mut client_key_image_search_result.spent_at,
        should_overwrite_key_image_search_result,
        &shard_key_image_search_result.spent_at,
    );

    cmov_u64(
        &mut client_key_image_search_result.timestamp,
        should_overwrite_key_image_search_result,
        &shard_key_image_search_result.timestamp,
    );

    cmov_u32(
        &mut client_key_image_search_result.timestamp_result_code,
        should_overwrite_key_image_search_result,
        &shard_key_image_search_result.timestamp_result_code,
    );
}

/// Merges the results that the shards reported into one result for each of
/// the client's queries.
///
/// The results come back in the order of the queries, each with the key image
/// of its query. Every shard result is held against every query, whatever
/// either of them holds, so the work done depends only on how many queries
/// and shard results there are.
pub fn collate_shard_key_image_search_results(
    client_queries: Vec<KeyImageQuery>,
    shard_key_image_search_results: Vec<KeyImageResult>,
) -> (client_key_image_search_results: Vec<KeyImageResult>)
    ensures
        client_key_image_search_results.deep_view() == collated(
            client_queries.deep_view(),
            shard_key_image_search_results.deep_view(),
        ),
        client_key_image_search_results@.len() == client_queries@.len(),
        forall|i: int|
            0 <= i < client_queries@.len()
                ==> #[trigger] client_key_image_search_results@[i].key_image
                == client_queries@[i].key_image,
{
    let ghost queries = client_queries.deep_view();
    let ghost shards = shard_key_image_search_results.deep_view();

    let mut client_key_image_search_results: Vec<KeyImageResult> = Vec::new();
    let mut next_query: usize = 0;
    while next_query < client_queries.len()
        invariant
            next_query <= client_queries@.len(),
            client_key_image_search_results@.len() == next_query,
            forall|i: int|
                0 <= i < next_query ==> {
                    &&& #[trigger] client_key_image_search_results@[i].key_image
                        == client_queries@[i].key_image
                    &&& client_key_image_search_results@[i]@ == default_result(
                        client_queries@[i]@.key_image,
                    )
                },
        decreases client_queries@.len() - next_query,
    {
        client_key_image_search_results.push(
            KeyImageResult::default_for(&client_queries[next_query]),
        );
        next_query += 1;
    }

    let mut next_shard: usize = 0;
    while next_shard < shard_key_image_search_results.len()
        invariant
            shards == shard_key_image_search_results.deep_view(),
            next_shard <= shard_key_image_search_results@.len(),
            client_key_image_search_results@.len() == client_queries@.len(),
            forall|i: int|
                0 <= i < client_queries@.len() ==> {
                    &&& #[trigger] client_key_image_search_results@[i].key_image
                        == client_queries@[i].key_image
                    &&& client_key_image_search_results@[i]@ == merged(
                        default_result(client_queries@[i]@.key_image),
                        shards.take(next_shard as int),
                    )
                },
        decreases shard_key_image_search_results@.len() - next_shard,
    {
        let shard_key_image_search_result = &shard_key_image_search_results[next_shard];
        proof {
            let seen = shards.take(next_shard + 1);
            assert(seen.drop_last() == shards.take(next_shard as int));
            assert(seen.last() == shard_key_image_search_result@);
        }
        let mut next_client: usize = 0;
        while next_client < client_key_image_search_results.len()
            invariant
                next_shard < shard_key_image_search_results@.len(),
                shards == shard_key_image_search_results.deep_view(),
                shards.take(next_shard + 1).drop_last() == shards.take(next_shard as int),
                shards.take(next_shard + 1).last() == shard_key_image_search_result@,
                next_client <= client_key_image_search_results@.len(),
                client_key_image_search_results@.len() == client_queries@.len(),
                forall|i: int|
                    0 <= i < client_queries@.len() ==> {
                        &&& #[trigger] client_key_image_search_results@[i].key_image
                            == client_queries@[i].key_image
                        &&& client_key_image_search_results@[i]@ == merged(
                            default_result(client_queries@[i]@.key_image),
                            shards.take(
                                if i < next_client {
                                    next_shard + 1
                                } else {
                                    next_shard as int
                                },
                            ),
                        )
                    },
            decreases client_key_image_search_results@.len() - next_client,
        {
            maybe_overwrite_key_image_search_result(
                &mut client_key_image_search_results[next_client],
                shard_key_image_search_result,
            );
            next_client += 1;
        }
        next_shard += 1;
    }

    proof {
        assert(shards.take(shards.len() as int) == shards);
        assert(client_key_image_search_results.deep_view() =~= collated(queries, shards));
    }
    client_key_image_search_results
}

} // verus!
