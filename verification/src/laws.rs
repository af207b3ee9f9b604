//! What holds of every collation, proved from the definition of the merge.
//!
//! The definition in [`crate::collation`] says how the result for a query is
//! built up, one shard result after the other. The statements here say what
//! comes out in the end: which shard result decides, and which ones have no
//! say.

use crate::collation::{collated, merged, merged_with, overwritten};
use crate::ledger::{default_result, KeyImageQueryView, KeyImageResultCode, KeyImageResultView};
use crate::priority::should_overwrite;
use vstd::prelude::*;

verus! {

/// `shard` says that `key_image` was spent.
pub open spec fn reports_spent(shard: KeyImageResultView, key_image: Seq<u8>) -> bool {
    shard.key_image == key_image && shard.code() == Some(KeyImageResultCode::Spent)
}

/// `shard` says that it could not tell whether `key_image` was spent.
pub open spec fn reports_error(shard: KeyImageResultView, key_image: Seq<u8>) -> bool {
    shard.key_image == key_image && shard.code() == Some(KeyImageResultCode::KeyImageError)
}

/// A merge never touches the key image of the client's result.
pub proof fn lemma_merged_keeps_key_image(
    client: KeyImageResultView,
    shards: Seq<KeyImageResultView>,
)
    ensures
        merged(client, shards).key_image == client.key_image,
    decreases shards.len(),
{
    if shards.len() > 0 {
        lemma_merged_keeps_key_image(client, shards.drop_last());
    }
}

/// Shard results that report neither a spend nor an error for the client's
/// key image leave the client's result as it was.
pub proof fn lemma_merged_without_report(
    client: KeyImageResultView,
    shards: Seq<KeyImageResultView>,
)
    requires
        forall|k: int|
            0 <= k < shards.len() ==> !reports_spent(#[trigger] shards[k], client.key_image)
                && !reports_error(shards[k], client.key_image),
    ensures
        merged(client, shards) == client,
    decreases shards.len(),
{
    if shards.len() > 0 {
        let earlier = shards.drop_last();
        assert forall|k: int| 0 <= k < earlier.len() implies !reports_spent(
            #[trigger] earlier[k],
            client.key_image,
        ) && !reports_error(earlier[k], client.key_image) by {
            assert(earlier[k] == shards[k]);
        }
        lemma_merged_without_report(client, earlier);
    }
}

/// Among the shard results that report a spend for the client's key image,
/// the last one decides: the merge ends with its report, whatever the client
/// held and whatever else the shards reported.
pub proof fn lemma_merged_last_spent(
    client: KeyImageResultView,
    shards: Seq<KeyImageResultView>,
    j: int,
)
    requires
        0 <= j < shards.len(),
        reports_spent(shards[j], client.key_image),
        forall|k: int|
            j < k < shards.len() ==> !reports_spent(#[trigger] shards[k], client.key_image),
    ensures
        merged(client, shards) == overwritten(client, shards[j]),
    decreases shards.len(),
{
    let earlier = shards.drop_last();
    lemma_merged_keeps_key_image(client, earlier);
    if j < shards.len() - 1 {
        // The deciding result lies among the earlier ones; the last result
        // reports no spend, and an error does not replace a spend.
        assert forall|k: int| j < k < earlier.len() implies !reports_spent(
            #[trigger] earlier[k],
            client.key_image,
        ) by {
            assert(earlier[k] == shards[k]);
        }
        lemma_merged_last_spent(client, earlier, j);
    }
}

/// Where no shard result reports a spend for the client's key image and the
/// client holds not spent, the first shard result that reports an error for
/// it decides: the merge ends with its report.
pub proof fn lemma_merged_first_error(
    client: KeyImageResultView,
    shards: Seq<KeyImageResultView>,
    j: int,
)
    requires
        client.code() == Some(KeyImageResultCode::NotSpent),
        0 <= j < shards.len(),
        reports_error(shards[j], client.key_image),
        forall|k: int|
            0 <= k < j ==> !reports_error(#[trigger] shards[k], client.key_image),
        forall|k: int|
            0 <= k < shards.len() ==> !reports_spent(#[trigger] shards[k], client.key_image),
    ensures
        merged(client, shards) == overwritten(client, shards[j]),
    decreases shards.len(),
{
    let earlier = shards.drop_last();
    lemma_merged_keeps_key_image(client, earlier);
    assert forall|k: int| 0 <= k < earlier.len() implies #[trigger] earlier[k] == shards[k] by {}
    if j == shards.len() - 1 {
        // Nothing before the last result has a say; the last one finds the
        // client still at not spent.
        lemma_merged_without_report(client, earlier);
    } else {
        // The deciding result lies among the earlier ones; the last result
        // reports no spend, and a second error does not replace the first.
        lemma_merged_first_error(client, earlier, j);
    }
}

/// A merge goes by the shard results for the client's own key image and by
/// nothing else: with all the others left out, it ends the same.
pub proof fn lemma_merged_reads_own_key_image(
    client: KeyImageResultView,
    shards: Seq<KeyImageResultView>,
)
    ensures
        merged(client, shards) == merged(
            client,
            shards.filter(|shard: KeyImageResultView| shard.key_image == client.key_image),
        ),
    decreases shards.len(),
{
    let own = |shard: KeyImageResultView| shard.key_image == client.key_image;
    reveal(Seq::filter);
    if shards.len() > 0 {
        let earlier = shards.drop_last();
        let last = shards.last();
        lemma_merged_reads_own_key_image(client, earlier);
        lemma_merged_keeps_key_image(client, earlier);
        if own(last) {
            assert(earlier.filter(own).push(last).drop_last() == earlier.filter(own));
        }
    }
}

/// The collation answers every query, in the order of the queries, and each
/// answer is for the key image of its query.
pub proof fn lemma_collated_answers_each_query(
    queries: Seq<KeyImageQueryView>,
    shards: Seq<KeyImageResultView>,
)
    ensures
        collated(queries, shards).len() == queries.len(),
        forall|i: int|
            0 <= i < queries.len() ==> (#[trigger] collated(queries, shards)[i]).key_image
                == queries[i].key_image,
{
    assert forall|i: int| 0 <= i < queries.len() implies (#[trigger] collated(
        queries,
        shards,
    )[i]).key_image == queries[i].key_image by {
        lemma_merged_keeps_key_image(default_result(queries[i].key_image), shards);
    }
}

/// With no shard results at all, every query gets its default result.
pub proof fn lemma_collated_without_shards(queries: Seq<KeyImageQueryView>, i: int)
    requires
        0 <= i < queries.len(),
    ensures
        collated(queries, Seq::empty())[i] == default_result(queries[i].key_image),
{
}

/// A query whose key image appears in no shard result gets its default
/// result: not spent, in no block, with the timestamp unknown.
pub proof fn lemma_unanswered_query_gets_default(
    queries: Seq<KeyImageQueryView>,
    shards: Seq<KeyImageResultView>,
    i: int,
)
    requires
        0 <= i < queries.len(),
        forall|k: int|
            0 <= k < shards.len() ==> (#[trigger] shards[k]).key_image != queries[i].key_image,
    ensures
        collated(queries, shards)[i] == default_result(queries[i].key_image),
{
    lemma_merged_without_report(default_result(queries[i].key_image), shards);
}

/// A query for which the shards reported nothing but not spent, or codes that
/// stand for nothing, gets its default result as well.
pub proof fn lemma_query_without_report_gets_default(
    queries: Seq<KeyImageQueryView>,
    shards: Seq<KeyImageResultView>,
    i: int,
)
    requires
        0 <= i < queries.len(),
        forall|k: int|
            0 <= k < shards.len() ==> !reports_spent(#[trigger] shards[k], queries[i].key_image)
                && !reports_error(shards[k], queries[i].key_image),
    ensures
        collated(queries, shards)[i] == default_result(queries[i].key_image),
{
    lemma_merged_without_report(default_result(queries[i].key_image), shards);
}

/// Spent wins. If any shard result reports a spend for a query's key image,
/// the query's result says spent, however many other results there are for
/// that key image, whatever they report and wherever they stand.
pub proof fn lemma_spent_wins(
    queries: Seq<KeyImageQueryView>,
    shards: Seq<KeyImageResultView>,
    i: int,
    j: int,
)
    requires
        0 <= i < queries.len(),
        0 <= j < shards.len(),
        reports_spent(shards[j], queries[i].key_image),
    ensures
        collated(queries, shards)[i].code() == Some(KeyImageResultCode::Spent),
        exists|l: int|
            j <= l < shards.len() && reports_spent(#[trigger] shards[l], queries[i].key_image)
                && collated(queries, shards)[i] == overwritten(
                default_result(queries[i].key_image),
                shards[l],
            ),
{
    let key_image = queries[i].key_image;
    let l = last_spent(shards, key_image, j);
    lemma_merged_last_spent(default_result(key_image), shards, l);
}

/// The place of the last shard result at or after `j` that reports a spend
/// for `key_image`.
proof fn last_spent(shards: Seq<KeyImageResultView>, key_image: Seq<u8>, j: int) -> (l: int)
    requires
        0 <= j < shards.len(),
        reports_spent(shards[j], key_image),
    ensures
        j <= l < shards.len(),
        reports_spent(shards[l], key_image),
        forall|k: int| l < k < shards.len() ==> !reports_spent(#[trigger] shards[k], key_image),
    decreases shards.len() - j,
{
    if exists|k: int| j < k < shards.len() && reports_spent(#[trigger] shards[k], key_image) {
        let k = choose|k: int| j < k < shards.len() && reports_spent(
            #[trigger] shards[k],
            key_image,
        );
        last_spent(shards, key_image, k)
    } else {
        j
    }
}

/// Among several reports of a spend for a query's key image, the last one
/// in the order of the shard results gives the query's result its block
/// index, its timestamp and its codes.
pub proof fn lemma_last_spent_decides(
    queries: Seq<KeyImageQueryView>,
    shards: Seq<KeyImageResultView>,
    i: int,
    j: int,
)
    requires
        0 <= i < queries.len(),
        0 <= j < shards.len(),
        reports_spent(shards[j], queries[i].key_image),
        forall|k: int|
            j < k < shards.len() ==> !reports_spent(#[trigger] shards[k], queries[i].key_image),
    ensures
        collated(queries, shards)[i] == overwritten(
            default_result(queries[i].key_image),
            shards[j],
        ),
{
    lemma_merged_last_spent(default_result(queries[i].key_image), shards, j);
}

/// Error outranks not spent. If no shard result reports a spend for a
/// query's key image and at least one reports an error, the query's result
/// says error, and it is the report of one of the shard results that
/// reported the error.
pub proof fn lemma_error_wins_over_not_spent(
    queries: Seq<KeyImageQueryView>,
    shards: Seq<KeyImageResultView>,
    i: int,
    j: int,
)
    requires
        0 <= i < queries.len(),
        0 <= j < shards.len(),
        reports_error(shards[j], queries[i].key_image),
        forall|k: int|
            0 <= k < shards.len() ==> !reports_spent(#[trigger] shards[k], queries[i].key_image),
    ensures
        collated(queries, shards)[i].code() == Some(KeyImageResultCode::KeyImageError),
        exists|l: int|
            0 <= l <= j && reports_error(#[trigger] shards[l], queries[i].key_image)
                && collated(queries, shards)[i] == overwritten(
                default_result(queries[i].key_image),
                shards[l],
            ),
{
    let key_image = queries[i].key_image;
    let l = first_error(shards, key_image, j);
    lemma_merged_first_error(default_result(key_image), shards, l);
}

/// The place of the first shard result at or before `j` that reports an
/// error for `key_image`.
proof fn first_error(shards: Seq<KeyImageResultView>, key_image: Seq<u8>, j: int) -> (l: int)
    requires
        0 <= j < shards.len(),
        reports_error(shards[j], key_image),
    ensures
        0 <= l <= j,
        reports_error(shards[l], key_image),
        forall|k: int| 0 <= k < l ==> !reports_error(#[trigger] shards[k], key_image),
    decreases j,
{
    if exists|k: int| 0 <= k < j && reports_error(#[trigger] shards[k], key_image) {
        let k = choose|k: int| 0 <= k < j && reports_error(#[trigger] shards[k], key_image);
        first_error(shards, key_image, k)
    } else {
        j
    }
}

/// Among several reports of an error for a query's key image, with no report
/// of a spend, the first one in the order of the shard results gives the
/// query's result its block index, its timestamp and its codes.
pub proof fn lemma_first_error_decides(
    queries: Seq<KeyImageQueryView>,
    shards: Seq<KeyImageResultView>,
    i: int,
    j: int,
)
    requires
        0 <= i < queries.len(),
        0 <= j < shards.len(),
        reports_error(shards[j], queries[i].key_image),
        forall|k: int|
            0 <= k < j ==> !reports_error(#[trigger] shards[k], queries[i].key_image),
        forall|k: int|
            0 <= k < shards.len() ==> !reports_spent(#[trigger] shards[k], queries[i].key_image),
    ensures
        collated(queries, shards)[i] == overwritten(
            default_result(queries[i].key_image),
            shards[j],
        ),
{
    lemma_merged_first_error(default_result(queries[i].key_image), shards, j);
}

/// The code of a query's result goes by what was reported for its key image,
/// not by the order of the reports: spent if any shard result reports a
/// spend; else error if any reports an error; else not spent.
pub proof fn lemma_result_code(
    queries: Seq<KeyImageQueryView>,
    shards: Seq<KeyImageResultView>,
    i: int,
)
    requires
        0 <= i < queries.len(),
    ensures
        collated(queries, shards)[i].code() == Some(
            if exists|k: int|
                0 <= k < shards.len() && reports_spent(#[trigger] shards[k], queries[i].key_image) {
                KeyImageResultCode::Spent
            } else if exists|k: int|
                0 <= k < shards.len() && reports_error(#[trigger] shards[k], queries[i].key_image) {
                KeyImageResultCode::KeyImageError
            } else {
                KeyImageResultCode::NotSpent
            },
        ),
{
    let key_image = queries[i].key_image;
    if exists|k: int| 0 <= k < shards.len() && reports_spent(#[trigger] shards[k], key_image) {
        let j = choose|k: int| 0 <= k < shards.len() && reports_spent(
            #[trigger] shards[k],
            key_image,
        );
        lemma_spent_wins(queries, shards, i, j);
    } else if exists|k: int| 0 <= k < shards.len() && reports_error(#[trigger] shards[k], key_image) {
        let j = choose|k: int| 0 <= k < shards.len() && reports_error(
            #[trigger] shards[k],
            key_image,
        );
        lemma_error_wins_over_not_spent(queries, shards, i, j);
    } else {
        lemma_query_without_report_gets_default(queries, shards, i);
    }
}

/// A shard result for one key image never alters the client's result for
/// another.
pub proof fn lemma_other_key_image_alters_nothing(
    client: KeyImageResultView,
    shard: KeyImageResultView,
)
    requires
        shard.key_image != client.key_image,
    ensures
        !should_overwrite(client, shard),
        merged_with(client, shard) == client,
{
}

/// The result for a query depends on the shard results for its own key
/// image alone: the collation of all shard results gives the query what the
/// merge of just those gives it.
pub proof fn lemma_query_reads_own_key_image(
    queries: Seq<KeyImageQueryView>,
    shards: Seq<KeyImageResultView>,
    i: int,
)
    requires
        0 <= i < queries.len(),
    ensures
        collated(queries, shards)[i] == merged(
            default_result(queries[i].key_image),
            shards.filter(|shard: KeyImageResultView| shard.key_image == queries[i].key_image),
        ),
{
    let client = default_result(queries[i].key_image);
    lemma_merged_reads_own_key_image(client, shards);
    assert((|shard: KeyImageResultView| shard.key_image == client.key_image) == (|
        shard: KeyImageResultView,
    | shard.key_image == queries[i].key_image)) by {
        assert((|shard: KeyImageResultView| shard.key_image == client.key_image) =~= (|
            shard: KeyImageResultView,
        | shard.key_image == queries[i].key_image));
    }
}

} // verus!
