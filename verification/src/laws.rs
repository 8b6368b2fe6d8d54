//! What holds of the operations taken together.

use crate::accounts::Registry;
use crate::error::Error;
use crate::instructions::bid::{
    bid_applied, bid_failure, lemma_fields_after_bid, lemma_settlement_sums, settlement,
    standing_overbid, Bid, MIN_INCREMENT,
};
use crate::instructions::initialize::{initialize_outcome, Initialize};
use crate::instructions::redeem::{
    recorded_owner, redeem_applied, redeem_failure, redeemable, Redeem,
};
use crate::state::{
    holds, item_index, lemma_points_within_total, lemma_total_credited, lemma_total_redeemed,
    total_points,
};
use vstd::prelude::*;

verus! {

/// A successful bid raises the standing bid that the item's metadata
/// records by the minimum increment at the least: what is read back after
/// the bid is the bid, and the bid was that much above what was read before.
pub proof fn law_monotonic_overbid(pre: Bid, post: Bid, amount: u64, bidder: Seq<char>)
    requires
        bid_failure(pre, amount) is None,
        bid_applied(pre, post, amount, bidder),
    ensures
        standing_overbid(pre.mint_account.metadata) is Ok,
        standing_overbid(post.mint_account.metadata) == Ok::<u64, Error>(amount),
        amount >= standing_overbid(pre.mint_account.metadata)->Ok_0 + MIN_INCREMENT,
        recorded_owner(post.mint_account.metadata) == Some(bidder),
{
    lemma_fields_after_bid(pre.mint_account.metadata->Some_0@.fields, amount, bidder);
}

/// A successful bid makes and loses nothing: the bidder pays exactly the
/// bid, and what the escrow and the previous holder gain is together exactly
/// what the bidder pays. The previous holder gains the former standing bid
/// and the remainder of the division; the escrow gains the rest.
pub proof fn law_bid_conserves(pre: Bid, post: Bid, amount: u64, bidder: Seq<char>)
    requires
        bid_failure(pre, amount) is None,
        bid_applied(pre, post, amount, bidder),
    ensures
        pre.payer.lamports - post.payer.lamports == amount,
        (post.authority.lamports - pre.authority.lamports) + (post.owner.lamports
            - pre.owner.lamports) == amount,
        post.owner.lamports - pre.owner.lamports == standing_overbid(
            pre.mint_account.metadata,
        )->Ok_0 + (amount - standing_overbid(pre.mint_account.metadata)->Ok_0) % (
        pre.authority.collection.items@.len() as int),
        post.payer.lamports + post.owner.lamports + post.authority.lamports == pre.payer.lamports
            + pre.owner.lamports + pre.authority.lamports,
{
    let overbid = standing_overbid(pre.mint_account.metadata)->Ok_0;
    lemma_settlement_sums(overbid, amount, pre.authority.collection.items@.len());
}

/// A successful bid gives every item of the registry the same share: the
/// whole quotient of the increase by the number of items. No item is added,
/// removed or renamed. The total of the points rises by the share times the
/// number of items, which is the increase less the remainder of the
/// division, and which is what the escrow gains.
pub proof fn law_bid_distributes(pre: Bid, post: Bid, amount: u64, bidder: Seq<char>)
    requires
        bid_failure(pre, amount) is None,
        bid_applied(pre, post, amount, bidder),
    ensures
        post.authority.collection.items@.len() == pre.authority.collection.items@.len(),
        forall|i: int|
            0 <= i < pre.authority.collection.items@.len() ==> {
                &&& (#[trigger] post.authority.collection.items@[i]).mint
                    == pre.authority.collection.items@[i].mint
                &&& post.authority.collection.items@[i].points
                    == pre.authority.collection.items@[i].points + (amount - standing_overbid(
                    pre.mint_account.metadata,
                )->Ok_0) / (pre.authority.collection.items@.len() as int)
            },
        total_points(post.authority.collection.items@) - total_points(
            pre.authority.collection.items@,
        ) == pre.authority.collection.items@.len() * ((amount - standing_overbid(
            pre.mint_account.metadata,
        )->Ok_0) / (pre.authority.collection.items@.len() as int)),
        total_points(post.authority.collection.items@) - total_points(
            pre.authority.collection.items@,
        ) == (amount - standing_overbid(pre.mint_account.metadata)->Ok_0) - (amount
            - standing_overbid(pre.mint_account.metadata)->Ok_0) % (
        pre.authority.collection.items@.len() as int),
        total_points(post.authority.collection.items@) - total_points(
            pre.authority.collection.items@,
        ) == post.authority.lamports - pre.authority.lamports,
{
    let overbid = standing_overbid(pre.mint_account.metadata)->Ok_0;
    let items = pre.authority.collection.items@;
    let s = settlement(overbid, amount, items.len());
    lemma_settlement_sums(overbid, amount, items.len());
    lemma_total_credited(items, s.per_item);
}

/// A successful redemption pays the caller exactly the item's points out of
/// the escrow and leaves the item with none. Every other item, and the owner
/// that the metadata records, stay as they were, so the total of the points
/// falls by what was paid.
pub proof fn law_redeem_zeroes_and_conserves(pre: Redeem, post: Redeem, caller: Seq<char>)
    requires
        redeem_failure(pre, caller) is None,
        redeem_applied(pre, post),
    ensures
        recorded_owner(pre.mint_account.metadata) == Some(caller),
        post.owner.lamports - pre.owner.lamports == redeemable(pre),
        pre.authority.lamports - post.authority.lamports == redeemable(pre),
        post.authority.collection.items@.len() == pre.authority.collection.items@.len(),
        forall|i: int|
            0 <= i < pre.authority.collection.items@.len() ==> {
                &&& (#[trigger] post.authority.collection.items@[i]).mint
                    == pre.authority.collection.items@[i].mint
                &&& post.authority.collection.items@[i].points == (if i == item_index(
                    pre.authority.collection.items@,
                    pre.mint_account.key@,
                ) {
                    0
                } else {
                    pre.authority.collection.items@[i].points
                })
            },
        total_points(post.authority.collection.items@) + redeemable(pre) == total_points(
            pre.authority.collection.items@,
        ),
        recorded_owner(post.mint_account.metadata) == Some(caller),
{
    let items = pre.authority.collection.items@;
    let id = pre.mint_account.key@;
    lemma_item_index_in_range(pre);
    lemma_total_redeemed(items, item_index(items, id));
}

/// Where the registry holds the item of a redemption, `item_index` is the
/// place of an item and the item there has the identifier.
pub proof fn lemma_item_index_in_range(pre: Redeem)
    requires
        holds(pre.authority.collection.items@, pre.mint_account.key@),
    ensures
        0 <= item_index(pre.authority.collection.items@, pre.mint_account.key@)
            < pre.authority.collection.items@.len(),
        pre.authority.collection.items@[item_index(
            pre.authority.collection.items@,
            pre.mint_account.key@,
        )].mint@ == pre.mint_account.key@,
{
    crate::state::lemma_first_item_exists(
        pre.authority.collection.items@,
        pre.mint_account.key@,
    );
}

/// In a sound registry the escrow covers every item's points: a redemption
/// by the recorded owner of an item that the registry holds can fail only
/// because the caller's wallet cannot take the payment.
pub proof fn law_escrow_covers_redemption(pre: Redeem, caller: Seq<char>)
    requires
        pre.authority.wf(),
        recorded_owner(pre.mint_account.metadata) == Some(caller),
        holds(pre.authority.collection.items@, pre.mint_account.key@),
        pre.owner.lamports + redeemable(pre) <= u64::MAX,
    ensures
        redeem_failure(pre, caller) is None,
{
    lemma_item_index_in_range(pre);
    lemma_points_within_total(
        pre.authority.collection.items@,
        item_index(pre.authority.collection.items@, pre.mint_account.key@),
    );
}

/// The storage of a sound registry holds its header, the count, and at
/// least thirty bytes for each item, and the bump besides.
pub proof fn law_storage_fits(registry: Registry)
    requires
        registry.wf(),
    ensures
        registry.space >= 8 + 4 + 30 * registry.collection.items@.len() + 1,
{
}

/// Creating the registry where one exists fails with `AlreadyInitialized`
/// and changes nothing.
pub proof fn law_initialize_guard(pre: Initialize, post: Initialize, r: Result<(), Error>)
    requires
        pre.authority is Some,
        initialize_outcome(pre, post, r),
    ensures
        r == Err::<(), Error>(Error::AlreadyInitialized),
        post == pre,
{
}

/// Of two creations in a row the second fails with `AlreadyInitialized` and
/// changes nothing, however the first ended.
pub proof fn law_initialize_once(
    first: Initialize,
    second: Initialize,
    third: Initialize,
    r1: Result<(), Error>,
    r2: Result<(), Error>,
)
    requires
        initialize_outcome(first, second, r1),
        initialize_outcome(second, third, r2),
    ensures
        r2 == Err::<(), Error>(Error::AlreadyInitialized),
        third == second,
{
}

} // verus!
