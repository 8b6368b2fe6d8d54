//! Redeeming: the owner whom an item's metadata records takes the item's
//! points out of the escrow as lamports.

use crate::accounts::{MintAccount, Registry, Wallet};
use crate::error::{Error, OverbidError};
use crate::instructions::bid::owner_key;
use crate::metadata::{lookup, Metadata};
use crate::state::{
    distinct, found_at, holds, item_index, lemma_found_at, lemma_total_redeemed, redeemed, Items,
};
use vstd::prelude::*;
use vstd::string::*;

verus! {

/// The accounts of a redemption.
#[derive(Clone, Debug, PartialEq, Eq)]
pub struct Redeem {
    /// The caller, who claims to own the item.
    pub owner: Wallet,
    /// The registry and its escrow.
    pub authority: Registry,
    /// The item whose points are redeemed.
    pub mint_account: MintAccount,
}

/// The owner that an item's metadata records, as text, if it records one.
pub open spec fn recorded_owner(metadata: Option<Metadata>) -> Option<Seq<char>> {
    match metadata {
        None => None,
        Some(m) => lookup(m@.fields, owner_key()),
    }
}

/// The points that the registry holds for the item of these accounts.
pub open spec fn redeemable(pre: Redeem) -> u64 {
    let items = pre.authority.collection.items@;
    items[item_index(items, pre.mint_account.key@)].points
}

/// Why a redemption by the caller whose address as text is `caller` fails,
/// if it does. The first reason that applies is the one reported.
pub open spec fn redeem_failure(pre: Redeem, caller: Seq<char>) -> Option<Error> {
    match recorded_owner(pre.mint_account.metadata) {
        None => Some(Error::InvalidAccountData),
        Some(owner) => {
            if owner != caller {
                Some(Error::Overbid(OverbidError::WrongOwner))
            } else if !holds(pre.authority.collection.items@, pre.mint_account.key@) {
                Some(Error::InvalidAccountData)
            } else if pre.authority.lamports < redeemable(pre) {
                Some(Error::ArithmeticOverflow)
            } else if pre.owner.lamports + redeemable(pre) > u64::MAX {
                Some(Error::ArithmeticOverflow)
            } else {
                None
            }
        },
    }
}

/// What a redemption turns the accounts `pre` into: the item's points leave
/// the escrow for the caller's wallet, and the item is left with none.
pub open spec fn redeem_applied(pre: Redeem, post: Redeem) -> bool {
    let items = pre.authority.collection.items@;
    &&& post.owner.key == pre.owner.key
    &&& post.owner.lamports == pre.owner.lamports + redeemable(pre)
    &&& post.authority.lamports == pre.authority.lamports - redeemable(pre)
    &&& post.authority.space == pre.authority.space
    &&& post.authority.collection.bump == pre.authority.collection.bump
    &&& post.authority.collection.items@ == redeemed(items, item_index(items, pre.mint_account.key@))
    &&& post.mint_account == pre.mint_account
}

/// How a redemption by the caller whose address as text is `caller` ends: it
/// succeeds exactly where nothing makes it fail, and then the accounts are
/// as `redeem_applied` says and a sound registry is still sound; it fails
/// with the first reason that applies, and then nothing has changed.
pub open spec fn redeem_outcome(
    pre: Redeem,
    post: Redeem,
    caller: Seq<char>,
    r: Result<(), Error>,
) -> bool {
    match r {
        Ok(()) => {
            &&& redeem_failure(pre, caller) is None
            &&& redeem_applied(pre, post)
            &&& pre.authority.wf() ==> post.authority.wf()
        },
        Err(e) => redeem_failure(pre, caller) == Some(e) && post == pre,
    }
}

/// Setting an item's points to zero changes no identifier.
pub proof fn lemma_redeemed_keeps_ids(items: Seq<Items>, i: int)
    requires
        0 <= i < items.len(),
    ensures
        distinct(items) ==> distinct(redeemed(items, i)),
{
    let after = redeemed(items, i);
    if distinct(items) {
        assert forall|a: int, b: int| 0 <= a < b < after.len() implies (#[trigger] after[a]).mint@
            != (#[trigger] after[b]).mint@ by {
            assert(items[a].mint@ != items[b].mint@);
        }
    }
}

/// Redeems the item's points for the caller, whose address as text is `caller`.
///
/// Succeeds where the metadata records `caller` as the owner, the registry
/// holds the item, and the balances allow the payment. Then the item's points
/// have moved as lamports from the escrow to the caller, and the item has no
/// points. On failure nothing changes.
pub fn process_redeem_as(ctx: &mut Redeem, caller: &str) -> (r: Result<(), Error>)
    ensures
        redeem_outcome(*old(ctx), *final(ctx), caller@, r),
{
    let claimed = String::from_str(caller);
    match &ctx.mint_account.metadata {
        None => {
            return Err(Error::InvalidAccountData);
        },
        Some(record) => match record.get("owner") {
            None => {
                return Err(Error::InvalidAccountData);
            },
            Some(owner) => {
                if *owner != claimed {
                    return Err(Error::Overbid(OverbidError::WrongOwner));
                }
            },
        },
    }
    let index = match ctx.authority.collection.position(&ctx.mint_account.key) {
        Some(index) => index,
        None => {
            return Err(Error::InvalidAccountData);
        },
    };
    proof {
        lemma_found_at(ctx.authority.collection.items@, ctx.mint_account.key@, index as int);
        lemma_total_redeemed(ctx.authority.collection.items@, index as int);
        lemma_redeemed_keeps_ids(ctx.authority.collection.items@, index as int);
    }
    let item = ctx.authority.collection.items[index];
    let escrow = match ctx.authority.lamports.checked_sub(item.points) {
        Some(left) => left,
        None => {
            return Err(Error::ArithmeticOverflow);
        },
    };
    let paid = match ctx.owner.lamports.checked_add(item.points) {
        Some(sum) => sum,
        None => {
            return Err(Error::ArithmeticOverflow);
        },
    };
    ctx.authority.lamports = escrow;
    ctx.owner.lamports = paid;
    ctx.authority.collection.items.set(index, Items { mint: item.mint, points: 0 });
    Ok(())
}

/// Redeems the item's points for the caller, under the caller's address as text.
///
/// Succeeds where the metadata records the caller as the owner, the registry
/// holds the item, and the balances allow the payment. Then the item's points
/// have moved as lamports from the escrow to the caller, and the item has no
/// points. On failure nothing changes.
pub fn process_redeem(ctx: &mut Redeem) -> (r: Result<(), Error>)
    ensures
        redeem_outcome(*old(ctx), *final(ctx), old(ctx).owner.key.text(), r),
{
    let caller = ctx.owner.key.to_text();
    process_redeem_as(ctx, caller.as_str())
}

} // verus!
