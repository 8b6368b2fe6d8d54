//! An auction-and-rewards ledger for a collection of unique items.
//!
//! One registry lists the items and the points that each has accrued.
//! Callers mint items into it, outbid one another to hold an item, and
//! redeem an item's points for lamports out of the registry's escrow. Every
//! operation applies in full or not at all.

use vstd::prelude::*;

pub mod accounts;
pub mod address;
pub mod decimal;
pub mod error;
pub mod instructions;
pub mod laws;
pub mod metadata;
pub mod state;

pub use crate::accounts::{MintAccount, Registry, TokenAccount, Wallet};
pub use crate::address::Address;
pub use crate::error::{Error, OverbidError};
pub use crate::instructions::bid::{process_bid, process_bid_as, Bid, Settlement, MIN_INCREMENT};
pub use crate::instructions::initialize::{process_initialize, Initialize};
pub use crate::instructions::mint::{process_mint, process_mint_as, MintToken};
pub use crate::instructions::redeem::{process_redeem, process_redeem_as, Redeem};
pub use crate::metadata::Metadata;
pub use crate::state::{Collection, Items};

verus! {

/// Creates the registry. See `process_initialize`.
pub fn initialize(ctx: &mut Initialize) -> (r: Result<(), Error>)
    ensures
        crate::instructions::initialize::initialize_outcome(*old(ctx), *final(ctx), r),
{
    process_initialize(ctx)
}

/// Mints a new item with `uri` in its metadata. See `process_mint`.
pub fn mint(ctx: &mut MintToken, uri: String) -> (r: Result<Address, Error>)
    ensures
        crate::instructions::mint::mint_outcome(
            *old(ctx),
            *final(ctx),
            uri@,
            old(ctx).payer.key.text(),
            crate::metadata::packed_len_of(
                crate::instructions::mint::item_name(),
                crate::instructions::mint::item_symbol(),
                uri@,
            ),
            r,
        ),
{
    process_mint(ctx, uri)
}

/// Bids `amount` on an item. See `process_bid`.
pub fn bid(ctx: &mut Bid, amount: u64) -> (r: Result<(), Error>)
    ensures
        crate::instructions::bid::bid_outcome(
            *old(ctx),
            *final(ctx),
            amount,
            old(ctx).payer.key.text(),
            r,
        ),
{
    process_bid(ctx, amount)
}

/// Redeems an item's points. See `process_redeem`.
pub fn redeem(ctx: &mut Redeem) -> (r: Result<(), Error>)
    ensures
        crate::instructions::redeem::redeem_outcome(
            *old(ctx),
            *final(ctx),
            old(ctx).owner.key.text(),
            r,
        ),
{
    process_redeem(ctx)
}

} // verus!
