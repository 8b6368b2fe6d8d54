//! Bidding: a bid that outdoes the standing one takes the item, pays the
//! increase into the escrow as points for every item, and refunds the
//! previous holder.

use crate::accounts::{MintAccount, Registry, TokenAccount, Wallet};
use crate::decimal::{decimal_text, format_u64, lemma_parse_decimal_text, parse_u64, parsed};
use crate::error::{Error, OverbidError};
use crate::metadata::{
    lemma_lookup_other, lemma_lookup_set, lookup, with_field, FieldView, Metadata, MetadataView,
};
use crate::state::{can_credit, credited, distinct, lemma_total_credited, Items};
use vstd::prelude::*;
use vstd::string::*;

verus! {

/// Lamports by which a bid must exceed the standing one at the least.
pub const MIN_INCREMENT: u64 = 10_000_000;

/// The accounts of a bid.
#[derive(Clone, Debug, PartialEq, Eq)]
pub struct Bid {
    /// The bidder, who pays the whole bid.
    pub payer: Wallet,
    /// The holder of the item until now.
    pub owner: Wallet,
    /// The registry and its escrow.
    pub authority: Registry,
    /// The item that is bid on.
    pub mint_account: MintAccount,
    /// The holding slot of `owner` for the item.
    pub source_account: TokenAccount,
    /// The holding slot of `payer` for the item.
    pub destination_account: TokenAccount,
}

/// How a bid is divided.
#[derive(Clone, Copy, Debug, PartialEq, Eq, Structural)]
pub struct Settlement {
    /// Points that every item of the registry gains.
    pub per_item: u64,
    /// Lamports that go from the bidder into the escrow.
    pub to_escrow: u64,
    /// Lamports that go from the bidder to the previous holder.
    pub to_previous_holder: u64,
}

/// The key of the field that holds the standing bid.
pub open spec fn overbid_key() -> Seq<char> {
    "overbid"@
}

/// The key of the field that holds the owner's address as text.
pub open spec fn owner_key() -> Seq<char> {
    "owner"@
}

/// The division of a bid of `amount` over a standing bid of `overbid` among
/// `count` items: each item gains the whole quotient of the increase; the
/// escrow takes what the items gain together; the previous holder takes the
/// standing bid back and with it the remainder of the division.
pub open spec fn settlement(overbid: u64, amount: u64, count: nat) -> Settlement
    recommends
        overbid <= amount,
        0 < count,
{
    let diff = amount - overbid;
    let remainder = diff % (count as int);
    Settlement {
        per_item: (diff / (count as int)) as u64,
        to_escrow: (diff - remainder) as u64,
        to_previous_holder: (overbid + remainder) as u64,
    }
}

/// Divides a bid. `None` where the bid is below the standing one or there is
/// no item to divide it among.
pub fn settle(overbid: u64, amount: u64, count: u64) -> (r: Option<Settlement>)
    ensures
        r == (if overbid <= amount && count > 0 {
            Some(settlement(overbid, amount, count as nat))
        } else {
            None
        }),
{
    if amount < overbid || count == 0 {
        return None;
    }
    let diff: u64 = amount - overbid;
    let per_item: u64 = diff / count;
    let remainder: u64 = diff % count;
    assert(remainder <= diff) by (nonlinear_arith)
        requires
            count > 0,
            remainder == diff % count,
    ;
    Some(
        Settlement {
            per_item,
            to_escrow: diff - remainder,
            to_previous_holder: overbid + remainder,
        },
    )
}

/// The standing bid that an item's metadata records, or why none can be read.
pub open spec fn standing_overbid(metadata: Option<Metadata>) -> Result<u64, Error> {
    match metadata {
        None => Err(Error::InvalidAccountData),
        Some(m) => match lookup(m@.fields, overbid_key()) {
            None => Err(Error::Overbid(OverbidError::MissingOverbidField)),
            Some(text) => match parsed(text) {
                None => Err(Error::Overbid(OverbidError::InvalidOverbidValue)),
                Some(value) => Ok(value),
            },
        },
    }
}

/// Reads the standing bid out of an item's metadata.
pub fn read_overbid(metadata: &Option<Metadata>) -> (r: Result<u64, Error>)
    ensures
        r == standing_overbid(*metadata),
{
    match metadata {
        None => Err(Error::InvalidAccountData),
        Some(m) => match m.get("overbid") {
            None => Err(Error::Overbid(OverbidError::MissingOverbidField)),
            Some(text) => match parse_u64(text.as_str()) {
                None => Err(Error::Overbid(OverbidError::InvalidOverbidValue)),
                Some(value) => Ok(value),
            },
        },
    }
}

/// Why a bid of `amount` on these accounts fails, if it does. The first
/// reason that applies is the one reported.
pub open spec fn bid_failure(pre: Bid, amount: u64) -> Option<Error> {
    match standing_overbid(pre.mint_account.metadata) {
        Err(e) => Some(e),
        Ok(overbid) => {
            let items = pre.authority.collection.items@;
            let s = settlement(overbid, amount, items.len());
            if amount < overbid + MIN_INCREMENT {
                Some(Error::Overbid(OverbidError::BidTooLow))
            } else if !pre.source_account.frozen {
                Some(Error::InvalidState)
            } else if pre.payer.key@ == pre.owner.key@ {
                Some(Error::InvalidState)
            } else if pre.source_account.amount < 1 {
                Some(Error::InsufficientFunds)
            } else if pre.destination_account.amount == u64::MAX {
                Some(Error::ArithmeticOverflow)
            } else if items.len() == 0 {
                Some(Error::ArithmeticOverflow)
            } else if !can_credit(items, s.per_item) {
                Some(Error::ArithmeticOverflow)
            } else if pre.payer.lamports < s.to_escrow {
                Some(Error::InsufficientFunds)
            } else if pre.authority.lamports + s.to_escrow > u64::MAX {
                Some(Error::ArithmeticOverflow)
            } else if pre.payer.lamports - s.to_escrow < s.to_previous_holder {
                Some(Error::InsufficientFunds)
            } else if pre.owner.lamports + s.to_previous_holder > u64::MAX {
                Some(Error::ArithmeticOverflow)
            } else {
                None
            }
        },
    }
}

/// The fields of an item's metadata once a bid of `amount` by `bidder` is recorded.
pub open spec fn fields_after_bid(fields: Seq<FieldView>, amount: u64, bidder: Seq<char>) -> Seq<
    FieldView,
> {
    with_field(with_field(fields, overbid_key(), decimal_text(amount as nat)), owner_key(), bidder)
}

/// What a bid of `amount`, made under the text `bidder`, turns the accounts
/// `pre` into.
pub open spec fn bid_applied(pre: Bid, post: Bid, amount: u64, bidder: Seq<char>) -> bool {
    let overbid = standing_overbid(pre.mint_account.metadata)->Ok_0;
    let s = settlement(overbid, amount, pre.authority.collection.items@.len());
    let record = pre.mint_account.metadata->Some_0;
    &&& post.payer.key == pre.payer.key
    &&& post.payer.lamports == pre.payer.lamports - amount
    &&& post.owner.key == pre.owner.key
    &&& post.owner.lamports == pre.owner.lamports + s.to_previous_holder
    &&& post.authority.lamports == pre.authority.lamports + s.to_escrow
    &&& post.authority.space == pre.authority.space
    &&& post.authority.collection.bump == pre.authority.collection.bump
    &&& post.authority.collection.items@ == credited(pre.authority.collection.items@, s.per_item)
    &&& post.mint_account.key == pre.mint_account.key
    &&& post.mint_account.lamports == pre.mint_account.lamports
    &&& post.mint_account.supply == pre.mint_account.supply
    &&& post.mint_account.metadata is Some
    &&& post.mint_account.metadata->Some_0@ == (MetadataView {
        fields: fields_after_bid(record@.fields, amount, bidder),
        ..record@
    })
    &&& post.source_account == (TokenAccount {
        amount: (pre.source_account.amount - 1) as u64,
        frozen: true,
    })
    &&& post.destination_account == (TokenAccount {
        amount: (pre.destination_account.amount + 1) as u64,
        frozen: true,
    })
}

/// How a bid of `amount`, made under the text `bidder`, ends: it succeeds
/// exactly where nothing makes it fail, and then the accounts are as
/// `bid_applied` says, the metadata gives `amount` as the standing bid, and a
/// sound registry is still sound; it fails with the first reason that
/// applies, and then nothing has changed.
pub open spec fn bid_outcome(
    pre: Bid,
    post: Bid,
    amount: u64,
    bidder: Seq<char>,
    r: Result<(), Error>,
) -> bool {
    match r {
        Ok(()) => {
            &&& bid_failure(pre, amount) is None
            &&& bid_applied(pre, post, amount, bidder)
            &&& standing_overbid(post.mint_account.metadata) == Ok::<u64, Error>(amount)
            &&& pre.authority.wf() ==> post.authority.wf()
        },
        Err(e) => bid_failure(pre, amount) == Some(e) && post == pre,
    }
}

/// The two keys are different texts.
pub proof fn lemma_keys_differ()
    ensures
        overbid_key() != owner_key(),
{
    reveal_strlit("overbid");
    reveal_strlit("owner");
    assert(overbid_key().len() == 7);
    assert(owner_key().len() == 5);
}

/// Once a bid is recorded, the metadata gives the bid as the standing one
/// and the bidder as the owner.
pub proof fn lemma_fields_after_bid(fields: Seq<FieldView>, amount: u64, bidder: Seq<char>)
    ensures
        lookup(fields_after_bid(fields, amount, bidder), owner_key()) == Some(bidder),
        lookup(fields_after_bid(fields, amount, bidder), overbid_key()) == Some(
            decimal_text(amount as nat),
        ),
        parsed(decimal_text(amount as nat)) == Some(amount),
{
    let text = decimal_text(amount as nat);
    let first = with_field(fields, overbid_key(), text);
    lemma_keys_differ();
    lemma_lookup_set(fields, overbid_key(), text);
    lemma_lookup_set(first, owner_key(), bidder);
    lemma_lookup_other(first, owner_key(), bidder, overbid_key());
    lemma_parse_decimal_text(amount);
}

/// Makes a bid of `amount` for the payer, whose address as text is `bidder`.
///
/// On success the metadata records the bid and the bidder, the item's unit
/// has moved from the source slot to the destination slot and both slots are
/// locked, every item has gained its share of the increase, and the payer
/// has paid the escrow and the previous holder. On failure nothing changes.
pub fn process_bid_as(ctx: &mut Bid, amount: u64, bidder: String) -> (r: Result<(), Error>)
    ensures
        bid_outcome(*old(ctx), *final(ctx), amount, bidder@, r),
{
    let overbid = match read_overbid(&ctx.mint_account.metadata) {
        Ok(value) => value,
        Err(e) => {
            return Err(e);
        },
    };
    let outbid = match overbid.checked_add(MIN_INCREMENT) {
        Some(least) => amount >= least,
        None => false,
    };
    if !outbid {
        return Err(Error::Overbid(OverbidError::BidTooLow));
    }
    let mut source = ctx.source_account;
    let mut destination = ctx.destination_account;
    match source.thaw() {
        Ok(()) => {},
        Err(e) => {
            return Err(e);
        },
    }
    if ctx.payer.key.same(&ctx.owner.key) {
        return Err(Error::InvalidState);
    }
    if destination.frozen {
        let _ = destination.thaw();
    }
    match source.transfer_one(&mut destination) {
        Ok(()) => {},
        Err(e) => {
            return Err(e);
        },
    }
    let count: u64 = ctx.authority.collection.items.len() as u64;
    let s = match settle(overbid, amount, count) {
        Some(s) => s,
        None => {
            return Err(Error::ArithmeticOverflow);
        },
    };
    let items = match ctx.authority.collection.credited_items(s.per_item) {
        Some(items) => items,
        None => {
            return Err(Error::ArithmeticOverflow);
        },
    };
    let payer_left = match ctx.payer.lamports.checked_sub(s.to_escrow) {
        Some(left) => left,
        None => {
            return Err(Error::InsufficientFunds);
        },
    };
    let escrow = match ctx.authority.lamports.checked_add(s.to_escrow) {
        Some(sum) => sum,
        None => {
            return Err(Error::ArithmeticOverflow);
        },
    };
    let payer_left = match payer_left.checked_sub(s.to_previous_holder) {
        Some(left) => left,
        None => {
            return Err(Error::InsufficientFunds);
        },
    };
    let refunded = match ctx.owner.lamports.checked_add(s.to_previous_holder) {
        Some(sum) => sum,
        None => {
            return Err(Error::ArithmeticOverflow);
        },
    };
    let _ = source.freeze();
    let _ = destination.freeze();
    proof {
        lemma_settlement_sums(overbid, amount, count as nat);
        lemma_credited_keeps_ids(ctx.authority.collection.items@, s.per_item);
        lemma_total_credited(ctx.authority.collection.items@, s.per_item);
        lemma_fields_after_bid(
            ctx.mint_account.metadata->Some_0@.fields,
            amount,
            bidder@,
        );
    }
    match &mut ctx.mint_account.metadata {
        Some(record) => {
            record.set(String::from_str("overbid"), format_u64(amount));
            record.set(String::from_str("owner"), bidder);
        },
        None => {},
    }
    ctx.source_account = source;
    ctx.destination_account = destination;
    ctx.authority.collection.items = items;
    ctx.authority.lamports = escrow;
    ctx.payer.lamports = payer_left;
    ctx.owner.lamports = refunded;
    Ok(())
}

/// Makes a bid of `amount` for the payer, under the payer's address as text.
///
/// On success the metadata records the bid and the bidder, the item's unit
/// has moved from the source slot to the destination slot and both slots are
/// locked, every item has gained its share of the increase, and the payer
/// has paid the escrow and the previous holder. On failure nothing changes.
pub fn process_bid(ctx: &mut Bid, amount: u64) -> (r: Result<(), Error>)
    ensures
        bid_outcome(*old(ctx), *final(ctx), amount, old(ctx).payer.key.text(), r),
{
    let bidder = ctx.payer.key.to_text();
    process_bid_as(ctx, amount, bidder)
}

/// The escrow's share and the previous holder's share of a bid are the bid:
/// nothing is made and nothing is lost. The escrow's share is what the items
/// gain together, and the bid exceeds the standing one by the increase.
pub proof fn lemma_settlement_sums(overbid: u64, amount: u64, count: nat)
    requires
        overbid <= amount,
        0 < count,
    ensures
        settlement(overbid, amount, count).to_escrow + settlement(
            overbid,
            amount,
            count,
        ).to_previous_holder == amount,
        settlement(overbid, amount, count).to_escrow == count * settlement(
            overbid,
            amount,
            count,
        ).per_item,
        settlement(overbid, amount, count).per_item == (amount - overbid) / (count as int),
        settlement(overbid, amount, count).to_previous_holder == overbid + (amount - overbid) % (
        count as int),
{
    let diff = amount - overbid;
    let c = count as int;
    assert(0 <= diff % c <= diff && 0 <= diff / c <= diff && diff == c * (diff / c) + diff % c)
        by (nonlinear_arith)
        requires
            0 <= diff,
            0 < c,
    ;
}

/// Crediting points changes no identifier.
pub proof fn lemma_credited_keeps_ids(items: Seq<Items>, per_item: u64)
    ensures
        distinct(items) ==> distinct(credited(items, per_item)),
        credited(items, per_item).len() == items.len(),
{
    let after = credited(items, per_item);
    if distinct(items) {
        assert forall|i: int, j: int| 0 <= i < j < after.len() implies (#[trigger] after[i]).mint@
            != (#[trigger] after[j]).mint@ by {
            assert(items[i].mint@ != items[j].mint@);
        }
    }
}

} // verus!
