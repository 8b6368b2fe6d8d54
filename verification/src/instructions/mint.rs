//! Minting: a new item enters the registry with its metadata written, its
//! storage funded, and its single unit locked in the minter's holding slot.

use crate::accounts::{
    rent_equivalent, rent_for, MintAccount, Registry, TokenAccount, Wallet, MAX_SPACE,
};
use crate::address::Address;
use crate::decimal::{decimal_text, format_u64};
use crate::error::Error;
use crate::instructions::bid::{lemma_keys_differ, overbid_key, owner_key};
use crate::metadata::{packed_len_of, FieldView, Metadata, MetadataView};
use crate::state::{distinct, holds, required_space, total_points, Items};
use vstd::prelude::*;
use vstd::string::*;

verus! {

/// Bytes funded beyond the packed metadata, for the fields to grow into.
pub const FIELD_ALLOWANCE: u64 = 100;

/// Bytes of the type and length that precede the packed metadata in storage.
pub const ENTRY_HEADER: u64 = 4;

/// The accounts of a mint.
#[derive(Clone, Debug, PartialEq, Eq)]
pub struct MintToken {
    /// The minter, who pays every cost and becomes the item's first owner.
    pub payer: Wallet,
    /// The registry and its escrow.
    pub authority: Registry,
    /// The account of the new item, as yet without metadata.
    pub mint_account: MintAccount,
    /// The holding slot of `payer` for the new item.
    pub token_account: TokenAccount,
}

/// The name that every item carries.
pub open spec fn item_name() -> Seq<char> {
    "OPOS"@
}

/// The symbol that every item carries.
pub open spec fn item_symbol() -> Seq<char> {
    "OPOS"@
}

/// Bytes by which the registry's storage of `space` bytes must grow to hold
/// one item more than `count`.
pub open spec fn growth(space: u64, count: nat) -> nat {
    if required_space(count + 1) > space {
        (required_space(count + 1) - space) as nat
    } else {
        0
    }
}

/// Lamports that fund the storage of an item's metadata of `packed_len`
/// packed bytes: the rent equivalent of the packed bytes, their header, and
/// the allowance for growth.
pub open spec fn metadata_funding(packed_len: nat) -> nat {
    rent_equivalent(FIELD_ALLOWANCE as nat + ENTRY_HEADER as nat + packed_len)
}

/// Why a mint on these accounts, with metadata of `packed_len` packed bytes,
/// fails, if it does. The first reason that applies is the one reported.
pub open spec fn mint_failure(pre: MintToken, packed_len: usize) -> Option<Error> {
    let items = pre.authority.collection.items@;
    let cost = rent_equivalent(growth(pre.authority.space, items.len()));
    let funding = metadata_funding(packed_len as nat);
    if required_space(items.len() + 1) > MAX_SPACE {
        Some(Error::InvalidRealloc)
    } else if pre.payer.lamports < cost {
        Some(Error::InsufficientFunds)
    } else if pre.authority.lamports + cost > u64::MAX {
        Some(Error::ArithmeticOverflow)
    } else if holds(items, pre.mint_account.key@) || pre.mint_account.metadata is Some {
        Some(Error::AlreadyInitialized)
    } else if funding > u64::MAX {
        Some(Error::ArithmeticOverflow)
    } else if pre.payer.lamports - cost < funding {
        Some(Error::InsufficientFunds)
    } else if pre.mint_account.lamports + funding > u64::MAX {
        Some(Error::ArithmeticOverflow)
    } else if pre.token_account.frozen {
        Some(Error::AccountFrozen)
    } else if pre.token_account.amount == u64::MAX {
        Some(Error::ArithmeticOverflow)
    } else if pre.mint_account.supply == u64::MAX {
        Some(Error::ArithmeticOverflow)
    } else {
        None
    }
}

/// The metadata of a new item: the fixed name and symbol, the caller's
/// `uri`, a standing bid of zero, and the minter as owner.
pub open spec fn minted_metadata(uri: Seq<char>, minter: Seq<char>) -> MetadataView {
    MetadataView {
        name: item_name(),
        symbol: item_symbol(),
        uri,
        fields: seq![(overbid_key(), decimal_text(0)), (owner_key(), minter)],
    }
}

/// What a mint turns the accounts `pre` into.
pub open spec fn mint_applied(
    pre: MintToken,
    post: MintToken,
    uri: Seq<char>,
    minter: Seq<char>,
    packed_len: usize,
) -> bool {
    let items = pre.authority.collection.items@;
    let grown = growth(pre.authority.space, items.len());
    let cost = rent_equivalent(grown);
    let funding = metadata_funding(packed_len as nat);
    &&& post.payer.key == pre.payer.key
    &&& post.payer.lamports == pre.payer.lamports - cost - funding
    &&& post.authority.space == pre.authority.space + grown
    &&& post.authority.lamports == pre.authority.lamports + cost
    &&& post.authority.collection.bump == pre.authority.collection.bump
    &&& post.authority.collection.items@ == items.push(
        Items { mint: pre.mint_account.key, points: 0 },
    )
    &&& post.mint_account.key == pre.mint_account.key
    &&& post.mint_account.lamports == pre.mint_account.lamports + funding
    &&& post.mint_account.supply == pre.mint_account.supply + 1
    &&& post.mint_account.metadata is Some
    &&& post.mint_account.metadata->Some_0@ == minted_metadata(uri, minter)
    &&& post.token_account == (TokenAccount {
        amount: (pre.token_account.amount + 1) as u64,
        frozen: true,
    })
}

/// How a mint with `uri`, made under the text `minter`, ends, given the
/// packed length of the new metadata. Without a packed length it fails with
/// `InvalidAccountData`. With one, it succeeds exactly where nothing makes
/// it fail, and then the accounts are as `mint_applied` says, the result is
/// the item's identifier, and a sound registry is still sound; it fails with
/// the first reason that applies. A failed mint changes nothing.
pub open spec fn mint_outcome(
    pre: MintToken,
    post: MintToken,
    uri: Seq<char>,
    minter: Seq<char>,
    packed_len: Option<usize>,
    r: Result<Address, Error>,
) -> bool {
    match (packed_len, r) {
        (None, r) => r == Err::<Address, Error>(Error::InvalidAccountData) && post == pre,
        (Some(n), Ok(id)) => {
            &&& mint_failure(pre, n) is None
            &&& mint_applied(pre, post, uri, minter, n)
            &&& id == pre.mint_account.key
            &&& pre.authority.wf() ==> post.authority.wf()
        },
        (Some(n), Err(e)) => mint_failure(pre, n) == Some(e) && post == pre,
    }
}

/// A new item with no points, under an identifier that no item has, keeps
/// the identifiers distinct and the total of the points as it was.
pub proof fn lemma_appended(items: Seq<Items>, id: Address)
    requires
        !holds(items, id@),
    ensures
        distinct(items) ==> distinct(items.push(Items { mint: id, points: 0 })),
        total_points(items.push(Items { mint: id, points: 0 })) == total_points(items),
{
    let after = items.push(Items { mint: id, points: 0 });
    assert(after.drop_last() =~= items);
    if distinct(items) {
        assert forall|i: int, j: int| 0 <= i < j < after.len() implies (#[trigger] after[i]).mint@
            != (#[trigger] after[j]).mint@ by {
            if j < items.len() {
                assert(items[i].mint@ != items[j].mint@);
            } else {
                assert(items[i].mint@ != id@);
            }
        }
    }
}

/// Mints the item of `ctx.mint_account` for the payer, whose address as text
/// is `minter`, with metadata that takes `packed_len` bytes when packed.
///
/// On success the registry's storage has grown to hold the item and the
/// payer has paid for the growth; the item's metadata is written and its
/// storage funded by the payer; the item's one unit lies locked in the
/// payer's slot; and the registry ends with the item, without points. The
/// result is the item's identifier. On failure nothing changes.
pub fn process_mint_as(
    ctx: &mut MintToken,
    uri: String,
    minter: String,
    packed_len: usize,
) -> (r: Result<Address, Error>)
    ensures
        mint_outcome(*old(ctx), *final(ctx), uri@, minter@, Some(packed_len), r),
{
    let count: u64 = ctx.authority.collection.items.len() as u64;
    if count > MAX_SPACE {
        return Err(Error::InvalidRealloc);
    }
    let needed: u64 = 8 + 4 + 40 * (count + 1) + 1;
    if needed > MAX_SPACE {
        return Err(Error::InvalidRealloc);
    }
    let grown: u64 = if needed > ctx.authority.space {
        needed - ctx.authority.space
    } else {
        0
    };
    assert(rent_equivalent(grown as nat) <= u64::MAX) by (nonlinear_arith)
        requires
            grown <= MAX_SPACE,
    ;
    let cost = match rent_for(grown) {
        Some(cost) => cost,
        None => {
            return Err(Error::ArithmeticOverflow);
        },
    };
    let payer_left = match ctx.payer.lamports.checked_sub(cost) {
        Some(left) => left,
        None => {
            return Err(Error::InsufficientFunds);
        },
    };
    let escrow = match ctx.authority.lamports.checked_add(cost) {
        Some(sum) => sum,
        None => {
            return Err(Error::ArithmeticOverflow);
        },
    };
    if ctx.authority.collection.position(&ctx.mint_account.key).is_some()
        || ctx.mint_account.metadata.is_some() {
        return Err(Error::AlreadyInitialized);
    }
    let bytes = match (packed_len as u64).checked_add(FIELD_ALLOWANCE + ENTRY_HEADER) {
        Some(bytes) => bytes,
        None => {
            assert(metadata_funding(packed_len as nat) > u64::MAX) by (nonlinear_arith)
                requires
                    packed_len + 104 > u64::MAX,
                    metadata_funding(packed_len as nat) == (100 + 4 + packed_len) * 3480 * 2,
            ;
            return Err(Error::ArithmeticOverflow);
        },
    };
    let funding = match rent_for(bytes) {
        Some(funding) => funding,
        None => {
            return Err(Error::ArithmeticOverflow);
        },
    };
    let payer_left = match payer_left.checked_sub(funding) {
        Some(left) => left,
        None => {
            return Err(Error::InsufficientFunds);
        },
    };
    let funded = match ctx.mint_account.lamports.checked_add(funding) {
        Some(sum) => sum,
        None => {
            return Err(Error::ArithmeticOverflow);
        },
    };
    if ctx.token_account.frozen {
        return Err(Error::AccountFrozen);
    }
    let held = match ctx.token_account.amount.checked_add(1) {
        Some(sum) => sum,
        None => {
            return Err(Error::ArithmeticOverflow);
        },
    };
    let supply = match ctx.mint_account.supply.checked_add(1) {
        Some(sum) => sum,
        None => {
            return Err(Error::ArithmeticOverflow);
        },
    };
    let mut record = Metadata::new(String::from_str("OPOS"), String::from_str("OPOS"), uri);
    record.set(String::from_str("overbid"), format_u64(0));
    record.set(String::from_str("owner"), minter);
    proof {
        lemma_keys_differ();
        let first = seq![(overbid_key(), decimal_text(0))];
        assert(Seq::<FieldView>::empty().push((overbid_key(), decimal_text(0))) =~= first);
        assert(first.push((owner_key(), minter@)) =~= minted_metadata(uri@, minter@).fields);
        lemma_appended(ctx.authority.collection.items@, ctx.mint_account.key);
    }
    let id = ctx.mint_account.key;
    ctx.payer.lamports = payer_left;
    ctx.authority.space = ctx.authority.space + grown;
    ctx.authority.lamports = escrow;
    ctx.authority.collection.items.push(Items { mint: id, points: 0 });
    ctx.mint_account.lamports = funded;
    ctx.mint_account.supply = supply;
    ctx.mint_account.metadata = Some(record);
    ctx.token_account = TokenAccount { amount: held, frozen: true };
    Ok(id)
}

/// Mints the item of `ctx.mint_account` for the payer, under the payer's
/// address as text, with `uri` in its metadata.
///
/// Fails with `InvalidAccountData` where the metadata cannot be packed;
/// otherwise succeeds and fails as `process_mint_as` does with the packed
/// length of the metadata.
pub fn process_mint(ctx: &mut MintToken, uri: String) -> (r: Result<Address, Error>)
    ensures
        mint_outcome(
            *old(ctx),
            *final(ctx),
            uri@,
            old(ctx).payer.key.text(),
            packed_len_of(item_name(), item_symbol(), uri@),
            r,
        ),
{
    let minter = ctx.payer.key.to_text();
    match Metadata::packed_len("OPOS", "OPOS", uri.as_str()) {
        Some(packed_len) => process_mint_as(ctx, uri, minter, packed_len),
        None => Err(Error::InvalidAccountData),
    }
}

} // verus!
