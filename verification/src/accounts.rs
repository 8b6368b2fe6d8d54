//! The accounts that an operation works on, each held as the plain values
//! that the registry's rules read and change.

use crate::address::Address;
use crate::error::Error;
use crate::metadata::Metadata;
use crate::state::{distinct, required_space, total_points, Collection};
use anchor_lang::solana_program::rent::{
    DEFAULT_EXEMPTION_THRESHOLD, DEFAULT_LAMPORTS_PER_BYTE_YEAR,
};
use vstd::prelude::*;

verus! {

/// The largest size, in bytes, that the registry's storage can have.
pub const MAX_SPACE: u64 = 10 * 1024 * 1024;

/// The size of the registry's storage when it is created.
pub const INITIAL_SPACE: u64 = 8 + 4 + 32 + 8;

/// A wallet: who it belongs to and what it holds.
#[derive(Clone, Copy, Debug, PartialEq, Eq)]
pub struct Wallet {
    pub key: Address,
    pub lamports: u64,
}

/// A holding slot: how many units of an item one wallet holds, and whether
/// the slot is locked against transfers.
#[derive(Clone, Copy, Debug, PartialEq, Eq)]
pub struct TokenAccount {
    pub amount: u64,
    pub frozen: bool,
}

/// The account of an item: its identifier, the lamports that fund its
/// storage, the units in existence, and its metadata once that is written.
#[derive(Clone, Debug, PartialEq, Eq)]
pub struct MintAccount {
    pub key: Address,
    pub lamports: u64,
    pub supply: u64,
    pub metadata: Option<Metadata>,
}

/// The registry's own account: its data, the escrow it holds, and the size
/// of its storage.
#[derive(Clone, Debug, PartialEq, Eq)]
pub struct Registry {
    pub collection: Collection,
    pub lamports: u64,
    pub space: u64,
}

/// Lamports that keep `bytes` bytes of storage free of rent.
pub open spec fn rent_equivalent(bytes: nat) -> nat {
    bytes * 3480 * 2
}

/// Reads `DEFAULT_LAMPORTS_PER_BYTE_YEAR` of `solana_program::rent`, which
/// its source defines as `1_000_000_000 / 100 * 365 / (1024 * 1024)`.
#[verifier::external_body]
fn default_lamports_per_byte_year() -> (r: u64)
    ensures
        r == 3480,
{
    DEFAULT_LAMPORTS_PER_BYTE_YEAR
}

/// Reads `DEFAULT_EXEMPTION_THRESHOLD` of `solana_program::rent`, two years,
/// as a whole number.
#[verifier::external_body]
fn default_exemption_threshold() -> (r: u64)
    ensures
        r == 2,
{
    DEFAULT_EXEMPTION_THRESHOLD as u64
}

/// Lamports that keep `bytes` bytes free of rent; `None` where they pass 64 bits.
pub fn rent_for(bytes: u64) -> (r: Option<u64>)
    ensures
        r == (if rent_equivalent(bytes as nat) <= u64::MAX {
            Some(rent_equivalent(bytes as nat) as u64)
        } else {
            None
        }),
{
    let per_year = default_lamports_per_byte_year();
    let years = default_exemption_threshold();
    match bytes.checked_mul(per_year) {
        Some(yearly) => yearly.checked_mul(years),
        None => {
            assert(bytes * 3480 * 2 >= bytes * 3480) by (nonlinear_arith);
            None
        },
    }
}

impl TokenAccount {
    /// Unlocks the slot. A slot that is not locked is left as it is, with `InvalidState`.
    pub fn thaw(&mut self) -> (r: Result<(), Error>)
        ensures
            r == (if old(self).frozen {
                Ok::<(), Error>(())
            } else {
                Err(Error::InvalidState)
            }),
            final(self).amount == old(self).amount,
            final(self).frozen == false,
    {
        if !self.frozen {
            return Err(Error::InvalidState);
        }
        self.frozen = false;
        Ok(())
    }

    /// Locks the slot. A slot that is locked already is left as it is, with `InvalidState`.
    pub fn freeze(&mut self) -> (r: Result<(), Error>)
        ensures
            r == (if old(self).frozen {
                Err::<(), Error>(Error::InvalidState)
            } else {
                Ok(())
            }),
            final(self).amount == old(self).amount,
            final(self).frozen == true,
    {
        if self.frozen {
            return Err(Error::InvalidState);
        }
        self.frozen = true;
        Ok(())
    }

    /// Why one unit cannot move from `self` to `to`, if it cannot: a locked
    /// slot on either side, nothing to take, or no room to add.
    pub open spec fn transfer_failure(self, to: TokenAccount) -> Option<Error> {
        if self.frozen {
            Some(Error::AccountFrozen)
        } else if self.amount < 1 {
            Some(Error::InsufficientFunds)
        } else if to.frozen {
            Some(Error::AccountFrozen)
        } else if to.amount == u64::MAX {
            Some(Error::ArithmeticOverflow)
        } else {
            None
        }
    }

    /// Moves one unit from `self` to `to`, or nothing where the move fails.
    pub fn transfer_one(&mut self, to: &mut TokenAccount) -> (r: Result<(), Error>)
        ensures
            match r {
                Ok(()) => {
                    &&& old(self).transfer_failure(*old(to)) is None
                    &&& *final(self) == (TokenAccount {
                        amount: (old(self).amount - 1) as u64,
                        ..*old(self)
                    })
                    &&& *final(to) == (TokenAccount {
                        amount: (old(to).amount + 1) as u64,
                        ..*old(to)
                    })
                },
                Err(e) => {
                    &&& old(self).transfer_failure(*old(to)) == Some(e)
                    &&& *final(self) == *old(self)
                    &&& *final(to) == *old(to)
                },
            },
    {
        if self.frozen {
            return Err(Error::AccountFrozen);
        }
        if self.amount < 1 {
            return Err(Error::InsufficientFunds);
        }
        if to.frozen {
            return Err(Error::AccountFrozen);
        }
        if to.amount == u64::MAX {
            return Err(Error::ArithmeticOverflow);
        }
        self.amount = self.amount - 1;
        to.amount = to.amount + 1;
        Ok(())
    }
}

impl Registry {
    /// Whether the registry is sound: no identifier occurs twice, the
    /// storage is large enough for the items and within the largest size,
    /// and the escrow covers the points of all items.
    pub open spec fn wf(self) -> bool {
        &&& distinct(self.collection.items@)
        &&& required_space(self.collection.items@.len()) <= self.space <= MAX_SPACE
        &&& total_points(self.collection.items@) <= self.lamports
    }
}

} // verus!
