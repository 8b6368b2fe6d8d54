//! The ways in which an operation on the registry fails.

use vstd::prelude::*;
use vstd::string::*;

verus! {

/// Failures of the auction's own rules.
#[derive(Clone, Copy, Debug, PartialEq, Eq, Structural)]
pub enum OverbidError {
    /// The item's metadata has no `overbid` field.
    MissingOverbidField,
    /// The `overbid` field is not the text of an amount.
    InvalidOverbidValue,
    /// The bid does not exceed the standing one by the minimum increment.
    BidTooLow,
    /// The caller is not the owner that the item's metadata records.
    WrongOwner,
}

impl OverbidError {
    /// The message that goes with the failure, as a text of its own.
    pub open spec fn message_text(self) -> Seq<char> {
        match self {
            OverbidError::MissingOverbidField => "Overbid field is missing in token metadata"@,
            OverbidError::InvalidOverbidValue => "Invalid overbid value in token metadata"@,
            OverbidError::BidTooLow => "New bid must be higher than the current value to overbid"@,
            OverbidError::WrongOwner => "Wrong Owner"@,
        }
    }

    /// The message that goes with the failure.
    pub fn message(&self) -> (r: String)
        ensures
            r@ == self.message_text(),
    {
        match self {
            OverbidError::MissingOverbidField => String::from_str(
                "Overbid field is missing in token metadata",
            ),
            OverbidError::InvalidOverbidValue => String::from_str(
                "Invalid overbid value in token metadata",
            ),
            OverbidError::BidTooLow => String::from_str(
                "New bid must be higher than the current value to overbid",
            ),
            OverbidError::WrongOwner => String::from_str("Wrong Owner"),
        }
    }
}

/// Every failure of an operation. A failed operation changes nothing.
#[derive(Clone, Copy, Debug, PartialEq, Eq, Structural)]
pub enum Error {
    /// A rule of the auction was not met.
    Overbid(OverbidError),
    /// The item or its metadata is missing or malformed.
    InvalidAccountData,
    /// What was to be created exists already.
    AlreadyInitialized,
    /// A wallet or a holding slot holds less than is to leave it.
    InsufficientFunds,
    /// A balance or a sum does not fit in 64 bits, the escrow holds less
    /// than is to leave it, or there is no item to divide a bid among.
    ArithmeticOverflow,
    /// The registry's storage cannot grow to the size asked for.
    InvalidRealloc,
    /// A holding slot that takes part in a transfer is locked.
    AccountFrozen,
    /// A holding slot was to be locked while locked, or unlocked while unlocked.
    InvalidState,
}

} // verus!
