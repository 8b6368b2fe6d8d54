//! The four operations on the registry, each with the accounts it works on.

pub mod bid;
pub mod initialize;
pub mod mint;
pub mod redeem;
