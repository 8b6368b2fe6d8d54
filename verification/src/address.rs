//! Account addresses and the text under which the metadata store records them.

use anchor_lang::prelude::Pubkey;
use vstd::prelude::*;

verus! {

/// The 32-byte address of an account: a wallet, an item, the registry.
#[derive(Clone, Copy, Debug, PartialEq, Eq)]
pub struct Address {
    pub bytes: [u8; 32],
}

/// The base-58 text of an address, as `Pubkey`'s `Display` writes it.
pub uninterp spec fn base58_text(bytes: Seq<u8>) -> Seq<char>;

/// Calls `Pubkey::new_from_array` and then `to_string` on the result, which
/// encodes the 32 bytes in base 58. The text depends on the bytes alone; the
/// contract names it and claims nothing more of it.
#[verifier::external_body]
fn pubkey_text(bytes: &[u8; 32]) -> (r: String)
    ensures
        r@ == base58_text(bytes@),
{
    Pubkey::new_from_array(*bytes).to_string()
}

impl View for Address {
    type V = Seq<u8>;

    open spec fn view(&self) -> Seq<u8> {
        self.bytes@
    }
}

impl Address {
    /// The text that stands for this address in an item's `owner` field.
    pub open spec fn text(self) -> Seq<char> {
        base58_text(self@)
    }

    /// Writes the address as text.
    pub fn to_text(&self) -> (r: String)
        ensures
            r@ == self.text(),
    {
        pubkey_text(&self.bytes)
    }

    /// Whether two addresses hold the same bytes.
    pub fn same(&self, other: &Address) -> (r: bool)
        ensures
            r == (self@ == other@),
    {
        let mut i: usize = 0;
        while i < 32
            invariant
                i <= 32,
                forall|j: int| 0 <= j < i ==> self.bytes@[j] == other.bytes@[j],
            decreases 32 - i,
        {
            if self.bytes[i] != other.bytes[i] {
                return false;
            }
            i += 1;
        }
        assert(self.bytes@ =~= other.bytes@);
        true
    }
}

} // verus!
