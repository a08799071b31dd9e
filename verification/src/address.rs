//! Account addresses: the identity of packages and of the objects that hold them.

use vstd::prelude::*;

verus! {

/// A 256-bit address. `hi` holds the sixteen most significant bytes and `lo`
/// the sixteen least significant ones, so that the address `0x2` is
/// `AccountAddress { hi: 0, lo: 2 }`.
#[derive(Clone, Copy, Debug, PartialEq, Eq, Hash, Structural)]
pub struct AccountAddress {
    pub hi: u128,
    pub lo: u128,
}

impl AccountAddress {
    /// The address made of the two given words.
    pub fn new(hi: u128, lo: u128) -> (address: AccountAddress)
        ensures
            address == (AccountAddress { hi, lo }),
    {
        AccountAddress { hi, lo }
    }

    /// The pair of integers under which the address is filed in a cache.
    pub open spec fn key(self) -> (u128, u128) {
        (self.hi, self.lo)
    }

    /// Computes [`AccountAddress::key`].
    pub fn to_key(&self) -> (key: (u128, u128))
        ensures
            key == self.key(),
    {
        (self.hi, self.lo)
    }
}

/// Whether `id` occurs in `ids`.
pub fn contains_address(ids: &Vec<AccountAddress>, id: AccountAddress) -> (found: bool)
    ensures
        found == ids@.contains(id),
{
    let mut i: usize = 0;
    while i < ids.len()
        invariant
            i <= ids.len(),
            forall|j: int| 0 <= j < i ==> ids@[j] != id,
        decreases ids.len() - i,
    {
        if ids[i] == id {
            return true;
        }
        i += 1;
    }
    false
}

} // verus!
