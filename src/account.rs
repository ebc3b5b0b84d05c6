use vstd::prelude::*;

verus! {

/// An opaque 32-byte identity of an account on the ledger, held as its
/// high and low 16 bytes (big-endian).
#[derive(Clone, Copy, Debug, PartialEq, Eq, Structural)]
pub struct AccountId {
    pub hi: u128,
    pub lo: u128,
}

/// The all-zero account, the default for absent donation records.
pub open spec fn zero_account() -> AccountId {
    AccountId { hi: 0, lo: 0 }
}

/// The canonical all-zero account. It has a known private key, so it must
/// not be treated as special beyond serving as a placeholder.
pub fn zero_address() -> (r: AccountId)
    ensures
        r == zero_account(),
{
    AccountId { hi: 0, lo: 0 }
}

} // verus!
