use vstd::prelude::*;

verus! {

/// A 256-bit account identity, as the surrounding ledger names holders of
/// balances: wallets, vaults, pools and token mints alike.
///
/// The protocol never inspects an identity beyond comparing it for
/// equality; the four words carry the raw bytes of the ledger's own
/// address form.
#[derive(Clone, Copy, PartialEq, Eq, Structural, Debug, Hash)]
pub struct AccountId {
    pub w0: u64,
    pub w1: u64,
    pub w2: u64,
    pub w3: u64,
}

impl AccountId {
    /// Builds an identity from its four 64-bit words.
    pub fn new(w0: u64, w1: u64, w2: u64, w3: u64) -> (r: AccountId)
        ensures
            r == (AccountId { w0, w1, w2, w3 }),
    {
        AccountId { w0, w1, w2, w3 }
    }
}

} // verus!
