//! What the vault asks of the funds ledger. The ledger itself is somebody
//! else's: this crate says which transfer is to be made and is told how it went.

use vstd::prelude::*;
use crate::address::Address;

verus! {

/// On whose word the ledger moves funds out of an account.
#[derive(Clone, Copy, Debug, PartialEq, Eq)]
pub enum Authority {
    /// The named identity signs for the transfer itself.
    Signer(Address),
    /// The vault of `owner` authorizes the transfer. Nobody holds a key for a
    /// vault's address: its authority is shown by the seeds that the address
    /// was derived from, closed by the nonce `bump`.
    Vault { owner: Address, bump: u8 },
}

/// One transfer for the ledger to carry out: `amount` from the account `from`
/// to the account `to`, on the word of `authority`.
#[derive(Clone, Copy, Debug, PartialEq, Eq)]
pub struct Transfer {
    pub from: Address,
    pub to: Address,
    pub authority: Authority,
    pub amount: u64,
}

} // verus!
