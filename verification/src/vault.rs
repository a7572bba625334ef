//! The vault record and the arithmetic of its balance.

use vstd::prelude::*;
use crate::address::Address;

verus! {

/// Time that must pass between triggering recovery and the backup identity's
/// first permitted withdrawal.
pub const RECOVERY_DELAY: i64 = 10;

/// Share of a withdrawn balance, in percent, that is kept back as a fee.
pub const FEE_PERCENT: u64 = 10;

/// The record kept for one owner.
#[derive(Clone, Copy, Debug, PartialEq, Eq)]
pub struct Vault {
    /// The identity that created the vault. Never changes.
    pub owner: Address,
    /// The balance held in custody, in the ledger's base units.
    pub amount: u64,
    /// The identity that may recover the funds. Never changes.
    pub backup_adr: Address,
    /// The owner may not withdraw before this time. Never changes.
    pub unlock_time: i64,
    /// Whether recovery has been triggered. Once set it stays set.
    pub recovery_enabled: bool,
    /// From this time on the backup identity may withdraw. It has a meaning
    /// only while `recovery_enabled` is set.
    pub recovery_req_time: i64,
    /// The nonce found when the vault's address was derived. The vault's
    /// authority over its custody account is reconstructed from it.
    pub bump: u8,
}

/// The fee on a withdrawn balance: `FEE_PERCENT` percent of it, rounded down.
pub open spec fn fee_of(amount: u64) -> u64 {
    (amount * FEE_PERCENT / 100) as u64
}

/// What is paid out of a withdrawn balance: all of it but the fee.
pub open spec fn payout_of(amount: u64) -> u64 {
    (amount - fee_of(amount)) as u64
}

/// Computes the fee on a withdrawn balance.
pub fn fee(amount: u64) -> (fee: u64)
    ensures
        fee == fee_of(amount),
        fee == amount * FEE_PERCENT / 100,
        fee <= amount,
{
    assert(amount * FEE_PERCENT == amount * 10) by (nonlinear_arith)
        requires
            FEE_PERCENT == 10,
    ;
    let wide: u128 = amount as u128 * FEE_PERCENT as u128 / 100;
    wide as u64
}

/// Computes what is paid out of a withdrawn balance.
pub fn payout(amount: u64) -> (payout: u64)
    ensures
        payout == payout_of(amount),
        payout + fee_of(amount) == amount,
{
    amount - fee(amount)
}

impl Vault {
    /// The record as it is created: empty, with recovery not triggered.
    pub open spec fn opened(owner: Address, unlock_time: i64, backup_adr: Address, bump: u8) -> Vault {
        Vault {
            owner,
            amount: 0,
            backup_adr,
            unlock_time,
            recovery_enabled: false,
            recovery_req_time: 0,
            bump,
        }
    }

    /// Creates the record of a vault that has just been opened.
    pub fn new(owner: Address, unlock_time: i64, backup_adr: Address, bump: u8) -> (vault: Vault)
        ensures
            vault == Vault::opened(owner, unlock_time, backup_adr, bump),
    {
        Vault {
            owner,
            amount: 0,
            backup_adr,
            unlock_time,
            recovery_enabled: false,
            recovery_req_time: 0,
            bump,
        }
    }
}

} // verus!
