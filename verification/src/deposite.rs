//! Paying into a vault.

use vstd::prelude::*;
use crate::address::Address;
use crate::error::CustomError;
use crate::ledger::{Authority, Transfer};
use crate::vault::Vault;

verus! {

/// What a deposit works on.
#[derive(Clone, Copy, Debug, PartialEq, Eq)]
pub struct Deposite {
    /// The vault's custody account, which receives the funds.
    pub vault_ata: Address,
    /// The caller's funds account, which the funds are taken from.
    pub user_ata: Address,
    /// The record of the vault that is paid into.
    pub vault: Vault,
    /// The caller. Anyone may pay into any vault.
    pub user: Address,
}

impl Vault {
    /// Whether `amount` more can be credited without the balance leaving its
    /// range.
    pub open spec fn can_credit(self, amount: u64) -> bool {
        self.amount + amount <= u64::MAX
    }

    /// The record with `amount` more in its balance.
    pub open spec fn credited(self, amount: u64) -> Vault
        recommends
            self.can_credit(amount),
    {
        Vault { amount: (self.amount + amount) as u64, ..self }
    }

    /// How a deposit of `amount` ends, the ledger having answered `moved` to
    /// its transfer: with the ledger's own error where the transfer failed,
    /// with `Overflow` where the balance cannot take the amount.
    pub open spec fn deposit_verdict(self, amount: u64, moved: Result<(), CustomError>) -> Result<
        (),
        CustomError,
    > {
        match moved {
            Err(error) => Err(error),
            Ok(()) => if self.can_credit(amount) {
                Ok(())
            } else {
                Err(CustomError::Overflow)
            },
        }
    }

    /// The record after a deposit of `amount`, the ledger having answered
    /// `moved`: the balance is raised by `amount` where the deposit succeeds,
    /// and nothing changes where it fails.
    pub open spec fn after_deposit(self, amount: u64, moved: Result<(), CustomError>) -> Vault {
        if self.deposit_verdict(amount, moved) is Ok {
            self.credited(amount)
        } else {
            self
        }
    }
}

impl Deposite {
    /// The transfer that a deposit of `amount` asks of the ledger: from the
    /// caller's account to the custody account, on the caller's own signature.
    pub open spec fn transfer_of(self, amount: u64) -> Transfer {
        Transfer {
            from: self.user_ata,
            to: self.vault_ata,
            authority: Authority::Signer(self.user),
            amount,
        }
    }

    /// Says which transfer a deposit of `amount` needs, before any funds move.
    /// Fails with `Overflow` where the vault's balance could not take the
    /// amount, so that no transfer is made in vain.
    pub fn transfer(&self, amount: u64) -> (request: Result<Transfer, CustomError>)
        ensures
            request == if self.vault.can_credit(amount) {
                Ok::<Transfer, CustomError>(self.transfer_of(amount))
            } else {
                Err::<Transfer, CustomError>(CustomError::Overflow)
            },
    {
        if amount > u64::MAX - self.vault.amount {
            return Err(CustomError::Overflow);
        }
        Ok(
            Transfer {
                from: self.user_ata,
                to: self.vault_ata,
                authority: Authority::Signer(self.user),
                amount,
            },
        )
    }
}

/// Books a deposit of `amount`, once the ledger has answered `moved` to the
/// transfer of `Deposite::transfer`. An amount of zero is a deposit like any
/// other, and leaves the balance as it is.
///
/// Where the transfer succeeded and the balance can take the amount, the
/// balance is raised by it. Where the transfer failed, the ledger's error is
/// handed on; where the balance would leave its range, the error is
/// `Overflow`. A failed deposit changes nothing.
pub fn deposite(ctx: &mut Deposite, amount: u64, moved: Result<(), CustomError>) -> (result: Result<
    (),
    CustomError,
>)
    ensures
        result == old(ctx).vault.deposit_verdict(amount, moved),
        *final(ctx) == (Deposite {
            vault: old(ctx).vault.after_deposit(amount, moved),
            ..*old(ctx)
        }),
        result is Ok <==> moved is Ok && old(ctx).vault.amount + amount <= u64::MAX,
        result is Ok ==> final(ctx).vault.amount == old(ctx).vault.amount + amount,
        result is Err ==> *final(ctx) == *old(ctx),
{
    if let Err(error) = moved {
        return Err(error);
    }
    match ctx.vault.amount.checked_add(amount) {
        Some(raised) => {
            ctx.vault.amount = raised;
            Ok(())
        },
        None => Err(CustomError::Overflow),
    }
}

} // verus!
