//! Paying out of a vault.

use vstd::prelude::*;
use crate::address::Address;
use crate::error::CustomError;
use crate::ledger::{Authority, Transfer};
use crate::vault::{payout, payout_of, Vault};

verus! {

/// What a withdrawal works on.
#[derive(Clone, Copy, Debug, PartialEq, Eq)]
pub struct Withdrawl {
    /// The owner that the caller names to say which vault is meant.
    pub owner: Address,
    /// The vault's custody account, which the funds are taken from.
    pub vault_ata: Address,
    /// The account that the funds are paid out to.
    pub user_ata: Address,
    /// The record of the vault that is paid out of.
    pub vault: Vault,
    /// The caller, who asks for the payout.
    pub user: Address,
}

/// A withdrawal that has been granted and whose transfer is under way.
#[derive(Clone, Copy, Debug, PartialEq, Eq)]
pub struct Release {
    /// The transfer that pays out: the balance less the fee, from the custody
    /// account, on the vault's own authority. No transfer is asked for the fee:
    /// it stays behind in the custody account.
    pub transfer: Transfer,
    /// The balance that the vault held when the withdrawal was granted.
    pub held: u64,
}

impl Vault {
    /// Why `user`, naming the vault of `owner`, is refused a withdrawal at
    /// `now`, or `None` where it is granted. The tests are made in this order:
    /// the named owner must be the vault's; the owner must wait for the unlock
    /// time; the backup identity must have triggered recovery, and must wait
    /// until it is ready; nobody else may withdraw.
    pub open spec fn withdrawal_refusal(self, owner: Address, user: Address, now: i64) -> Option<
        CustomError,
    > {
        if owner != self.owner {
            Some(CustomError::NotAuthorized)
        } else if user == self.owner {
            if now >= self.unlock_time {
                None
            } else {
                Some(CustomError::UnlockTimeNotReached)
            }
        } else if user == self.backup_adr {
            if !self.recovery_enabled {
                Some(CustomError::RecoveryNotTriggered)
            } else if now >= self.recovery_req_time {
                None
            } else {
                Some(CustomError::RecoveryIsNotFinished)
            }
        } else {
            Some(CustomError::NotAuthorized)
        }
    }

    /// The record with its balance taken out.
    pub open spec fn emptied(self) -> Vault {
        Vault { amount: 0, ..self }
    }

    /// The record with `amount` as its balance.
    pub open spec fn holding(self, amount: u64) -> Vault {
        Vault { amount, ..self }
    }

    /// How a withdrawal ends that `user` asks for at `now`, naming the vault
    /// of `owner`, the ledger answering `moved` to its transfer: with the
    /// refusal where it is refused, and else as the ledger says.
    pub open spec fn withdrawal_verdict(
        self,
        owner: Address,
        user: Address,
        now: i64,
        moved: Result<(), CustomError>,
    ) -> Result<(), CustomError> {
        match self.withdrawal_refusal(owner, user, now) {
            Some(error) => Err(error),
            None => moved,
        }
    }

    /// The record after such a withdrawal has run its course: empty where it
    /// was granted and the funds have moved, and as it was where it was
    /// refused or the transfer failed.
    pub open spec fn after_withdrawal(
        self,
        owner: Address,
        user: Address,
        now: i64,
        moved: Result<(), CustomError>,
    ) -> Vault {
        if self.withdrawal_verdict(owner, user, now, moved) is Ok {
            self.emptied()
        } else {
            self
        }
    }
}

impl Withdrawl {
    /// The release that the withdrawal leads to where it is granted.
    pub open spec fn release_of(self) -> Release {
        Release {
            transfer: Transfer {
                from: self.vault_ata,
                to: self.user_ata,
                authority: Authority::Vault { owner: self.vault.owner, bump: self.vault.bump },
                amount: payout_of(self.vault.amount),
            },
            held: self.vault.amount,
        }
    }
}

/// Grants or refuses a withdrawal at the time `now`.
///
/// Where it is granted, the balance is taken out of the record before any
/// funds move, and the release that comes back says which transfer pays out:
/// the balance less a fee of `FEE_PERCENT` percent, rounded down. The caller
/// has the ledger make that transfer and reports its answer to `settle`.
///
/// It is refused, and nothing changes, with `NotAuthorized` where the named
/// owner is not the vault's or the caller is neither owner nor backup identity,
/// with `UnlockTimeNotReached` where the owner comes before the unlock time,
/// with `RecoveryNotTriggered` where the backup identity comes before recovery
/// was triggered, and with `RecoveryIsNotFinished` where it comes before
/// recovery is ready.
pub fn withdrawl(ctx: &mut Withdrawl, now: i64) -> (result: Result<Release, CustomError>)
    ensures
        match result {
            Ok(release) => {
                &&& old(ctx).vault.withdrawal_refusal(old(ctx).owner, old(ctx).user, now) is None
                &&& release == old(ctx).release_of()
                &&& *final(ctx) == (Withdrawl { vault: old(ctx).vault.emptied(), ..*old(ctx) })
            },
            Err(error) => {
                &&& old(ctx).vault.withdrawal_refusal(old(ctx).owner, old(ctx).user, now) == Some(
                    error,
                )
                &&& *final(ctx) == *old(ctx)
            },
        },
{
    if ctx.owner != ctx.vault.owner {
        return Err(CustomError::NotAuthorized);
    }
    if ctx.user == ctx.vault.owner {
        if now < ctx.vault.unlock_time {
            return Err(CustomError::UnlockTimeNotReached);
        }
    } else if ctx.user == ctx.vault.backup_adr {
        if !ctx.vault.recovery_enabled {
            return Err(CustomError::RecoveryNotTriggered);
        }
        if now < ctx.vault.recovery_req_time {
            return Err(CustomError::RecoveryIsNotFinished);
        }
    } else {
        return Err(CustomError::NotAuthorized);
    }
    let held = ctx.vault.amount;
    ctx.vault.amount = 0;
    Ok(
        Release {
            transfer: Transfer {
                from: ctx.vault_ata,
                to: ctx.user_ata,
                authority: Authority::Vault { owner: ctx.vault.owner, bump: ctx.vault.bump },
                amount: payout(held),
            },
            held,
        },
    )
}

/// Closes a withdrawal, once the ledger has answered `moved` to the transfer
/// of `release`. Where the funds have moved, the record stays empty. Where
/// they have not, the balance is put back as it was held and the ledger's
/// error is handed on: a withdrawal whose transfer fails leaves no trace.
pub fn settle(ctx: &mut Withdrawl, release: &Release, moved: Result<(), CustomError>) -> (result:
    Result<(), CustomError>)
    ensures
        result == moved,
        moved is Ok ==> *final(ctx) == *old(ctx),
        moved is Err ==> *final(ctx) == (Withdrawl {
            vault: old(ctx).vault.holding(release.held),
            ..*old(ctx)
        }),
{
    if moved.is_err() {
        ctx.vault.amount = release.held;
    }
    moved
}

} // verus!
