//! Arming the recovery of a vault.

use vstd::prelude::*;
use crate::address::Address;
use crate::error::CustomError;
use crate::vault::{Vault, RECOVERY_DELAY};

verus! {

/// What triggering recovery works on.
#[derive(Clone, Copy, Debug, PartialEq, Eq)]
pub struct TriggerRecovery {
    /// The record of the vault whose recovery is triggered.
    pub vault: Vault,
    /// The caller.
    pub user: Address,
}

impl Vault {
    /// Whether recovery can be triggered at `now` without the time at which it
    /// is ready leaving the range of a timestamp.
    pub open spec fn can_arm(now: i64) -> bool {
        now + RECOVERY_DELAY <= i64::MAX
    }

    /// The record with recovery triggered at `now`: it is enabled, and ready
    /// `RECOVERY_DELAY` later.
    pub open spec fn armed(self, now: i64) -> Vault
        recommends
            Self::can_arm(now),
    {
        Vault { recovery_enabled: true, recovery_req_time: (now + RECOVERY_DELAY) as i64, ..self }
    }

    /// How `user`'s triggering recovery at `now` ends: only the backup
    /// identity may do it, and the time at which recovery is ready must be a
    /// timestamp.
    pub open spec fn recovery_verdict(self, user: Address, now: i64) -> Result<(), CustomError> {
        if user != self.backup_adr {
            Err(CustomError::NotAuthorized)
        } else if !Self::can_arm(now) {
            Err(CustomError::Overflow)
        } else {
            Ok(())
        }
    }

    /// The record after `user` has tried to trigger recovery at `now`: armed
    /// where the call succeeds, unchanged where it fails.
    pub open spec fn after_trigger(self, user: Address, now: i64) -> Vault {
        if self.recovery_verdict(user, now) is Ok {
            self.armed(now)
        } else {
            self
        }
    }
}

/// Triggers recovery at the time `now`: from `now + RECOVERY_DELAY` on the
/// backup identity may withdraw. Triggering it again sets that time anew.
///
/// Fails with `NotAuthorized` where the caller is not the vault's backup
/// identity, and with `Overflow` where `now + RECOVERY_DELAY` is no timestamp.
/// A failed call changes nothing.
pub fn trigger_recovery(ctx: &mut TriggerRecovery, now: i64) -> (result: Result<(), CustomError>)
    ensures
        result == old(ctx).vault.recovery_verdict(old(ctx).user, now),
        *final(ctx) == (TriggerRecovery {
            vault: old(ctx).vault.after_trigger(old(ctx).user, now),
            ..*old(ctx)
        }),
        result is Ok <==> old(ctx).user == old(ctx).vault.backup_adr && now + RECOVERY_DELAY
            <= i64::MAX,
        result is Ok ==> final(ctx).vault.recovery_enabled && final(ctx).vault.recovery_req_time
            == now + RECOVERY_DELAY,
        result is Err ==> *final(ctx) == *old(ctx),
{
    if ctx.user != ctx.vault.backup_adr {
        return Err(CustomError::NotAuthorized);
    }
    match now.checked_add(RECOVERY_DELAY) {
        Some(ready) => {
            ctx.vault.recovery_enabled = true;
            ctx.vault.recovery_req_time = ready;
            Ok(())
        },
        None => Err(CustomError::Overflow),
    }
}

} // verus!
