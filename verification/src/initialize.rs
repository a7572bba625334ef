//! Opening a vault.

use vstd::prelude::*;
use crate::address::Address;
use crate::error::CustomError;
use crate::vault::Vault;

verus! {

/// What opening a vault works on.
#[derive(Clone, Copy, Debug, PartialEq, Eq)]
pub struct Initialize {
    /// The place kept for the caller's vault at its derived address: `None`
    /// until a record has been created there.
    pub vault: Option<Vault>,
    /// The caller, who becomes the owner.
    pub user: Address,
    /// The nonce found when the address of the place was derived.
    pub bump: u8,
}

impl Initialize {
    /// Whether a vault can be opened here, and if not, why.
    pub open spec fn verdict(self) -> Result<(), CustomError> {
        if self.vault is Some {
            Err(CustomError::AlreadyInitialized)
        } else {
            Ok(())
        }
    }

    /// The place after an attempt to open a vault with the given unlock time
    /// and backup identity: it holds the new record where it was free, and is
    /// untouched where it was taken.
    pub open spec fn initialized(self, unlock_time: i64, backup_adr: Address) -> Initialize {
        if self.vault is Some {
            self
        } else {
            Initialize {
                vault: Some(Vault::opened(self.user, unlock_time, backup_adr, self.bump)),
                ..self
            }
        }
    }
}

/// Opens the caller's vault: creates its record, empty and with recovery not
/// triggered, with the caller as owner and the unlock time and backup identity
/// as given. Neither is checked: an unlock time in the past gives a vault that
/// is open at once, and the backup identity may be the owner.
///
/// Fails with `AlreadyInitialized`, changing nothing, where a record exists
/// already.
pub fn initialize(ctx: &mut Initialize, unlock_time: i64, backup_adr: Address) -> (result: Result<
    (),
    CustomError,
>)
    ensures
        result == old(ctx).verdict(),
        *final(ctx) == old(ctx).initialized(unlock_time, backup_adr),
{
    if ctx.vault.is_some() {
        return Err(CustomError::AlreadyInitialized);
    }
    ctx.vault = Some(Vault::new(ctx.user, unlock_time, backup_adr, ctx.bump));
    Ok(())
}

} // verus!
