//! Everything that can happen to a vault once it is open, and the record that
//! a run of such events leaves behind.

use vstd::prelude::*;
use crate::address::Address;
use crate::error::CustomError;
use crate::vault::Vault;

verus! {

/// One operation on an open vault, as it was asked for and as the ledger
/// answered it.
#[derive(Clone, Copy, Debug, PartialEq, Eq)]
pub enum Event {
    /// A deposit of `amount`; the ledger answered `moved` to its transfer.
    Deposit { amount: u64, moved: Result<(), CustomError> },
    /// `user` triggered recovery at `now`.
    TriggerRecovery { user: Address, now: i64 },
    /// `user` asked for a withdrawal at `now`, naming the vault of `owner`;
    /// the ledger answered `moved` to its transfer.
    Withdrawal { owner: Address, user: Address, now: i64, moved: Result<(), CustomError> },
}

impl Vault {
    /// How `event` ends on this record.
    pub open spec fn verdict(self, event: Event) -> Result<(), CustomError> {
        match event {
            Event::Deposit { amount, moved } => self.deposit_verdict(amount, moved),
            Event::TriggerRecovery { user, now } => self.recovery_verdict(user, now),
            Event::Withdrawal { owner, user, now, moved } => self.withdrawal_verdict(
                owner,
                user,
                now,
                moved,
            ),
        }
    }

    /// The record after `event`.
    pub open spec fn after(self, event: Event) -> Vault {
        match event {
            Event::Deposit { amount, moved } => self.after_deposit(amount, moved),
            Event::TriggerRecovery { user, now } => self.after_trigger(user, now),
            Event::Withdrawal { owner, user, now, moved } => self.after_withdrawal(
                owner,
                user,
                now,
                moved,
            ),
        }
    }

    /// The record after `events`, one after the other.
    pub open spec fn after_all(self, events: Seq<Event>) -> Vault
        decreases events.len(),
    {
        if events.len() == 0 {
            self
        } else {
            self.after_all(events.drop_last()).after(events.last())
        }
    }

    /// What the successful deposits among `events` have paid in.
    pub open spec fn paid_in(self, events: Seq<Event>) -> nat
        decreases events.len(),
    {
        if events.len() == 0 {
            0
        } else {
            let before = self.after_all(events.drop_last());
            let so_far = self.paid_in(events.drop_last());
            match events.last() {
                Event::Deposit { amount, moved } if before.deposit_verdict(amount, moved) is Ok => {
                    so_far + amount as nat
                },
                _ => so_far,
            }
        }
    }

    /// What the successful withdrawals among `events` have taken out: each of
    /// them the whole balance of its time, payout and fee together.
    pub open spec fn taken_out(self, events: Seq<Event>) -> nat
        decreases events.len(),
    {
        if events.len() == 0 {
            0
        } else {
            let before = self.after_all(events.drop_last());
            let so_far = self.taken_out(events.drop_last());
            if events.last() is Withdrawal && before.verdict(events.last()) is Ok {
                so_far + before.amount as nat
            } else {
                so_far
            }
        }
    }
}

} // verus!
