//! What holds of a vault whatever is done with it.

use vstd::prelude::*;
use crate::address::Address;
use crate::error::CustomError;
use crate::history::Event;
use crate::initialize::Initialize;
use crate::vault::{fee_of, payout_of, Vault, RECOVERY_DELAY};
use crate::withdrawl::Withdrawl;

verus! {

/// The sum of `amounts`.
pub open spec fn total(amounts: Seq<u64>) -> nat
    decreases amounts.len(),
{
    if amounts.len() == 0 {
        0
    } else {
        total(amounts.drop_last()) + amounts.last() as nat
    }
}

/// The deposits of `amounts`, one after the other, the ledger having made the
/// transfer of each.
pub open spec fn deposits(amounts: Seq<u64>) -> Seq<Event> {
    Seq::new(amounts.len(), |i: int| Event::Deposit { amount: amounts[i], moved: Ok(()) })
}

/// Whether every one of `events`, in its turn, succeeds on `vault`.
pub open spec fn all_succeed(vault: Vault, events: Seq<Event>) -> bool {
    forall|i: int| 0 <= i < events.len() ==> (#[trigger] vault.after_all(events.take(i))).verdict(
        events[i],
    ) is Ok
}

/// Whether `after` has the terms of `before`: the same owner, backup identity,
/// unlock time and nonce, and recovery triggered if it was so before.
pub open spec fn keeps_terms(before: Vault, after: Vault) -> bool {
    &&& after.owner == before.owner
    &&& after.backup_adr == before.backup_adr
    &&& after.unlock_time == before.unlock_time
    &&& after.bump == before.bump
    &&& before.recovery_enabled ==> after.recovery_enabled
}

/// Payout and fee make up the balance between them. The payout is the balance
/// less a tenth of it rounded down, so it is nine tenths of the balance
/// rounded up: it equals `amount * 90 / 100` exactly when the balance is a
/// multiple of ten, and is one more otherwise.
pub proof fn lemma_payout_and_fee(amount: u64)
    ensures
        payout_of(amount) + fee_of(amount) == amount,
        fee_of(amount) == amount / 10,
        payout_of(amount) == amount - amount / 10,
        amount % 10 == 0 ==> payout_of(amount) == amount * 90 / 100,
        amount % 10 != 0 ==> payout_of(amount) == amount * 90 / 100 + 1,
{
}

/// Successful deposits add up: after them the balance is what it was plus
/// their sum, and nothing else in the record has changed.
pub proof fn lemma_deposits_add_up(vault: Vault, amounts: Seq<u64>)
    requires
        all_succeed(vault, deposits(amounts)),
    ensures
        vault.after_all(deposits(amounts)).amount == vault.amount + total(amounts),
        vault.after_all(deposits(amounts)) == vault.holding(
            vault.after_all(deposits(amounts)).amount,
        ),
    decreases amounts.len(),
{
    let events = deposits(amounts);
    if amounts.len() > 0 {
        let earlier = amounts.drop_last();
        assert(deposits(earlier) =~= events.drop_last());
        assert forall|i: int| 0 <= i < earlier.len() implies (#[trigger] vault.after_all(
            deposits(earlier).take(i),
        )).verdict(deposits(earlier)[i]) is Ok by {
            assert(deposits(earlier).take(i) =~= events.take(i));
        }
        lemma_deposits_add_up(vault, earlier);
    }
}

/// Balance conservation: after any run of successful deposits into an empty
/// vault, a granted withdrawal takes their sum `total` out of the record and
/// pays out `total * 90 / 100`; the fee that stays behind is the rest of the
/// sum. This is stated of sums that are multiples of ten;
/// `lemma_payout_and_fee` says what is paid of the others.
pub proof fn lemma_balance_conservation(vault: Vault, amounts: Seq<u64>, ctx: Withdrawl, now: i64)
    requires
        vault.amount == 0,
        all_succeed(vault, deposits(amounts)),
        ctx.vault == vault.after_all(deposits(amounts)),
        ctx.vault.withdrawal_refusal(ctx.owner, ctx.user, now) is None,
        total(amounts) % 10 == 0,
    ensures
        ctx.release_of().held == total(amounts),
        ctx.release_of().transfer.amount == total(amounts) * 90 / 100,
        fee_of(ctx.release_of().held) == total(amounts) - ctx.release_of().transfer.amount,
        ctx.vault.after_withdrawal(ctx.owner, ctx.user, now, Ok(())).amount == 0,
{
    lemma_deposits_add_up(vault, amounts);
    lemma_payout_and_fee(ctx.vault.amount);
}

/// The timelock gate: the owner, naming their own vault, is refused with
/// `UnlockTimeNotReached` at every time before the unlock time, and at every
/// other time the withdrawal is granted and ends as the ledger's transfer
/// does.
pub proof fn lemma_timelock_gate(vault: Vault, now: i64, moved: Result<(), CustomError>)
    ensures
        now < vault.unlock_time ==> vault.withdrawal_refusal(vault.owner, vault.owner, now)
            == Some(CustomError::UnlockTimeNotReached),
        now >= vault.unlock_time ==> vault.withdrawal_refusal(vault.owner, vault.owner, now)
            is None,
        now >= vault.unlock_time ==> vault.withdrawal_verdict(vault.owner, vault.owner, now, moved)
            == moved,
{
}

/// The recovery gate: the backup identity, naming the vault's owner and not
/// being the owner itself, is refused with `RecoveryNotTriggered` as long as
/// recovery is not enabled, and with `RecoveryIsNotFinished` once it is
/// enabled and until it is ready; from then on the withdrawal is granted and
/// ends as the ledger's transfer does.
pub proof fn lemma_recovery_gate(vault: Vault, now: i64, moved: Result<(), CustomError>)
    requires
        vault.backup_adr != vault.owner,
    ensures
        !vault.recovery_enabled ==> vault.withdrawal_refusal(vault.owner, vault.backup_adr, now)
            == Some(CustomError::RecoveryNotTriggered),
        vault.recovery_enabled && now < vault.recovery_req_time ==> vault.withdrawal_refusal(
            vault.owner,
            vault.backup_adr,
            now,
        ) == Some(CustomError::RecoveryIsNotFinished),
        vault.recovery_enabled && now >= vault.recovery_req_time ==> vault.withdrawal_refusal(
            vault.owner,
            vault.backup_adr,
            now,
        ) is None,
        vault.recovery_enabled && now >= vault.recovery_req_time ==> vault.withdrawal_verdict(
            vault.owner,
            vault.backup_adr,
            now,
            moved,
        ) == moved,
{
}

/// Only two identities can be granted a withdrawal: the owner and the backup
/// identity. Whoever else asks, or whoever names a vault by the wrong owner, is
/// refused with `NotAuthorized`.
pub proof fn lemma_withdrawal_is_reserved(vault: Vault, owner: Address, user: Address, now: i64)
    ensures
        vault.withdrawal_refusal(owner, user, now) is None ==> owner == vault.owner && (user
            == vault.owner || user == vault.backup_adr),
        owner != vault.owner || (user != vault.owner && user != vault.backup_adr)
            ==> vault.withdrawal_refusal(owner, user, now) == Some(CustomError::NotAuthorized),
{
}

/// Authorization isolation: whoever is not the vault's backup identity cannot
/// trigger recovery. The call fails with `NotAuthorized` on every record and at
/// every time, and leaves the record, with its recovery flag and time, as it
/// was.
pub proof fn lemma_recovery_is_reserved(vault: Vault, user: Address, now: i64)
    requires
        user != vault.backup_adr,
    ensures
        vault.recovery_verdict(user, now) == Err::<(), CustomError>(CustomError::NotAuthorized),
        vault.after_trigger(user, now) == vault,
        vault.after_trigger(user, now).recovery_enabled == vault.recovery_enabled,
        vault.after_trigger(user, now).recovery_req_time == vault.recovery_req_time,
{
}

/// Triggering recovery again sets the time at which it is ready anew: after
/// any two successful calls that time is `RECOVERY_DELAY` past the second.
pub proof fn lemma_recovery_rearms(vault: Vault, first: i64, second: i64)
    requires
        Vault::can_arm(first),
        Vault::can_arm(second),
    ensures
        vault.armed(first).armed(second).recovery_enabled,
        vault.armed(first).armed(second).recovery_req_time == second + RECOVERY_DELAY,
        vault.armed(first).armed(second) == vault.armed(second),
{
}

/// A vault is opened once: where a place holds a record, every further attempt
/// to open one there fails with `AlreadyInitialized` and leaves the record as
/// it is. So it is after any successful attempt, whoever makes the next one and
/// whatever unlock time and backup identity it names.
pub proof fn lemma_initialize_once(
    ctx: Initialize,
    unlock_time: i64,
    backup_adr: Address,
    again: Initialize,
    other_unlock_time: i64,
    other_backup_adr: Address,
)
    requires
        ctx.verdict() is Ok,
        again.vault == ctx.initialized(unlock_time, backup_adr).vault,
    ensures
        again.vault == Some(Vault::opened(ctx.user, unlock_time, backup_adr, ctx.bump)),
        again.verdict() == Err::<(), CustomError>(CustomError::AlreadyInitialized),
        again.initialized(other_unlock_time, other_backup_adr) == again,
{
}

/// Atomic withdrawal: where the ledger's transfer fails, a granted withdrawal
/// ends with the ledger's error, and putting the held balance back makes the
/// record what it was before the withdrawal began.
pub proof fn lemma_failed_withdrawal_leaves_no_trace(ctx: Withdrawl, now: i64, error: CustomError)
    requires
        ctx.vault.withdrawal_refusal(ctx.owner, ctx.user, now) is None,
    ensures
        ctx.vault.emptied().holding(ctx.release_of().held) == ctx.vault,
        ctx.vault.after_withdrawal(ctx.owner, ctx.user, now, Err(error)) == ctx.vault,
        ctx.vault.withdrawal_verdict(ctx.owner, ctx.user, now, Err(error)) == Err::<
            (),
            CustomError,
        >(error),
{
}

/// An event that fails changes nothing, whichever it is.
pub proof fn lemma_failure_changes_nothing(vault: Vault, event: Event)
    requires
        vault.verdict(event) is Err,
    ensures
        vault.after(event) == vault,
{
}

/// No run of events changes a vault's terms: its owner, backup identity,
/// unlock time and nonce stay as they were at its opening, and recovery, once
/// triggered, stays triggered.
pub proof fn lemma_terms_are_kept(vault: Vault, events: Seq<Event>)
    ensures
        keeps_terms(vault, vault.after_all(events)),
    decreases events.len(),
{
    if events.len() > 0 {
        lemma_terms_are_kept(vault, events.drop_last());
    }
}

/// The balance is what was paid in and not taken out: after any run of
/// events, the balance and what the successful withdrawals took out make up
/// what the record held at first and what the successful deposits paid in.
pub proof fn lemma_balance_is_accounted_for(vault: Vault, events: Seq<Event>)
    ensures
        vault.after_all(events).amount + vault.taken_out(events) == vault.amount + vault.paid_in(
            events,
        ),
    decreases events.len(),
{
    if events.len() > 0 {
        lemma_balance_is_accounted_for(vault, events.drop_last());
    }
}

} // verus!
