use timelockr::{
    deposite, initialize, settle, trigger_recovery, withdrawl, Address, Authority, CustomError,
    Deposite, Initialize, TriggerRecovery, Vault, Withdrawl,
};

fn owner() -> Address {
    Address::new([1u8; 32])
}

fn backup() -> Address {
    Address::new([2u8; 32])
}

fn owner_account() -> Address {
    Address::new([3u8; 32])
}

fn custody_account() -> Address {
    Address::new([4u8; 32])
}

fn backup_account() -> Address {
    Address::new([5u8; 32])
}

fn open(unlock_time: i64) -> Vault {
    let mut ctx = Initialize { vault: None, user: owner(), bump: 254 };
    assert_eq!(initialize(&mut ctx, unlock_time, backup()), Ok(()));
    ctx.vault.unwrap()
}

fn pay_in(vault: Vault, amount: u64) -> Vault {
    let mut ctx = Deposite {
        vault_ata: custody_account(),
        user_ata: owner_account(),
        vault,
        user: owner(),
    };
    assert_eq!(deposite(&mut ctx, amount, Ok(())), Ok(()));
    ctx.vault
}

#[test]
fn owner_waits_for_the_unlock_time_and_is_paid_nine_tenths() {
    let vault = open(1000);
    assert_eq!(vault.amount, 0);
    assert_eq!(vault.owner, owner());
    assert_eq!(vault.backup_adr, backup());
    assert_eq!(vault.unlock_time, 1000);
    assert!(!vault.recovery_enabled);

    let vault = pay_in(vault, 100);
    assert_eq!(vault.amount, 100);

    let mut ctx = Withdrawl {
        owner: owner(),
        vault_ata: custody_account(),
        user_ata: owner_account(),
        vault,
        user: owner(),
    };
    assert_eq!(withdrawl(&mut ctx, 500), Err(CustomError::UnlockTimeNotReached));
    assert_eq!(ctx.vault, vault);

    let release = withdrawl(&mut ctx, 1000).unwrap();
    assert_eq!(release.transfer.amount, 90);
    assert_eq!(release.held, 100);
    assert_eq!(release.transfer.from, custody_account());
    assert_eq!(release.transfer.to, owner_account());
    assert_eq!(release.transfer.authority, Authority::Vault { owner: owner(), bump: 254 });
    assert_eq!(ctx.vault.amount, 0);

    assert_eq!(settle(&mut ctx, &release, Ok(())), Ok(()));
    assert_eq!(ctx.vault.amount, 0);
    assert_eq!(ctx.vault, Vault { amount: 0, ..vault });
}

#[test]
fn backup_waits_for_the_recovery_delay() {
    let vault = pay_in(open(1_000_000), 100);

    let mut ctx = TriggerRecovery { vault, user: backup() };
    assert_eq!(trigger_recovery(&mut ctx, 2000), Ok(()));
    assert!(ctx.vault.recovery_enabled);
    assert_eq!(ctx.vault.recovery_req_time, 2010);
    let vault = ctx.vault;

    let mut ctx = Withdrawl {
        owner: owner(),
        vault_ata: custody_account(),
        user_ata: backup_account(),
        vault,
        user: backup(),
    };
    assert_eq!(withdrawl(&mut ctx, 2005), Err(CustomError::RecoveryIsNotFinished));
    assert_eq!(ctx.vault, vault);
    assert_eq!(withdrawl(&mut ctx, 2009), Err(CustomError::RecoveryIsNotFinished));

    let release = withdrawl(&mut ctx, 2010).unwrap();
    assert_eq!(release.transfer.amount, 90);
    assert_eq!(release.transfer.to, backup_account());
    assert_eq!(settle(&mut ctx, &release, Ok(())), Ok(()));
    assert_eq!(ctx.vault.amount, 0);
    assert!(ctx.vault.recovery_enabled);
}

#[test]
fn deposits_add_up_and_one_withdrawal_pays_nine_tenths_of_their_sum() {
    let mut vault = open(0);
    let amounts: [u64; 5] = [10, 0, 250, 7, 33];
    for amount in amounts {
        vault = pay_in(vault, amount);
    }
    assert_eq!(vault.amount, 300);

    let mut ctx = Withdrawl {
        owner: owner(),
        vault_ata: custody_account(),
        user_ata: owner_account(),
        vault,
        user: owner(),
    };
    let release = withdrawl(&mut ctx, 0).unwrap();
    assert_eq!(release.transfer.amount, 300 * 90 / 100);
    assert_eq!(release.transfer.amount, 270);
    assert_eq!(release.held - release.transfer.amount, 30);
    assert_eq!(timelockr::fee(release.held), 30);
    assert_eq!(settle(&mut ctx, &release, Ok(())), Ok(()));
    assert_eq!(ctx.vault.amount, 0);
}

#[test]
fn a_second_vault_cannot_be_opened_over_the_first() {
    let mut ctx = Initialize { vault: None, user: owner(), bump: 254 };
    assert_eq!(initialize(&mut ctx, 1000, backup()), Ok(()));
    let first = ctx;
    assert_eq!(initialize(&mut ctx, 1000, backup()), Err(CustomError::AlreadyInitialized));
    assert_eq!(ctx, first);
    assert_eq!(initialize(&mut ctx, 5, owner()), Err(CustomError::AlreadyInitialized));
    assert_eq!(ctx, first);

    let mut funded = Initialize { vault: Some(pay_in(first.vault.unwrap(), 40)), ..first };
    let before = funded;
    assert_eq!(initialize(&mut funded, 0, backup()), Err(CustomError::AlreadyInitialized));
    assert_eq!(funded, before);
    assert_eq!(funded.vault.unwrap().amount, 40);
}

#[test]
fn a_failed_transfer_leaves_the_withdrawal_without_trace() {
    let vault = pay_in(open(1000), 100);
    let mut ctx = Withdrawl {
        owner: owner(),
        vault_ata: custody_account(),
        user_ata: owner_account(),
        vault,
        user: owner(),
    };
    let before = ctx;
    let release = withdrawl(&mut ctx, 1000).unwrap();
    assert_eq!(ctx.vault.amount, 0);
    assert_eq!(
        settle(&mut ctx, &release, Err(CustomError::InsufficientFunds)),
        Err(CustomError::InsufficientFunds)
    );
    assert_eq!(ctx, before);
    assert_eq!(ctx.vault.amount, 100);

    let again = withdrawl(&mut ctx, 1000).unwrap();
    assert_eq!(again, release);
}

#[test]
fn the_balance_is_what_was_paid_in_and_not_taken_out() {
    let mut vault = open(0);
    let mut paid_in: u64 = 0;
    let mut taken_out: u64 = 0;
    let mut paid_out: u64 = 0;
    let rounds: [[u64; 3]; 4] = [[5, 10, 85], [0, 0, 0], [7, 7, 1], [1_000_000, 3, 33]];
    for amounts in rounds {
        for amount in amounts {
            vault = pay_in(vault, amount);
            paid_in += amount;
            assert_eq!(vault.amount + taken_out, paid_in);
        }
        let mut failed = Deposite {
            vault_ata: custody_account(),
            user_ata: owner_account(),
            vault,
            user: owner(),
        };
        assert!(deposite(&mut failed, 999, Err(CustomError::InsufficientFunds)).is_err());
        assert_eq!(failed.vault, vault);

        let mut ctx = Withdrawl {
            owner: owner(),
            vault_ata: custody_account(),
            user_ata: owner_account(),
            vault,
            user: owner(),
        };
        let release = withdrawl(&mut ctx, 0).unwrap();
        assert_eq!(settle(&mut ctx, &release, Ok(())), Ok(()));
        taken_out += release.held;
        paid_out += release.transfer.amount;
        vault = ctx.vault;
        assert_eq!(vault.amount + taken_out, paid_in);
        assert_eq!(vault.amount, 0);
    }
    assert_eq!(paid_in, 100 + 15 + 1_000_036);
    assert_eq!(taken_out, paid_in);
    assert_eq!(paid_out, 90 + 14 + 900_033);
}
