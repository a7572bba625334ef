//! A custodial time-lock vault: it holds a depositor's balance, releases it to
//! the owner once an unlock time has passed, and lets a backup identity recover
//! it after a fixed delay.
//!
//! The crate decides; it moves no funds and reads no clock. Each operation
//! takes the record it works on, the caller and the time as plain values, and
//! says what becomes of the record. Where funds have to move, it says which
//! transfer the ledger is to make, and is told how that went:
//!
//! - `initialize` opens a vault;
//! - `Deposite::transfer` and `deposite` pay into it;
//! - `trigger_recovery` arms its recovery;
//! - `withdrawl` and `settle` pay out of it.
//!
//! `vault_address` says where a vault's record lives, `encode` and `decode`
//! how it is kept there, and the module `laws` what holds of a vault whatever
//! is done with it.

pub mod address;
pub mod deposite;
pub mod derivation;
pub mod error;
pub mod history;
pub mod initialize;
pub mod laws;
pub mod ledger;
pub mod record;
pub mod trigger_recovery;
pub mod vault;
pub mod withdrawl;

pub use address::Address;
pub use deposite::{deposite, Deposite};
pub use derivation::{signer_seeds, vault_address, vault_seeds, VAULT_SEED};
pub use error::CustomError;
pub use history::Event;
pub use initialize::{initialize, Initialize};
pub use ledger::{Authority, Transfer};
pub use record::{decode, encode, RECORD_BYTES, RECORD_TAG};
pub use trigger_recovery::{trigger_recovery, TriggerRecovery};
pub use vault::{fee, payout, Vault, FEE_PERCENT, RECOVERY_DELAY};
pub use withdrawl::{settle, withdrawl, Release, Withdrawl};
