//! Multi-party treasury: pooled funds whose withdrawals need a quorum of
//! member approvals and a waiting period before they execute.
//!
//! The library keeps the books and decides; it moves no funds and reads no
//! clock. The caller hands in the current time, asks the ledger gateway to
//! carry out the transfers that the library names, and hands back the
//! gateway's answer.

pub mod error;
pub mod keys;
pub mod laws;
pub mod ledger;
pub mod treasury;
pub mod withdrawal;

pub use error::TreasuryError;
pub use ledger::{Transfer, TransferOutcome};
pub use treasury::{add_member, create_treasury, deposit, deposit_transfer, Treasury};
pub use withdrawal::{
    approve_withdrawal, execute_withdrawal, propose_withdrawal, withdrawal_transfer,
    WithdrawalRequest, WithdrawalStatus,
};
