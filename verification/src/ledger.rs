//! What the treasury hands to the ledger gateway, and what it hears back.
//!
//! The gateway moves value between holding accounts outside this library. An
//! operation that moves funds is therefore split in two: one function names
//! the transfer that the gateway has to carry out, and a second one takes the
//! gateway's answer and settles the books.

use anchor_lang::prelude::Pubkey;
use vstd::prelude::*;

verus! {

/// One movement of value that the ledger gateway is asked to carry out.
#[derive(Clone, Copy, Debug, PartialEq, Eq)]
pub struct Transfer {
    /// The holding account that is debited.
    pub from: Pubkey,
    /// The holding account that is credited.
    pub to: Pubkey,
    /// The number of native units to move.
    pub amount: u64,
}

/// The ledger gateway's answer to a [`Transfer`]. A transfer is atomic: it is
/// either carried out in full or not at all.
#[derive(Clone, Copy, Debug, PartialEq, Eq, Structural)]
pub enum TransferOutcome {
    /// The whole amount was moved.
    Completed,
    /// Nothing was moved.
    Failed,
}

} // verus!
