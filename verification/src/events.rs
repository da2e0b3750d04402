//! The fact that the ledger publishes for each settled payment.

use crate::address::Address;
use vstd::prelude::*;

verus! {

/// A payment was settled and its receipt stored.
#[derive(Clone, Copy, Debug, PartialEq, Eq)]
pub struct PaymentCompleted {
    /// Address of the receipt.
    pub receipt: Address,
    pub merchant: Address,
    pub payer: Address,
    pub amount: u64,
    pub mint: Address,
    pub timestamp: i64,
}

} // verus!
