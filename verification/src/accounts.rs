//! The records that the ledger keeps, and the holding accounts it reads.

use crate::address::{id_bytes, Address};
use vstd::prelude::*;

verus! {

/// Longest request id or receipt id, in bytes.
pub const MAX_ID_LEN: usize = 64;

/// Longest display name of a merchant, in bytes.
pub const MAX_DISPLAY_NAME_LEN: usize = 64;

/// Whether an id has an accepted length: between 1 and 64 bytes.
pub open spec fn id_ok(id: Seq<char>) -> bool {
    1 <= id_bytes(id).len() <= 64
}

/// Whether a display name has an accepted length: at most 64 bytes.
pub open spec fn display_name_ok(name: Option<String>) -> bool {
    match name {
        Some(text) => id_bytes(text@).len() <= 64,
        None => true,
    }
}

/// A registered merchant. There is one per owner, created once.
#[derive(Clone, Debug, PartialEq, Eq)]
pub struct Merchant {
    /// The identity that registered the merchant and authorizes its refunds.
    pub owner: Address,
    pub display_name: Option<String>,
    /// Bump seed of the record's address.
    pub bump: u8,
}

impl Merchant {
    /// Bytes reserved for a merchant record: owner, length prefix and bytes
    /// of the display name, bump seed.
    pub const MAX_SIZE: usize = 32 + 4 + 64 + 1;
}

/// A request for payment that a merchant published. It is never changed.
#[derive(Clone, Debug, PartialEq, Eq)]
pub struct PaymentRequest {
    /// Address of the merchant's record.
    pub merchant: Address,
    pub request_id: String,
    pub amount: u64,
    /// The asset that is asked for.
    pub mint: Address,
    /// Last moment at which the request can be paid, if it has one.
    pub expires_at: Option<i64>,
    /// Bump seed of the record's address.
    pub bump: u8,
}

impl PaymentRequest {
    /// Bytes reserved for a request: merchant, length prefix and bytes of the
    /// id, amount, asset, expiry with its tag, bump seed.
    pub const MAX_SIZE: usize = 32 + 4 + 64 + 8 + 32 + 1 + 8 + 1;
}

/// The record of one settled payment. It is never changed.
#[derive(Clone, Debug, PartialEq, Eq)]
pub struct PaymentReceipt {
    /// Address of the merchant's record.
    pub merchant: Address,
    pub payer: Address,
    /// The asset that was paid.
    pub mint: Address,
    pub amount: u64,
    /// Address of the request that the payment settled, if it settled one.
    pub request: Option<Address>,
    /// Bump seed of the record's address.
    pub bump: u8,
    pub receipt_id: String,
    /// Time of the settlement.
    pub timestamp: i64,
}

impl PaymentReceipt {
    /// Bytes reserved for a receipt: merchant, payer, asset, amount, request
    /// reference, bump seed, length prefix and bytes of the id, timestamp.
    pub const MAX_SIZE: usize = 32 + 32 + 32 + 8 + 32 + 1 + 4 + 64 + 8;
}

/// What an address of the ledger can hold.
#[derive(Clone, Debug, PartialEq, Eq)]
pub enum Record {
    Merchant(Merchant),
    Request(PaymentRequest),
    Receipt(PaymentReceipt),
}

/// An account of the asset-transfer service: it custodies a balance of one
/// asset for one owner. The ledger reads who owns it and what it holds; the
/// balance is the service's business.
#[derive(Clone, Copy, Debug, PartialEq, Eq)]
pub struct HoldingAccount {
    pub address: Address,
    pub owner: Address,
    /// The asset that the account custodies.
    pub mint: Address,
}

} // verus!
