//! Failures that an operation of the ledger can report.

use vstd::prelude::*;

verus! {

/// Why an operation was refused. A refused operation leaves the ledger's
/// records and events as they were.
#[derive(Clone, Copy, Debug, PartialEq, Eq, Structural)]
pub enum ErrorCode {
    /// A request id or receipt id is empty or longer than 64 bytes.
    InvalidId,
    /// The referenced request carries an expiry that lies before the current time.
    RequestExpired,
    /// The amount offered differs from the amount of the referenced request.
    AmountMismatch,
    /// The referenced request belongs to another merchant.
    RequestMerchantMismatch,
    /// The referenced request asks for another asset.
    RequestAssetMismatch,
    /// A holding account custodies another asset than the one being moved.
    AssetMismatch,
    /// A holding account is not owned by the principal it must belong to.
    OwnerMismatch,
    /// The fee rate exceeds 10000 basis points.
    InvalidFeeBps,
    /// A refund of nothing was asked for.
    InvalidAmount,
    /// The address of the record to create already holds a record.
    Collision,
    /// The asset-transfer service reported that a transfer did not go through.
    TransferFailure,
    /// A merchant's display name is longer than 64 bytes.
    DisplayNameTooLong,
    /// No address can be derived from the seeds of the record.
    AddressUnavailable,
    /// A referenced address holds no record of the kind the operation needs.
    RecordNotFound,
    /// The signer is not the owner of the merchant that the receipt names.
    Unauthorized,
    /// A transfer outcome was reported while no settlement was staged.
    NothingStaged,
}

/// The error type of every ledger operation.
pub type BlinkpayError = ErrorCode;

} // verus!
