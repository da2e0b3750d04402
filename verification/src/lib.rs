//! A payment-settlement ledger: merchants register, publish payment
//! requests, payers settle them, and merchants refund what was settled.
//!
//! Every record lives at an address derived from what identifies it: a
//! merchant from its owner, a request from its merchant and its id, a
//! receipt from its payer and its id. A record is created once and never
//! changed, so an occupied address is what makes a registration, a request
//! id and a settlement happen at most once.
//!
//! The ledger moves no value itself. [`pay`] and [`pay_with_split`] check a
//! payment, stage its settlement and return the transfers that the
//! asset-transfer service has to make; [`settle`] takes the report of their
//! outcome and stores the receipt and publishes the fact, or drops what was
//! staged. [`refund`] and [`refund_partial`] check a refund and return its
//! transfer. The time is an argument, and a signer is the identity that the
//! host has verified.
//!
//! A host that keeps the records itself can make the same checks on the
//! records it holds, with [`check_request`], [`check_payment`] and
//! [`check_refund`].
//!
//! The contracts are stated over [`LedgerView`]; `laws` holds what follows
//! from them for every ledger.

pub mod accounts;
pub mod address;
pub mod errors;
pub mod events;
pub mod laws;
pub mod ledger;
pub mod refund;
pub mod registry;
pub mod settlement;
pub mod store;
pub mod validation;

pub use accounts::{HoldingAccount, Merchant, PaymentReceipt, PaymentRequest, Record};
pub use address::Address;
pub use errors::{BlinkpayError, ErrorCode};
pub use events::PaymentCompleted;
pub use ledger::{completion_event, Ledger, LedgerView, Settlement};
pub use store::RecordStore;
pub use settlement::{
    build_receipt, check_payment, pay, pay_with_split, settle, split_fee, FeeSplit, Pay,
    PayWithSplit, Payment, Split, Transfer, TransferOutcome,
};
pub use refund::{check_refund, refund, refund_partial, Refund};
pub use registry::{
    check_request, create_request, initialize_merchant, CreateRequest, InitializeMerchant,
};
