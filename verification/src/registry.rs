//! Registration: a merchant is created once per owner, and a merchant's
//! owner publishes payment requests under ids of its choice.

use crate::accounts::{Merchant, PaymentRequest, Record};
use crate::address::{
    derived, merchant_address, merchant_seeds, request_address, request_seeds, Address,
};
use crate::errors::ErrorCode;
use crate::ledger::{held, lemma_inv_created, unborrowed, Ledger, LedgerView};
use crate::validation::{display_name_check, id_check, validate_display_name, validate_id};
use vstd::prelude::*;

verus! {

/// What an owner hands in to register as a merchant.
#[derive(Clone, Copy, Debug, PartialEq, Eq)]
pub struct InitializeMerchant {
    /// The signer who becomes the merchant's owner.
    pub merchant_authority: Address,
}

/// What a merchant's owner hands in to publish a payment request.
#[derive(Clone, Copy, Debug, PartialEq, Eq)]
pub struct CreateRequest {
    /// The signer who owns the merchant.
    pub merchant_authority: Address,
}

/// What the registration of a merchant leads to: the ledger afterwards and
/// the address of the new record, or the ledger as it was and the error.
/// The address is derived from the owner; an occupied address is a
/// collision, whatever the display name; on a free address the display name
/// is checked.
pub open spec fn initialize_merchant_step(
    ledger: LedgerView,
    ctx: InitializeMerchant,
    display_name: Option<String>,
) -> (LedgerView, Result<Address, ErrorCode>) {
    match derived(ledger.program_id, merchant_seeds(ctx.merchant_authority)) {
        None => (ledger, Err(ErrorCode::AddressUnavailable)),
        Some((address, bump)) => if ledger.records.contains_key(address) {
            (ledger, Err(ErrorCode::Collision))
        } else {
            match display_name_check(display_name) {
                Err(error) => (ledger, Err(error)),
                Ok(()) => (
                    ledger.with_record(
                        address,
                        Record::Merchant(
                            Merchant { owner: ctx.merchant_authority, display_name, bump },
                        ),
                    ),
                    Ok(address),
                ),
            }
        },
    }
}

/// Registers the signer as a merchant, with an optional display name of at
/// most 64 bytes, and returns the address of the merchant's record. An
/// owner can register once: a second registration collides with the first.
pub fn initialize_merchant(
    ledger: &mut Ledger,
    ctx: &InitializeMerchant,
    display_name: Option<String>,
) -> (outcome: Result<Address, ErrorCode>)
    requires
        old(ledger).wf(),
    ensures
        final(ledger).wf(),
        (final(ledger)@, outcome) == initialize_merchant_step(old(ledger)@, *ctx, display_name),
{
    let program_id = ledger.program_id();
    let (address, bump) = match merchant_address(&program_id, &ctx.merchant_authority) {
        None => {
            return Err(ErrorCode::AddressUnavailable);
        },
        Some(found) => found,
    };
    if ledger.read(&address).is_some() {
        return Err(ErrorCode::Collision);
    }
    match validate_display_name(&display_name) {
        Err(error) => {
            return Err(error);
        },
        Ok(()) => {},
    }
    let record = Record::Merchant(Merchant { owner: ctx.merchant_authority, display_name, bump });
    proof {
        lemma_inv_created(ledger@, address, record);
    }
    match ledger.create(address, record) {
        Err(error) => Err(error),
        Ok(()) => Ok(address),
    }
}

/// Outcome of the checks of the publication of a request, from what the
/// address derived for the signer holds: the id must have an accepted
/// length; the address must hold a merchant; the signer must be that
/// merchant's owner.
pub open spec fn request_check(
    ctx: CreateRequest,
    merchant: Option<Record>,
    request_id: Seq<char>,
) -> Result<(), ErrorCode> {
    match id_check(request_id) {
        Err(error) => Err(error),
        Ok(()) => match merchant {
            Some(Record::Merchant(merchant)) => if merchant.owner != ctx.merchant_authority {
                Err(ErrorCode::Unauthorized)
            } else {
                Ok(())
            },
            _ => Err(ErrorCode::RecordNotFound),
        },
    }
}

/// Makes the checks of the publication of a request under `request_id` on
/// `merchant`, the record at the address derived for the signer.
pub fn check_request(ctx: &CreateRequest, merchant: Option<&Record>, request_id: &str) -> (outcome:
    Result<(), ErrorCode>)
    ensures
        outcome == request_check(*ctx, unborrowed(merchant), request_id@),
{
    match validate_id(request_id) {
        Err(error) => {
            return Err(error);
        },
        Ok(()) => {},
    }
    match merchant {
        Some(Record::Merchant(merchant)) => {
            if merchant.owner != ctx.merchant_authority {
                Err(ErrorCode::Unauthorized)
            } else {
                Ok(())
            }
        },
        _ => Err(ErrorCode::RecordNotFound),
    }
}

/// What the publication of a payment request leads to: the ledger
/// afterwards and the address of the new record, or the ledger as it was
/// and the error. The id is checked first; then the address of the signer's
/// merchant is derived, and the checks of the publication are made on what
/// it holds; then the address of the request is derived from the merchant's
/// address and the id; an occupied address is a collision.
pub open spec fn create_request_step(
    ledger: LedgerView,
    ctx: CreateRequest,
    request_id: String,
    amount: u64,
    mint: Address,
    expires_at: Option<i64>,
) -> (LedgerView, Result<Address, ErrorCode>) {
    match id_check(request_id@) {
        Err(error) => (ledger, Err(error)),
        Ok(()) => match derived(ledger.program_id, merchant_seeds(ctx.merchant_authority)) {
            None => (ledger, Err(ErrorCode::AddressUnavailable)),
            Some((merchant, _)) => match request_check(
                ctx,
                held(ledger, Some(merchant)),
                request_id@,
            ) {
                Err(error) => (ledger, Err(error)),
                Ok(()) => match derived(
                    ledger.program_id,
                    request_seeds(merchant, request_id@),
                ) {
                    None => (ledger, Err(ErrorCode::AddressUnavailable)),
                    Some((address, bump)) => if ledger.records.contains_key(address) {
                        (ledger, Err(ErrorCode::Collision))
                    } else {
                        (
                            ledger.with_record(
                                address,
                                Record::Request(
                                    PaymentRequest {
                                        merchant,
                                        request_id,
                                        amount,
                                        mint,
                                        expires_at,
                                        bump,
                                    },
                                ),
                            ),
                            Ok(address),
                        )
                    },
                },
            },
        },
    }
}

/// Publishes a request for `amount` of the asset `mint` under the id
/// `request_id`, for the merchant that the signer owns, and returns the
/// address of the request. The id is unique per merchant: a second request
/// under the same id collides with the first.
pub fn create_request(
    ledger: &mut Ledger,
    ctx: &CreateRequest,
    request_id: String,
    amount: u64,
    mint: Address,
    expires_at: Option<i64>,
) -> (outcome: Result<Address, ErrorCode>)
    requires
        old(ledger).wf(),
    ensures
        final(ledger).wf(),
        (final(ledger)@, outcome) == create_request_step(
            old(ledger)@,
            *ctx,
            request_id,
            amount,
            mint,
            expires_at,
        ),
{
    match validate_id(request_id.as_str()) {
        Err(error) => {
            return Err(error);
        },
        Ok(()) => {},
    }
    let program_id = ledger.program_id();
    let merchant = match merchant_address(&program_id, &ctx.merchant_authority) {
        None => {
            return Err(ErrorCode::AddressUnavailable);
        },
        Some((merchant, _)) => merchant,
    };
    match check_request(ctx, ledger.read(&merchant), request_id.as_str()) {
        Err(error) => {
            return Err(error);
        },
        Ok(()) => {},
    }
    let (address, bump) = match request_address(&program_id, &merchant, request_id.as_str()) {
        None => {
            return Err(ErrorCode::AddressUnavailable);
        },
        Some(found) => found,
    };
    let record = Record::Request(
        PaymentRequest { merchant, request_id, amount, mint, expires_at, bump },
    );
    proof {
        if !ledger@.records.contains_key(address) {
            lemma_inv_created(ledger@, address, record);
        }
    }
    match ledger.create(address, record) {
        Err(error) => Err(error),
        Ok(()) => Ok(address),
    }
}

} // verus!
