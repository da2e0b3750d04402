//! The checks that an operation makes on its inputs before it changes or
//! moves anything. Each check stands alone; the operations fix their order.

use crate::accounts::{
    display_name_ok, id_ok, HoldingAccount, PaymentRequest, MAX_DISPLAY_NAME_LEN, MAX_ID_LEN,
};
use crate::address::Address;
use crate::errors::ErrorCode;
use vstd::prelude::*;

verus! {

/// Largest fee rate: 10000 basis points, the whole amount.
pub const MAX_FEE_BPS: u16 = 10_000;

/// Outcome of the check of an id's length.
pub open spec fn id_check(id: Seq<char>) -> Result<(), ErrorCode> {
    if id_ok(id) {
        Ok(())
    } else {
        Err(ErrorCode::InvalidId)
    }
}

/// Accepts a request id or receipt id of 1 to 64 bytes.
pub fn validate_id(id: &str) -> (outcome: Result<(), ErrorCode>)
    ensures
        outcome == id_check(id@),
{
    let len = id.as_bytes().len();
    if 1 <= len && len <= MAX_ID_LEN {
        Ok(())
    } else {
        Err(ErrorCode::InvalidId)
    }
}

/// Outcome of the check of a display name's length.
pub open spec fn display_name_check(name: Option<String>) -> Result<(), ErrorCode> {
    if display_name_ok(name) {
        Ok(())
    } else {
        Err(ErrorCode::DisplayNameTooLong)
    }
}

/// Accepts the absence of a display name, and a display name of at most 64
/// bytes.
pub fn validate_display_name(name: &Option<String>) -> (outcome: Result<(), ErrorCode>)
    ensures
        outcome == display_name_check(*name),
{
    match name {
        Some(text) => {
            if text.as_str().as_bytes().len() <= MAX_DISPLAY_NAME_LEN {
                Ok(())
            } else {
                Err(ErrorCode::DisplayNameTooLong)
            }
        },
        None => Ok(()),
    }
}

/// Whether a request with this expiry can no longer be paid at `now`.
pub open spec fn expired(expires_at: Option<i64>, now: i64) -> bool {
    match expires_at {
        Some(limit) => now > limit,
        None => false,
    }
}

/// Outcome of holding a payment against the request it refers to. Without a
/// request there is nothing to disagree with. With one, the merchant, the
/// asset, the expiry and the amount are held against it in this order, and
/// the first that disagrees decides the error.
pub open spec fn request_match(
    request: Option<PaymentRequest>,
    merchant: Address,
    mint: Address,
    amount: u64,
    now: i64,
) -> Result<(), ErrorCode> {
    match request {
        None => Ok(()),
        Some(request) => {
            if request.merchant != merchant {
                Err(ErrorCode::RequestMerchantMismatch)
            } else if request.mint != mint {
                Err(ErrorCode::RequestAssetMismatch)
            } else if expired(request.expires_at, now) {
                Err(ErrorCode::RequestExpired)
            } else if request.amount != amount {
                Err(ErrorCode::AmountMismatch)
            } else {
                Ok(())
            }
        },
    }
}

/// Holds a payment to `merchant` of `amount` of the asset `mint`, made at
/// `now`, against the request it refers to, if it refers to one.
pub fn validate_request_match(
    request: Option<&PaymentRequest>,
    merchant: &Address,
    mint: &Address,
    amount: u64,
    now: i64,
) -> (outcome: Result<(), ErrorCode>)
    ensures
        outcome == request_match(
            match request {
                Some(found) => Some(*found),
                None => None,
            },
            *merchant,
            *mint,
            amount,
            now,
        ),
{
    match request {
        None => Ok(()),
        Some(found) => {
            if found.merchant != *merchant {
                return Err(ErrorCode::RequestMerchantMismatch);
            }
            if found.mint != *mint {
                return Err(ErrorCode::RequestAssetMismatch);
            }
            match found.expires_at {
                Some(limit) => {
                    if now > limit {
                        return Err(ErrorCode::RequestExpired);
                    }
                },
                None => {},
            }
            if found.amount != amount {
                return Err(ErrorCode::AmountMismatch);
            }
            Ok(())
        },
    }
}

/// Outcome of holding a holding account against the owner and the asset it
/// must have: the owner is looked at first.
pub open spec fn holding_check(account: HoldingAccount, owner: Address, mint: Address) -> Result<
    (),
    ErrorCode,
> {
    if account.owner != owner {
        Err(ErrorCode::OwnerMismatch)
    } else if account.mint != mint {
        Err(ErrorCode::AssetMismatch)
    } else {
        Ok(())
    }
}

/// Accepts a holding account that `expected_owner` owns and that custodies
/// `expected_mint`.
pub fn validate_holding(
    account: &HoldingAccount,
    expected_owner: &Address,
    expected_mint: &Address,
) -> (outcome: Result<(), ErrorCode>)
    ensures
        outcome == holding_check(*account, *expected_owner, *expected_mint),
{
    if account.owner != *expected_owner {
        Err(ErrorCode::OwnerMismatch)
    } else if account.mint != *expected_mint {
        Err(ErrorCode::AssetMismatch)
    } else {
        Ok(())
    }
}

/// Outcome of holding a holding account against the owner it must have.
pub open spec fn owner_check(account: HoldingAccount, owner: Address) -> Result<(), ErrorCode> {
    if account.owner != owner {
        Err(ErrorCode::OwnerMismatch)
    } else {
        Ok(())
    }
}

/// Accepts a holding account that `expected_owner` owns, whatever it
/// custodies.
pub fn validate_holding_owner(account: &HoldingAccount, expected_owner: &Address) -> (outcome:
    Result<(), ErrorCode>)
    ensures
        outcome == owner_check(*account, *expected_owner),
{
    if account.owner != *expected_owner {
        Err(ErrorCode::OwnerMismatch)
    } else {
        Ok(())
    }
}

/// Outcome of holding a holding account against the asset it must have.
pub open spec fn asset_check(account: HoldingAccount, mint: Address) -> Result<(), ErrorCode> {
    if account.mint != mint {
        Err(ErrorCode::AssetMismatch)
    } else {
        Ok(())
    }
}

/// Accepts a holding account that custodies `expected_mint`, whoever owns it.
pub fn validate_holding_asset(account: &HoldingAccount, expected_mint: &Address) -> (outcome:
    Result<(), ErrorCode>)
    ensures
        outcome == asset_check(*account, *expected_mint),
{
    if account.mint != *expected_mint {
        Err(ErrorCode::AssetMismatch)
    } else {
        Ok(())
    }
}

/// Outcome of the check of a fee rate.
pub open spec fn fee_bps_check(fee_bps: u16) -> Result<(), ErrorCode> {
    if fee_bps <= 10_000 {
        Ok(())
    } else {
        Err(ErrorCode::InvalidFeeBps)
    }
}

/// Accepts a fee rate of at most 10000 basis points.
pub fn validate_fee_bps(fee_bps: u16) -> (outcome: Result<(), ErrorCode>)
    ensures
        outcome == fee_bps_check(fee_bps),
{
    if fee_bps <= MAX_FEE_BPS {
        Ok(())
    } else {
        Err(ErrorCode::InvalidFeeBps)
    }
}

} // verus!
