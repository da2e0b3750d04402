//! Refunds: the owner of a merchant sends value of a settled payment back
//! to its payer. A refund moves value and leaves the ledger as it is.

use crate::accounts::{HoldingAccount, Merchant, PaymentReceipt};
use crate::address::Address;
use crate::errors::ErrorCode;
use crate::ledger::{Ledger, LedgerView};
use crate::settlement::Transfer;
use crate::validation::{
    asset_check, owner_check, validate_holding_asset, validate_holding_owner,
};
use vstd::prelude::*;

verus! {

/// What a merchant's owner hands in to refund a payment.
#[derive(Clone, Copy, Debug, PartialEq, Eq)]
pub struct Refund {
    /// The signer, who must own the merchant that the receipt names.
    pub merchant_authority: Address,
    /// Address of the receipt of the payment.
    pub receipt: Address,
    /// The holding that is debited.
    pub merchant_ata: HoldingAccount,
    /// The holding that is credited.
    pub payer_ata: HoldingAccount,
}

/// The amount that a refund moves: the requested one, or the receipt's
/// where the refund is a full one.
pub open spec fn refund_amount(receipt: PaymentReceipt, requested: Option<u64>) -> u64 {
    match requested {
        Some(amount) => amount,
        None => receipt.amount,
    }
}

/// Outcome of the checks of the holding accounts of a refund. The owners
/// are looked at, then the assets: the merchant's holding must be the
/// signer's and the payer's holding the payer's; both must be in the asset
/// paid. The first that is not decides the error.
pub open spec fn refund_holdings_check(ctx: Refund, receipt: PaymentReceipt) -> Result<
    (),
    ErrorCode,
> {
    match owner_check(ctx.merchant_ata, ctx.merchant_authority) {
        Err(error) => Err(error),
        Ok(()) => match owner_check(ctx.payer_ata, receipt.payer) {
            Err(error) => Err(error),
            Ok(()) => match asset_check(ctx.merchant_ata, receipt.mint) {
                Err(error) => Err(error),
                Ok(()) => asset_check(ctx.payer_ata, receipt.mint),
            },
        },
    }
}

/// What the checks of a refund lead to, from the receipt and from the
/// merchant record found at `merchant_address`: the transfer to make, or the
/// error of the first check that fails. The checks, in order: the receipt
/// must name the merchant at `merchant_address`, and the signer must be
/// that merchant's owner; a requested amount must be above zero; the
/// holding accounts must be in order. A requested amount is held against
/// nothing but zero: neither against the receipt's amount nor against what
/// was refunded before.
pub open spec fn refund_check(
    ctx: Refund,
    receipt: PaymentReceipt,
    merchant_address: Address,
    merchant: Merchant,
    requested: Option<u64>,
) -> Result<Transfer, ErrorCode> {
    if receipt.merchant != merchant_address || merchant.owner != ctx.merchant_authority {
        Err(ErrorCode::Unauthorized)
    } else if requested == Some(0u64) {
        Err(ErrorCode::InvalidAmount)
    } else {
        match refund_holdings_check(ctx, receipt) {
            Err(error) => Err(error),
            Ok(()) => Ok(
                Transfer {
                    from: ctx.merchant_ata.address,
                    to: ctx.payer_ata.address,
                    authority: ctx.merchant_authority,
                    amount: refund_amount(receipt, requested),
                },
            ),
        }
    }
}

/// Makes the checks of a refund of the payment of `receipt`, authorized by
/// the signer of `ctx` as owner of `merchant`, the record at
/// `merchant_address`. `requested` is the amount of a partial refund, and
/// `None` for a full one.
pub fn check_refund(
    ctx: &Refund,
    receipt: &PaymentReceipt,
    merchant_address: &Address,
    merchant: &Merchant,
    requested: Option<u64>,
) -> (outcome: Result<Transfer, ErrorCode>)
    ensures
        outcome == refund_check(*ctx, *receipt, *merchant_address, *merchant, requested),
{
    if receipt.merchant != *merchant_address || merchant.owner != ctx.merchant_authority {
        return Err(ErrorCode::Unauthorized);
    }
    let amount = match requested {
        Some(amount) => {
            if amount == 0 {
                return Err(ErrorCode::InvalidAmount);
            }
            amount
        },
        None => receipt.amount,
    };
    match validate_holding_owner(&ctx.merchant_ata, &ctx.merchant_authority) {
        Err(error) => {
            return Err(error);
        },
        Ok(()) => {},
    }
    match validate_holding_owner(&ctx.payer_ata, &receipt.payer) {
        Err(error) => {
            return Err(error);
        },
        Ok(()) => {},
    }
    match validate_holding_asset(&ctx.merchant_ata, &receipt.mint) {
        Err(error) => {
            return Err(error);
        },
        Ok(()) => {},
    }
    match validate_holding_asset(&ctx.payer_ata, &receipt.mint) {
        Err(error) => {
            return Err(error);
        },
        Ok(()) => {},
    }
    Ok(
        Transfer {
            from: ctx.merchant_ata.address,
            to: ctx.payer_ata.address,
            authority: ctx.merchant_authority,
            amount,
        },
    )
}

/// What a refund leads to on a ledger: the receipt must be stored and the
/// merchant it names registered; the checks of the refund are then made on
/// the two records.
pub open spec fn refund_on(ledger: LedgerView, ctx: Refund, requested: Option<u64>) -> Result<
    Transfer,
    ErrorCode,
> {
    match ledger.receipt_at(ctx.receipt) {
        None => Err(ErrorCode::RecordNotFound),
        Some(receipt) => match ledger.merchant_at(receipt.merchant) {
            None => Err(ErrorCode::RecordNotFound),
            Some(merchant) => refund_check(ctx, receipt, receipt.merchant, merchant, requested),
        },
    }
}

/// What a full refund leads to: the transfer of the receipt's amount, or
/// the error of the first check that fails.
pub open spec fn refund_plan(ledger: LedgerView, ctx: Refund) -> Result<Transfer, ErrorCode> {
    refund_on(ledger, ctx, None)
}

/// What a refund of `amount` leads to: the transfer of that amount, or the
/// error of the first check that fails.
pub open spec fn refund_partial_plan(ledger: LedgerView, ctx: Refund, amount: u64) -> Result<
    Transfer,
    ErrorCode,
> {
    refund_on(ledger, ctx, Some(amount))
}

/// Looks up the records of a refund and makes its checks.
fn plan_refund(ledger: &Ledger, ctx: &Refund, requested: Option<u64>) -> (outcome: Result<
    Transfer,
    ErrorCode,
>)
    requires
        ledger.wf(),
    ensures
        outcome == refund_on(ledger@, *ctx, requested),
{
    let receipt = match ledger.receipt(&ctx.receipt) {
        None => {
            return Err(ErrorCode::RecordNotFound);
        },
        Some(receipt) => receipt,
    };
    match ledger.merchant(&receipt.merchant) {
        None => Err(ErrorCode::RecordNotFound),
        Some(merchant) => check_refund(ctx, receipt, &receipt.merchant, merchant, requested),
    }
}

/// Refunds a payment in full: returns the transfer of the receipt's amount
/// from the merchant's holding to the payer's, for the asset-transfer
/// service to make. Only the owner of the merchant that the receipt names
/// can refund. The receipt stays as it is.
pub fn refund(ledger: &Ledger, ctx: &Refund) -> (outcome: Result<Transfer, ErrorCode>)
    requires
        ledger.wf(),
    ensures
        outcome == refund_plan(ledger@, *ctx),
{
    plan_refund(ledger, ctx, None)
}

/// Refunds `amount` of a payment: returns the transfer of `amount` from the
/// merchant's holding to the payer's, for the asset-transfer service to
/// make. Only the owner of the merchant that the receipt names can refund,
/// and only an amount above zero. The receipt stays as it is, and nothing
/// keeps count of what was refunded.
pub fn refund_partial(ledger: &Ledger, ctx: &Refund, amount: u64) -> (outcome: Result<
    Transfer,
    ErrorCode,
>)
    requires
        ledger.wf(),
    ensures
        outcome == refund_partial_plan(ledger@, *ctx, amount),
{
    plan_refund(ledger, ctx, Some(amount))
}

} // verus!
