//! Settlement: a payment is checked and staged, the asset-transfer service
//! moves the value, and the report of its outcome stores the receipt and
//! publishes the fact, or drops what was staged.

use crate::accounts::{HoldingAccount, PaymentReceipt, PaymentRequest, Record};
use crate::address::{derived, receipt_address, receipt_seeds, Address};
use crate::errors::ErrorCode;
use crate::events::PaymentCompleted;
use crate::ledger::{
    completion_event, event_of, held, lemma_inv_settled, lemma_inv_staged, unborrowed, Ledger,
    LedgerView, Settlement,
};
use crate::validation::{
    asset_check, id_check, owner_check, request_match, validate_fee_bps, validate_holding_asset,
    validate_holding_owner, validate_id, validate_request_match,
};
use vstd::prelude::*;

verus! {

/// What a payer hands in to pay a merchant.
#[derive(Clone, Copy, Debug, PartialEq, Eq)]
pub struct Pay {
    /// The signer whose holding is debited.
    pub payer: Address,
    /// The request that the payment settles; `None` for a payment that
    /// settles none.
    pub request: Option<Address>,
    /// Address of the merchant's record.
    pub merchant: Address,
    pub payer_ata: HoldingAccount,
    pub merchant_ata: HoldingAccount,
    /// The asset that is paid.
    pub mint: Address,
}

/// What a payer hands in to pay a merchant and leave a fee to a platform.
#[derive(Clone, Copy, Debug, PartialEq, Eq)]
pub struct PayWithSplit {
    /// The signer whose holding is debited.
    pub payer: Address,
    /// The request that the payment settles; `None` for a payment that
    /// settles none.
    pub request: Option<Address>,
    /// Address of the merchant's record.
    pub merchant: Address,
    pub payer_ata: HoldingAccount,
    pub merchant_ata: HoldingAccount,
    /// The holding that receives the fee.
    pub platform_ata: HoldingAccount,
    /// The asset that is paid.
    pub mint: Address,
}

/// The share of a payment that goes to a platform.
#[derive(Clone, Copy, Debug, PartialEq, Eq)]
pub struct Split {
    pub platform_ata: HoldingAccount,
    /// The fee rate, in basis points of the amount.
    pub fee_bps: u16,
}

/// The terms of a payment, with or without a fee.
#[derive(Clone, Copy, Debug, PartialEq, Eq)]
pub struct Payment {
    pub payer: Address,
    pub request: Option<Address>,
    pub merchant: Address,
    pub payer_ata: HoldingAccount,
    pub merchant_ata: HoldingAccount,
    pub mint: Address,
    pub split: Option<Split>,
}

impl Pay {
    /// The terms of this payment.
    pub fn payment(&self) -> (payment: Payment)
        ensures
            payment == self.terms(),
    {
        Payment {
            payer: self.payer,
            request: self.request,
            merchant: self.merchant,
            payer_ata: self.payer_ata,
            merchant_ata: self.merchant_ata,
            mint: self.mint,
            split: None,
        }
    }

    /// The terms of this payment: no fee.
    pub open spec fn terms(self) -> Payment {
        Payment {
            payer: self.payer,
            request: self.request,
            merchant: self.merchant,
            payer_ata: self.payer_ata,
            merchant_ata: self.merchant_ata,
            mint: self.mint,
            split: None,
        }
    }
}

impl PayWithSplit {
    /// The terms of this payment with a fee of `fee_bps` basis points.
    pub fn payment(&self, fee_bps: u16) -> (payment: Payment)
        ensures
            payment == self.terms(fee_bps),
    {
        Payment {
            payer: self.payer,
            request: self.request,
            merchant: self.merchant,
            payer_ata: self.payer_ata,
            merchant_ata: self.merchant_ata,
            mint: self.mint,
            split: Some(Split { platform_ata: self.platform_ata, fee_bps }),
        }
    }

    /// The terms of this payment with a fee of `fee_bps` basis points.
    pub open spec fn terms(self, fee_bps: u16) -> Payment {
        Payment {
            payer: self.payer,
            request: self.request,
            merchant: self.merchant,
            payer_ata: self.payer_ata,
            merchant_ata: self.merchant_ata,
            mint: self.mint,
            split: Some(Split { platform_ata: self.platform_ata, fee_bps }),
        }
    }
}

/// An order to the asset-transfer service: move `amount` from one holding
/// to another, on the authority of the owner of the first.
#[derive(Clone, Copy, Debug, PartialEq, Eq)]
pub struct Transfer {
    pub from: Address,
    pub to: Address,
    pub authority: Address,
    pub amount: u64,
}

/// What the asset-transfer service reports of the transfers of a settlement.
#[derive(Clone, Copy, Debug, PartialEq, Eq)]
pub enum TransferOutcome {
    /// Every transfer went through.
    Completed,
    /// A transfer did not go through, and none has taken effect.
    Failed,
}

/// An amount parted into a fee and what is left for the merchant.
#[derive(Clone, Copy, Debug, PartialEq, Eq)]
pub struct FeeSplit {
    pub fee_amount: u64,
    pub merchant_amount: u64,
}

/// The fee on `amount` at `fee_bps` basis points, rounded down.
pub open spec fn fee_amount(amount: u64, fee_bps: u16) -> int {
    (amount as int) * (fee_bps as int) / 10_000
}

/// Parts `amount` into the fee at `fee_bps` basis points, rounded down, and
/// the rest. A rate above 10000 basis points is refused.
pub fn split_fee(amount: u64, fee_bps: u16) -> (outcome: Result<FeeSplit, ErrorCode>)
    ensures
        match outcome {
            Ok(split) => {
                &&& fee_bps <= 10_000
                &&& split.fee_amount == fee_amount(amount, fee_bps)
                &&& split.fee_amount + split.merchant_amount == amount
            },
            Err(error) => error == ErrorCode::InvalidFeeBps && fee_bps > 10_000,
        },
{
    match validate_fee_bps(fee_bps) {
        Err(error) => Err(error),
        Ok(()) => {
            assert((amount as int) * (fee_bps as int) <= (amount as int) * 10_000
                <= 0xffff_ffff_ffff_ffff * 10_000) by (nonlinear_arith)
                requires
                    0 <= amount <= 0xffff_ffff_ffff_ffff,
                    0 <= fee_bps <= 10_000,
            ;
            let product: u128 = (amount as u128) * (fee_bps as u128);
            let fee: u128 = product / 10_000;
            let fee_amount: u64 = fee as u64;
            Ok(FeeSplit { fee_amount, merchant_amount: amount - fee_amount })
        },
    }
}

/// The fee rate of a payment: that of its split, and none without one.
pub open spec fn fee_bps_of(payment: Payment) -> u16 {
    match payment.split {
        Some(split) => split.fee_bps,
        None => 0,
    }
}

/// The transfers that settle `amount` on the terms of `payment`: first the
/// fee from the payer to the platform, then the rest from the payer to the
/// merchant, each only if it moves anything.
pub open spec fn transfers_of(payment: Payment, amount: u64) -> Seq<Transfer> {
    let fee = fee_amount(amount, fee_bps_of(payment));
    let to_platform = match payment.split {
        Some(split) if fee > 0 => seq![
            Transfer {
                from: payment.payer_ata.address,
                to: split.platform_ata.address,
                authority: payment.payer,
                amount: fee as u64,
            },
        ],
        _ => Seq::empty(),
    };
    let to_merchant = if amount - fee > 0 {
        seq![
            Transfer {
                from: payment.payer_ata.address,
                to: payment.merchant_ata.address,
                authority: payment.payer,
                amount: (amount - fee) as u64,
            },
        ]
    } else {
        Seq::empty()
    };
    to_platform + to_merchant
}

/// The request that a payment is held against, from what the address it
/// refers to holds. No reference, and a reference to an address that holds
/// nothing, stand for no request; a reference to a record of another kind
/// is refused.
pub open spec fn request_of(held: Option<Record>) -> Result<Option<PaymentRequest>, ErrorCode> {
    match held {
        None => Ok(None),
        Some(Record::Request(request)) => Ok(Some(request)),
        Some(_) => Err(ErrorCode::RecordNotFound),
    }
}

/// Outcome of the checks of the holding accounts of a payment, from what
/// the merchant's address holds. That must be a merchant. Then the owners
/// are looked at, then the assets: the payer's holding must be the payer's
/// and the merchant's holding the merchant owner's; the payer's holding,
/// the merchant's holding and the platform's holding must be in the asset
/// paid. The first that is not decides the error.
pub open spec fn holdings_check(payment: Payment, merchant: Option<Record>) -> Result<
    (),
    ErrorCode,
> {
    match merchant {
        Some(Record::Merchant(merchant)) => match owner_check(payment.payer_ata, payment.payer) {
            Err(error) => Err(error),
            Ok(()) => match owner_check(payment.merchant_ata, merchant.owner) {
                Err(error) => Err(error),
                Ok(()) => match asset_check(payment.payer_ata, payment.mint) {
                    Err(error) => Err(error),
                    Ok(()) => match asset_check(payment.merchant_ata, payment.mint) {
                        Err(error) => Err(error),
                        Ok(()) => match payment.split {
                            Some(split) => asset_check(split.platform_ata, payment.mint),
                            None => Ok(()),
                        },
                    },
                },
            },
        },
        _ => Err(ErrorCode::RecordNotFound),
    }
}

/// What the checks of a payment lead to, from what the addresses it refers
/// to hold: the transfers to make, or the error of the first check that
/// fails. The checks, in order: the length of the receipt id; the request,
/// if one is referred to; the holding accounts; the fee rate.
pub open spec fn payment_check(
    payment: Payment,
    request: Option<Record>,
    merchant: Option<Record>,
    receipt_id: Seq<char>,
    amount: u64,
    now: i64,
) -> Result<Seq<Transfer>, ErrorCode> {
    match id_check(receipt_id) {
        Err(error) => Err(error),
        Ok(()) => match request_of(request) {
            Err(error) => Err(error),
            Ok(request) => match request_match(
                request,
                payment.merchant,
                payment.mint,
                amount,
                now,
            ) {
                Err(error) => Err(error),
                Ok(()) => match holdings_check(payment, merchant) {
                    Err(error) => Err(error),
                    Ok(()) => if fee_bps_of(payment) > 10_000 {
                        Err(ErrorCode::InvalidFeeBps)
                    } else {
                        Ok(transfers_of(payment, amount))
                    },
                },
            },
        },
    }
}

/// Makes the checks of a payment on what the addresses it refers to hold:
/// `request` is the record at the address of the request, `merchant` the
/// record at the address of the merchant. Returns the transfers that settle
/// the payment, the fee first.
pub fn check_payment(
    payment: &Payment,
    request: Option<&Record>,
    merchant: Option<&Record>,
    receipt_id: &str,
    amount: u64,
    now: i64,
) -> (outcome: Result<Vec<Transfer>, ErrorCode>)
    ensures
        match outcome {
            Ok(transfers) => payment_check(
                *payment,
                unborrowed(request),
                unborrowed(merchant),
                receipt_id@,
                amount,
                now,
            ) == Ok::<_, ErrorCode>(transfers@),
            Err(error) => payment_check(
                *payment,
                unborrowed(request),
                unborrowed(merchant),
                receipt_id@,
                amount,
                now,
            ) == Err::<Seq<Transfer>, _>(error),
        },
{
    match validate_id(receipt_id) {
        Err(error) => {
            return Err(error);
        },
        Ok(()) => {},
    }
    let request: Option<&PaymentRequest> = match request {
        None => None,
        Some(Record::Request(request)) => Some(request),
        Some(_) => {
            return Err(ErrorCode::RecordNotFound);
        },
    };
    match validate_request_match(request, &payment.merchant, &payment.mint, amount, now) {
        Err(error) => {
            return Err(error);
        },
        Ok(()) => {},
    }
    let owner = match merchant {
        Some(Record::Merchant(merchant)) => merchant.owner,
        _ => {
            return Err(ErrorCode::RecordNotFound);
        },
    };
    match validate_holding_owner(&payment.payer_ata, &payment.payer) {
        Err(error) => {
            return Err(error);
        },
        Ok(()) => {},
    }
    match validate_holding_owner(&payment.merchant_ata, &owner) {
        Err(error) => {
            return Err(error);
        },
        Ok(()) => {},
    }
    match validate_holding_asset(&payment.payer_ata, &payment.mint) {
        Err(error) => {
            return Err(error);
        },
        Ok(()) => {},
    }
    match validate_holding_asset(&payment.merchant_ata, &payment.mint) {
        Err(error) => {
            return Err(error);
        },
        Ok(()) => {},
    }
    let fee_bps = match payment.split {
        Some(split) => {
            match validate_holding_asset(&split.platform_ata, &payment.mint) {
                Err(error) => {
                    return Err(error);
                },
                Ok(()) => {},
            }
            split.fee_bps
        },
        None => 0,
    };
    let parts = match split_fee(amount, fee_bps) {
        Err(error) => {
            return Err(error);
        },
        Ok(parts) => parts,
    };
    let mut transfers: Vec<Transfer> = Vec::new();
    match payment.split {
        Some(split) => {
            if parts.fee_amount > 0 {
                transfers.push(
                    Transfer {
                        from: payment.payer_ata.address,
                        to: split.platform_ata.address,
                        authority: payment.payer,
                        amount: parts.fee_amount,
                    },
                );
            }
        },
        None => {},
    }
    if parts.merchant_amount > 0 {
        transfers.push(
            Transfer {
                from: payment.payer_ata.address,
                to: payment.merchant_ata.address,
                authority: payment.payer,
                amount: parts.merchant_amount,
            },
        );
    }
    proof {
        assert(transfers@ =~= transfers_of(*payment, amount));
    }
    Ok(transfers)
}

/// The receipt of a payment on the terms of `payment`. It names the request
/// of the payment if `linked` says that the payment was held against one.
pub open spec fn receipt_of(
    payment: Payment,
    linked: bool,
    bump: u8,
    receipt_id: String,
    amount: u64,
    now: i64,
) -> PaymentReceipt {
    PaymentReceipt {
        merchant: payment.merchant,
        payer: payment.payer,
        mint: payment.mint,
        amount,
        request: if linked {
            payment.request
        } else {
            None
        },
        bump,
        receipt_id,
        timestamp: now,
    }
}

/// Writes the receipt of a payment on the terms of `payment`.
pub fn build_receipt(
    payment: &Payment,
    linked: bool,
    bump: u8,
    receipt_id: String,
    amount: u64,
    now: i64,
) -> (receipt: PaymentReceipt)
    ensures
        receipt == receipt_of(*payment, linked, bump, receipt_id, amount, now),
{
    PaymentReceipt {
        merchant: payment.merchant,
        payer: payment.payer,
        mint: payment.mint,
        amount,
        request: if linked {
            payment.request
        } else {
            None
        },
        bump,
        receipt_id,
        timestamp: now,
    }
}

/// What a payment leads to on a ledger: the settlement to stage with the
/// transfers to make, or the error of the first check that fails. The
/// checks are made on what the ledger holds at the addresses of the request
/// and the merchant; the address of the receipt is derived last.
pub open spec fn payment_plan(
    ledger: LedgerView,
    payment: Payment,
    receipt_id: String,
    amount: u64,
    now: i64,
) -> Result<(Settlement, Seq<Transfer>), ErrorCode> {
    let request = held(ledger, payment.request);
    let merchant = held(ledger, Some(payment.merchant));
    match payment_check(payment, request, merchant, receipt_id@, amount, now) {
        Err(error) => Err(error),
        Ok(transfers) => match derived(
            ledger.program_id,
            receipt_seeds(payment.payer, receipt_id@),
        ) {
            None => Err(ErrorCode::AddressUnavailable),
            Some((address, bump)) => Ok(
                (
                    Settlement {
                        address,
                        receipt: receipt_of(
                            payment,
                            request is Some,
                            bump,
                            receipt_id,
                            amount,
                            now,
                        ),
                    },
                    transfers,
                ),
            ),
        },
    }
}

/// Makes the checks of a payment and builds what they lead to.
fn plan_payment(
    ledger: &Ledger,
    payment: &Payment,
    receipt_id: String,
    amount: u64,
    now: i64,
) -> (outcome: Result<(Settlement, Vec<Transfer>), ErrorCode>)
    requires
        ledger.wf(),
    ensures
        match outcome {
            Ok(plan) => payment_plan(ledger@, *payment, receipt_id, amount, now) == Ok::<
                _,
                ErrorCode,
            >((plan.0, plan.1@)),
            Err(error) => payment_plan(ledger@, *payment, receipt_id, amount, now) == Err::<
                (Settlement, Seq<Transfer>),
                _,
            >(error),
        },
{
    let request = match payment.request {
        Some(address) => ledger.read(&address),
        None => None,
    };
    let merchant = ledger.read(&payment.merchant);
    let transfers = match check_payment(
        payment,
        request,
        merchant,
        receipt_id.as_str(),
        amount,
        now,
    ) {
        Err(error) => {
            return Err(error);
        },
        Ok(transfers) => transfers,
    };
    let program_id = ledger.program_id();
    let (address, bump) = match receipt_address(&program_id, &payment.payer, receipt_id.as_str()) {
        None => {
            return Err(ErrorCode::AddressUnavailable);
        },
        Some(found) => found,
    };
    let receipt = build_receipt(payment, request.is_some(), bump, receipt_id, amount, now);
    Ok((Settlement { address, receipt }, transfers))
}

/// Stages the settlement that the checks of `payment` led to.
fn stage_payment(
    ledger: &mut Ledger,
    payment: &Payment,
    receipt_id: String,
    amount: u64,
    now: i64,
) -> (outcome: Result<Vec<Transfer>, ErrorCode>)
    requires
        old(ledger).wf(),
    ensures
        final(ledger).wf(),
        match outcome {
            Ok(transfers) => {
                &&& payment_plan(old(ledger)@, *payment, receipt_id, amount, now) matches Ok(plan)
                &&& transfers@ == plan.1
                &&& final(ledger)@ == old(ledger)@.with_staged(Some(plan.0))
            },
            Err(error) => {
                &&& payment_plan(old(ledger)@, *payment, receipt_id, amount, now) == Err::<
                    (Settlement, Seq<Transfer>),
                    _,
                >(error)
                &&& final(ledger)@ == old(ledger)@
            },
        },
{
    match plan_payment(ledger, payment, receipt_id, amount, now) {
        Err(error) => Err(error),
        Ok((settlement, transfers)) => {
            proof {
                lemma_inv_staged(ledger@, Some(settlement));
            }
            ledger.restage(Some(settlement));
            Ok(transfers)
        },
    }
}

/// Checks a payment of `expected_amount` under the receipt id `receipt_id`,
/// made at the time `now`, and stages its settlement. The transfers that the
/// result lists are to be made, in their order, by the asset-transfer
/// service, and their outcome reported with `settle`. A payment that is
/// refused stages nothing and asks for no transfer.
pub fn pay(
    ledger: &mut Ledger,
    ctx: &Pay,
    receipt_id: String,
    expected_amount: u64,
    now: i64,
) -> (outcome: Result<Vec<Transfer>, ErrorCode>)
    requires
        old(ledger).wf(),
    ensures
        final(ledger).wf(),
        match outcome {
            Ok(transfers) => {
                &&& payment_plan(
                    old(ledger)@,
                    ctx.terms(),
                    receipt_id,
                    expected_amount,
                    now,
                ) matches Ok(plan)
                &&& transfers@ == plan.1
                &&& final(ledger)@ == old(ledger)@.with_staged(Some(plan.0))
            },
            Err(error) => {
                &&& payment_plan(old(ledger)@, ctx.terms(), receipt_id, expected_amount, now)
                    == Err::<(Settlement, Seq<Transfer>), _>(error)
                &&& final(ledger)@ == old(ledger)@
            },
        },
{
    let payment = ctx.payment();
    stage_payment(ledger, &payment, receipt_id, expected_amount, now)
}

/// As `pay`, with a fee of `fee_bps` basis points of the amount, rounded
/// down, that goes to the platform's holding before the rest goes to the
/// merchant's.
pub fn pay_with_split(
    ledger: &mut Ledger,
    ctx: &PayWithSplit,
    receipt_id: String,
    expected_amount: u64,
    fee_bps: u16,
    now: i64,
) -> (outcome: Result<Vec<Transfer>, ErrorCode>)
    requires
        old(ledger).wf(),
    ensures
        final(ledger).wf(),
        match outcome {
            Ok(transfers) => {
                &&& payment_plan(
                    old(ledger)@,
                    ctx.terms(fee_bps),
                    receipt_id,
                    expected_amount,
                    now,
                ) matches Ok(plan)
                &&& transfers@ == plan.1
                &&& final(ledger)@ == old(ledger)@.with_staged(Some(plan.0))
            },
            Err(error) => {
                &&& payment_plan(
                    old(ledger)@,
                    ctx.terms(fee_bps),
                    receipt_id,
                    expected_amount,
                    now,
                ) == Err::<(Settlement, Seq<Transfer>), _>(error)
                &&& final(ledger)@ == old(ledger)@
            },
        },
{
    let payment = ctx.payment(fee_bps);
    stage_payment(ledger, &payment, receipt_id, expected_amount, now)
}

/// What the report of a transfer outcome leads to: the ledger afterwards
/// and the result. Without a staged settlement the report is refused. With
/// one, the staged settlement is taken off; if the transfers failed, or the
/// address of the receipt is occupied, nothing else changes; otherwise the
/// receipt is stored at its address and its fact published.
pub open spec fn settle_step(ledger: LedgerView, report: TransferOutcome) -> (
    LedgerView,
    Result<PaymentCompleted, ErrorCode>,
) {
    match ledger.staged {
        None => (ledger, Err(ErrorCode::NothingStaged)),
        Some(settlement) => {
            let cleared = ledger.with_staged(None);
            if report is Failed {
                (cleared, Err(ErrorCode::TransferFailure))
            } else if ledger.records.contains_key(settlement.address) {
                (cleared, Err(ErrorCode::Collision))
            } else {
                let event = event_of(settlement.address, settlement.receipt);
                (
                    cleared.with_record(
                        settlement.address,
                        Record::Receipt(settlement.receipt),
                    ).with_event(event),
                    Ok(event),
                )
            }
        },
    }
}

/// Takes the report of the asset-transfer service on the transfers of the
/// staged settlement. If they went through and the address of the receipt
/// is free, the receipt is stored and the fact of the settlement is
/// published and returned. If not, the settlement is dropped: the caller
/// has to see that no transfer of it stays in effect.
pub fn settle(ledger: &mut Ledger, report: TransferOutcome) -> (outcome: Result<
    PaymentCompleted,
    ErrorCode,
>)
    requires
        old(ledger).wf(),
    ensures
        final(ledger).wf(),
        (final(ledger)@, outcome) == settle_step(old(ledger)@, report),
{
    proof {
        lemma_inv_staged(ledger@, None);
    }
    let settlement = match ledger.restage(None) {
        None => {
            return Err(ErrorCode::NothingStaged);
        },
        Some(settlement) => settlement,
    };
    match report {
        TransferOutcome::Failed => {
            return Err(ErrorCode::TransferFailure);
        },
        TransferOutcome::Completed => {},
    }
    let event = completion_event(settlement.address, &settlement.receipt);
    proof {
        if !old(ledger)@.records.contains_key(settlement.address) {
            lemma_inv_settled(old(ledger)@, settlement);
        }
    }
    match ledger.create(settlement.address, Record::Receipt(settlement.receipt)) {
        Err(error) => Err(error),
        Ok(()) => {
            ledger.publish(event);
            Ok(event)
        },
    }
}

} // verus!
