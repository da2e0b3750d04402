//! What holds of the ledger whatever is asked of it, proved over the step
//! functions that the operations' contracts are stated with.

use crate::accounts::{id_ok, PaymentRequest};
use crate::address::{derived, merchant_seeds, receipt_seeds, Address};
use crate::errors::ErrorCode;
use crate::ledger::{
    event_of, held, inv, lemma_inv_settled, lemma_inv_staged, receipt_ok, LedgerView, Settlement,
};
use crate::refund::{refund_partial_plan, refund_plan, Refund};
use crate::registry::{
    create_request_step, initialize_merchant_step, CreateRequest, InitializeMerchant,
};
use crate::settlement::{
    fee_amount, fee_bps_of, holdings_check, payment_plan, request_of, settle_step, transfers_of,
    Payment, Transfer, TransferOutcome,
};
use crate::validation::{expired, request_match};
use vstd::prelude::*;

verus! {

/// Whether every record of `before` stands unchanged in `after`.
pub open spec fn records_kept(before: LedgerView, after: LedgerView) -> bool {
    forall|address: Address| #[trigger]
        before.records.contains_key(address) ==> after.records.contains_key(address)
            && after.records[address] == before.records[address]
}

/// Whether a payment passes every check: its receipt id has an accepted
/// length, it agrees with the request it refers to, its holding accounts
/// are in order, its fee rate is one, and its receipt has an address.
pub open spec fn payment_accepted(
    ledger: LedgerView,
    payment: Payment,
    receipt_id: String,
    amount: u64,
    now: i64,
) -> bool {
    &&& id_ok(receipt_id@)
    &&& request_of(held(ledger, payment.request)) matches Ok(request)
    &&& request_match(request, payment.merchant, payment.mint, amount, now) is Ok
    &&& holdings_check(payment, held(ledger, Some(payment.merchant))) is Ok
    &&& fee_bps_of(payment) <= 10_000
    &&& derived(ledger.program_id, receipt_seeds(payment.payer, receipt_id@)) is Some
}

/// A payment is planned exactly if it passes every check. Its settlement
/// then holds a receipt that is in order at the address derived for the
/// payer and the receipt id, with the terms of the payment in it.
pub proof fn law_payment_planned_iff_accepted(
    ledger: LedgerView,
    payment: Payment,
    receipt_id: String,
    amount: u64,
    now: i64,
)
    requires
        inv(ledger),
    ensures
        payment_plan(ledger, payment, receipt_id, amount, now) is Ok <==> payment_accepted(
            ledger,
            payment,
            receipt_id,
            amount,
            now,
        ),
        payment_plan(ledger, payment, receipt_id, amount, now) matches Ok(plan) ==> {
            &&& derived(ledger.program_id, receipt_seeds(payment.payer, receipt_id@)) == Some(
                (plan.0.address, plan.0.receipt.bump),
            )
            &&& plan.0.receipt.payer == payment.payer
            &&& plan.0.receipt.merchant == payment.merchant
            &&& plan.0.receipt.mint == payment.mint
            &&& plan.0.receipt.amount == amount
            &&& plan.0.receipt.receipt_id == receipt_id
            &&& plan.0.receipt.timestamp == now
            &&& receipt_ok(ledger, plan.0.address, plan.0.receipt)
            &&& inv(ledger.with_staged(Some(plan.0)))
        },
{
    if let Ok(plan) = payment_plan(ledger, payment, receipt_id, amount, now) {
        lemma_inv_staged(ledger, Some(plan.0));
    }
}

/// The first settlement under a payer and a receipt id goes through: where
/// a payment passes every check and the address of its receipt is free, the
/// report that its transfers completed stores its receipt at that address
/// and publishes its fact.
pub proof fn law_first_settlement_succeeds(
    ledger: LedgerView,
    payment: Payment,
    receipt_id: String,
    amount: u64,
    now: i64,
)
    requires
        inv(ledger),
        payment_accepted(ledger, payment, receipt_id, amount, now),
        derived(ledger.program_id, receipt_seeds(payment.payer, receipt_id@)) matches Some(found)
            && !ledger.records.contains_key(found.0),
    ensures
        payment_plan(ledger, payment, receipt_id, amount, now) matches Ok(plan) && ({
            let settled = settle_step(
                ledger.with_staged(Some(plan.0)),
                TransferOutcome::Completed,
            );
            &&& settled.1 == Ok::<_, ErrorCode>(event_of(plan.0.address, plan.0.receipt))
            &&& settled.0.receipt_at(plan.0.address) == Some(plan.0.receipt)
            &&& settled.0.events == ledger.events.push(event_of(plan.0.address, plan.0.receipt))
            &&& settled.0.staged is None
            &&& records_kept(ledger, settled.0)
            &&& inv(settled.0)
        }),
{
    law_payment_planned_iff_accepted(ledger, payment, receipt_id, amount, now);
    let plan = payment_plan(ledger, payment, receipt_id, amount, now)->Ok_0;
    lemma_inv_settled(ledger.with_staged(Some(plan.0)), plan.0);
}

/// A payer and a receipt id settle at most once: where the address derived
/// for them is occupied, no payment of that payer under that id is ever
/// settled, whatever its other terms. If it passes the checks, the report
/// of its transfers ends in a collision, or in a transfer failure where the
/// transfers failed; the records and the published facts stay as they were.
pub proof fn law_settled_pair_collides(
    ledger: LedgerView,
    payment: Payment,
    receipt_id: String,
    amount: u64,
    now: i64,
    report: TransferOutcome,
)
    requires
        inv(ledger),
        derived(ledger.program_id, receipt_seeds(payment.payer, receipt_id@)) matches Some(found)
            && ledger.records.contains_key(found.0),
    ensures
        payment_plan(ledger, payment, receipt_id, amount, now) matches Ok(plan) ==> ({
            let settled = settle_step(ledger.with_staged(Some(plan.0)), report);
            &&& settled.1 == Err::<crate::events::PaymentCompleted, _>(
                if report is Failed {
                    ErrorCode::TransferFailure
                } else {
                    ErrorCode::Collision
                },
            )
            &&& settled.0.records == ledger.records
            &&& settled.0.events == ledger.events
            &&& settled.0.staged is None
        }),
{
}

/// Exactly once: after a payment was settled, a second payment of the same
/// payer under the same receipt id cannot be settled, whatever its merchant,
/// request, asset, amount, fee, holding accounts and time. Where it passes
/// the checks and its transfers complete, the outcome is a collision.
pub proof fn law_exactly_once(
    ledger: LedgerView,
    first: Payment,
    first_id: String,
    first_amount: u64,
    first_now: i64,
    second: Payment,
    second_id: String,
    second_amount: u64,
    second_now: i64,
    report: TransferOutcome,
)
    requires
        inv(ledger),
        payment_plan(ledger, first, first_id, first_amount, first_now) matches Ok(plan)
            && settle_step(ledger.with_staged(Some(plan.0)), TransferOutcome::Completed).1 is Ok,
        second.payer == first.payer,
        second_id@ == first_id@,
    ensures
        ({
            let plan = payment_plan(ledger, first, first_id, first_amount, first_now)->Ok_0;
            let settled = settle_step(
                ledger.with_staged(Some(plan.0)),
                TransferOutcome::Completed,
            ).0;
            payment_plan(settled, second, second_id, second_amount, second_now) matches Ok(again)
                ==> ({
                let retried = settle_step(settled.with_staged(Some(again.0)), report);
                &&& retried.1 is Err
                &&& report is Completed ==> retried.1 == Err::<crate::events::PaymentCompleted, _>(
                    ErrorCode::Collision,
                )
                &&& retried.0.records == settled.records
                &&& retried.0.events == settled.events
            })
        }),
{
    law_payment_planned_iff_accepted(ledger, first, first_id, first_amount, first_now);
    let plan = payment_plan(ledger, first, first_id, first_amount, first_now)->Ok_0;
    lemma_inv_settled(ledger.with_staged(Some(plan.0)), plan.0);
    let settled = settle_step(ledger.with_staged(Some(plan.0)), TransferOutcome::Completed).0;
    assert(settled.records.contains_key(plan.0.address));
    law_settled_pair_collides(settled, second, second_id, second_amount, second_now, report);
}

/// A merchant is registered once per owner: after a registration went
/// through, another one by the same owner collides, whatever display name
/// it brings, and leaves the ledger as it is.
pub proof fn law_merchant_registered_once(
    ledger: LedgerView,
    ctx: InitializeMerchant,
    first_name: Option<String>,
    second_name: Option<String>,
)
    requires
        initialize_merchant_step(ledger, ctx, first_name).1 is Ok,
    ensures
        ({
            let registered = initialize_merchant_step(ledger, ctx, first_name).0;
            initialize_merchant_step(registered, ctx, second_name) == (
                registered,
                Err::<Address, _>(ErrorCode::Collision),
            )
        }),
{
}

/// A request belongs to its signer: where a request is published, it names
/// the merchant at the address derived for the signer, that merchant is
/// registered, and the signer is its owner.
pub proof fn law_request_belongs_to_signer(
    ledger: LedgerView,
    ctx: CreateRequest,
    request_id: String,
    amount: u64,
    mint: Address,
    expires_at: Option<i64>,
)
    ensures
        create_request_step(ledger, ctx, request_id, amount, mint, expires_at).1 matches Ok(
            address,
        ) ==> ({
            let published = create_request_step(
                ledger,
                ctx,
                request_id,
                amount,
                mint,
                expires_at,
            ).0;
            &&& published.request_at(address) matches Some(request)
            &&& derived(ledger.program_id, merchant_seeds(ctx.merchant_authority)) matches Some(
                found,
            )
            &&& request.merchant == found.0
            &&& published.merchant_at(request.merchant) matches Some(merchant)
            &&& merchant.owner == ctx.merchant_authority
            &&& ledger.merchant_at(request.merchant) == Some(merchant)
        }),
{
}

/// A request id is unique per merchant: after a request was published,
/// another one by the same owner under the same id collides, whatever it
/// asks for, and leaves the ledger as it is.
pub proof fn law_request_id_unique_per_merchant(
    ledger: LedgerView,
    ctx: CreateRequest,
    first_id: String,
    first_amount: u64,
    first_mint: Address,
    first_expiry: Option<i64>,
    second_id: String,
    second_amount: u64,
    second_mint: Address,
    second_expiry: Option<i64>,
)
    requires
        create_request_step(ledger, ctx, first_id, first_amount, first_mint, first_expiry).1 is Ok,
        second_id@ == first_id@,
    ensures
        ({
            let published = create_request_step(
                ledger,
                ctx,
                first_id,
                first_amount,
                first_mint,
                first_expiry,
            ).0;
            create_request_step(
                published,
                ctx,
                second_id,
                second_amount,
                second_mint,
                second_expiry,
            ) == (published, Err::<Address, _>(ErrorCode::Collision))
        }),
{
}

/// Records are permanent and the published facts stay: no operation removes
/// or changes a record or a fact. A registration and a publication of a
/// request leave every record where and as it was and the facts as they
/// were; a report of a transfer outcome leaves every record where and as it
/// was, and the facts up to the one it may append.
pub proof fn law_records_permanent(
    ledger: LedgerView,
    registration: InitializeMerchant,
    display_name: Option<String>,
    publication: CreateRequest,
    request_id: String,
    amount: u64,
    mint: Address,
    expires_at: Option<i64>,
    report: TransferOutcome,
)
    ensures
        records_kept(ledger, initialize_merchant_step(ledger, registration, display_name).0),
        records_kept(
            ledger,
            create_request_step(ledger, publication, request_id, amount, mint, expires_at).0,
        ),
        records_kept(ledger, settle_step(ledger, report).0),
        initialize_merchant_step(ledger, registration, display_name).0.events == ledger.events,
        create_request_step(ledger, publication, request_id, amount, mint, expires_at).0.events
            == ledger.events,
        ledger.events.is_prefix_of(settle_step(ledger, report).0.events),
{
}

/// A fact is published exactly when a settlement goes through: the report
/// of a transfer outcome appends one fact if it returns one, and none if it
/// returns an error; then it also stores no receipt.
pub proof fn law_event_iff_settled(ledger: LedgerView, report: TransferOutcome)
    ensures
        ({
            let settled = settle_step(ledger, report);
            match settled.1 {
                Ok(event) => settled.0.events == ledger.events.push(event),
                Err(_) => settled.0.events == ledger.events && settled.0.records
                    == ledger.records,
            }
        }),
{
}

/// A payment that disagrees with the request it refers to is refused with
/// the error of the first disagreement, in the order merchant, asset,
/// expiry, amount: nothing is staged and no transfer is asked for. The
/// receipt id must have an accepted length, for its check comes first.
pub proof fn law_mismatch_refuses_payment(
    ledger: LedgerView,
    payment: Payment,
    request: PaymentRequest,
    receipt_id: String,
    amount: u64,
    now: i64,
)
    requires
        id_ok(receipt_id@),
        payment.request matches Some(reference) && ledger.request_at(reference) == Some(request),
        request.merchant != payment.merchant || request.mint != payment.mint || expired(
            request.expires_at,
            now,
        ) || request.amount != amount,
    ensures
        payment_plan(ledger, payment, receipt_id, amount, now) matches Err(error) && error == (
            if request.merchant != payment.merchant {
                ErrorCode::RequestMerchantMismatch
            } else if request.mint != payment.mint {
                ErrorCode::RequestAssetMismatch
            } else if expired(request.expires_at, now) {
                ErrorCode::RequestExpired
            } else {
                ErrorCode::AmountMismatch
            }
        ),
{
}

/// A refund needs the owner: where a full or a partial refund is planned,
/// the signer is the owner of the merchant that the receipt names, and that
/// merchant's record stands at the address derived for the signer.
pub proof fn law_refund_needs_owner(ledger: LedgerView, ctx: Refund, amount: u64)
    requires
        inv(ledger),
        refund_plan(ledger, ctx) is Ok || refund_partial_plan(ledger, ctx, amount) is Ok,
    ensures
        ledger.receipt_at(ctx.receipt) matches Some(receipt) && ({
            &&& ledger.merchant_at(receipt.merchant) matches Some(merchant)
            &&& merchant.owner == ctx.merchant_authority
            &&& derived(ledger.program_id, merchant_seeds(ctx.merchant_authority)) == Some(
                (receipt.merchant, merchant.bump),
            )
        }),
{
    let receipt = ledger.receipt_at(ctx.receipt)->Some_0;
    assert(ledger.records.contains_key(receipt.merchant));
}

/// A signer who is not the owner of the merchant that a receipt names is
/// refused both refunds of it.
pub proof fn law_refund_refused_without_owner(ledger: LedgerView, ctx: Refund, amount: u64)
    requires
        ledger.receipt_at(ctx.receipt) matches Some(receipt) && ledger.merchant_at(
            receipt.merchant,
        ) matches Some(merchant) && merchant.owner != ctx.merchant_authority,
    ensures
        refund_plan(ledger, ctx) == Err::<Transfer, _>(ErrorCode::Unauthorized),
        refund_partial_plan(ledger, ctx, amount) == Err::<Transfer, _>(ErrorCode::Unauthorized),
{
}

/// The sum of the amounts of a list of transfers.
pub open spec fn total_moved(transfers: Seq<Transfer>) -> int
    decreases transfers.len(),
{
    if transfers.len() == 0 {
        0
    } else {
        total_moved(transfers.drop_last()) + transfers.last().amount
    }
}

/// The transfers of a settlement move the amount, no more and no less: the
/// fee and the merchant's part add up to it, and a part of zero asks for no
/// transfer.
pub proof fn law_transfers_move_amount(payment: Payment, amount: u64)
    requires
        fee_bps_of(payment) <= 10_000,
    ensures
        0 <= fee_amount(amount, fee_bps_of(payment)) <= amount,
        total_moved(transfers_of(payment, amount)) == amount,
        forall|i: int|
            0 <= i < transfers_of(payment, amount).len() ==> (#[trigger] transfers_of(
                payment,
                amount,
            )[i]).amount > 0,
{
    let bps = fee_bps_of(payment);
    let fee = fee_amount(amount, bps);
    assert(0 <= (amount as int) * (bps as int) <= (amount as int) * 10_000) by (nonlinear_arith)
        requires
            0 <= amount,
            0 <= bps <= 10_000,
    ;
    if payment.split is None {
        assert(fee == 0);
    }
    let transfers = transfers_of(payment, amount);
    reveal_with_fuel(total_moved, 3);
    if transfers.len() == 2 {
        assert(transfers.drop_last().len() == 1);
        assert(transfers.drop_last().drop_last().len() == 0);
    } else if transfers.len() == 1 {
        assert(transfers.drop_last().len() == 0);
    }
}

} // verus!
