use blinkpay::{
    check_refund, initialize_merchant, pay, refund, refund_partial, settle, Address, ErrorCode,
    HoldingAccount, InitializeMerchant, Ledger, Pay, Refund, Transfer, TransferOutcome,
};

fn addr(n: u8) -> Address {
    Address::new([n; 32])
}

fn holding(address: u8, owner: u8, mint: u8) -> HoldingAccount {
    HoldingAccount { address: addr(address), owner: addr(owner), mint: addr(mint) }
}

/// A ledger in which payer 2 paid 1000 of asset 3 to the merchant of owner 1;
/// returns the address of the receipt.
fn ledger_with_receipt() -> (Ledger, Address) {
    let mut ledger = Ledger::new(addr(7));
    let merchant = initialize_merchant(
        &mut ledger,
        &InitializeMerchant { merchant_authority: addr(1) },
        None,
    )
    .unwrap();
    let ctx = Pay {
        payer: addr(2),
        request: None,
        merchant,
        payer_ata: holding(20, 2, 3),
        merchant_ata: holding(21, 1, 3),
        mint: addr(3),
    };
    pay(&mut ledger, &ctx, "rcpt1".to_string(), 1000, 5).unwrap();
    let event = settle(&mut ledger, TransferOutcome::Completed).unwrap();
    (ledger, event.receipt)
}

fn by_owner(receipt: Address) -> Refund {
    Refund {
        merchant_authority: addr(1),
        receipt,
        merchant_ata: holding(21, 1, 3),
        payer_ata: holding(20, 2, 3),
    }
}

fn back(amount: u64) -> Transfer {
    Transfer { from: addr(21), to: addr(20), authority: addr(1), amount }
}

#[test]
fn full_refund_moves_the_amount_of_the_receipt() {
    let (ledger, receipt) = ledger_with_receipt();
    assert_eq!(refund(&ledger, &by_owner(receipt)), Ok(back(1000)));
    assert_eq!(ledger.receipt(&receipt).unwrap().amount, 1000);
}

#[test]
fn partial_refund_of_nothing_is_refused() {
    let (ledger, receipt) = ledger_with_receipt();
    assert_eq!(refund_partial(&ledger, &by_owner(receipt), 0), Err(ErrorCode::InvalidAmount));
}

#[test]
fn partial_refund_can_be_repeated() {
    let (ledger, receipt) = ledger_with_receipt();
    assert_eq!(refund_partial(&ledger, &by_owner(receipt), 500), Ok(back(500)));
    assert_eq!(refund_partial(&ledger, &by_owner(receipt), 500), Ok(back(500)));
    assert_eq!(refund_partial(&ledger, &by_owner(receipt), 500), Ok(back(500)));
    assert_eq!(ledger.receipt(&receipt).unwrap().amount, 1000);
    assert_eq!(ledger.events().len(), 1);
}

#[test]
fn partial_refund_is_not_held_against_the_receipt() {
    let (ledger, receipt) = ledger_with_receipt();
    assert_eq!(refund_partial(&ledger, &by_owner(receipt), 1001), Ok(back(1001)));
    assert_eq!(refund_partial(&ledger, &by_owner(receipt), u64::MAX), Ok(back(u64::MAX)));
}

#[test]
fn refund_by_another_signer_is_refused() {
    let (mut ledger, receipt) = ledger_with_receipt();
    let mut ctx = by_owner(receipt);
    ctx.merchant_authority = addr(2);
    ctx.merchant_ata.owner = addr(2);
    assert_eq!(refund(&ledger, &ctx), Err(ErrorCode::Unauthorized));
    assert_eq!(refund_partial(&ledger, &ctx, 500), Err(ErrorCode::Unauthorized));
    // the signer is looked at before the amount
    assert_eq!(refund_partial(&ledger, &ctx, 0), Err(ErrorCode::Unauthorized));

    // the owner of another merchant is refused too
    initialize_merchant(&mut ledger, &InitializeMerchant { merchant_authority: addr(2) }, None)
        .unwrap();
    assert_eq!(refund(&ledger, &ctx), Err(ErrorCode::Unauthorized));
}

#[test]
fn refund_needs_a_receipt() {
    let (ledger, _receipt) = ledger_with_receipt();
    assert_eq!(refund(&ledger, &by_owner(addr(99))), Err(ErrorCode::RecordNotFound));
    assert_eq!(refund_partial(&ledger, &by_owner(addr(99)), 5), Err(ErrorCode::RecordNotFound));
    let merchant = ledger.receipt(&_receipt).unwrap().merchant;
    assert_eq!(refund(&ledger, &by_owner(merchant)), Err(ErrorCode::RecordNotFound));
}

#[test]
fn refund_checks_the_holding_accounts() {
    let (ledger, receipt) = ledger_with_receipt();

    let mut ctx = by_owner(receipt);
    ctx.merchant_ata.owner = addr(2);
    assert_eq!(refund(&ledger, &ctx), Err(ErrorCode::OwnerMismatch));

    let mut ctx = by_owner(receipt);
    ctx.merchant_ata.mint = addr(4);
    assert_eq!(refund(&ledger, &ctx), Err(ErrorCode::AssetMismatch));

    let mut ctx = by_owner(receipt);
    ctx.payer_ata.owner = addr(1);
    assert_eq!(refund_partial(&ledger, &ctx, 5), Err(ErrorCode::OwnerMismatch));

    let mut ctx = by_owner(receipt);
    ctx.payer_ata.mint = addr(4);
    assert_eq!(refund_partial(&ledger, &ctx, 5), Err(ErrorCode::AssetMismatch));
    // both owners are looked at before any asset
    let mut ctx = by_owner(receipt);
    ctx.merchant_ata.mint = addr(4);
    ctx.payer_ata.owner = addr(1);
    assert_eq!(refund(&ledger, &ctx), Err(ErrorCode::OwnerMismatch));

    let mut ctx = by_owner(receipt);
    ctx.payer_ata.mint = addr(4);
    // the amount is looked at before the holding accounts
    assert_eq!(refund_partial(&ledger, &ctx, 0), Err(ErrorCode::InvalidAmount));
}

#[test]
fn refund_is_checked_on_the_records_alone() {
    let (ledger, address) = ledger_with_receipt();
    let receipt = ledger.receipt(&address).unwrap().clone();
    let merchant = ledger.merchant(&receipt.merchant).unwrap().clone();
    let ctx = by_owner(address);
    assert_eq!(check_refund(&ctx, &receipt, &receipt.merchant, &merchant, None), Ok(back(1000)));
    assert_eq!(
        check_refund(&ctx, &receipt, &receipt.merchant, &merchant, Some(1)),
        Ok(back(1))
    );
    assert_eq!(
        check_refund(&ctx, &receipt, &receipt.merchant, &merchant, Some(0)),
        Err(ErrorCode::InvalidAmount)
    );
    // a merchant record from another address does not authorize
    assert_eq!(
        check_refund(&ctx, &receipt, &addr(99), &merchant, None),
        Err(ErrorCode::Unauthorized)
    );
}
