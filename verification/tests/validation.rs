use blinkpay::validation::{
    validate_display_name, validate_fee_bps, validate_holding, validate_holding_asset,
    validate_holding_owner, validate_id, validate_request_match, MAX_FEE_BPS,
};
use blinkpay::{Address, ErrorCode, HoldingAccount, PaymentRequest};

fn addr(n: u8) -> Address {
    Address::new([n; 32])
}

fn request(expires_at: Option<i64>) -> PaymentRequest {
    PaymentRequest {
        merchant: addr(10),
        request_id: "req1".to_string(),
        amount: 1000,
        mint: addr(3),
        expires_at,
        bump: 255,
    }
}

#[test]
fn id_of_1_to_64_bytes_is_accepted() {
    assert_eq!(validate_id(""), Err(ErrorCode::InvalidId));
    assert_eq!(validate_id("a"), Ok(()));
    assert_eq!(validate_id(&"a".repeat(64)), Ok(()));
    assert_eq!(validate_id(&"a".repeat(65)), Err(ErrorCode::InvalidId));
    // the length is counted in bytes: 16 characters of four bytes each, then one more
    assert_eq!(validate_id(&"\u{1f600}".repeat(16)), Ok(()));
    assert_eq!(validate_id(&"\u{1f600}".repeat(17)), Err(ErrorCode::InvalidId));
}

#[test]
fn display_name_of_at_most_64_bytes_is_accepted() {
    assert_eq!(validate_display_name(&None), Ok(()));
    assert_eq!(validate_display_name(&Some(String::new())), Ok(()));
    assert_eq!(validate_display_name(&Some("n".repeat(64))), Ok(()));
    assert_eq!(validate_display_name(&Some("n".repeat(65))), Err(ErrorCode::DisplayNameTooLong));
    assert_eq!(
        validate_display_name(&Some("\u{e9}".repeat(33))),
        Err(ErrorCode::DisplayNameTooLong)
    );
}

#[test]
fn payment_without_request_matches() {
    assert_eq!(validate_request_match(None, &addr(10), &addr(3), 5, i64::MAX), Ok(()));
}

#[test]
fn payment_that_agrees_with_its_request_matches() {
    assert_eq!(validate_request_match(Some(&request(None)), &addr(10), &addr(3), 1000, 7), Ok(()));
    assert_eq!(
        validate_request_match(Some(&request(Some(7))), &addr(10), &addr(3), 1000, 7),
        Ok(())
    );
    assert_eq!(
        validate_request_match(Some(&request(Some(7))), &addr(10), &addr(3), 1000, i64::MIN),
        Ok(())
    );
}

#[test]
fn each_disagreement_with_the_request_has_its_error() {
    let found = request(Some(7));
    assert_eq!(
        validate_request_match(Some(&found), &addr(11), &addr(3), 1000, 7),
        Err(ErrorCode::RequestMerchantMismatch)
    );
    assert_eq!(
        validate_request_match(Some(&found), &addr(10), &addr(4), 1000, 7),
        Err(ErrorCode::RequestAssetMismatch)
    );
    assert_eq!(
        validate_request_match(Some(&found), &addr(10), &addr(3), 1000, 8),
        Err(ErrorCode::RequestExpired)
    );
    assert_eq!(
        validate_request_match(Some(&found), &addr(10), &addr(3), 1001, 7),
        Err(ErrorCode::AmountMismatch)
    );
}

#[test]
fn disagreements_are_reported_in_the_order_merchant_asset_expiry_amount() {
    let found = request(Some(7));
    assert_eq!(
        validate_request_match(Some(&found), &addr(11), &addr(4), 1, 8),
        Err(ErrorCode::RequestMerchantMismatch)
    );
    assert_eq!(
        validate_request_match(Some(&found), &addr(10), &addr(4), 1, 8),
        Err(ErrorCode::RequestAssetMismatch)
    );
    assert_eq!(
        validate_request_match(Some(&found), &addr(10), &addr(3), 1, 8),
        Err(ErrorCode::RequestExpired)
    );
}

#[test]
fn holding_is_held_against_owner_then_asset() {
    let account = HoldingAccount { address: addr(20), owner: addr(2), mint: addr(3) };
    assert_eq!(validate_holding(&account, &addr(2), &addr(3)), Ok(()));
    assert_eq!(validate_holding(&account, &addr(1), &addr(3)), Err(ErrorCode::OwnerMismatch));
    assert_eq!(validate_holding(&account, &addr(2), &addr(4)), Err(ErrorCode::AssetMismatch));
    assert_eq!(validate_holding(&account, &addr(1), &addr(4)), Err(ErrorCode::OwnerMismatch));
    assert_eq!(validate_holding_owner(&account, &addr(2)), Ok(()));
    assert_eq!(validate_holding_owner(&account, &addr(1)), Err(ErrorCode::OwnerMismatch));
    assert_eq!(validate_holding_asset(&account, &addr(3)), Ok(()));
    assert_eq!(validate_holding_asset(&account, &addr(4)), Err(ErrorCode::AssetMismatch));
}

#[test]
fn fee_rate_of_at_most_10000_is_accepted() {
    assert_eq!(MAX_FEE_BPS, 10_000);
    assert_eq!(validate_fee_bps(0), Ok(()));
    assert_eq!(validate_fee_bps(10_000), Ok(()));
    assert_eq!(validate_fee_bps(10_001), Err(ErrorCode::InvalidFeeBps));
    assert_eq!(validate_fee_bps(u16::MAX), Err(ErrorCode::InvalidFeeBps));
}
