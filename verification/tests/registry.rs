use blinkpay::{
    check_request, create_request, initialize_merchant, Address, CreateRequest, ErrorCode, InitializeMerchant,
    Ledger, Merchant, PaymentReceipt, PaymentRequest, Record, RecordStore,
};

fn addr(n: u8) -> Address {
    Address::new([n; 32])
}

fn register(ledger: &mut Ledger, owner: u8, name: Option<&str>) -> Result<Address, ErrorCode> {
    initialize_merchant(
        ledger,
        &InitializeMerchant { merchant_authority: addr(owner) },
        name.map(|text| text.to_string()),
    )
}

fn publish(ledger: &mut Ledger, owner: u8, id: &str) -> Result<Address, ErrorCode> {
    create_request(
        ledger,
        &CreateRequest { merchant_authority: addr(owner) },
        id.to_string(),
        1000,
        addr(3),
        None,
    )
}

#[test]
fn new_ledger_is_empty() {
    let ledger = Ledger::new(addr(7));
    assert_eq!(ledger.program_id(), addr(7));
    assert!(ledger.read(&addr(1)).is_none());
    assert!(ledger.events().is_empty());
    assert!(ledger.staged().is_none());
}

#[test]
fn merchant_is_registered_once_per_owner() {
    let mut ledger = Ledger::new(addr(7));
    let merchant = register(&mut ledger, 1, Some("Corner shop")).unwrap();
    let record = ledger.merchant(&merchant).unwrap();
    assert_eq!(record.owner, addr(1));
    assert_eq!(record.display_name.as_deref(), Some("Corner shop"));

    assert_eq!(register(&mut ledger, 1, None), Err(ErrorCode::Collision));
    assert_eq!(ledger.merchant(&merchant).unwrap().display_name.as_deref(), Some("Corner shop"));

    let other = register(&mut ledger, 2, None).unwrap();
    assert_ne!(other, merchant);
    assert_eq!(ledger.merchant(&other).unwrap().display_name, None);
}

#[test]
fn display_name_has_at_most_64_bytes() {
    let mut ledger = Ledger::new(addr(7));
    assert_eq!(
        register(&mut ledger, 1, Some(&"n".repeat(65))),
        Err(ErrorCode::DisplayNameTooLong)
    );
    assert!(register(&mut ledger, 1, Some(&"n".repeat(64))).is_ok());
    assert!(register(&mut ledger, 2, Some("")).is_ok());
}

#[test]
fn request_is_created_under_the_merchant_of_the_signer() {
    let mut ledger = Ledger::new(addr(7));
    let merchant = register(&mut ledger, 1, None).unwrap();
    let address = create_request(
        &mut ledger,
        &CreateRequest { merchant_authority: addr(1) },
        "req1".to_string(),
        1000,
        addr(3),
        Some(500),
    )
    .unwrap();
    let request = ledger.request(&address).unwrap();
    assert_eq!(request.merchant, merchant);
    assert_eq!(request.request_id, "req1");
    assert_eq!(request.amount, 1000);
    assert_eq!(request.mint, addr(3));
    assert_eq!(request.expires_at, Some(500));
    assert!(ledger.merchant(&address).is_none());
    assert!(ledger.receipt(&address).is_none());
}

#[test]
fn request_id_is_unique_per_merchant() {
    let mut ledger = Ledger::new(addr(7));
    register(&mut ledger, 1, None).unwrap();
    register(&mut ledger, 2, None).unwrap();
    let first = publish(&mut ledger, 1, "req1").unwrap();
    assert_eq!(publish(&mut ledger, 1, "req1"), Err(ErrorCode::Collision));
    let second = publish(&mut ledger, 1, "req2").unwrap();
    let third = publish(&mut ledger, 2, "req1").unwrap();
    assert_ne!(first, second);
    assert_ne!(first, third);
    assert_ne!(second, third);
}

#[test]
fn request_id_must_have_1_to_64_bytes() {
    let mut ledger = Ledger::new(addr(7));
    register(&mut ledger, 1, None).unwrap();
    assert_eq!(publish(&mut ledger, 1, ""), Err(ErrorCode::InvalidId));
    assert_eq!(publish(&mut ledger, 1, &"i".repeat(65)), Err(ErrorCode::InvalidId));
    assert!(publish(&mut ledger, 1, "i").is_ok());
    assert!(publish(&mut ledger, 1, &"i".repeat(32)).is_ok());
    assert!(publish(&mut ledger, 1, &"i".repeat(33)).is_ok());
    assert!(publish(&mut ledger, 1, &"i".repeat(64)).is_ok());
}

#[test]
fn request_needs_a_registered_merchant() {
    let mut ledger = Ledger::new(addr(7));
    assert_eq!(publish(&mut ledger, 1, "req1"), Err(ErrorCode::RecordNotFound));
    // the id is looked at first
    assert_eq!(publish(&mut ledger, 1, ""), Err(ErrorCode::InvalidId));
}

#[test]
fn addresses_depend_on_the_program() {
    let mut one = Ledger::new(addr(7));
    let mut other = Ledger::new(addr(8));
    assert_ne!(register(&mut one, 1, None).unwrap(), register(&mut other, 1, None).unwrap());
}

#[test]
fn store_creates_once_and_reads_back() {
    let mut store = RecordStore::new();
    let merchant = Record::Merchant(Merchant { owner: addr(1), display_name: None, bump: 255 });
    let request = Record::Request(PaymentRequest {
        merchant: addr(10),
        request_id: "req1".to_string(),
        amount: 5,
        mint: addr(3),
        expires_at: None,
        bump: 254,
    });
    assert!(!store.contains(&addr(10)));
    assert!(store.read(&addr(10)).is_none());
    assert_eq!(store.create(addr(10), merchant.clone()), Ok(()));
    assert_eq!(store.create(addr(11), request.clone()), Ok(()));
    assert_eq!(store.create(addr(10), request.clone()), Err(ErrorCode::Collision));
    assert!(store.contains(&addr(10)));
    assert_eq!(store.read(&addr(10)), Some(&merchant));
    assert_eq!(store.read(&addr(11)), Some(&request));
    assert!(store.read(&addr(12)).is_none());
}

#[test]
fn reserved_sizes_of_the_records() {
    assert_eq!(Merchant::MAX_SIZE, 101);
    assert_eq!(PaymentRequest::MAX_SIZE, 150);
    assert_eq!(PaymentReceipt::MAX_SIZE, 213);
}

#[test]
fn second_registration_collides_whatever_its_display_name() {
    let mut ledger = Ledger::new(addr(7));
    let merchant = register(&mut ledger, 1, Some("Corner shop")).unwrap();
    assert_eq!(register(&mut ledger, 1, Some(&"n".repeat(65))), Err(ErrorCode::Collision));
    assert_eq!(register(&mut ledger, 1, Some("Other shop")), Err(ErrorCode::Collision));
    assert_eq!(ledger.merchant(&merchant).unwrap().display_name.as_deref(), Some("Corner shop"));
    // on a free address the display name decides
    assert_eq!(
        register(&mut ledger, 2, Some(&"n".repeat(65))),
        Err(ErrorCode::DisplayNameTooLong)
    );
    assert!(register(&mut ledger, 2, None).is_ok());
}

#[test]
fn request_is_published_by_the_owner_of_the_merchant_alone() {
    let signer = CreateRequest { merchant_authority: addr(1) };
    let own = Record::Merchant(Merchant { owner: addr(1), display_name: None, bump: 255 });
    let foreign = Record::Merchant(Merchant { owner: addr(2), display_name: None, bump: 255 });
    let request = Record::Request(PaymentRequest {
        merchant: addr(10),
        request_id: "req1".to_string(),
        amount: 5,
        mint: addr(3),
        expires_at: None,
        bump: 254,
    });
    assert_eq!(check_request(&signer, Some(&own), "req1"), Ok(()));
    assert_eq!(check_request(&signer, Some(&foreign), "req1"), Err(ErrorCode::Unauthorized));
    assert_eq!(check_request(&signer, None, "req1"), Err(ErrorCode::RecordNotFound));
    assert_eq!(check_request(&signer, Some(&request), "req1"), Err(ErrorCode::RecordNotFound));
    // the id is looked at first
    assert_eq!(check_request(&signer, Some(&foreign), ""), Err(ErrorCode::InvalidId));
    assert_eq!(check_request(&signer, None, &"i".repeat(65)), Err(ErrorCode::InvalidId));
}
