//! The ledger: its records, the facts it has published and the settlement
//! that waits for its transfers, with the invariant that ties them together.

use crate::accounts::{
    display_name_ok, id_ok, Merchant, PaymentReceipt, PaymentRequest, Record,
};
use crate::address::{derived, merchant_seeds, receipt_seeds, request_seeds, Address};
use crate::errors::ErrorCode;
use crate::events::PaymentCompleted;
use crate::store::RecordStore;
use vstd::prelude::*;

verus! {

/// A payment that passed every check and waits for the asset-transfer
/// service: the receipt to create and the address to create it at.
#[derive(Clone, Debug, PartialEq, Eq)]
pub struct Settlement {
    pub address: Address,
    pub receipt: PaymentReceipt,
}

/// What a ledger holds, as mathematics.
#[verifier::ext_equal]
pub struct LedgerView {
    /// The program under whose id the addresses of the records are derived.
    pub program_id: Address,
    pub records: Map<Address, Record>,
    /// The facts published so far, oldest first.
    pub events: Seq<PaymentCompleted>,
    /// The settlement that waits for its transfers, if one does.
    pub staged: Option<Settlement>,
}

impl LedgerView {
    /// The ledger of `program_id` in which nothing happened yet.
    pub open spec fn empty(program_id: Address) -> LedgerView {
        LedgerView { program_id, records: Map::empty(), events: Seq::empty(), staged: None }
    }

    /// This ledger with `record` at `address`.
    pub open spec fn with_record(self, address: Address, record: Record) -> LedgerView {
        LedgerView { records: self.records.insert(address, record), ..self }
    }

    /// This ledger after it published `event`.
    pub open spec fn with_event(self, event: PaymentCompleted) -> LedgerView {
        LedgerView { events: self.events.push(event), ..self }
    }

    /// This ledger with `staged` in the place of its waiting settlement.
    pub open spec fn with_staged(self, staged: Option<Settlement>) -> LedgerView {
        LedgerView { staged, ..self }
    }

    /// The merchant at `address`, if the address holds one.
    pub open spec fn merchant_at(self, address: Address) -> Option<Merchant> {
        if self.records.contains_key(address) {
            match self.records[address] {
                Record::Merchant(merchant) => Some(merchant),
                _ => None,
            }
        } else {
            None
        }
    }

    /// The payment request at `address`, if the address holds one.
    pub open spec fn request_at(self, address: Address) -> Option<PaymentRequest> {
        if self.records.contains_key(address) {
            match self.records[address] {
                Record::Request(request) => Some(request),
                _ => None,
            }
        } else {
            None
        }
    }

    /// The receipt at `address`, if the address holds one.
    pub open spec fn receipt_at(self, address: Address) -> Option<PaymentReceipt> {
        if self.records.contains_key(address) {
            match self.records[address] {
                Record::Receipt(receipt) => Some(receipt),
                _ => None,
            }
        } else {
            None
        }
    }
}

/// What the address that an operation refers to holds: nothing without a
/// reference, and nothing at a free address.
pub open spec fn held(ledger: LedgerView, reference: Option<Address>) -> Option<Record> {
    match reference {
        Some(address) if ledger.records.contains_key(address) => Some(ledger.records[address]),
        _ => None,
    }
}

/// The value behind an optional reference.
pub open spec fn unborrowed<T>(reference: Option<&T>) -> Option<T> {
    match reference {
        Some(value) => Some(*value),
        None => None,
    }
}

/// The fact that the settlement of `receipt` at `address` publishes.
pub open spec fn event_of(address: Address, receipt: PaymentReceipt) -> PaymentCompleted {
    PaymentCompleted {
        receipt: address,
        merchant: receipt.merchant,
        payer: receipt.payer,
        amount: receipt.amount,
        mint: receipt.mint,
        timestamp: receipt.timestamp,
    }
}

/// Writes the fact that the settlement of `receipt` at `address` publishes.
pub fn completion_event(address: Address, receipt: &PaymentReceipt) -> (event: PaymentCompleted)
    ensures
        event == event_of(address, *receipt),
{
    PaymentCompleted {
        receipt: address,
        merchant: receipt.merchant,
        payer: receipt.payer,
        amount: receipt.amount,
        mint: receipt.mint,
        timestamp: receipt.timestamp,
    }
}

/// A merchant record is in order at `address`: the address is the one
/// derived for its owner, and its display name fits.
pub open spec fn merchant_ok(ledger: LedgerView, address: Address, merchant: Merchant) -> bool {
    &&& display_name_ok(merchant.display_name)
    &&& derived(ledger.program_id, merchant_seeds(merchant.owner)) == Some(
        (address, merchant.bump),
    )
}

/// A payment request is in order at `address`: the address is the one
/// derived for its merchant and id, and its merchant is registered.
pub open spec fn request_ok(ledger: LedgerView, address: Address, request: PaymentRequest) -> bool {
    &&& id_ok(request.request_id@)
    &&& derived(ledger.program_id, request_seeds(request.merchant, request.request_id@)) == Some(
        (address, request.bump),
    )
    &&& ledger.merchant_at(request.merchant) is Some
}

/// A receipt is in order at `address`: the address is the one derived for
/// its payer and id, its merchant is registered, and where it names a
/// request, that request is one of the same merchant for the same amount of
/// the same asset.
pub open spec fn receipt_ok(ledger: LedgerView, address: Address, receipt: PaymentReceipt) -> bool {
    &&& id_ok(receipt.receipt_id@)
    &&& derived(ledger.program_id, receipt_seeds(receipt.payer, receipt.receipt_id@)) == Some(
        (address, receipt.bump),
    )
    &&& ledger.merchant_at(receipt.merchant) is Some
    &&& receipt.request matches Some(reference) ==> {
        &&& ledger.request_at(reference) matches Some(request)
        &&& request.merchant == receipt.merchant
        &&& request.mint == receipt.mint
        &&& request.amount == receipt.amount
    }
}

/// A record is in order at `address`.
pub open spec fn record_ok(ledger: LedgerView, address: Address, record: Record) -> bool {
    match record {
        Record::Merchant(merchant) => merchant_ok(ledger, address, merchant),
        Record::Request(request) => request_ok(ledger, address, request),
        Record::Receipt(receipt) => receipt_ok(ledger, address, receipt),
    }
}

/// Whether the `i`-th published fact is about the receipt at `address`.
pub open spec fn published_at(events: Seq<PaymentCompleted>, address: Address, i: int) -> bool {
    0 <= i < events.len() && events[i].receipt == address
}

/// A published fact is in order: it tells of a stored receipt, field by
/// field.
pub open spec fn event_ok(ledger: LedgerView, event: PaymentCompleted) -> bool {
    match ledger.receipt_at(event.receipt) {
        Some(receipt) => event == event_of(event.receipt, receipt),
        None => false,
    }
}

/// The invariant of a ledger. Every record is in order at its address;
/// every published fact tells of a stored receipt, and every stored receipt
/// has its fact; the waiting settlement, if there is one, holds a receipt
/// that would be in order at its address.
pub open spec fn inv(ledger: LedgerView) -> bool {
    &&& forall|address: Address| #[trigger]
        ledger.records.contains_key(address) ==> record_ok(
            ledger,
            address,
            ledger.records[address],
        )
    &&& forall|i: int|
        0 <= i < ledger.events.len() ==> event_ok(ledger, #[trigger] ledger.events[i])
    &&& forall|address: Address| #[trigger]
        ledger.receipt_at(address) is Some ==> exists|i: int|
            published_at(ledger.events, address, i)
    &&& ledger.staged matches Some(settlement) ==> receipt_ok(
        ledger,
        settlement.address,
        settlement.receipt,
    )
}

/// A record that is in order stays in order when a record is created at a
/// free address.
pub proof fn lemma_record_ok_grows(
    ledger: LedgerView,
    fresh: Address,
    created: Record,
    address: Address,
    record: Record,
)
    requires
        !ledger.records.contains_key(fresh),
        record_ok(ledger, address, record),
    ensures
        record_ok(ledger.with_record(fresh, created), address, record),
{
    let grown = ledger.with_record(fresh, created);
    assert(forall|a: Address|
        ledger.records.contains_key(a) ==> grown.records.contains_key(a) && grown.records[a]
            == ledger.records[a]);
}

/// The invariant survives the creation of a merchant or a request that is
/// in order at a free address.
pub proof fn lemma_inv_created(ledger: LedgerView, fresh: Address, created: Record)
    requires
        inv(ledger),
        !ledger.records.contains_key(fresh),
        !(created is Receipt),
        record_ok(ledger.with_record(fresh, created), fresh, created),
    ensures
        inv(ledger.with_record(fresh, created)),
{
    let grown = ledger.with_record(fresh, created);
    assert forall|address: Address| #[trigger]
        grown.records.contains_key(address) implies record_ok(
        grown,
        address,
        grown.records[address],
    ) by {
        if address != fresh {
            lemma_record_ok_grows(ledger, fresh, created, address, ledger.records[address]);
        }
    }
    assert forall|address: Address| #[trigger]
        grown.receipt_at(address) is Some implies exists|i: int|
        published_at(grown.events, address, i) by {
        assert(ledger.receipt_at(address) is Some);
        let i = choose|i: int| published_at(ledger.events, address, i);
        assert(published_at(grown.events, address, i));
    }
    if let Some(settlement) = ledger.staged {
        lemma_record_ok_grows(
            ledger,
            fresh,
            created,
            settlement.address,
            Record::Receipt(settlement.receipt),
        );
    }
}

/// The invariant survives a change of the waiting settlement to one whose
/// receipt would be in order, and its removal.
pub proof fn lemma_inv_staged(ledger: LedgerView, staged: Option<Settlement>)
    requires
        inv(ledger),
        staged matches Some(settlement) ==> receipt_ok(
            ledger,
            settlement.address,
            settlement.receipt,
        ),
    ensures
        inv(ledger.with_staged(staged)),
{
    let changed = ledger.with_staged(staged);
    assert forall|address: Address| #[trigger]
        changed.records.contains_key(address) implies record_ok(
        changed,
        address,
        changed.records[address],
    ) by {
        assert(record_ok(ledger, address, ledger.records[address]));
    }
    assert forall|address: Address| #[trigger]
        changed.receipt_at(address) is Some implies exists|i: int|
        published_at(changed.events, address, i) by {
        assert(ledger.receipt_at(address) is Some);
        let i = choose|i: int| published_at(ledger.events, address, i);
        assert(published_at(changed.events, address, i));
    }
}

/// The invariant survives the settlement of the waiting payment at a free
/// address: its receipt is stored, its fact published, and nothing waits.
pub proof fn lemma_inv_settled(ledger: LedgerView, settlement: Settlement)
    requires
        inv(ledger),
        ledger.staged == Some(settlement),
        !ledger.records.contains_key(settlement.address),
    ensures
        inv(
            ledger.with_staged(None).with_record(
                settlement.address,
                Record::Receipt(settlement.receipt),
            ).with_event(event_of(settlement.address, settlement.receipt)),
        ),
{
    let fresh = settlement.address;
    let created = Record::Receipt(settlement.receipt);
    let event = event_of(settlement.address, settlement.receipt);
    let grown = ledger.with_record(fresh, created);
    let settled = ledger.with_staged(None).with_record(fresh, created).with_event(event);
    assert(settled.records == grown.records);
    assert forall|address: Address| #[trigger]
        settled.records.contains_key(address) implies record_ok(
        settled,
        address,
        settled.records[address],
    ) by {
        if address != fresh {
            lemma_record_ok_grows(ledger, fresh, created, address, ledger.records[address]);
        } else {
            lemma_record_ok_grows(ledger, fresh, created, fresh, created);
        }
        assert(record_ok(grown, address, grown.records[address]));
    }
    assert forall|i: int| 0 <= i < settled.events.len() implies event_ok(
        settled,
        #[trigger] settled.events[i],
    ) by {
        if i < ledger.events.len() {
            assert(settled.events[i] == ledger.events[i]);
            assert(event_ok(ledger, ledger.events[i]));
        }
    }
    assert forall|address: Address| #[trigger]
        settled.receipt_at(address) is Some implies exists|i: int|
        published_at(settled.events, address, i) by {
        if address == fresh {
            assert(published_at(settled.events, address, ledger.events.len() as int));
        } else {
            assert(ledger.receipt_at(address) is Some);
            let i = choose|i: int| published_at(ledger.events, address, i);
            assert(published_at(settled.events, address, i));
        }
    }
}

/// A payment-settlement ledger.
pub struct Ledger {
    program_id: Address,
    store: RecordStore,
    events: Vec<PaymentCompleted>,
    staged: Option<Settlement>,
}

impl View for Ledger {
    type V = LedgerView;

    closed spec fn view(&self) -> LedgerView {
        LedgerView {
            program_id: self.program_id,
            records: self.store@,
            events: self.events@,
            staged: self.staged,
        }
    }
}

impl Ledger {
    /// The record store holds no address twice.
    pub closed spec fn store_wf(&self) -> bool {
        self.store.wf()
    }

    /// The ledger is well formed: its store is, and its invariant holds.
    pub open spec fn wf(&self) -> bool {
        self.store_wf() && inv(self@)
    }

    /// The ledger of `program_id` in which nothing happened yet.
    pub fn new(program_id: Address) -> (ledger: Ledger)
        ensures
            ledger.wf(),
            ledger@ == LedgerView::empty(program_id),
    {
        Ledger { program_id, store: RecordStore::new(), events: Vec::new(), staged: None }
    }

    /// The program under whose id the addresses of the records are derived.
    pub fn program_id(&self) -> (id: Address)
        ensures
            id == self@.program_id,
    {
        self.program_id
    }

    /// The record at `address`, if the address is occupied.
    pub fn read(&self, address: &Address) -> (found: Option<&Record>)
        requires
            self.store_wf(),
        ensures
            match found {
                Some(record) => self@.records.contains_key(*address) && *record
                    == self@.records[*address],
                None => !self@.records.contains_key(*address),
            },
    {
        self.store.read(address)
    }

    /// The merchant at `address`, if the address holds one.
    pub fn merchant(&self, address: &Address) -> (found: Option<&Merchant>)
        requires
            self.store_wf(),
        ensures
            match found {
                Some(merchant) => self@.merchant_at(*address) == Some(*merchant),
                None => self@.merchant_at(*address) is None,
            },
    {
        match self.store.read(address) {
            Some(Record::Merchant(merchant)) => Some(merchant),
            _ => None,
        }
    }

    /// The payment request at `address`, if the address holds one.
    pub fn request(&self, address: &Address) -> (found: Option<&PaymentRequest>)
        requires
            self.store_wf(),
        ensures
            match found {
                Some(request) => self@.request_at(*address) == Some(*request),
                None => self@.request_at(*address) is None,
            },
    {
        match self.store.read(address) {
            Some(Record::Request(request)) => Some(request),
            _ => None,
        }
    }

    /// The receipt at `address`, if the address holds one.
    pub fn receipt(&self, address: &Address) -> (found: Option<&PaymentReceipt>)
        requires
            self.store_wf(),
        ensures
            match found {
                Some(receipt) => self@.receipt_at(*address) == Some(*receipt),
                None => self@.receipt_at(*address) is None,
            },
    {
        match self.store.read(address) {
            Some(Record::Receipt(receipt)) => Some(receipt),
            _ => None,
        }
    }

    /// The facts published so far, oldest first.
    pub fn events(&self) -> (events: &Vec<PaymentCompleted>)
        ensures
            events@ == self@.events,
    {
        &self.events
    }

    /// The settlement that waits for its transfers, if one does.
    pub fn staged(&self) -> (staged: &Option<Settlement>)
        ensures
            *staged == self@.staged,
    {
        &self.staged
    }

    /// Creates `record` at `address`, unless the address is occupied.
    pub(crate) fn create(&mut self, address: Address, record: Record) -> (outcome: Result<
        (),
        ErrorCode,
    >)
        requires
            old(self).store_wf(),
        ensures
            final(self).store_wf(),
            match outcome {
                Ok(()) => !old(self)@.records.contains_key(address) && final(self)@ == old(
                    self,
                )@.with_record(address, record),
                Err(error) => error == ErrorCode::Collision && old(self)@.records.contains_key(
                    address,
                ) && final(self)@ == old(self)@,
            },
    {
        self.store.create(address, record)
    }

    /// Puts `staged` in the place of the waiting settlement and hands out
    /// what was there.
    pub(crate) fn restage(&mut self, staged: Option<Settlement>) -> (previous: Option<Settlement>)
        requires
            old(self).store_wf(),
        ensures
            final(self).store_wf(),
            previous == old(self)@.staged,
            final(self)@ == old(self)@.with_staged(staged),
    {
        let mut slot = staged;
        std::mem::swap(&mut slot, &mut self.staged);
        slot
    }

    /// Appends `event` to the published facts.
    pub(crate) fn publish(&mut self, event: PaymentCompleted)
        requires
            old(self).store_wf(),
        ensures
            final(self).store_wf(),
            final(self)@ == old(self)@.with_event(event),
    {
        self.events.push(event);
    }
}

} // verus!
