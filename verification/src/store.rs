//! The record store: a map from addresses to records in which a record,
//! once created, stays as it is.

use crate::accounts::Record;
use crate::address::Address;
use crate::errors::ErrorCode;
use vstd::prelude::*;

verus! {

/// One occupied address.
struct Entry {
    address: Address,
    record: Record,
}

/// The records of a ledger, each under its address.
pub struct RecordStore {
    entries: Vec<Entry>,
}

/// Whether `i` is the place of `address` among `entries`.
spec fn holds_at(entries: Seq<Entry>, address: Address, i: int) -> bool {
    0 <= i < entries.len() && entries[i].address == address
}

impl View for RecordStore {
    type V = Map<Address, Record>;

    closed spec fn view(&self) -> Map<Address, Record> {
        Map::new(
            |address: Address| exists|i: int| holds_at(self.entries@, address, i),
            |address: Address| self.entries@[choose|i: int| holds_at(self.entries@, address, i)].record,
        )
    }
}

impl RecordStore {
    /// No address occurs twice.
    pub closed spec fn wf(&self) -> bool {
        forall|i: int, j: int|
            0 <= i < j < self.entries@.len() ==> self.entries@[i].address
                != self.entries@[j].address
    }

    /// The store without records.
    pub fn new() -> (store: RecordStore)
        ensures
            store.wf(),
            store@ == Map::<Address, Record>::empty(),
    {
        let store = RecordStore { entries: Vec::new() };
        proof {
            assert(store@ =~= Map::<Address, Record>::empty());
        }
        store
    }

    /// The place of `address` among the entries, if it is occupied.
    fn position(&self, address: &Address) -> (found: Option<usize>)
        ensures
            match found {
                Some(i) => holds_at(self.entries@, *address, i as int),
                None => forall|i: int| !holds_at(self.entries@, *address, i),
            },
    {
        let mut i: usize = 0;
        while i < self.entries.len()
            invariant
                i <= self.entries@.len(),
                forall|j: int| 0 <= j < i ==> !holds_at(self.entries@, *address, j),
            decreases self.entries@.len() - i,
        {
            if self.entries[i].address == *address {
                return Some(i);
            }
            i = i + 1;
        }
        None
    }

    /// The record at `address`, if the address is occupied.
    pub fn read(&self, address: &Address) -> (found: Option<&Record>)
        requires
            self.wf(),
        ensures
            match found {
                Some(record) => self@.contains_key(*address) && *record == self@[*address],
                None => !self@.contains_key(*address),
            },
    {
        match self.position(address) {
            Some(i) => {
                proof {
                    let k = choose|k: int| holds_at(self.entries@, *address, k);
                    assert(holds_at(self.entries@, *address, i as int));
                    assert(k == i);
                }
                Some(&self.entries[i].record)
            },
            None => None,
        }
    }

    /// Whether `address` is occupied.
    pub fn contains(&self, address: &Address) -> (occupied: bool)
        ensures
            occupied == self@.contains_key(*address),
    {
        match self.position(address) {
            Some(i) => {
                proof {
                    assert(holds_at(self.entries@, *address, i as int));
                }
                true
            },
            None => false,
        }
    }

    /// Creates `record` at `address`, unless the address is occupied.
    pub fn create(&mut self, address: Address, record: Record) -> (outcome: Result<(), ErrorCode>)
        requires
            old(self).wf(),
        ensures
            final(self).wf(),
            match outcome {
                Ok(()) => !old(self)@.contains_key(address) && final(self)@ == old(self)@.insert(
                    address,
                    record,
                ),
                Err(error) => error == ErrorCode::Collision && old(self)@.contains_key(address)
                    && final(self)@ == old(self)@,
            },
    {
        if self.contains(&address) {
            return Err(ErrorCode::Collision);
        }
        let ghost before = self.entries@;
        self.entries.push(Entry { address, record });
        proof {
            let after = self.entries@;
            assert(forall|i: int| !holds_at(before, address, i));
            assert(forall|a: Address, i: int| holds_at(before, a, i) ==> holds_at(after, a, i));
            assert forall|i: int, j: int| 0 <= i < j < after.len() implies after[i].address
                != after[j].address by {
                if j == before.len() {
                    assert(!holds_at(before, address, i));
                }
            }
            assert(holds_at(after, address, before.len() as int));
            assert forall|a: Address| #[trigger]
                final(self)@.contains_key(a) == old(self)@.insert(address, record).contains_key(
                    a,
                ) by {
                if exists|i: int| holds_at(after, a, i) {
                    let i = choose|i: int| holds_at(after, a, i);
                    if i < before.len() {
                        assert(holds_at(before, a, i));
                    }
                }
            }
            assert forall|a: Address| #[trigger]
                final(self)@.contains_key(a) implies final(self)@[a] == old(self)@.insert(
                address,
                record,
            )[a] by {
                let i = choose|i: int| holds_at(after, a, i);
                if a == address {
                    assert(!holds_at(before, address, i));
                } else {
                    assert(holds_at(before, a, i));
                    let k = choose|k: int| holds_at(before, a, k);
                    assert(holds_at(after, a, k));
                    assert(k == i);
                }
            }
            assert(final(self)@ =~= old(self)@.insert(address, record));
        }
        Ok(())
    }
}

} // verus!
