//! Where the ledger keeps its records: an interface, and an implementation in memory.

use vstd::prelude::*;

use crate::model::{lookup, Records};
use crate::record::{same_key, slot_of, OperationKey, OperationRecord, Slot};
use crate::table::{Table, TableKey};

verus! {

/// A keyed store of operation records. The ledger reaches its records only through
/// this interface, so the backing store is the caller's choice.
pub trait RecordStore {
    /// The records in the store, by slot.
    spec fn records(&self) -> Records;

    /// How many times the store has been written to: every `set` and every `remove`
    /// counts once, whether or not it changed a record.
    spec fn writes(&self) -> nat;

    /// The record on file for `key` under `scope`.
    fn get(&self, scope: &str, key: &OperationKey) -> (found: Option<OperationRecord>)
        ensures
            found == lookup(self.records(), slot_of(scope, key)),
    ;

    /// Whether a record is on file for `key` under `scope`.
    fn has(&self, scope: &str, key: &OperationKey) -> (present: bool)
        ensures
            present == self.records().contains_key(slot_of(scope, key)),
    ;

    /// Files `record` for `key` under `scope`, in place of any record there.
    fn set(&mut self, scope: &str, key: &OperationKey, record: OperationRecord)
        ensures
            final(self).records() == old(self).records().insert(slot_of(scope, key), record),
            final(self).writes() == old(self).writes() + 1,
    ;

    /// Takes the record for `key` under `scope` off file, if there is one.
    fn remove(&mut self, scope: &str, key: &OperationKey)
        ensures
            final(self).records() == old(self).records().remove(slot_of(scope, key)),
            final(self).writes() == old(self).writes() + 1,
    ;
}

/// The name under which a record is kept: a scope tag and a key.
pub struct SlotKey {
    pub scope: String,
    pub key: OperationKey,
}

impl View for SlotKey {
    type V = Slot;

    open spec fn view(&self) -> Slot {
        (self.scope@, self.key@)
    }
}

impl TableKey for SlotKey {
    fn same_as(&self, other: &Self) -> (same: bool) {
        self.scope == other.scope && same_key(&self.key, &other.key)
    }
}

impl SlotKey {
    /// The name of the slot of `key` under `scope`.
    pub fn new(scope: &str, key: &OperationKey) -> (name: SlotKey)
        ensures
            name@ == slot_of(scope, key),
    {
        SlotKey { scope: scope.to_owned(), key: *key }
    }
}

/// A record store in memory.
pub struct MemoryStore {
    slots: Table<SlotKey, OperationRecord>,
    written: Ghost<nat>,
}

impl MemoryStore {
    /// A store with no records, never written to.
    pub fn new() -> (store: Self)
        ensures
            store.records() == Map::<Slot, OperationRecord>::empty(),
            store.writes() == 0,
    {
        MemoryStore { slots: Table::new(), written: Ghost(0) }
    }
}

impl RecordStore for MemoryStore {
    closed spec fn records(&self) -> Records {
        self.slots@
    }

    closed spec fn writes(&self) -> nat {
        self.written@
    }

    fn get(&self, scope: &str, key: &OperationKey) -> (found: Option<OperationRecord>) {
        match self.slots.get(&SlotKey::new(scope, key)) {
            Some(record) => Some(*record),
            None => None,
        }
    }

    fn has(&self, scope: &str, key: &OperationKey) -> (present: bool) {
        self.slots.contains(&SlotKey::new(scope, key))
    }

    fn set(&mut self, scope: &str, key: &OperationKey, record: OperationRecord) {
        self.slots.insert(SlotKey::new(scope, key), record);
        self.written = Ghost(self.written@ + 1);
    }

    fn remove(&mut self, scope: &str, key: &OperationKey) {
        self.slots.remove(&SlotKey::new(scope, key));
        self.written = Ghost(self.written@ + 1);
    }
}

} // verus!
