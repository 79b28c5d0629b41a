//! The storage that the registry lives in: for every address a slot with a
//! balance and data. A slot that was never written is empty.

use crate::address::Address;
use vstd::prelude::*;

verus! {

/// What storage holds at an address.
#[derive(Clone, Debug, PartialEq, Eq)]
pub struct Slot {
    /// The balance that keeps the slot's data stored.
    pub lamports: u64,
    pub data: Vec<u8>,
}

pub struct SlotView {
    pub lamports: u64,
    pub data: Seq<u8>,
}

impl View for Slot {
    type V = SlotView;

    open spec fn view(&self) -> SlotView {
        SlotView { lamports: self.lamports, data: self.data@ }
    }
}

impl SlotView {
    /// The slot that holds nothing.
    pub open spec fn empty() -> SlotView {
        SlotView { lamports: 0, data: Seq::empty() }
    }

    /// A slot is empty when it holds neither data nor a balance.
    pub open spec fn is_empty(self) -> bool {
        self.lamports == 0 && self.data.len() == 0
    }
}

impl Slot {
    pub fn empty() -> (slot: Slot)
        ensures
            slot@ == SlotView::empty(),
    {
        Slot { lamports: 0, data: Vec::new() }
    }

    pub fn is_empty(&self) -> (empty: bool)
        ensures
            empty == self@.is_empty(),
    {
        self.lamports == 0 && self.data.len() == 0
    }
}

struct Entry {
    address: Address,
    slot: Slot,
}

/// The slot that a list of entries gives an address: that of the last entry
/// for it.
spec fn lookup(entries: Seq<Entry>, address: Seq<u8>) -> SlotView
    decreases entries.len(),
{
    if entries.len() == 0 {
        SlotView::empty()
    } else if entries.last().address@ == address {
        entries.last().slot@
    } else {
        lookup(entries.drop_last(), address)
    }
}

proof fn lemma_lookup_push(entries: Seq<Entry>, entry: Entry, address: Seq<u8>)
    ensures
        lookup(entries.push(entry), address) == if entry.address@ == address {
            entry.slot@
        } else {
            lookup(entries, address)
        },
{
    assert(entries.push(entry).drop_last() =~= entries);
}

/// Replacing the last entry of an address changes the slot of that address
/// and of no other.
proof fn lemma_lookup_update(entries: Seq<Entry>, i: int, entry: Entry, address: Seq<u8>)
    requires
        0 <= i < entries.len(),
        entries[i].address@ == entry.address@,
        forall|j: int| i < j < entries.len() ==> entries[j].address@ != entry.address@,
    ensures
        lookup(entries.update(i, entry), address) == if entry.address@ == address {
            entry.slot@
        } else {
            lookup(entries, address)
        },
    decreases entries.len(),
{
    let updated = entries.update(i, entry);
    if i == entries.len() - 1 {
        assert(updated.drop_last() =~= entries.drop_last());
    } else {
        assert(updated.drop_last() =~= entries.drop_last().update(i, entry));
        lemma_lookup_update(entries.drop_last(), i, entry, address);
    }
}

/// Storage by address. Its view gives every address its slot; the slots that
/// nothing was written to are empty.
pub struct Storage {
    entries: Vec<Entry>,
}

impl View for Storage {
    type V = Map<Seq<u8>, SlotView>;

    closed spec fn view(&self) -> Map<Seq<u8>, SlotView> {
        Map::total(|address: Seq<u8>| lookup(self.entries@, address))
    }
}

impl Storage {
    /// Storage in which every slot is empty.
    pub fn new() -> (storage: Storage)
        ensures
            storage@ == Map::total(|address: Seq<u8>| SlotView::empty()),
    {
        let storage = Storage { entries: Vec::new() };
        assert(storage@ =~= Map::total(|address: Seq<u8>| SlotView::empty()));
        storage
    }

    /// The place of the last entry for `address`, if there is one.
    fn find(&self, address: &Address) -> (found: Option<usize>)
        ensures
            match found {
                Some(i) => {
                    &&& i < self.entries.len()
                    &&& self.entries[i as int].address@ == address@
                    &&& forall|j: int|
                        i < j < self.entries.len() ==> self.entries[j].address@ != address@
                    &&& lookup(self.entries@, address@) == self.entries[i as int].slot@
                },
                None => lookup(self.entries@, address@) == SlotView::empty(),
            },
    {
        let mut i: usize = self.entries.len();
        assert(self.entries@.take(i as int) =~= self.entries@);
        while i > 0
            invariant
                i <= self.entries.len(),
                forall|j: int| i <= j < self.entries.len() ==> self.entries[j].address@ != address@,
                lookup(self.entries@, address@) == lookup(
                    self.entries@.take(i as int),
                    address@,
                ),
            decreases i,
        {
            i -= 1;
            proof {
                let longer = self.entries@.take(i + 1);
                assert(longer.last() == self.entries@[i as int]);
                assert(longer.drop_last() =~= self.entries@.take(i as int));
            }
            if self.entries[i].address.same_as(address) {
                return Some(i);
            }
        }
        None
    }

    /// What storage holds at `address`.
    pub fn read(&self, address: &Address) -> (slot: Slot)
        ensures
            slot@ == self@[address@],
    {
        match self.find(address) {
            Some(i) => {
                let held = &self.entries[i].slot;
                let data = held.data.clone();
                assert(data@ =~= held.data@);
                Slot { lamports: held.lamports, data }
            },
            None => Slot::empty(),
        }
    }

    /// Puts `slot` at `address`. Every other address keeps its slot.
    pub fn write(&mut self, address: &Address, slot: Slot)
        ensures
            final(self)@ == old(self)@.insert(address@, slot@),
    {
        let entry = Entry { address: *address, slot };
        let ghost added = entry;
        let found = self.find(address);
        match found {
            Some(i) => {
                self.entries.set(i, entry);
            },
            None => {
                self.entries.push(entry);
            },
        }
        proof {
            assert forall|other: Seq<u8>| #[trigger]
                self@[other] == old(self)@.insert(address@, added.slot@)[other] by {
                match found {
                    Some(i) => lemma_lookup_update(old(self).entries@, i as int, added, other),
                    None => lemma_lookup_push(old(self).entries@, added, other),
                }
            }
        }
        assert(self@ =~= old(self)@.insert(address@, slot@));
    }
}

} // verus!
