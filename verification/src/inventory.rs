//! An in-memory model of the inventory store: the authoritative map from
//! code key to record, with the operations the store offers — get, full
//! scan, save with overwrite semantics, delete, count — and the one-step
//! decrement the redemption protocol performs on it.

use crate::models::GiftCode;
use crate::store::KvStore;
use vstd::prelude::*;

verus! {

/// The record with one unit of quantity taken.
pub open spec fn decremented(g: GiftCode) -> GiftCode {
    GiftCode { amount: (g.amount - 1) as u32, ..g }
}

/// The inventory: code key to record.
pub struct InventoryModel {
    codes: KvStore<GiftCode>,
}

impl View for InventoryModel {
    type V = Map<Seq<char>, GiftCode>;

    closed spec fn view(&self) -> Map<Seq<char>, GiftCode> {
        self.codes@
    }
}

impl InventoryModel {
    /// An empty inventory.
    pub fn new() -> (r: Self)
        ensures
            r@ == Map::<Seq<char>, GiftCode>::empty(),
    {
        InventoryModel { codes: KvStore::new() }
    }

    /// The record under a code key, live.
    pub fn get(&self, key: &String) -> (r: Option<&GiftCode>)
        ensures
            match r {
                Some(rec) => self@.dom().contains(key@) && *rec == self@[key@],
                None => !self@.dom().contains(key@),
            },
    {
        self.codes.get(key)
    }

    /// Stores a record under a code key, overwriting in full.
    pub fn save(&mut self, key: String, record: GiftCode)
        ensures
            final(self)@ == old(self)@.insert(key@, record),
    {
        self.codes.insert(key, record);
    }

    /// Removes the record under a code key, if any.
    pub fn delete(&mut self, key: &String)
        ensures
            final(self)@ == old(self)@.remove(key@),
    {
        let _ = self.codes.remove(key);
    }

    /// How many codes the inventory holds.
    pub fn count(&self) -> (r: usize)
        ensures
            r == self@.dom().len(),
    {
        self.codes.len()
    }

    /// The stored pairs, for a full scan.
    pub fn entries(&self) -> (r: &Vec<(String, GiftCode)>)
        ensures
            r@.len() == self@.dom().len(),
            forall|i: int|
                0 <= i < r@.len() ==> self@.dom().contains(#[trigger] r@[i].0@) && self@[r@[i].0@]
                    == r@[i].1,
            forall|i: int, j: int| 0 <= i < j < r@.len() ==> r@[i].0@ != r@[j].0@,
            forall|k: Seq<char>|
                self@.dom().contains(k) ==> exists|i: int|
                    0 <= i < r@.len() && #[trigger] r@[i].0@ == k,
    {
        self.codes.entries()
    }

    /// Takes one unit of quantity off the record under `key`; the rest of
    /// the record stays as it was.
    pub fn decrement(&mut self, key: &String)
        requires
            old(self)@.dom().contains(key@),
            old(self)@[key@].amount > 0,
        ensures
            final(self)@ == old(self)@.insert(key@, decremented(old(self)@[key@])),
    {
        match self.codes.remove(key) {
            Some(pair) => {
                let (stored_key, mut rec) = pair;
                rec.amount = rec.amount - 1;
                self.codes.insert(stored_key, rec);
                proof {
                    assert(self.codes@ =~= old(self)@.insert(key@, decremented(old(self)@[key@])));
                }
            },
            None => {
                proof {
                    assert(false);
                }
            },
        }
    }
}

} // verus!
