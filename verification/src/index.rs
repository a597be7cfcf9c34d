//! The code index: the process-local cache from a button identifier to
//! the code record last known under it. Clicks resolve through it without
//! a round trip; the redemption protocol still treats the inventory store
//! as the source of truth.

use crate::models::GiftCode;
use crate::models::GiftCodeResponse;
use crate::store::KvStore;
use vstd::prelude::*;

verus! {

/// The mapping a full scan seeds: each record keyed by its button
/// identifier, a later record winning a repeated identifier.
pub open spec fn index_of(records: Seq<GiftCodeResponse>) -> Map<Seq<char>, GiftCodeResponse>
    decreases records.len(),
{
    if records.len() == 0 {
        Map::empty()
    } else {
        index_of(records.drop_last()).insert(
            records.last().value.button_id@,
            records.last(),
        )
    }
}

/// The cached snapshot with its remaining quantity replaced.
pub open spec fn refreshed(resp: GiftCodeResponse, amount: u32) -> GiftCodeResponse {
    GiftCodeResponse { value: GiftCode { amount, ..resp.value }, ..resp }
}

/// The button-identifier index. One writer path (administration and
/// redemptions) and many readers share it; the caller serializes access.
pub struct CodeIndex {
    entries: KvStore<GiftCodeResponse>,
}

impl View for CodeIndex {
    type V = Map<Seq<char>, GiftCodeResponse>;

    closed spec fn view(&self) -> Map<Seq<char>, GiftCodeResponse> {
        self.entries@
    }
}

impl CodeIndex {
    /// An empty index.
    pub fn new() -> (r: Self)
        ensures
            r@ == Map::<Seq<char>, GiftCodeResponse>::empty(),
    {
        CodeIndex { entries: KvStore::new() }
    }

    /// Replaces the whole mapping with a full set of records, as the
    /// startup scan hands them over.
    pub fn load(&mut self, records: Vec<GiftCodeResponse>)
        ensures
            final(self)@ == index_of(records@),
    {
        let ghost orig = records@;
        let mut rest = records;
        self.entries = KvStore::new();
        let ghost done: int = 0;
        while rest.len() > 0
            invariant
                0 <= done <= orig.len(),
                rest@ == orig.skip(done),
                self.entries@ == index_of(orig.take(done)),
            decreases rest@.len(),
        {
            let rec = rest.remove(0);
            proof {
                assert(rec == orig[done]);
                assert(orig.take(done + 1).drop_last() =~= orig.take(done));
                assert(orig.take(done + 1).last() == orig[done]);
            }
            let key = rec.value.button_id.clone();
            self.entries.insert(key, rec);
            proof {
                done = done + 1;
                assert(rest@ =~= orig.skip(done));
            }
        }
        proof {
            assert(orig.take(done) =~= orig);
        }
    }

    /// Inserts or overwrites the entry under a record's button
    /// identifier.
    pub fn upsert(&mut self, record: GiftCodeResponse)
        ensures
            final(self)@ == old(self)@.insert(record.value.button_id@, record),
    {
        let key = record.value.button_id.clone();
        self.entries.insert(key, record);
    }

    /// The record cached under a button identifier; nothing when the
    /// identifier is unknown, and the click is then dropped.
    pub fn lookup(&self, button_id: &String) -> (r: Option<&GiftCodeResponse>)
        ensures
            match r {
                Some(resp) => self@.dom().contains(button_id@) && *resp == self@[button_id@],
                None => !self@.dom().contains(button_id@),
            },
    {
        self.entries.get(button_id)
    }

    /// Refreshes the cached remaining quantity after a redemption,
    /// best-effort: an identifier no longer cached is left alone.
    pub fn refresh_amount(&mut self, button_id: &String, amount: u32)
        ensures
            old(self)@.dom().contains(button_id@) ==> final(self)@ == old(self)@.insert(
                button_id@,
                refreshed(old(self)@[button_id@], amount),
            ),
            !old(self)@.dom().contains(button_id@) ==> final(self)@ == old(self)@,
    {
        match self.entries.remove(button_id) {
            Some(pair) => {
                let (key, mut resp) = pair;
                resp.value.amount = amount;
                self.entries.insert(key, resp);
                proof {
                    assert(self.entries@ =~= old(self)@.insert(
                        button_id@,
                        refreshed(old(self)@[button_id@], amount),
                    ));
                }
            },
            None => {
            },
        }
    }
}

/// Law: looking a button identifier up right after upserting a record
/// under it finds exactly that record.
pub proof fn lemma_upsert_then_lookup(
    m: Map<Seq<char>, GiftCodeResponse>,
    record: GiftCodeResponse,
)
    ensures
        m.insert(record.value.button_id@, record).dom().contains(record.value.button_id@),
        m.insert(record.value.button_id@, record)[record.value.button_id@] == record,
{
}

/// Law: after a load, every identifier in the loaded set is found, and
/// maps to the record at its last occurrence.
pub proof fn lemma_load_then_lookup(records: Seq<GiftCodeResponse>, i: int)
    requires
        0 <= i < records.len(),
        forall|j: int|
            i < j < records.len() ==> (#[trigger] records[j]).value.button_id@
                != records[i].value.button_id@,
    ensures
        index_of(records).dom().contains(records[i].value.button_id@),
        index_of(records)[records[i].value.button_id@] == records[i],
    decreases records.len(),
{
    if i == records.len() - 1 {
    } else {
        lemma_load_then_lookup(records.drop_last(), i);
        assert(records.drop_last()[i] == records[i]);
        assert(records.last().value.button_id@ != records[i].value.button_id@);
    }
}

} // verus!
