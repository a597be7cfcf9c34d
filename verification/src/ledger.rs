//! The redemption ledger: which (user, code key) pairs have redeemed. An
//! insert of a pair already present fails distinctly rather than
//! overwrite — that uniqueness is the backstop against double redemption.

use vstd::prelude::*;

verus! {

/// Why the ledger refused an insert.
#[derive(Clone, Copy, PartialEq, Eq, Structural, Debug)]
pub enum LedgerError {
    DuplicateRedemption,
}

/// The set of (user, code key) pairs that have redeemed.
pub struct Ledger {
    entries: Vec<(u64, String)>,
}

impl View for Ledger {
    type V = Set<(u64, Seq<char>)>;

    closed spec fn view(&self) -> Set<(u64, Seq<char>)> {
        Set::new(
            |p: (u64, Seq<char>)|
                exists|i: int|
                    0 <= i < self.entries@.len() && (#[trigger] self.entries@[i]).0 == p.0
                        && self.entries@[i].1@ == p.1,
        )
    }
}

impl Ledger {
    /// An empty ledger.
    pub fn new() -> (r: Self)
        ensures
            r@ == Set::<(u64, Seq<char>)>::empty(),
    {
        let l = Ledger { entries: Vec::new() };
        proof {
            assert(l@ =~= Set::<(u64, Seq<char>)>::empty());
        }
        l
    }

    /// Whether `user_id` has already redeemed `key`.
    pub fn contains(&self, user_id: u64, key: &String) -> (r: bool)
        ensures
            r == self@.contains((user_id, key@)),
    {
        let n = self.entries.len();
        let mut i: usize = 0;
        while i < n
            invariant
                n == self.entries@.len(),
                0 <= i <= n,
                forall|j: int|
                    0 <= j < i ==> !((#[trigger] self.entries@[j]).0 == user_id
                        && self.entries@[j].1@ == key@),
            decreases n - i,
        {
            if self.entries[i].0 == user_id && self.entries[i].1 == *key {
                proof {
                    assert((self.entries@[i as int]).0 == user_id && self.entries@[i as int].1@
                        == key@);
                }
                return true;
            }
            i += 1;
        }
        false
    }

    /// Records that `user_id` redeemed `key`. A pair already present is
    /// refused, and the ledger does not change.
    pub fn insert(&mut self, user_id: u64, key: String) -> (r: Result<(), LedgerError>)
        ensures
            old(self)@.contains((user_id, key@)) ==> r == Err::<(), LedgerError>(
                LedgerError::DuplicateRedemption,
            ) && final(self)@ == old(self)@,
            !old(self)@.contains((user_id, key@)) ==> r == Ok::<(), LedgerError>(()) && final(self)@ == old(self)@.insert((user_id, key@)),
    {
        if self.contains(user_id, &key) {
            Err(LedgerError::DuplicateRedemption)
        } else {
            let ghost old_entries = self.entries@;
            let ghost pair = (user_id, key);
            self.entries.push((user_id, key));
            proof {
                assert forall|p: (u64, Seq<char>)| self@.contains(p) implies old(self)@.insert((user_id, pair.1@)).contains(p) by {
                    let i = choose|i: int|
                        0 <= i < self.entries@.len() && (#[trigger] self.entries@[i]).0 == p.0
                            && self.entries@[i].1@ == p.1;
                    if i < old_entries.len() {
                        assert((old_entries[i]).0 == p.0 && old_entries[i].1@ == p.1);
                    }
                }
                assert forall|p: (u64, Seq<char>)|
                    old(self)@.insert((user_id, pair.1@)).contains(p) implies self@.contains(p) by {
                    if old(self)@.contains(p) {
                        let i = choose|i: int|
                            0 <= i < old_entries.len() && (#[trigger] old_entries[i]).0 == p.0
                                && old_entries[i].1@ == p.1;
                        assert((self.entries@[i]).0 == p.0 && self.entries@[i].1@ == p.1);
                    } else {
                        let n = old_entries.len() as int;
                        assert((self.entries@[n]).0 == p.0 && self.entries@[n].1@ == p.1);
                    }
                }
                assert(self@ =~= old(self)@.insert((user_id, pair.1@)));
            }
            Ok(())
        }
    }
}

} // verus!
