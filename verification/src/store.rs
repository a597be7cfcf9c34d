//! A small key/value store over string keys, read in specifications as a
//! finite map from key characters to values. The redemption path holds at
//! most a couple of dozen codes (administration caps creation at twenty),
//! so a linear scan serves; what matters here is that every operation is
//! stated and proved against the map view.

use vstd::prelude::*;

verus! {

/// The map a sequence of pairs denotes; a later pair wins, though the
/// store never keeps two pairs with one key.
pub open spec fn pairs_map<V>(pairs: Seq<(String, V)>) -> Map<Seq<char>, V>
    decreases pairs.len(),
{
    if pairs.len() == 0 {
        Map::empty()
    } else {
        pairs_map(pairs.drop_last()).insert(pairs.last().0@, pairs.last().1)
    }
}

/// No two pairs share a key.
pub open spec fn distinct_keys<V>(pairs: Seq<(String, V)>) -> bool {
    forall|i: int, j: int| 0 <= i < j < pairs.len() ==> pairs[i].0@ != pairs[j].0@
}

/// A vector of key/value pairs with pairwise-distinct keys.
pub struct KvStore<V> {
    pairs: Vec<(String, V)>,
}

impl<V> View for KvStore<V> {
    type V = Map<Seq<char>, V>;

    closed spec fn view(&self) -> Map<Seq<char>, V> {
        pairs_map(self.pairs@)
    }
}

/// A key is in the denoted map exactly when some pair carries it.
proof fn lemma_pairs_map_dom<V>(pairs: Seq<(String, V)>, k: Seq<char>)
    ensures
        pairs_map(pairs).dom().contains(k) <==> (exists|i: int|
            0 <= i < pairs.len() && #[trigger] pairs[i].0@ == k),
    decreases pairs.len(),
{
    if pairs.len() > 0 {
        lemma_pairs_map_dom(pairs.drop_last(), k);
        if pairs.last().0@ == k {
            assert(pairs[pairs.len() - 1].0@ == k);
        } else {
            if pairs_map(pairs).dom().contains(k) {
                let i = choose|i: int|
                    0 <= i < pairs.len() - 1 && #[trigger] pairs.drop_last()[i].0@ == k;
                assert(pairs[i].0@ == k);
            }
            if exists|i: int| 0 <= i < pairs.len() && #[trigger] pairs[i].0@ == k {
                let i = choose|i: int| 0 <= i < pairs.len() && #[trigger] pairs[i].0@ == k;
                assert(pairs.drop_last()[i].0@ == k);
            }
        }
    }
}

/// With distinct keys, the pair at `i` is the map's binding for its key.
proof fn lemma_pairs_map_index<V>(pairs: Seq<(String, V)>, i: int)
    requires
        distinct_keys(pairs),
        0 <= i < pairs.len(),
    ensures
        pairs_map(pairs).dom().contains(pairs[i].0@),
        pairs_map(pairs)[pairs[i].0@] == pairs[i].1,
    decreases pairs.len(),
{
    if i == pairs.len() - 1 {
    } else {
        lemma_pairs_map_index(pairs.drop_last(), i);
        assert(pairs.drop_last()[i] == pairs[i]);
        assert(pairs[i].0@ != pairs.last().0@);
    }
}

/// Updating the pair at `i` without changing its key updates the map at
/// that key alone.
proof fn lemma_pairs_map_update<V>(pairs: Seq<(String, V)>, i: int, p: (String, V))
    requires
        distinct_keys(pairs),
        0 <= i < pairs.len(),
        p.0@ == pairs[i].0@,
    ensures
        pairs_map(pairs.update(i, p)) == pairs_map(pairs).insert(p.0@, p.1),
    decreases pairs.len(),
{
    let updated = pairs.update(i, p);
    if i == pairs.len() - 1 {
        assert(updated.drop_last() =~= pairs.drop_last());
        assert(pairs_map(updated) =~= pairs_map(pairs).insert(p.0@, p.1));
    } else {
        lemma_pairs_map_update(pairs.drop_last(), i, p);
        assert(updated.drop_last() =~= pairs.drop_last().update(i, p));
        assert(updated.last() == pairs.last());
        assert(pairs[i].0@ != pairs.last().0@);
        assert(pairs_map(updated) =~= pairs_map(pairs).insert(p.0@, p.1)) by {
            assert(pairs_map(updated) == pairs_map(pairs.drop_last()).insert(
                p.0@,
                p.1,
            ).insert(pairs.last().0@, pairs.last().1));
        }
    }
}

/// Removing the pair at `i` removes its key from the map.
proof fn lemma_pairs_map_remove<V>(pairs: Seq<(String, V)>, i: int)
    requires
        distinct_keys(pairs),
        0 <= i < pairs.len(),
    ensures
        pairs_map(pairs.remove(i)) == pairs_map(pairs).remove(pairs[i].0@),
    decreases pairs.len(),
{
    let shorter = pairs.remove(i);
    if i == pairs.len() - 1 {
        assert(shorter =~= pairs.drop_last());
        assert(!pairs_map(pairs.drop_last()).dom().contains(pairs.last().0@)) by {
            lemma_pairs_map_dom(pairs.drop_last(), pairs.last().0@);
        }
        assert(pairs_map(shorter) =~= pairs_map(pairs).remove(pairs[i].0@));
    } else {
        lemma_pairs_map_remove(pairs.drop_last(), i);
        assert(shorter.drop_last() =~= pairs.drop_last().remove(i));
        assert(shorter.last() == pairs.last());
        assert(pairs[i].0@ != pairs.last().0@);
        assert(pairs.drop_last()[i] == pairs[i]);
        assert(pairs_map(shorter) =~= pairs_map(pairs).remove(pairs[i].0@)) by {
            assert(pairs_map(shorter) == pairs_map(pairs.drop_last()).remove(
                pairs[i].0@,
            ).insert(pairs.last().0@, pairs.last().1));
        }
    }
}

/// With distinct keys there are as many bindings as pairs.
proof fn lemma_pairs_map_len<V>(pairs: Seq<(String, V)>)
    requires
        distinct_keys(pairs),
    ensures
        pairs_map(pairs).dom().finite(),
        pairs_map(pairs).dom().len() == pairs.len(),
    decreases pairs.len(),
{
    if pairs.len() > 0 {
        lemma_pairs_map_len(pairs.drop_last());
        lemma_pairs_map_dom(pairs.drop_last(), pairs.last().0@);
    }
}

impl<V> KvStore<V> {
    #[verifier::type_invariant]
    spec fn wf(&self) -> bool {
        distinct_keys(self.pairs@)
    }

    /// An empty store.
    pub fn new() -> (r: Self)
        ensures
            r@ == Map::<Seq<char>, V>::empty(),
    {
        KvStore { pairs: Vec::new() }
    }

    /// How many keys the store holds.
    pub fn len(&self) -> (r: usize)
        ensures
            r == self@.dom().len(),
    {
        proof {
            use_type_invariant(self);
            lemma_pairs_map_len(self.pairs@);
        }
        self.pairs.len()
    }

    /// The position of `key` among the pairs, if it is there.
    fn position(&self, key: &String) -> (r: Option<usize>)
        ensures
            match r {
                Some(i) => i < self.pairs@.len() && self.pairs@[i as int].0@ == key@,
                None => !self@.dom().contains(key@),
            },
    {
        proof {
            use_type_invariant(self);
        }
        let n = self.pairs.len();
        let mut i: usize = 0;
        while i < n
            invariant
                n == self.pairs@.len(),
                0 <= i <= n,
                forall|j: int| 0 <= j < i ==> self.pairs@[j].0@ != key@,
            decreases n - i,
        {
            if self.pairs[i].0 == *key {
                return Some(i);
            }
            i += 1;
        }
        proof {
            lemma_pairs_map_dom(self.pairs@, key@);
        }
        None
    }

    /// The value stored under `key`, if any.
    pub fn get(&self, key: &String) -> (r: Option<&V>)
        ensures
            match r {
                Some(v) => self@.dom().contains(key@) && *v == self@[key@],
                None => !self@.dom().contains(key@),
            },
    {
        proof {
            use_type_invariant(self);
        }
        match self.position(key) {
            Some(i) => {
                proof {
                    lemma_pairs_map_index(self.pairs@, i as int);
                }
                Some(&self.pairs[i].1)
            },
            None => None,
        }
    }

    /// Binds `key` to `value`, replacing any earlier binding.
    pub fn insert(&mut self, key: String, value: V)
        ensures
            final(self)@ == old(self)@.insert(key@, value),
    {
        proof {
            use_type_invariant(&*self);
        }
        let ghost old_pairs = self.pairs@;
        let pos = self.position(&key);
        let mut pairs: Vec<(String, V)> = Vec::new();
        core::mem::swap(&mut self.pairs, &mut pairs);
        let ghost pair = (key, value);
        match pos {
            Some(i) => {
                let _ = pairs.remove(i);
                pairs.insert(i, (key, value));
                proof {
                    assert(pairs@ =~= old_pairs.update(i as int, pair));
                    lemma_pairs_map_update(old_pairs, i as int, pair);
                }
            },
            None => {
                pairs.push((key, value));
                proof {
                    lemma_pairs_map_dom(old_pairs, pair.0@);
                    assert(old_pairs.push(pair).drop_last() =~= old_pairs);
                }
            },
        }
        core::mem::swap(&mut self.pairs, &mut pairs);
    }

    /// Unbinds `key`, handing back the stored pair if it was there.
    pub fn remove(&mut self, key: &String) -> (r: Option<(String, V)>)
        ensures
            final(self)@ == old(self)@.remove(key@),
            match r {
                Some(p) => old(self)@.dom().contains(key@) && p.0@ == key@ && p.1 == old(
                    self,
                )@[key@],
                None => !old(self)@.dom().contains(key@),
            },
    {
        proof {
            use_type_invariant(&*self);
        }
        let ghost old_pairs = self.pairs@;
        let pos = self.position(key);
        match pos {
            Some(i) => {
                let mut pairs: Vec<(String, V)> = Vec::new();
                core::mem::swap(&mut self.pairs, &mut pairs);
                proof {
                    lemma_pairs_map_index(old_pairs, i as int);
                    lemma_pairs_map_remove(old_pairs, i as int);
                }
                let p = pairs.remove(i);
                core::mem::swap(&mut self.pairs, &mut pairs);
                Some(p)
            },
            None => {
                proof {
                    assert(self@ =~= old(self)@.remove(key@));
                }
                None
            },
        }
    }

    /// The pairs themselves, for a full scan; the denoted map binds
    /// exactly these keys to these values.
    pub fn entries(&self) -> (r: &Vec<(String, V)>)
        ensures
            r@.len() == self@.dom().len(),
            forall|i: int|
                0 <= i < r@.len() ==> self@.dom().contains(#[trigger] r@[i].0@) && self@[r@[i].0@]
                    == r@[i].1,
            forall|i: int, j: int| 0 <= i < j < r@.len() ==> r@[i].0@ != r@[j].0@,
            forall|k: Seq<char>|
                self@.dom().contains(k) ==> exists|i: int|
                    0 <= i < r@.len() && #[trigger] r@[i].0@ == k,
    {
        proof {
            use_type_invariant(self);
            lemma_pairs_map_len(self.pairs@);
            assert forall|i: int| 0 <= i < self.pairs@.len() implies self@.dom().contains(
                #[trigger] self.pairs@[i].0@,
            ) && self@[self.pairs@[i].0@] == self.pairs@[i].1 by {
                lemma_pairs_map_index(self.pairs@, i);
            }
            assert forall|k: Seq<char>| self@.dom().contains(k) implies exists|i: int|
                0 <= i < self.pairs@.len() && #[trigger] self.pairs@[i].0@ == k by {
                lemma_pairs_map_dom(self.pairs@, k);
            }
        }
        &self.pairs
    }
}

} // verus!
