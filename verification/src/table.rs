//! A small associative table: what the in-memory stores are made of. Keys
//! are compared by their views, and no key occurs twice.

use vstd::prelude::*;

verus! {

/// A key of a table: a value that can be compared with another by view.
pub trait Key: View + Sized {
    /// Whether two keys stand for the same thing.
    fn same(&self, other: &Self) -> (same: bool)
        ensures
            same == (self@ == other@),
    ;
}

impl Key for String {
    fn same(&self, other: &Self) -> (same: bool) {
        *self == *other
    }
}

/// The map that a list of keys and a list of values stand for, a later
/// entry overriding an earlier one.
pub open spec fn assoc<I, V>(keys: Seq<I>, values: Seq<V>) -> Map<I, V>
    decreases keys.len(),
{
    if keys.len() == 0 || values.len() != keys.len() {
        Map::empty()
    } else {
        assoc(keys.drop_last(), values.drop_last()).insert(keys.last(), values.last())
    }
}

/// Whether no key occurs twice.
pub open spec fn distinct<I>(keys: Seq<I>) -> bool {
    forall|i: int, j: int| 0 <= i < j < keys.len() ==> keys[i] != keys[j]
}

/// With distinct keys, the map holds exactly the listed keys, each with the
/// value at its position.
pub proof fn lemma_assoc<I, V>(keys: Seq<I>, values: Seq<V>)
    requires
        keys.len() == values.len(),
        distinct(keys),
    ensures
        forall|k: I| #[trigger] assoc(keys, values).contains_key(k) <==> keys.contains(k),
        forall|i: int| 0 <= i < keys.len() ==> assoc(keys, values)[#[trigger] keys[i]] == values[i],
    decreases keys.len(),
{
    if keys.len() > 0 {
        let front = keys.drop_last();
        let front_values = values.drop_last();
        assert(distinct(front)) by {
            assert forall|i: int, j: int| 0 <= i < j < front.len() implies front[i] != front[j] by {
                assert(front[i] == keys[i] && front[j] == keys[j]);
            }
        }
        lemma_assoc(front, front_values);
        assert(front.len() == keys.len() - 1);
        assert(front_values.len() == front.len());
        assert(assoc(keys, values) == assoc(front, front_values).insert(
            keys.last(),
            values.last(),
        ));
        assert forall|k: I| #[trigger] assoc(keys, values).contains_key(k) <==> keys.contains(
            k,
        ) by {
            assert(assoc(front, front_values).contains_key(k) <==> front.contains(k));
            if keys.contains(k) {
                let i = choose|i: int| 0 <= i < keys.len() && keys[i] == k;
                if i < front.len() {
                    assert(front[i] == k);
                    assert(front.contains(k));
                }
            }
            if front.contains(k) {
                let i = choose|i: int| 0 <= i < front.len() && front[i] == k;
                assert(keys[i] == k);
            }
            if k == keys.last() {
                assert(keys[keys.len() - 1] == k);
            }
        }
        assert forall|i: int| 0 <= i < keys.len() implies assoc(keys, values)[#[trigger] keys[i]]
            == values[i] by {
            if i < front.len() {
                assert(front[i] == keys[i]);
                assert(keys[i] != keys[keys.len() - 1]);
                assert(front_values[i] == values[i]);
            }
        }
    }
}

/// The views of a list of keys.
pub open spec fn ids<K: View>(keys: Seq<K>) -> Seq<K::V> {
    Seq::new(keys.len(), |i: int| keys[i]@)
}

/// An associative table with keys of type `K`.
pub struct Table<K: Key, V> {
    keys: Vec<K>,
    values: Vec<V>,
}

impl<K: Key, V> Table<K, V> {
    /// The table's invariant: one value per key, no key twice.
    pub closed spec fn wf(&self) -> bool {
        &&& self.keys@.len() == self.values@.len()
        &&& distinct(ids(self.keys@))
    }

    /// The map the table stands for.
    pub closed spec fn map(&self) -> Map<K::V, V> {
        assoc(ids(self.keys@), self.values@)
    }

    /// An empty table.
    pub fn new() -> (table: Self)
        ensures
            table.wf(),
            table.map() == Map::<K::V, V>::empty(),
    {
        let table = Table { keys: Vec::new(), values: Vec::new() };
        assert(ids(table.keys@) =~= Seq::empty());
        table
    }

    /// The position of `key`, if the table holds it.
    fn position(&self, key: &K) -> (at: Option<usize>)
        requires
            self.wf(),
        ensures
            match at {
                Some(i) => i < self.keys@.len() && self.keys@[i as int]@ == key@,
                None => !ids(self.keys@).contains(key@),
            },
    {
        let mut i: usize = 0;
        while i < self.keys.len()
            invariant
                0 <= i <= self.keys@.len(),
                forall|k: int| 0 <= k < i ==> self.keys@[k]@ != key@,
            decreases self.keys@.len() - i,
        {
            if self.keys[i].same(key) {
                return Some(i);
            }
            i += 1;
        }
        assert(!ids(self.keys@).contains(key@)) by {
            if ids(self.keys@).contains(key@) {
                let k = choose|k: int| 0 <= k < ids(self.keys@).len() && ids(self.keys@)[k] == key@;
                assert(self.keys@[k]@ == key@);
            }
        }
        None
    }

    /// The value stored under `key`.
    pub fn get(&self, key: &K) -> (value: Option<&V>)
        requires
            self.wf(),
        ensures
            match value {
                Some(v) => self.map().contains_key(key@) && *v == self.map()[key@],
                None => !self.map().contains_key(key@),
            },
    {
        proof {
            lemma_assoc(ids(self.keys@), self.values@);
        }
        match self.position(key) {
            Some(i) => {
                assert(ids(self.keys@)[i as int] == key@);
                assert(ids(self.keys@).contains(key@));
                Some(&self.values[i])
            },
            None => None,
        }
    }

    /// Whether the table holds `key`.
    pub fn contains(&self, key: &K) -> (found: bool)
        requires
            self.wf(),
        ensures
            found == self.map().contains_key(key@),
    {
        self.get(key).is_some()
    }

    /// Removes the entry at position `at`.
    fn remove_at(&mut self, at: usize) -> (value: V)
        requires
            old(self).wf(),
            at < old(self).keys@.len(),
        ensures
            final(self).wf(),
            final(self).map() == old(self).map().remove(old(self).keys@[at as int]@),
            old(self).map().contains_key(old(self).keys@[at as int]@),
            value == old(self).map()[old(self).keys@[at as int]@],
            value == old(self).values@[at as int],
            final(self).keys@ == old(self).keys@.remove(at as int),
            final(self).values@ == old(self).values@.remove(at as int),
    {
        let ghost old_ids = ids(self.keys@);
        let ghost old_values = self.values@;
        let ghost gone = old_ids[at as int];
        proof {
            lemma_assoc(old_ids, old_values);
            assert(old_ids.contains(gone));
        }
        self.keys.remove(at);
        let value = self.values.remove(at);
        proof {
            let i = at as int;
            let new_ids = ids(self.keys@);
            assert(new_ids =~= old_ids.remove(i));
            assert(distinct(new_ids)) by {
                assert forall|a: int, b: int| 0 <= a < b < new_ids.len() implies new_ids[a]
                    != new_ids[b] by {
                    let a0 = if a < i { a } else { a + 1 };
                    let b0 = if b < i { b } else { b + 1 };
                    assert(new_ids[a] == old_ids[a0] && new_ids[b] == old_ids[b0]);
                }
            }
            lemma_assoc(new_ids, self.values@);
            assert forall|k: K::V| #[trigger] new_ids.contains(k) <==> (old_ids.contains(k) && k
                != gone) by {
                if new_ids.contains(k) {
                    let a = choose|a: int| 0 <= a < new_ids.len() && new_ids[a] == k;
                    let a0 = if a < i { a } else { a + 1 };
                    assert(old_ids[a0] == k);
                }
                if old_ids.contains(k) && k != gone {
                    let a0 = choose|a: int| 0 <= a < old_ids.len() && old_ids[a] == k;
                    let a = if a0 < i { a0 } else { a0 - 1 };
                    assert(new_ids[a] == k);
                }
            }
            assert forall|k: K::V| #[trigger] new_ids.contains(k) implies assoc(
                new_ids,
                self.values@,
            )[k] == assoc(old_ids, old_values)[k] by {
                let a = choose|a: int| 0 <= a < new_ids.len() && new_ids[a] == k;
                let a0 = if a < i { a } else { a + 1 };
                assert(old_ids[a0] == k);
                assert(self.values@[a] == old_values[a0]);
            }
            assert(self.map() =~= old(self).map().remove(gone));
        }
        value
    }

    /// Removes `key` and returns what was stored under it.
    pub fn take(&mut self, key: &K) -> (value: Option<V>)
        requires
            old(self).wf(),
        ensures
            final(self).wf(),
            final(self).map() == old(self).map().remove(key@),
            value == old(self).map().get(key@),
    {
        proof {
            lemma_assoc(ids(self.keys@), self.values@);
        }
        match self.position(key) {
            Some(i) => Some(self.remove_at(i)),
            None => {
                assert(self.map() =~= old(self).map().remove(key@));
                None
            },
        }
    }

    /// Stores `value` under `key`, in place of what was there.
    pub fn put(&mut self, key: K, value: V)
        requires
            old(self).wf(),
        ensures
            final(self).wf(),
            final(self).map() == old(self).map().insert(key@, value),
    {
        let _ = self.take(&key);
        assert(!self.map().contains_key(key@));
        let ghost mid_ids = ids(self.keys@);
        let ghost mid_values = self.values@;
        let ghost mid = self.map();
        proof {
            lemma_assoc(mid_ids, mid_values);
            assert(!assoc(mid_ids, mid_values).contains_key(key@));
            assert(!mid_ids.contains(key@));
        }
        self.keys.push(key);
        self.values.push(value);
        proof {
            let new_ids = ids(self.keys@);
            assert(new_ids.drop_last() =~= mid_ids);
            assert(self.values@.drop_last() =~= mid_values);
            assert(new_ids.last() == key@);
            assert(distinct(new_ids)) by {
                assert forall|a: int, b: int| 0 <= a < b < new_ids.len() implies new_ids[a]
                    != new_ids[b] by {
                    assert(new_ids[a] == mid_ids[a]);
                    if b < mid_ids.len() {
                        assert(new_ids[b] == mid_ids[b]);
                    } else {
                        assert(mid_ids.contains(mid_ids[a]));
                    }
                }
            }
            assert(self.map() == mid.insert(key@, value));
            assert(mid.insert(key@, value) =~= old(self).map().insert(key@, value));
        }
    }
}

/// The entries of `map` whose value is `bound` or more.
pub open spec fn at_least<I>(map: Map<I, i64>, bound: i64) -> Map<I, i64> {
    Map::new(|k: I| map.contains_key(k) && map[k] >= bound, |k: I| map[k])
}

impl<K: Key> Table<K, i64> {
    /// Removes every entry whose value lies below `bound`, and no other.
    pub fn purge_below(&mut self, bound: i64)
        requires
            old(self).wf(),
        ensures
            final(self).wf(),
            final(self).map() == at_least(old(self).map(), bound),
            final(self).map().submap_of(old(self).map()),
            forall|k: K::V| #[trigger]
                old(self).map().contains_key(k) && old(self).map()[k] >= bound
                    ==> final(self).map().contains_key(k),
            forall|k: K::V| #[trigger]
                final(self).map().contains_key(k) ==> final(self).map()[k] >= bound,
    {
        let mut i: usize = 0;
        while i < self.keys.len()
            invariant
                self.wf(),
                0 <= i <= self.keys@.len(),
                self.map().submap_of(old(self).map()),
                forall|k: K::V| #[trigger]
                    old(self).map().contains_key(k) && old(self).map()[k] >= bound
                        ==> self.map().contains_key(k),
                forall|j: int| 0 <= j < i ==> self.values@[j] >= bound,
            decreases self.keys@.len() - i,
        {
            if self.values[i] < bound {
                let ghost before = self.map();
                let ghost gone = self.keys@[i as int]@;
                let _ = self.remove_at(i);
                proof {
                    assert(self.map() == before.remove(gone));
                    assert(before[gone] < bound);
                }
            } else {
                i += 1;
            }
        }
        proof {
            lemma_assoc(ids(self.keys@), self.values@);
            assert forall|k: K::V| #[trigger] self.map().contains_key(k) implies self.map()[k]
                >= bound by {
                assert(ids(self.keys@).contains(k));
                let a = choose|a: int| 0 <= a < ids(self.keys@).len() && ids(self.keys@)[a] == k;
                assert(ids(self.keys@)[a] == self.keys@[a]@);
                assert(assoc(ids(self.keys@), self.values@)[ids(self.keys@)[a]]
                    == self.values@[a]);
            }
            let kept = at_least(old(self).map(), bound);
            assert forall|k: K::V| self.map().contains_key(k) <==> kept.contains_key(k) by {
                if self.map().contains_key(k) {
                    assert(self.map().dom().contains(k));
                    assert(old(self).map().dom().contains(k));
                    assert(self.map()[k] == old(self).map()[k]);
                    assert(self.map()[k] >= bound);
                }
            }
            assert forall|k: K::V| self.map().contains_key(k) implies self.map()[k] == kept[k] by {
                assert(self.map().dom().contains(k));
                assert(kept.contains_key(k));
                assert(old(self).map().dom().contains(k));
                assert(self.map()[k] == old(self).map()[k]);
            }
            assert(self.map() =~= kept);
        }
    }
}

} // verus!
