//! A small keyed table in memory, for the state that a contract keeps per key.

use vstd::prelude::*;

use crate::address::Address;

verus! {

/// A key that can be compared while the program runs. Two keys are the same key where
/// their views are equal.
pub trait TableKey: View + Sized {
    /// Whether `self` and `other` are the same key.
    fn same_as(&self, other: &Self) -> (same: bool)
        ensures
            same == (self@ == other@),
    ;
}

impl TableKey for u64 {
    fn same_as(&self, other: &Self) -> (same: bool) {
        *self == *other
    }
}

impl TableKey for Address {
    fn same_as(&self, other: &Self) -> (same: bool) {
        Address::same_as(self, other)
    }
}

/// The map that a sequence of pairs stands for: a later pair overrides an earlier one
/// with the same key.
spec fn pairs_to_map<K: View, V>(pairs: Seq<(K, V)>) -> Map<K::V, V>
    decreases pairs.len(),
{
    if pairs.len() == 0 {
        Map::empty()
    } else {
        pairs_to_map(pairs.drop_last()).insert(pairs.last().0@, pairs.last().1)
    }
}

/// Taking out one pair with key `key` changes nothing but the entry for `key`.
proof fn lemma_remove_pair<K: View, V>(pairs: Seq<(K, V)>, at: int, key: K::V)
    requires
        0 <= at < pairs.len(),
        pairs[at].0@ == key,
    ensures
        pairs_to_map(pairs.remove(at)).remove(key) == pairs_to_map(pairs).remove(key),
    decreases pairs.len(),
{
    let shorter = pairs.remove(at);
    let whole = pairs_to_map(pairs);
    let front = pairs_to_map(pairs.drop_last());
    assert(whole == front.insert(pairs.last().0@, pairs.last().1));
    if at == pairs.len() - 1 {
        assert(shorter == pairs.drop_last());
        assert(whole.remove(key) =~= front.remove(key));
    } else {
        lemma_remove_pair(pairs.drop_last(), at, key);
        assert(shorter.len() == pairs.len() - 1);
        assert(shorter.drop_last() == pairs.drop_last().remove(at));
        assert(shorter.last() == pairs.last());
        let shorter_front = pairs_to_map(shorter.drop_last());
        assert(pairs_to_map(shorter) == shorter_front.insert(pairs.last().0@, pairs.last().1));
        assert(shorter_front.remove(key) == front.remove(key));
        assert(shorter_front.insert(pairs.last().0@, pairs.last().1).remove(key)
            =~= shorter_front.remove(key).insert(pairs.last().0@, pairs.last().1).remove(key));
        assert(front.insert(pairs.last().0@, pairs.last().1).remove(key) =~= front.remove(
            key,
        ).insert(pairs.last().0@, pairs.last().1).remove(key));
    }
}

/// A key that no pair carries is not in the map.
proof fn lemma_absent_key<K: View, V>(pairs: Seq<(K, V)>, key: K::V)
    requires
        forall|j: int| 0 <= j < pairs.len() ==> pairs[j].0@ != key,
    ensures
        !pairs_to_map(pairs).contains_key(key),
    decreases pairs.len(),
{
    if pairs.len() > 0 {
        lemma_absent_key(pairs.drop_last(), key);
    }
}

/// A table from keys to values.
pub struct Table<K: TableKey, V> {
    pairs: Vec<(K, V)>,
}

impl<K: TableKey, V> View for Table<K, V> {
    type V = Map<K::V, V>;

    closed spec fn view(&self) -> Map<K::V, V> {
        pairs_to_map(self.pairs@)
    }
}

impl<K: TableKey, V> Table<K, V> {
    /// A table with no entries.
    pub fn new() -> (table: Self)
        ensures
            table@ == Map::<K::V, V>::empty(),
    {
        Table { pairs: Vec::new() }
    }

    /// The value on file for `key`.
    pub fn get(&self, key: &K) -> (found: Option<&V>)
        ensures
            found == (if self@.contains_key(key@) {
                Some(&self@[key@])
            } else {
                None
            }),
    {
        let mut at: Option<usize> = None;
        let mut i: usize = 0;
        while i < self.pairs.len()
            invariant
                i <= self.pairs@.len(),
                match at {
                    Some(j) => j < i && pairs_to_map(self.pairs@.take(i as int)).contains_key(key@)
                        && pairs_to_map(self.pairs@.take(i as int))[key@] == self.pairs@[j as int].1,
                    None => !pairs_to_map(self.pairs@.take(i as int)).contains_key(key@),
                },
            decreases self.pairs@.len() - i,
        {
            proof {
                assert(self.pairs@.take(i + 1).drop_last() == self.pairs@.take(i as int));
            }
            if self.pairs[i].0.same_as(key) {
                at = Some(i);
            }
            i += 1;
        }
        proof {
            assert(self.pairs@.take(i as int) == self.pairs@);
        }
        match at {
            Some(j) => Some(&self.pairs[j].1),
            None => None,
        }
    }

    /// Whether a value is on file for `key`.
    pub fn contains(&self, key: &K) -> (present: bool)
        ensures
            present == self@.contains_key(key@),
    {
        self.get(key).is_some()
    }

    /// Files `value` under `key`, in place of any value there.
    pub fn insert(&mut self, key: K, value: V)
        ensures
            final(self)@ == old(self)@.insert(key@, value),
    {
        self.remove(&key);
        proof {
            assert(self.pairs@.push((key, value)).drop_last() == self.pairs@);
        }
        self.pairs.push((key, value));
    }

    /// Takes the value for `key` off file, if there is one.
    pub fn remove(&mut self, key: &K)
        ensures
            final(self)@ == old(self)@.remove(key@),
    {
        let mut i: usize = 0;
        while i < self.pairs.len()
            invariant
                i <= self.pairs@.len(),
                forall|j: int| 0 <= j < i ==> self.pairs@[j].0@ != key@,
                pairs_to_map(self.pairs@).remove(key@) == pairs_to_map(old(self).pairs@).remove(
                    key@,
                ),
            decreases self.pairs@.len() - i,
        {
            if self.pairs[i].0.same_as(key) {
                proof {
                    lemma_remove_pair(self.pairs@, i as int, key@);
                }
                self.pairs.remove(i);
            } else {
                i += 1;
            }
        }
        proof {
            lemma_absent_key(self.pairs@, key@);
            assert(pairs_to_map(self.pairs@).remove(key@) =~= pairs_to_map(self.pairs@));
        }
    }
}

} // verus!
