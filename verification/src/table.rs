//! A keyed table: the shape of every group of ledger entries.

use vstd::prelude::*;

use crate::address::Address;

verus! {

/// What is found under a key, if anything.
pub open spec fn lookup<K, V>(m: Map<K, V>, key: K) -> Option<V> {
    if m.contains_key(key) {
        Some(m[key])
    } else {
        None
    }
}

/// The view of what an optional value holds.
pub open spec fn viewed<V: View>(value: Option<V>) -> Option<V::V> {
    match value {
        Some(v) => Some(v@),
        None => None,
    }
}

/// Keys that compare as the values they are.
pub trait TableKey: Copy {
    fn same_key(&self, other: &Self) -> (same: bool)
        ensures
            same == (*self == *other),
    ;
}

impl TableKey for u32 {
    fn same_key(&self, other: &Self) -> (same: bool) {
        *self == *other
    }
}

impl TableKey for u64 {
    fn same_key(&self, other: &Self) -> (same: bool) {
        *self == *other
    }
}

impl TableKey for Address {
    fn same_key(&self, other: &Self) -> (same: bool) {
        *self == *other
    }
}

/// Values that can be copied out of a table.
pub trait Record: View + Sized {
    fn duplicate(&self) -> (copy: Self)
        ensures
            copy@ == self@,
    ;
}

impl Record for u64 {
    fn duplicate(&self) -> (copy: Self) {
        *self
    }
}

impl Record for i128 {
    fn duplicate(&self) -> (copy: Self) {
        *self
    }
}

impl Record for Vec<u8> {
    fn duplicate(&self) -> (copy: Self) {
        let copy = self.clone();
        assert(copy@ == self@);
        copy
    }
}

impl Record for Vec<u32> {
    fn duplicate(&self) -> (copy: Self) {
        let copy = self.clone();
        assert(copy@ == self@);
        copy
    }
}

impl Record for Vec<u64> {
    fn duplicate(&self) -> (copy: Self) {
        let copy = self.clone();
        assert(copy@ == self@);
        copy
    }
}

/// A map from keys to records.
#[derive(Debug)]
pub struct Table<K, V> {
    entries: Vec<(K, V)>,
}

/// The map that a list of entries denotes: of entries with one key the last
/// counts.
pub closed spec fn map_of<K, V: View>(entries: Seq<(K, V)>) -> Map<K, V::V>
    decreases entries.len(),
{
    if entries.len() == 0 {
        Map::empty()
    } else {
        map_of(entries.drop_last()).insert(entries.last().0, entries.last().1@)
    }
}

impl<K, V: View> View for Table<K, V> {
    type V = Map<K, V::V>;

    closed spec fn view(&self) -> Map<K, V::V> {
        map_of(self.entries@)
    }
}

/// The last entry with a key gives the key's value.
proof fn lemma_last_counts<K, V: View>(entries: Seq<(K, V)>, i: int)
    requires
        0 <= i < entries.len(),
        forall|j: int| i < j < entries.len() ==> entries[j].0 != entries[i].0,
    ensures
        map_of(entries).contains_key(entries[i].0),
        map_of(entries)[entries[i].0] == entries[i].1@,
    decreases entries.len(),
{
    if i < entries.len() - 1 {
        lemma_last_counts(entries.drop_last(), i);
    }
}

/// A key of no entry is not in the map.
proof fn lemma_absent<K, V: View>(entries: Seq<(K, V)>, key: K)
    requires
        forall|j: int| 0 <= j < entries.len() ==> entries[j].0 != key,
    ensures
        !map_of(entries).contains_key(key),
    decreases entries.len(),
{
    if entries.len() > 0 {
        lemma_absent(entries.drop_last(), key);
    }
}

/// Replacing the value of a key's last entry replaces the value of the key.
proof fn lemma_replaced<K, V: View>(entries: Seq<(K, V)>, i: int, value: V)
    requires
        0 <= i < entries.len(),
        forall|j: int| i < j < entries.len() ==> entries[j].0 != entries[i].0,
    ensures
        map_of(entries.update(i, (entries[i].0, value))) == map_of(entries).insert(
            entries[i].0,
            value@,
        ),
    decreases entries.len(),
{
    let key = entries[i].0;
    let updated = entries.update(i, (key, value));
    if i < entries.len() - 1 {
        lemma_replaced(entries.drop_last(), i, value);
        assert(updated.drop_last() == entries.drop_last().update(i, (key, value)));
    } else {
        assert(updated.drop_last() == entries.drop_last());
    }
    assert(map_of(updated) =~= map_of(entries).insert(key, value@));
}

/// Dropping an entry changes at most its own key.
proof fn lemma_dropped<K, V: View>(entries: Seq<(K, V)>, i: int)
    requires
        0 <= i < entries.len(),
    ensures
        map_of(entries.remove(i)).remove(entries[i].0) == map_of(entries).remove(entries[i].0),
    decreases entries.len(),
{
    let key = entries[i].0;
    if i < entries.len() - 1 {
        lemma_dropped(entries.drop_last(), i);
        assert(entries.remove(i).drop_last() == entries.drop_last().remove(i));
        assert(entries.remove(i).last() == entries.last());
        let inner = map_of(entries.drop_last());
        let without = map_of(entries.drop_last().remove(i));
        let (last_key, last_value) = (entries.last().0, entries.last().1@);
        assert(map_of(entries) == inner.insert(last_key, last_value));
        assert(map_of(entries.remove(i)) == without.insert(last_key, last_value));
        lemma_insert_apart(inner, without, key, last_key, last_value);
    } else {
        assert(entries.remove(i) == entries.drop_last());
        assert(map_of(entries.remove(i)).remove(key) =~= map_of(entries).remove(key));
    }
}

/// Maps that agree but for `key` still do after one insertion into both.
proof fn lemma_insert_apart<K, V>(a: Map<K, V>, b: Map<K, V>, key: K, other: K, value: V)
    requires
        a.remove(key) == b.remove(key),
    ensures
        a.insert(other, value).remove(key) == b.insert(other, value).remove(key),
{
    let left = a.insert(other, value).remove(key);
    let right = b.insert(other, value).remove(key);
    assert forall|k: K| left.contains_key(k) == #[trigger] right.contains_key(k) by {
        assert(a.remove(key).dom().contains(k) == (a.dom().contains(k) && k != key));
        assert(b.remove(key).dom().contains(k) == (b.dom().contains(k) && k != key));
        assert(left.dom().contains(k) == (a.insert(other, value).dom().contains(k) && k != key));
        assert(right.dom().contains(k) == (b.insert(other, value).dom().contains(k) && k != key));
    }
    assert forall|k: K| left.contains_key(k) implies left[k] == #[trigger] right[k] by {
        if k != other {
            assert(a.remove(key)[k] == b.remove(key)[k]);
            assert(left[k] == a[k]);
            assert(a.remove(key)[k] == a[k]);
            assert(right.contains_key(k));
            assert(b.remove(key)[k] == b[k]);
            assert(right[k] == b[k]);
        }
    }
    assert(left =~= right);
}

impl<K: TableKey, V: Record> Table<K, V> {
    /// A table without entries.
    pub fn new() -> (table: Self)
        ensures
            table@ == Map::<K, V::V>::empty(),
    {
        let table = Table { entries: Vec::new() };
        assert(table@ =~= Map::<K, V::V>::empty());
        table
    }

    /// Where the entry that counts for `key` stands.
    fn position(&self, key: K) -> (found: Option<usize>)
        ensures
            match found {
                Some(i) => {
                    &&& i < self.entries@.len()
                    &&& self.entries@[i as int].0 == key
                    &&& forall|j: int| i < j < self.entries@.len() ==> self.entries@[j].0 != key
                },
                None => forall|j: int| 0 <= j < self.entries@.len() ==> self.entries@[j].0 != key,
            },
    {
        let mut i: usize = self.entries.len();
        while i > 0
            invariant
                i <= self.entries@.len(),
                forall|j: int| i <= j < self.entries@.len() ==> self.entries@[j].0 != key,
            decreases i,
        {
            i = i - 1;
            if self.entries[i].0.same_key(&key) {
                return Some(i);
            }
        }
        None
    }

    /// A copy of what stands under `key`.
    pub fn get(&self, key: K) -> (value: Option<V>)
        ensures
            viewed(value) == lookup(self@, key),
    {
        match self.position(key) {
            Some(i) => {
                proof {
                    lemma_last_counts(self.entries@, i as int);
                }
                Some(self.entries[i].1.duplicate())
            },
            None => {
                proof {
                    lemma_absent(self.entries@, key);
                }
                None
            },
        }
    }

    /// Puts `value` under `key`, in place of what stood there.
    pub fn set(&mut self, key: K, value: V)
        ensures
            final(self)@ == old(self)@.insert(key, value@),
    {
        match self.position(key) {
            Some(i) => {
                proof {
                    lemma_replaced(self.entries@, i as int, value);
                }
                self.entries.set(i, (key, value));
            },
            None => {
                let ghost before = self.entries@;
                self.entries.push((key, value));
                assert(self.entries@.drop_last() == before);
            },
        }
    }

    /// Takes away what stands under `key`.
    pub fn remove(&mut self, key: K)
        ensures
            final(self)@ == old(self)@.remove(key),
    {
        let mut found = self.position(key);
        loop
            invariant
                self@.remove(key) == old(self)@.remove(key),
                match found {
                    Some(i) => i < self.entries@.len() && self.entries@[i as int].0 == key,
                    None => forall|j: int|
                        0 <= j < self.entries@.len() ==> self.entries@[j].0 != key,
                },
            ensures
                final(self)@ == old(self)@.remove(key),
            decreases self.entries@.len(),
        {
            match found {
                Some(i) => {
                    proof {
                        lemma_dropped(self.entries@, i as int);
                    }
                    self.entries.remove(i);
                },
                None => {
                    proof {
                        lemma_absent(self.entries@, key);
                        assert(self@ =~= self@.remove(key));
                    }
                    return ;
                },
            }
            found = self.position(key);
        }
    }
}

} // verus!
