//! A small association table whose keys occur once each.

use vstd::prelude::*;

use crate::identity::same_bytes16;

verus! {

/// A key that can be compared exactly.
pub trait TableKey: Sized + Copy {
    /// Whether two keys are the same key.
    fn same(&self, other: &Self) -> (r: bool)
        ensures
            r == (*self == *other),
    ;
}

/// A condition on table entries.
pub trait EntryTest<K, T> {
    /// Whether an entry satisfies the condition.
    spec fn holds(&self, key: K, value: T) -> bool;

    /// Whether an entry satisfies the condition.
    fn test(&self, key: &K, value: &T) -> (r: bool)
        ensures
            r == self.holds(*key, *value),
    ;
}

impl TableKey for [u8; 16] {
    fn same(&self, other: &Self) -> (r: bool) {
        same_bytes16(self, other)
    }
}

impl TableKey for u64 {
    fn same(&self, other: &Self) -> (r: bool) {
        *self == *other
    }
}

/// Entries in insertion order, at most one per key.
pub struct Table<K: TableKey, T> {
    pub entries: Vec<(K, T)>,
}

impl<K: TableKey, T> View for Table<K, T> {
    type V = Map<K, T>;

    open spec fn view(&self) -> Map<K, T> {
        entries_map(self.entries@)
    }
}

impl<K: TableKey, T> Table<K, T> {
    /// No key occurs twice.
    pub open spec fn wf(&self) -> bool {
        entries_distinct(self.entries@)
    }

    /// The entry at an index is the one its key maps to.
    pub proof fn lemma_entry(&self, index: int)
        requires
            self.wf(),
            0 <= index < self.entries@.len(),
        ensures
            self@.contains_key(self.entries@[index].0),
            self@[self.entries@[index].0] == self.entries@[index].1,
    {
        lemma_at(self.entries@, index);
    }

    /// An empty table.
    pub fn new() -> (r: Self)
        ensures
            r.wf(),
            r.entries@ == Seq::<(K, T)>::empty(),
            r@ == Map::<K, T>::empty(),
    {
        let r = Table { entries: Vec::new() };
        assert(r@ =~= Map::<K, T>::empty());
        r
    }

    /// How many entries there are.
    pub fn len(&self) -> (r: usize)
        ensures
            r == self.entries@.len(),
    {
        self.entries.len()
    }

    /// Where the entry with this key stands, if there is one.
    pub fn position(&self, key: &K) -> (r: Option<usize>)
        requires
            self.wf(),
        ensures
            match r {
                Some(index) => index < self.entries@.len() && self.entries@[index as int].0 == *key
                    && self@.contains_key(*key) && self@[*key] == self.entries@[index as int].1,
                None => !self@.contains_key(*key),
            },
    {
        let mut index: usize = 0;
        while index < self.entries.len()
            invariant
                self.wf(),
                index <= self.entries@.len(),
                forall|i: int| 0 <= i < index ==> (#[trigger] self.entries@[i]).0 != *key,
            decreases self.entries@.len() - index,
        {
            if self.entries[index].0.same(key) {
                proof {
                    self.lemma_entry(index as int);
                }
                return Some(index);
            }
            index = index + 1;
        }
        None
    }

    /// Whether an entry has this key.
    pub fn contains(&self, key: &K) -> (r: bool)
        requires
            self.wf(),
        ensures
            r == self@.contains_key(*key),
    {
        self.position(key).is_some()
    }

    /// The value of this key.
    pub fn get(&self, key: &K) -> (r: Option<&T>)
        requires
            self.wf(),
        ensures
            match r {
                Some(value) => self@.contains_key(*key) && *value == self@[*key],
                None => !self@.contains_key(*key),
            },
    {
        match self.position(key) {
            Some(index) => Some(&self.entries[index].1),
            None => None,
        }
    }

    /// The value of this key, to be changed in place.
    pub fn get_mut(&mut self, key: &K) -> (r: Option<&mut T>)
        requires
            old(self).wf(),
        ensures
            final(self).wf(),
            match r {
                Some(value) => old(self)@.contains_key(*key) && *value == old(self)@[*key]
                    && final(self)@ == old(self)@.insert(*key, *final(value))
                    && final(self).entries@.len() == old(self).entries@.len(),
                None => !old(self)@.contains_key(*key) && *final(self) == *old(self),
            },
    {
        match self.position(key) {
            Some(index) => {
                let ghost before = *self;
                let value = &mut self.entries[index].1;
                proof {
                    before.lemma_entry(index as int);
                    lemma_update(before.entries@, index as int, *final(value));
                }
                Some(value)
            },
            None => None,
        }
    }

    /// The value of the entry at an index, to be changed in place.
    pub fn value_at(&mut self, index: usize) -> (r: &mut T)
        requires
            old(self).wf(),
            index < old(self).entries@.len(),
        ensures
            final(self).wf(),
            *r == old(self).entries@[index as int].1,
            final(self).entries@ == old(self).entries@.update(
                index as int,
                (old(self).entries@[index as int].0, *final(r)),
            ),
    {
        let ghost before = *self;
        let value = &mut self.entries[index].1;
        proof {
            lemma_update(before.entries@, index as int, *final(value));
        }
        value
    }

    /// Give this key a value, in place of the one it had.
    pub fn insert(&mut self, key: K, value: T) -> (r: Option<T>)
        requires
            old(self).wf(),
        ensures
            final(self).wf(),
            final(self)@ == old(self)@.insert(key, value),
            r == (if old(self)@.contains_key(key) {
                Some(old(self)@[key])
            } else {
                None::<T>
            }),
            final(self).entries@.len() == old(self).entries@.len() + (if old(self)@.contains_key(
                key,
            ) {
                0int
            } else {
                1int
            }),
    {
        match self.position(&key) {
            Some(index) => {
                let ghost before = *self;
                let mut entry = (key, value);
                proof {
                    before.lemma_entry(index as int);
                    lemma_update(before.entries@, index as int, value);
                }
                std::mem::swap(&mut self.entries[index], &mut entry);
                assert(self.entries@ =~= before.entries@.update(index as int, (key, value)));
                Some(entry.1)
            },
            None => {
                let ghost before = *self;
                self.entries.push((key, value));
                proof {
                    lemma_push(before.entries@, key, value);
                }
                None
            },
        }
    }

    /// Take this key out.
    pub fn remove(&mut self, key: &K) -> (r: Option<T>)
        requires
            old(self).wf(),
        ensures
            final(self).wf(),
            final(self)@ == old(self)@.remove(*key),
            r == (if old(self)@.contains_key(*key) {
                Some(old(self)@[*key])
            } else {
                None::<T>
            }),
            final(self).entries@.len() == old(self).entries@.len() - (if old(self)@.contains_key(
                *key,
            ) {
                1int
            } else {
                0int
            }),
    {
        match self.position(key) {
            Some(index) => {
                let ghost before = *self;
                proof {
                    before.lemma_entry(index as int);
                    lemma_remove(before.entries@, index as int);
                }
                let entry = self.entries.remove(index);
                Some(entry.1)
            },
            None => {
                assert(self@ =~= self@.remove(*key));
                None
            },
        }
    }

    /// Take every listed key out.
    pub fn remove_all(&mut self, doomed: &Vec<K>)
        requires
            old(self).wf(),
        ensures
            final(self).wf(),
            final(self)@ == without(old(self)@, doomed@),
    {
        let ghost before = self@;
        let mut index: usize = 0;
        assert(self@ =~= without(before, doomed@.take(0)));
        while index < doomed.len()
            invariant
                self.wf(),
                index <= doomed@.len(),
                self@ == without(before, doomed@.take(index as int)),
            decreases doomed@.len() - index,
        {
            let ghost middle = self@;
            let key = doomed[index];
            self.remove(&key);
            proof {
                let shorter = doomed@.take(index as int);
                let longer = doomed@.take(index + 1);
                assert(longer =~= shorter.push(key));
                assert forall|k: K| longer.contains(k) <==> shorter.contains(k) || k == key by {
                    if shorter.contains(k) {
                        let i = choose|i: int| 0 <= i < shorter.len() && shorter[i] == k;
                        assert(longer[i] == k);
                    }
                    if k == key {
                        assert(longer[index as int] == k);
                    }
                }
                assert(self@ =~= without(before, longer));
            }
            index = index + 1;
        }
        assert(doomed@.take(index as int) =~= doomed@);
    }

    /// Take out every entry that satisfies a condition.
    pub fn remove_where<C: EntryTest<K, T>>(&mut self, condition: &C)
        requires
            old(self).wf(),
        ensures
            final(self).wf(),
            final(self)@ == kept(old(self)@, |key: K, value: T| condition.holds(key, value)),
    {
        let mut doomed: Vec<K> = Vec::new();
        let mut index: usize = 0;
        while index < self.entries.len()
            invariant
                self.wf(),
                index <= self.entries@.len(),
                forall|i: int|
                    0 <= i < doomed@.len() ==> self@.contains_key(#[trigger] doomed@[i])
                        && condition.holds(doomed@[i], self@[doomed@[i]]),
                forall|i: int|
                    0 <= i < index && condition.holds(
                        (#[trigger] self.entries@[i]).0,
                        self.entries@[i].1,
                    ) ==> doomed@.contains(self.entries@[i].0),
            decreases self.entries@.len() - index,
        {
            proof {
                self.lemma_entry(index as int);
            }
            if condition.test(&self.entries[index].0, &self.entries[index].1) {
                let ghost earlier = doomed@;
                let key = self.entries[index].0;
                doomed.push(key);
                proof {
                    assert(doomed@[earlier.len() as int] == key);
                    assert forall|k: K| earlier.contains(k) implies #[trigger] doomed@.contains(k) by {
                        let i = choose|i: int| 0 <= i < earlier.len() && earlier[i] == k;
                        assert(doomed@[i] == k);
                    }
                }
            }
            index = index + 1;
        }
        let ghost before = *self;
        self.remove_all(&doomed);
        proof {
            assert forall|key: K| #[trigger] before@.contains_key(key) implies (doomed@.contains(key)
                <==> condition.holds(key, before@[key])) by {
                let i = choose|i: int|
                    0 <= i < before.entries@.len() && (#[trigger] before.entries@[i]).0 == key;
                before.lemma_entry(i);
            }
            assert(self@ =~= kept(before@, |key: K, value: T| condition.holds(key, value)));
        }
    }
}

/// A map without the entries that satisfy a condition.
pub open spec fn kept<K, T>(map: Map<K, T>, condition: spec_fn(K, T) -> bool) -> Map<K, T> {
    Map::new(|key: K| map.contains_key(key) && !condition(key, map[key]), |key: K| map[key])
}

/// A map without the listed keys.
pub open spec fn without<K, T>(map: Map<K, T>, doomed: Seq<K>) -> Map<K, T> {
    Map::new(|key: K| map.contains_key(key) && !doomed.contains(key), |key: K| map[key])
}

/// The map that a sequence of entries stands for.
pub open spec fn entries_map<K: TableKey, T>(entries: Seq<(K, T)>) -> Map<K, T> {
    Map::new(
        |key: K| exists|i: int| 0 <= i < entries.len() && (#[trigger] entries[i]).0 == key,
        |key: K|
            entries[choose|i: int| 0 <= i < entries.len() && (#[trigger] entries[i]).0 == key].1,
    )
}

/// No key occurs twice among the entries.
pub open spec fn entries_distinct<K: TableKey, T>(entries: Seq<(K, T)>) -> bool {
    forall|i: int, j: int|
        0 <= i < j < entries.len() ==> #[trigger] entries[i].0 != #[trigger] entries[j].0
}

proof fn lemma_at<K: TableKey, T>(entries: Seq<(K, T)>, index: int)
    requires
        entries_distinct(entries),
        0 <= index < entries.len(),
    ensures
        entries_map(entries).contains_key(entries[index].0),
        entries_map(entries)[entries[index].0] == entries[index].1,
{
    let key = entries[index].0;
    let found = choose|i: int| 0 <= i < entries.len() && (#[trigger] entries[i]).0 == key;
    assert(entries[found].0 == key);
}

proof fn lemma_update<K: TableKey, T>(entries: Seq<(K, T)>, index: int, value: T)
    requires
        entries_distinct(entries),
        0 <= index < entries.len(),
    ensures
        ({
            let after = entries.update(index, (entries[index].0, value));
            &&& entries_distinct(after)
            &&& entries_map(after) == entries_map(entries).insert(entries[index].0, value)
        }),
{
    let key = entries[index].0;
    let after = entries.update(index, (key, value));
    assert forall|i: int, j: int| 0 <= i < j < after.len() implies #[trigger] after[i].0
        != #[trigger] after[j].0 by {
        assert(after[i].0 == entries[i].0);
        assert(after[j].0 == entries[j].0);
    }
    let left = entries_map(after);
    let right = entries_map(entries).insert(key, value);
    assert forall|k: K| #![trigger left.dom().contains(k)] #![trigger right.dom().contains(k)]
        left.dom().contains(k) == right.dom().contains(k) && (left.dom().contains(k) ==> left[k]
            == right[k]) by {
        if left.contains_key(k) {
            let i = choose|i: int| 0 <= i < after.len() && (#[trigger] after[i]).0 == k;
            lemma_at(after, i);
            assert(entries[i].0 == k);
            lemma_at(entries, i);
        }
        if right.contains_key(k) {
            if k == key {
                assert(after[index].0 == k);
            } else {
                let i = choose|i: int| 0 <= i < entries.len() && (#[trigger] entries[i]).0 == k;
                assert(after[i].0 == k);
            }
        }
    }
    assert(left.dom() =~= right.dom());
    assert(left =~= right);
}

proof fn lemma_push<K: TableKey, T>(entries: Seq<(K, T)>, key: K, value: T)
    requires
        entries_distinct(entries),
        !entries_map(entries).contains_key(key),
    ensures
        entries_distinct(entries.push((key, value))),
        entries_map(entries.push((key, value))) == entries_map(entries).insert(key, value),
{
    let after = entries.push((key, value));
    assert forall|i: int, j: int| 0 <= i < j < after.len() implies #[trigger] after[i].0
        != #[trigger] after[j].0 by {
        assert(after[i] == entries[i]);
        if j < entries.len() {
            assert(after[j] == entries[j]);
        } else {
            assert(entries[i].0 != key);
        }
    }
    let left = entries_map(after);
    let right = entries_map(entries).insert(key, value);
    assert forall|k: K| #![trigger left.dom().contains(k)] #![trigger right.dom().contains(k)]
        left.dom().contains(k) == right.dom().contains(k) && (left.dom().contains(k) ==> left[k]
            == right[k]) by {
        if left.contains_key(k) {
            let i = choose|i: int| 0 <= i < after.len() && (#[trigger] after[i]).0 == k;
            lemma_at(after, i);
            if i < entries.len() {
                assert(entries[i] == after[i]);
                lemma_at(entries, i);
            }
        }
        if right.contains_key(k) {
            if k == key {
                assert(after[entries.len() as int].0 == k);
            } else {
                let i = choose|i: int| 0 <= i < entries.len() && (#[trigger] entries[i]).0 == k;
                assert(after[i].0 == k);
            }
        }
    }
    assert(left.dom() =~= right.dom());
    assert(left =~= right);
}

proof fn lemma_remove<K: TableKey, T>(entries: Seq<(K, T)>, index: int)
    requires
        entries_distinct(entries),
        0 <= index < entries.len(),
    ensures
        entries_distinct(entries.remove(index)),
        entries_map(entries.remove(index)) == entries_map(entries).remove(entries[index].0),
{
    let key = entries[index].0;
    let after = entries.remove(index);
    assert forall|i: int, j: int| 0 <= i < j < after.len() implies #[trigger] after[i].0
        != #[trigger] after[j].0 by {
        let left = if i < index { i } else { i + 1 };
        let right = if j < index { j } else { j + 1 };
        assert(after[i] == entries[left]);
        assert(after[j] == entries[right]);
    }
    let left = entries_map(after);
    let right = entries_map(entries).remove(key);
    assert forall|k: K| #![trigger left.dom().contains(k)] #![trigger right.dom().contains(k)]
        left.dom().contains(k) == right.dom().contains(k) && (left.dom().contains(k) ==> left[k]
            == right[k]) by {
        if left.contains_key(k) {
            let i = choose|i: int| 0 <= i < after.len() && (#[trigger] after[i]).0 == k;
            let source = if i < index { i } else { i + 1 };
            assert(after[i] == entries[source]);
            lemma_at(after, i);
            lemma_at(entries, source);
        }
        if right.contains_key(k) {
            let i = choose|i: int| 0 <= i < entries.len() && (#[trigger] entries[i]).0 == k;
            let target = if i < index { i } else { i - 1 };
            assert(after[target] == entries[i]);
        }
    }
    assert(left.dom() =~= right.dom());
    assert(left =~= right);
}

/// The keys whose entries satisfy a condition.
pub open spec fn keys_where<K, T>(map: Map<K, T>, condition: spec_fn(K, T) -> bool) -> Set<K> {
    Set::new(|key: K| map.contains_key(key) && condition(key, map[key]))
}

/// How many entries satisfy a condition.
pub open spec fn count_where<K, T>(
    entries: Seq<(K, T)>,
    condition: spec_fn(K, T) -> bool,
) -> nat
    decreases entries.len(),
{
    if entries.len() == 0 {
        0
    } else {
        count_where(entries.drop_last(), condition) + (if condition(
            entries.last().0,
            entries.last().1,
        ) {
            1nat
        } else {
            0nat
        })
    }
}

/// Counting entries counts the keys that satisfy the condition.
pub proof fn lemma_count_where<K: TableKey, T>(
    entries: Seq<(K, T)>,
    condition: spec_fn(K, T) -> bool,
)
    requires
        entries_distinct(entries),
    ensures
        keys_where(entries_map(entries), condition).finite(),
        keys_where(entries_map(entries), condition).len() == count_where(entries, condition),
        count_where(entries, condition) <= entries.len(),
    decreases entries.len(),
{
    let all = keys_where(entries_map(entries), condition);
    if entries.len() == 0 {
        assert(all =~= Set::<K>::empty());
    } else {
        let front = entries.drop_last();
        let (key, value) = entries.last();
        assert forall|i: int, j: int| 0 <= i < j < front.len() implies #[trigger] front[i].0
            != #[trigger] front[j].0 by {
            assert(front[i] == entries[i]);
            assert(front[j] == entries[j]);
        }
        lemma_count_where(front, condition);
        assert(!entries_map(front).contains_key(key)) by {
            if entries_map(front).contains_key(key) {
                let i = choose|i: int| 0 <= i < front.len() && (#[trigger] front[i]).0 == key;
                assert(entries[i].0 == entries[entries.len() - 1].0);
            }
        }
        lemma_push(front, key, value);
        assert(entries =~= front.push((key, value)));
        let rest = keys_where(entries_map(front), condition);
        assert(!rest.contains(key));
        if condition(key, value) {
            assert(all =~= rest.insert(key));
        } else {
            assert(all =~= rest);
        }
    }
}

/// Changing the values one by one changes the map value by value.
pub proof fn lemma_pointwise<K: TableKey, T>(
    before: Seq<(K, T)>,
    after: Seq<(K, T)>,
    change: spec_fn(K, T) -> T,
)
    requires
        entries_distinct(before),
        before.len() == after.len(),
        forall|i: int|
            0 <= i < before.len() ==> #[trigger] after[i] == (
                before[i].0,
                change(before[i].0, before[i].1),
            ),
    ensures
        entries_distinct(after),
        entries_map(after) == changed(entries_map(before), change),
{
    assert forall|i: int, j: int| 0 <= i < j < after.len() implies #[trigger] after[i].0
        != #[trigger] after[j].0 by {
        assert(before[i].0 != before[j].0);
    }
    let left = entries_map(after);
    let right = changed(entries_map(before), change);
    assert forall|k: K| #![trigger left.dom().contains(k)] #![trigger right.dom().contains(k)]
        left.dom().contains(k) == right.dom().contains(k) && (left.dom().contains(k) ==> left[k]
            == right[k]) by {
        if left.dom().contains(k) {
            let i = choose|i: int| 0 <= i < after.len() && (#[trigger] after[i]).0 == k;
            lemma_at(after, i);
            lemma_at(before, i);
        }
        if right.dom().contains(k) {
            let i = choose|i: int| 0 <= i < before.len() && (#[trigger] before[i]).0 == k;
            assert(after[i].0 == k);
        }
    }
    assert(left.dom() =~= right.dom());
    assert(left =~= right);
}

/// A map with every value changed.
pub open spec fn changed<K, T>(map: Map<K, T>, change: spec_fn(K, T) -> T) -> Map<K, T> {
    Map::new(|key: K| map.contains_key(key), |key: K| change(key, map[key]))
}

} // verus!
