//! A small keyed table: rows in insertion order, each key at most once.
//!
//! Its model is the sequence of its rows. The spec functions of this file
//! say what the operations do to such a sequence.

use vstd::prelude::*;

verus! {

/// The rows of a table as a model: key and value, in table order.
pub type Rows<T> = Seq<(Seq<char>, T)>;

/// No key stands in two rows.
pub open spec fn distinct_keys<T>(rows: Rows<T>) -> bool {
    forall|i: int, j: int| 0 <= i < j < rows.len() ==> rows[i].0 != rows[j].0
}

/// Some row has `key`.
pub open spec fn has_key<T>(rows: Rows<T>, key: Seq<char>) -> bool {
    exists|i: int| 0 <= i < rows.len() && #[trigger] rows[i].0 == key
}

/// The place of a row with `key`, where there is one.
pub open spec fn position<T>(rows: Rows<T>, key: Seq<char>) -> int {
    choose|i: int| 0 <= i < rows.len() && #[trigger] rows[i].0 == key
}

/// The value stored under `key`.
pub open spec fn lookup<T>(rows: Rows<T>, key: Seq<char>) -> Option<T> {
    if has_key(rows, key) {
        Some(rows[position(rows, key)].1)
    } else {
        None
    }
}

/// `rows` with `value` under `key`: the row is replaced where it stands, or
/// a new row is added at the end.
pub open spec fn put<T>(rows: Rows<T>, key: Seq<char>, value: T) -> Rows<T> {
    if has_key(rows, key) {
        rows.update(position(rows, key), (key, value))
    } else {
        rows.push((key, value))
    }
}

/// `rows` without the row of `key`.
pub open spec fn delete<T>(rows: Rows<T>, key: Seq<char>) -> Rows<T> {
    if has_key(rows, key) {
        rows.remove(position(rows, key))
    } else {
        rows
    }
}

/// The values of the rows, in table order.
pub open spec fn values_of<T>(rows: Rows<T>) -> Seq<T> {
    Seq::new(rows.len(), |i: int| rows[i].1)
}

/// In a table with distinct keys, a row's place is the place of its key.
pub proof fn lemma_position_unique<T>(rows: Rows<T>, i: int)
    requires
        distinct_keys(rows),
        0 <= i < rows.len(),
    ensures
        has_key(rows, rows[i].0),
        position(rows, rows[i].0) == i,
        lookup(rows, rows[i].0) == Some(rows[i].1),
{
    let key = rows[i].0;
    assert(rows[i].0 == key);
    let p = position(rows, key);
    assert(0 <= p < rows.len() && rows[p].0 == key);
    if p < i {
        assert(rows[p].0 != rows[i].0);
    } else if i < p {
        assert(rows[i].0 != rows[p].0);
    }
}

/// A key that the rows lack is still missing after rows are filtered out.
pub proof fn lemma_filter_has_no_new_key<T>(
    rows: Rows<T>,
    keep: spec_fn((Seq<char>, T)) -> bool,
    key: Seq<char>,
)
    requires
        !has_key(rows, key),
    ensures
        !has_key(rows.filter(keep), key),
{
    let kept = rows.filter(keep);
    if has_key(kept, key) {
        let i = choose|i: int| 0 <= i < kept.len() && #[trigger] kept[i].0 == key;
        assert(kept.contains(kept[i]));
        rows.lemma_filter_contains_rev(keep, kept[i]);
        let j = choose|j: int| 0 <= j < rows.len() && rows[j] == kept[i];
        assert(rows[j].0 == key);
    }
}

/// Storing a value keeps the keys distinct, makes the value the one found
/// under its key, and leaves every other key as it was.
pub proof fn lemma_put<T>(rows: Rows<T>, key: Seq<char>, value: T)
    requires
        distinct_keys(rows),
    ensures
        distinct_keys(put(rows, key, value)),
        lookup(put(rows, key, value), key) == Some(value),
        forall|other: Seq<char>|
            other != key ==> #[trigger] lookup(put(rows, key, value), other) == lookup(
                rows,
                other,
            ),
{
    let after = put(rows, key, value);
    let at = if has_key(rows, key) {
        position(rows, key)
    } else {
        rows.len() as int
    };
    assert(after.len() > at >= 0 && after[at] == (key, value));
    assert(forall|i: int| 0 <= i < rows.len() && i != at ==> after[i] == rows[i]);
    assert(forall|i: int| 0 <= i < after.len() && i != at ==> after[i].0 != key) by {
        if has_key(rows, key) {
            lemma_position_unique(rows, at);
        }
    }
    assert(distinct_keys(after));
    lemma_position_unique(after, at);
    assert forall|other: Seq<char>| other != key implies #[trigger] lookup(after, other)
        == lookup(rows, other) by {
        if has_key(rows, other) {
            let i = position(rows, other);
            lemma_position_unique(rows, i);
            assert(after[i] == rows[i]);
            lemma_position_unique(after, i);
        } else if has_key(after, other) {
            let i = position(after, other);
            assert(after[i].0 == other);
            assert(i != at);
            assert(rows[i].0 == other);
        }
    }
}

/// Storing under a key the value that is already there changes nothing.
pub proof fn lemma_put_same<T>(rows: Rows<T>, key: Seq<char>, value: T)
    requires
        distinct_keys(rows),
        lookup(rows, key) == Some(value),
    ensures
        put(rows, key, value) == rows,
{
    let at = position(rows, key);
    assert(rows[at].0 == key);
    assert(put(rows, key, value) =~= rows);
}

/// Of two values stored under one key, one after the other, the second is
/// the one that stays, where the first one stood.
pub proof fn lemma_put_twice<T>(rows: Rows<T>, key: Seq<char>, first: T, second: T)
    requires
        distinct_keys(rows),
    ensures
        put(put(rows, key, first), key, second) == put(rows, key, second),
{
    let once = put(rows, key, first);
    let at = if has_key(rows, key) {
        position(rows, key)
    } else {
        rows.len() as int
    };
    lemma_put(rows, key, first);
    assert(once[at] == (key, first));
    lemma_position_unique(once, at);
    assert(put(once, key, second) =~= put(rows, key, second));
}

/// Taking a key out keeps the keys distinct, leaves nothing under that
/// key, and leaves every other key as it was.
pub proof fn lemma_delete<T>(rows: Rows<T>, key: Seq<char>)
    requires
        distinct_keys(rows),
    ensures
        distinct_keys(delete(rows, key)),
        lookup(delete(rows, key), key) is None,
        forall|other: Seq<char>|
            other != key ==> #[trigger] lookup(delete(rows, key), other) == lookup(rows, other),
{
    let after = delete(rows, key);
    if has_key(rows, key) {
        let at = position(rows, key);
        lemma_position_unique(rows, at);
        assert(forall|i: int| 0 <= i < at ==> after[i] == rows[i]);
        assert(forall|i: int| at <= i < after.len() ==> after[i] == rows[i + 1]);
        assert(distinct_keys(after));
        if has_key(after, key) {
            let i = position(after, key);
            assert(after[i].0 == key);
            if i < at {
                lemma_position_unique(rows, i);
            } else {
                lemma_position_unique(rows, i + 1);
            }
        }
        assert forall|other: Seq<char>| other != key implies #[trigger] lookup(after, other)
            == lookup(rows, other) by {
            if has_key(rows, other) {
                let i = position(rows, other);
                lemma_position_unique(rows, i);
                if i < at {
                    assert(after[i] == rows[i]);
                    lemma_position_unique(after, i);
                } else {
                    assert(after[i - 1] == rows[i]);
                    lemma_position_unique(after, i - 1);
                }
            } else if has_key(after, other) {
                let i = position(after, other);
                assert(after[i].0 == other);
                if i < at {
                    assert(rows[i].0 == other);
                } else {
                    assert(rows[i + 1].0 == other);
                }
            }
        }
    }
}

/// Filtering keeps the keys distinct and keeps, of each key, exactly the
/// row that passes the test.
pub proof fn lemma_filter<T>(rows: Rows<T>, keep: spec_fn((Seq<char>, T)) -> bool)
    requires
        distinct_keys(rows),
    ensures
        distinct_keys(rows.filter(keep)),
        forall|key: Seq<char>| #[trigger]
            lookup(rows.filter(keep), key) == (match lookup(rows, key) {
                Some(value) => if keep((key, value)) {
                    Some(value)
                } else {
                    None
                },
                None => None,
            }),
    decreases rows.len(),
{
    reveal(Seq::filter);
    let kept = rows.filter(keep);
    if rows.len() == 0 {
        assert(forall|key: Seq<char>| !has_key(rows, key));
    } else {
        let front = rows.drop_last();
        let last = rows.last();
        assert(distinct_keys(front));
        lemma_filter(front, keep);
        let kept_front = front.filter(keep);
        assert(!has_key(front, last.0)) by {
            if has_key(front, last.0) {
                let j = position(front, last.0);
                assert(front[j].0 == last.0);
                assert(rows[j].0 == rows[rows.len() - 1].0);
            }
        }
        lemma_filter_has_no_new_key(front, keep, last.0);
        lemma_position_unique(rows, rows.len() - 1);
        assert(rows =~= front.push(last));
        if keep(last) {
            assert(kept == kept_front.push(last));
            assert(kept == put(kept_front, last.0, last.1));
            lemma_put(kept_front, last.0, last.1);
        } else {
            assert(kept == kept_front);
        }
        assert(rows == put(front, last.0, last.1));
        lemma_put(front, last.0, last.1);
        assert forall|key: Seq<char>| #[trigger]
            lookup(kept, key) == (match lookup(rows, key) {
                Some(value) => if keep((key, value)) {
                    Some(value)
                } else {
                    None
                },
                None => None,
            }) by {
            if key == last.0 {
                assert(lookup(rows, key) == Some(last.1));
                assert((key, last.1) == last);
                if !keep(last) {
                    assert(!has_key(kept_front, key));
                }
            } else {
                assert(lookup(rows, key) == lookup(front, key));
                assert(lookup(kept, key) == lookup(kept_front, key));
            }
        }
    }
}

/// One row of a table.
pub struct Entry<V> {
    pub key: String,
    pub value: V,
}

/// The model of a list of entries.
pub open spec fn rows_of<V: View>(entries: Seq<Entry<V>>) -> Rows<V::V> {
    Seq::new(entries.len(), |i: int| (entries[i].key@, entries[i].value@))
}

/// A table from string keys to values.
pub struct Table<V: View> {
    entries: Vec<Entry<V>>,
}

impl<V: View> View for Table<V> {
    type V = Rows<V::V>;

    closed spec fn view(&self) -> Rows<V::V> {
        rows_of(self.entries@)
    }
}

impl<V: View> Table<V> {
    /// What holds of every table: no key stands in two rows.
    #[verifier::type_invariant]
    pub open spec fn keys_are_distinct(&self) -> bool {
        distinct_keys(self@)
    }

    /// An empty table.
    pub fn new() -> (table: Self)
        ensures
            table@ == Seq::<(Seq<char>, V::V)>::empty(),
    {
        let table = Table { entries: Vec::new() };
        assert(table@ =~= Seq::<(Seq<char>, V::V)>::empty());
        table
    }

    /// The number of rows.
    pub fn len(&self) -> (n: usize)
        ensures
            n == self@.len(),
            distinct_keys(self@),
    {
        proof {
            use_type_invariant(self);
        }
        self.entries.len()
    }

    /// The place of `key` among the rows.
    pub fn find(&self, key: &String) -> (found: Option<usize>)
        ensures
            distinct_keys(self@),
            match found {
                Some(i) => i < self@.len() && self@[i as int].0 == key@ && has_key(self@, key@)
                    && position(self@, key@) == i,
                None => !has_key(self@, key@),
            },
    {
        proof {
            use_type_invariant(self);
        }
        let mut i: usize = 0;
        while i < self.entries.len()
            invariant
                i <= self.entries.len(),
                distinct_keys(self@),
                forall|j: int| 0 <= j < i ==> self@[j].0 != key@,
            decreases self.entries.len() - i,
        {
            if self.entries[i].key == *key {
                proof {
                    lemma_position_unique(self@, i as int);
                }
                return Some(i);
            }
            i += 1;
        }
        None
    }

    /// Whether a row has `key`.
    pub fn contains_key(&self, key: &String) -> (present: bool)
        ensures
            present == has_key(self@, key@),
    {
        self.find(key).is_some()
    }

    /// The value under `key`.
    pub fn get(&self, key: &String) -> (value: Option<&V>)
        ensures
            match value {
                Some(v) => lookup(self@, key@) == Some(v@),
                None => lookup(self@, key@) is None,
            },
    {
        match self.find(key) {
            Some(i) => Some(&self.entries[i].value),
            None => None,
        }
    }

    /// The key of row `i`.
    pub fn key_at(&self, i: usize) -> (key: &String)
        requires
            i < self@.len(),
        ensures
            key@ == self@[i as int].0,
    {
        &self.entries[i].key
    }

    /// The value of row `i`.
    pub fn value_at(&self, i: usize) -> (value: &V)
        requires
            i < self@.len(),
        ensures
            value@ == self@[i as int].1,
    {
        &self.entries[i].value
    }

    /// Takes the rows out of the table, which is left empty.
    fn take_entries(&mut self) -> (entries: Vec<Entry<V>>)
        ensures
            final(self)@ == Seq::<(Seq<char>, V::V)>::empty(),
            rows_of(entries@) == old(self)@,
            distinct_keys(old(self)@),
    {
        proof {
            use_type_invariant(&*self);
        }
        let mut taken = Table { entries: Vec::new() };
        assert(taken@ =~= Seq::<(Seq<char>, V::V)>::empty());
        core::mem::swap(self, &mut taken);
        let Table { entries } = taken;
        entries
    }

    /// Stores `value` under `key`, in place of what was there.
    pub fn insert(&mut self, key: String, value: V)
        ensures
            final(self)@ == put(old(self)@, key@, value@),
            distinct_keys(final(self)@),
    {
        let ghost before = self@;
        let found = self.find(&key);
        let mut entries = self.take_entries();
        match found {
            Some(i) => {
                entries[i] = Entry { key, value };
            },
            None => {
                entries.push(Entry { key, value });
            },
        }
        assert(rows_of(entries@) =~= put(before, key@, value@));
        *self = Table { entries };
    }

    /// Takes the row of `key` out and hands its value back.
    pub fn remove(&mut self, key: &String) -> (removed: Option<V>)
        ensures
            final(self)@ == delete(old(self)@, key@),
            distinct_keys(final(self)@),
            match removed {
                Some(v) => lookup(old(self)@, key@) == Some(v@),
                None => lookup(old(self)@, key@) is None,
            },
    {
        let ghost before = self@;
        let found = self.find(key);
        match found {
            Some(i) => {
                let mut entries = self.take_entries();
                let entry = entries.remove(i);
                assert(rows_of(entries@) =~= delete(before, key@));
                *self = Table { entries };
                Some(entry.value)
            },
            None => None,
        }
    }

    /// Takes every row out.
    pub fn clear(&mut self)
        ensures
            final(self)@ == Seq::<(Seq<char>, V::V)>::empty(),
    {
        let _ = self.take_entries();
    }
}

} // verus!
