//! A small table from text keys to values, kept in the order in which the
//! keys came in. It stands where a map keyed by strings is called for.

use vstd::prelude::*;
use crate::text::{str_eq, views_of};

verus! {

spec fn holds_key(keys: Seq<String>, k: Seq<char>) -> bool {
    exists|i: int| 0 <= i < keys.len() && (#[trigger] keys[i])@ == k
}

spec fn index_of(keys: Seq<String>, k: Seq<char>) -> int {
    choose|i: int| 0 <= i < keys.len() && (#[trigger] keys[i])@ == k
}

spec fn unique(keys: Seq<String>) -> bool {
    forall|i: int, j: int|
        0 <= i < keys.len() && 0 <= j < keys.len() && (#[trigger] keys[i])@ == (#[trigger] keys[j])@
            ==> i == j
}

spec fn table<T>(keys: Seq<String>, values: Seq<T>) -> Map<Seq<char>, T> {
    Map::new(|k: Seq<char>| holds_key(keys, k), |k: Seq<char>| values[index_of(keys, k)])
}

proof fn lemma_index_of<T>(keys: Seq<String>, values: Seq<T>, i: int)
    requires
        unique(keys),
        0 <= i < keys.len(),
    ensures
        holds_key(keys, keys[i]@),
        index_of(keys, keys[i]@) == i,
        table(keys, values).dom().contains(keys[i]@),
        table(keys, values)[keys[i]@] == values[i],
{
    let k = keys[i]@;
    assert(0 <= i < keys.len() && keys[i]@ == k);
}

proof fn lemma_push<T>(keys: Seq<String>, values: Seq<T>, key: String, value: T)
    requires
        unique(keys),
        keys.len() == values.len(),
        !holds_key(keys, key@),
    ensures
        unique(keys.push(key)),
        table(keys.push(key), values.push(value)) == table(keys, values).insert(key@, value),
{
    let ks = keys.push(key);
    let vs = values.push(value);
    assert forall|i: int, j: int|
        0 <= i < ks.len() && 0 <= j < ks.len() && (#[trigger] ks[i])@ == (#[trigger] ks[j])@
        implies i == j by {
        if i < keys.len() {
            assert(ks[i] == keys[i]);
        }
        if j < keys.len() {
            assert(ks[j] == keys[j]);
        }
    }
    assert forall|k: Seq<char>| holds_key(ks, k) <==> (holds_key(keys, k) || k == key@) by {
        if holds_key(ks, k) {
            let i = index_of(ks, k);
            if i < keys.len() {
                assert(ks[i] == keys[i]);
            }
        }
        if holds_key(keys, k) {
            let i = index_of(keys, k);
            assert(ks[i] == keys[i]);
        }
        if k == key@ {
            assert(ks[keys.len() as int]@ == k);
        }
    }
    assert forall|k: Seq<char>| holds_key(ks, k) implies #[trigger] table(ks, vs)[k] == table(
        keys,
        values,
    ).insert(key@, value)[k] by {
        let i = index_of(ks, k);
        if i < keys.len() {
            assert(ks[i] == keys[i]);
            lemma_index_of(keys, values, i);
        }
    }
    assert(table(ks, vs) =~= table(keys, values).insert(key@, value));
}

proof fn lemma_update<T>(keys: Seq<String>, values: Seq<T>, i: int, value: T)
    requires
        unique(keys),
        keys.len() == values.len(),
        0 <= i < keys.len(),
    ensures
        table(keys, values.update(i, value)) == table(keys, values).insert(keys[i]@, value),
{
    lemma_index_of(keys, values, i);
    assert forall|k: Seq<char>| holds_key(keys, k) implies #[trigger] table(
        keys,
        values.update(i, value),
    )[k] == table(keys, values).insert(keys[i]@, value)[k] by {
        let a = index_of(keys, k);
        lemma_index_of(keys, values, a);
    }
    assert(table(keys, values.update(i, value)) =~= table(keys, values).insert(keys[i]@, value));
}

proof fn lemma_remove<T>(keys: Seq<String>, values: Seq<T>, i: int)
    requires
        unique(keys),
        keys.len() == values.len(),
        0 <= i < keys.len(),
    ensures
        unique(keys.remove(i)),
        table(keys.remove(i), values.remove(i)) == table(keys, values).remove(keys[i]@),
{
    let ks = keys.remove(i);
    let vs = values.remove(i);
    assert forall|a: int| 0 <= a < ks.len() implies #[trigger] ks[a] == keys[if a < i {
        a
    } else {
        a + 1
    }] && vs[a] == values[if a < i {
        a
    } else {
        a + 1
    }] by {}
    assert forall|a: int, b: int|
        0 <= a < ks.len() && 0 <= b < ks.len() && (#[trigger] ks[a])@ == (#[trigger] ks[b])@
        implies a == b by {
        let a2 = if a < i {
            a
        } else {
            a + 1
        };
        let b2 = if b < i {
            b
        } else {
            b + 1
        };
        assert(keys[a2]@ == keys[b2]@);
    }
    lemma_index_of(keys, values, i);
    assert forall|k: Seq<char>| holds_key(ks, k) <==> (holds_key(keys, k) && k != keys[i]@) by {
        if holds_key(ks, k) {
            let a = index_of(ks, k);
            let a2 = if a < i {
                a
            } else {
                a + 1
            };
            assert(keys[a2]@ == k);
        }
        if holds_key(keys, k) && k != keys[i]@ {
            let a = index_of(keys, k);
            let a2 = if a < i {
                a
            } else {
                a - 1
            };
            assert(ks[a2]@ == k);
        }
    }
    assert forall|k: Seq<char>| holds_key(ks, k) implies #[trigger] table(ks, vs)[k] == table(
        keys,
        values,
    ).remove(keys[i]@)[k] by {
        let a = index_of(ks, k);
        let a2 = if a < i {
            a
        } else {
            a + 1
        };
        assert(keys[a2]@ == k);
        lemma_index_of(keys, values, a2);
    }
    assert(table(ks, vs) =~= table(keys, values).remove(keys[i]@));
}

proof fn lemma_table_count<T>(keys: Seq<String>, values: Seq<T>)
    requires
        unique(keys),
        keys.len() == values.len(),
    ensures
        table(keys, values).dom().finite(),
        table(keys, values).dom().len() == keys.len(),
    decreases keys.len(),
{
    if keys.len() == 0 {
        assert(table(keys, values).dom() =~= Set::<Seq<char>>::empty());
    } else {
        let ks = keys.drop_last();
        let vs = values.drop_last();
        let key = keys.last();
        assert forall|i: int, j: int|
            0 <= i < ks.len() && 0 <= j < ks.len() && (#[trigger] ks[i])@ == (#[trigger] ks[j])@
            implies i == j by {
            assert(ks[i] == keys[i]);
            assert(ks[j] == keys[j]);
        }
        assert(!holds_key(ks, key@)) by {
            if holds_key(ks, key@) {
                let i = index_of(ks, key@);
                assert(ks[i] == keys[i]);
                assert(keys[i]@ == keys[keys.len() - 1]@);
            }
        }
        lemma_table_count(ks, vs);
        lemma_push(ks, vs, key, values.last());
        assert(keys =~= ks.push(key));
        assert(values =~= vs.push(values.last()));
    }
}

/// A table with the view of each value in the value's place.
pub open spec fn viewed<T: View>(m: Map<Seq<char>, T>) -> Map<Seq<char>, T::V> {
    Map::new(|k: Seq<char>| m.dom().contains(k), |k: Seq<char>| m[k]@)
}

/// A table from text keys to values.
pub struct KeyedList<T> {
    keys: Vec<String>,
    values: Vec<T>,
}

impl<T> View for KeyedList<T> {
    type V = Map<Seq<char>, T>;

    closed spec fn view(&self) -> Map<Seq<char>, T> {
        table(self.keys@, self.values@)
    }
}

impl<T> KeyedList<T> {
    /// Every key has one value, and no key occurs twice.
    pub closed spec fn wf(&self) -> bool {
        self.keys@.len() == self.values@.len() && unique(self.keys@)
    }

    /// The keys, in the order in which they came in.
    pub closed spec fn key_seq(&self) -> Seq<Seq<char>> {
        views_of(self.keys@)
    }

    /// The values, in the order of their keys.
    pub closed spec fn value_seq(&self) -> Seq<T> {
        self.values@
    }

    /// The table holds what its keys and values hold, place by place.
    pub proof fn lemma_places(&self)
        requires
            self.wf(),
        ensures
            self.key_seq().len() == self.value_seq().len(),
            forall|i: int|
                0 <= i < self.key_seq().len() ==> self@.dom().contains(#[trigger] self.key_seq()[i])
                    && self@[self.key_seq()[i]] == self.value_seq()[i],
            forall|k: Seq<char>| #[trigger] self@.dom().contains(k) ==> self.key_seq().contains(k),
            forall|i: int, j: int|
                0 <= i < self.key_seq().len() && 0 <= j < self.key_seq().len() && self.key_seq()[i]
                    == self.key_seq()[j] ==> i == j,
    {
        assert forall|i: int| 0 <= i < self.key_seq().len() implies self@.dom().contains(
            #[trigger] self.key_seq()[i],
        ) && self@[self.key_seq()[i]] == self.value_seq()[i] by {
            lemma_index_of(self.keys@, self.values@, i);
        }
        assert forall|k: Seq<char>| #[trigger] self@.dom().contains(k) implies self.key_seq().contains(
            k,
        ) by {
            let i = index_of(self.keys@, k);
            assert(self.key_seq()[i] == k);
        }
        assert forall|i: int, j: int|
            0 <= i < self.key_seq().len() && 0 <= j < self.key_seq().len() && self.key_seq()[i]
                == self.key_seq()[j] implies i == j by {
            assert(self.keys@[i]@ == self.keys@[j]@);
        }
    }

    /// The table has as many keys as it has places.
    pub proof fn lemma_count(&self)
        requires
            self.wf(),
        ensures
            self@.dom().finite(),
            self@.dom().len() == self.key_seq().len(),
    {
        lemma_table_count(self.keys@, self.values@);
    }

    /// An empty table.
    pub fn new() -> (t: Self)
        ensures
            t.wf(),
            t@ == Map::<Seq<char>, T>::empty(),
            t.key_seq().len() == 0,
    {
        let t = KeyedList { keys: Vec::new(), values: Vec::new() };
        assert(t@ =~= Map::<Seq<char>, T>::empty());
        t
    }

    /// The number of keys.
    pub fn len(&self) -> (n: usize)
        requires
            self.wf(),
        ensures
            n == self.key_seq().len(),
            n == self.value_seq().len(),
    {
        self.keys.len()
    }

    /// The key at a place.
    pub fn key_at(&self, i: usize) -> (k: &str)
        requires
            self.wf(),
            i < self.key_seq().len(),
        ensures
            k@ == self.key_seq()[i as int],
    {
        self.keys[i].as_str()
    }

    /// The value at a place.
    pub fn value_at(&self, i: usize) -> (v: &T)
        requires
            self.wf(),
            i < self.key_seq().len(),
        ensures
            i < self.value_seq().len(),
            *v == self.value_seq()[i as int],
    {
        &self.values[i]
    }

    /// The place of a key.
    pub fn position(&self, key: &str) -> (r: Option<usize>)
        requires
            self.wf(),
        ensures
            match r {
                Some(i) => i < self.key_seq().len() && i < self.value_seq().len()
                    && self.key_seq()[i as int] == key@
                    && self@.dom().contains(key@) && self@[key@] == self.value_seq()[i as int],
                None => !self@.dom().contains(key@),
            },
    {
        let mut i: usize = 0;
        while i < self.keys.len()
            invariant
                self.wf(),
                i <= self.keys@.len(),
                forall|j: int| 0 <= j < i ==> (#[trigger] self.keys@[j])@ != key@,
            decreases self.keys@.len() - i,
        {
            if str_eq(self.keys[i].as_str(), key) {
                proof {
                    lemma_index_of(self.keys@, self.values@, i as int);
                }
                return Some(i);
            }
            i += 1;
        }
        None
    }

    /// Whether the table has the key.
    pub fn contains_key(&self, key: &str) -> (r: bool)
        requires
            self.wf(),
        ensures
            r == self@.dom().contains(key@),
    {
        self.position(key).is_some()
    }

    /// The value of a key.
    pub fn get(&self, key: &str) -> (r: Option<&T>)
        requires
            self.wf(),
        ensures
            match r {
                Some(v) => self@.dom().contains(key@) && self@[key@] == *v,
                None => !self@.dom().contains(key@),
            },
    {
        match self.position(key) {
            Some(i) => Some(&self.values[i]),
            None => None,
        }
    }

    /// Puts a value under a key, in place of the value that the key had. A
    /// new key goes to the end.
    pub fn put(&mut self, key: String, value: T)
        requires
            old(self).wf(),
        ensures
            final(self).wf(),
            final(self)@ == old(self)@.insert(key@, value),
            old(self)@.dom().contains(key@) ==> final(self).key_seq() == old(self).key_seq(),
            !old(self)@.dom().contains(key@) ==> final(self).key_seq() == old(self).key_seq().push(
                key@,
            ),
    {
        match self.position(key.as_str()) {
            Some(i) => {
                proof {
                    lemma_update(self.keys@, self.values@, i as int, value);
                }
                self.values.set(i, value);
            },
            None => {
                proof {
                    lemma_push(self.keys@, self.values@, key, value);
                    assert(views_of(self.keys@.push(key)) =~= views_of(self.keys@).push(key@));
                }
                self.keys.push(key);
                self.values.push(value);
            },
        }
    }

    /// Takes a key and its value out of the table.
    pub fn remove(&mut self, key: &str) -> (r: Option<T>)
        requires
            old(self).wf(),
        ensures
            final(self).wf(),
            final(self)@ == old(self)@.remove(key@),
            match r {
                Some(v) => old(self)@.dom().contains(key@) && old(self)@[key@] == v,
                None => !old(self)@.dom().contains(key@),
            },
    {
        match self.position(key) {
            Some(i) => {
                proof {
                    lemma_remove(self.keys@, self.values@, i as int);
                }
                self.keys.remove(i);
                let v = self.values.remove(i);
                Some(v)
            },
            None => {
                assert(self@.remove(key@) =~= self@);
                None
            },
        }
    }
}

impl<T> KeyedList<T> {
    /// Takes the key at a place, and its value, out of the table.
    pub fn remove_at(&mut self, i: usize) -> (v: T)
        requires
            old(self).wf(),
            i < old(self).key_seq().len(),
        ensures
            final(self).wf(),
            v == old(self).value_seq()[i as int],
            final(self).key_seq() == old(self).key_seq().remove(i as int),
            final(self).value_seq() == old(self).value_seq().remove(i as int),
            final(self)@ == old(self)@.remove(old(self).key_seq()[i as int]),
    {
        proof {
            lemma_remove(self.keys@, self.values@, i as int);
            assert(views_of(self.keys@.remove(i as int)) =~= views_of(self.keys@).remove(i as int));
        }
        self.keys.remove(i);
        self.values.remove(i)
    }

    /// Puts a value in the place of another.
    pub fn set_at(&mut self, i: usize, value: T)
        requires
            old(self).wf(),
            i < old(self).key_seq().len(),
        ensures
            final(self).wf(),
            final(self).key_seq() == old(self).key_seq(),
            final(self).value_seq() == old(self).value_seq().update(i as int, value),
            final(self)@ == old(self)@.insert(old(self).key_seq()[i as int], value),
    {
        proof {
            lemma_update(self.keys@, self.values@, i as int, value);
        }
        self.values.set(i, value);
    }
}

} // verus!
