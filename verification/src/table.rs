//! A table of records addressed by a string key: a vector whose keys are
//! pairwise distinct, viewed as a map from key to record.

use vstd::prelude::*;
use crate::text::str_eq;

verus! {

/// A record addressed by a key.
pub trait Keyed {
    /// The record's key.
    spec fn key_view(&self) -> Seq<char>;

    /// The record's key.
    fn key_str(&self) -> (r: &str)
        ensures
            r@ == self.key_view();
}

/// Some record of `s` has key `k`.
pub open spec fn has_key<V: Keyed>(s: Seq<V>, k: Seq<char>) -> bool {
    exists|i: int| 0 <= i < s.len() && (#[trigger] s[i]).key_view() == k
}

/// The position of the record with key `k` (meaningful when `has_key`).
pub open spec fn key_index<V: Keyed>(s: Seq<V>, k: Seq<char>) -> int {
    choose|i: int| 0 <= i < s.len() && (#[trigger] s[i]).key_view() == k
}

/// No two records share a key.
pub open spec fn distinct_keys<V: Keyed>(s: Seq<V>) -> bool {
    forall|i: int, j: int| 0 <= i < s.len() && 0 <= j < s.len() && i != j ==> (#[trigger] s[i]).key_view() != (#[trigger] s[j]).key_view()
}

/// The records of `s` as a map from key to record.
pub open spec fn to_map<V: Keyed>(s: Seq<V>) -> Map<Seq<char>, V> {
    Map::new(|k: Seq<char>| has_key(s, k), |k: Seq<char>| s[key_index(s, k)])
}

/// Within distinct keys, `key_index` finds the record at `i`.
pub proof fn lemma_key_index<V: Keyed>(s: Seq<V>, i: int)
    requires
        distinct_keys(s),
        0 <= i < s.len(),
    ensures
        has_key(s, s[i].key_view()),
        key_index(s, s[i].key_view()) == i,
        to_map(s).contains_key(s[i].key_view()),
        to_map(s)[s[i].key_view()] == s[i],
{
    assert(s[i].key_view() == s[i].key_view());
}

/// Pushing a record with a new key inserts it into the map.
pub proof fn lemma_push<V: Keyed>(s: Seq<V>, v: V)
    requires
        distinct_keys(s),
        !has_key(s, v.key_view()),
    ensures
        distinct_keys(s.push(v)),
        to_map(s.push(v)) == to_map(s).insert(v.key_view(), v),
{
    let t = s.push(v);
    assert forall|a: int, b: int| 0 <= a < t.len() && 0 <= b < t.len() && a != b
        implies (#[trigger] t[a]).key_view() != (#[trigger] t[b]).key_view() by {
        if a < s.len() && b < s.len() {
            assert(t[a] == s[a] && t[b] == s[b]);
        } else if a == s.len() {
            assert(t[b] == s[b]);
        } else {
            assert(t[a] == s[a]);
        }
    }
    assert forall|k: Seq<char>| #[trigger] has_key(t, k) <==> (has_key(s, k) || k == v.key_view()) by {
        if has_key(s, k) {
            let i = choose|i: int| 0 <= i < s.len() && (#[trigger] s[i]).key_view() == k;
            assert(t[i] == s[i]);
        }
        if k == v.key_view() {
            assert(t[s.len() as int] == v);
        }
        if has_key(t, k) && k != v.key_view() {
            let i = choose|i: int| 0 <= i < t.len() && (#[trigger] t[i]).key_view() == k;
            assert(i < s.len());
            assert(t[i] == s[i]);
        }
    }
    assert forall|k: Seq<char>| has_key(t, k) implies #[trigger] t[key_index(t, k)] == to_map(s).insert(v.key_view(), v)[k] by {
        if k == v.key_view() {
            lemma_key_index(t, s.len() as int);
        } else {
            let i = key_index(s, k);
            assert(t[i] == s[i]);
            lemma_key_index(t, i);
            lemma_key_index(s, i);
        }
    }
    assert(to_map(t) =~= to_map(s).insert(v.key_view(), v));
}

/// Replacing the record at `i` by one with the same key updates the map.
pub proof fn lemma_update<V: Keyed>(s: Seq<V>, i: int, v: V)
    requires
        distinct_keys(s),
        0 <= i < s.len(),
        v.key_view() == s[i].key_view(),
    ensures
        distinct_keys(s.update(i, v)),
        to_map(s.update(i, v)) == to_map(s).insert(v.key_view(), v),
{
    let t = s.update(i, v);
    assert forall|a: int, b: int| 0 <= a < t.len() && 0 <= b < t.len() && a != b
        implies (#[trigger] t[a]).key_view() != (#[trigger] t[b]).key_view() by {
        assert(t[a].key_view() == s[a].key_view());
        assert(t[b].key_view() == s[b].key_view());
    }
    assert forall|k: Seq<char>| #[trigger] has_key(t, k) <==> has_key(s, k) by {
        if has_key(s, k) {
            let j = choose|j: int| 0 <= j < s.len() && (#[trigger] s[j]).key_view() == k;
            assert(t[j].key_view() == s[j].key_view());
        }
        if has_key(t, k) {
            let j = choose|j: int| 0 <= j < t.len() && (#[trigger] t[j]).key_view() == k;
            assert(t[j].key_view() == s[j].key_view());
        }
    }
    lemma_key_index(s, i);
    assert forall|k: Seq<char>| has_key(t, k) implies #[trigger] t[key_index(t, k)] == to_map(s).insert(v.key_view(), v)[k] by {
        let j = key_index(s, k);
        lemma_key_index(s, j);
        lemma_key_index(t, j);
    }
    assert(to_map(t) =~= to_map(s).insert(v.key_view(), v));
}

/// Removing the record at `i` removes its key from the map.
pub proof fn lemma_remove<V: Keyed>(s: Seq<V>, i: int)
    requires
        distinct_keys(s),
        0 <= i < s.len(),
    ensures
        distinct_keys(s.remove(i)),
        to_map(s.remove(i)) == to_map(s).remove(s[i].key_view()),
{
    let t = s.remove(i);
    assert forall|j: int| 0 <= j < t.len() implies #[trigger] t[j] == (if j < i { s[j] } else { s[j + 1] }) by {}
    assert forall|a: int, b: int| 0 <= a < t.len() && 0 <= b < t.len() && a != b
        implies (#[trigger] t[a]).key_view() != (#[trigger] t[b]).key_view() by {
        let a2 = if a < i { a } else { a + 1 };
        let b2 = if b < i { b } else { b + 1 };
        assert(t[a] == s[a2] && t[b] == s[b2]);
    }
    assert forall|k: Seq<char>| #[trigger] has_key(t, k) <==> (has_key(s, k) && k != s[i].key_view()) by {
        if has_key(t, k) {
            let j = choose|j: int| 0 <= j < t.len() && (#[trigger] t[j]).key_view() == k;
            let j2 = if j < i { j } else { j + 1 };
            assert(t[j] == s[j2]);
        }
        if has_key(s, k) && k != s[i].key_view() {
            let j = choose|j: int| 0 <= j < s.len() && (#[trigger] s[j]).key_view() == k;
            let j2 = if j < i { j } else { j - 1 };
            assert(t[j2] == s[j]);
        }
    }
    assert forall|k: Seq<char>| has_key(t, k) implies #[trigger] t[key_index(t, k)] == to_map(s)[k] by {
        let j = key_index(t, k);
        let j2 = if j < i { j } else { j + 1 };
        assert(t[j] == s[j2]);
        lemma_key_index(s, j2);
    }
    assert(to_map(t) =~= to_map(s).remove(s[i].key_view()));
}

/// With distinct keys, the map has exactly one key per record.
pub proof fn lemma_len<V: Keyed>(s: Seq<V>)
    requires
        distinct_keys(s),
    ensures
        to_map(s).dom().finite(),
        to_map(s).dom().len() == s.len(),
    decreases s.len(),
{
    if s.len() == 0 {
        assert(to_map(s).dom() =~= Set::<Seq<char>>::empty());
    } else {
        let p = s.drop_last();
        let v = s.last();
        assert(p.push(v) =~= s);
        assert(distinct_keys(p)) by {
            assert forall|a: int, b: int| 0 <= a < p.len() && 0 <= b < p.len() && a != b
                implies (#[trigger] p[a]).key_view() != (#[trigger] p[b]).key_view() by {
                assert(p[a] == s[a] && p[b] == s[b]);
            }
        }
        assert(!has_key(p, v.key_view())) by {
            if has_key(p, v.key_view()) {
                let i = choose|i: int| 0 <= i < p.len() && (#[trigger] p[i]).key_view() == v.key_view();
                assert(p[i] == s[i]);
                assert(s[s.len() - 1] == v);
            }
        }
        lemma_len(p);
        lemma_push(p, v);
        assert(!to_map(p).dom().contains(v.key_view()));
        assert(to_map(s).dom() =~= to_map(p).dom().insert(v.key_view()));
    }
}

/// Records addressed by key.
#[derive(Debug, Clone)]
pub struct Table<V> {
    items: Vec<V>,
}

impl<V: Keyed> View for Table<V> {
    type V = Map<Seq<char>, V>;

    closed spec fn view(&self) -> Map<Seq<char>, V> {
        to_map(self.items@)
    }
}

impl<V: Keyed> Table<V> {
    /// The records in storage order.
    pub closed spec fn records(&self) -> Seq<V> {
        self.items@
    }

    /// Well-formedness: keys are distinct.
    pub closed spec fn wf(&self) -> bool {
        distinct_keys(self.items@)
    }

    /// The map is the map of the records.
    pub proof fn lemma_view(&self)
        ensures
            self@ == to_map(self.records()),
    {
    }

    /// A well-formed table holds finitely many keys.
    pub proof fn lemma_finite(&self)
        requires
            self.wf(),
        ensures
            self@.dom().finite(),
    {
        lemma_len(self.items@);
    }

    /// An empty table.
    pub fn new() -> (r: Self)
        ensures
            r.wf(),
            r@ == Map::<Seq<char>, V>::empty(),
            r.records().len() == 0,
    {
        let r = Table { items: Vec::new() };
        assert(to_map(r.items@) =~= Map::<Seq<char>, V>::empty());
        r
    }

    /// The number of records.
    pub fn len(&self) -> (n: usize)
        ensures
            n == self.records().len(),
            self.wf() ==> n == self@.dom().len(),
    {
        proof {
            if self.wf() {
                lemma_len(self.items@);
            }
        }
        self.items.len()
    }

    /// The position of the record with key `key`.
    fn position(&self, key: &str) -> (r: Option<usize>)
        requires
            self.wf(),
        ensures
            match r {
                Some(i) => i < self.items@.len() && self.items@[i as int].key_view() == key@,
                None => !self@.contains_key(key@),
            },
    {
        let mut i: usize = 0;
        while i < self.items.len()
            invariant
                i <= self.items@.len(),
                forall|k: int| 0 <= k < i ==> (#[trigger] self.items@[k]).key_view() != key@,
            decreases self.items@.len() - i,
        {
            if str_eq(self.items[i].key_str(), key) {
                return Some(i);
            }
            i = i + 1;
        }
        None
    }

    /// Whether a record has key `key`.
    pub fn contains_key(&self, key: &str) -> (b: bool)
        requires
            self.wf(),
        ensures
            b == self@.contains_key(key@),
    {
        match self.position(key) {
            Some(i) => {
                proof { lemma_key_index(self.items@, i as int); }
                true
            },
            None => false,
        }
    }

    /// The record with key `key`.
    pub fn get(&self, key: &str) -> (r: Option<&V>)
        requires
            self.wf(),
        ensures
            match r {
                Some(v) => self@.contains_key(key@) && *v == self@[key@] && v.key_view() == key@,
                None => !self@.contains_key(key@),
            },
    {
        match self.position(key) {
            Some(i) => {
                proof { lemma_key_index(self.items@, i as int); }
                Some(&self.items[i])
            },
            None => None,
        }
    }

    /// Stores `v` under its key, replacing and returning the record that
    /// had that key.
    pub fn insert(&mut self, v: V) -> (r: Option<V>)
        requires
            old(self).wf(),
        ensures
            final(self).wf(),
            final(self)@ == old(self)@.insert(v.key_view(), v),
            match r {
                Some(o) => old(self)@.contains_key(v.key_view()) && o == old(self)@[v.key_view()],
                None => !old(self)@.contains_key(v.key_view()),
            },
    {
        let ghost k = v.key_view();
        match self.position(v.key_str()) {
            Some(i) => {
                proof {
                    lemma_key_index(self.items@, i as int);
                    lemma_update(self.items@, i as int, v);
                }
                let mut o = v;
                std::mem::swap(&mut self.items[i], &mut o);
                Some(o)
            },
            None => {
                proof {
                    lemma_push(self.items@, v);
                }
                self.items.push(v);
                None
            },
        }
    }

    /// Removes and returns the record with key `key`.
    pub fn remove(&mut self, key: &str) -> (r: Option<V>)
        requires
            old(self).wf(),
        ensures
            final(self).wf(),
            final(self)@ == old(self)@.remove(key@),
            match r {
                Some(o) => old(self)@.contains_key(key@) && o == old(self)@[key@] && o.key_view() == key@,
                None => !old(self)@.contains_key(key@) && final(self)@ == old(self)@,
            },
    {
        match self.position(key) {
            Some(i) => {
                proof {
                    lemma_key_index(self.items@, i as int);
                    lemma_remove(self.items@, i as int);
                }
                let o = self.items.remove(i);
                Some(o)
            },
            None => {
                assert(old(self)@.remove(key@) =~= old(self)@);
                None
            },
        }
    }

    /// The records, in storage order; they are exactly the map's values.
    pub fn values(&self) -> (r: &Vec<V>)
        requires
            self.wf(),
        ensures
            r@ == self.records(),
            distinct_keys(r@),
            to_map(r@) == self@,
    {
        &self.items
    }
}

} // verus!
