//! A small key-value table with `u64` keys, the model of the ledger's
//! per-key storage mappers. Viewed as a `Map<u64, V>`; absent keys read as
//! the caller's default.

use vstd::prelude::*;

verus! {

/// The map denoted by an association list: later entries win.
pub open spec fn map_of<V>(s: Seq<(u64, V)>) -> Map<u64, V>
    decreases s.len(),
{
    if s.len() == 0 {
        Map::empty()
    } else {
        map_of(s.drop_last()).insert(s.last().0, s.last().1)
    }
}

/// A key occurs in the association list.
pub open spec fn has_key<V>(s: Seq<(u64, V)>, k: u64) -> bool {
    exists|i: int| 0 <= i < s.len() && s[i].0 == k
}

proof fn lemma_map_of_absent<V>(s: Seq<(u64, V)>, k: u64)
    requires
        !has_key(s, k),
    ensures
        !map_of(s).contains_key(k),
    decreases s.len(),
{
    if s.len() > 0 {
        assert(forall|i: int| 0 <= i < s.len() - 1 ==> s.drop_last()[i] == s[i]);
        lemma_map_of_absent(s.drop_last(), k);
    }
}

proof fn lemma_map_of_found<V>(s: Seq<(u64, V)>, k: u64, i: int)
    requires
        0 <= i < s.len(),
        s[i].0 == k,
        forall|j: int| i < j < s.len() ==> s[j].0 != k,
    ensures
        map_of(s).contains_key(k),
        map_of(s)[k] == s[i].1,
    decreases s.len(),
{
    if i == s.len() - 1 {
    } else {
        assert(forall|j: int| 0 <= j < s.len() - 1 ==> s.drop_last()[j] == s[j]);
        lemma_map_of_found(s.drop_last(), k, i);
    }
}

/// Per-key storage: a `Map<u64, V>` in contracts, an association list with
/// distinct keys underneath.
pub struct Table<V> {
    entries: Vec<(u64, V)>,
}

impl<V: Copy> Table<V> {
    /// The map this table denotes.
    pub closed spec fn view(&self) -> Map<u64, V> {
        map_of(self.entries@)
    }

    /// The representation keeps one entry per key.
    pub closed spec fn wf(&self) -> bool {
        forall|i: int, j: int|
            0 <= i < j < self.entries@.len() ==> (#[trigger] self.entries@[i]).0 != (
            #[trigger] self.entries@[j]).0
    }

    /// An empty table.
    pub fn new() -> (t: Self)
        ensures
            t.wf(),
            t@ == Map::<u64, V>::empty(),
    {
        Table { entries: Vec::new() }
    }

    /// The value stored under `k`, if any.
    pub fn get(&self, k: u64) -> (r: Option<V>)
        requires
            self.wf(),
        ensures
            match r {
                Some(v) => self@.contains_key(k) && self@[k] == v,
                None => !self@.contains_key(k),
            },
    {
        let n = self.entries.len();
        for i in 0..n
            invariant
                n == self.entries@.len(),
                self.wf(),
                forall|j: int| 0 <= j < i ==> (#[trigger] self.entries@[j]).0 != k,
        {
            if self.entries[i].0 == k {
                proof {
                    lemma_map_of_found(self.entries@, k, i as int);
                }
                return Some(self.entries[i].1);
            }
        }
        proof {
            lemma_map_of_absent(self.entries@, k);
        }
        None
    }

    /// Stores `v` under `k`, replacing any earlier value.
    pub fn set(&mut self, k: u64, v: V)
        requires
            old(self).wf(),
        ensures
            final(self).wf(),
            final(self)@ == old(self)@.insert(k, v),
    {
        let n = self.entries.len();
        for i in 0..n
            invariant
                n == self.entries@.len(),
                self.wf(),
                self.entries@ == old(self).entries@,
                forall|j: int| 0 <= j < i ==> (#[trigger] self.entries@[j]).0 != k,
        {
            if self.entries[i].0 == k {
                self.entries.set(i, (k, v));
                proof {
                    lemma_map_of_update(old(self).entries@, k, v, i as int);
                }
                return ;
            }
        }
        proof {
            lemma_map_of_absent(self.entries@, k);
        }
        self.entries.push((k, v));
        proof {
            assert(self.entries@.drop_last() =~= old(self).entries@);
            assert(map_of(self.entries@) =~= map_of(old(self).entries@).insert(k, v));
        }
    }
}

proof fn lemma_map_of_update<V>(s: Seq<(u64, V)>, k: u64, v: V, i: int)
    requires
        0 <= i < s.len(),
        s[i].0 == k,
        forall|j: int| 0 <= j < s.len() && j != i ==> s[j].0 != k,
    ensures
        map_of(s.update(i, (k, v))) == map_of(s).insert(k, v),
    decreases s.len(),
{
    let t = s.update(i, (k, v));
    if i == s.len() - 1 {
        assert(t.drop_last() =~= s.drop_last());
        assert(map_of(t) =~= map_of(s).insert(k, v));
    } else {
        assert(t.drop_last() =~= s.drop_last().update(i, (k, v)));
        assert(forall|j: int| 0 <= j < s.len() - 1 ==> s.drop_last()[j] == s[j]);
        lemma_map_of_update(s.drop_last(), k, v, i);
        assert(s.last().0 != k);
        assert(map_of(t) =~= map_of(s).insert(k, v));
    }
}

} // verus!
