//! An in-memory state store with the client's observable save/get/delete
//! contract: save overwrites, get returns the stored bytes or the empty
//! byte sequence for an absent key, delete is idempotent and never fails.
//! It serves as a test double for the remote store, so that the round-trip
//! workflow can be exercised and its laws stated against a precise model.

use vstd::prelude::*;

verus! {

/// The contents of a sequence of entries, read as a map from key to value.
/// A later entry overrides an earlier one with the same key; with pairwise
/// distinct keys no overriding ever happens.
pub open spec fn entries_map(s: Seq<(String, Vec<u8>)>) -> Map<Seq<char>, Seq<u8>>
    decreases s.len(),
{
    if s.len() == 0 {
        Map::empty()
    } else {
        entries_map(s.drop_last()).insert(s.last().0@, s.last().1@)
    }
}

/// Keys are pairwise distinct and non-empty.
pub open spec fn wf_entries(s: Seq<(String, Vec<u8>)>) -> bool {
    &&& forall|i: int, j: int| 0 <= i < j < s.len() ==> s[i].0@ != s[j].0@
    &&& forall|i: int| 0 <= i < s.len() ==> s[i].0@.len() > 0
}

/// What a read observes for a key: the stored value, or the empty byte
/// sequence when the key is absent. Absence and an empty stored value are
/// indistinguishable to a reader.
pub open spec fn stored_value(m: Map<Seq<char>, Seq<u8>>, k: Seq<char>) -> Seq<u8> {
    if m.contains_key(k) {
        m[k]
    } else {
        Seq::empty()
    }
}

/// An in-memory state store, viewed as a map from key to value.
pub struct MemoryStore {
    entries: Vec<(String, Vec<u8>)>,
}

impl View for MemoryStore {
    type V = Map<Seq<char>, Seq<u8>>;

    closed spec fn view(&self) -> Map<Seq<char>, Seq<u8>> {
        entries_map(self.entries@)
    }
}

proof fn lemma_wf_drop_last(s: Seq<(String, Vec<u8>)>)
    requires
        s.len() > 0,
        wf_entries(s),
    ensures
        wf_entries(s.drop_last()),
{
    assert forall|i: int, j: int| 0 <= i < j < s.drop_last().len() implies s.drop_last()[i].0@
        != s.drop_last()[j].0@ by {
        assert(s[i].0@ != s[j].0@);
    }
    assert forall|i: int| 0 <= i < s.drop_last().len() implies s.drop_last()[i].0@.len() > 0 by {
        assert(s[i].0@.len() > 0);
    }
}

/// With distinct keys, the map holds exactly the value of the entry that
/// carries the key.
proof fn lemma_entries_map_lookup(s: Seq<(String, Vec<u8>)>, i: int)
    requires
        wf_entries(s),
        0 <= i < s.len(),
    ensures
        entries_map(s).contains_key(s[i].0@),
        entries_map(s)[s[i].0@] == s[i].1@,
    decreases s.len(),
{
    if i == s.len() - 1 {
    } else {
        lemma_wf_drop_last(s);
        lemma_entries_map_lookup(s.drop_last(), i);
        assert(s.drop_last()[i] == s[i]);
        assert(s[i].0@ != s.last().0@);
    }
}

/// A key that no entry carries is not in the map.
proof fn lemma_entries_map_absent(s: Seq<(String, Vec<u8>)>, k: Seq<char>)
    requires
        forall|j: int| 0 <= j < s.len() ==> s[j].0@ != k,
    ensures
        !entries_map(s).contains_key(k),
    decreases s.len(),
{
    if s.len() > 0 {
        assert forall|j: int| 0 <= j < s.drop_last().len() implies s.drop_last()[j].0@ != k by {
            assert(s[j].0@ != k);
        }
        lemma_entries_map_absent(s.drop_last(), k);
    }
}

/// Replacing the value of the entry at `i`, key kept, is an insert on the
/// map.
proof fn lemma_entries_map_update(s: Seq<(String, Vec<u8>)>, i: int, v: Vec<u8>)
    requires
        wf_entries(s),
        0 <= i < s.len(),
    ensures
        entries_map(s.update(i, (s[i].0, v))) == entries_map(s).insert(s[i].0@, v@),
    decreases s.len(),
{
    let t = s.update(i, (s[i].0, v));
    let k = s[i].0@;
    if i == s.len() - 1 {
        assert(t.drop_last() =~= s.drop_last());
        assert(t.last() == (s[i].0, v));
        assert(entries_map(t) == entries_map(s.drop_last()).insert(k, v@));
        assert(entries_map(s.drop_last()).insert(k, s.last().1@).insert(k, v@) =~= entries_map(
            s.drop_last(),
        ).insert(k, v@));
    } else {
        lemma_wf_drop_last(s);
        assert(s.drop_last()[i] == s[i]);
        lemma_entries_map_update(s.drop_last(), i, v);
        assert(t.drop_last() =~= s.drop_last().update(i, (s[i].0, v)));
        assert(t.last() == s.last());
        let lk = s.last().0@;
        let lv = s.last().1@;
        assert(k != lk);
        assert(entries_map(t) == entries_map(s.drop_last()).insert(k, v@).insert(lk, lv));
        assert(entries_map(s.drop_last()).insert(k, v@).insert(lk, lv) =~= entries_map(
            s.drop_last(),
        ).insert(lk, lv).insert(k, v@));
    }
}

/// Removing the entry at `i` is a remove of its key on the map.
proof fn lemma_entries_map_remove(s: Seq<(String, Vec<u8>)>, i: int)
    requires
        wf_entries(s),
        0 <= i < s.len(),
    ensures
        entries_map(s.remove(i)) == entries_map(s).remove(s[i].0@),
    decreases s.len(),
{
    let t = s.remove(i);
    let k = s[i].0@;
    s.remove_ensures(i);
    if i == s.len() - 1 {
        assert(t =~= s.drop_last());
        assert forall|j: int| 0 <= j < s.drop_last().len() implies s.drop_last()[j].0@ != k by {
            assert(s[j].0@ != s[i].0@);
        }
        lemma_entries_map_absent(s.drop_last(), k);
        assert(entries_map(s.drop_last()).insert(k, s.last().1@).remove(k) =~= entries_map(
            s.drop_last(),
        ));
    } else {
        lemma_wf_drop_last(s);
        assert(s.drop_last()[i] == s[i]);
        lemma_entries_map_remove(s.drop_last(), i);
        s.drop_last().remove_ensures(i);
        assert(t.len() == s.len() - 1);
        assert(t.last() == s[s.len() - 1]);
        assert(t.drop_last() =~= s.drop_last().remove(i));
        let lk = s.last().0@;
        let lv = s.last().1@;
        assert(k != lk);
        assert(entries_map(t) == entries_map(s.drop_last()).remove(k).insert(lk, lv));
        assert(entries_map(s.drop_last()).remove(k).insert(lk, lv) =~= entries_map(
            s.drop_last(),
        ).insert(lk, lv).remove(k));
    }
}

impl MemoryStore {
    /// Keys of distinct entries are distinct and non-empty.
    pub closed spec fn wf(self) -> bool {
        wf_entries(self.entries@)
    }

    /// An empty store.
    pub fn new() -> (s: MemoryStore)
        ensures
            s.wf(),
            s@ == Map::<Seq<char>, Seq<u8>>::empty(),
    {
        MemoryStore { entries: Vec::new() }
    }

    /// The index of the entry holding `key`, if any.
    fn find(&self, key: &String) -> (r: Option<usize>)
        ensures
            match r {
                Some(i) => i < self.entries@.len() && self.entries@[i as int].0@ == key@,
                None => forall|j: int| 0 <= j < self.entries@.len() ==> self.entries@[j].0@ != key@,
            },
    {
        let mut i: usize = 0;
        while i < self.entries.len()
            invariant
                i <= self.entries@.len(),
                forall|j: int| 0 <= j < i ==> self.entries@[j].0@ != key@,
            decreases self.entries@.len() - i,
        {
            if self.entries[i].0 == *key {
                return Some(i);
            }
            i += 1;
        }
        None
    }

    /// Write `value` under `key`, overwriting any prior value.
    pub fn save(&mut self, key: String, value: Vec<u8>)
        requires
            old(self).wf(),
            key@.len() > 0,
        ensures
            final(self).wf(),
            final(self)@ == old(self)@.insert(key@, value@),
    {
        match self.find(&key) {
            Some(i) => {
                proof {
                    lemma_entries_map_update(self.entries@, i as int, value);
                }
                let k = self.entries[i].0.clone();
                self.entries[i] = (k, value);
                proof {
                    assert forall|a: int, b: int|
                        0 <= a < b < self.entries@.len() implies self.entries@[a].0@
                        != self.entries@[b].0@ by {
                        assert(old(self).entries@[a].0@ != old(self).entries@[b].0@);
                    }
                    assert forall|a: int| 0 <= a < self.entries@.len() implies self.entries@[
                        a
                    ].0@.len() > 0 by {
                        assert(old(self).entries@[a].0@.len() > 0);
                    }
                }
            },
            None => {
                proof {
                    lemma_entries_map_absent(self.entries@, key@);
                }
                let ghost before = self.entries@;
                self.entries.push((key, value));
                proof {
                    assert(self.entries@.drop_last() =~= before);
                    assert forall|a: int, b: int|
                        0 <= a < b < self.entries@.len() implies self.entries@[a].0@
                        != self.entries@[b].0@ by {
                        if b < before.len() {
                            assert(before[a].0@ != before[b].0@);
                        } else {
                            assert(before[a].0@ != self.entries@.last().0@);
                        }
                    }
                }
            },
        }
    }

    /// Read the value under `key`: the stored bytes, or the empty byte
    /// sequence when the key is absent.
    pub fn get(&self, key: &String) -> (r: Vec<u8>)
        requires
            self.wf(),
        ensures
            r@ == stored_value(self@, key@),
    {
        match self.find(key) {
            Some(i) => {
                proof {
                    lemma_entries_map_lookup(self.entries@, i as int);
                }
                copy_bytes(&self.entries[i].1)
            },
            None => {
                proof {
                    lemma_entries_map_absent(self.entries@, key@);
                }
                Vec::new()
            },
        }
    }

    /// Remove `key` if present; removing an absent key changes nothing and
    /// is not an error.
    pub fn delete(&mut self, key: &String)
        requires
            old(self).wf(),
        ensures
            final(self).wf(),
            final(self)@ == old(self)@.remove(key@),
    {
        match self.find(key) {
            Some(i) => {
                proof {
                    lemma_entries_map_remove(self.entries@, i as int);
                    self.entries@.remove_ensures(i as int);
                }
                let ghost before = self.entries@;
                self.entries.remove(i);
                proof {
                    assert forall|a: int, b: int|
                        0 <= a < b < self.entries@.len() implies self.entries@[a].0@
                        != self.entries@[b].0@ by {
                        let a0: int = if a < i { a } else { a + 1 };
                        let b0: int = if b < i { b } else { b + 1 };
                        assert(self.entries@[a] == before[a0]);
                        assert(self.entries@[b] == before[b0]);
                        assert(before[a0].0@ != before[b0].0@);
                    }
                    assert forall|a: int| 0 <= a < self.entries@.len() implies self.entries@[
                        a
                    ].0@.len() > 0 by {
                        let a0: int = if a < i { a } else { a + 1 };
                        assert(self.entries@[a] == before[a0]);
                        assert(before[a0].0@.len() > 0);
                    }
                }
            },
            None => {
                proof {
                    lemma_entries_map_absent(self.entries@, key@);
                    assert(old(self)@.remove(key@) =~= old(self)@);
                }
            },
        }
    }
}

/// A fresh vector holding the same bytes.
pub(crate) fn copy_bytes(v: &Vec<u8>) -> (r: Vec<u8>)
    ensures
        r@ == v@,
{
    let mut r: Vec<u8> = Vec::new();
    let mut i: usize = 0;
    while i < v.len()
        invariant
            i <= v@.len(),
            r@.len() == i,
            forall|j: int| 0 <= j < i ==> r@[j] == v@[j],
        decreases v@.len() - i,
    {
        r.push(v[i]);
        i += 1;
    }
    proof {
        assert(r@ =~= v@);
    }
    r
}

/// Round-trip law: after a save, a read of the same key returns exactly
/// the saved value.
pub proof fn lemma_save_then_get(m: Map<Seq<char>, Seq<u8>>, k: Seq<char>, v: Seq<u8>)
    ensures
        stored_value(m.insert(k, v), k) == v,
{
}

/// After a delete, a read of the same key returns the empty byte sequence:
/// absence and an empty stored value are conflated.
pub proof fn lemma_delete_then_get(m: Map<Seq<char>, Seq<u8>>, k: Seq<char>)
    ensures
        stored_value(m.remove(k), k) == Seq::<u8>::empty(),
{
}

/// Deleting an absent key changes nothing: delete is idempotent and, by
/// `MemoryStore::delete`'s contract, never an error.
pub proof fn lemma_delete_absent(m: Map<Seq<char>, Seq<u8>>, k: Seq<char>)
    requires
        !m.contains_key(k),
    ensures
        m.remove(k) == m,
{
    assert(m.remove(k) =~= m);
}

/// Last write wins: saving twice under one key leaves only the later
/// value, with no merging, and a read returns exactly it.
pub proof fn lemma_last_write_wins(
    m: Map<Seq<char>, Seq<u8>>,
    k: Seq<char>,
    v1: Seq<u8>,
    v2: Seq<u8>,
)
    ensures
        m.insert(k, v1).insert(k, v2) == m.insert(k, v2),
        stored_value(m.insert(k, v1).insert(k, v2), k) == v2,
{
    assert(m.insert(k, v1).insert(k, v2) =~= m.insert(k, v2));
}

} // verus!
