//! Per-client records keyed by a client's 128-bit identifier, kept in the
//! order in which clients first appeared so that they can be listed and
//! summed over.

use vstd::prelude::*;

verus! {

/// Whether some entry has key `k`.
pub open spec fn has_key<V>(e: Seq<(u128, V)>, k: u128) -> bool {
    exists|i: int| 0 <= i < e.len() && #[trigger] e[i].0 == k
}

/// No key occurs twice.
pub open spec fn unique_keys<V>(e: Seq<(u128, V)>) -> bool {
    forall|i: int, j: int| 0 <= i < e.len() && 0 <= j < e.len() && i != j ==> #[trigger] e[i].0 != #[trigger] e[j].0
}

/// The position of key `k`.
pub open spec fn key_index<V>(e: Seq<(u128, V)>, k: u128) -> int {
    choose|i: int| 0 <= i < e.len() && #[trigger] e[i].0 == k
}

/// The entries read as a map from key to value.
pub open spec fn entries_map<V>(e: Seq<(u128, V)>) -> Map<u128, V> {
    Map::new(|k: u128| has_key(e, k), |k: u128| e[key_index(e, k)].1)
}

/// With unique keys, the entry at position `i` is what the map holds for
/// its key.
pub proof fn lemma_entry_in_map<V>(e: Seq<(u128, V)>, i: int)
    requires
        unique_keys(e),
        0 <= i < e.len(),
    ensures
        entries_map(e).contains_key(e[i].0),
        entries_map(e)[e[i].0] == e[i].1,
        key_index(e, e[i].0) == i,
{
    assert(has_key(e, e[i].0));
    let j = key_index(e, e[i].0);
    assert(e[j].0 == e[i].0);
}

/// Replacing the value at the position of an existing key updates the map
/// at that key.
proof fn lemma_update_map<V>(e: Seq<(u128, V)>, i: int, v: V)
    requires
        unique_keys(e),
        0 <= i < e.len(),
    ensures
        unique_keys(e.update(i, (e[i].0, v))),
        entries_map(e.update(i, (e[i].0, v))) == entries_map(e).insert(e[i].0, v),
{
    let e2 = e.update(i, (e[i].0, v));
    let k = e[i].0;
    assert(unique_keys(e2)) by {
        assert forall|a: int, b: int| 0 <= a < e2.len() && 0 <= b < e2.len() && a != b implies #[trigger] e2[a].0 != #[trigger] e2[b].0 by {
            assert(e2[a].0 == e[a].0);
            assert(e2[b].0 == e[b].0);
        }
    }
    assert forall|k2: u128| #[trigger] has_key(e2, k2) == has_key(e, k2) by {
        if has_key(e, k2) {
            let j = key_index(e, k2);
            assert(e2[j].0 == k2);
        }
        if has_key(e2, k2) {
            let j = key_index(e2, k2);
            assert(e[j].0 == k2);
        }
    }
    assert forall|k2: u128| #[trigger] entries_map(e2).contains_key(k2) implies entries_map(e2)[k2] == entries_map(e).insert(k, v)[k2] by {
        let j = key_index(e2, k2);
        lemma_entry_in_map(e2, j);
        if k2 != k {
            lemma_entry_in_map(e, j);
        } else {
            lemma_entry_in_map(e2, i);
        }
    }
    assert(entries_map(e2) =~= entries_map(e).insert(k, v));
}

/// Appending an entry under a new key adds it to the map.
proof fn lemma_push_map<V>(e: Seq<(u128, V)>, k: u128, v: V)
    requires
        unique_keys(e),
        !has_key(e, k),
    ensures
        unique_keys(e.push((k, v))),
        entries_map(e.push((k, v))) == entries_map(e).insert(k, v),
{
    let e2 = e.push((k, v));
    assert(unique_keys(e2)) by {
        assert forall|a: int, b: int| 0 <= a < e2.len() && 0 <= b < e2.len() && a != b implies #[trigger] e2[a].0 != #[trigger] e2[b].0 by {
            if a == e.len() {
                assert(e2[b] == e[b]);
            } else if b == e.len() {
                assert(e2[a] == e[a]);
            } else {
                assert(e2[a] == e[a]);
                assert(e2[b] == e[b]);
            }
        }
    }
    assert forall|k2: u128| #[trigger] has_key(e2, k2) == (has_key(e, k2) || k2 == k) by {
        if has_key(e, k2) {
            let j = key_index(e, k2);
            assert(e2[j] == e[j]);
        }
        if has_key(e2, k2) && k2 != k {
            let j = key_index(e2, k2);
            assert(j < e.len());
            assert(e[j] == e2[j]);
        }
        if k2 == k {
            assert(e2[e.len() as int].0 == k);
        }
    }
    assert forall|k2: u128| #[trigger] entries_map(e2).contains_key(k2) implies entries_map(e2)[k2] == entries_map(e).insert(k, v)[k2] by {
        let j = key_index(e2, k2);
        lemma_entry_in_map(e2, j);
        if j < e.len() {
            assert(e2[j] == e[j]);
            lemma_entry_in_map(e, j);
        }
    }
    assert(entries_map(e2) =~= entries_map(e).insert(k, v));
}

/// Removing the entry at position `i` removes its key from the map.
proof fn lemma_remove_map<V>(e: Seq<(u128, V)>, i: int)
    requires
        unique_keys(e),
        0 <= i < e.len(),
    ensures
        unique_keys(e.remove(i)),
        entries_map(e.remove(i)) == entries_map(e).remove(e[i].0),
{
    let e2 = e.remove(i);
    let k = e[i].0;
    assert(unique_keys(e2)) by {
        assert forall|a: int, b: int| 0 <= a < e2.len() && 0 <= b < e2.len() && a != b implies #[trigger] e2[a].0 != #[trigger] e2[b].0 by {
            let a2 = if a < i { a } else { a + 1 };
            let b2 = if b < i { b } else { b + 1 };
            assert(e2[a] == e[a2]);
            assert(e2[b] == e[b2]);
        }
    }
    assert forall|k2: u128| #[trigger] has_key(e2, k2) == (has_key(e, k2) && k2 != k) by {
        if has_key(e, k2) && k2 != k {
            let j = key_index(e, k2);
            assert(j != i);
            let j2 = if j < i { j } else { j - 1 };
            assert(e2[j2] == e[j]);
        }
        if has_key(e2, k2) {
            let j = key_index(e2, k2);
            let j2 = if j < i { j } else { j + 1 };
            assert(e2[j] == e[j2]);
            assert(j2 != i);
        }
    }
    assert forall|k2: u128| #[trigger] entries_map(e2).contains_key(k2) implies entries_map(e2)[k2] == entries_map(e).remove(k)[k2] by {
        let j = key_index(e2, k2);
        lemma_entry_in_map(e2, j);
        let j2 = if j < i { j } else { j + 1 };
        assert(e2[j] == e[j2]);
        lemma_entry_in_map(e, j2);
    }
    assert(entries_map(e2) =~= entries_map(e).remove(k));
}

/// Records per client, at most one per client, listed in the order in
/// which the clients were first recorded.
pub struct ClientTable<V> {
    entries: Vec<(u128, V)>,
}

impl<V> ClientTable<V> {
    #[verifier::type_invariant]
    closed spec fn inv(self) -> bool {
        unique_keys(self.entries@)
    }

    /// The entries, oldest client first.
    pub closed spec fn entries(&self) -> Seq<(u128, V)> {
        self.entries@
    }

    /// The record of each client.
    pub open spec fn view(&self) -> Map<u128, V> {
        entries_map(self.entries())
    }

    /// The clients, oldest first.
    pub open spec fn keys(&self) -> Seq<u128> {
        self.entries().map_values(|e: (u128, V)| e.0)
    }

    /// No records.
    pub fn new() -> (r: ClientTable<V>)
        ensures r.entries() == Seq::<(u128, V)>::empty(),
    {
        ClientTable { entries: Vec::new() }
    }

    fn find(&self, k: u128) -> (r: Option<usize>)
        ensures
            match r {
                Some(i) => i < self.entries().len() && self.entries()[i as int].0 == k,
                None => !has_key(self.entries(), k),
            },
    {
        let mut i: usize = 0;
        while i < self.entries.len()
            invariant
                i <= self.entries@.len(),
                forall|j: int| 0 <= j < i ==> self.entries@[j].0 != k,
            decreases self.entries@.len() - i,
        {
            if self.entries[i].0 == k {
                return Some(i);
            }
            i = i + 1;
        }
        None
    }

    /// The record of a client.
    pub fn get(&self, k: u128) -> (r: Option<&V>)
        ensures
            match r {
                Some(v) => self.view().contains_key(k) && *v == self.view()[k],
                None => !self.view().contains_key(k),
            },
    {
        proof { use_type_invariant(self); }
        match self.find(k) {
            Some(i) => {
                proof { lemma_entry_in_map(self.entries@, i as int); }
                Some(&self.entries[i].1)
            },
            None => None,
        }
    }

    /// Whether a client has a record.
    pub fn contains(&self, k: u128) -> (r: bool)
        ensures r == self.view().contains_key(k),
    {
        self.find(k).is_some()
    }

    /// Sets the record of a client; a new client goes last.
    pub fn insert(&mut self, k: u128, v: V)
        ensures
            final(self).view() == old(self).view().insert(k, v),
            has_key(old(self).entries(), k) ==> final(self).keys() == old(self).keys(),
            !has_key(old(self).entries(), k) ==> final(self).keys() == old(self).keys().push(k),
    {
        proof { use_type_invariant(&*self); }
        let idx = self.find(k);
        let mut e: Vec<(u128, V)> = Vec::new();
        std::mem::swap(&mut e, &mut self.entries);
        let ghost old_e = e@;
        match idx {
            Some(i) => {
                e.set(i, (k, v));
                proof {
                    lemma_update_map(old_e, i as int, v);
                    assert(e@ == old_e.update(i as int, (old_e[i as int].0, v)));
                    assert(e@.map_values(|x: (u128, V)| x.0) =~= old_e.map_values(|x: (u128, V)| x.0));
                }
            },
            None => {
                e.push((k, v));
                proof {
                    lemma_push_map(old_e, k, v);
                    assert(e@.map_values(|x: (u128, V)| x.0) =~= old_e.map_values(|x: (u128, V)| x.0).push(k));
                }
            },
        }
        std::mem::swap(&mut e, &mut self.entries);
    }

    /// Takes out the record of a client.
    pub fn remove(&mut self, k: u128) -> (r: Option<V>)
        ensures
            final(self).view() == old(self).view().remove(k),
            match r {
                Some(v) => old(self).view().contains_key(k) && v == old(self).view()[k],
                None => !old(self).view().contains_key(k),
            },
    {
        proof { use_type_invariant(&*self); }
        match self.find(k) {
            Some(i) => {
                let mut e: Vec<(u128, V)> = Vec::new();
                std::mem::swap(&mut e, &mut self.entries);
                let ghost old_e = e@;
                let (_, v) = e.remove(i);
                proof {
                    lemma_entry_in_map(old_e, i as int);
                    lemma_remove_map(old_e, i as int);
                }
                std::mem::swap(&mut e, &mut self.entries);
                Some(v)
            },
            None => {
                proof { assert(old(self).view().remove(k) =~= old(self).view()); }
                None
            },
        }
    }

    /// The number of clients recorded.
    pub fn len(&self) -> (r: usize)
        ensures r == self.entries().len(),
    {
        self.entries.len()
    }

    /// The entries, oldest client first.
    pub fn as_vec(&self) -> (r: &Vec<(u128, V)>)
        ensures r@ == self.entries(),
    {
        &self.entries
    }

    /// The clients, oldest first.
    pub fn client_ids(&self) -> (r: Vec<u128>)
        ensures r@ == self.keys(),
    {
        let mut r: Vec<u128> = Vec::new();
        let mut i: usize = 0;
        while i < self.entries.len()
            invariant
                i <= self.entries@.len(),
                r@ == self.entries@.take(i as int).map_values(|e: (u128, V)| e.0),
            decreases self.entries@.len() - i,
        {
            r.push(self.entries[i].0);
            proof {
                assert(self.entries@.take(i + 1).map_values(|e: (u128, V)| e.0)
                    =~= self.entries@.take(i as int).map_values(|e: (u128, V)| e.0).push(self.entries@[i as int].0));
            }
            i = i + 1;
        }
        proof { assert(self.entries@.take(i as int) =~= self.entries@); }
        r
    }
}

} // verus!
