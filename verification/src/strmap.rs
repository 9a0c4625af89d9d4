//! A string-keyed map that keeps its keys in first-insertion order.
use vstd::prelude::*;
use crate::text::same_text;

verus! {

/// A map from string keys to values. Each key occurs once; the keys keep the
/// order in which they were first inserted.
pub struct StrMap<V: View> {
    entries: Vec<(String, V)>,
    contents: Ghost<Map<Seq<char>, V::V>>,
}

impl<V: View> View for StrMap<V> {
    type V = Map<Seq<char>, V::V>;

    closed spec fn view(&self) -> Map<Seq<char>, V::V> {
        self.contents@
    }
}

impl<V: View> StrMap<V> {
    /// The keys, in first-insertion order.
    pub closed spec fn keys(&self) -> Seq<Seq<char>> {
        self.entries@.map_values(|e: (String, V)| e.0@)
    }

    #[verifier::type_invariant]
    closed spec fn well_formed(self) -> bool {
        &&& self.keys().no_duplicates()
        &&& forall|k: Seq<char>| self.contents@.contains_key(k) <==> self.keys().contains(k)
        &&& forall|i: int|
            0 <= i < self.entries@.len() ==> self.contents@[#[trigger] self.entries@[i].0@]
                == self.entries@[i].1@
    }

    /// An empty map.
    pub fn new() -> (m: Self)
        ensures
            m@ == Map::<Seq<char>, V::V>::empty(),
            m.keys() == Seq::<Seq<char>>::empty(),
    {
        let m = StrMap { entries: Vec::new(), contents: Ghost(Map::empty()) };
        assert(m.keys() =~= Seq::<Seq<char>>::empty());
        m
    }

    /// The number of keys, together with what relates the keys to the map.
    pub fn len(&self) -> (n: usize)
        ensures
            n == self.keys().len(),
            n == self@.len(),
            self.keys().no_duplicates(),
            forall|k: Seq<char>| self@.contains_key(k) <==> self.keys().contains(k),
            self@.dom() == self.keys().to_set(),
    {
        proof {
            use_type_invariant(self);
            assert(self@.dom() =~= self.keys().to_set());
            self.keys().unique_seq_to_set();
        }
        self.entries.len()
    }

    /// The key at position `i` of the insertion order.
    pub fn key_at(&self, i: usize) -> (k: &String)
        requires
            i < self.keys().len(),
        ensures
            k@ == self.keys()[i as int],
            self@.contains_key(k@),
    {
        proof {
            use_type_invariant(self);
            assert(self.keys().contains(self.keys()[i as int]));
        }
        &self.entries[i].0
    }

    /// The value stored under the key at position `i` of the insertion order.
    pub fn value_at(&self, i: usize) -> (v: &V)
        requires
            i < self.keys().len(),
        ensures
            v@ == self@[self.keys()[i as int]],
    {
        proof {
            use_type_invariant(self);
        }
        &self.entries[i].1
    }

    fn find(&self, k: &str) -> (r: Option<usize>)
        ensures
            match r {
                Some(i) => i < self.keys().len() && self.keys()[i as int] == k@,
                None => !self.keys().contains(k@),
            },
    {
        let n = self.entries.len();
        let mut i: usize = 0;
        while i < n
            invariant
                n == self.keys().len(),
                i <= n,
                forall|j: int| 0 <= j < i ==> self.keys()[j] != k@,
            decreases n - i,
        {
            if same_text(self.entries[i].0.as_str(), k) {
                return Some(i);
            }
            i = i + 1;
        }
        None
    }

    /// Whether `k` is a key of the map.
    pub fn contains_key(&self, k: &str) -> (b: bool)
        ensures
            b == self@.contains_key(k@),
    {
        proof {
            use_type_invariant(self);
        }
        let r = self.find(k);
        proof {
            if let Some(i) = r {
                assert(self.keys().contains(self.keys()[i as int]));
            }
        }
        r.is_some()
    }

    /// The value stored under `k`, if any.
    pub fn get(&self, k: &str) -> (r: Option<&V>)
        ensures
            match r {
                Some(v) => self@.contains_key(k@) && v@ == self@[k@],
                None => !self@.contains_key(k@),
            },
    {
        proof {
            use_type_invariant(self);
        }
        match self.find(k) {
            Some(i) => {
                proof {
                    assert(self.keys().contains(self.keys()[i as int]));
                    assert(self.keys()[i as int] == self.entries@[i as int].0@);
                }
                Some(&self.entries[i].1)
            },
            None => None,
        }
    }

    /// Stores `v` under `k`, replacing any value stored there before. A new key
    /// goes to the end of the insertion order; a present key keeps its place.
    pub fn insert(&mut self, k: String, v: V)
        ensures
            final(self)@ == old(self)@.insert(k@, v@),
            final(self).keys() == (if old(self)@.contains_key(k@) {
                old(self).keys()
            } else {
                old(self).keys().push(k@)
            }),
    {
        proof {
            use_type_invariant(&*self);
        }
        let ghost old_keys = self.keys();
        let ghost old_map = self@;
        assert(forall|x: Seq<char>| old_map.contains_key(x) <==> old_keys.contains(x));
        let found = self.find(k.as_str());
        let mut tmp = StrMap::new();
        std::mem::swap(self, &mut tmp);
        let StrMap { entries: mut entries, contents: Ghost(contents) } = tmp;
        assert(contents == old_map);
        assert(entries@.map_values(|e: (String, V)| e.0@) == old_keys);
        let ghost kv = k@;
        let ghost vv = v@;
        match found {
            Some(i) => {
                let ghost old_entries = entries@;
                entries.set(i, (k, v));
                let ghost new_keys = entries@.map_values(|e: (String, V)| e.0@);
                assert(new_keys =~= old_keys);
                let ghost nc = contents.insert(kv, vv);
                proof {
                    assert(old_keys[i as int] == kv);
                    assert(old_keys.contains(kv));
                    assert(old_map.contains_key(kv));
                    assert forall|j: int| 0 <= j < entries@.len() implies nc[#[trigger] entries@[j].0@]
                        == entries@[j].1@ by {
                        if j != i {
                            assert(old_keys[j] == old_entries[j].0@);
                            assert(old_keys[j] != old_keys[i as int]);
                        }
                    }
                    assert forall|x: Seq<char>| nc.contains_key(x) <==> new_keys.contains(x) by {
                        if x == kv {
                            assert(old_keys.contains(kv));
                        }
                    }
                }
                let m = StrMap { entries, contents: Ghost(nc) };
                assert(m.keys() == old_keys);
                *self = m;
            },
            None => {
                let ghost old_entries = entries@;
                entries.push((k, v));
                let ghost new_keys = entries@.map_values(|e: (String, V)| e.0@);
                assert(new_keys =~= old_keys.push(kv));
                let ghost nc = contents.insert(kv, vv);
                proof {
                    let n = old_keys.len() as int;
                    assert forall|j: int| 0 <= j < entries@.len() implies nc[#[trigger] entries@[j].0@]
                        == entries@[j].1@ by {
                        if j < n {
                            assert(old_keys[j] == old_entries[j].0@);
                            assert(old_keys.contains(old_keys[j]));
                        }
                    }
                    assert forall|x: Seq<char>| nc.contains_key(x) <==> new_keys.contains(x) by {
                        if x == kv {
                            assert(new_keys[n] == kv);
                        } else {
                            if contents.contains_key(x) {
                                assert(old_map.contains_key(x));
                                assert(old_keys.contains(x));
                                let j = choose|j: int| 0 <= j < old_keys.len() && old_keys[j] == x;
                                assert(new_keys[j] == x);
                            }
                            if new_keys.contains(x) {
                                let j = choose|j: int| 0 <= j < new_keys.len() && new_keys[j] == x;
                                assert(j != n);
                                assert(old_keys[j] == x);
                                assert(old_keys.contains(x));
                                assert(old_map.contains_key(x));
                            }
                        }
                    }
                    assert forall|a: int, b: int| 0 <= a < new_keys.len() && 0 <= b < new_keys.len() && a != b
                        implies new_keys[a] != new_keys[b] by {
                        if a == n {
                            assert(old_keys.contains(new_keys[b]));
                        } else if b == n {
                            assert(old_keys.contains(new_keys[a]));
                        }
                    }
                }
                let m = StrMap { entries, contents: Ghost(nc) };
                assert(m.keys() == old_keys.push(kv));
                *self = m;
            },
        }
    }
}

/// What a read gives back after a write: the value just stored under its key,
/// and, under every other key, what was there before (or nothing).
pub proof fn law_read_after_write<T>(before: Map<Seq<char>, T>, k: Seq<char>, v: T, other: Seq<char>)
    ensures
        before.insert(k, v).contains_key(k),
        before.insert(k, v)[k] == v,
        other != k ==> before.insert(k, v).contains_key(other) == before.contains_key(other),
        other != k && before.contains_key(other) ==> before.insert(k, v)[other] == before[other],
{
}

} // verus!
