//! A small map keyed by text. It keeps its entries in insertion order and
//! behaves as a mathematical map from character sequences.
use vstd::prelude::*;

use crate::text::same_text;

verus! {

broadcast use vstd::seq_lib::group_seq_properties;

/// A map from texts to values.
pub struct TextMap<V> {
    entries: Vec<(String, V)>,
}

/// Whether `key` is the key of entry `i`.
spec fn is_key<V>(entries: Seq<(String, V)>, i: int, key: Seq<char>) -> bool {
    0 <= i < entries.len() && entries[i].0@ == key
}

/// The map that a list of entries stands for.
spec fn map_of<V>(entries: Seq<(String, V)>) -> Map<Seq<char>, V> {
    Map::new(
        |key: Seq<char>| exists|i: int| is_key(entries, i, key),
        |key: Seq<char>| entries[choose|i: int| is_key(entries, i, key)].1,
    )
}

/// Whether no key occurs twice.
spec fn keys_differ<V>(entries: Seq<(String, V)>) -> bool {
    forall|i: int, j: int|
        #![trigger entries[i], entries[j]]
        0 <= i < j < entries.len() ==> entries[i].0@ != entries[j].0@
}

proof fn entry_is_mapped<V>(entries: Seq<(String, V)>, i: int)
    requires
        keys_differ(entries),
        0 <= i < entries.len(),
    ensures
        map_of(entries).contains_key(entries[i].0@),
        map_of(entries)[entries[i].0@] == entries[i].1,
{
    let key = entries[i].0@;
    assert(is_key(entries, i, key));
    let k = choose|k: int| is_key(entries, k, key);
    assert(is_key(entries, k, key));
    if k < i {
        assert(entries[k].0@ != entries[i].0@);
    } else if i < k {
        assert(entries[i].0@ != entries[k].0@);
    }
}

impl<V> View for TextMap<V> {
    type V = Map<Seq<char>, V>;

    closed spec fn view(&self) -> Map<Seq<char>, V> {
        map_of(self.entries@)
    }
}

impl<V> TextMap<V> {
    #[verifier::type_invariant]
    spec fn keys_are_unique(self) -> bool {
        keys_differ(self.entries@)
    }

    /// The empty map.
    pub fn new() -> (r: Self)
        ensures
            r@ == Map::<Seq<char>, V>::empty(),
    {
        let r = TextMap { entries: Vec::new() };
        assert(r@ =~= Map::<Seq<char>, V>::empty());
        r
    }

    /// The keys, in the order in which their entries are kept.
    pub closed spec fn keys(self) -> Seq<Seq<char>> {
        self.entries@.map_values(|e: (String, V)| e.0@)
    }

    fn find(&self, key: &str) -> (r: Option<usize>)
        ensures
            match r {
                Some(i) => is_key(self.entries@, i as int, key@),
                None => !self@.contains_key(key@),
            },
    {
        let mut i: usize = 0;
        while i < self.entries.len()
            invariant
                i <= self.entries@.len(),
                forall|k: int| 0 <= k < i ==> !is_key(self.entries@, k, key@),
            decreases self.entries@.len() - i,
        {
            if same_text(self.entries[i].0.as_str(), key) {
                return Some(i);
            }
            i += 1;
        }
        None
    }

    /// How many entries there are. The listed keys are those of the map, each
    /// one once.
    pub fn len(&self) -> (r: usize)
        ensures
            r == self.keys().len(),
            self.keys().no_duplicates(),
            forall|key: Seq<char>| self.keys().contains(key) <==> #[trigger] self@.contains_key(key),
            self@.dom().finite(),
            self@.dom().len() == r,
    {
        proof {
            use_type_invariant(self);
            let entries = self.entries@;
            assert forall|i: int, j: int|
                0 <= i < self.keys().len() && 0 <= j < self.keys().len() && i
                    != j implies self.keys()[i] != self.keys()[j] by {
                if i < j {
                    assert(entries[i].0@ != entries[j].0@);
                } else {
                    assert(entries[j].0@ != entries[i].0@);
                }
            }
            assert forall|key: Seq<char>|
                self.keys().contains(key) <==> #[trigger] self@.contains_key(key) by {
                if self.keys().contains(key) {
                    let i = choose|i: int| 0 <= i < self.keys().len() && self.keys()[i] == key;
                    assert(is_key(entries, i, key));
                }
                if self@.contains_key(key) {
                    let i = choose|i: int| is_key(entries, i, key);
                    assert(self.keys()[i] == key);
                }
            }
            self.keys().unique_seq_to_set();
            assert(self.keys().to_set() =~= self@.dom());
        }
        self.entries.len()
    }

    /// The key of entry `i`.
    pub fn key(&self, i: usize) -> (r: &String)
        requires
            i < self.keys().len(),
        ensures
            r@ == self.keys()[i as int],
            self@.contains_key(r@),
    {
        proof {
            use_type_invariant(self);
            entry_is_mapped(self.entries@, i as int);
        }
        &self.entries[i].0
    }

    /// The value of entry `i`.
    pub fn value(&self, i: usize) -> (r: &V)
        requires
            i < self.keys().len(),
        ensures
            self@.contains_key(self.keys()[i as int]),
            *r == self@[self.keys()[i as int]],
    {
        proof {
            use_type_invariant(self);
            entry_is_mapped(self.entries@, i as int);
        }
        &self.entries[i].1
    }

    /// Whether `key` has an entry.
    pub fn contains_key(&self, key: &str) -> (r: bool)
        ensures
            r == self@.contains_key(key@),
    {
        self.find(key).is_some()
    }

    /// The value of `key`.
    pub fn get(&self, key: &str) -> (r: Option<&V>)
        ensures
            match r {
                Some(value) => self@.contains_key(key@) && *value == self@[key@],
                None => !self@.contains_key(key@),
            },
    {
        match self.find(key) {
            Some(i) => {
                proof {
                    use_type_invariant(self);
                    entry_is_mapped(self.entries@, i as int);
                }
                Some(&self.entries[i].1)
            },
            None => None,
        }
    }

    /// Takes the entry of `key` out.
    pub fn remove(&mut self, key: &str) -> (r: Option<V>)
        ensures
            final(self)@ == old(self)@.remove(key@),
            match r {
                Some(value) => old(self)@.contains_key(key@) && value == old(self)@[key@],
                None => !old(self)@.contains_key(key@),
            },
    {
        proof {
            use_type_invariant(&*self);
        }
        match self.find(key) {
            Some(i) => {
                let ghost before = self.entries@;
                proof {
                    entry_is_mapped(before, i as int);
                }
                let mut entries: Vec<(String, V)> = Vec::new();
                std::mem::swap(&mut entries, &mut self.entries);
                let removed = entries.remove(i);
                proof {
                    let after = entries@;
                    assert forall|k: Seq<char>| map_of(before).remove(key@).contains_key(
                        k,
                    ) == #[trigger] map_of(after).contains_key(k) by {
                        if map_of(after).contains_key(k) {
                            let a = choose|a: int| is_key(after, a, k);
                            let b = if a < i {
                                a
                            } else {
                                a + 1
                            };
                            assert(after[a] == before[b]);
                            assert(is_key(before, b, k));
                            if b < i {
                                assert(before[b].0@ != before[i as int].0@);
                            } else {
                                assert(before[i as int].0@ != before[b].0@);
                            }
                        }
                        if map_of(before).remove(key@).contains_key(k) {
                            let b = choose|b: int| is_key(before, b, k);
                            let a = if b < i {
                                b
                            } else {
                                b - 1
                            };
                            assert(after[a] == before[b]);
                            assert(is_key(after, a, k));
                        }
                    }
                    assert forall|x: int, y: int|
                        #![trigger after[x], after[y]]
                        0 <= x < y < after.len() implies after[x].0@ != after[y].0@ by {
                        let u = if x < i {
                            x
                        } else {
                            x + 1
                        };
                        let v = if y < i {
                            y
                        } else {
                            y + 1
                        };
                        assert(after[x] == before[u] && after[y] == before[v]);
                    }
                    assert forall|k: Seq<char>| #[trigger] map_of(after).contains_key(k) implies map_of(
                        after,
                    )[k] == map_of(before)[k] by {
                        let a = choose|a: int| is_key(after, a, k);
                        entry_is_mapped(after, a);
                        let b = if a < i {
                            a
                        } else {
                            a + 1
                        };
                        assert(after[a] == before[b]);
                        entry_is_mapped(before, b);
                    }
                    assert(map_of(after) =~= map_of(before).remove(key@));
                }
                self.entries = entries;
                Some(removed.1)
            },
            None => {
                assert(self@.remove(key@) =~= self@);
                None
            },
        }
    }

    /// Maps `key` to `value`; what it was mapped to before is dropped.
    pub fn insert(&mut self, key: String, value: V)
        ensures
            final(self)@ == old(self)@.insert(key@, value),
    {
        let ghost original = self@;
        let dropped = self.remove(key.as_str());
        proof {
            use_type_invariant(&*self);
        }
        let ghost before = self.entries@;
        let mut entries: Vec<(String, V)> = Vec::new();
        std::mem::swap(&mut entries, &mut self.entries);
        entries.push((key, value));
        proof {
            let after = entries@;
            assert forall|x: int, y: int|
                #![trigger after[x], after[y]]
                0 <= x < y < after.len() implies after[x].0@ != after[y].0@ by {
                if y == before.len() {
                    if after[x].0@ == key@ {
                        assert(is_key(before, x, key@));
                        assert(map_of(before).contains_key(key@));
                    }
                } else {
                    assert(before[x].0@ != before[y].0@);
                }
            }
            assert forall|k: Seq<char>| #[trigger] map_of(after).contains_key(k) == original.insert(
                key@,
                value,
            ).contains_key(k) by {
                if map_of(after).contains_key(k) {
                    let a = choose|a: int| is_key(after, a, k);
                    if a < before.len() {
                        assert(is_key(before, a, k));
                        assert(map_of(before).contains_key(k));
                    }
                }
                if k == key@ {
                    assert(is_key(after, before.len() as int, k));
                } else if original.contains_key(k) {
                    assert(map_of(before).contains_key(k));
                    let b = choose|b: int| is_key(before, b, k);
                    assert(is_key(after, b, k));
                }
            }
            assert forall|k: Seq<char>| #[trigger] map_of(after).contains_key(k) implies map_of(
                after,
            )[k] == original.insert(key@, value)[k] by {
                let a = choose|a: int| is_key(after, a, k);
                entry_is_mapped(after, a);
                if a < before.len() {
                    entry_is_mapped(before, a);
                    assert(map_of(before).contains_key(k));
                }
            }
            assert(map_of(after) =~= original.insert(key@, value));
        }
        self.entries = entries;
    }
}

} // verus!
