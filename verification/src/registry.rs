//! Tables keyed by text: the listener registries and the correlation table
//! are each one of them.

use vstd::prelude::*;
use vstd::string::StringExecFns;

verus! {

struct Entry<T> {
    key: String,
    value: T,
}

/// A finite map from text keys to values. No key occurs twice; an entry
/// stays until it is removed or another value is inserted under its key.
pub struct Registry<T> {
    entries: Vec<Entry<T>>,
}

spec fn holds<T>(entries: Seq<Entry<T>>, key: Seq<char>) -> bool {
    exists|i: int| 0 <= i < entries.len() && (#[trigger] entries[i]).key@ == key
}

spec fn index_of<T>(entries: Seq<Entry<T>>, key: Seq<char>) -> int {
    choose|i: int| 0 <= i < entries.len() && (#[trigger] entries[i]).key@ == key
}

spec fn distinct<T>(entries: Seq<Entry<T>>) -> bool {
    forall|i: int, j: int|
        0 <= i < j < entries.len() ==> (#[trigger] entries[i]).key@ != (#[trigger] entries[j]).key@
}

spec fn as_map<T>(entries: Seq<Entry<T>>) -> Map<Seq<char>, T> {
    Map::new(|k: Seq<char>| holds(entries, k), |k: Seq<char>| entries[index_of(entries, k)].value)
}

proof fn lemma_entry_in_map<T>(entries: Seq<Entry<T>>, i: int)
    requires
        distinct(entries),
        0 <= i < entries.len(),
    ensures
        as_map(entries).contains_key(entries[i].key@),
        as_map(entries)[entries[i].key@] == entries[i].value,
{
    let key = entries[i].key@;
    assert(holds(entries, key));
    let j = index_of(entries, key);
    assert(j == i);
}

/// The position of the entry with the key `key`, if there is one.
fn find<T>(entries: &Vec<Entry<T>>, key: &String) -> (r: Option<usize>)
    ensures
        match r {
            Some(i) => i < entries.len() && entries[i as int].key@ == key@,
            None => !holds(entries@, key@),
        },
{
    let mut i: usize = 0;
    while i < entries.len()
        invariant
            i <= entries.len(),
            forall|j: int| 0 <= j < i ==> (#[trigger] entries[j]).key@ != key@,
        decreases entries.len() - i,
    {
        if entries[i].key == *key {
            return Some(i);
        }
        i = i + 1;
    }
    None
}

impl<T> View for Registry<T> {
    type V = Map<Seq<char>, T>;

    closed spec fn view(&self) -> Map<Seq<char>, T> {
        as_map(self.entries@)
    }
}

impl<T> Registry<T> {
    #[verifier::type_invariant]
    spec fn well_formed(self) -> bool {
        distinct(self.entries@)
    }

    /// An empty table.
    pub fn new() -> (table: Self)
        ensures
            table@ == Map::<Seq<char>, T>::empty(),
    {
        let table = Registry { entries: Vec::new() };
        assert(table@ =~= Map::<Seq<char>, T>::empty());
        table
    }

    /// The value under `key`, if there is an entry.
    pub fn get(&self, key: &str) -> (r: Option<&T>)
        ensures
            r == (if self@.contains_key(key@) {
                Some(&self@[key@])
            } else {
                None
            }),
    {
        let wanted = String::from_str(key);
        match find(&self.entries, &wanted) {
            Some(i) => {
                proof {
                    use_type_invariant(self);
                    lemma_entry_in_map(self.entries@, i as int);
                }
                Some(&self.entries[i].value)
            },
            None => None,
        }
    }

    /// Puts `value` under `key`. A value that was there before is replaced.
    pub fn insert(&mut self, key: String, value: T)
        ensures
            final(self)@ == old(self)@.insert(key@, value),
    {
        proof {
            use_type_invariant(&*self);
        }
        let mut entries: Vec<Entry<T>> = Vec::new();
        std::mem::swap(&mut entries, &mut self.entries);
        let ghost before = entries@;
        match find(&entries, &key) {
            Some(i) => {
                entries.set(i, Entry { key, value });
                proof {
                    let after = entries@;
                    assert(distinct(after)) by {
                        assert forall|a: int, b: int| 0 <= a < b < after.len() implies (
                        #[trigger] after[a]).key@ != (#[trigger] after[b]).key@ by {
                            assert(after[a].key@ == before[a].key@);
                            assert(after[b].key@ == before[b].key@);
                        }
                    }
                    assert forall|k: Seq<char>| holds(after, k) == (holds(before, k) || k
                        == key@) by {
                        if holds(after, k) {
                            let j = index_of(after, k);
                            assert(before[j].key@ == k);
                        }
                        if holds(before, k) {
                            let j = index_of(before, k);
                            assert(after[j].key@ == k);
                        }
                        if k == key@ {
                            assert(after[i as int].key@ == k);
                        }
                    }
                    assert forall|k: Seq<char>| holds(after, k) implies as_map(after)[k]
                        == as_map(before).insert(key@, value)[k] by {
                        let j = index_of(after, k);
                        lemma_entry_in_map(after, j);
                        if k != key@ {
                            assert(j != i);
                            assert(before[j] == after[j]);
                            lemma_entry_in_map(before, j);
                        } else {
                            assert(j == i);
                        }
                    }
                    assert(as_map(after) =~= as_map(before).insert(key@, value));
                }
            },
            None => {
                entries.push(Entry { key, value });
                proof {
                    let after = entries@;
                    let last = before.len() as int;
                    assert(distinct(after)) by {
                        assert forall|a: int, b: int| 0 <= a < b < after.len() implies (
                        #[trigger] after[a]).key@ != (#[trigger] after[b]).key@ by {
                            if b == last {
                                assert(before[a].key@ != key@);
                            } else {
                                assert(after[a] == before[a]);
                                assert(after[b] == before[b]);
                            }
                        }
                    }
                    assert forall|k: Seq<char>| holds(after, k) == (holds(before, k) || k
                        == key@) by {
                        if holds(after, k) {
                            let j = index_of(after, k);
                            if j < last {
                                assert(before[j].key@ == k);
                            }
                        }
                        if holds(before, k) {
                            let j = index_of(before, k);
                            assert(after[j].key@ == k);
                        }
                        if k == key@ {
                            assert(after[last].key@ == k);
                        }
                    }
                    assert forall|k: Seq<char>| holds(after, k) implies as_map(after)[k]
                        == as_map(before).insert(key@, value)[k] by {
                        let j = index_of(after, k);
                        lemma_entry_in_map(after, j);
                        if k != key@ {
                            assert(j != last);
                            assert(before[j] == after[j]);
                            lemma_entry_in_map(before, j);
                        } else {
                            lemma_entry_in_map(after, last);
                        }
                    }
                    assert(as_map(after) =~= as_map(before).insert(key@, value));
                }
            },
        }
        self.entries = entries;
    }

    /// Takes the entry under `key` out of the table and returns its value.
    /// Without such an entry the table stays as it is.
    pub fn remove(&mut self, key: &str) -> (r: Option<T>)
        ensures
            final(self)@ == old(self)@.remove(key@),
            r == (if old(self)@.contains_key(key@) {
                Some(old(self)@[key@])
            } else {
                None
            }),
    {
        proof {
            use_type_invariant(&*self);
        }
        let wanted = String::from_str(key);
        let mut entries: Vec<Entry<T>> = Vec::new();
        std::mem::swap(&mut entries, &mut self.entries);
        let ghost before = entries@;
        let found = find(&entries, &wanted);
        let r = match found {
            Some(i) => {
                proof {
                    lemma_entry_in_map(before, i as int);
                }
                let entry = entries.remove(i);
                proof {
                    let after = entries@;
                    assert(distinct(after)) by {
                        assert forall|a: int, b: int| 0 <= a < b < after.len() implies (
                        #[trigger] after[a]).key@ != (#[trigger] after[b]).key@ by {
                            let a0 = if a < i { a } else { a + 1 };
                            let b0 = if b < i { b } else { b + 1 };
                            assert(after[a] == before[a0]);
                            assert(after[b] == before[b0]);
                        }
                    }
                    assert forall|k: Seq<char>| holds(after, k) == (holds(before, k) && k
                        != key@) by {
                        if holds(after, k) {
                            let j = index_of(after, k);
                            let j0 = if j < i { j } else { j + 1 };
                            assert(after[j] == before[j0]);
                            assert(before[j0].key@ == k);
                        }
                        if holds(before, k) && k != key@ {
                            let j0 = index_of(before, k);
                            let j = if j0 < i { j0 } else { j0 - 1 };
                            assert(after[j] == before[j0]);
                        }
                    }
                    assert forall|k: Seq<char>| holds(after, k) implies as_map(after)[k]
                        == as_map(before)[k] by {
                        let j = index_of(after, k);
                        let j0 = if j < i { j } else { j + 1 };
                        assert(after[j] == before[j0]);
                        lemma_entry_in_map(after, j);
                        lemma_entry_in_map(before, j0);
                    }
                    assert(as_map(after) =~= as_map(before).remove(key@));
                }
                Some(entry.value)
            },
            None => {
                assert(as_map(before) =~= as_map(before).remove(key@));
                None
            },
        };
        self.entries = entries;
        r
    }
}

} // verus!
