//! A map from strings that is walked in the order of its keys.
use crate::text::{before, before_irreflexive, before_total, before_transitive, precedes, same};
use vstd::prelude::*;

verus! {

/// A map from strings, kept in the order of its keys.
#[derive(Debug)]
pub struct TextMap<V> {
    entries: Vec<(String, V)>,
}

/// The keys of the entries.
pub open spec fn entry_keys<V>(entries: Seq<(String, V)>) -> Seq<Seq<char>> {
    entries.map_values(|e: (String, V)| e.0@)
}

/// Each key stands before the ones that follow it.
pub open spec fn ascending(keys: Seq<Seq<char>>) -> bool {
    forall|i: int, j: int| 0 <= i < j < keys.len() ==> before(#[trigger] keys[i], #[trigger] keys[j])
}

/// The map that the entries stand for.
pub open spec fn entry_map<V>(entries: Seq<(String, V)>) -> Map<Seq<char>, V> {
    Map::new(
        |k: Seq<char>| entry_keys(entries).contains(k),
        |k: Seq<char>| entries[entry_keys(entries).index_of(k)].1,
    )
}

impl<V> View for TextMap<V> {
    type V = Map<Seq<char>, V>;

    closed spec fn view(&self) -> Map<Seq<char>, V> {
        entry_map(self.entries@)
    }
}

/// The place of a key in an ascending list is its only one.
proof fn ascending_index<V>(entries: Seq<(String, V)>, i: int)
    requires
        ascending(entry_keys(entries)),
        0 <= i < entries.len(),
    ensures
        entry_keys(entries).index_of(entries[i].0@) == i,
        entry_map(entries).dom().contains(entries[i].0@),
        entry_map(entries)[entries[i].0@] == entries[i].1,
{
    let keys = entry_keys(entries);
    let k = entries[i].0@;
    assert(keys[i] == k);
    let j = keys.index_of(k);
    assert(keys[j] == k);
    before_irreflexive(k);
    if j < i {
        assert(before(keys[j], keys[i]));
    }
    if i < j {
        assert(before(keys[i], keys[j]));
    }
}

impl<V> TextMap<V> {
    /// The keys in order.
    pub closed spec fn keys(&self) -> Seq<Seq<char>> {
        entry_keys(self.entries@)
    }

    /// The keys ascend, so none occurs twice.
    pub closed spec fn wf(&self) -> bool {
        ascending(entry_keys(self.entries@))
    }

    /// The keys are those of the map, in ascending order.
    pub proof fn keys_are_the_domain(&self)
        requires
            self.wf(),
        ensures
            ascending(self.keys()),
            forall|k: Seq<char>| self.keys().contains(k) <==> #[trigger] self@.dom().contains(k),
    {
    }

    /// The empty map.
    pub fn new() -> (r: TextMap<V>)
        ensures
            r.wf(),
            r@ == Map::<Seq<char>, V>::empty(),
            r.keys() == Seq::<Seq<char>>::empty(),
    {
        let r = TextMap { entries: Vec::new() };
        proof {
            assert(entry_keys(r.entries@) =~= Seq::empty());
            assert(r@ =~= Map::empty());
        }
        r
    }

    /// How many keys there are.
    pub fn len(&self) -> (r: usize)
        ensures
            r == self.keys().len(),
    {
        self.entries.len()
    }

    /// The `i`th key.
    pub fn key_at(&self, i: usize) -> (r: &String)
        requires
            i < self.keys().len(),
        ensures
            r@ == self.keys()[i as int],
    {
        &self.entries[i].0
    }

    /// The value of the `i`th key.
    pub fn value_at(&self, i: usize) -> (r: &V)
        requires
            self.wf(),
            i < self.keys().len(),
        ensures
            self@.dom().contains(self.keys()[i as int]),
            *r == self@[self.keys()[i as int]],
    {
        proof {
            ascending_index(self.entries@, i as int);
        }
        &self.entries[i].1
    }

    /// Where the key stands, or would be put.
    fn find(&self, key: &str) -> (r: Result<usize, usize>)
        requires
            self.wf(),
        ensures
            r matches Ok(i) ==> i < self.entries@.len() && self.entries@[i as int].0@ == key@
                && self@.dom().contains(key@) && self@[key@] == self.entries@[i as int].1,
            r matches Err(i) ==> {
                &&& i <= self.entries@.len()
                &&& !self@.dom().contains(key@)
                &&& forall|j: int| 0 <= j < i ==> before((#[trigger] self.entries@[j]).0@, key@)
                &&& forall|j: int|
                    i <= j < self.entries@.len() ==> before(key@, (#[trigger] self.entries@[j]).0@)
            },
    {
        let ghost keys = entry_keys(self.entries@);
        let mut i: usize = 0;
        while i < self.entries.len() && precedes(self.entries[i].0.as_str(), key)
            invariant
                i <= self.entries@.len(),
                forall|j: int| 0 <= j < i ==> before((#[trigger] self.entries@[j]).0@, key@),
            decreases self.entries.len() - i,
        {
            i += 1;
        }
        if i < self.entries.len() && same(self.entries[i].0.as_str(), key) {
            proof {
                ascending_index(self.entries@, i as int);
            }
            return Ok(i);
        }
        proof {
            if i < self.entries@.len() {
                before_total(self.entries@[i as int].0@, key@);
            }
            assert forall|j: int| i <= j < self.entries@.len() implies before(
                key@,
                (#[trigger] self.entries@[j]).0@,
            ) by {
                if j > i {
                    assert(before(keys[i as int], keys[j]));
                    before_transitive(key@, keys[i as int], keys[j]);
                }
            }
            before_irreflexive(key@);
            assert forall|j: int| 0 <= j < keys.len() implies keys[j] != key@ by {
                if j < i {
                    assert(before(self.entries@[j].0@, key@));
                } else {
                    assert(before(key@, self.entries@[j].0@));
                }
            }
        }
        Err(i)
    }

    /// Whether the key is there.
    pub fn contains_key(&self, key: &str) -> (r: bool)
        requires
            self.wf(),
        ensures
            r == self@.dom().contains(key@),
    {
        self.find(key).is_ok()
    }

    /// The value of the key.
    pub fn get(&self, key: &str) -> (r: Option<&V>)
        requires
            self.wf(),
        ensures
            r is Some <==> self@.dom().contains(key@),
            r matches Some(v) ==> *v == self@[key@],
    {
        match self.find(key) {
            Ok(i) => Some(&self.entries[i].1),
            Err(_) => None,
        }
    }

    /// Sets the value of the key.
    pub fn insert(&mut self, key: &str, value: V)
        requires
            old(self).wf(),
        ensures
            final(self).wf(),
            final(self)@ == old(self)@.insert(key@, value),
    {
        let ghost was = self.entries@;
        match self.find(key) {
            Ok(i) => {
                let entry = (key.to_owned(), value);
                self.entries.set(i, entry);
                proof {
                    let now = self.entries@;
                    assert(entry_keys(now) =~= entry_keys(was));
                    assert forall|k: Seq<char>| #[trigger] entry_map(now).dom().contains(k) implies entry_map(
                        now,
                    )[k] == entry_map(was).insert(key@, value)[k] by {
                        let j = entry_keys(now).index_of(k);
                        assert(entry_keys(now)[j] == k);
                        ascending_index(now, j);
                        ascending_index(was, j);
                        ascending_index(was, i as int);
                    }
                    assert(entry_keys(was)[i as int] == key@);
                    assert(entry_map(now) =~= entry_map(was).insert(key@, value));
                }
            },
            Err(i) => {
                let entry = (key.to_owned(), value);
                self.entries.insert(i, entry);
                proof {
                    let now = self.entries@;
                    let keys = entry_keys(now);
                    assert forall|a: int, b: int| 0 <= a < b < keys.len() implies before(
                        #[trigger] keys[a],
                        #[trigger] keys[b],
                    ) by {
                        let x = if a < i { a } else { a - 1 };
                        let y = if b < i { b } else { b - 1 };
                        if a == i {
                            assert(keys[b] == was[b - 1].0@);
                        } else if b == i {
                            assert(keys[a] == was[a].0@);
                        } else {
                            assert(keys[a] == entry_keys(was)[x]);
                            assert(keys[b] == entry_keys(was)[y]);
                        }
                    }
                    assert(keys[i as int] == key@);
                    assert forall|k: Seq<char>| entry_map(now).dom().contains(k) == (entry_map(
                        was,
                    ).dom().contains(k) || k == key@) by {
                        if entry_map(was).dom().contains(k) {
                            let j = entry_keys(was).index_of(k);
                            assert(entry_keys(was)[j] == k);
                            let b = if j < i { j } else { j + 1 };
                            assert(keys[b] == k);
                        }
                        if entry_map(now).dom().contains(k) && k != key@ {
                            let b = keys.index_of(k);
                            assert(keys[b] == k);
                            let j = if b < i { b } else { b - 1 };
                            assert(entry_keys(was)[j] == k);
                        }
                    }
                    assert forall|k: Seq<char>| #[trigger] entry_map(now).dom().contains(k) implies entry_map(
                        now,
                    )[k] == entry_map(was).insert(key@, value)[k] by {
                        let b = keys.index_of(k);
                        assert(keys[b] == k);
                        ascending_index(now, b);
                        if k != key@ {
                            let j = if b < i { b } else { b - 1 };
                            assert(entry_keys(was)[j] == k);
                            ascending_index(was, j);
                        } else {
                            ascending_index(now, i as int);
                        }
                    }
                    assert(entry_map(now) =~= entry_map(was).insert(key@, value));
                }
            },
        }
    }

    /// Takes the key out.
    pub fn remove(&mut self, key: &str) -> (r: Option<V>)
        requires
            old(self).wf(),
        ensures
            final(self).wf(),
            final(self)@ == old(self)@.remove(key@),
            r is Some <==> old(self)@.dom().contains(key@),
            r matches Some(v) ==> v == old(self)@[key@],
    {
        let ghost was = self.entries@;
        match self.find(key) {
            Ok(i) => {
                let (_, value) = self.entries.remove(i);
                proof {
                    let now = self.entries@;
                    let keys = entry_keys(now);
                    assert forall|a: int, b: int| 0 <= a < b < keys.len() implies before(
                        #[trigger] keys[a],
                        #[trigger] keys[b],
                    ) by {
                        let x = if a < i { a } else { a + 1 };
                        let y = if b < i { b } else { b + 1 };
                        assert(keys[a] == entry_keys(was)[x]);
                        assert(keys[b] == entry_keys(was)[y]);
                    }
                    assert forall|k: Seq<char>| entry_map(now).dom().contains(k) == (entry_map(
                        was,
                    ).dom().contains(k) && k != key@) by {
                        if entry_map(was).dom().contains(k) && k != key@ {
                            let j = entry_keys(was).index_of(k);
                            assert(entry_keys(was)[j] == k);
                            let b = if j < i { j } else { j - 1 };
                            assert(keys[b] == k);
                        }
                        if entry_map(now).dom().contains(k) {
                            let b = keys.index_of(k);
                            assert(keys[b] == k);
                            let j = if b < i { b } else { b + 1 };
                            assert(entry_keys(was)[j] == k);
                            ascending_index(was, j);
                            ascending_index(was, i as int);
                        }
                    }
                    assert forall|k: Seq<char>| #[trigger] entry_map(now).dom().contains(k) implies entry_map(
                        now,
                    )[k] == entry_map(was)[k] by {
                        let b = keys.index_of(k);
                        assert(keys[b] == k);
                        ascending_index(now, b);
                        let j = if b < i { b } else { b + 1 };
                        assert(entry_keys(was)[j] == k);
                        ascending_index(was, j);
                    }
                    assert(entry_map(now) =~= entry_map(was).remove(key@));
                }
                Some(value)
            },
            Err(_) => {
                proof {
                    assert(entry_map(was).remove(key@) =~= entry_map(was));
                }
                None
            },
        }
    }
}

} // verus!
