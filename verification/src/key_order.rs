//! Lists of entries in the order of their keys, one entry for each key.
use crate::text::{before, before_irreflexive, before_total, before_transitive, precedes, same};
use crate::text_map::ascending;
use vstd::prelude::*;

verus! {

/// An entry with a key.
pub trait Keyed: Sized {
    /// The key over characters.
    spec fn key_view(&self) -> Seq<char>;

    /// The key.
    fn key(&self) -> (r: &str)
        ensures
            r@ == self.key_view(),
    ;
}

impl Keyed for (String, String) {
    open spec fn key_view(&self) -> Seq<char> {
        self.0@
    }

    fn key(&self) -> (r: &str) {
        self.0.as_str()
    }
}

/// The keys of the entries.
pub open spec fn keys_of<T: Keyed>(entries: Seq<T>) -> Seq<Seq<char>> {
    entries.map_values(|e: T| e.key_view())
}

/// A list in the order of its keys with one more entry, in the place of that of the
/// same key where there is one.
pub open spec fn with_entry<T: Keyed>(entries: Seq<T>, e: T) -> Seq<T>
    decreases entries.len(),
{
    if entries.len() == 0 {
        seq![e]
    } else if entries.last().key_view() == e.key_view() {
        entries.drop_last().push(e)
    } else if before(entries.last().key_view(), e.key_view()) {
        entries.push(e)
    } else {
        with_entry(entries.drop_last(), e).push(entries.last())
    }
}

/// The entries in the order of their keys; of two for one key, the later.
pub open spec fn by_key<T: Keyed>(entries: Seq<T>) -> Seq<T>
    decreases entries.len(),
{
    if entries.len() == 0 {
        Seq::empty()
    } else {
        with_entry(by_key(entries.drop_last()), entries.last())
    }
}

proof fn with_entry_ascends<T: Keyed>(entries: Seq<T>, e: T)
    requires
        ascending(keys_of(entries)),
    ensures
        ascending(keys_of(with_entry(entries, e))),
        with_entry(entries, e).len() > 0,
        forall|i: int|
            0 <= i < with_entry(entries, e).len() ==> {
                let x = #[trigger] with_entry(entries, e)[i];
                x == e || (entries.contains(x) && x.key_view() != e.key_view())
            },
        with_entry(entries, e).contains(e),
        forall|x: T|
            entries.contains(x) && x.key_view() != e.key_view() ==> #[trigger] with_entry(
                entries,
                e,
            ).contains(x),
    decreases entries.len(),
{
    let r = with_entry(entries, e);
    let keys = keys_of(entries);
    if entries.len() == 0 {
        assert(r[0] == e);
    } else {
        let n = entries.len() - 1;
        let shorter = entries.drop_last();
        let last = entries.last();
        assert(keys[n] == last.key_view());
        assert forall|i: int, j: int| 0 <= i < j < keys_of(shorter).len() implies before(
            #[trigger] keys_of(shorter)[i],
            #[trigger] keys_of(shorter)[j],
        ) by {
            assert(keys[i] == keys_of(shorter)[i] && keys[j] == keys_of(shorter)[j]);
        }
        assert forall|i: int| 0 <= i < n implies before(
            #[trigger] entries[i].key_view(),
            last.key_view(),
        ) by {
            assert(before(keys[i], keys[n]));
        }
        before_irreflexive(last.key_view());
        if last.key_view() == e.key_view() {
            assert(r =~= shorter.push(e));
            assert(keys_of(r) =~= keys);
            assert(r[n] == e);
            assert forall|i: int| 0 <= i < r.len() implies {
                let x = #[trigger] r[i];
                x == e || (entries.contains(x) && x.key_view() != e.key_view())
            } by {
                if i < n {
                    assert(r[i] == entries[i]);
                    assert(before(entries[i].key_view(), last.key_view()));
                }
            }
            assert forall|x: T| entries.contains(x) && x.key_view() != e.key_view() implies
                #[trigger] r.contains(x) by {
                let k = choose|k: int| 0 <= k < entries.len() && entries[k] == x;
                assert(r[k] == x);
            }
        } else if before(last.key_view(), e.key_view()) {
            assert(r =~= entries.push(e));
            assert(r[n + 1] == e);
            assert forall|i: int, j: int| 0 <= i < j < keys_of(r).len() implies before(
                #[trigger] keys_of(r)[i],
                #[trigger] keys_of(r)[j],
            ) by {
                if j <= n {
                    assert(keys_of(r)[i] == keys[i] && keys_of(r)[j] == keys[j]);
                } else if i < n {
                    assert(before(entries[i].key_view(), last.key_view()));
                    before_transitive(entries[i].key_view(), last.key_view(), e.key_view());
                }
            }
            before_irreflexive(e.key_view());
            assert forall|i: int| 0 <= i < r.len() implies {
                let x = #[trigger] r[i];
                x == e || (entries.contains(x) && x.key_view() != e.key_view())
            } by {
                if i <= n {
                    assert(r[i] == entries[i]);
                    if i < n {
                        assert(before(entries[i].key_view(), last.key_view()));
                        before_transitive(entries[i].key_view(), last.key_view(), e.key_view());
                    }
                }
            }
            assert forall|x: T| entries.contains(x) && x.key_view() != e.key_view() implies
                #[trigger] r.contains(x) by {
                let k = choose|k: int| 0 <= k < entries.len() && entries[k] == x;
                assert(r[k] == x);
            }
        } else {
            before_total(last.key_view(), e.key_view());
            with_entry_ascends(shorter, e);
            let inner = with_entry(shorter, e);
            let m = inner.len() as int;
            assert(r =~= inner.push(last));
            assert(r[m] == last);
            assert forall|i: int| 0 <= i < m implies before(
                #[trigger] inner[i].key_view(),
                last.key_view(),
            ) by {
                if inner[i] != e {
                    let k = choose|k: int| 0 <= k < shorter.len() && shorter[k] == inner[i];
                    assert(entries[k] == inner[i]);
                    assert(before(entries[k].key_view(), last.key_view()));
                }
            }
            assert forall|i: int, j: int| 0 <= i < j < keys_of(r).len() implies before(
                #[trigger] keys_of(r)[i],
                #[trigger] keys_of(r)[j],
            ) by {
                if j < m {
                    assert(keys_of(r)[i] == keys_of(inner)[i] && keys_of(r)[j] == keys_of(
                        inner,
                    )[j]);
                } else {
                    assert(before(inner[i].key_view(), last.key_view()));
                }
            }
            assert forall|i: int| 0 <= i < r.len() implies {
                let x = #[trigger] r[i];
                x == e || (entries.contains(x) && x.key_view() != e.key_view())
            } by {
                if i < m {
                    assert(r[i] == inner[i]);
                    if inner[i] != e {
                        let k = choose|k: int| 0 <= k < shorter.len() && shorter[k] == inner[i];
                        assert(entries[k] == inner[i]);
                    }
                } else {
                    assert(entries[n] == last);
                }
            }
            let k = choose|k: int| 0 <= k < inner.len() && inner[k] == e;
            assert(r[k] == e);
            assert forall|x: T| entries.contains(x) && x.key_view() != e.key_view() implies
                #[trigger] r.contains(x) by {
                let k = choose|k: int| 0 <= k < entries.len() && entries[k] == x;
                if k < n {
                    assert(shorter[k] == x);
                    assert(inner.contains(x));
                    let j = choose|j: int| 0 <= j < inner.len() && inner[j] == x;
                    assert(r[j] == x);
                } else {
                    assert(r[m] == x);
                }
            }
        }
    }
}

/// No later entry of a list has the key of the one at `i`.
pub open spec fn latest<T: Keyed>(entries: Seq<T>, i: int) -> bool {
    0 <= i < entries.len() && forall|j: int|
        i < j < entries.len() ==> (#[trigger] entries[j]).key_view() != entries[i].key_view()
}

/// The keys ascend, so that each stands once. What is there is the latest entry of its
/// key, and the latest entry of every key is there.
pub proof fn by_key_holds_the_latest_in_order<T: Keyed>(entries: Seq<T>)
    ensures
        ascending(keys_of(by_key(entries))),
        forall|i: int|
            0 <= i < by_key(entries).len() ==> exists|k: int|
                #![trigger entries[k]]
                latest(entries, k) && entries[k] == #[trigger] by_key(entries)[i],
        forall|k: int| #[trigger] latest(entries, k) ==> by_key(entries).contains(entries[k]),
    decreases entries.len(),
{
    let r = by_key(entries);
    if entries.len() == 0 {
        assert(keys_of(r) =~= Seq::empty());
    } else {
        let n = entries.len() - 1;
        let shorter = entries.drop_last();
        let e = entries.last();
        let was = by_key(shorter);
        by_key_holds_the_latest_in_order(shorter);
        with_entry_ascends(was, e);
        assert forall|i: int| 0 <= i < r.len() implies exists|k: int|
            #![trigger entries[k]]
            latest(entries, k) && entries[k] == #[trigger] r[i] by {
            if r[i] == e {
                assert(latest(entries, n) && entries[n] == r[i]);
            } else {
                let at = choose|at: int| 0 <= at < was.len() && was[at] == r[i];
                let k = choose|k: int|
                    #![trigger shorter[k]]
                    latest(shorter, k) && shorter[k] == was[at];
                assert(entries[k] == shorter[k]);
                assert forall|j: int| k < j < entries.len() implies (
                #[trigger] entries[j]).key_view() != entries[k].key_view() by {
                    if j < n {
                        assert(entries[j] == shorter[j]);
                    }
                }
                assert(latest(entries, k) && entries[k] == r[i]);
            }
        }
        assert forall|k: int| #[trigger] latest(entries, k) implies r.contains(entries[k]) by {
            if k < n {
                assert(entries[n].key_view() != entries[k].key_view());
                assert(shorter[k] == entries[k]);
                assert forall|j: int| k < j < shorter.len() implies (
                #[trigger] shorter[j]).key_view() != shorter[k].key_view() by {
                    assert(entries[j] == shorter[j]);
                }
                assert(latest(shorter, k));
                assert(was.contains(shorter[k]));
            }
        }
    }
}

/// A list whose keys ascend stays as it is.
pub proof fn a_list_in_order_is_kept<T: Keyed>(entries: Seq<T>)
    requires
        ascending(keys_of(entries)),
    ensures
        by_key(entries) == entries,
    decreases entries.len(),
{
    if entries.len() > 0 {
        let shorter = entries.drop_last();
        let n = entries.len() - 1;
        let keys = keys_of(entries);
        assert forall|i: int, j: int| 0 <= i < j < keys_of(shorter).len() implies before(
            #[trigger] keys_of(shorter)[i],
            #[trigger] keys_of(shorter)[j],
        ) by {
            assert(keys[i] == keys_of(shorter)[i] && keys[j] == keys_of(shorter)[j]);
        }
        a_list_in_order_is_kept(shorter);
        if n > 0 {
            assert(before(keys[n - 1], keys[n]));
            before_irreflexive(keys[n]);
            assert(shorter.last().key_view() == keys[n - 1]);
        }
        assert(shorter.push(entries.last()) =~= entries);
        assert(by_key(entries) =~= entries);
    } else {
        assert(by_key(entries) =~= entries);
    }
}

fn put_entry<T: Keyed>(entries: &mut Vec<T>, e: T)
    ensures
        final(entries)@ == with_entry(old(entries)@, e),
{
    let ghost was = entries@;
    let mut at: usize = entries.len();
    proof {
        assert(was.take(at as int) =~= was);
        assert(with_entry(was, e) =~= with_entry(was.take(at as int), e) + was.skip(at as int));
    }
    while at > 0 && !same(entries[at - 1].key(), e.key()) && !precedes(
        entries[at - 1].key(),
        e.key(),
    )
        invariant
            was == entries@,
            at <= was.len(),
            with_entry(was, e) == with_entry(was.take(at as int), e) + was.skip(at as int),
        decreases at,
    {
        proof {
            let part = was.take(at as int);
            assert(part.drop_last() =~= was.take(at - 1));
            assert(part.last() == was[at - 1]);
            assert(with_entry(part, e) == with_entry(was.take(at - 1), e).push(was[at - 1]));
            assert(with_entry(was.take(at - 1), e).push(was[at - 1]) + was.skip(at as int)
                =~= with_entry(was.take(at - 1), e) + was.skip(at - 1));
        }
        at -= 1;
    }
    proof {
        if at > 0 {
            assert(was.take(at as int).last() == was[at - 1]);
            assert(was.take(at as int).drop_last() =~= was.take(at - 1));
        }
    }
    if at > 0 && same(entries[at - 1].key(), e.key()) {
        entries.set(at - 1, e);
        proof {
            assert(entries@ =~= was.take(at - 1).push(e) + was.skip(at as int));
        }
    } else {
        entries.insert(at, e);
        proof {
            assert(with_entry(was.take(at as int), e) =~= was.take(at as int).push(e));
            assert(entries@ =~= was.take(at as int).push(e) + was.skip(at as int));
        }
    }
}

/// Puts a list in the order of its keys; of two entries for one key the later stays.
pub fn in_key_order<T: Keyed>(list: Vec<T>) -> (r: Vec<T>)
    ensures
        r@ == by_key(list@),
{
    let ghost all = list@;
    let mut rest: Vec<T> = list;
    let mut r: Vec<T> = Vec::new();
    let ghost mut i: int = 0;
    proof {
        assert(all.skip(0) =~= all);
        assert(all.take(0) =~= Seq::empty());
    }
    while rest.len() > 0
        invariant
            0 <= i <= all.len(),
            rest@ == all.skip(i),
            r@ == by_key(all.take(i)),
        decreases rest.len(),
    {
        let e: T = rest.remove(0);
        proof {
            assert(all.take(i + 1).drop_last() =~= all.take(i));
            assert(all.take(i + 1).last() == all[i]);
            assert(rest@ =~= all.skip(i + 1));
        }
        put_entry(&mut r, e);
        proof {
            i = i + 1;
        }
    }
    proof {
        assert(all.take(i) =~= all);
    }
    r
}

} // verus!
