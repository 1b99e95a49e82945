//! A keyed table over a vector, for keys whose equality is that of their views.

use vstd::prelude::*;

verus! {

/// A key that can be compared with another by its view.
pub trait TableKey: View + Sized {
    /// Whether the two keys have the same view.
    fn same(&self, other: &Self) -> (r: bool)
        ensures
            r == (self@ == other@),
    ;
}

/// A map from keys to values, in which every key stands once.
#[verifier::reject_recursive_types(K)]
#[verifier::reject_recursive_types(V)]
pub struct Table<K: TableKey, V: View> {
    entries: Vec<(K, V)>,
}

/// The map without the entries whose values satisfy `gone`.
pub open spec fn without<A, B>(m: Map<A, B>, gone: spec_fn(B) -> bool) -> Map<A, B> {
    Map::new(|k: A| m.contains_key(k) && !gone(m[k]), |k: A| m[k])
}

/// No two entries share a key.
spec fn distinct<K: TableKey, V: View>(s: Seq<(K, V)>) -> bool {
    forall|i: int, j: int| 0 <= i < j < s.len() ==> (#[trigger] s[i]).0@ != (#[trigger] s[j]).0@
}

/// Entry `i` stands under the key `k`.
spec fn holds_at<K: TableKey, V: View>(s: Seq<(K, V)>, k: K::V, i: int) -> bool {
    0 <= i < s.len() && s[i].0@ == k
}

/// The map that the entries stand for.
spec fn as_map<K: TableKey, V: View>(s: Seq<(K, V)>) -> Map<K::V, V::V> {
    Map::new(
        |k: K::V| exists|i: int| holds_at(s, k, i),
        |k: K::V| s[choose|i: int| holds_at(s, k, i)].1@,
    )
}

/// What the map says of the key of one entry.
proof fn lemma_entry<K: TableKey, V: View>(s: Seq<(K, V)>, i: int)
    requires
        distinct(s),
        0 <= i < s.len(),
    ensures
        as_map(s).contains_key(s[i].0@),
        as_map(s)[s[i].0@] == s[i].1@,
{
    let k = s[i].0@;
    assert(holds_at(s, k, i));
    let j = choose|j: int| holds_at(s, k, j);
    assert(holds_at(s, k, j));
    assert(j == i);
}

/// Replacing the value of an entry is an insertion into the map.
proof fn lemma_replace<K: TableKey, V: View>(s: Seq<(K, V)>, i: int, e: (K, V))
    requires
        distinct(s),
        0 <= i < s.len(),
        s[i].0@ == e.0@,
    ensures
        distinct(s.update(i, e)),
        as_map(s.update(i, e)) == as_map(s).insert(e.0@, e.1@),
{
    let t = s.update(i, e);
    let m = as_map(s).insert(e.0@, e.1@);
    assert forall|x: K::V| #[trigger] as_map(t).contains_key(x) implies m.contains_key(x)
        && as_map(t)[x] == m[x] by {
        let j = choose|j: int| holds_at(t, x, j);
        lemma_entry(t, j);
        lemma_entry(s, j);
    }
    assert forall|x: K::V| #[trigger] m.contains_key(x) implies as_map(t).contains_key(x) by {
        let j = if x == e.0@ { i } else { choose|j: int| holds_at(s, x, j) };
        lemma_entry(t, j);
    }
    assert(as_map(t) =~= m);
}

/// Adding an entry under a new key is an insertion into the map.
proof fn lemma_push<K: TableKey, V: View>(s: Seq<(K, V)>, e: (K, V))
    requires
        distinct(s),
        forall|i: int| !holds_at(s, e.0@, i),
    ensures
        distinct(s.push(e)),
        as_map(s.push(e)) == as_map(s).insert(e.0@, e.1@),
{
    let t = s.push(e);
    let m = as_map(s).insert(e.0@, e.1@);
    assert forall|i: int, j: int| 0 <= i < j < t.len() implies (#[trigger] t[i]).0@ != (
    #[trigger] t[j]).0@ by {
        assert(!holds_at(s, e.0@, i));
    }
    assert forall|x: K::V| #[trigger] as_map(t).contains_key(x) implies m.contains_key(x)
        && as_map(t)[x] == m[x] by {
        let j = choose|j: int| holds_at(t, x, j);
        lemma_entry(t, j);
        if j < s.len() {
            assert(!holds_at(s, e.0@, j));
            lemma_entry(s, j);
        }
    }
    assert forall|x: K::V| #[trigger] m.contains_key(x) implies as_map(t).contains_key(x) by {
        let j = if x == e.0@ { s.len() as int } else { choose|j: int| holds_at(s, x, j) };
        lemma_entry(t, j);
    }
    assert(as_map(t) =~= m);
}

/// Taking an entry out, with the last one moved into its place, is a removal from the map.
proof fn lemma_remove<K: TableKey, V: View>(s: Seq<(K, V)>, i: int)
    requires
        distinct(s),
        0 <= i < s.len(),
    ensures
        distinct(s.update(i, s.last()).drop_last()),
        as_map(s.update(i, s.last()).drop_last()) == as_map(s).remove(s[i].0@),
{
    let t = s.update(i, s.last()).drop_last();
    let n = t.len() as int;
    let m = as_map(s).remove(s[i].0@);
    assert(distinct(t));
    assert forall|x: K::V| #[trigger] as_map(t).contains_key(x) implies m.contains_key(x)
        && as_map(t)[x] == m[x] by {
        let j = choose|j: int| holds_at(t, x, j);
        lemma_entry(t, j);
        lemma_entry(s, if j == i { n } else { j });
    }
    assert forall|x: K::V| #[trigger] m.contains_key(x) implies as_map(t).contains_key(x) by {
        let j = choose|j: int| holds_at(s, x, j);
        lemma_entry(t, if j == n { i } else { j });
    }
    assert(as_map(t) =~= m);
}

impl<K: TableKey, V: View> View for Table<K, V> {
    type V = Map<K::V, V::V>;

    closed spec fn view(&self) -> Map<K::V, V::V> {
        as_map(self.entries@)
    }
}

impl<K: TableKey, V: View> Table<K, V> {
    #[verifier::type_invariant]
    closed spec fn keys_distinct(self) -> bool {
        distinct(self.entries@)
    }

    /// The empty table.
    pub fn new() -> (r: Self)
        ensures
            r@ == Map::<K::V, V::V>::empty(),
    {
        let r = Table { entries: Vec::new() };
        assert(r@ =~= Map::<K::V, V::V>::empty());
        r
    }

    /// The index of `key` among the entries.
    fn position(entries: &Vec<(K, V)>, key: &K) -> (r: Option<usize>)
        ensures
            match r {
                Some(i) => holds_at(entries@, key@, i as int),
                None => forall|i: int| !holds_at(entries@, key@, i),
            },
    {
        let mut i: usize = 0;
        while i < entries.len()
            invariant
                i <= entries.len(),
                forall|j: int| 0 <= j < i ==> !holds_at(entries@, key@, j),
            decreases entries.len() - i,
        {
            if entries[i].0.same(key) {
                return Some(i);
            }
            i = i + 1;
        }
        None
    }

    /// The value under `key`.
    pub fn get(&self, key: &K) -> (r: Option<&V>)
        ensures
            match r {
                Some(v) => self@.contains_key(key@) && self@[key@] == v@,
                None => !self@.contains_key(key@),
            },
    {
        proof {
            use_type_invariant(self);
        }
        match Self::position(&self.entries, key) {
            Some(i) => {
                proof {
                    lemma_entry(self.entries@, i as int);
                }
                Some(&self.entries[i].1)
            },
            None => None,
        }
    }

    /// Puts `value` under `key`, in place of what stood there.
    pub fn insert(&mut self, key: K, value: V)
        ensures
            final(self)@ == old(self)@.insert(key@, value@),
    {
        proof {
            use_type_invariant(&*self);
        }
        let ghost before = self.entries@;
        let mut entries: Vec<(K, V)> = Vec::new();
        std::mem::swap(&mut entries, &mut self.entries);
        match Self::position(&entries, &key) {
            Some(i) => {
                entries[i] = (key, value);
                proof {
                    lemma_replace(before, i as int, entries@[i as int]);
                }
            },
            None => {
                entries.push((key, value));
                proof {
                    lemma_push(before, entries@.last());
                }
            },
        }
        self.entries = entries;
    }

    /// Takes away what stands under `key`, if anything.
    pub fn remove(&mut self, key: &K)
        ensures
            final(self)@ == old(self)@.remove(key@),
    {
        proof {
            use_type_invariant(&*self);
        }
        let ghost before = self.entries@;
        let mut entries: Vec<(K, V)> = Vec::new();
        std::mem::swap(&mut entries, &mut self.entries);
        match Self::position(&entries, key) {
            Some(i) => {
                let _gone = entries.swap_remove(i);
                proof {
                    lemma_remove(before, i as int);
                }
            },
            None => {
                assert(as_map(before) =~= as_map(before).remove(key@));
            },
        }
        self.entries = entries;
    }

    /// Takes away every entry on whose value `gone` holds.
    pub fn remove_where<F: Fn(&V) -> bool>(
        &mut self,
        gone: F,
        Ghost(model): Ghost<spec_fn(V::V) -> bool>,
    )
        requires
            forall|v: &V| call_requires(gone, (v,)),
            forall|v: &V, r: bool| call_ensures(gone, (v,), r) ==> r == model(v@),
        ensures
            final(self)@ == without(old(self)@, model),
    {
        proof {
            use_type_invariant(&*self);
        }
        let ghost before = self.entries@;
        let mut entries: Vec<(K, V)> = Vec::new();
        std::mem::swap(&mut entries, &mut self.entries);
        let mut i: usize = 0;
        assert(without(as_map(entries@), model) =~= without(as_map(before), model));
        while i < entries.len()
            invariant
                i <= entries.len(),
                distinct(entries@),
                forall|j: int| 0 <= j < i ==> !model((#[trigger] entries@[j]).1@),
                without(as_map(entries@), model) == without(as_map(before), model),
                forall|v: &V| call_requires(gone, (v,)),
                forall|v: &V, r: bool| call_ensures(gone, (v,), r) ==> r == model(v@),
            decreases entries.len() - i,
        {
            if gone(&entries[i].1) {
                let ghost here = entries@;
                let _gone = entries.swap_remove(i);
                proof {
                    lemma_remove(here, i as int);
                    lemma_entry(here, i as int);
                    assert(without(as_map(entries@), model) =~= without(as_map(here), model));
                }
            } else {
                i = i + 1;
            }
        }
        proof {
            assert forall|x: K::V| #[trigger] as_map(entries@).contains_key(x) implies
                !model(as_map(entries@)[x]) by {
                let j = choose|j: int| holds_at(entries@, x, j);
                lemma_entry(entries@, j);
            }
            assert(as_map(entries@) =~= without(as_map(entries@), model));
        }
        self.entries = entries;
    }
}

} // verus!
