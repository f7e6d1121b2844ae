//! An insertion-ordered table from string keys to values, in which no key
//! occurs twice.

use vstd::prelude::*;

verus! {

// ---------------------------------------------------------------------------
// The model: a sequence of (key, value) pairs
// ---------------------------------------------------------------------------
/// A result with its value or its error taken by the view.
pub open spec fn result_view<T: View, E: View>(r: Result<T, E>) -> Result<T::V, E::V> {
    match r {
        Ok(value) => Ok(value@),
        Err(error) => Err(error@),
    }
}

/// An optional value taken by its view.
pub open spec fn option_view<T: View>(o: Option<T>) -> Option<T::V> {
    match o {
        Some(value) => Some(value@),
        None => None,
    }
}

/// Some entry of `entries` has the key `key`.
pub open spec fn has_key<T>(entries: Seq<(Seq<char>, T)>, key: Seq<char>) -> bool {
    exists|i: int| 0 <= i < entries.len() && (#[trigger] entries[i]).0 == key
}

/// `i` is the position of the first entry of `entries` with the key `key`.
pub open spec fn is_first<T>(entries: Seq<(Seq<char>, T)>, key: Seq<char>, i: int) -> bool {
    &&& 0 <= i < entries.len()
    &&& entries[i].0 == key
    &&& forall|j: int| 0 <= j < i ==> (#[trigger] entries[j]).0 != key
}

/// The position of the first entry with the key `key`, where there is one.
pub open spec fn position<T>(entries: Seq<(Seq<char>, T)>, key: Seq<char>) -> int {
    choose|i: int| is_first(entries, key, i)
}

/// The value of the first entry with the key `key`.
pub open spec fn lookup<T>(entries: Seq<(Seq<char>, T)>, key: Seq<char>) -> Option<T> {
    if has_key(entries, key) {
        Some(entries[position(entries, key)].1)
    } else {
        None
    }
}

/// `entries` after `key` was set to `value`: the first entry with that key
/// gets the value and keeps its place; without such an entry a new one is
/// added at the end.
pub open spec fn upsert<T>(entries: Seq<(Seq<char>, T)>, key: Seq<char>, value: T) -> Seq<
    (Seq<char>, T),
> {
    if has_key(entries, key) {
        entries.update(position(entries, key), (key, value))
    } else {
        entries.push((key, value))
    }
}

/// No key occurs twice in `entries`.
pub open spec fn distinct_keys<T>(entries: Seq<(Seq<char>, T)>) -> bool {
    forall|i: int, j: int|
        0 <= i < j < entries.len() ==> (#[trigger] entries[i]).0 != (#[trigger] entries[j]).0
}

/// The table that setting the pairs of `pairs` one after the other builds:
/// of two pairs with one key the later value stays, at the earlier place.
pub open spec fn collect<T>(pairs: Seq<(Seq<char>, T)>) -> Seq<(Seq<char>, T)>
    decreases pairs.len(),
{
    if pairs.len() == 0 {
        Seq::empty()
    } else {
        upsert(collect(pairs.drop_last()), pairs.last().0, pairs.last().1)
    }
}

/// The first position of a key is the only position that is first.
pub proof fn lemma_first_is_position<T>(entries: Seq<(Seq<char>, T)>, key: Seq<char>, i: int)
    requires
        is_first(entries, key, i),
    ensures
        has_key(entries, key),
        position(entries, key) == i,
{
    let p = position(entries, key);
    assert(is_first(entries, key, p));
    if p < i {
        assert(entries[p].0 != key);
    } else if i < p {
        assert(entries[i].0 != key);
    }
}

/// A key that occurs has a first position.
pub proof fn lemma_has_key_has_first<T>(entries: Seq<(Seq<char>, T)>, key: Seq<char>)
    requires
        has_key(entries, key),
    ensures
        is_first(entries, key, position(entries, key)),
{
    let w = choose|i: int| 0 <= i < entries.len() && (#[trigger] entries[i]).0 == key;
    lemma_first_before(entries, key, w);
}

/// Below a position that holds `key` there is a first position of `key`.
proof fn lemma_first_before<T>(entries: Seq<(Seq<char>, T)>, key: Seq<char>, w: int)
    requires
        0 <= w < entries.len(),
        entries[w].0 == key,
    ensures
        exists|i: int| is_first(entries, key, i),
    decreases w,
{
    if exists|j: int| 0 <= j < w && (#[trigger] entries[j]).0 == key {
        let j = choose|j: int| 0 <= j < w && (#[trigger] entries[j]).0 == key;
        lemma_first_before(entries, key, j);
    } else {
        assert(is_first(entries, key, w));
    }
}

/// Setting a key keeps the keys distinct.
pub proof fn lemma_upsert_distinct<T>(entries: Seq<(Seq<char>, T)>, key: Seq<char>, value: T)
    requires
        distinct_keys(entries),
    ensures
        distinct_keys(upsert(entries, key, value)),
{
    let after = upsert(entries, key, value);
    if has_key(entries, key) {
        lemma_has_key_has_first(entries, key);
        let p = position(entries, key);
        assert forall|i: int, j: int| 0 <= i < j < after.len() implies (#[trigger] after[i]).0 != (
        #[trigger] after[j]).0 by {
            assert(after[i].0 == entries[i].0);
            assert(after[j].0 == entries[j].0);
        }
    } else {
        assert forall|i: int, j: int| 0 <= i < j < after.len() implies (#[trigger] after[i]).0 != (
        #[trigger] after[j]).0 by {
            assert(after[i] == entries[i]);
            if j < entries.len() {
                assert(after[j] == entries[j]);
            }
        }
    }
}

/// After a key was set, every entry is one that was there before or the one
/// that was set.
pub proof fn lemma_upsert_entries<T>(entries: Seq<(Seq<char>, T)>, key: Seq<char>, value: T, k: int)
    requires
        0 <= k < upsert(entries, key, value).len(),
    ensures
        upsert(entries, key, value)[k] == (key, value) || (k < entries.len() && upsert(
            entries,
            key,
            value,
        )[k] == entries[k]),
{
    if has_key(entries, key) {
        lemma_has_key_has_first(entries, key);
    }
}

/// What `collect` builds has distinct keys.
pub proof fn lemma_collect_distinct<T>(pairs: Seq<(Seq<char>, T)>)
    ensures
        distinct_keys(collect(pairs)),
    decreases pairs.len(),
{
    if pairs.len() > 0 {
        lemma_collect_distinct(pairs.drop_last());
        lemma_upsert_distinct(collect(pairs.drop_last()), pairs.last().0, pairs.last().1);
    }
}

/// After a key was set, looking it up gives the value, and every other key
/// is found as before.
pub proof fn lemma_lookup_upsert<T>(
    entries: Seq<(Seq<char>, T)>,
    key: Seq<char>,
    value: T,
    other: Seq<char>,
)
    ensures
        lookup(upsert(entries, key, value), key) == Some(value),
        other != key ==> lookup(upsert(entries, key, value), other) == lookup(entries, other),
{
    let after = upsert(entries, key, value);
    if has_key(entries, key) {
        lemma_has_key_has_first(entries, key);
        let p = position(entries, key);
        assert(after[p] == (key, value));
        assert forall|j: int| 0 <= j < p implies (#[trigger] after[j]).0 != key by {
            assert(after[j] == entries[j]);
        }
        assert(is_first(after, key, p));
        lemma_first_is_position(after, key, p);
    } else {
        let p = entries.len() as int;
        assert(after[p] == (key, value));
        assert forall|j: int| 0 <= j < p implies (#[trigger] after[j]).0 != key by {
            assert(after[j] == entries[j]);
        }
        assert(is_first(after, key, p));
        lemma_first_is_position(after, key, p);
    }
    if other != key {
        assert forall|j: int| 0 <= j < entries.len() implies ((#[trigger] after[j]).0 == other <==> (
        #[trigger] entries[j]).0 == other) by {
            if after[j] != entries[j] {
                assert(after[j].0 == key);
                assert(entries[j].0 == key);
            }
        }
        if has_key(entries, other) {
            lemma_has_key_has_first(entries, other);
            let q = position(entries, other);
            assert(after[q].0 == other);
            assert(after[q] == entries[q]);
            assert forall|j: int| 0 <= j < q implies (#[trigger] after[j]).0 != other by {
                assert(entries[j].0 != other);
            }
            assert(is_first(after, other, q));
            lemma_first_is_position(after, other, q);
        } else {
            if has_key(after, other) {
                let w = choose|i: int| 0 <= i < after.len() && (#[trigger] after[i]).0 == other;
                if w < entries.len() {
                    assert(entries[w].0 == other);
                }
                assert(false);
            }
        }
    }
}

/// The pairs of `entries`, each key and each value by its view.
pub open spec fn pairs_view<V: View>(entries: Seq<(String, V)>) -> Seq<(Seq<char>, V::V)> {
    Seq::new(entries.len(), |i: int| (entries[i].0@, entries[i].1@))
}

/// The position of the first pair of `entries` with the key `key`, if there
/// is one.
pub fn find_first<V: View>(entries: &Vec<(String, V)>, key: &str) -> (r: Option<usize>)
    ensures
        match r {
            Some(i) => is_first(pairs_view(entries@), key@, i as int),
            None => !has_key(pairs_view(entries@), key@),
        },
{
    let wanted = key.to_owned();
    let mut i: usize = 0;
    while i < entries.len()
        invariant
            i <= entries.len(),
            wanted@ == key@,
            forall|j: int| 0 <= j < i ==> (#[trigger] pairs_view(entries@)[j]).0 != key@,
        decreases entries.len() - i,
    {
        if entries[i].0 == wanted {
            return Some(i);
        }
        i += 1;
    }
    None
}

// ---------------------------------------------------------------------------
// The table
// ---------------------------------------------------------------------------
/// A table from string keys to values. It keeps its entries in the order in
/// which their keys first came, and holds no key twice.
pub struct KeyedTable<V: View> {
    entries: Vec<(String, V)>,
}

impl<V: View> View for KeyedTable<V> {
    type V = Seq<(Seq<char>, V::V)>;

    closed spec fn view(&self) -> Self::V {
        pairs_view(self.entries@)
    }
}

impl<V: View> KeyedTable<V> {
    #[verifier::type_invariant]
    spec fn keys_are_distinct(self) -> bool {
        distinct_keys(self@)
    }

    /// The empty table.
    pub fn new() -> (t: Self)
        ensures
            t@ == Seq::<(Seq<char>, V::V)>::empty(),
    {
        let t = KeyedTable { entries: Vec::new() };
        assert(pairs_view(t.entries@) =~= Seq::<(Seq<char>, V::V)>::empty());
        t
    }

    /// The number of entries.
    pub fn len(&self) -> (n: usize)
        ensures
            n == self@.len(),
    {
        self.entries.len()
    }

    /// The entries in their order. No two of them have the same key.
    pub fn entries(&self) -> (e: &Vec<(String, V)>)
        ensures
            pairs_view(e@) == self@,
            distinct_keys(self@),
    {
        proof {
            use_type_invariant(self);
        }
        &self.entries
    }

    /// The position of the entry with the key `key`, if there is one.
    pub fn index_of(&self, key: &str) -> (r: Option<usize>)
        ensures
            match r {
                Some(i) => is_first(self@, key@, i as int),
                None => !has_key(self@, key@),
            },
    {
        find_first(&self.entries, key)
    }

    /// The value under `key`, if there is one.
    pub fn get(&self, key: &str) -> (r: Option<&V>)
        ensures
            match r {
                Some(v) => lookup(self@, key@) == Some(v@),
                None => lookup(self@, key@) is None,
            },
    {
        match self.index_of(key) {
            Some(i) => {
                proof {
                    lemma_first_is_position(self@, key@, i as int);
                }
                Some(&self.entries[i].1)
            },
            None => None,
        }
    }

    /// Sets `key` to `value`. An entry that had the key keeps its place and
    /// gets the value; a new key goes to the end.
    pub fn insert(&mut self, key: String, value: V)
        ensures
            final(self)@ == upsert(old(self)@, key@, value@),
    {
        proof {
            use_type_invariant(&*self);
            lemma_upsert_distinct(self@, key@, value@);
        }
        let found = self.index_of(key.as_str());
        let ghost before = self.entries@;
        let mut entries: Vec<(String, V)> = Vec::new();
        assert(pairs_view(entries@) =~= Seq::<(Seq<char>, V::V)>::empty());
        core::mem::swap(&mut self.entries, &mut entries);
        match found {
            Some(i) => {
                proof {
                    lemma_first_is_position(pairs_view(before), key@, i as int);
                }
                entries.set(i, (key, value));
            },
            None => {
                entries.push((key, value));
            },
        }
        assert(pairs_view(entries@) =~= upsert(pairs_view(before), key@, value@));
        self.entries = entries;
    }
}

} // verus!
