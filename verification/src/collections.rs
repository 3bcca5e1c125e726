//! A map from text keys to values that remembers the order of insertion.

use vstd::prelude::*;
use crate::text::{listed, str_eq, contains_text};

verus! {

/// Whether no key occurs twice.
pub open spec fn distinct_keys<V>(s: Seq<(Seq<char>, V)>) -> bool {
    forall|i: int, j: int| 0 <= i < j < s.len() ==> (#[trigger] s[i]).0 != (#[trigger] s[j]).0
}

/// Whether `key` is a key of `s`.
pub open spec fn has_key<V>(s: Seq<(Seq<char>, V)>, key: Seq<char>) -> bool {
    exists|i: int| 0 <= i < s.len() && (#[trigger] s[i]).0 == key
}

/// Where `key` stands in `s`, if it is a key of `s`.
pub open spec fn index_of<V>(s: Seq<(Seq<char>, V)>, key: Seq<char>) -> int {
    choose|i: int| 0 <= i < s.len() && (#[trigger] s[i]).0 == key
}

/// The value under `key`.
pub open spec fn lookup<V>(s: Seq<(Seq<char>, V)>, key: Seq<char>) -> Option<V> {
    if has_key(s, key) {
        Some(s[index_of(s, key)].1)
    } else {
        None
    }
}

/// `s` with `value` under `key`: in the place of the old value where there
/// was one, at the end otherwise.
pub open spec fn put<V>(s: Seq<(Seq<char>, V)>, key: Seq<char>, value: V) -> Seq<(Seq<char>, V)> {
    if has_key(s, key) {
        s.update(index_of(s, key), (key, value))
    } else {
        s.push((key, value))
    }
}

/// `s` without `key`.
pub open spec fn without<V>(s: Seq<(Seq<char>, V)>, key: Seq<char>) -> Seq<(Seq<char>, V)> {
    if has_key(s, key) {
        s.remove(index_of(s, key))
    } else {
        s
    }
}

/// The entries of `s` whose key is (`keep` true) or is not (`keep` false)
/// among `keys`, in their order.
pub open spec fn select<V>(s: Seq<(Seq<char>, V)>, keys: Seq<String>, keep: bool) -> Seq<
    (Seq<char>, V),
>
    decreases s.len(),
{
    if s.len() == 0 {
        s
    } else {
        let rest = select(s.drop_last(), keys, keep);
        if listed(keys, s.last().0) == keep {
            rest.push(s.last())
        } else {
            rest
        }
    }
}

/// A selection holds keys of the list it was made from, and none twice.
pub proof fn lemma_select_distinct<V>(s: Seq<(Seq<char>, V)>, keys: Seq<String>, keep: bool)
    requires
        distinct_keys(s),
    ensures
        distinct_keys(select(s, keys, keep)),
        forall|key: Seq<char>| has_key(select(s, keys, keep), key) ==> has_key(s, key),
        select(s, keys, keep).len() <= s.len(),
    decreases s.len(),
{
    if s.len() > 0 {
        let front = s.drop_last();
        let rest = select(front, keys, keep);
        assert(distinct_keys(front)) by {
            assert forall|i: int, j: int| 0 <= i < j < front.len() implies (#[trigger] front[i]).0
                != (#[trigger] front[j]).0 by {
                assert(s[i].0 != s[j].0);
            }
        }
        lemma_select_distinct(front, keys, keep);
        let out = select(s, keys, keep);
        assert forall|key: Seq<char>| has_key(out, key) implies has_key(s, key) by {
            let i = index_of(out, key);
            if i < rest.len() {
                assert(rest[i].0 == key);
                assert(has_key(rest, key));
                assert(has_key(front, key));
                let k = index_of(front, key);
                assert(s[k].0 == key);
            } else {
                assert(s[s.len() - 1].0 == key);
            }
        }
        assert forall|i: int, j: int| 0 <= i < j < out.len() implies (#[trigger] out[i]).0 != (
        #[trigger] out[j]).0 by {
            if j < rest.len() {
                assert(rest[i].0 != rest[j].0);
            } else {
                assert(rest[i].0 == out[i].0);
                assert(has_key(rest, rest[i].0));
                assert(has_key(front, rest[i].0));
                let k = index_of(front, rest[i].0);
                assert(s[k].0 != s[s.len() - 1].0);
            }
        }
    }
}

/// In a list without repeated keys, a key stands at one place only.
pub proof fn lemma_index_of<V>(s: Seq<(Seq<char>, V)>, key: Seq<char>, i: int)
    requires
        distinct_keys(s),
        0 <= i < s.len(),
        s[i].0 == key,
    ensures
        has_key(s, key),
        index_of(s, key) == i,
        lookup(s, key) == Some(s[i].1),
{
    let j = index_of(s, key);
    if j < i {
        assert(s[j].0 != s[i].0);
    } else if i < j {
        assert(s[i].0 != s[j].0);
    }
}

/// After `put`, `key` has the new value and every other key what it had.
pub proof fn lemma_put<V>(s: Seq<(Seq<char>, V)>, key: Seq<char>, value: V)
    requires
        distinct_keys(s),
    ensures
        distinct_keys(put(s, key, value)),
        forall|k: Seq<char>|
            #[trigger] lookup(put(s, key, value), k) == if k == key {
                Some(value)
            } else {
                lookup(s, k)
            },
        forall|k: Seq<char>| #[trigger] has_key(put(s, key, value), k) == (k == key || has_key(s, k)),
{
    let t = put(s, key, value);
    let at = if has_key(s, key) {
        index_of(s, key)
    } else {
        s.len() as int
    };
    assert(t[at] == (key, value));
    assert forall|i: int, j: int| 0 <= i < j < t.len() implies (#[trigger] t[i]).0 != (#[trigger] t[j]).0 by {
        if i != at && j != at {
            assert(s[i].0 != s[j].0);
        } else if has_key(s, key) {
            assert(s[i].0 != s[j].0);
        } else if i == at {
        } else {
            assert(s[i].0 != key);
        }
    }
    assert forall|k: Seq<char>| #[trigger] has_key(t, k) == (k == key || has_key(s, k)) by {
        if has_key(t, k) {
            let i = index_of(t, k);
            if i != at {
                assert(s[i].0 == k);
            }
        }
        if has_key(s, k) {
            let i = index_of(s, k);
            assert(t[i].0 == k);
        }
    }
    assert forall|k: Seq<char>|
        #[trigger] lookup(t, k) == if k == key {
            Some(value)
        } else {
            lookup(s, k)
        } by {
        if k == key {
            lemma_index_of(t, k, at);
        } else if has_key(s, k) {
            let i = index_of(s, k);
            assert(t[i] == s[i]);
            lemma_index_of(t, k, i);
        }
    }
}

/// After `without`, `key` has no value and every other key what it had.
pub proof fn lemma_without<V>(s: Seq<(Seq<char>, V)>, key: Seq<char>)
    requires
        distinct_keys(s),
    ensures
        distinct_keys(without(s, key)),
        forall|k: Seq<char>|
            #[trigger] lookup(without(s, key), k) == if k == key {
                None
            } else {
                lookup(s, k)
            },
        forall|k: Seq<char>| #[trigger] has_key(without(s, key), k) == (k != key && has_key(s, k)),
{
    let t = without(s, key);
    if has_key(s, key) {
        let at = index_of(s, key);
        assert forall|i: int| 0 <= i < t.len() implies #[trigger] t[i] == s[if i < at {
            i
        } else {
            i + 1
        }] by {}
        assert forall|i: int, j: int| 0 <= i < j < t.len() implies (#[trigger] t[i]).0 != (
        #[trigger] t[j]).0 by {
            let i0 = if i < at { i } else { i + 1 };
            let j0 = if j < at { j } else { j + 1 };
            assert(s[i0].0 != s[j0].0);
        }
        assert forall|k: Seq<char>| #[trigger] has_key(t, k) == (k != key && has_key(s, k)) by {
            if has_key(t, k) {
                let i = index_of(t, k);
                let i0 = if i < at { i } else { i + 1 };
                assert(s[i0].0 == k);
                if k == key {
                    lemma_index_of(s, key, i0);
                }
            }
            if k != key && has_key(s, k) {
                let i0 = index_of(s, k);
                let i = if i0 < at { i0 } else { i0 - 1 };
                assert(t[i].0 == k);
            }
        }
        assert forall|k: Seq<char>|
            #[trigger] lookup(t, k) == if k == key {
                None
            } else {
                lookup(s, k)
            } by {
            if k != key && has_key(s, k) {
                let i0 = index_of(s, k);
                let i = if i0 < at { i0 } else { i0 - 1 };
                assert(t[i] == s[i0]);
                lemma_index_of(t, k, i);
            }
        }
    }
}

/// Whether two lists have the same keys in the same order, with values
/// that `r` relates.
pub open spec fn related<V, W>(
    s: Seq<(Seq<char>, V)>,
    t: Seq<(Seq<char>, W)>,
    r: spec_fn(V, W) -> bool,
) -> bool {
    &&& s.len() == t.len()
    &&& forall|i: int| 0 <= i < s.len() ==> (#[trigger] s[i]).0 == t[i].0 && r(s[i].1, t[i].1)
}

/// Selections from related lists are related.
pub proof fn lemma_select_related<V, W>(
    s: Seq<(Seq<char>, V)>,
    t: Seq<(Seq<char>, W)>,
    r: spec_fn(V, W) -> bool,
    keys: Seq<String>,
    keep: bool,
)
    requires
        related(s, t, r),
    ensures
        related(select(s, keys, keep), select(t, keys, keep), r),
    decreases s.len(),
{
    if s.len() > 0 {
        assert(related(s.drop_last(), t.drop_last(), r)) by {
            assert forall|i: int| 0 <= i < s.drop_last().len() implies (#[trigger] s.drop_last()[i]).0
                == t.drop_last()[i].0 && r(s.drop_last()[i].1, t.drop_last()[i].1) by {
                assert(s[i].0 == t[i].0);
            }
        }
        lemma_select_related(s.drop_last(), t.drop_last(), r, keys, keep);
        assert(s[s.len() - 1].0 == t[s.len() - 1].0);
    }
}

/// A map from text keys to values, in order of first insertion. No key
/// occurs twice.
#[derive(Debug)]
pub struct TextMap<V> {
    keys: Vec<String>,
    values: Vec<V>,
}

/// The entries that a list of keys and a list of values of the same length
/// make.
pub open spec fn zipped<V>(keys: Seq<String>, values: Seq<V>) -> Seq<(Seq<char>, V)> {
    Seq::new(keys.len(), |i: int| (keys[i]@, values[i]))
}

impl<V> View for TextMap<V> {
    type V = Seq<(Seq<char>, V)>;

    closed spec fn view(&self) -> Seq<(Seq<char>, V)> {
        zipped(self.keys@, self.values@)
    }
}

impl<V> TextMap<V> {
    /// Whether there is a value for every key.
    pub closed spec fn paired(self) -> bool {
        self.keys@.len() == self.values@.len()
    }

    /// What holds of every map: each key has its value, and no key occurs
    /// twice.
    #[verifier::type_invariant]
    pub open spec fn well_formed(self) -> bool {
        self.paired() && distinct_keys(self@)
    }

    /// The empty map.
    pub fn new() -> (r: Self)
        ensures
            r@ == Seq::<(Seq<char>, V)>::empty(),
    {
        let r = TextMap { keys: Vec::new(), values: Vec::new() };
        proof {
            assert(r@ =~= Seq::<(Seq<char>, V)>::empty());
        }
        r
    }

    /// The number of entries.
    pub fn len(&self) -> (r: usize)
        ensures
            r == self@.len(),
            distinct_keys(self@),
    {
        proof {
            use_type_invariant(self);
        }
        self.keys.len()
    }

    pub fn is_empty(&self) -> (r: bool)
        ensures
            r == (self@.len() == 0),
    {
        self.keys.len() == 0
    }

    /// The key of the `i`-th entry.
    pub fn key_at(&self, i: usize) -> (r: &String)
        requires
            i < self@.len(),
        ensures
            r@ == self@[i as int].0,
    {
        &self.keys[i]
    }

    /// The value of the `i`-th entry.
    pub fn value_at(&self, i: usize) -> (r: &V)
        requires
            i < self@.len(),
        ensures
            *r == self@[i as int].1,
    {
        proof {
            use_type_invariant(self);
        }
        &self.values[i]
    }

    /// The value of the `i`-th entry, to be changed in place.
    pub fn value_at_mut(&mut self, i: usize) -> (r: &mut V)
        requires
            i < old(self)@.len(),
        ensures
            *r == old(self)@[i as int].1,
            final(self)@ == old(self)@.update(i as int, (old(self)@[i as int].0, *final(r))),
    {
        proof {
            use_type_invariant(&*self);
            assert forall|value: V|
                distinct_keys(zipped(self.keys@, #[trigger] self.values@.update(i as int, value))) by {
                let after = zipped(self.keys@, self.values@.update(i as int, value));
                assert forall|a: int, b: int| 0 <= a < b < after.len() implies (#[trigger] after[a]).0
                    != (#[trigger] after[b]).0 by {
                    assert(self@[a].0 != self@[b].0);
                }
            }
            assert forall|value: V|
                #[trigger] zipped(self.keys@, self.values@.update(i as int, value)) == self@.update(
                    i as int,
                    (self@[i as int].0, value),
                ) by {
                assert(zipped(self.keys@, self.values@.update(i as int, value)) =~= self@.update(
                    i as int,
                    (self@[i as int].0, value),
                ));
            }
        }
        &mut self.values[i]
    }

    /// Where `key` stands.
    pub fn position(&self, key: &str) -> (r: Option<usize>)
        ensures
            match r {
                Some(i) => i < self@.len() && self@[i as int].0 == key@ && has_key(self@, key@)
                    && index_of(self@, key@) == i,
                None => !has_key(self@, key@),
            },
    {
        proof {
            use_type_invariant(self);
        }
        let mut i: usize = 0;
        while i < self.keys.len()
            invariant
                i <= self.keys@.len(),
                self@.len() == self.keys@.len(),
                distinct_keys(self@),
                forall|j: int| 0 <= j < i ==> (#[trigger] self@[j]).0 != key@,
            decreases self.keys.len() - i,
        {
            if str_eq(self.keys[i].as_str(), key) {
                proof {
                    lemma_index_of(self@, key@, i as int);
                }
                return Some(i);
            }
            i += 1;
        }
        None
    }

    pub fn contains_key(&self, key: &str) -> (r: bool)
        ensures
            r == has_key(self@, key@),
    {
        self.position(key).is_some()
    }

    /// The value under `key`.
    pub fn get(&self, key: &str) -> (r: Option<&V>)
        ensures
            match r {
                Some(v) => lookup(self@, key@) == Some(*v),
                None => lookup(self@, key@) is None,
            },
    {
        match self.position(key) {
            Some(i) => Some(self.value_at(i)),
            None => None,
        }
    }

    /// The value under `key`, to be changed in place.
    pub fn get_mut(&mut self, key: &str) -> (r: Option<&mut V>)
        ensures
            match r {
                Some(v) => has_key(old(self)@, key@) && *v == old(self)@[index_of(old(self)@, key@)].1
                    && final(self)@ == old(self)@.update(
                    index_of(old(self)@, key@),
                    (key@, *final(v)),
                ),
                None => !has_key(old(self)@, key@) && final(self)@ == old(self)@,
            },
    {
        match self.position(key) {
            Some(i) => Some(self.value_at_mut(i)),
            None => None,
        }
    }

    /// Puts `value` under `key`, in the place of the old value where there
    /// was one, at the end otherwise.
    pub fn insert(&mut self, key: String, value: V)
        ensures
            final(self)@ == put(old(self)@, key@, value),
    {
        proof {
            use_type_invariant(&*self);
        }
        let found = self.position(key.as_str());
        let ghost before = self@;
        let mut taken: TextMap<V> = TextMap::new();
        std::mem::swap(self, &mut taken);
        let TextMap { mut keys, mut values } = taken;
        proof {
            assert(zipped(keys@, values@) =~= before);
        }
        match found {
            Some(i) => {
                keys.set(i, key);
                values.set(i, value);
            },
            None => {
                keys.push(key);
                values.push(value);
            },
        }
        let ghost after = zipped(keys@, values@);
        proof {
            assert(after =~= put(before, key@, value));
            lemma_put(before, key@, value);
        }
        *self = TextMap { keys, values };
    }

    /// Takes `key` and its value out.
    pub fn remove(&mut self, key: &str) -> (r: Option<V>)
        ensures
            final(self)@ == without(old(self)@, key@),
            r == lookup(old(self)@, key@),
    {
        proof {
            use_type_invariant(&*self);
        }
        match self.position(key) {
            Some(i) => {
                let (_, value) = self.remove_at(i);
                Some(value)
            },
            None => None,
        }
    }

    /// Takes the `i`-th entry out.
    pub fn remove_at(&mut self, i: usize) -> (r: (String, V))
        requires
            i < old(self)@.len(),
        ensures
            final(self)@ == old(self)@.remove(i as int),
            r.0@ == old(self)@[i as int].0,
            r.1 == old(self)@[i as int].1,
    {
        proof {
            use_type_invariant(&*self);
        }
        let ghost before = self@;
        let mut taken: TextMap<V> = TextMap::new();
        std::mem::swap(self, &mut taken);
        let TextMap { mut keys, mut values } = taken;
        proof {
            assert(zipped(keys@, values@) =~= before);
        }
        let key = keys.remove(i);
        let value = values.remove(i);
        let ghost after = zipped(keys@, values@);
        proof {
            assert(after =~= before.remove(i as int));
            assert forall|a: int, b: int| 0 <= a < b < after.len() implies (#[trigger] after[a]).0
                != (#[trigger] after[b]).0 by {
                let a0 = if a < i { a } else { a + 1 };
                let b0 = if b < i { b } else { b + 1 };
                assert(before[a0].0 != before[b0].0);
            }
        }
        *self = TextMap { keys, values };
        (key, value)
    }

    /// Puts an entry back at place `i`. The key must be new.
    pub fn insert_at(&mut self, i: usize, key: String, value: V)
        requires
            i <= old(self)@.len(),
            !has_key(old(self)@, key@),
        ensures
            final(self)@ == old(self)@.insert(i as int, (key@, value)),
    {
        proof {
            use_type_invariant(&*self);
        }
        let ghost before = self@;
        let mut taken: TextMap<V> = TextMap::new();
        std::mem::swap(self, &mut taken);
        let TextMap { mut keys, mut values } = taken;
        proof {
            assert(zipped(keys@, values@) =~= before);
        }
        keys.insert(i, key);
        values.insert(i, value);
        let ghost after = zipped(keys@, values@);
        proof {
            assert(after =~= before.insert(i as int, (key@, value)));
            assert forall|a: int, b: int| 0 <= a < b < after.len() implies (#[trigger] after[a]).0
                != (#[trigger] after[b]).0 by {
                let a0 = if a < i { a } else { a - 1 };
                let b0 = if b < i { b } else { b - 1 };
                if a == i {
                    assert(before[b0].0 != key@);
                } else if b == i {
                    assert(before[a0].0 != key@);
                } else {
                    assert(before[a0].0 != before[b0].0);
                }
            }
        }
        *self = TextMap { keys, values };
    }

    /// Adds an entry at the end. The key must be new.
    pub fn push_new(&mut self, key: String, value: V)
        requires
            !has_key(old(self)@, key@),
        ensures
            final(self)@ == old(self)@.push((key@, value)),
    {
        let n = self.len();
        self.insert_at(n, key, value);
        proof {
            assert(old(self)@.insert(n as int, (key@, value)) =~= old(self)@.push((key@, value)));
        }
    }

    /// Removes every entry.
    pub fn clear(&mut self)
        ensures
            final(self)@ == Seq::<(Seq<char>, V)>::empty(),
    {
        let empty: TextMap<V> = TextMap::new();
        *self = empty;
    }

    /// Keeps the entries whose key is (`keep` true) or is not (`keep`
    /// false) among `keys`, in their order.
    pub fn retain_listed(&mut self, keys: &Vec<String>, keep: bool)
        ensures
            final(self)@ == select(old(self)@, keys@, keep),
    {
        proof {
            use_type_invariant(&*self);
        }
        let ghost before = self@;
        let mut taken: TextMap<V> = TextMap::new();
        std::mem::swap(self, &mut taken);
        let TextMap { keys: mut names, mut values } = taken;
        let ghost mut pos: int = 0;
        let mut i: usize = 0;
        proof {
            assert(zipped(names@, values@) =~= before);
            assert(before.take(0) =~= Seq::<(Seq<char>, V)>::empty());
            assert(before.skip(0) =~= before);
            assert(zipped(names@, values@) =~= select(before.take(0), keys@, keep) + before.skip(0));
        }
        while i < names.len()
            invariant
                0 <= pos <= before.len(),
                names@.len() == values@.len(),
                i == select(before.take(pos), keys@, keep).len(),
                zipped(names@, values@) == select(before.take(pos), keys@, keep) + before.skip(pos),
            decreases names.len() - i,
        {
            let ghost cur = zipped(names@, values@);
            proof {
                assert(cur.len() == i + before.len() - pos);
                assert(cur[i as int] == before.skip(pos)[0]);
                assert(before.take(pos + 1).drop_last() =~= before.take(pos));
                assert(before.take(pos + 1).last() == before[pos]);
                assert(cur[i as int].0 == names@[i as int]@);
            }
            if contains_text(keys, names[i].as_str()) == keep {
                proof {
                    assert(select(before.take(pos + 1), keys@, keep) == select(
                        before.take(pos),
                        keys@,
                        keep,
                    ).push(before[pos]));
                    assert(cur =~= select(before.take(pos + 1), keys@, keep) + before.skip(pos + 1));
                }
                i += 1;
            } else {
                proof {
                    assert(select(before.take(pos + 1), keys@, keep) == select(
                        before.take(pos),
                        keys@,
                        keep,
                    ));
                }
                names.remove(i);
                values.remove(i);
                proof {
                    let now = zipped(names@, values@);
                    assert(now =~= cur.remove(i as int));
                    assert(cur.remove(i as int) =~= select(before.take(pos), keys@, keep)
                        + before.skip(pos + 1));
                }
            }
            proof {
                pos = pos + 1;
            }
        }
        let ghost after = zipped(names@, values@);
        proof {
            assert(after.len() == i + before.len() - pos);
            assert(before.take(pos) =~= before);
            assert(after =~= select(before, keys@, keep));
            lemma_select_distinct(before, keys@, keep);
        }
        *self = TextMap { keys: names, values };
    }
}

impl<V: Clone> Clone for TextMap<V> {
    /// A copy with the same keys in the same order, each value cloned.
    fn clone(&self) -> (r: Self)
        ensures
            r@.len() == self@.len(),
            forall|i: int|
                0 <= i < self@.len() ==> (#[trigger] r@[i]).0 == self@[i].0 && cloned(
                    self@[i].1,
                    r@[i].1,
                ),
    {
        let n = self.len();
        let mut out: TextMap<V> = TextMap::new();
        let mut i: usize = 0;
        while i < n
            invariant
                i <= n == self@.len(),
                distinct_keys(self@),
                out@.len() == i,
                forall|k: int|
                    0 <= k < i ==> (#[trigger] out@[k]).0 == self@[k].0 && cloned(
                        self@[k].1,
                        out@[k].1,
                    ),
            decreases n - i,
        {
            let key = self.key_at(i).clone();
            let value = self.value_at(i).clone();
            proof {
                if has_key(out@, key@) {
                    let k = index_of(out@, key@);
                    assert(out@[k].0 == self@[k].0);
                    assert(self@[k].0 != self@[i as int].0);
                }
            }
            out.push_new(key, value);
            i += 1;
        }
        out
    }
}

} // verus!
