//! In-memory repository: the store behind each signed-in user's cipher and
//! folder state, keyed by the item id's string form.

use vstd::prelude::*;

use crate::backend::str_equals;

verus! {

/// No key occurs twice.
pub open spec fn distinct_keys<T>(s: Seq<(String, T)>) -> bool {
    forall|i: int, j: int| 0 <= i < j < s.len() ==> #[trigger] s[i].0@ != #[trigger] s[j].0@
}

/// The map the entries stand for.
pub open spec fn to_map<T>(s: Seq<(String, T)>) -> Map<Seq<char>, T>
    decreases s.len(),
{
    if s.len() == 0 {
        Map::empty()
    } else {
        to_map(s.drop_last()).insert(s.last().0@, s.last().1)
    }
}

/// `m` with each pair of `s` inserted in order (a later pair wins).
pub open spec fn insert_all<T>(m: Map<Seq<char>, T>, s: Seq<(String, T)>) -> Map<Seq<char>, T>
    decreases s.len(),
{
    if s.len() == 0 {
        m
    } else {
        insert_all(m, s.drop_last()).insert(s.last().0@, s.last().1)
    }
}

/// `m` without each key of `keys`.
pub open spec fn remove_all_keys<T>(m: Map<Seq<char>, T>, keys: Seq<String>) -> Map<Seq<char>, T>
    decreases keys.len(),
{
    if keys.len() == 0 {
        m
    } else {
        remove_all_keys(m, keys.drop_last()).remove(keys.last()@)
    }
}

proof fn lemma_to_map_keys<T>(s: Seq<(String, T)>, k: Seq<char>)
    requires
        distinct_keys(s),
    ensures
        to_map(s).contains_key(k) <==> exists|i: int| 0 <= i < s.len() && #[trigger] s[i].0@ == k,
        forall|i: int| 0 <= i < s.len() && #[trigger] s[i].0@ == k ==> to_map(s)[k] == s[i].1,
    decreases s.len(),
{
    if s.len() > 0 {
        let p = s.drop_last();
        assert forall|i: int, j: int| 0 <= i < j < p.len() implies #[trigger] p[i].0@ != #[trigger] p[j].0@ by {
            assert(s[i] == p[i] && s[j] == p[j]);
        }
        lemma_to_map_keys(p, k);
        if to_map(s).contains_key(k) && s.last().0@ != k {
            let i = choose|i: int| 0 <= i < p.len() && #[trigger] p[i].0@ == k;
            assert(s[i] == p[i]);
        }
        if exists|i: int| 0 <= i < s.len() && #[trigger] s[i].0@ == k {
            let i = choose|i: int| 0 <= i < s.len() && #[trigger] s[i].0@ == k;
            if i < s.len() - 1 {
                assert(p[i] == s[i]);
            }
        }
        assert forall|i: int| 0 <= i < s.len() && #[trigger] s[i].0@ == k implies to_map(s)[k] == s[i].1 by {
            if i < s.len() - 1 {
                assert(p[i] == s[i]);
                assert(s[i].0@ != s[s.len() - 1].0@);
            }
        }
    }
}

proof fn lemma_to_map_update<T>(s: Seq<(String, T)>, i: int, key: String, v: T)
    requires
        distinct_keys(s),
        0 <= i < s.len(),
        s[i].0@ == key@,
    ensures
        distinct_keys(s.update(i, (key, v))),
        to_map(s.update(i, (key, v))) =~= to_map(s).insert(key@, v),
{
    let u = s.update(i, (key, v));
    assert forall|a: int, b: int| 0 <= a < b < u.len() implies #[trigger] u[a].0@ != #[trigger] u[b].0@ by {
        assert(u[a].0@ == s[a].0@ && u[b].0@ == s[b].0@);
    }
    assert forall|k: Seq<char>| #[trigger] to_map(u).contains_key(k) <==> to_map(s).insert(key@, v).contains_key(k) by {
        lemma_to_map_keys(u, k);
        lemma_to_map_keys(s, k);
        if exists|j: int| 0 <= j < u.len() && #[trigger] u[j].0@ == k {
            let j = choose|j: int| 0 <= j < u.len() && #[trigger] u[j].0@ == k;
            assert(s[j].0@ == k);
        }
        if exists|j: int| 0 <= j < s.len() && #[trigger] s[j].0@ == k {
            let j = choose|j: int| 0 <= j < s.len() && #[trigger] s[j].0@ == k;
            assert(u[j].0@ == k);
        }
        if k == key@ {
            assert(u[i].0@ == k);
        }
    }
    assert forall|k: Seq<char>| #[trigger] to_map(u).contains_key(k) implies to_map(u)[k] == to_map(s).insert(key@, v)[k] by {
        lemma_to_map_keys(u, k);
        lemma_to_map_keys(s, k);
        let j = choose|j: int| 0 <= j < u.len() && #[trigger] u[j].0@ == k;
        if j == i {
            assert(u[j].1 == v);
        } else {
            assert(s[j].0@ == k);
            assert(u[j] == s[j]);
        }
    }
}

proof fn lemma_to_map_push<T>(s: Seq<(String, T)>, key: String, v: T)
    requires
        distinct_keys(s),
        !to_map(s).contains_key(key@),
    ensures
        distinct_keys(s.push((key, v))),
        to_map(s.push((key, v))) == to_map(s).insert(key@, v),
{
    let u = s.push((key, v));
    assert(u.drop_last() =~= s);
    lemma_to_map_keys(s, key@);
    assert forall|a: int, b: int| 0 <= a < b < u.len() implies #[trigger] u[a].0@ != #[trigger] u[b].0@ by {
        if b == s.len() {
            assert(u[a] == s[a]);
        } else {
            assert(u[a] == s[a] && u[b] == s[b]);
        }
    }
}

proof fn lemma_to_map_remove<T>(s: Seq<(String, T)>, i: int)
    requires
        distinct_keys(s),
        0 <= i < s.len(),
    ensures
        distinct_keys(s.remove(i)),
        to_map(s.remove(i)) =~= to_map(s).remove(s[i].0@),
{
    let r = s.remove(i);
    let key = s[i].0@;
    assert forall|a: int, b: int| 0 <= a < b < r.len() implies #[trigger] r[a].0@ != #[trigger] r[b].0@ by {
        let a2 = if a < i { a } else { a + 1 };
        let b2 = if b < i { b } else { b + 1 };
        assert(r[a] == s[a2] && r[b] == s[b2]);
    }
    assert forall|k: Seq<char>| #[trigger] to_map(r).contains_key(k) <==> to_map(s).remove(key).contains_key(k) by {
        lemma_to_map_keys(r, k);
        lemma_to_map_keys(s, k);
        if exists|j: int| 0 <= j < r.len() && #[trigger] r[j].0@ == k {
            let j = choose|j: int| 0 <= j < r.len() && #[trigger] r[j].0@ == k;
            let j2 = if j < i { j } else { j + 1 };
            assert(r[j] == s[j2]);
            assert(s[j2].0@ != s[i].0@);
        }
        if k != key && exists|j: int| 0 <= j < s.len() && #[trigger] s[j].0@ == k {
            let j = choose|j: int| 0 <= j < s.len() && #[trigger] s[j].0@ == k;
            let j2 = if j < i { j } else { j - 1 };
            assert(j != i);
            assert(r[j2] == s[j]);
        }
    }
    assert forall|k: Seq<char>| #[trigger] to_map(r).contains_key(k) implies to_map(r)[k] == to_map(s).remove(key)[k] by {
        lemma_to_map_keys(r, k);
        lemma_to_map_keys(s, k);
        let j = choose|j: int| 0 <= j < r.len() && #[trigger] r[j].0@ == k;
        let j2 = if j < i { j } else { j + 1 };
        assert(r[j] == s[j2]);
        assert(s[j2].0@ == k);
    }
}

/// `items` lists the items of `m` under `keys`, one item per key: the keys
/// are distinct keys of `m` and item `i` is the one stored under key `i`
/// (with as many items as `m` has keys, every key is listed once).
pub open spec fn lists_by_keys<T>(items: Seq<&T>, m: Map<Seq<char>, T>, keys: Seq<Seq<char>>) -> bool {
    &&& keys.len() == items.len()
    &&& forall|i: int, j: int| 0 <= i < j < keys.len() ==> keys[i] != keys[j]
    &&& forall|i: int| 0 <= i < keys.len() ==> m.contains_key(#[trigger] keys[i]) && *items[i] == m[keys[i]]
}

/// A keyed store with no key twice (its type invariant); its view is the
/// map from key to item.
pub struct MemoryRepo<T> {
    entries: Vec<(String, T)>,
}

impl<T> MemoryRepo<T> {
    #[verifier::type_invariant]
    spec fn wf(self) -> bool {
        distinct_keys(self.entries@)
    }

    pub closed spec fn view(&self) -> Map<Seq<char>, T> {
        to_map(self.entries@)
    }

    /// An empty store.
    pub fn new() -> (r: Self)
        ensures
            r.view() == Map::<Seq<char>, T>::empty(),
    {
        MemoryRepo { entries: Vec::new() }
    }

    fn position(&self, key: &str) -> (r: Option<usize>)
        ensures
            r matches Some(i) ==> i < self.entries@.len() && self.entries@[i as int].0@ == key@,
            r is None ==> !self.view().contains_key(key@),
    {
        proof {
            use_type_invariant(self);
            lemma_to_map_keys(self.entries@, key@);
        }
        let mut i: usize = 0;
        while i < self.entries.len()
            invariant
                i <= self.entries@.len(),
                forall|k: int| 0 <= k < i ==> #[trigger] self.entries@[k].0@ != key@,
            decreases self.entries@.len() - i,
        {
            if str_equals(self.entries[i].0.as_str(), key) {
                return Some(i);
            }
            i = i + 1;
        }
        None
    }

    /// The item stored under `key`.
    pub fn get(&self, key: &str) -> (r: Option<&T>)
        ensures
            (match r {
                Some(v) => self.view().contains_key(key@) && *v == self.view()[key@],
                None => !self.view().contains_key(key@),
            }),
    {
        match self.position(key) {
            Some(i) => {
                proof {
                    use_type_invariant(self);
                    lemma_to_map_keys(self.entries@, key@);
                }
                Some(&self.entries[i].1)
            },
            None => None,
        }
    }

    /// Number of stored items.
    pub fn len(&self) -> (n: usize)
        ensures
            n == self.view().len(),
    {
        proof {
            use_type_invariant(self);
            self.lemma_len();
        }
        self.entries.len()
    }

    proof fn lemma_len(&self)
        requires
            distinct_keys(self.entries@),
        ensures
            self.view().len() == self.entries@.len(),
            self.view().dom().finite(),
    {
        lemma_to_map_len(self.entries@);
    }

    /// Every stored item, each once.
    pub fn list(&self) -> (items: Vec<&T>)
        ensures
            items@.len() == self.view().len(),
            exists|keys: Seq<Seq<char>>| #[trigger] lists_by_keys(items@, self.view(), keys),
    {
        proof {
            use_type_invariant(self);
            self.lemma_len();
        }
        let mut items: Vec<&T> = Vec::new();
        let mut i: usize = 0;
        while i < self.entries.len()
            invariant
                i <= self.entries@.len(),
                items@.len() == i,
                forall|j: int| 0 <= j < i ==> #[trigger] items@[j] == self.entries@[j].1,
            decreases self.entries@.len() - i,
        {
            items.push(&self.entries[i].1);
            i = i + 1;
        }
        proof {
            use_type_invariant(self);
            let keys = Seq::new(self.entries@.len(), |j: int| self.entries@[j].0@);
            assert forall|j: int| 0 <= j < keys.len() implies self.view().contains_key(#[trigger] keys[j])
                && *items@[j] == self.view()[keys[j]] by {
                lemma_to_map_keys(self.entries@, keys[j]);
            }
            assert(lists_by_keys(items@, self.view(), keys));
        }
        items
    }

    /// Store `value` under `key`, replacing what was there.
    pub fn set(&mut self, key: String, value: T)
        ensures
            final(self).view() == old(self).view().insert(key@, value),
    {
        proof {
            use_type_invariant(&*self);
        }
        let found = self.position(key.as_str());
        let mut entries: Vec<(String, T)> = Vec::new();
        std::mem::swap(&mut entries, &mut self.entries);
        match found {
            Some(i) => {
                proof {
                    lemma_to_map_update(entries@, i as int, key, value);
                }
                entries.set(i, (key, value));
            },
            None => {
                proof {
                    lemma_to_map_push(entries@, key, value);
                }
                entries.push((key, value));
            },
        }
        self.entries = entries;
    }

    /// Store each pair in order (a later pair for the same key wins).
    pub fn set_bulk(&mut self, values: Vec<(String, T)>)
        ensures
            final(self).view() == insert_all(old(self).view(), values@),
    {
        let ghost start = self.view();
        let ghost all = values@;
        let mut rest = values;
        let n = rest.len();
        let mut j: usize = 0;
        assert(all.take(0) =~= Seq::<(String, T)>::empty());
        while rest.len() > 0
            invariant
                n == all.len(),
                j <= n,
                rest@ == all.skip(j as int),
                self.view() == insert_all(start, all.take(j as int)),
            decreases rest@.len(),
        {
            let (k, v) = rest.remove(0);
            proof {
                assert(all[j as int] == (k, v));
                assert(all.take(j + 1).drop_last() =~= all.take(j as int));
                assert(rest@ =~= all.skip(j + 1));
            }
            self.set(k, v);
            j = j + 1;
        }
        assert(all.take(j as int) =~= all);
    }

    /// Drop the item stored under `key`, if any.
    pub fn remove(&mut self, key: &str)
        ensures
            final(self).view() == old(self).view().remove(key@),
    {
        proof {
            use_type_invariant(&*self);
        }
        match self.position(key) {
            Some(i) => {
                let mut entries: Vec<(String, T)> = Vec::new();
                std::mem::swap(&mut entries, &mut self.entries);
                proof {
                    lemma_to_map_remove(entries@, i as int);
                }
                entries.remove(i);
                self.entries = entries;
            },
            None => {
                assert(self.view().remove(key@) =~= self.view());
            },
        }
    }

    /// Drop the items stored under each of `keys`.
    pub fn remove_bulk(&mut self, keys: Vec<String>)
        ensures
            final(self).view() == remove_all_keys(old(self).view(), keys@),
    {
        let ghost start = self.view();
        let mut j: usize = 0;
        assert(keys@.take(0) =~= Seq::<String>::empty());
        while j < keys.len()
            invariant
                j <= keys@.len(),
                self.view() == remove_all_keys(start, keys@.take(j as int)),
            decreases keys@.len() - j,
        {
            proof {
                assert(keys@.take(j + 1).drop_last() =~= keys@.take(j as int));
            }
            self.remove(keys[j].as_str());
            j = j + 1;
        }
        assert(keys@.take(j as int) =~= keys@);
    }

    /// Drop every item.
    pub fn remove_all(&mut self)
        ensures
            final(self).view() == Map::<Seq<char>, T>::empty(),
    {
        self.entries = Vec::new();
    }
}

proof fn lemma_to_map_len<T>(s: Seq<(String, T)>)
    requires
        distinct_keys(s),
    ensures
        to_map(s).dom().finite(),
        to_map(s).len() == s.len(),
    decreases s.len(),
{
    if s.len() > 0 {
        let p = s.drop_last();
        assert forall|i: int, j: int| 0 <= i < j < p.len() implies #[trigger] p[i].0@ != #[trigger] p[j].0@ by {
            assert(s[i] == p[i] && s[j] == p[j]);
        }
        lemma_to_map_len(p);
        lemma_to_map_keys(p, s.last().0@);
        if to_map(p).contains_key(s.last().0@) {
            let i = choose|i: int| 0 <= i < p.len() && #[trigger] p[i].0@ == s.last().0@;
            assert(s[i] == p[i]);
        }
    }
}

/// What a read gives back after a write: the written item under its key,
/// and every other key as before; after a removal the key reads as absent.
pub proof fn lemma_read_after_write<T>(m: Map<Seq<char>, T>, key: Seq<char>, value: T, other: Seq<char>)
    ensures
        m.insert(key, value).contains_key(key) && m.insert(key, value)[key] == value,
        other != key ==> m.insert(key, value).contains_key(other) == m.contains_key(other),
        other != key && m.contains_key(other) ==> m.insert(key, value)[other] == m[other],
        !m.remove(key).contains_key(key),
        other != key ==> m.remove(key).contains_key(other) == m.contains_key(other),
{
}

} // verus!
