//! String-keyed maps held as association lists with distinct keys.

use vstd::prelude::*;
use crate::text::str_eq;

verus! {

/// The map that an association list denotes: later pairs override earlier
/// pairs with the same key.
pub open spec fn alist_map<K, V>(s: Seq<(K, V)>) -> Map<K, V>
    decreases s.len(),
{
    if s.len() == 0 {
        Map::empty()
    } else {
        alist_map(s.drop_last()).insert(s.last().0, s.last().1)
    }
}

/// Whether no key occurs twice in an association list.
pub open spec fn keys_distinct<K, V>(s: Seq<(K, V)>) -> bool {
    forall|i: int, j: int| 0 <= i < j < s.len() ==> s[i].0 != s[j].0
}

/// A key is in the map exactly when some pair holds it.
pub proof fn lemma_alist_dom<K, V>(s: Seq<(K, V)>, k: K)
    ensures
        alist_map(s).contains_key(k) <==> exists|i: int| 0 <= i < s.len() && s[i].0 == k,
    decreases s.len(),
{
    if s.len() > 0 {
        lemma_alist_dom(s.drop_last(), k);
        if alist_map(s.drop_last()).contains_key(k) {
            let i = choose|i: int| 0 <= i < s.drop_last().len() && s.drop_last()[i].0 == k;
            assert(s[i].0 == k);
        }
        if exists|i: int| 0 <= i < s.len() && s[i].0 == k {
            let i = choose|i: int| 0 <= i < s.len() && s[i].0 == k;
            if i < s.len() - 1 {
                assert(s.drop_last()[i].0 == k);
            }
        }
    }
}

/// With distinct keys, the map sends each pair's key to its value.
pub proof fn lemma_alist_lookup<K, V>(s: Seq<(K, V)>, i: int)
    requires
        keys_distinct(s),
        0 <= i < s.len(),
    ensures
        alist_map(s).contains_key(s[i].0),
        alist_map(s)[s[i].0] == s[i].1,
    decreases s.len(),
{
    if i < s.len() - 1 {
        assert(keys_distinct(s.drop_last()));
        lemma_alist_lookup(s.drop_last(), i);
        assert(s.drop_last()[i] == s[i]);
        assert(s.last().0 != s[i].0);
    }
}

/// Replacing the value of one pair updates the map at that key.
pub proof fn lemma_alist_update<K, V>(s: Seq<(K, V)>, i: int, v: V)
    requires
        keys_distinct(s),
        0 <= i < s.len(),
    ensures
        alist_map(s.update(i, (s[i].0, v))) == alist_map(s).insert(s[i].0, v),
        keys_distinct(s.update(i, (s[i].0, v))),
    decreases s.len(),
{
    let t = s.update(i, (s[i].0, v));
    if i == s.len() - 1 {
        assert(t.drop_last() == s.drop_last());
        assert(alist_map(t) =~= alist_map(s).insert(s[i].0, v));
    } else {
        assert(keys_distinct(s.drop_last()));
        lemma_alist_update(s.drop_last(), i, v);
        assert(t.drop_last() == s.drop_last().update(i, (s[i].0, v)));
        assert(s.last().0 != s[i].0);
        assert(alist_map(t) =~= alist_map(s).insert(s[i].0, v));
    }
}

/// Appending a pair with a new key keeps the keys distinct.
pub proof fn lemma_alist_push_distinct<K, V>(s: Seq<(K, V)>, k: K, v: V)
    requires
        keys_distinct(s),
        !alist_map(s).contains_key(k),
    ensures
        keys_distinct(s.push((k, v))),
        alist_map(s.push((k, v))) == alist_map(s).insert(k, v),
{
    lemma_alist_dom(s, k);
    assert(s.push((k, v)).drop_last() == s);
    assert forall|i: int, j: int| 0 <= i < j < s.push((k, v)).len() implies s.push((k, v))[i].0
        != s.push((k, v))[j].0 by {
        if j == s.len() {
            assert(s[i].0 != k);
        }
    }
}

/// Dropping the pair at `i` removes its key from the map, and keeps the
/// keys distinct.
pub proof fn lemma_alist_remove<K, V>(s: Seq<(K, V)>, i: int)
    requires
        keys_distinct(s),
        0 <= i < s.len(),
    ensures
        alist_map(s.remove(i)) == alist_map(s).remove(s[i].0),
        keys_distinct(s.remove(i)),
    decreases s.len(),
{
    let t = s.remove(i);
    assert forall|a: int, b: int| 0 <= a < b < t.len() implies t[a].0 != t[b].0 by {
        let a2 = if a < i { a } else { a + 1 };
        let b2 = if b < i { b } else { b + 1 };
        assert(t[a] == s[a2] && t[b] == s[b2]);
    }
    if i == s.len() - 1 {
        assert(t == s.drop_last());
        lemma_alist_dom(s.drop_last(), s[i].0);
        if alist_map(s.drop_last()).contains_key(s[i].0) {
            let j = choose|j: int| 0 <= j < s.drop_last().len() && s.drop_last()[j].0 == s[i].0;
            assert(s[j].0 == s[i].0);
        }
        assert(alist_map(t) =~= alist_map(s).remove(s[i].0));
    } else {
        assert(keys_distinct(s.drop_last()));
        lemma_alist_remove(s.drop_last(), i);
        assert(t.drop_last() == s.drop_last().remove(i));
        assert(t.last() == s.last());
        assert(s.last().0 != s[i].0);
        assert(alist_map(t) =~= alist_map(s).remove(s[i].0));
    }
}

/// The views of the pairs of a string-to-string association list.
pub open spec fn string_pairs(s: Seq<(String, String)>) -> Seq<(Seq<char>, Seq<char>)> {
    s.map_values(|e: (String, String)| (e.0@, e.1@))
}

/// The views of the pairs of a string-to-strings association list.
pub open spec fn string_list_pairs(s: Seq<(String, Vec<String>)>) -> Seq<
    (Seq<char>, Seq<Seq<char>>),
> {
    s.map_values(|e: (String, Vec<String>)| (e.0@, e.1.deep_view()))
}

/// The key views of a string-keyed association list.
pub open spec fn key_views<V>(s: Seq<(String, V)>) -> Seq<(Seq<char>, V)> {
    s.map_values(|e: (String, V)| (e.0@, e.1))
}

/// Keeping the pairs that satisfy `keep` keeps the keys distinct, and the
/// map keeps exactly the keys whose pair satisfies `keep`.
pub proof fn lemma_alist_filter<K, V>(s: Seq<(K, V)>, keep: spec_fn((K, V)) -> bool)
    requires
        keys_distinct(s),
    ensures
        keys_distinct(s.filter(keep)),
        alist_map(s.filter(keep)) == Map::new(
            |k: K| alist_map(s).contains_key(k) && keep((k, alist_map(s)[k])),
            |k: K| alist_map(s)[k],
        ),
    decreases s.len(),
{
    if s.len() > 0 {
        let d = s.drop_last();
        let last = s.last();
        assert(keys_distinct(d));
        lemma_alist_filter(d, keep);
        lemma_alist_dom(d, last.0);
        if alist_map(d).contains_key(last.0) {
            let j = choose|j: int| 0 <= j < d.len() && d[j].0 == last.0;
            assert(s[j].0 == s[s.len() - 1].0);
        }
        let fd = d.filter(keep);
        reveal(Seq::filter);
        assert(s.filter(keep) == if keep(last) { fd.push(last) } else { fd });
        if keep(last) {
            lemma_alist_push_distinct(fd, last.0, last.1);
        }
        assert(alist_map(s.filter(keep)) =~= Map::new(
            |k: K| alist_map(s).contains_key(k) && keep((k, alist_map(s)[k])),
            |k: K| alist_map(s)[k],
        ));
    } else {
        reveal(Seq::filter);
        assert(alist_map(s.filter(keep)) =~= Map::new(
            |k: K| alist_map(s).contains_key(k) && keep((k, alist_map(s)[k])),
            |k: K| alist_map(s)[k],
        ));
    }
}

/// A map from strings to values of any type, in insertion order.
#[derive(Debug)]
pub struct StrKeyMap<V> {
    entries: Vec<(String, V)>,
}

impl<V> View for StrKeyMap<V> {
    type V = Map<Seq<char>, V>;

    closed spec fn view(&self) -> Map<Seq<char>, V> {
        alist_map(key_views(self.entries@))
    }
}

impl<V> StrKeyMap<V> {
    /// Keys of the entries are distinct.
    #[verifier::type_invariant]
    closed spec fn wf(self) -> bool {
        keys_distinct(key_views(self.entries@))
    }

    /// An empty map.
    pub fn new() -> (r: StrKeyMap<V>)
        ensures
            r@ == Map::<Seq<char>, V>::empty(),
    {
        let r = StrKeyMap { entries: Vec::new() };
        assert(key_views(r.entries@) =~= Seq::<(Seq<char>, V)>::empty());
        r
    }

    /// The entries, in insertion order, with distinct keys.
    pub fn entries(&self) -> (r: &Vec<(String, V)>)
        ensures
            self@ == alist_map(key_views(r@)),
            keys_distinct(key_views(r@)),
    {
        proof {
            use_type_invariant(self);
        }
        &self.entries
    }

    /// Number of keys.
    pub fn len(&self) -> (r: usize)
        ensures
            r == self@.dom().len(),
    {
        proof {
            use_type_invariant(self);
            lemma_distinct_len(key_views(self.entries@));
        }
        self.entries.len()
    }

    fn find(&self, key: &str) -> (r: Option<usize>)
        ensures
            match r {
                Some(i) => i < self.entries@.len() && self.entries@[i as int].0@ == key@,
                None => !self@.contains_key(key@),
            },
    {
        let n = self.entries.len();
        let mut i: usize = 0;
        while i < n
            invariant
                n == self.entries@.len(),
                i <= n,
                forall|j: int| 0 <= j < i ==> self.entries@[j].0@ != key@,
            decreases n - i,
        {
            if str_eq(self.entries[i].0.as_str(), key) {
                return Some(i);
            }
            i = i + 1;
        }
        proof {
            lemma_alist_dom(key_views(self.entries@), key@);
            if self@.contains_key(key@) {
                let j = choose|j: int|
                    0 <= j < key_views(self.entries@).len() && key_views(self.entries@)[j].0 == key@;
                assert(self.entries@[j].0@ == key@);
            }
        }
        None
    }

    /// The value for `key`, if present.
    pub fn get(&self, key: &str) -> (r: Option<&V>)
        ensures
            match r {
                Some(v) => self@.contains_key(key@) && self@[key@] == *v,
                None => !self@.contains_key(key@),
            },
    {
        proof {
            use_type_invariant(self);
        }
        match self.find(key) {
            Some(i) => {
                proof {
                    lemma_alist_lookup(key_views(self.entries@), i as int);
                }
                Some(&self.entries[i].1)
            },
            None => None,
        }
    }

    /// Sets `key` to `value`, replacing any earlier value.
    pub fn insert(&mut self, key: String, value: V)
        ensures
            final(self)@ == old(self)@.insert(key@, value),
    {
        proof {
            use_type_invariant(&*self);
        }
        match self.find(key.as_str()) {
            Some(i) => {
                let ghost before = key_views(self.entries@);
                let ghost v = value;
                proof {
                    lemma_alist_update(before, i as int, v);
                }
                let mut entries: Vec<(String, V)> = Vec::new();
                std::mem::swap(&mut entries, &mut self.entries);
                entries.set(i, (key, value));
                assert(key_views(entries@) =~= before.update(i as int, (before[i as int].0, v)));
                self.entries = entries;
            },
            None => {
                let ghost before = key_views(self.entries@);
                let ghost k = key@;
                let ghost v = value;
                proof {
                    lemma_alist_push_distinct(before, k, v);
                }
                let mut entries: Vec<(String, V)> = Vec::new();
                std::mem::swap(&mut entries, &mut self.entries);
                entries.push((key, value));
                assert(key_views(entries@) =~= before.push((k, v)));
                self.entries = entries;
            },
        }
    }

    /// Removes `key` and its value, if present.
    pub fn remove(&mut self, key: &str)
        ensures
            final(self)@ == old(self)@.remove(key@),
    {
        proof {
            use_type_invariant(&*self);
        }
        match self.find(key) {
            Some(i) => {
                let ghost before = key_views(self.entries@);
                proof {
                    lemma_alist_remove(before, i as int);
                }
                let mut entries: Vec<(String, V)> = Vec::new();
                std::mem::swap(&mut entries, &mut self.entries);
                entries.remove(i);
                assert(key_views(entries@) =~= before.remove(i as int));
                self.entries = entries;
            },
            None => {
                assert(old(self)@.remove(key@) =~= old(self)@);
            },
        }
    }

    /// Removes every key.
    pub fn clear(&mut self)
        ensures
            final(self)@ == Map::<Seq<char>, V>::empty(),
    {
        let mut entries: Vec<(String, V)> = Vec::new();
        std::mem::swap(&mut entries, &mut self.entries);
        assert(key_views(self.entries@) =~= Seq::<(Seq<char>, V)>::empty());
    }
}

/// A map from strings to strings (the decoded query values or route
/// parameters of a route).
#[derive(Debug, PartialEq, Eq)]
pub struct StringMap {
    entries: Vec<(String, String)>,
}

impl View for StringMap {
    type V = Map<Seq<char>, Seq<char>>;

    closed spec fn view(&self) -> Map<Seq<char>, Seq<char>> {
        alist_map(string_pairs(self.entries@))
    }
}

impl StringMap {
    /// Keys of the entries are distinct.
    #[verifier::type_invariant]
    closed spec fn wf(self) -> bool {
        keys_distinct(string_pairs(self.entries@))
    }

    /// An empty map.
    pub fn new() -> (r: StringMap)
        ensures
            r@ == Map::<Seq<char>, Seq<char>>::empty(),
    {
        let r = StringMap { entries: Vec::new() };
        assert(string_pairs(r.entries@) =~= Seq::empty());
        r
    }

    /// The number of keys.
    pub fn len(&self) -> (r: usize)
        ensures
            r == self@.dom().len(),
    {
        proof {
            use_type_invariant(self);
            lemma_distinct_len(string_pairs(self.entries@));
        }
        self.entries.len()
    }

    /// Whether the map has no keys.
    pub fn is_empty(&self) -> (r: bool)
        ensures
            r == (self@.dom().len() == 0),
    {
        self.len() == 0
    }

    fn find(&self, key: &str) -> (r: Option<usize>)
        ensures
            match r {
                Some(i) => i < self.entries@.len() && self.entries@[i as int].0@ == key@,
                None => !self@.contains_key(key@),
            },
    {
        let n = self.entries.len();
        let mut i: usize = 0;
        while i < n
            invariant
                n == self.entries@.len(),
                i <= n,
                forall|j: int| 0 <= j < i ==> self.entries@[j].0@ != key@,
            decreases n - i,
        {
            if str_eq(self.entries[i].0.as_str(), key) {
                return Some(i);
            }
            i = i + 1;
        }
        proof {
            lemma_alist_dom(string_pairs(self.entries@), key@);
            if self@.contains_key(key@) {
                let j = choose|j: int|
                    0 <= j < string_pairs(self.entries@).len() && string_pairs(self.entries@)[j].0
                        == key@;
                assert(self.entries@[j].0@ == key@);
            }
        }
        None
    }

    /// The value for `key`, if present.
    pub fn get(&self, key: &str) -> (r: Option<&str>)
        ensures
            match r {
                Some(v) => self@.contains_key(key@) && self@[key@] == v@,
                None => !self@.contains_key(key@),
            },
    {
        proof {
            use_type_invariant(self);
        }
        match self.find(key) {
            Some(i) => {
                proof {
                    lemma_alist_lookup(string_pairs(self.entries@), i as int);
                }
                Some(self.entries[i].1.as_str())
            },
            None => None,
        }
    }

    /// Sets `key` to `value`, replacing any earlier value.
    pub fn insert(&mut self, key: String, value: String)
        ensures
            final(self)@ == old(self)@.insert(key@, value@),
    {
        proof {
            use_type_invariant(&*self);
        }
        match self.find(key.as_str()) {
            Some(i) => {
                let ghost before = string_pairs(self.entries@);
                proof {
                    lemma_alist_update(before, i as int, value@);
                }
                let mut entries: Vec<(String, String)> = Vec::new();
                std::mem::swap(&mut entries, &mut self.entries);
                entries.set(i, (key, value));
                assert(string_pairs(entries@) =~= before.update(
                    i as int,
                    (before[i as int].0, value@),
                ));
                self.entries = entries;
            },
            None => {
                let ghost before = string_pairs(self.entries@);
                let ghost k = key@;
                let ghost v = value@;
                proof {
                    lemma_alist_push_distinct(before, k, v);
                }
                let mut entries: Vec<(String, String)> = Vec::new();
                std::mem::swap(&mut entries, &mut self.entries);
                entries.push((key, value));
                assert(string_pairs(entries@) =~= before.push((k, v)));
                self.entries = entries;
            },
        }
    }
}

impl StringMap {
    /// Whether every key of `self` has the same value in `other`.
    pub fn is_submap_of(&self, other: &StringMap) -> (r: bool)
        ensures
            r == (forall|k: Seq<char>|
                #[trigger] self@.contains_key(k) ==> other@.contains_key(k) && other@[k]
                    == self@[k]),
    {
        proof {
            use_type_invariant(self);
        }
        let ghost pairs = string_pairs(self.entries@);
        let n = self.entries.len();
        let mut i: usize = 0;
        while i < n
            invariant
                n == self.entries@.len(),
                i <= n,
                pairs == string_pairs(self.entries@),
                keys_distinct(pairs),
                forall|j: int|
                    0 <= j < i ==> other@.contains_key(#[trigger] pairs[j].0) && other@[pairs[j].0]
                        == pairs[j].1,
            decreases n - i,
        {
            let key = self.entries[i].0.as_str();
            let value = self.entries[i].1.as_str();
            let found = other.get(key);
            let same = match found {
                Some(v) => str_eq(v, value),
                None => false,
            };
            if !same {
                proof {
                    lemma_alist_lookup(pairs, i as int);
                    assert(self@.contains_key(pairs[i as int].0));
                }
                return false;
            }
            i = i + 1;
        }
        proof {
            assert forall|k: Seq<char>| #[trigger] self@.contains_key(k) implies other@.contains_key(
                k,
            ) && other@[k] == self@[k] by {
                lemma_alist_dom(pairs, k);
                let j = choose|j: int| 0 <= j < pairs.len() && pairs[j].0 == k;
                lemma_alist_lookup(pairs, j);
            }
        }
        true
    }
}

impl StringMap {
    /// Removes `key` and its value, if present.
    pub fn remove(&mut self, key: &str)
        ensures
            final(self)@ == old(self)@.remove(key@),
    {
        proof {
            use_type_invariant(&*self);
        }
        match self.find(key) {
            Some(i) => {
                let ghost before = string_pairs(self.entries@);
                proof {
                    lemma_alist_remove(before, i as int);
                }
                let mut entries: Vec<(String, String)> = Vec::new();
                std::mem::swap(&mut entries, &mut self.entries);
                entries.remove(i);
                assert(string_pairs(entries@) =~= before.remove(i as int));
                self.entries = entries;
            },
            None => {
                assert(old(self)@.remove(key@) =~= old(self)@);
            },
        }
    }
}

impl Clone for StringMap {
    fn clone(&self) -> (r: Self)
        ensures
            r@ == self@,
    {
        proof {
            use_type_invariant(self);
        }
        let n = self.entries.len();
        let mut entries: Vec<(String, String)> = Vec::new();
        let mut i: usize = 0;
        while i < n
            invariant
                n == self.entries@.len(),
                i <= n,
                entries@.len() == i,
                forall|j: int|
                    0 <= j < i ==> #[trigger] entries@[j].0@ == self.entries@[j].0@
                        && entries@[j].1@ == self.entries@[j].1@,
            decreases n - i,
        {
            let e = &self.entries[i];
            let k = e.0.clone();
            let v = e.1.clone();
            assert(k@ == self.entries@[i as int].0@);
            assert(v@ == self.entries@[i as int].1@);
            entries.push((k, v));
            i = i + 1;
        }
        assert(string_pairs(entries@) =~= string_pairs(self.entries@));
        StringMap { entries }
    }
}

/// A distinct-key association list denotes a map with one key per pair.
pub proof fn lemma_distinct_len<K, V>(s: Seq<(K, V)>)
    requires
        keys_distinct(s),
    ensures
        alist_map(s).dom().len() == s.len(),
        alist_map(s).dom().finite(),
    decreases s.len(),
{
    if s.len() > 0 {
        assert(keys_distinct(s.drop_last()));
        lemma_distinct_len(s.drop_last());
        lemma_alist_dom(s.drop_last(), s.last().0);
        if alist_map(s.drop_last()).contains_key(s.last().0) {
            let i = choose|i: int|
                0 <= i < s.drop_last().len() && s.drop_last()[i].0 == s.last().0;
            assert(s[i].0 == s[s.len() - 1].0);
        }
    }
}

} // verus!

verus! {

/// For each key with at least one value, its first value.
pub open spec fn spec_first_values(m: Map<Seq<char>, Seq<Seq<char>>>) -> Map<Seq<char>, Seq<char>> {
    Map::new(|k: Seq<char>| m.contains_key(k) && m[k].len() > 0, |k: Seq<char>| m[k][0])
}

/// The values of `k` in `m`, or none.
pub open spec fn values_of(m: Map<Seq<char>, Seq<Seq<char>>>, k: Seq<char>) -> Seq<Seq<char>> {
    if m.contains_key(k) {
        m[k]
    } else {
        Seq::empty()
    }
}

/// A map from strings to the list of their values, in the order added (the
/// decoded query values of a route, repeated keys included).
#[derive(Debug, PartialEq, Eq)]
pub struct StringListMap {
    entries: Vec<(String, Vec<String>)>,
}

impl View for StringListMap {
    type V = Map<Seq<char>, Seq<Seq<char>>>;

    closed spec fn view(&self) -> Map<Seq<char>, Seq<Seq<char>>> {
        alist_map(string_list_pairs(self.entries@))
    }
}

impl StringListMap {
    /// Keys of the entries are distinct.
    #[verifier::type_invariant]
    closed spec fn wf(self) -> bool {
        keys_distinct(string_list_pairs(self.entries@))
    }

    /// An empty map.
    pub fn new() -> (r: StringListMap)
        ensures
            r@ == Map::<Seq<char>, Seq<Seq<char>>>::empty(),
    {
        let r = StringListMap { entries: Vec::new() };
        assert(string_list_pairs(r.entries@) =~= Seq::empty());
        r
    }

    /// The number of keys.
    pub fn len(&self) -> (r: usize)
        ensures
            r == self@.dom().len(),
    {
        proof {
            use_type_invariant(self);
            lemma_distinct_len(string_list_pairs(self.entries@));
        }
        self.entries.len()
    }

    /// Whether the map has no keys.
    pub fn is_empty(&self) -> (r: bool)
        ensures
            r == (self@.dom().len() == 0),
    {
        self.len() == 0
    }

    fn find(&self, key: &str) -> (r: Option<usize>)
        ensures
            match r {
                Some(i) => i < self.entries@.len() && self.entries@[i as int].0@ == key@,
                None => !self@.contains_key(key@),
            },
    {
        let n = self.entries.len();
        let mut i: usize = 0;
        while i < n
            invariant
                n == self.entries@.len(),
                i <= n,
                forall|j: int| 0 <= j < i ==> self.entries@[j].0@ != key@,
            decreases n - i,
        {
            if str_eq(self.entries[i].0.as_str(), key) {
                return Some(i);
            }
            i = i + 1;
        }
        proof {
            lemma_alist_dom(string_list_pairs(self.entries@), key@);
            if self@.contains_key(key@) {
                let j = choose|j: int|
                    0 <= j < string_list_pairs(self.entries@).len() && string_list_pairs(
                        self.entries@,
                    )[j].0 == key@;
                assert(self.entries@[j].0@ == key@);
            }
        }
        None
    }

    /// All values for `key`, if present.
    pub fn get(&self, key: &str) -> (r: Option<&[String]>)
        ensures
            match r {
                Some(v) => self@.contains_key(key@) && self@[key@] == v@.map_values(
                    |s: String| s@,
                ),
                None => !self@.contains_key(key@),
            },
    {
        proof {
            use_type_invariant(self);
        }
        match self.find(key) {
            Some(i) => {
                proof {
                    lemma_alist_lookup(string_list_pairs(self.entries@), i as int);
                }
                let r = self.entries[i].1.as_slice();
                assert(r@.map_values(|s: String| s@) =~= self.entries@[i as int].1.deep_view());
                Some(r)
            },
            None => None,
        }
    }

    /// Appends `value` to the values of `key`.
    pub fn push_value(&mut self, key: String, value: String)
        ensures
            final(self)@ == old(self)@.insert(key@, values_of(old(self)@, key@).push(value@)),
    {
        proof {
            use_type_invariant(&*self);
        }
        let ghost before = string_list_pairs(self.entries@);
        match self.find(key.as_str()) {
            Some(i) => {
                let mut entries: Vec<(String, Vec<String>)> = Vec::new();
                std::mem::swap(&mut entries, &mut self.entries);
                proof {
                    lemma_alist_lookup(before, i as int);
                }
                let ghost old_list = entries@[i as int].1.deep_view();
                let ghost new_list = old_list.push(value@);
                proof {
                    lemma_alist_update(before, i as int, new_list);
                }
                let ghost old_entries = entries@;
                let (k, mut list) = entries.remove(i);
                list.push(value);
                assert(list.deep_view() =~= new_list);
                entries.insert(i, (k, list));
                assert(entries@ =~= old_entries.update(i as int, (k, list)));
                assert(string_list_pairs(entries@) =~= before.update(
                    i as int,
                    (before[i as int].0, new_list),
                ));
                self.entries = entries;
            },
            None => {
                let ghost k = key@;
                let ghost l = seq![value@];
                proof {
                    lemma_alist_push_distinct(before, k, l);
                }
                let mut entries: Vec<(String, Vec<String>)> = Vec::new();
                std::mem::swap(&mut entries, &mut self.entries);
                let mut list: Vec<String> = Vec::new();
                list.push(value);
                assert(list.deep_view() =~= l);
                entries.push((key, list));
                assert(string_list_pairs(entries@) =~= before.push((k, l)));
                assert(values_of(alist_map(before), k).push(l[0]) =~= l);
                self.entries = entries;
            },
        }
    }

    /// The first value of each key.
    pub fn first_values(&self) -> (r: StringMap)
        ensures
            r@ == spec_first_values(self@),
    {
        proof {
            use_type_invariant(self);
        }
        let n = self.entries.len();
        let mut out = StringMap::new();
        let mut i: usize = 0;
        while i < n
            invariant
                n == self.entries@.len(),
                i <= n,
                keys_distinct(string_list_pairs(self.entries@)),
                out@ == spec_first_values(
                    alist_map(string_list_pairs(self.entries@).subrange(0, i as int)),
                ),
            decreases n - i,
        {
            let ghost pre = string_list_pairs(self.entries@).subrange(0, i as int);
            let ghost e = string_list_pairs(self.entries@)[i as int];
            assert(string_list_pairs(self.entries@).subrange(0, i + 1) == pre.push(e));
            assert(pre.push(e).drop_last() == pre);
            proof {
                lemma_alist_dom(pre, e.0);
                if alist_map(pre).contains_key(e.0) {
                    let j = choose|j: int| 0 <= j < pre.len() && pre[j].0 == e.0;
                    assert(string_list_pairs(self.entries@)[j].0 == e.0);
                }
            }
            if self.entries[i].1.len() > 0 {
                let k = self.entries[i].0.clone();
                let v = self.entries[i].1[0].clone();
                assert(v@ == e.1[0]);
                out.insert(k, v);
                assert(out@ =~= spec_first_values(alist_map(pre.push(e))));
            } else {
                assert(out@ =~= spec_first_values(alist_map(pre.push(e))));
            }
            i = i + 1;
        }
        assert(string_list_pairs(self.entries@).subrange(0, n as int) =~= string_list_pairs(
            self.entries@,
        ));
        out
    }
}

impl Clone for StringListMap {
    fn clone(&self) -> (r: Self)
        ensures
            r@ == self@,
    {
        proof {
            use_type_invariant(self);
        }
        let n = self.entries.len();
        let mut entries: Vec<(String, Vec<String>)> = Vec::new();
        let mut i: usize = 0;
        while i < n
            invariant
                n == self.entries@.len(),
                i <= n,
                entries@.len() == i,
                forall|j: int|
                    0 <= j < i ==> #[trigger] entries@[j].0@ == self.entries@[j].0@
                        && entries@[j].1.deep_view() == self.entries@[j].1.deep_view(),
            decreases n - i,
        {
            let e = &self.entries[i];
            let k = e.0.clone();
            let v = clone_strings(&e.1);
            entries.push((k, v));
            i = i + 1;
        }
        assert(string_list_pairs(entries@) =~= string_list_pairs(self.entries@));
        StringListMap { entries }
    }
}

/// A copy of a list of strings.
pub fn clone_strings(v: &Vec<String>) -> (r: Vec<String>)
    ensures
        r.deep_view() == v.deep_view(),
{
    let n = v.len();
    let mut out: Vec<String> = Vec::new();
    let mut i: usize = 0;
    while i < n
        invariant
            n == v@.len(),
            i <= n,
            out@.len() == i,
            forall|j: int| 0 <= j < i ==> #[trigger] out@[j]@ == v@[j]@,
        decreases n - i,
    {
        out.push(v[i].clone());
        i = i + 1;
    }
    assert(out.deep_view() =~= v.deep_view());
    out
}

} // verus!
