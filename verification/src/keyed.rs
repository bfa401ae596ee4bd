//! A list of values keyed by name, viewed as a map from name to value.
use vstd::prelude::*;

use crate::text::str_eq;

verus! {

/// Values keyed by name, at most one per name, kept in insertion order.
/// Its view is the map from each name to its value.
pub struct KeyedList<V> {
    entries: Vec<(String, V)>,
}

/// The entries of `s` hold pairwise different keys.
pub open spec fn unique_keys<V>(s: Seq<(String, V)>) -> bool {
    forall|i: int, j: int|
        0 <= i < s.len() && 0 <= j < s.len() && i != j ==> (#[trigger] s[i]).0@ != (
        #[trigger] s[j]).0@
}

/// Entry `i` of `s` has key `k`.
pub open spec fn key_at<V>(s: Seq<(String, V)>, k: Seq<char>, i: int) -> bool {
    0 <= i < s.len() && s[i].0@ == k
}

/// The map from key to entry that the list `s` stands for.
pub open spec fn entries_view<V>(s: Seq<(String, V)>) -> Map<
    Seq<char>,
    V,
> {
    Map::new(
        |k: Seq<char>| exists|i: int| key_at(s, k, i),
        |k: Seq<char>| s[choose|i: int| key_at(s, k, i)].1,
    )
}

proof fn lemma_entries_view_at<V>(s: Seq<(String, V)>, i: int)
    requires
        unique_keys(s),
        0 <= i < s.len(),
    ensures
        entries_view(s).contains_key(s[i].0@),
        entries_view(s)[s[i].0@] == s[i].1,
{
    let k = s[i].0@;
    assert(key_at(s, k, i));
    let c = choose|c: int| key_at(s, k, c);
    assert(c == i);
}

proof fn lemma_entries_view_remove<V>(s: Seq<(String, V)>, i: int)
    requires
        unique_keys(s),
        0 <= i < s.len(),
    ensures
        unique_keys(s.remove(i)),
        entries_view(s.remove(i)) =~= entries_view(s).remove(s[i].0@),
{
    let t = s.remove(i);
    let key = s[i].0@;
    assert forall|a: int, b: int| 0 <= a < t.len() && 0 <= b < t.len() && a != b implies (
    #[trigger] t[a]).0@ != (#[trigger] t[b]).0@ by {
        let a0 = if a < i {
            a
        } else {
            a + 1
        };
        let b0 = if b < i {
            b
        } else {
            b + 1
        };
        assert(t[a] == s[a0]);
        assert(t[b] == s[b0]);
    }
    let m = entries_view(s).remove(key);
    assert forall|k: Seq<char>| #[trigger] entries_view(t).contains_key(k) == m.contains_key(k) by {
        if entries_view(t).contains_key(k) {
            let c = choose|c: int| key_at(t, k, c);
            let c0 = if c < i {
                c
            } else {
                c + 1
            };
            assert(t[c] == s[c0]);
            assert(key_at(s, k, c0));
            assert(c0 != i);
        }
        if m.contains_key(k) {
            let c = choose|c: int| key_at(s, k, c);
            assert(c != i);
            let c1 = if c < i {
                c
            } else {
                c - 1
            };
            assert(t[c1] == s[c]);
            assert(key_at(t, k, c1));
        }
    }
    assert forall|k: Seq<char>| #[trigger] entries_view(t).contains_key(k) implies entries_view(
        t,
    )[k] == m[k] by {
        let c = choose|c: int| key_at(t, k, c);
        let c0 = if c < i {
            c
        } else {
            c + 1
        };
        assert(t[c] == s[c0]);
        lemma_entries_view_at(t, c);
        lemma_entries_view_at(s, c0);
    }
}

proof fn lemma_entries_view_push<V>(s: Seq<(String, V)>, x: (String, V))
    requires
        unique_keys(s),
        !entries_view(s).contains_key(x.0@),
    ensures
        unique_keys(s.push(x)),
        entries_view(s.push(x)) =~= entries_view(s).insert(x.0@, x.1),
{
    let t = s.push(x);
    assert forall|a: int, b: int| 0 <= a < t.len() && 0 <= b < t.len() && a != b implies (
    #[trigger] t[a]).0@ != (#[trigger] t[b]).0@ by {
        if a < s.len() && b < s.len() {
            assert(t[a] == s[a] && t[b] == s[b]);
        } else if a < s.len() {
            assert(t[a] == s[a]);
            assert(key_at(s, s[a].0@, a));
        } else if b < s.len() {
            assert(t[b] == s[b]);
            assert(key_at(s, s[b].0@, b));
        }
    }
    let m = entries_view(s).insert(x.0@, x.1);
    assert forall|k: Seq<char>| #[trigger] entries_view(t).contains_key(k) == m.contains_key(k) by {
        if entries_view(t).contains_key(k) {
            let c = choose|c: int| key_at(t, k, c);
            if c < s.len() {
                assert(key_at(s, k, c));
            }
        }
        if m.contains_key(k) {
            if k == x.0@ {
                assert(key_at(t, k, s.len() as int));
            } else {
                let c = choose|c: int| key_at(s, k, c);
                assert(key_at(t, k, c));
            }
        }
    }
    assert forall|k: Seq<char>| #[trigger] entries_view(t).contains_key(k) implies entries_view(
        t,
    )[k] == m[k] by {
        let c = choose|c: int| key_at(t, k, c);
        lemma_entries_view_at(t, c);
        if c < s.len() {
            assert(t[c] == s[c]);
            lemma_entries_view_at(s, c);
        }
    }
}

proof fn lemma_entries_view_update<V>(
    s: Seq<(String, V)>,
    i: int,
    x: (String, V),
)
    requires
        unique_keys(s),
        0 <= i < s.len(),
        x.0@ == s[i].0@,
    ensures
        unique_keys(s.update(i, x)),
        entries_view(s.update(i, x)) =~= entries_view(s).insert(x.0@, x.1),
{
    let t = s.update(i, x);
    assert forall|a: int, b: int| 0 <= a < t.len() && 0 <= b < t.len() && a != b implies (
    #[trigger] t[a]).0@ != (#[trigger] t[b]).0@ by {
        assert(t[a].0@ == s[a].0@);
        assert(t[b].0@ == s[b].0@);
    }
    let m = entries_view(s).insert(x.0@, x.1);
    lemma_entries_view_at(s, i);
    assert forall|k: Seq<char>| #[trigger] entries_view(t).contains_key(k) == m.contains_key(k) by {
        if entries_view(t).contains_key(k) {
            let c = choose|c: int| key_at(t, k, c);
            assert(key_at(s, k, c));
        }
        if m.contains_key(k) {
            let c = choose|c: int| key_at(s, k, c);
            assert(key_at(t, k, c));
        }
    }
    assert forall|k: Seq<char>| #[trigger] entries_view(t).contains_key(k) implies entries_view(
        t,
    )[k] == m[k] by {
        let c = choose|c: int| key_at(t, k, c);
        lemma_entries_view_at(t, c);
        if c != i {
            assert(t[c] == s[c]);
            lemma_entries_view_at(s, c);
        }
    }
}

/// Some key of `m` holds the value `v`.
pub open spec fn holds_value<V>(m: Map<Seq<char>, V>, v: V) -> bool {
    exists|k: Seq<char>| m.contains_key(k) && m[k] == v
}

proof fn lemma_dom_len_seq<V>(s: Seq<(String, V)>)
    requires
        unique_keys(s),
    ensures
        entries_view(s).dom().finite(),
        entries_view(s).dom().len() == s.len(),
    decreases s.len(),
{
    if s.len() == 0 {
        assert(entries_view(s).dom() =~= Set::empty());
    } else {
        let i = s.len() - 1;
        lemma_entries_view_remove(s, i);
        lemma_dom_len_seq(s.remove(i));
        lemma_entries_view_at(s, i);
        assert(entries_view(s).dom() =~= entries_view(s.remove(i)).dom().insert(s[i].0@));
    }
}

impl<V> KeyedList<V> {
    /// No key occurs twice.
    pub closed spec fn wf(&self) -> bool {
        unique_keys(self.entries@)
    }

    /// The values, by key.
    pub closed spec fn view(&self) -> Map<Seq<char>, V> {
        entries_view(self.entries@)
    }

    /// An empty list.
    pub fn new() -> (r: Self)
        ensures
            r.wf(),
            r.view() == Map::<Seq<char>, V>::empty(),
    {
        let r = KeyedList { entries: Vec::new() };
        assert(r.view() =~= Map::<Seq<char>, V>::empty());
        r
    }

    fn index_of(&self, key: &str) -> (r: Option<usize>)
        requires
            self.wf(),
        ensures
            match r {
                Some(i) => key_at(self.entries@, key@, i as int),
                None => !self.view().contains_key(key@),
            },
    {
        let mut i: usize = 0;
        while i < self.entries.len()
            invariant
                i <= self.entries@.len(),
                forall|j: int| 0 <= j < i ==> !key_at(self.entries@, key@, j),
            decreases self.entries@.len() - i,
        {
            if str_eq(self.entries[i].0.as_str(), key) {
                return Some(i);
            }
            i = i + 1;
        }
        None
    }

    /// Whether a value is held under `key`.
    pub fn contains(&self, key: &str) -> (r: bool)
        requires
            self.wf(),
        ensures
            r == self.view().contains_key(key@),
    {
        match self.index_of(key) {
            Some(i) => {
                proof {
                    lemma_entries_view_at(self.entries@, i as int);
                }
                true
            },
            None => false,
        }
    }

    /// The value held under `key`, if any.
    pub fn get(&self, key: &str) -> (r: Option<&V>)
        requires
            self.wf(),
        ensures
            match r {
                Some(e) => self.view().contains_key(key@) && *e == self.view()[key@],
                None => !self.view().contains_key(key@),
            },
    {
        match self.index_of(key) {
            Some(i) => {
                proof {
                    lemma_entries_view_at(self.entries@, i as int);
                }
                Some(&self.entries[i].1)
            },
            None => None,
        }
    }

    /// Removes the value held under `key`, if there is one.
    pub fn remove(&mut self, key: &str)
        requires
            old(self).wf(),
        ensures
            final(self).wf(),
            final(self).view() == old(self).view().remove(key@),
    {
        match self.index_of(key) {
            Some(i) => {
                proof {
                    lemma_entries_view_remove(self.entries@, i as int);
                }
                self.entries.remove(i);
            },
            None => {
                assert(self.view() =~= self.view().remove(key@));
            },
        }
    }

    /// Holds `entry` under `key`, replacing any earlier value.
    pub fn insert(&mut self, key: String, entry: V)
        requires
            old(self).wf(),
        ensures
            final(self).wf(),
            final(self).view() == old(self).view().insert(key@, entry),
    {
        match self.index_of(key.as_str()) {
            Some(i) => {
                proof {
                    lemma_entries_view_update(self.entries@, i as int, (key, entry));
                }
                self.entries.set(i, (key, entry));
            },
            None => {
                proof {
                    lemma_entries_view_push(self.entries@, (key, entry));
                }
                self.entries.push((key, entry));
            },
        }
    }

    /// The number of keys.
    pub fn len(&self) -> (n: usize)
        requires
            self.wf(),
        ensures
            n == self.view().dom().len(),
    {
        proof {
            self.lemma_dom_len();
        }
        self.entries.len()
    }

    proof fn lemma_dom_len(&self)
        requires
            self.wf(),
        ensures
            self.view().dom().finite(),
            self.view().dom().len() == self.entries@.len(),
        decreases self.entries@.len(),
    {
        lemma_dom_len_seq(self.entries@);
    }

    /// All keys, each once, in insertion order.
    pub fn keys(&self) -> (r: Vec<String>)
        requires
            self.wf(),
        ensures
            r@.len() == self.view().dom().len(),
            forall|k: Seq<char>|
                self.view().contains_key(k) <==> exists|i: int| 0 <= i < r@.len() && (#[trigger] r@[i])@ == k,
    {
        proof {
            self.lemma_dom_len();
        }
        let mut r: Vec<String> = Vec::new();
        let mut i: usize = 0;
        while i < self.entries.len()
            invariant
                i <= self.entries@.len(),
                r@.len() == i,
                forall|j: int| 0 <= j < i ==> (#[trigger] r@[j])@ == self.entries@[j].0@,
            decreases self.entries@.len() - i,
        {
            r.push(self.entries[i].0.clone());
            i = i + 1;
        }
        assert forall|k: Seq<char>|
            self.view().contains_key(k) <==> exists|i: int| 0 <= i < r@.len() && (#[trigger] r@[i])@ == k by {
            if self.view().contains_key(k) {
                let c = choose|c: int| key_at(self.entries@, k, c);
                assert(r@[c]@ == k);
            }
            if exists|i: int| 0 <= i < r@.len() && (#[trigger] r@[i])@ == k {
                let c = choose|i: int| 0 <= i < r@.len() && (#[trigger] r@[i])@ == k;
                assert(key_at(self.entries@, k, c));
            }
        }
        r
    }
}

/// `values` holds, in order, the value of each key of `ks`, and `ks` holds
/// each key of `m` once.
pub open spec fn values_of_keys<V>(m: Map<Seq<char>, V>, ks: Seq<Seq<char>>, values: Seq<V>) -> bool {
    &&& ks.len() == values.len()
    &&& ks.no_duplicates()
    &&& forall|k: Seq<char>| #[trigger] m.contains_key(k) <==> ks.contains(k)
    &&& forall|i: int| 0 <= i < ks.len() ==> m[#[trigger] ks[i]] == values[i]
}

impl<V: Copy> KeyedList<V> {
    /// All values, one per key, in insertion order.
    pub fn values(&self) -> (r: Vec<V>)
        requires
            self.wf(),
        ensures
            forall|i: int| 0 <= i < r@.len() ==> #[trigger] holds_value(self.view(), r@[i]),
            forall|k: Seq<char>| #[trigger]
                self.view().contains_key(k) ==> r@.contains(self.view()[k]),
            exists|ks: Seq<Seq<char>>| #[trigger] values_of_keys(self.view(), ks, r@),
    {
        let mut r: Vec<V> = Vec::new();
        let mut i: usize = 0;
        while i < self.entries.len()
            invariant
                self.wf(),
                i <= self.entries@.len(),
                r@.len() == i,
                forall|j: int| 0 <= j < i ==> #[trigger] r@[j] == self.entries@[j].1,
            decreases self.entries@.len() - i,
        {
            r.push(self.entries[i].1);
            i = i + 1;
        }
        let ghost ks = self.entries@.map_values(|e: (String, V)| e.0@);
        assert forall|i: int| 0 <= i < ks.len() implies self.view().contains_key(#[trigger] ks[i])
            && self.view()[ks[i]] == r@[i] by {
            lemma_entries_view_at(self.entries@, i);
        }
        assert forall|k: Seq<char>| #[trigger] self.view().contains_key(k) implies ks.contains(k) by {
            let c = choose|c: int| key_at(self.entries@, k, c);
            assert(ks[c] == k);
        }
        assert(ks.no_duplicates());
        assert(values_of_keys(self.view(), ks, r@));
        assert forall|i: int| 0 <= i < r@.len() implies #[trigger] holds_value(self.view(), r@[i]) by {
            lemma_entries_view_at(self.entries@, i);
            let k = self.entries@[i].0@;
            assert(self.view().contains_key(k) && self.view()[k] == r@[i]);
        }
        assert forall|k: Seq<char>| #[trigger]
            self.view().contains_key(k) implies r@.contains(self.view()[k]) by {
            let c = choose|c: int| key_at(self.entries@, k, c);
            lemma_entries_view_at(self.entries@, c);
            assert(r@[c] == self.view()[k]);
        }
        r
    }

    /// A copy of the list.
    pub fn copied(&self) -> (r: Self)
        requires
            self.wf(),
        ensures
            r.wf(),
            r.view() == self.view(),
    {
        let mut entries: Vec<(String, V)> = Vec::new();
        let mut i: usize = 0;
        while i < self.entries.len()
            invariant
                i <= self.entries@.len(),
                entries@.len() == i,
                forall|j: int|
                    0 <= j < i ==> (#[trigger] entries@[j]).0@ == self.entries@[j].0@
                        && entries@[j].1 == self.entries@[j].1,
            decreases self.entries@.len() - i,
        {
            entries.push((self.entries[i].0.clone(), self.entries[i].1));
            i = i + 1;
        }
        let r = KeyedList { entries };
        assert(forall|k: Seq<char>, j: int| key_at(r.entries@, k, j) <==> key_at(self.entries@, k, j));
        assert(r.view() =~= self.view());
        r
    }
}

} // verus!
