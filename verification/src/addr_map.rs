use vstd::prelude::*;
use vstd::pervasive::VecAdditionalExecFns;

verus! {

/// An association map from account or token identifiers to values.
///
/// Keys are unique; the mathematical model of a map is a
/// `Map<Seq<char>, V>` over the keys' character sequences. Per-account
/// and per-token records of the feed (prices, deviation records, role
/// flags, votes) are all held in maps of this type.
pub struct AddrMap<V> {
    entries: Vec<(String, V)>,
}

/// No two entries of the list share a key.
pub open spec fn unique_keys<V>(s: Seq<(String, V)>) -> bool {
    forall|i: int, j: int| 0 <= i < j < s.len() ==> s[i].0@ != s[j].0@
}

/// The map denoted by an association list; a later entry shadows an
/// earlier one with the same key (which `unique_keys` rules out).
pub open spec fn map_of<V>(s: Seq<(String, V)>) -> Map<Seq<char>, V>
    decreases s.len(),
{
    if s.len() == 0 {
        Map::empty()
    } else {
        map_of(s.drop_last()).insert(s.last().0@, s.last().1)
    }
}

/// How many entries of the list carry the flag `true`.
pub open spec fn count_true(s: Seq<(String, bool)>) -> nat
    decreases s.len(),
{
    if s.len() == 0 {
        0
    } else {
        count_true(s.drop_last()) + (if s.last().1 {
            1nat
        } else {
            0nat
        })
    }
}

proof fn lemma_map_of_contains<V>(s: Seq<(String, V)>, k: Seq<char>)
    ensures
        map_of(s).contains_key(k) <==> exists|i: int| 0 <= i < s.len() && s[i].0@ == k,
    decreases s.len(),
{
    if s.len() > 0 {
        lemma_map_of_contains(s.drop_last(), k);
        if s.last().0@ == k {
            assert(s[s.len() - 1].0@ == k);
        } else if map_of(s).contains_key(k) {
            let i = choose|i: int| 0 <= i < s.drop_last().len() && s.drop_last()[i].0@ == k;
            assert(s[i].0@ == k);
        } else {
            assert forall|i: int| 0 <= i < s.len() implies s[i].0@ != k by {
                if i < s.len() - 1 {
                    assert(s.drop_last()[i].0@ == s[i].0@);
                }
            }
        }
    }
}

proof fn lemma_map_of_get<V>(s: Seq<(String, V)>, i: int)
    requires
        unique_keys(s),
        0 <= i < s.len(),
    ensures
        map_of(s).contains_key(s[i].0@),
        map_of(s)[s[i].0@] == s[i].1,
    decreases s.len(),
{
    if i < s.len() - 1 {
        assert(s.drop_last()[i] == s[i]);
        lemma_map_of_get(s.drop_last(), i);
        assert(s.last().0@ != s[i].0@);
    }
}

proof fn lemma_map_of_update<V>(s: Seq<(String, V)>, i: int, e: (String, V))
    requires
        unique_keys(s),
        0 <= i < s.len(),
        e.0@ == s[i].0@,
    ensures
        unique_keys(s.update(i, e)),
        map_of(s.update(i, e)) == map_of(s).insert(e.0@, e.1),
    decreases s.len(),
{
    let t = s.update(i, e);
    assert forall|p: int, q: int| 0 <= p < q < t.len() implies t[p].0@ != t[q].0@ by {
        assert(s[p].0@ != s[q].0@);
    }
    if i == s.len() - 1 {
        assert(t.drop_last() =~= s.drop_last());
        assert(t.last() == e);
        assert(map_of(t) =~= map_of(s).insert(e.0@, e.1));
    } else {
        assert(t.drop_last() =~= s.drop_last().update(i, e));
        assert(t.last() == s.last());
        lemma_map_of_update(s.drop_last(), i, e);
        assert(s.last().0@ != e.0@);
        assert(map_of(t) =~= map_of(s).insert(e.0@, e.1));
    }
}

proof fn lemma_count_true_update(s: Seq<(String, bool)>, i: int, e: (String, bool))
    requires
        0 <= i < s.len(),
    ensures
        count_true(s.update(i, e)) == count_true(s) - (if s[i].1 {
            1int
        } else {
            0int
        }) + (if e.1 {
            1int
        } else {
            0int
        }),
    decreases s.len(),
{
    let t = s.update(i, e);
    if i == s.len() - 1 {
        assert(t.drop_last() =~= s.drop_last());
        assert(t.last() == e);
    } else {
        assert(t.drop_last() =~= s.drop_last().update(i, e));
        assert(t.last() == s.last());
        assert(s.drop_last()[i] == s[i]);
        lemma_count_true_update(s.drop_last(), i, e);
    }
}

proof fn lemma_count_true_le_len(s: Seq<(String, bool)>)
    ensures
        count_true(s) <= s.len(),
    decreases s.len(),
{
    if s.len() > 0 {
        lemma_count_true_le_len(s.drop_last());
    }
}

proof fn lemma_count_true_pos(s: Seq<(String, bool)>, i: int)
    requires
        0 <= i < s.len(),
        s[i].1,
    ensures
        count_true(s) >= 1,
    decreases s.len(),
{
    if i < s.len() - 1 {
        assert(s.drop_last()[i] == s[i]);
        lemma_count_true_pos(s.drop_last(), i);
    }
}

impl<T> View for AddrMap<T> {
    type V = Seq<(String, T)>;

    closed spec fn view(&self) -> Seq<(String, T)> {
        self.entries@
    }
}

impl<V: Copy> AddrMap<V> {
    /// The map this value denotes.
    pub open spec fn as_map(self) -> Map<Seq<char>, V> {
        map_of(self@)
    }

    /// Well-formed: no key occurs twice.
    pub open spec fn wf(self) -> bool {
        unique_keys(self@)
    }

    /// Number of keys held.
    pub open spec fn spec_len(self) -> nat {
        self@.len()
    }

    pub fn new() -> (r: Self)
        ensures
            r.wf(),
            r.as_map() == Map::<Seq<char>, V>::empty(),
            r.spec_len() == 0,
    {
        AddrMap { entries: Vec::new() }
    }

    pub fn len(&self) -> (r: usize)
        ensures
            r == self.spec_len(),
    {
        self.entries.len()
    }

    /// Index of the entry holding `key`, if any.
    fn find(&self, key: &String) -> (r: Option<usize>)
        ensures
            match r {
                Some(i) => i < self.entries@.len() && self.entries@[i as int].0@ == key@,
                None => forall|i: int| 0 <= i < self.entries@.len() ==> self.entries@[i].0@ != key@,
            },
    {
        let n = self.entries.len();
        let mut i: usize = 0;
        while i < n
            invariant
                n == self.entries@.len(),
                i <= n,
                forall|j: int| 0 <= j < i ==> self.entries@[j].0@ != key@,
            decreases n - i,
        {
            if self.entries[i].0 == *key {
                return Some(i);
            }
            i = i + 1;
        }
        None
    }

    /// The value stored under `key`, if any.
    pub fn get(&self, key: &String) -> (r: Option<V>)
        requires
            self.wf(),
        ensures
            match r {
                Some(v) => self.as_map().contains_key(key@) && self.as_map()[key@] == v,
                None => !self.as_map().contains_key(key@),
            },
    {
        proof {
            lemma_map_of_contains(self.entries@, key@);
        }
        match self.find(key) {
            Some(i) => {
                proof {
                    lemma_map_of_get(self.entries@, i as int);
                }
                Some(self.entries[i].1)
            },
            None => None,
        }
    }

    /// Store `value` under `key`, replacing any earlier value.
    pub fn insert(&mut self, key: &String, value: V)
        requires
            old(self).wf(),
        ensures
            final(self).wf(),
            final(self).as_map() == old(self).as_map().insert(key@, value),
    {
        match self.find(key) {
            Some(i) => {
                self.entries.set(i, (key.clone(), value));
                proof {
                    lemma_map_of_update(old(self).entries@, i as int, (*key, value));
                    assert(self.entries@ =~= old(self).entries@.update(i as int, (*key, value)));
                }
            },
            None => {
                self.entries.push((key.clone(), value));
                proof {
                    assert(self.entries@.drop_last() =~= old(self).entries@);
                    assert(self.entries@.last().0@ == key@);
                    assert forall|p: int, q: int|
                        0 <= p < q < self.entries@.len() implies self.entries@[p].0@
                        != self.entries@[q].0@ by {
                        if q < self.entries@.len() - 1 {
                            assert(old(self).entries@[p].0@ != old(self).entries@[q].0@);
                        } else {
                            assert(old(self).entries@[p].0@ != key@);
                        }
                    }
                }
            },
        }
    }
}

impl<V: Copy> AddrMap<V> {
    /// The entries as key-value pairs, for hosts that persist them.
    pub fn pairs(&self) -> (r: &Vec<(String, V)>)
        ensures
            r@ == self@,
    {
        &self.entries
    }

    /// A structurally fresh value denoting the same map.
    pub fn duplicate(&self) -> (r: Self)
        ensures
            r@ == self@,
    {
        let n = self.entries.len();
        let mut entries: Vec<(String, V)> = Vec::new();
        let mut i: usize = 0;
        while i < n
            invariant
                n == self.entries@.len(),
                i <= n,
                entries@.len() == i,
                forall|j: int| 0 <= j < i ==> entries@[j] == self.entries@[j],
            decreases n - i,
        {
            let e = &self.entries[i];
            entries.push((e.0.clone(), e.1));
            i = i + 1;
        }
        proof {
            assert(entries@ =~= self.entries@);
        }
        AddrMap { entries }
    }
}

impl AddrMap<bool> {
    /// How many keys hold the flag `true`.
    pub open spec fn true_count(self) -> nat {
        count_true(self@)
    }

    /// The count of `true` flags never exceeds the number of keys.
    pub proof fn lemma_true_count_le_len(self)
        ensures
            self.true_count() <= self.spec_len(),
    {
        lemma_count_true_le_len(self.entries@);
    }

    /// A key whose flag is `true` witnesses a positive count.
    pub proof fn lemma_true_count_pos(self, k: Seq<char>)
        requires
            self.wf(),
            self.as_map().contains_key(k),
            self.as_map()[k],
        ensures
            self.true_count() >= 1,
    {
        lemma_map_of_contains(self.entries@, k);
        let i = choose|i: int| 0 <= i < self.entries@.len() && self.entries@[i].0@ == k;
        lemma_map_of_get(self.entries@, i);
        lemma_count_true_pos(self.entries@, i);
    }

    /// Store `value` under `key` and report how the count of `true`
    /// flags moved.
    pub fn set_flag(&mut self, key: &String, value: bool)
        requires
            old(self).wf(),
        ensures
            final(self).wf(),
            final(self).as_map() == old(self).as_map().insert(key@, value),
            final(self).true_count() as int == old(self).true_count() as int - (if old(
                self,
            ).as_map().contains_key(key@) && old(self).as_map()[key@] {
                1int
            } else {
                0int
            }) + (if value {
                1int
            } else {
                0int
            }),
    {
        proof {
            lemma_map_of_contains(self.entries@, key@);
        }
        match self.find(key) {
            Some(i) => {
                self.entries.set(i, (key.clone(), value));
                proof {
                    lemma_map_of_get(old(self).entries@, i as int);
                    lemma_map_of_update(old(self).entries@, i as int, (*key, value));
                    lemma_count_true_update(old(self).entries@, i as int, (*key, value));
                    assert(self.entries@ =~= old(self).entries@.update(i as int, (*key, value)));
                }
            },
            None => {
                self.entries.push((key.clone(), value));
                proof {
                    assert(self.entries@.drop_last() =~= old(self).entries@);
                    assert(self.entries@.last().0@ == key@);
                    assert forall|p: int, q: int|
                        0 <= p < q < self.entries@.len() implies self.entries@[p].0@
                        != self.entries@[q].0@ by {
                        if q < self.entries@.len() - 1 {
                            assert(old(self).entries@[p].0@ != old(self).entries@[q].0@);
                        } else {
                            assert(old(self).entries@[p].0@ != key@);
                        }
                    }
                }
            },
        }
    }
}

} // verus!
