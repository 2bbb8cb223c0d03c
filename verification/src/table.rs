use vstd::prelude::*;

verus! {

/// The map that a list of keyed entries stands for: a later entry for a key wins.
pub open spec fn entries_map<V: View>(s: Seq<(String, V)>) -> Map<Seq<char>, V::V>
    decreases s.len(),
{
    if s.len() == 0 {
        Map::empty()
    } else {
        entries_map(s.drop_last()).insert(s.last().0@, s.last().1@)
    }
}

/// No two entries of `s` have the same key.
pub open spec fn keys_distinct<V>(s: Seq<(String, V)>) -> bool {
    forall|i: int, j: int| 0 <= i < j < s.len() ==> #[trigger] s[i].0@ != #[trigger] s[j].0@
}

proof fn lemma_entries_map_domain<V: View>(s: Seq<(String, V)>, k: Seq<char>)
    ensures
        entries_map(s).contains_key(k) <==> exists|i: int| 0 <= i < s.len() && #[trigger] s[i].0@ == k,
    decreases s.len(),
{
    if s.len() > 0 {
        let t = s.drop_last();
        lemma_entries_map_domain(t, k);
        if entries_map(s).contains_key(k) {
            if k == s.last().0@ {
                assert(s[s.len() - 1].0@ == k);
            } else {
                let i = choose|i: int| 0 <= i < t.len() && #[trigger] t[i].0@ == k;
                assert(s[i].0@ == k);
            }
        }
        if exists|i: int| 0 <= i < s.len() && #[trigger] s[i].0@ == k {
            let i = choose|i: int| 0 <= i < s.len() && #[trigger] s[i].0@ == k;
            if i < s.len() - 1 {
                assert(t[i].0@ == k);
            }
        }
    }
}

proof fn lemma_entries_map_value<V: View>(s: Seq<(String, V)>, i: int)
    requires
        keys_distinct(s),
        0 <= i < s.len(),
    ensures
        entries_map(s).contains_key(s[i].0@),
        entries_map(s)[s[i].0@] == s[i].1@,
    decreases s.len(),
{
    let t = s.drop_last();
    if i < s.len() - 1 {
        assert(keys_distinct(t));
        assert(t[i] == s[i]);
        lemma_entries_map_value(t, i);
        assert(s[i].0@ != s[s.len() - 1].0@);
    }
}

proof fn lemma_entries_map_update<V: View>(s: Seq<(String, V)>, i: int, e: (String, V))
    requires
        keys_distinct(s),
        0 <= i < s.len(),
        s[i].0@ == e.0@,
    ensures
        keys_distinct(s.update(i, e)),
        entries_map(s.update(i, e)) == entries_map(s).insert(e.0@, e.1@),
    decreases s.len(),
{
    let u = s.update(i, e);
    assert forall|a: int, b: int| 0 <= a < b < u.len() implies #[trigger] u[a].0@ != #[trigger] u[b].0@ by {
        assert(s[a].0@ != s[b].0@);
    }
    let t = s.drop_last();
    if i == s.len() - 1 {
        assert(u.drop_last() =~= t);
        assert(!entries_map(t).contains_key(e.0@)) by {
            lemma_entries_map_domain(t, e.0@);
            if entries_map(t).contains_key(e.0@) {
                let j = choose|j: int| 0 <= j < t.len() && #[trigger] t[j].0@ == e.0@;
                assert(s[j].0@ != s[i].0@);
            }
        }
        assert(entries_map(u) =~= entries_map(s).insert(e.0@, e.1@));
    } else {
        assert(keys_distinct(t));
        lemma_entries_map_update(t, i, e);
        assert(u.drop_last() =~= t.update(i, e));
        assert(s.last().0@ != e.0@) by {
            assert(s[i].0@ != s[s.len() - 1].0@);
        }
        assert(entries_map(u) =~= entries_map(s).insert(e.0@, e.1@));
    }
}

proof fn lemma_entries_map_len<V: View>(s: Seq<(String, V)>)
    requires
        keys_distinct(s),
    ensures
        entries_map(s).dom().finite(),
        entries_map(s).dom().len() == s.len(),
    decreases s.len(),
{
    if s.len() > 0 {
        let t = s.drop_last();
        assert(keys_distinct(t));
        lemma_entries_map_len(t);
        lemma_entries_map_domain(t, s.last().0@);
        if entries_map(t).contains_key(s.last().0@) {
            let j = choose|j: int| 0 <= j < t.len() && #[trigger] t[j].0@ == s.last().0@;
            assert(s[j].0@ != s[s.len() - 1].0@);
        }
    }
}

/// A map from string keys to records, kept as a list of entries with distinct keys.
#[derive(Debug)]
pub struct Table<V> {
    entries: Vec<(String, V)>,
}

impl<V> Table<V> {
    /// The keys of the table, in the order of its listing.
    pub closed spec fn keys(self) -> Seq<Seq<char>> {
        self.entries@.map_values(|e: (String, V)| e.0@)
    }
}

impl<V: View> View for Table<V> {
    type V = Map<Seq<char>, V::V>;

    closed spec fn view(&self) -> Map<Seq<char>, V::V> {
        entries_map(self.entries@)
    }
}

impl<V> Table<V> {
    #[verifier::type_invariant]
    closed spec fn distinct(self) -> bool {
        keys_distinct(self.entries@)
    }
}

impl<V: View> Table<V> {
    /// The empty table.
    pub fn new() -> (t: Table<V>)
        ensures
            t@ == Map::<Seq<char>, V::V>::empty(),
    {
        let entries: Vec<(String, V)> = Vec::new();
        assert(keys_distinct(entries@));
        Table { entries }
    }

    /// The number of keys in the table. The listing holds each key once, and exactly the
    /// table's keys.
    pub fn len(&self) -> (n: usize)
        ensures
            self@.dom().finite(),
            n == self@.dom().len(),
            n == self.keys().len(),
            self.keys().no_duplicates(),
            forall|k: Seq<char>| self@.contains_key(k) <==> self.keys().contains(k),
    {
        proof {
            use_type_invariant(self);
            lemma_entries_map_len(self.entries@);
            let ks = self.keys();
            assert forall|k: Seq<char>| self@.contains_key(k) <==> ks.contains(k) by {
                lemma_entries_map_domain(self.entries@, k);
                if self@.contains_key(k) {
                    let i = choose|i: int| 0 <= i < self.entries@.len() && #[trigger] self.entries@[i].0@ == k;
                    assert(ks[i] == k);
                }
                if ks.contains(k) {
                    let i = choose|i: int| 0 <= i < ks.len() && ks[i] == k;
                    assert(self.entries@[i].0@ == k);
                }
            }
            assert forall|i: int, j: int| 0 <= i < ks.len() && 0 <= j < ks.len() && i != j implies ks[i] != ks[j] by {
                if i < j {
                    assert(self.entries@[i].0@ != self.entries@[j].0@);
                } else {
                    assert(self.entries@[j].0@ != self.entries@[i].0@);
                }
            }
        }
        self.entries.len()
    }

    fn position(&self, key: &String) -> (r: Option<usize>)
        ensures
            r is None ==> !self@.contains_key(key@),
            r matches Some(i) ==> i < self.entries@.len() && self.entries@[i as int].0@ == key@,
    {
        proof {
            lemma_entries_map_domain(self.entries@, key@);
        }
        let mut i: usize = 0;
        while i < self.entries.len()
            invariant
                i <= self.entries@.len(),
                forall|j: int| 0 <= j < i ==> self.entries@[j].0@ != key@,
            decreases self.entries@.len() - i,
        {
            if self.entries[i].0 == *key {
                return Some(i);
            }
            i = i + 1;
        }
        None
    }

    /// The record stored under `key`, if any.
    pub fn get(&self, key: &String) -> (r: Option<&V>)
        ensures
            r is Some <==> self@.contains_key(key@),
            r matches Some(v) ==> v@ == self@[key@],
    {
        proof {
            use_type_invariant(self);
        }
        match self.position(key) {
            None => None,
            Some(i) => {
                proof {
                    lemma_entries_map_value(self.entries@, i as int);
                }
                Some(&self.entries[i].1)
            },
        }
    }

    /// Whether a record is stored under `key`.
    pub fn contains(&self, key: &String) -> (r: bool)
        ensures
            r == self@.contains_key(key@),
    {
        proof {
            lemma_entries_map_domain(self.entries@, key@);
        }
        self.position(key).is_some()
    }

    /// Stores `value` under `key`, in place of any record stored there.
    pub fn set(&mut self, key: String, value: V)
        ensures
            final(self)@ == old(self)@.insert(key@, value@),
    {
        proof {
            use_type_invariant(&*self);
        }
        let pos = self.position(&key);
        let mut entries: Vec<(String, V)> = Vec::new();
        std::mem::swap(&mut entries, &mut self.entries);
        match pos {
            Some(i) => {
                proof {
                    lemma_entries_map_update(entries@, i as int, (key, value));
                }
                entries.set(i, (key, value));
            },
            None => {
                proof {
                    lemma_entries_map_domain(entries@, key@);
                    assert forall|a: int, b: int|
                        0 <= a < b < entries@.len() + 1 implies #[trigger] entries@.push(
                        (key, value),
                    )[a].0@ != #[trigger] entries@.push((key, value))[b].0@ by {
                        if b == entries@.len() {
                            assert(entries@[a].0@ != key@);
                        }
                    }
                    assert(entries@.push((key, value)).drop_last() =~= entries@);
                }
                entries.push((key, value));
            },
        }
        self.entries = entries;
    }

    /// The entry at position `i` of the table's listing, for a caller that walks all entries.
    pub fn entry(&self, i: usize) -> (r: (&String, &V))
        requires
            i < self@.dom().len(),
        ensures
            r.0@ == self.keys()[i as int],
            self@.contains_key(r.0@),
            self@[r.0@] == r.1@,
    {
        proof {
            use_type_invariant(self);
            lemma_entries_map_len(self.entries@);
            lemma_entries_map_value(self.entries@, i as int);
        }
        (&self.entries[i].0, &self.entries[i].1)
    }
}

} // verus!
