//! A small map keyed by text, kept as a list of entries in the order in which
//! the keys first came. It stands where the stored documents hold a JSON
//! object whose member names are identifiers: the mandate references of a
//! payment method, and its connector tokens.
//!
//! A hash map of the standard library would not do here: a stored document
//! has to be a function of the map, so its members are written in an order
//! that the map itself fixes, and of a hash map keyed by `String` nothing
//! can be proved, since no key model is known for that key.

use vstd::prelude::*;

verus! {

/// The map that a list of key and value pairs denotes: a later pair
/// overrides an earlier one with the same key.
pub open spec fn pairs_map<V>(s: Seq<(Seq<char>, V)>) -> Map<Seq<char>, V>
    decreases s.len(),
{
    if s.len() == 0 {
        Map::empty()
    } else {
        pairs_map(s.drop_last()).insert(s.last().0, s.last().1)
    }
}

/// No key stands twice in the list.
pub open spec fn distinct_keys<V>(s: Seq<(Seq<char>, V)>) -> bool {
    forall|i: int, j: int| 0 <= i < j < s.len() ==> #[trigger] s[i].0 != #[trigger] s[j].0
}

/// A key is in the map exactly if some pair of the list carries it.
pub proof fn lemma_pairs_map_keys<V>(s: Seq<(Seq<char>, V)>, k: Seq<char>)
    ensures
        pairs_map(s).contains_key(k) <==> exists|i: int| 0 <= i < s.len() && #[trigger] s[i].0 == k,
    decreases s.len(),
{
    if s.len() > 0 {
        let t = s.drop_last();
        lemma_pairs_map_keys(t, k);
        if pairs_map(s).contains_key(k) {
            if s.last().0 == k {
                assert(s[s.len() - 1].0 == k);
            } else {
                let i = choose|i: int| 0 <= i < t.len() && #[trigger] t[i].0 == k;
                assert(s[i].0 == k);
            }
        }
        if exists|i: int| 0 <= i < s.len() && #[trigger] s[i].0 == k {
            let i = choose|i: int| 0 <= i < s.len() && #[trigger] s[i].0 == k;
            if i < s.len() - 1 {
                assert(t[i].0 == k);
            }
        }
    }
}

/// Where keys are distinct, each pair's key maps to that pair's value.
pub proof fn lemma_pairs_map_value<V>(s: Seq<(Seq<char>, V)>, i: int)
    requires
        distinct_keys(s),
        0 <= i < s.len(),
    ensures
        pairs_map(s).contains_key(s[i].0),
        pairs_map(s)[s[i].0] == s[i].1,
    decreases s.len(),
{
    let t = s.drop_last();
    if i < s.len() - 1 {
        assert(distinct_keys(t)) by {
            assert forall|a: int, b: int| 0 <= a < b < t.len() implies #[trigger] t[a].0
                != #[trigger] t[b].0 by {
                assert(s[a].0 != s[b].0);
            }
        }
        lemma_pairs_map_value(t, i);
        assert(s[i].0 != s[s.len() - 1].0);
    }
}

/// Replacing the value of the pair at `i` is inserting under that pair's key.
pub proof fn lemma_pairs_map_update<V>(s: Seq<(Seq<char>, V)>, i: int, v: V)
    requires
        distinct_keys(s),
        0 <= i < s.len(),
    ensures
        pairs_map(s.update(i, (s[i].0, v))) == pairs_map(s).insert(s[i].0, v),
        distinct_keys(s.update(i, (s[i].0, v))),
    decreases s.len(),
{
    let k = s[i].0;
    let u = s.update(i, (k, v));
    let t = s.drop_last();
    assert(distinct_keys(u)) by {
        assert forall|a: int, b: int| 0 <= a < b < u.len() implies #[trigger] u[a].0
            != #[trigger] u[b].0 by {
            assert(s[a].0 != s[b].0);
        }
    }
    if i == s.len() - 1 {
        assert(u.drop_last() =~= t);
        assert(pairs_map(u) =~= pairs_map(s).insert(k, v));
    } else {
        assert(distinct_keys(t)) by {
            assert forall|a: int, b: int| 0 <= a < b < t.len() implies #[trigger] t[a].0
                != #[trigger] t[b].0 by {
                assert(s[a].0 != s[b].0);
            }
        }
        lemma_pairs_map_update(t, i, v);
        assert(u.drop_last() =~= t.update(i, (t[i].0, v)));
        assert(u.last() == s.last());
        assert(s[i].0 != s[s.len() - 1].0);
        assert(pairs_map(u) =~= pairs_map(s).insert(k, v));
    }
}

/// Appending a pair is inserting it.
pub proof fn lemma_pairs_map_push<V>(s: Seq<(Seq<char>, V)>, k: Seq<char>, v: V)
    ensures
        pairs_map(s.push((k, v))) == pairs_map(s).insert(k, v),
{
    assert(s.push((k, v)).drop_last() =~= s);
}

/// A map from text to `V`.
#[derive(Debug, PartialEq, Eq)]
pub struct TextMap<V: View> {
    entries: Vec<(String, V)>,
}

impl<V: View> TextMap<V> {
    /// The entries as pairs of views, in their order.
    pub closed spec fn pairs(&self) -> Seq<(Seq<char>, V::V)> {
        self.entries@.map_values(|e: (String, V)| (e.0@, e.1@))
    }

    /// The invariant of the type: no key stands twice.
    #[verifier::type_invariant]
    pub closed spec fn wf(&self) -> bool {
        distinct_keys(self.pairs())
    }

    /// An empty map.
    pub fn new() -> (r: Self)
        ensures
            r@ == Map::<Seq<char>, V::V>::empty(),
            r.pairs().len() == 0,
    {
        let r = TextMap { entries: Vec::new() };
        assert(r.pairs() =~= Seq::empty());
        r
    }

    /// The number of entries.
    pub fn len(&self) -> (n: usize)
        ensures
            n == self.pairs().len(),
    {
        self.entries.len()
    }

    /// The key of the entry at `i`.
    pub fn key_at(&self, i: usize) -> (k: &String)
        requires
            i < self.pairs().len(),
        ensures
            k@ == self.pairs()[i as int].0,
    {
        &self.entries[i].0
    }

    /// The value of the entry at `i`.
    pub fn value_at(&self, i: usize) -> (v: &V)
        requires
            i < self.pairs().len(),
        ensures
            v@ == self.pairs()[i as int].1,
    {
        &self.entries[i].1
    }

    /// The map is what its entries denote.
    pub proof fn lemma_view_of_pairs(&self)
        ensures
            self@ == pairs_map(self.pairs()),
    {
    }

    /// Every entry is in the map, under its key and with its value.
    pub proof fn lemma_entry_in_map(&self, i: int)
        requires
            self.wf(),
            0 <= i < self.pairs().len(),
        ensures
            self@.contains_key(self.pairs()[i].0),
            self@[self.pairs()[i].0] == self.pairs()[i].1,
    {
        lemma_pairs_map_value(self.pairs(), i);
    }

    /// Every key of the map is the key of some entry.
    pub proof fn lemma_key_has_entry(&self, k: Seq<char>)
        requires
            self@.contains_key(k),
        ensures
            exists|i: int| 0 <= i < self.pairs().len() && #[trigger] self.pairs()[i].0 == k,
    {
        lemma_pairs_map_keys(self.pairs(), k);
    }

    fn position(&self, key: &str) -> (r: Option<usize>)
        ensures
            match r {
                Some(i) => i < self.pairs().len() && self.pairs()[i as int].0 == key@,
                None => !self@.contains_key(key@),
            },
    {
        let mut i: usize = 0;
        while i < self.entries.len()
            invariant
                i <= self.entries@.len(),
                forall|j: int| 0 <= j < i ==> (#[trigger] self.pairs()[j]).0 != key@,
            decreases self.entries@.len() - i,
        {
            if crate::text::same_text(self.entries[i].0.as_str(), key) {
                return Some(i);
            }
            i += 1;
        }
        proof {
            lemma_pairs_map_keys(self.pairs(), key@);
        }
        None
    }

    /// Whether `key` has a value.
    pub fn contains_key(&self, key: &str) -> (r: bool)
        ensures
            r == self@.contains_key(key@),
    {
        match self.position(key) {
            Some(i) => {
                proof {
                    lemma_pairs_map_keys(self.pairs(), key@);
                }
                true
            },
            None => false,
        }
    }

    /// The value under `key`, if it has one.
    pub fn get(&self, key: &str) -> (r: Option<&V>)
        ensures
            match r {
                Some(v) => self@.contains_key(key@) && self@[key@] == v@,
                None => !self@.contains_key(key@),
            },
    {
        match self.position(key) {
            Some(i) => {
                proof {
                    use_type_invariant(self);
                    lemma_pairs_map_value(self.pairs(), i as int);
                }
                Some(&self.entries[i].1)
            },
            None => None,
        }
    }

    /// Puts `value` under `key`. Only that key changes: an entry that was
    /// there keeps its place, a new one goes to the end.
    pub fn insert(&mut self, key: String, value: V)
        ensures
            final(self)@ == old(self)@.insert(key@, value@),
    {
        proof {
            use_type_invariant(&*self);
        }
        let ghost before = self.pairs();
        let found = self.position(key.as_str());
        let mut entries: Vec<(String, V)> = Vec::new();
        std::mem::swap(&mut self.entries, &mut entries);
        let ghost k = key@;
        let ghost v = value@;
        match found {
            Some(i) => {
                entries.set(i, (key, value));
                proof {
                    let after = before.update(i as int, (before[i as int].0, v));
                    lemma_pairs_map_update(before, i as int, v);
                    assert(entries@.map_values(|e: (String, V)| (e.0@, e.1@)) =~= after);
                }
                self.entries = entries;
            },
            None => {
                proof {
                    lemma_pairs_map_keys(before, k);
                    let after = before.push((k, v));
                    assert forall|a: int, b: int| 0 <= a < b < after.len() implies (
                    #[trigger] after[a]).0 != (#[trigger] after[b]).0 by {
                        if b < before.len() {
                            assert(before[a].0 != before[b].0);
                        } else {
                            assert(before[a].0 != k);
                        }
                    }
                    assert(entries@.push((key, value)).map_values(|e: (String, V)| (e.0@, e.1@))
                        =~= after);
                }
                entries.push((key, value));
                self.entries = entries;
                proof {
                    assert(self.pairs() =~= before.push((k, v)));
                    lemma_pairs_map_push(before, k, v);
                }
            },
        }
    }
}

impl<V: View> View for TextMap<V> {
    type V = Map<Seq<char>, V::V>;

    closed spec fn view(&self) -> Map<Seq<char>, V::V> {
        pairs_map(self.pairs())
    }
}

} // verus!
