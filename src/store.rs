//! The result store: task identifier to last extracted text.
use vstd::prelude::*;

verus! {

/// The views of a sequence of key/value string pairs.
pub open spec fn pair_views(s: Seq<(String, String)>) -> Seq<(Seq<char>, Seq<char>)> {
    s.map_values(|e: (String, String)| (e.0@, e.1@))
}

/// The mapping that a sequence of pairs builds when inserted in order:
/// a later pair for the same key replaces an earlier one.
pub open spec fn pairs_map(s: Seq<(Seq<char>, Seq<char>)>) -> Map<Seq<char>, Seq<char>>
    decreases s.len(),
{
    if s.len() == 0 {
        Map::empty()
    } else {
        pairs_map(s.drop_last()).insert(s.last().0, s.last().1)
    }
}

/// No key occurs twice in the sequence.
pub open spec fn keys_unique(s: Seq<(Seq<char>, Seq<char>)>) -> bool {
    forall|i: int, j: int| 0 <= i < j < s.len() ==> s[i].0 != s[j].0
}

/// Every key of the built map comes from some pair, every pair's key is in
/// it, and with unique keys each pair's value is the one the map holds.
pub proof fn lemma_pairs_map_facts(s: Seq<(Seq<char>, Seq<char>)>)
    ensures
        forall|i: int| 0 <= i < s.len() ==> #[trigger] pairs_map(s).contains_key(s[i].0),
        forall|k: Seq<char>| #[trigger] pairs_map(s).contains_key(k) ==> exists|i: int|
            0 <= i < s.len() && s[i].0 == k,
        keys_unique(s) ==> forall|i: int|
            0 <= i < s.len() ==> #[trigger] pairs_map(s)[s[i].0] == s[i].1,
    decreases s.len(),
{
    if s.len() > 0 {
        let t = s.drop_last();
        lemma_pairs_map_facts(t);
        assert(pairs_map(s) == pairs_map(t).insert(s.last().0, s.last().1));
        assert(s.last() == s[s.len() - 1]);
        assert forall|i: int| 0 <= i < s.len() implies #[trigger] pairs_map(s).contains_key(
            s[i].0,
        ) by {
            if i < t.len() {
                assert(t[i] == s[i]);
            }
        }
        assert forall|k: Seq<char>| #[trigger] pairs_map(s).contains_key(k) implies exists|i: int|
            0 <= i < s.len() && s[i].0 == k by {
            if k == s.last().0 {
                assert(s[s.len() - 1].0 == k);
            } else {
                assert(pairs_map(t).contains_key(k));
                let i = choose|i: int| 0 <= i < t.len() && t[i].0 == k;
                assert(t[i] == s[i]);
                assert(s[i].0 == k);
            }
        }
        if keys_unique(s) {
            assert forall|i: int| 0 <= i < s.len() implies #[trigger] pairs_map(s)[s[i].0]
                == s[i].1 by {
                if i < t.len() {
                    assert(t[i] == s[i]);
                    assert(s[i].0 != s[s.len() - 1].0);
                }
            }
        }
    }
}

/// Replacing the value of a pair whose key is unique changes only that key.
proof fn lemma_pairs_map_update(s: Seq<(Seq<char>, Seq<char>)>, i: int, v: Seq<char>)
    requires
        keys_unique(s),
        0 <= i < s.len(),
    ensures
        keys_unique(s.update(i, (s[i].0, v))),
        pairs_map(s.update(i, (s[i].0, v))) == pairs_map(s).insert(s[i].0, v),
{
    let u = s.update(i, (s[i].0, v));
    assert(keys_unique(u)) by {
        assert forall|a: int, b: int| 0 <= a < b < u.len() implies u[a].0 != u[b].0 by {
            assert(u[a].0 == s[a].0 && u[b].0 == s[b].0);
        }
    }
    lemma_pairs_map_facts(s);
    lemma_pairs_map_facts(u);
    let m1 = pairs_map(u);
    let m2 = pairs_map(s).insert(s[i].0, v);
    assert(u[i].0 == s[i].0);
    assert(m1.contains_key(u[i].0));
    assert forall|k: Seq<char>| m1.contains_key(k) <==> m2.contains_key(k) by {
        if m1.contains_key(k) && k != s[i].0 {
            let j = choose|j: int| 0 <= j < u.len() && u[j].0 == k;
            assert(j != i);
            assert(u[j] == s[j]);
            assert(s[j].0 == k);
        }
        if m2.contains_key(k) && k != s[i].0 {
            let j = choose|j: int| 0 <= j < s.len() && s[j].0 == k;
            assert(j != i);
            assert(u[j] == s[j]);
            assert(u[j].0 == k);
        }
    }
    assert forall|k: Seq<char>| m1.contains_key(k) implies m1[k] == m2[k] by {
        let j = choose|j: int| 0 <= j < u.len() && u[j].0 == k;
        assert(m1[u[j].0] == u[j].1);
        if j != i {
            assert(s[j] == u[j]);
            assert(pairs_map(s)[s[j].0] == s[j].1);
        }
    }
    assert(m1 =~= m2);
}

/// The last extracted text of each task, keyed by the task's identifier.
///
/// Each identifier occurs at most once; entries keep the order in which
/// their identifiers were first recorded.
pub struct ResultStore {
    entries: Vec<(String, String)>,
}

impl View for ResultStore {
    type V = Map<Seq<char>, Seq<char>>;

    /// The store as a mapping from identifier to last extracted text.
    closed spec fn view(&self) -> Map<Seq<char>, Seq<char>> {
        pairs_map(self.pairs())
    }
}

impl ResultStore {
    /// The entries' contents as plain sequences.
    pub closed spec fn pairs(&self) -> Seq<(Seq<char>, Seq<char>)> {
        pair_views(self.entries@)
    }

    /// Well-formed: no identifier is stored twice.
    pub closed spec fn wf(&self) -> bool {
        keys_unique(self.pairs())
    }

    /// An empty store.
    pub fn new() -> (r: Self)
        ensures
            r.wf(),
            r@ == Map::<Seq<char>, Seq<char>>::empty(),
    {
        let r = ResultStore { entries: Vec::new() };
        assert(r.pairs() =~= Seq::empty());
        r
    }

    /// Number of identifiers recorded.
    pub fn len(&self) -> (r: usize)
        requires
            self.wf(),
        ensures
            r == self@.len(),
    {
        proof { self.lemma_len(); }
        self.entries.len()
    }

    /// With unique identifiers, the mapping has one key per entry.
    proof fn lemma_len(&self)
        requires
            self.wf(),
        ensures
            self@.len() == self.entries@.len(),
    {
        let s = self.pairs();
        lemma_pairs_map_facts(s);
        let f = |i: int| s[i].0;
        let idx = Set::new(|i: int| 0 <= i < s.len());
        assert(idx =~= vstd::set_lib::set_int_range(0, s.len() as int));
        vstd::set_lib::lemma_int_range(0, s.len() as int);
        assert(idx.map(f) =~= self@.dom()) by {
            assert forall|k: Seq<char>| self@.dom().contains(k) implies idx.map(f).contains(k) by {
                let i = choose|i: int| 0 <= i < s.len() && s[i].0 == k;
                assert(idx.contains(i) && f(i) == k);
            }
        }
        assert(vstd::relations::injective_on(f, idx)) by {
            assert forall|a: int, b: int| idx.contains(a) && idx.contains(b) && #[trigger] f(a) == #[trigger] f(b) implies a == b by {
                if a < b { } else if b < a { }
            }
        }
        vstd::set_lib::lemma_map_size(idx, idx.map(f), f);
    }

    /// The last text recorded for `id`, if any.
    pub fn get(&self, id: &String) -> (r: Option<&String>)
        requires
            self.wf(),
        ensures
            match r {
                Some(v) => self@.contains_key(id@) && v@ == self@[id@],
                None => !self@.contains_key(id@),
            },
    {
        let mut i: usize = 0;
        while i < self.entries.len()
            invariant
                0 <= i <= self.entries@.len(),
                self.wf(),
                forall|j: int| 0 <= j < i ==> self.pairs()[j].0 != id@,
            decreases self.entries@.len() - i,
        {
            if self.entries[i].0 == *id {
                proof { lemma_pairs_map_facts(self.pairs()); }
                assert(self.pairs()[i as int] == (self.entries@[i as int].0@, self.entries@[i as int].1@));
                assert(self@[self.pairs()[i as int].0] == self.pairs()[i as int].1);
                assert(self@.contains_key(self.pairs()[i as int].0));
                return Some(&self.entries[i].1);
            }
            assert(self.pairs()[i as int].0 == self.entries@[i as int].0@);
            i = i + 1;
        }
        proof { lemma_pairs_map_facts(self.pairs()); }
        None
    }

    /// Records `value` as the last text for `id`, replacing any earlier one.
    pub fn insert(&mut self, id: String, value: String)
        requires
            old(self).wf(),
        ensures
            final(self).wf(),
            final(self)@ == old(self)@.insert(id@, value@),
    {
        let ghost s = self.pairs();
        let mut i: usize = 0;
        while i < self.entries.len()
            invariant
                0 <= i <= self.entries@.len(),
                self.pairs() == s,
                s == old(self).pairs(),
                keys_unique(s),
                forall|j: int| 0 <= j < i ==> s[j].0 != id@,
            decreases self.entries@.len() - i,
        {
            if self.entries[i].0 == id {
                assert(s[i as int].0 == id@);
                proof { lemma_pairs_map_update(s, i as int, value@); }
                let ghost nv = value@;
                self.entries.set(i, (id, value));
                assert(self.pairs() =~= s.update(i as int, (s[i as int].0, nv)));
                return;
            }
            assert(s[i as int].0 == self.entries@[i as int].0@);
            i = i + 1;
        }
        let ghost (ki, vi) = (id@, value@);
        self.entries.push((id, value));
        assert(self.pairs().drop_last() =~= s);
        assert(self.pairs().last() == (ki, vi));
        assert(self.pairs().len() > 0);
        assert(keys_unique(self.pairs())) by {
            let p = self.pairs();
            assert forall|a: int, b: int| 0 <= a < b < p.len() implies p[a].0 != p[b].0 by {
                assert(p[a] == s[a]);
                if b < s.len() {
                    assert(p[b] == s[b]);
                }
            }
        }
    }

    /// A store holding `pairs`, inserted in order: where an identifier occurs
    /// more than once, its last text is kept.
    pub fn from_entries(pairs: &Vec<(String, String)>) -> (r: Self)
        ensures
            r.wf(),
            r@ == pairs_map(pair_views(pairs@)),
    {
        let mut r = ResultStore::new();
        let mut i: usize = 0;
        while i < pairs.len()
            invariant
                0 <= i <= pairs@.len(),
                r.wf(),
                r@ == pairs_map(pair_views(pairs@).take(i as int)),
            decreases pairs@.len() - i,
        {
            let ghost before = pair_views(pairs@).take(i as int);
            r.insert(pairs[i].0.clone(), pairs[i].1.clone());
            assert(pair_views(pairs@).take(i + 1).drop_last() =~= before);
            i = i + 1;
        }
        assert(pair_views(pairs@).take(i as int) =~= pair_views(pairs@));
        r
    }

    /// The store to start from: the saved entries where they could be read,
    /// else an empty store. A missing or unreadable save is never an error.
    pub fn from_saved(saved: Option<Vec<(String, String)>>) -> (r: Self)
        ensures
            r.wf(),
            r@ == (match saved {
                Some(p) => pairs_map(pair_views(p@)),
                None => Map::<Seq<char>, Seq<char>>::empty(),
            }),
    {
        match saved {
            Some(p) => ResultStore::from_entries(&p),
            None => ResultStore::new(),
        }
    }

    /// The stored entries, one per identifier, in the store's order.
    pub fn to_entries(&self) -> (r: Vec<(String, String)>)
        requires
            self.wf(),
        ensures
            pair_views(r@) == self.pairs(),
    {
        let mut r: Vec<(String, String)> = Vec::new();
        let mut i: usize = 0;
        while i < self.entries.len()
            invariant
                0 <= i <= self.entries@.len(),
                r@.len() == i,
                pair_views(r@) =~= self.pairs().take(i as int),
            decreases self.entries@.len() - i,
        {
            let k = self.entries[i].0.clone();
            let v = self.entries[i].1.clone();
            let ghost prev = r@;
            r.push((k, v));
            assert(r@ == prev.push((k, v)));
            assert(self.pairs()[i as int] == (self.entries@[i as int].0@, self.entries@[i as int].1@));
            assert(pair_views(r@)[i as int] == (k@, v@));
            assert(pair_views(r@) =~= self.pairs().take(i + 1));
            i = i + 1;
        }
        assert(self.pairs().take(i as int) =~= self.pairs());
        r
    }

    /// Persisted state round-trips: the entries that `to_entries` hands out,
    /// once loaded again with `from_entries`, give back the same mapping, and
    /// hold no identifier twice.
    pub proof fn lemma_saved_entries_reload(&self, saved: Seq<(String, String)>)
        requires
            self.wf(),
            pair_views(saved) == self.pairs(),
        ensures
            pairs_map(pair_views(saved)) == self@,
            keys_unique(pair_views(saved)),
    {
    }
}

} // verus!
