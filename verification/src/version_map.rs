//! The resolved version table: package key (`py.<name>` / `npm.<name>`) to version,
//! kept in ascending key order like the ordered map the templates iterate.

use vstd::prelude::*;

use crate::text::{lemma_seq_lt_irreflexive, lemma_seq_lt_total, lemma_seq_lt_transitive, seq_lt, str_eq, str_lt};

verus! {

/// The map that a list of (key, value) pairs denotes; a later pair wins over an earlier one.
pub open spec fn pairs_to_map(s: Seq<(Seq<char>, Seq<char>)>) -> Map<Seq<char>, Seq<char>>
    decreases s.len(),
{
    if s.len() == 0 {
        Map::empty()
    } else {
        pairs_to_map(s.drop_last()).insert(s.last().0, s.last().1)
    }
}

/// The (key, version) views of a list of string pairs.
pub open spec fn views_of(v: Seq<(String, String)>) -> Seq<(Seq<char>, Seq<char>)> {
    v.map_values(|e: (String, String)| (e.0@, e.1@))
}

/// Keys strictly ascending.
pub open spec fn keys_sorted(s: Seq<(Seq<char>, Seq<char>)>) -> bool {
    forall|i: int, j: int| 0 <= i < j < s.len() ==> seq_lt(#[trigger] s[i].0, #[trigger] s[j].0)
}

pub proof fn lemma_pairs_lookup(s: Seq<(Seq<char>, Seq<char>)>)
    requires
        keys_sorted(s),
    ensures
        forall|k: Seq<char>|
            #[trigger] pairs_to_map(s).contains_key(k) ==> exists|i: int|
                0 <= i < s.len() && #[trigger] s[i].0 == k,
        forall|i: int|
            0 <= i < s.len() ==> #[trigger] pairs_to_map(s).contains_key(s[i].0) && pairs_to_map(
                s,
            )[s[i].0] == s[i].1,
    decreases s.len(),
{
    if s.len() > 0 {
        let t = s.drop_last();
        assert(keys_sorted(t)) by {
            assert forall|i: int, j: int| 0 <= i < j < t.len() implies seq_lt(
                #[trigger] t[i].0,
                #[trigger] t[j].0,
            ) by {
                assert(t[i] == s[i] && t[j] == s[j]);
            }
        }
        lemma_pairs_lookup(t);
        let last = s[s.len() - 1];
        assert forall|k: Seq<char>| #[trigger] pairs_to_map(s).contains_key(k) implies exists|i: int|
            0 <= i < s.len() && #[trigger] s[i].0 == k by {
            if k == last.0 {
                assert(s[s.len() - 1].0 == k);
            } else {
                assert(pairs_to_map(t).contains_key(k));
                let i = choose|i: int| 0 <= i < t.len() && #[trigger] t[i].0 == k;
                assert(t[i] == s[i]);
                assert(s[i].0 == k);
            }
        }
        assert forall|i: int| 0 <= i < s.len() implies #[trigger] pairs_to_map(s).contains_key(
            s[i].0,
        ) && pairs_to_map(s)[s[i].0] == s[i].1 by {
            if i < s.len() - 1 {
                assert(t[i] == s[i]);
                assert(seq_lt(s[i].0, s[s.len() - 1].0));
                lemma_seq_lt_irreflexive(s[i].0);
                assert(pairs_to_map(t).contains_key(t[i].0));
            }
        }
    }
}

/// A version table keyed by package (`py.django`, `npm.react`, ...).
pub struct VersionMap {
    entries: Vec<(String, String)>,
}

impl VersionMap {
    /// The (key, version) pairs in ascending key order.
    pub closed spec fn pairs(&self) -> Seq<(Seq<char>, Seq<char>)> {
        views_of(self.entries@)
    }

    #[verifier::type_invariant]
    spec fn sorted(&self) -> bool {
        keys_sorted(self.pairs())
    }

    /// An empty table.
    pub fn new() -> (res: Self)
        ensures
            res@ == Map::<Seq<char>, Seq<char>>::empty(),
            res.pairs().len() == 0,
    {
        let res = VersionMap { entries: Vec::new() };
        assert(res.pairs() =~= Seq::empty());
        res
    }

    /// Number of keys.
    pub fn len(&self) -> (res: usize)
        ensures
            res == self.pairs().len(),
    {
        self.entries.len()
    }

    /// The version stored under `key`, if any.
    pub fn get(&self, key: &str) -> (res: Option<String>)
        ensures
            res is Some <==> self@.contains_key(key@),
            res matches Some(v) ==> v@ == self@[key@],
    {
        proof {
            use_type_invariant(self);
            lemma_pairs_lookup(self.pairs());
        }
        let mut i: usize = 0;
        while i < self.entries.len()
            invariant
                i <= self.entries.len(),
                forall|j: int| 0 <= j < i ==> self.pairs()[j].0 != key@,
            decreases self.entries.len() - i,
        {
            assert(self.pairs()[i as int] == (self.entries@[i as int].0@, self.entries@[i as int].1@));
            if str_eq(self.entries[i].0.as_str(), key) {
                proof {
                    use_type_invariant(self);
                    lemma_pairs_lookup(self.pairs());
                    assert(pairs_to_map(self.pairs()).contains_key(self.pairs()[i as int].0));
                }
                return Some(self.entries[i].1.clone());
            }
            i = i + 1;
        }
        None
    }

    /// Whether `key` has a version.
    pub fn contains_key(&self, key: &str) -> (res: bool)
        ensures
            res == self@.contains_key(key@),
    {
        self.get(key).is_some()
    }

    /// Stores `value` under `key`, replacing any earlier version.
    pub fn insert(&mut self, key: String, value: String)
        ensures
            final(self)@ == old(self)@.insert(key@, value@),
    {
        proof {
            use_type_invariant(&*self);
            lemma_pairs_lookup(self.pairs());
        }
        let ghost old_pairs = self.pairs();
        let mut entries: Vec<(String, String)> = Vec::new();
        std::mem::swap(&mut entries, &mut self.entries);
        assert(views_of(entries@) == old_pairs);
        let mut i: usize = 0;
        while i < entries.len() && str_lt(entries[i].0.as_str(), key.as_str())
            invariant
                i <= entries.len(),
                views_of(entries@) == old_pairs,
                forall|j: int| 0 <= j < i ==> seq_lt(#[trigger] old_pairs[j].0, key@),
            decreases entries.len() - i,
        {
            assert(old_pairs[i as int].0 == entries@[i as int].0@);
            i = i + 1;
        }
        let ghost new_pairs: Seq<(Seq<char>, Seq<char>)>;
        if i < entries.len() && str_eq(entries[i].0.as_str(), key.as_str()) {
            let ghost kv = (key@, value@);
            entries.set(i, (key, value));
            proof {
                new_pairs = old_pairs.update(i as int, kv);
                assert(views_of(entries@) =~= new_pairs);
            }
        } else {
            let ghost kv = (key@, value@);
            proof {
                if i < entries.len() {
                    assert(old_pairs[i as int].0 == entries@[i as int].0@);
                    lemma_seq_lt_total(kv.0, old_pairs[i as int].0);
                }
            }
            entries.insert(i, (key, value));
            proof {
                new_pairs = old_pairs.insert(i as int, kv);
                assert(views_of(entries@) =~= new_pairs);
            }
        }
        proof {
            assert forall|a: int, b: int| 0 <= a < b < new_pairs.len() implies seq_lt(
                #[trigger] new_pairs[a].0,
                #[trigger] new_pairs[b].0,
            ) by {
                if new_pairs.len() == old_pairs.len() {
                    // replaced in place: same keys
                    assert(new_pairs[a].0 == old_pairs[a].0);
                    assert(new_pairs[b].0 == old_pairs[b].0);
                } else {
                    if b < i {
                        assert(new_pairs[a] == old_pairs[a]);
                        assert(new_pairs[b] == old_pairs[b]);
                    } else if b == i {
                        assert(new_pairs[a] == old_pairs[a]);
                    } else if a == i {
                        assert(new_pairs[b] == old_pairs[b - 1]);
                        if b - 1 > i {
                            lemma_seq_lt_transitive(new_pairs[a].0, old_pairs[i as int].0, old_pairs[b - 1].0);
                        }
                    } else if a < i {
                        assert(new_pairs[a] == old_pairs[a]);
                        assert(new_pairs[b] == old_pairs[b - 1]);
                    } else {
                        assert(new_pairs[a] == old_pairs[a - 1]);
                        assert(new_pairs[b] == old_pairs[b - 1]);
                    }
                }
            }
            lemma_pairs_lookup(new_pairs);
            let target = old_pairs_map_insert(old_pairs, key@, value@);
            assert forall|k: Seq<char>| #[trigger] pairs_to_map(new_pairs).contains_key(k) <==> target.contains_key(k) by {
                if target.contains_key(k) && k != key@ {
                    let j = choose|j: int| 0 <= j < old_pairs.len() && old_pairs[j].0 == k;
                    if new_pairs.len() == old_pairs.len() {
                        assert(new_pairs[j].0 == k);
                    } else if j < i {
                        assert(new_pairs[j].0 == k);
                    } else {
                        assert(new_pairs[j + 1].0 == k);
                    }
                }
                if k == key@ {
                    assert(new_pairs[i as int].0 == k);
                }
                if pairs_to_map(new_pairs).contains_key(k) && k != key@ {
                    let j = choose|j: int| 0 <= j < new_pairs.len() && new_pairs[j].0 == k;
                    if new_pairs.len() == old_pairs.len() {
                        assert(old_pairs[j].0 == k);
                    } else if j < i {
                        assert(old_pairs[j].0 == k);
                    } else {
                        assert(old_pairs[j - 1].0 == k);
                    }
                }
            }
            assert forall|k: Seq<char>| #[trigger] pairs_to_map(new_pairs).contains_key(k) implies pairs_to_map(new_pairs)[k] == target[k] by {
                let j = choose|j: int| 0 <= j < new_pairs.len() && #[trigger] new_pairs[j].0 == k;
                assert(pairs_to_map(new_pairs).contains_key(new_pairs[j].0));
                if k != key@ {
                    if new_pairs.len() == old_pairs.len() {
                        assert(old_pairs[j] == new_pairs[j]);
                        assert(pairs_to_map(old_pairs).contains_key(old_pairs[j].0));
                    } else if j < i {
                        assert(old_pairs[j] == new_pairs[j]);
                        assert(pairs_to_map(old_pairs).contains_key(old_pairs[j].0));
                    } else {
                        assert(old_pairs[j - 1] == new_pairs[j]);
                        assert(pairs_to_map(old_pairs).contains_key(old_pairs[j - 1].0));
                    }
                } else {
                    assert(new_pairs[i as int].0 == key@);
                    assert(pairs_to_map(new_pairs).contains_key(new_pairs[i as int].0));
                    if j != i {
                        assert(seq_lt(new_pairs[j].0, new_pairs[i as int].0) || seq_lt(
                            new_pairs[i as int].0,
                            new_pairs[j].0,
                        ));
                        lemma_seq_lt_irreflexive(k);
                    }
                }
            }
            assert(pairs_to_map(new_pairs) =~= target);
        }
        self.entries = entries;
    }

    /// Copies of the (key, version) pairs in ascending key order.
    pub fn entries(&self) -> (res: Vec<(String, String)>)
        ensures
            views_of(res@) == self.pairs(),
            keys_sorted(self.pairs()),
    {
        proof {
            use_type_invariant(self);
        }
        let mut out: Vec<(String, String)> = Vec::new();
        let mut i: usize = 0;
        while i < self.entries.len()
            invariant
                i <= self.entries.len(),
                out@.len() == i,
                views_of(out@) == self.pairs().take(i as int),
            decreases self.entries.len() - i,
        {
            let k = self.entries[i].0.clone();
            let v = self.entries[i].1.clone();
            assert((k@, v@) == self.pairs()[i as int]);
            let ghost prev = out@;
            out.push((k, v));
            assert forall|j: int| 0 <= j < i + 1 implies views_of(out@)[j] == self.pairs().take(
                i + 1,
            )[j] by {
                if j < i {
                    assert(out@[j] == prev[j]);
                    assert(views_of(prev)[j] == self.pairs().take(i as int)[j]);
                }
            }
            assert(views_of(out@) =~= self.pairs().take(i + 1));
            i = i + 1;
        }
        assert(self.pairs().take(self.entries.len() as int) =~= self.pairs());
        out
    }
}

/// `m` with `value` stored under `key`.
pub open spec fn old_pairs_map_insert(
    s: Seq<(Seq<char>, Seq<char>)>,
    key: Seq<char>,
    value: Seq<char>,
) -> Map<Seq<char>, Seq<char>> {
    pairs_to_map(s).insert(key, value)
}

impl View for VersionMap {
    type V = Map<Seq<char>, Seq<char>>;

    open spec fn view(&self) -> Map<Seq<char>, Seq<char>> {
        pairs_to_map(self.pairs())
    }
}

} // verus!
