//! The query parameters of a last.fm call: a map from names to values that
//! also keeps the order in which its names first arrived, the order in which
//! it is walked when a call is signed.
use vstd::prelude::*;

verus! {

/// A parameter list seen as name/value character sequences.
pub type Entries = Seq<(Seq<char>, Seq<char>)>;

/// The index of the last entry named `k`, or -1 when none is.
pub open spec fn key_index(e: Entries, k: Seq<char>) -> int
    decreases e.len(),
{
    if e.len() == 0 {
        -1
    } else if e.last().0 == k {
        e.len() - 1
    } else {
        key_index(e.drop_last(), k)
    }
}

/// No name occurs twice.
pub open spec fn keys_distinct(e: Entries) -> bool {
    forall|i: int, j: int| 0 <= i < j < e.len() ==> #[trigger] e[i].0 != #[trigger] e[j].0
}

/// The value stored under `k`, if any.
pub open spec fn lookup(e: Entries, k: Seq<char>) -> Option<Seq<char>> {
    let i = key_index(e, k);
    if i >= 0 {
        Some(e[i].1)
    } else {
        None
    }
}

/// The list after storing `v` under `k`: an existing entry keeps its place and
/// takes the new value; a new name goes to the end.
pub open spec fn with_entry(e: Entries, k: Seq<char>, v: Seq<char>) -> Entries {
    let i = key_index(e, k);
    if i >= 0 {
        e.update(i, (k, v))
    } else {
        e.push((k, v))
    }
}

/// The list seen as a map from names to values.
pub open spec fn as_map(e: Entries) -> Map<Seq<char>, Seq<char>> {
    Map::new(|k: Seq<char>| key_index(e, k) >= 0, |k: Seq<char>| e[key_index(e, k)].1)
}

/// The name/value views of owned string pairs.
pub open spec fn pair_views(pairs: Seq<(String, String)>) -> Entries {
    pairs.map_values(|p: (String, String)| (p.0@, p.1@))
}

pub(crate) proof fn lemma_key_index(e: Entries, k: Seq<char>)
    ensures
        -1 <= key_index(e, k) < e.len(),
        key_index(e, k) >= 0 ==> e[key_index(e, k)].0 == k,
        forall|j: int| key_index(e, k) < j < e.len() ==> #[trigger] e[j].0 != k,
    decreases e.len(),
{
    if e.len() > 0 && e.last().0 != k {
        lemma_key_index(e.drop_last(), k);
        assert forall|j: int| key_index(e, k) < j < e.len() implies #[trigger] e[j].0 != k by {
            if j < e.len() - 1 {
                assert(e.drop_last()[j] == e[j]);
            }
        }
    }
}

proof fn lemma_key_index_found(e: Entries, k: Seq<char>, i: int)
    requires
        keys_distinct(e),
        0 <= i < e.len(),
        e[i].0 == k,
    ensures
        key_index(e, k) == i,
{
    lemma_key_index(e, k);
    let r = key_index(e, k);
    if r != i {
        if r < i {
            assert(e[i].0 != k);
        } else {
            assert(e[i].0 != e[r].0);
        }
    }
}

proof fn lemma_key_index_absent(e: Entries, k: Seq<char>)
    requires
        forall|j: int| 0 <= j < e.len() ==> #[trigger] e[j].0 != k,
    ensures
        key_index(e, k) == -1,
{
    lemma_key_index(e, k);
}

/// Storing a value keeps the names distinct, and the map of the result is the
/// old map with `k` bound to `v`: every other name keeps its value.
pub proof fn lemma_with_entry(e: Entries, k: Seq<char>, v: Seq<char>)
    requires
        keys_distinct(e),
    ensures
        keys_distinct(with_entry(e, k, v)),
        as_map(with_entry(e, k, v)) == as_map(e).insert(k, v),
        lookup(with_entry(e, k, v), k) == Some(v),
        forall|k2: Seq<char>| k2 != k ==> #[trigger] lookup(with_entry(e, k, v), k2) == lookup(e, k2),
{
    lemma_key_index(e, k);
    let n = with_entry(e, k, v);
    let i = key_index(e, k);
    let pos = if i >= 0 { i } else { e.len() as int };
    if i < 0 {
        assert forall|j: int| 0 <= j < e.len() implies #[trigger] e[j].0 != k by {}
    }
    assert(keys_distinct(n)) by {
        assert forall|a: int, b: int| 0 <= a < b < n.len() implies #[trigger] n[a].0 != #[trigger] n[b].0 by {
            if a != pos && b != pos {
                assert(n[a] == e[a] && n[b] == e[b]);
            } else if a == pos {
                assert(n[b] == e[b]);
                if i >= 0 {
                    assert(e[a].0 != e[b].0);
                }
            } else {
                assert(n[a] == e[a]);
                if i >= 0 {
                    assert(e[a].0 != e[b].0);
                }
            }
        }
    }
    lemma_key_index_found(n, k, pos);
    assert forall|k2: Seq<char>| k2 != k implies key_index(n, k2) == key_index(e, k2) by {
        lemma_key_index(e, k2);
        let r = key_index(e, k2);
        if r >= 0 {
            assert(r != pos);
            assert(n[r] == e[r]);
            lemma_key_index_found(n, k2, r);
        } else {
            assert forall|j: int| 0 <= j < n.len() implies #[trigger] n[j].0 != k2 by {
                if j != pos {
                    assert(n[j] == e[j]);
                }
            }
            lemma_key_index_absent(n, k2);
        }
    }
    assert forall|k2: Seq<char>| k2 != k && key_index(e, k2) >= 0 implies n[key_index(
        n,
        k2,
    )].1 == e[key_index(e, k2)].1 by {
        lemma_key_index(e, k2);
        assert(key_index(e, k2) != pos);
    }
    assert(as_map(n) =~= as_map(e).insert(k, v));
}

/// Query parameters keyed by name, each name at most once.
pub struct ParamsMap {
    entries: Vec<(String, String)>,
}

impl View for ParamsMap {
    type V = Entries;

    closed spec fn view(&self) -> Entries {
        pair_views(self.entries@)
    }
}

impl ParamsMap {
    #[verifier::type_invariant]
    spec fn names_unique(self) -> bool {
        keys_distinct(pair_views(self.entries@))
    }

    /// An empty parameter list.
    pub fn new() -> (res: ParamsMap)
        ensures
            res@ == Seq::<(Seq<char>, Seq<char>)>::empty(),
    {
        let res = ParamsMap { entries: Vec::new() };
        assert(res@ =~= Seq::<(Seq<char>, Seq<char>)>::empty());
        res
    }

    /// The number of parameters.
    pub fn len(&self) -> (res: usize)
        ensures
            res == self@.len(),
            keys_distinct(self@),
    {
        proof {
            use_type_invariant(self);
        }
        self.entries.len()
    }

    /// Stores `value` under `key`, replacing the value of an existing entry in
    /// its place, or adding the pair at the end.
    pub fn insert(&mut self, key: String, value: String)
        ensures
            final(self)@ == with_entry(old(self)@, key@, value@),
            keys_distinct(final(self)@),
            lookup(final(self)@, key@) == Some(value@),
    {
        proof {
            use_type_invariant(&*self);
            lemma_with_entry(self@, key@, value@);
        }
        let ghost e = self@;
        let mut entries: Vec<(String, String)> = Vec::new();
        std::mem::swap(&mut entries, &mut self.entries);
        let n = entries.len();
        let mut i: usize = 0;
        while i < n
            invariant
                n == entries@.len(),
                e == pair_views(entries@),
                e == old(self)@,
                lookup(with_entry(e, key@, value@), key@) == Some(value@),
                keys_distinct(with_entry(e, key@, value@)),
                keys_distinct(e),
                i <= n,
                forall|j: int| 0 <= j < i ==> #[trigger] e[j].0 != key@,
            decreases n - i,
        {
            if entries[i].0 == key {
                proof {
                    assert(e[i as int].0 == key@);
                    lemma_key_index_found(e, key@, i as int);
                }
                entries[i] = (key, value);
                assert(pair_views(entries@) =~= with_entry(e, key@, value@));
                self.entries = entries;
                return;
            }
            i = i + 1;
        }
        proof {
            lemma_key_index_absent(e, key@);
        }
        entries.push((key, value));
        assert(pair_views(entries@) =~= with_entry(e, key@, value@));
        self.entries = entries;
    }

    /// Whether a parameter named `key` is present.
    pub fn contains_key(&self, key: &str) -> (res: bool)
        ensures
            res == (key_index(self@, key@) >= 0),
            res == (lookup(self@, key@) is Some),
            keys_distinct(self@),
    {
        proof {
            use_type_invariant(self);
            lemma_key_index(self@, key@);
        }
        let n = self.entries.len();
        let mut i: usize = 0;
        while i < n
            invariant
                n == self.entries@.len(),
                keys_distinct(self@),
                i <= n,
                forall|j: int| 0 <= j < i ==> #[trigger] self@[j].0 != key@,
            decreases n - i,
        {
            if crate::text::str_eq(self.entries[i].0.as_str(), key) {
                proof {
                    lemma_key_index_found(self@, key@, i as int);
                }
                return true;
            }
            i = i + 1;
        }
        proof {
            lemma_key_index_absent(self@, key@);
        }
        false
    }

    /// The name/value pairs in walking order, taken out of the map.
    pub fn into_pairs(self) -> (res: Vec<(String, String)>)
        ensures
            pair_views(res@) == self@,
            keys_distinct(self@),
    {
        proof {
            use_type_invariant(&self);
        }
        self.entries
    }

    /// The name/value pairs in the order in which they are walked.
    pub fn pairs(&self) -> (res: &Vec<(String, String)>)
        ensures
            pair_views(res@) == self@,
            keys_distinct(self@),
    {
        proof {
            use_type_invariant(self);
        }
        &self.entries
    }
}

} // verus!
