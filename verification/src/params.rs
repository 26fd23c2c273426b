//! The query-parameter mapping that a request carries.
//!
//! Parameter names are unique; setting a name that is already present
//! replaces its value (last write wins). The abstract model of the mapping is
//! a `Map` from key characters to value characters; the order of the entries
//! carries no meaning.

use vstd::prelude::*;
use crate::text::str_eq;

verus! {

/// The mapping that a sequence of key/value entries denotes: every entry is
/// inserted in order, so a later entry for a key shadows an earlier one.
pub open spec fn map_of_entries(s: Seq<(String, String)>) -> Map<Seq<char>, Seq<char>>
    decreases s.len(),
{
    if s.len() == 0 {
        Map::empty()
    } else {
        map_of_entries(s.drop_last()).insert(s.last().0@, s.last().1@)
    }
}

/// Whether no two entries of `s` carry the same key.
pub open spec fn unique_keys(s: Seq<(String, String)>) -> bool {
    forall|i: int, j: int| 0 <= i < j < s.len() ==> s[i].0@ != s[j].0@
}

/// How many entries of `s` carry the key `k`.
pub open spec fn count_key(s: Seq<(String, String)>, k: Seq<char>) -> nat
    decreases s.len(),
{
    if s.len() == 0 {
        0
    } else {
        count_key(s.drop_last(), k) + (if s.last().0@ == k {
            1nat
        } else {
            0nat
        })
    }
}

/// A set of query parameters: string values keyed by unique string names.
pub struct ParamMap {
    entries: Vec<(String, String)>,
}

impl ParamMap {
    /// The mapping that this value denotes.
    pub closed spec fn view(&self) -> Map<Seq<char>, Seq<char>> {
        map_of_entries(self.entries@)
    }

    /// Well-formed: each key appears in exactly one entry.
    pub closed spec fn wf(&self) -> bool {
        unique_keys(self.entries@)
    }

    /// How many entries carry the key `k`.
    pub closed spec fn entry_count(&self, k: Seq<char>) -> nat {
        count_key(self.entries@, k)
    }

    /// The entries, for handing the parameters to a transport.
    pub closed spec fn entries_view(&self) -> Seq<(String, String)> {
        self.entries@
    }

    /// An empty parameter mapping.
    pub fn new() -> (r: ParamMap)
        ensures
            r.wf(),
            r@ == Map::<Seq<char>, Seq<char>>::empty(),
            r.entries_view().len() == 0,
    {
        let r = ParamMap { entries: Vec::new() };
        proof {
            assert(r@ =~= Map::<Seq<char>, Seq<char>>::empty());
        }
        r
    }

    /// How many parameters are set.
    pub fn len(&self) -> (n: usize)
        requires
            self.wf(),
        ensures
            n == self@.dom().len(),
            n == self.entries_view().len(),
    {
        proof {
            lemma_map_of_entries_dom_len(self.entries@);
        }
        self.entries.len()
    }

    /// Sets the parameter `key` to `value`; a value already set under `key`
    /// is replaced.
    pub fn insert(&mut self, key: &str, value: &str)
        requires
            old(self).wf(),
        ensures
            final(self).wf(),
            final(self)@ == old(self)@.insert(key@, value@),
            final(self).entry_count(key@) == 1,
    {
        let mut i: usize = 0;
        let n = self.entries.len();
        while i < n
            invariant
                i <= n,
                n == self.entries.len(),
                self.entries@ == old(self).entries@,
                unique_keys(self.entries@),
                forall|j: int| 0 <= j < i ==> self.entries@[j].0@ != key@,
            decreases n - i,
        {
            if str_eq(self.entries[i].0.as_str(), key) {
                let ghost old_entries = self.entries@;
                let pair = (self.entries[i].0.clone(), String::from_str(value));
                self.entries.set(i, pair);
                proof {
                    assert(self.entries@ =~= old_entries.update(
                        i as int,
                        (old_entries[i as int].0, self.entries@[i as int].1),
                    ));
                    lemma_update_value(old_entries, i as int, self.entries@[i as int].1);
                    assert(unique_keys(self.entries@));
                    lemma_unique_entry_count(self.entries@, key@, i as int);
                }
                return ;
            }
            i += 1;
        }
        let pair = (String::from_str(key), String::from_str(value));
        let ghost old_entries = self.entries@;
        self.entries.push(pair);
        proof {
            assert(self.entries@ =~= old_entries.push(pair));
            lemma_map_of_entries_push(old_entries, pair);
            assert(unique_keys(self.entries@));
            lemma_unique_entry_count(self.entries@, key@, old_entries.len() as int);
        }
    }

    /// Looks a parameter up by its key.
    pub fn get(&self, key: &str) -> (r: Option<&String>)
        requires
            self.wf(),
        ensures
            match r {
                Some(v) => self@.contains_key(key@) && self@[key@] == v@,
                None => !self@.contains_key(key@),
            },
    {
        let n = self.entries.len();
        let mut i: usize = 0;
        while i < n
            invariant
                i <= n,
                n == self.entries.len(),
                unique_keys(self.entries@),
                forall|j: int| 0 <= j < i ==> self.entries@[j].0@ != key@,
            decreases n - i,
        {
            if str_eq(self.entries[i].0.as_str(), key) {
                proof {
                    lemma_map_of_entries_index(self.entries@, i as int);
                }
                return Some(&self.entries[i].1);
            }
            i += 1;
        }
        proof {
            lemma_map_of_entries_dom(self.entries@, key@);
        }
        None
    }

    /// The parameters as a list of key/value pairs, for the transport layer.
    pub fn pairs(&self) -> (r: &Vec<(String, String)>)
        ensures
            r@ == self.entries_view(),
    {
        &self.entries
    }
}

/// Appending an entry inserts its key into the denoted mapping.
proof fn lemma_map_of_entries_push(s: Seq<(String, String)>, pair: (String, String))
    ensures
        map_of_entries(s.push(pair)) == map_of_entries(s).insert(pair.0@, pair.1@),
{
    assert(s.push(pair).drop_last() =~= s);
    assert(s.push(pair).last() == pair);
}

/// A key is in the denoted mapping exactly when some entry carries it.
pub proof fn lemma_map_of_entries_dom(s: Seq<(String, String)>, k: Seq<char>)
    ensures
        map_of_entries(s).contains_key(k) <==> exists|i: int| 0 <= i < s.len() && s[i].0@ == k,
    decreases s.len(),
{
    if s.len() > 0 {
        lemma_map_of_entries_dom(s.drop_last(), k);
        if map_of_entries(s).contains_key(k) {
            if s.last().0@ != k {
                let i = choose|i: int| 0 <= i < s.drop_last().len() && s.drop_last()[i].0@ == k;
                assert(s[i].0@ == k);
            }
        }
        if exists|i: int| 0 <= i < s.len() && s[i].0@ == k {
            let i = choose|i: int| 0 <= i < s.len() && s[i].0@ == k;
            if i < s.len() - 1 {
                assert(s.drop_last()[i].0@ == k);
            }
        }
    }
}

/// When keys are unique, an entry's value is the value that the denoted
/// mapping carries for the entry's key.
pub proof fn lemma_map_of_entries_index(s: Seq<(String, String)>, i: int)
    requires
        unique_keys(s),
        0 <= i < s.len(),
    ensures
        map_of_entries(s).contains_key(s[i].0@),
        map_of_entries(s)[s[i].0@] == s[i].1@,
    decreases s.len(),
{
    if i == s.len() - 1 {
    } else {
        assert(unique_keys(s.drop_last()));
        assert(s.drop_last()[i] == s[i]);
        lemma_map_of_entries_index(s.drop_last(), i);
        assert(s[i].0@ != s.last().0@);
    }
}

/// When keys are unique, the denoted mapping has exactly one key per entry.
pub proof fn lemma_map_of_entries_dom_len(s: Seq<(String, String)>)
    requires
        unique_keys(s),
    ensures
        map_of_entries(s).dom().len() == s.len(),
        map_of_entries(s).dom().finite(),
    decreases s.len(),
{
    if s.len() > 0 {
        assert(unique_keys(s.drop_last()));
        lemma_map_of_entries_dom_len(s.drop_last());
        lemma_map_of_entries_dom(s.drop_last(), s.last().0@);
        assert(forall|i: int|
            0 <= i < s.drop_last().len() ==> s.drop_last()[i] == s[i] && s[i].0@ != s.last().0@);
        assert(!map_of_entries(s.drop_last()).contains_key(s.last().0@));
        vstd::set::axiom_set_insert_len(map_of_entries(s.drop_last()).dom(), s.last().0@);
        assert(map_of_entries(s).dom() =~= map_of_entries(s.drop_last()).dom().insert(
            s.last().0@,
        ));
    }
}

/// Replacing the value of the entry at `i` turns the denoted mapping into the
/// mapping with that entry's key re-inserted, provided keys are unique.
proof fn lemma_update_value(s: Seq<(String, String)>, i: int, v: String)
    requires
        unique_keys(s),
        0 <= i < s.len(),
    ensures
        unique_keys(s.update(i, (s[i].0, v))),
        map_of_entries(s.update(i, (s[i].0, v))) == map_of_entries(s).insert(s[i].0@, v@),
    decreases s.len(),
{
    let t = s.update(i, (s[i].0, v));
    assert(unique_keys(t));
    if i == s.len() - 1 {
        assert(t.drop_last() =~= s.drop_last());
        assert(map_of_entries(t) =~= map_of_entries(s).insert(s[i].0@, v@));
    } else {
        assert(unique_keys(s.drop_last()));
        assert(s.drop_last()[i] == s[i]);
        lemma_update_value(s.drop_last(), i, v);
        assert(t.drop_last() =~= s.drop_last().update(i, (s[i].0, v)));
        assert(t.last() == s.last());
        assert(s[i].0@ != s.last().0@);
        assert(map_of_entries(t) =~= map_of_entries(s).insert(s[i].0@, v@));
    }
}

/// When keys are unique and entry `i` carries the key `k`, exactly one entry
/// carries `k`.
proof fn lemma_unique_entry_count(s: Seq<(String, String)>, k: Seq<char>, i: int)
    requires
        unique_keys(s),
        0 <= i < s.len(),
        s[i].0@ == k,
    ensures
        count_key(s, k) == 1,
    decreases s.len(),
{
    if i == s.len() - 1 {
        assert(forall|j: int| 0 <= j < s.drop_last().len() ==> s.drop_last()[j] == s[j]);
        lemma_count_key_none(s.drop_last(), k);
    } else {
        assert(s.drop_last()[i] == s[i]);
        assert(unique_keys(s.drop_last()));
        lemma_unique_entry_count(s.drop_last(), k, i);
        assert(s.last().0@ != k);
    }
}

/// When no entry carries the key `k`, the count for `k` is zero.
proof fn lemma_count_key_none(s: Seq<(String, String)>, k: Seq<char>)
    requires
        forall|j: int| 0 <= j < s.len() ==> s[j].0@ != k,
    ensures
        count_key(s, k) == 0,
    decreases s.len(),
{
    if s.len() > 0 {
        assert(forall|j: int| 0 <= j < s.drop_last().len() ==> s.drop_last()[j] == s[j]);
        lemma_count_key_none(s.drop_last(), k);
    }
}

/// Last write wins: setting a key twice leaves the mapping that setting it
/// once, to the second value, leaves, and the key then maps to that value.
pub proof fn lemma_last_write_wins(
    m: Map<Seq<char>, Seq<char>>,
    k: Seq<char>,
    v1: Seq<char>,
    v2: Seq<char>,
)
    ensures
        m.insert(k, v1).insert(k, v2) == m.insert(k, v2),
        m.insert(k, v1).insert(k, v2)[k] == v2,
{
    assert(m.insert(k, v1).insert(k, v2) =~= m.insert(k, v2));
}

/// A well-formed parameter mapping holds exactly one entry for each key that
/// it maps.
pub proof fn lemma_one_entry_per_key(p: ParamMap, k: Seq<char>)
    requires
        p.wf(),
        p@.contains_key(k),
    ensures
        p.entry_count(k) == 1,
{
    lemma_map_of_entries_dom(p.entries_view(), k);
    let i = choose|i: int| 0 <= i < p.entries_view().len() && p.entries_view()[i].0@ == k;
    lemma_unique_entry_count(p.entries_view(), k, i);
}

} // verus!
