//! A key–value table loaded from the lines of a metadata file.
//!
//! Entries keep their file order; when two entries share a key the later
//! one wins, as when the lines are collected into a map.  Lookup is an
//! exact match on the whole key string.

use vstd::prelude::*;
use crate::text::str_eq;

verus! {

/// An ordered list of key–value entries.
pub struct Table {
    pub entries: Vec<(String, String)>,
}

/// The map the entries describe: inserted in order, so the last entry
/// with a key gives its value.
pub open spec fn seq_to_map(s: Seq<(Seq<char>, Seq<char>)>) -> Map<Seq<char>, Seq<char>>
    decreases s.len(),
{
    if s.len() == 0 {
        Map::empty()
    } else {
        seq_to_map(s.drop_last()).insert(s.last().0, s.last().1)
    }
}

/// The last entry carrying a key decides that key's value.
pub proof fn lemma_seq_to_map_present(s: Seq<(Seq<char>, Seq<char>)>, i: int)
    requires
        0 <= i < s.len(),
        forall|j: int| i < j < s.len() ==> s[j].0 != s[i].0,
    ensures
        seq_to_map(s).contains_key(s[i].0),
        seq_to_map(s)[s[i].0] == s[i].1,
    decreases s.len(),
{
    if i < s.len() - 1 {
        assert forall|j: int| i < j < s.drop_last().len() implies s.drop_last()[j].0
            != s.drop_last()[i].0 by {
            assert(s.drop_last()[j] == s[j]);
            assert(s.drop_last()[i] == s[i]);
        }
        lemma_seq_to_map_present(s.drop_last(), i);
        assert(s[s.len() - 1].0 != s[i].0);
    }
}

/// A key carried by no entry is not in the map.
pub proof fn lemma_seq_to_map_absent(s: Seq<(Seq<char>, Seq<char>)>, k: Seq<char>)
    requires
        forall|j: int| 0 <= j < s.len() ==> s[j].0 != k,
    ensures
        !seq_to_map(s).contains_key(k),
    decreases s.len(),
{
    if s.len() > 0 {
        assert forall|j: int| 0 <= j < s.drop_last().len() implies s.drop_last()[j].0 != k by {
            assert(s.drop_last()[j] == s[j]);
        }
        lemma_seq_to_map_absent(s.drop_last(), k);
    }
}

impl Table {
    /// The entries as pairs of character sequences.
    pub open spec fn entry_views(self) -> Seq<(Seq<char>, Seq<char>)> {
        self.entries@.map_values(|e: (String, String)| (e.0@, e.1@))
    }

    /// The map the table serves lookups from.
    pub open spec fn as_map(self) -> Map<Seq<char>, Seq<char>> {
        seq_to_map(self.entry_views())
    }

    /// An empty table.
    pub fn new() -> (r: Table)
        ensures
            r.entry_views() == Seq::<(Seq<char>, Seq<char>)>::empty(),
            r.as_map() == Map::<Seq<char>, Seq<char>>::empty(),
    {
        let r = Table { entries: Vec::new() };
        proof {
            assert(r.entry_views() =~= Seq::<(Seq<char>, Seq<char>)>::empty());
            assert(r.as_map() =~= Map::<Seq<char>, Seq<char>>::empty());
        }
        r
    }

    /// The value of the last entry carrying `key`, if any entry does.
    pub fn get(&self, key: &str) -> (r: Option<&String>)
        ensures
            match r {
                Some(v) => self.as_map().contains_key(key@) && v@ == self.as_map()[key@],
                None => !self.as_map().contains_key(key@),
            },
    {
        let n = self.entries.len();
        let mut i: usize = n;
        while i > 0
            invariant
                i <= n,
                n == self.entries.len(),
                forall|j: int| i <= j < n ==> self.entry_views()[j].0 != key@,
            decreases i,
        {
            i -= 1;
            let e = &self.entries[i];
            if str_eq(e.0.as_str(), key) {
                proof {
                    lemma_seq_to_map_present(self.entry_views(), i as int);
                }
                return Some(&self.entries[i].1);
            }
        }
        proof {
            lemma_seq_to_map_absent(self.entry_views(), key@);
        }
        None
    }
}

} // verus!
