//! The repository-mapping file format: one entry per line, three
//! comma-separated fields — source canonical repository, apparent
//! repository, target canonical repository.  The lookup key is the line up
//! to the second comma (the first two fields joined by a comma); the value
//! is the rest, so a target may itself contain commas.  A line with fewer
//! than two commas breaks the format.

use vstd::prelude::*;
use crate::table::Table;
use crate::text::find_from;
use crate::text::lemma_find_from;
use crate::text::lines_of;
use crate::text::str_views;
use crate::text::split_lines;
use crate::text::find_char_from;

verus! {

/// A mapping line is acceptable when it holds at least two commas.
pub open spec fn mapping_line_ok(l: Seq<char>) -> bool {
    match find_from(l, ',', 0) {
        Some(i) => find_from(l, ',', i + 1).is_some(),
        None => false,
    }
}

/// Every line of the file is acceptable.
pub open spec fn mapping_lines_ok(ls: Seq<Seq<char>>) -> bool {
    forall|i: int| 0 <= i < ls.len() ==> mapping_line_ok(ls[i])
}

/// The entry an acceptable line describes: key up to the second comma,
/// value after it.
pub open spec fn mapping_entry(l: Seq<char>) -> (Seq<char>, Seq<char>) {
    match find_from(l, ',', 0) {
        Some(i) => match find_from(l, ',', i + 1) {
            Some(j) => (l.take(j), l.skip(j + 1)),
            None => (l, Seq::empty()),
        },
        None => (l, Seq::empty()),
    }
}

/// The entries the lines describe, in file order.
pub open spec fn mapping_entries_of(ls: Seq<Seq<char>>) -> Seq<(Seq<char>, Seq<char>)>
    decreases ls.len(),
{
    if ls.len() == 0 {
        Seq::empty()
    } else {
        mapping_entries_of(ls.drop_last()).push(mapping_entry(ls.last()))
    }
}

/// Parses the text of a repository-mapping file; `None` when some line
/// has fewer than two commas.
pub fn parse_repo_mapping(content: &str) -> (r: Option<Table>)
    ensures
        match r {
            Some(t) => mapping_lines_ok(lines_of(content@)) && t.entry_views()
                == mapping_entries_of(lines_of(content@)),
            None => !mapping_lines_ok(lines_of(content@)),
        },
{
    let lines = split_lines(content);
    let ghost ls = lines_of(content@);
    let mut t = Table::new();
    let mut k: usize = 0;
    proof {
        assert(t.entry_views() =~= mapping_entries_of(ls.take(0)));
    }
    while k < lines.len()
        invariant
            k <= lines.len(),
            str_views(lines@) == lines_of(content@),
            ls == lines_of(content@),
            forall|j: int| 0 <= j < k ==> mapping_line_ok(ls[j]),
            t.entry_views() == mapping_entries_of(ls.take(k as int)),
        decreases lines.len() - k,
    {
        let l: &String = &lines[k];
        let ll: &str = l.as_str();
        proof {
            assert(str_views(lines@)[k as int] == lines@[k as int]@);
            assert(ll@ == ls[k as int]);
        }
        let n = ll.unicode_len();
        let ghost prev = t.entry_views();
        let first = match find_char_from(ll, ',', 0) {
            Some(i) => i,
            None => {
                proof {
                    assert(!mapping_line_ok(ls[k as int]));
                }
                return None;
            },
        };
        proof {
            lemma_find_from(ll@, ',', 0);
        }
        let second = match find_char_from(ll, ',', first + 1) {
            Some(j) => j,
            None => {
                proof {
                    assert(!mapping_line_ok(ls[k as int]));
                }
                return None;
            },
        };
        proof {
            lemma_find_from(ll@, ',', first + 1);
        }
        let key = ll.substring_char(0, second);
        let val = ll.substring_char(second + 1, n);
        t.entries.push((String::from_str(key), String::from_str(val)));
        proof {
            assert(mapping_entry(ls[k as int]) == (ll@.take(second as int), ll@.skip(
                second + 1,
            )));
            assert(t.entry_views() =~= prev.push(mapping_entry(ls[k as int])));
            assert(ls.take(k + 1).drop_last() =~= ls.take(k as int));
            assert(ls.take(k + 1).last() == ls[k as int]);
            assert(t.entry_views() =~= mapping_entries_of(ls.take(k + 1)));
        }
        k += 1;
    }
    proof {
        assert(ls.take(k as int) =~= ls);
    }
    Some(t)
}

} // verus!
