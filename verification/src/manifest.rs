//! The manifest file format: one entry per non-empty line, the logical
//! path and the physical path separated by the first space character.
//! The physical path may itself contain spaces.  A non-empty line without
//! a space breaks the format's contract.

use vstd::prelude::*;
use crate::errors::RunfilesError;
use crate::table::Table;
use crate::text::find_from;
use crate::text::lemma_find_from;
use crate::text::lines_of;
use crate::text::str_views;
use crate::text::split_lines;
use crate::text::find_char_from;

verus! {

/// A manifest line is acceptable when empty or holding a space.
pub open spec fn manifest_line_ok(l: Seq<char>) -> bool {
    l.len() == 0 || find_from(l, ' ', 0).is_some()
}

/// Every line of the file is acceptable.
pub open spec fn manifest_lines_ok(ls: Seq<Seq<char>>) -> bool {
    forall|i: int| 0 <= i < ls.len() ==> manifest_line_ok(ls[i])
}

/// The entries the lines describe: each non-empty line split at its first
/// space, empty lines skipped.
pub open spec fn manifest_entries_of(ls: Seq<Seq<char>>) -> Seq<(Seq<char>, Seq<char>)>
    decreases ls.len(),
{
    if ls.len() == 0 {
        Seq::empty()
    } else {
        let rest = manifest_entries_of(ls.drop_last());
        let l = ls.last();
        if l.len() == 0 {
            rest
        } else {
            match find_from(l, ' ', 0) {
                Some(i) => rest.push((l.take(i), l.skip(i + 1))),
                None => rest,
            }
        }
    }
}

/// Parses the text of a manifest file into its lookup table.
pub fn parse_manifest(content: &str) -> (r: Result<Table, RunfilesError>)
    ensures
        match r {
            Ok(t) => manifest_lines_ok(lines_of(content@)) && t.entry_views()
                == manifest_entries_of(lines_of(content@)),
            Err(e) => !manifest_lines_ok(lines_of(content@)) && e
                == RunfilesError::ManifestContractViolation,
        },
{
    let lines = split_lines(content);
    let ghost ls = lines_of(content@);
    let mut t = Table::new();
    let mut k: usize = 0;
    proof {
        assert(t.entry_views() =~= manifest_entries_of(ls.take(0)));
    }
    while k < lines.len()
        invariant
            k <= lines.len(),
            str_views(lines@) == lines_of(content@),
            ls == lines_of(content@),
            forall|j: int| 0 <= j < k ==> manifest_line_ok(ls[j]),
            t.entry_views() == manifest_entries_of(ls.take(k as int)),
        decreases lines.len() - k,
    {
        let l: &String = &lines[k];
        let ll: &str = l.as_str();
        proof {
            assert(str_views(lines@)[k as int] == lines@[k as int]@);
            assert(ll@ == ls[k as int]);
        }
        let n = ll.unicode_len();
        let ghost prev = t.entry_views();
        if n > 0 {
            match find_char_from(ll, ' ', 0) {
                Some(i) => {
                    proof {
                        lemma_find_from(ll@, ' ', 0);
                    }
                    let key = ll.substring_char(0, i);
                    let val = ll.substring_char(i + 1, n);
                    t.entries.push((String::from_str(key), String::from_str(val)));
                    proof {
                        assert(t.entry_views() =~= prev.push((ll@.take(i as int), ll@.skip(
                            i + 1,
                        ))));
                    }
                },
                None => {
                    proof {
                        lemma_find_from(ll@, ' ', 0);
                        assert(!manifest_line_ok(ls[k as int]));
                    }
                    return Err(RunfilesError::ManifestContractViolation);
                },
            }
        }
        proof {
            assert(ls.take(k + 1).drop_last() =~= ls.take(k as int));
            assert(ls.take(k + 1).last() == ls[k as int]);
            assert(t.entry_views() =~= manifest_entries_of(ls.take(k + 1)));
        }
        k += 1;
    }
    proof {
        assert(ls.take(k as int) =~= ls);
    }
    Ok(t)
}

} // verus!
