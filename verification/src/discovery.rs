//! Decision logic of the runfiles-directory discovery search.
//!
//! The search starts from the invoking executable's path.  At each
//! candidate it first looks for a sibling directory named
//! `<basename>.runfiles`, then for an ancestor directory whose own name
//! ends with `.runfiles`; failing both, it follows one level of symbolic
//! link and repeats, and gives up on a candidate that is no link.  Probing
//! the filesystem — is this a directory, is this a link, where does it
//! point — is the embedding program's part; the functions here take the
//! probe answers and decide.

use vstd::prelude::*;
use crate::paths::basename;
use crate::paths::is_absolute;
use crate::paths::is_absolute_path;
use crate::paths::lemma_basename_nonempty;
use crate::paths::parent_dir;
use crate::paths::parent_of;
use crate::paths::path_join;
use crate::paths::path_join_exec;
use crate::text::str_eq;
use crate::text::view_opt;
use crate::text::view_opt_string;

verus! {

/// The characters of the reserved directory-name ending `".runfiles"`.
pub open spec fn runfiles_suffix() -> Seq<char> {
    seq!['.', 'r', 'u', 'n', 'f', 'i', 'l', 'e', 's']
}

/// The sibling entry checked beside a candidate: the candidate's own name
/// with `".runfiles"` appended.
pub open spec fn sibling_path(c: Seq<char>) -> Seq<char> {
    c + runfiles_suffix()
}

/// The discovery search needs a candidate with a nonempty basename.
pub open spec fn has_runfiles_basename(c: Seq<char>) -> bool {
    basename(c).len() > 0
}

/// Whether the segment of `s` that ends at position `e` ends with
/// `".runfiles"`: the nine characters before `e` spell the suffix, which
/// holds no separator, so they lie inside one segment.
pub open spec fn segment_ends_runfiles(s: Seq<char>, e: int) -> bool {
    e >= 9 && s.subrange(e - 9, e) == runfiles_suffix()
}

/// The nearest ancestor directory of the candidate whose own name ends
/// with `".runfiles"`, scanning separators from position `j` leftwards.
pub open spec fn ancestor_scan(s: Seq<char>, j: int) -> Option<Seq<char>>
    decreases j,
{
    if j <= 0 || j > s.len() {
        None
    } else if s[j - 1] == '/' && segment_ends_runfiles(s, j - 1) {
        Some(s.take(j - 1))
    } else {
        ancestor_scan(s, j - 1)
    }
}

/// The nearest `.runfiles` ancestor of `c`, if any.
pub open spec fn runfiles_ancestor_spec(c: Seq<char>) -> Option<Seq<char>> {
    ancestor_scan(c, c.len() as int)
}

/// A followed link's target as the next candidate: an absolute target
/// stands as it is; a relative one is resolved against the link's parent
/// directory, itself taken against the current working directory.
pub open spec fn resolved_link(candidate: Seq<char>, target: Seq<char>, cwd: Seq<char>) -> Seq<
    char,
> {
    if is_absolute(target) {
        target
    } else {
        path_join(path_join(cwd, parent_dir(candidate)), target)
    }
}

/// Which root the environment overrides pick: the runfiles-directory
/// override is authoritative when it names a directory; the test
/// source directory is the fallback.
pub open spec fn root_override_spec(
    runfiles_dir: Option<Seq<char>>,
    runfiles_dir_is_dir: bool,
    test_srcdir: Option<Seq<char>>,
    test_srcdir_is_dir: bool,
) -> Option<Seq<char>> {
    if runfiles_dir.is_some() && runfiles_dir_is_dir {
        runfiles_dir
    } else if test_srcdir.is_some() && test_srcdir_is_dir {
        test_srcdir
    } else {
        None
    }
}

/// Decides the runfiles root from the environment overrides alone.
/// The boolean beside each override says whether it names an existing
/// directory.
pub fn choose_root_override(
    runfiles_dir: Option<&str>,
    runfiles_dir_is_dir: bool,
    test_srcdir: Option<&str>,
    test_srcdir_is_dir: bool,
) -> (r: Option<String>)
    ensures
        view_opt_string(r) == root_override_spec(
            view_opt(runfiles_dir),
            runfiles_dir_is_dir,
            view_opt(test_srcdir),
            test_srcdir_is_dir,
        ),
{
    if let Some(p) = runfiles_dir {
        if runfiles_dir_is_dir {
            return Some(String::from_str(p));
        }
    }
    if let Some(p) = test_srcdir {
        if test_srcdir_is_dir {
            return Some(String::from_str(p));
        }
    }
    None
}

/// The sibling `<basename>.runfiles` path to probe beside a candidate;
/// `None` when the candidate has no basename to build it from.
pub fn sibling_runfiles_path(candidate: &str) -> (r: Option<String>)
    ensures
        match r {
            Some(p) => has_runfiles_basename(candidate@) && p@ == sibling_path(candidate@),
            None => !has_runfiles_basename(candidate@),
        },
{
    proof {
        lemma_basename_nonempty(candidate@);
    }
    let n = candidate.unicode_len();
    if n > 0 && candidate.get_char(n - 1) != '/' {
        let mut r = String::from_str(candidate);
        r.append(".runfiles");
        proof {
            reveal_strlit(".runfiles");
            assert(r@ =~= sibling_path(candidate@));
        }
        Some(r)
    } else {
        None
    }
}

/// Whether the nine characters before position `e` spell `".runfiles"`.
fn runfiles_suffix_ends_at(c: &str, e: usize) -> (r: bool)
    requires
        e <= c@.len(),
    ensures
        r == segment_ends_runfiles(c@, e as int),
{
    if e >= 9 {
        let seg = c.substring_char(e - 9, e);
        let r = str_eq(seg, ".runfiles");
        proof {
            reveal_strlit(".runfiles");
            assert(".runfiles"@ =~= runfiles_suffix());
        }
        r
    } else {
        false
    }
}

/// The nearest ancestor directory of `c` whose own name ends with
/// `".runfiles"`.
pub fn runfiles_ancestor(c: &str) -> (r: Option<String>)
    ensures
        match r {
            Some(a) => runfiles_ancestor_spec(c@) == Some(a@),
            None => runfiles_ancestor_spec(c@).is_none(),
        },
{
    let n = c.unicode_len();
    let mut j: usize = n;
    while j > 0
        invariant
            j <= n,
            n == c@.len(),
            ancestor_scan(c@, n as int) == ancestor_scan(c@, j as int),
        decreases j,
    {
        if c.get_char(j - 1) == '/' {
            if runfiles_suffix_ends_at(c, j - 1) {
                return Some(String::from_str(c.substring_char(0, j - 1)));
            }
        }
        j -= 1;
    }
    None
}

/// One decision of the discovery search at a candidate, the sibling
/// probe's answer in hand: the sibling directory when the probe found
/// one, else the nearest `.runfiles` ancestor.
pub fn candidate_runfiles_dir(candidate: &str, sibling_is_dir: bool) -> (r: Option<String>)
    requires
        has_runfiles_basename(candidate@),
    ensures
        match r {
            Some(d) => if sibling_is_dir {
                d@ == sibling_path(candidate@)
            } else {
                runfiles_ancestor_spec(candidate@) == Some(d@)
            },
            None => !sibling_is_dir && runfiles_ancestor_spec(candidate@).is_none(),
        },
{
    if sibling_is_dir {
        match sibling_runfiles_path(candidate) {
            Some(p) => Some(p),
            None => unreached(),
        }
    } else {
        runfiles_ancestor(candidate)
    }
}

/// The next candidate after following one level of symbolic link, as
/// `resolved_link` describes.
pub fn resolve_link_target(candidate: &str, target: &str, cwd: &str) -> (r: String)
    ensures
        r@ == resolved_link(candidate@, target@, cwd@),
{
    if is_absolute_path(target) {
        String::from_str(target)
    } else {
        let parent = parent_of(candidate);
        let base = path_join_exec(cwd, parent.as_str());
        path_join_exec(base.as_str(), target)
    }
}

} // verus!
