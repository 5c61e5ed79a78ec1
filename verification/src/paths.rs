//! The textual path model.
//!
//! Paths are strings of `'/'`-separated segments.  The library never
//! touches the filesystem, so a path is only ever text: absoluteness is a
//! leading `'/'`, joining inserts a separator unless one is already there
//! or the right side is absolute, and the basename and parent come from
//! the last separator.

use vstd::prelude::*;
use crate::text::find_from;
use crate::text::rfind_before;
use crate::text::lemma_rfind_before;

verus! {

/// A path is absolute when it starts with a separator.
pub open spec fn is_absolute(p: Seq<char>) -> bool {
    p.len() > 0 && p[0] == '/'
}

/// Joining `b` onto `a`: an absolute `b` replaces `a`; otherwise a single
/// separator stands between the two.
pub open spec fn path_join(a: Seq<char>, b: Seq<char>) -> Seq<char> {
    if is_absolute(b) {
        b
    } else if a.len() == 0 {
        b
    } else if a[a.len() - 1] == '/' {
        a + b
    } else {
        a + seq!['/'] + b
    }
}

/// The part of `p` before its first separator; all of `p` when it has
/// none.
pub open spec fn first_segment(p: Seq<char>) -> Seq<char> {
    match find_from(p, '/', 0) {
        Some(i) => p.take(i),
        None => p,
    }
}

/// The first position at or after `i` that holds no separator; the
/// length when separators run to the end.
pub open spec fn skip_separators(s: Seq<char>, i: int) -> int
    decreases s.len() - i,
{
    if i < 0 || i >= s.len() {
        s.len() as int
    } else if s[i] == '/' {
        skip_separators(s, i + 1)
    } else {
        i
    }
}

/// The part of `p` after its first run of separators; empty when it has
/// none.  The whole run belongs to the split, so the remainder never
/// starts with a separator.
pub open spec fn segment_remainder(p: Seq<char>) -> Seq<char> {
    match find_from(p, '/', 0) {
        Some(i) => p.skip(skip_separators(p, i)),
        None => Seq::empty(),
    }
}

/// The part of `p` after its last separator; all of `p` when it has none.
pub open spec fn basename(p: Seq<char>) -> Seq<char> {
    match rfind_before(p, '/', p.len() as int) {
        Some(i) => p.skip(i + 1),
        None => p,
    }
}

/// The directory holding `p`: the part before the last separator, the
/// root when that separator leads, and empty when there is none.
pub open spec fn parent_dir(p: Seq<char>) -> Seq<char> {
    match rfind_before(p, '/', p.len() as int) {
        Some(i) => if i == 0 {
            p.take(1)
        } else {
            p.take(i)
        },
        None => Seq::empty(),
    }
}

/// Whether `p` starts with a separator.
pub fn is_absolute_path(p: &str) -> (r: bool)
    ensures
        r == is_absolute(p@),
{
    p.unicode_len() > 0 && p.get_char(0) == '/'
}

/// Joins `b` onto `a` as `path_join` describes.
pub fn path_join_exec(a: &str, b: &str) -> (r: String)
    ensures
        r@ == path_join(a@, b@),
{
    if is_absolute_path(b) {
        String::from_str(b)
    } else {
        let na = a.unicode_len();
        if na == 0 {
            String::from_str(b)
        } else if a.get_char(na - 1) == '/' {
            let mut r = String::from_str(a);
            r.append(b);
            r
        } else {
            let mut r = String::from_str(a);
            r.append("/");
            r.append(b);
            proof {
                reveal_strlit("/");
                assert(r@ =~= a@ + seq!['/'] + b@);
            }
            r
        }
    }
}

/// The directory holding `p` as `parent_dir` describes.
pub fn parent_of(p: &str) -> (r: String)
    ensures
        r@ == parent_dir(p@),
{
    let n = p.unicode_len();
    match crate::text::rfind_char_before(p, '/', n) {
        Some(i) => {
            proof {
                lemma_rfind_before(p@, '/', n as int);
            }
            if i == 0 {
                String::from_str(p.substring_char(0, 1))
            } else {
                String::from_str(p.substring_char(0, i))
            }
        },
        None => String::new(),
    }
}

/// The basename of `p` is nonempty exactly when `p` is nonempty and does
/// not end with a separator.
pub proof fn lemma_basename_nonempty(p: Seq<char>)
    ensures
        basename(p).len() > 0 <==> (p.len() > 0 && p[p.len() - 1] != '/'),
{
    lemma_rfind_before(p, '/', p.len() as int);
}

} // verus!
