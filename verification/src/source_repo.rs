//! Deriving the source repository from the executable's path.
//!
//! The installed absolute path of a binary that belongs to an external
//! repository is inspected against two patterns, in order: the
//! build-output form `.../bin/external/<repoName>/...`, which may follow
//! any prefix, and the source-tree form `external/<repoName>/...` at the
//! path's start.  The capture is the repository's name; a path matching
//! neither belongs to the main repository, named by the empty string.
//! The two patterns are fixed, so what the regex engine returns on them
//! is stated exactly: at the leftmost position where the whole form
//! matches, a nonempty run of non-separator characters after the literal
//! part, closed by the next separator.

use vstd::prelude::*;
use crate::text::find_from;

verus! {

/// The build-output pattern; unanchored, so it matches after any prefix.
pub open spec fn generated_file_pattern() -> Seq<char> {
    "/bin/external/([^/]+)/"@
}

/// The source-tree pattern, anchored at the path's start.
pub open spec fn external_file_pattern() -> Seq<char> {
    "^external/([^/]+)/"@
}

/// The capture of `<prefix>([^/]+)/` at the start of `s`: after the
/// literal prefix, a nonempty run of non-separator characters, which the
/// next separator must close.
pub open spec fn prefix_capture(s: Seq<char>, prefix: Seq<char>) -> Option<Seq<char>> {
    if s.len() >= prefix.len() && s.take(prefix.len() as int) == prefix {
        let t = s.skip(prefix.len() as int);
        match find_from(t, '/', 0) {
            Some(i) => if i > 0 {
                Some(t.take(i))
            } else {
                None
            },
            None => None,
        }
    } else {
        None
    }
}

/// The build-output form's capture when the whole form — the literal
/// `"/bin/external/"`, a nonempty separator-free run, a closing
/// separator — matches at position `i` of `s`.
pub open spec fn generated_capture_at(s: Seq<char>, i: int) -> Option<Seq<char>> {
    prefix_capture(s.skip(i), "/bin/external/"@)
}

/// The build-output form's capture at the leftmost position at or after
/// `i` where the whole form matches.
pub open spec fn generated_scan(s: Seq<char>, i: int) -> Option<Seq<char>>
    decreases s.len() - i,
{
    if i < 0 || i >= s.len() {
        None
    } else {
        match generated_capture_at(s, i) {
            Some(r) => Some(r),
            None => generated_scan(s, i + 1),
        }
    }
}

/// What the build-output pattern captures on `s`: the repository segment
/// at the leftmost match of the whole form.
pub open spec fn generated_capture(s: Seq<char>) -> Option<Seq<char>> {
    generated_scan(s, 0)
}

/// What the source-tree pattern captures on `s`.
pub open spec fn external_capture(s: Seq<char>) -> Option<Seq<char>> {
    prefix_capture(s, "external/"@)
}

/// The source repository an executable path names: the build-output
/// pattern's capture, else the source-tree pattern's, else the empty
/// string for the main repository.
pub open spec fn source_repo_of(s: Seq<char>) -> Seq<char> {
    match generated_capture(s) {
        Some(r) => r,
        None => match external_capture(s) {
            Some(r) => r,
            None => Seq::empty(),
        },
    }
}

/// Relies on `regex::Regex::new` and `regex::Regex::captures` of the
/// regex crate, compiled from one of the two fixed patterns above, on
/// which `new` succeeds.  `captures` returns the leftmost match; `^`
/// matches only the haystack's start (no multi-line mode); `([^/]+)`
/// before a literal `/` captures exactly the maximal nonempty run of
/// non-`'/'` characters, which the following separator must close, so at
/// each position the match is unique and backtracking cannot alter it.
/// `generated_capture` (a left-to-right scan for the unanchored pattern)
/// and `external_capture` state exactly that.
#[verifier::external_body]
fn regex_capture_repo(pattern: &str, text: &str) -> (r: Option<String>)
    requires
        pattern@ == generated_file_pattern() || pattern@ == external_file_pattern(),
    ensures
        pattern@ == generated_file_pattern() ==> match r {
            Some(x) => generated_capture(text@) == Some(x@),
            None => generated_capture(text@).is_none(),
        },
        pattern@ == external_file_pattern() ==> match r {
            Some(x) => external_capture(text@) == Some(x@),
            None => external_capture(text@).is_none(),
        },
{
    regex::Regex::new(pattern).unwrap().captures(text).map(|c| c[1].to_string())
}

/// The canonical repository owning the executable installed at
/// `exe_path`, by the two path patterns; empty for the main repository.
pub fn get_source_repository(exe_path: &str) -> (r: String)
    ensures
        r@ == source_repo_of(exe_path@),
{
    match regex_capture_repo("/bin/external/([^/]+)/", exe_path) {
        Some(x) => x,
        None => match regex_capture_repo("^external/([^/]+)/", exe_path) {
            Some(x) => x,
            None => String::new(),
        },
    }
}

} // verus!
