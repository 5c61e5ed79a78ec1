//! Character-level helpers for the path strings and the line-oriented
//! metadata files: searching for a character, string equality, and
//! splitting text into lines.

use vstd::prelude::*;

verus! {

/// The least index `i` with `from <= i < s.len()` and `s[i] == c`, if any.
pub open spec fn find_from(s: Seq<char>, c: char, from: int) -> Option<int>
    decreases s.len() - from,
{
    if from < 0 || from >= s.len() {
        None
    } else if s[from] == c {
        Some(from)
    } else {
        find_from(s, c, from + 1)
    }
}

/// What `find_from` returns: the first occurrence at or after `from`.
pub proof fn lemma_find_from(s: Seq<char>, c: char, from: int)
    requires
        0 <= from <= s.len(),
    ensures
        match find_from(s, c, from) {
            Some(i) => from <= i < s.len() && s[i] == c && (forall|j: int|
                from <= j < i ==> s[j] != c),
            None => forall|j: int| from <= j < s.len() ==> s[j] != c,
        },
    decreases s.len() - from,
{
    if from < s.len() && s[from] != c {
        lemma_find_from(s, c, from + 1);
    }
}

/// The greatest index `i` with `i < upto` and `s[i] == c`, if any.
pub open spec fn rfind_before(s: Seq<char>, c: char, upto: int) -> Option<int>
    decreases upto,
{
    if upto <= 0 || upto > s.len() {
        None
    } else if s[upto - 1] == c {
        Some(upto - 1)
    } else {
        rfind_before(s, c, upto - 1)
    }
}

/// What `rfind_before` returns: the last occurrence before `upto`.
pub proof fn lemma_rfind_before(s: Seq<char>, c: char, upto: int)
    requires
        0 <= upto <= s.len(),
    ensures
        match rfind_before(s, c, upto) {
            Some(i) => 0 <= i < upto && s[i] == c && (forall|j: int|
                i < j < upto ==> s[j] != c),
            None => forall|j: int| 0 <= j < upto ==> s[j] != c,
        },
    decreases upto,
{
    if upto > 0 && s[upto - 1] != c {
        lemma_rfind_before(s, c, upto - 1);
    }
}

/// `Some(i)` as a mathematical index.
pub open spec fn opt_index(o: Option<usize>) -> Option<int> {
    match o {
        Some(i) => Some(i as int),
        None => None,
    }
}

/// The view of an optional borrowed string.
pub open spec fn view_opt(o: Option<&str>) -> Option<Seq<char>> {
    match o {
        Some(s) => Some(s@),
        None => None,
    }
}

/// The view of an optional owned string.
pub open spec fn view_opt_string(o: Option<String>) -> Option<Seq<char>> {
    match o {
        Some(s) => Some(s@),
        None => None,
    }
}

/// First occurrence of `c` in `s` at or after position `from`.
pub fn find_char_from(s: &str, c: char, from: usize) -> (r: Option<usize>)
    requires
        from <= s@.len(),
    ensures
        opt_index(r) == find_from(s@, c, from as int),
{
    let n: usize = s.unicode_len();
    let mut i: usize = from;
    while i < n
        invariant
            from <= i <= n,
            n == s@.len(),
            forall|j: int| from <= j < i ==> s@[j] != c,
        decreases n - i,
    {
        if s.get_char(i) == c {
            proof {
                lemma_find_from(s@, c, from as int);
            }
            return Some(i);
        }
        i += 1;
    }
    proof {
        lemma_find_from(s@, c, from as int);
    }
    None
}

/// Last occurrence of `c` in `s` before position `upto`.
pub fn rfind_char_before(s: &str, c: char, upto: usize) -> (r: Option<usize>)
    requires
        upto <= s@.len(),
    ensures
        opt_index(r) == rfind_before(s@, c, upto as int),
{
    let mut i: usize = upto;
    while i > 0
        invariant
            i <= upto,
            upto <= s@.len(),
            forall|j: int| i <= j < upto ==> s@[j] != c,
        decreases i,
    {
        i -= 1;
        if s.get_char(i) == c {
            proof {
                lemma_rfind_before(s@, c, upto as int);
            }
            return Some(i);
        }
    }
    proof {
        lemma_rfind_before(s@, c, upto as int);
    }
    None
}

/// String equality over the character views.
pub fn str_eq(a: &str, b: &str) -> (r: bool)
    ensures
        r == (a@ == b@),
{
    let sa = String::from_str(a);
    let sb = String::from_str(b);
    sa == sb
}

/// A line with one carriage return dropped from its end, as `str::lines`
/// treats a `"\r\n"` ending.
pub open spec fn chomp_cr(l: Seq<char>) -> Seq<char> {
    if l.len() > 0 && l[l.len() - 1] == '\r' {
        l.drop_last()
    } else {
        l
    }
}

/// The lines of `s` from scan position `j` on, the current line having
/// started at `b`: split at `'\n'`, dropping one `'\r'` directly before
/// each split; a final line ending is optional.
pub open spec fn lines_scan(s: Seq<char>, b: int, j: int) -> Seq<Seq<char>>
    decreases s.len() - j,
{
    if j < b || b < 0 || j >= s.len() {
        if 0 <= b && b < s.len() {
            seq![s.subrange(b, s.len() as int)]
        } else {
            seq![]
        }
    } else if s[j] == '\n' {
        seq![chomp_cr(s.subrange(b, j))] + lines_scan(s, j + 1, j + 1)
    } else {
        lines_scan(s, b, j + 1)
    }
}

/// The lines of `s`, in the manner of `str::lines`.
pub open spec fn lines_of(s: Seq<char>) -> Seq<Seq<char>> {
    lines_scan(s, 0, 0)
}

/// Scanning over characters that are not `'\n'` does not change the lines.
pub proof fn lemma_lines_scan_skip(s: Seq<char>, b: int, j: int, k: int)
    requires
        0 <= b <= j <= k <= s.len(),
        forall|t: int| j <= t < k ==> s[t] != '\n',
    ensures
        lines_scan(s, b, j) == lines_scan(s, b, k),
    decreases k - j,
{
    if j < k {
        assert(s[j] != '\n');
        lemma_lines_scan_skip(s, b, j + 1, k);
    }
}

/// The views of a sequence of owned strings.
pub open spec fn str_views(v: Seq<String>) -> Seq<Seq<char>> {
    v.map_values(|x: String| x@)
}

/// Splits `s` into lines in the manner of `str::lines`.
pub fn split_lines(s: &str) -> (r: Vec<String>)
    ensures
        str_views(r@) == lines_of(s@),
{
    let n: usize = s.unicode_len();
    let mut out: Vec<String> = Vec::new();
    let mut start: usize = 0;
    proof {
        assert(str_views(out@) + lines_scan(s@, 0, 0) =~= lines_of(s@));
    }
    while start < n
        invariant
            start <= n,
            n == s@.len(),
            str_views(out@) + lines_scan(s@, start as int, start as int) == lines_of(s@),
        decreases n - start,
    {
        let ghost prev = out@;
        match find_char_from(s, '\n', start) {
            Some(i) => {
                proof {
                    lemma_find_from(s@, '\n', start as int);
                }
                let end: usize = if i > start && s.get_char(i - 1) == '\r' {
                    i - 1
                } else {
                    i
                };
                let line = s.substring_char(start, end);
                out.push(String::from_str(line));
                proof {
                    lemma_lines_scan_skip(s@, start as int, start as int, i as int);
                    assert(chomp_cr(s@.subrange(start as int, i as int)) =~= s@.subrange(
                        start as int,
                        end as int,
                    ));
                    assert(str_views(out@) =~= str_views(prev).push(line@));
                    assert(str_views(out@) + lines_scan(s@, i + 1, i + 1) =~= lines_of(s@));
                }
                start = i + 1;
            },
            None => {
                proof {
                    lemma_find_from(s@, '\n', start as int);
                    lemma_lines_scan_skip(s@, start as int, start as int, n as int);
                }
                let line = s.substring_char(start, n);
                out.push(String::from_str(line));
                proof {
                    assert(lines_scan(s@, start as int, n as int) =~= seq![line@]);
                    assert(str_views(out@) =~= str_views(prev).push(line@));
                    assert(str_views(out@) + lines_scan(s@, n as int, n as int) =~= lines_of(
                        s@,
                    ));
                }
                start = n;
            },
        }
    }
    proof {
        assert(lines_scan(s@, start as int, start as int) =~= Seq::<Seq<char>>::empty());
        assert(str_views(out@) =~= lines_of(s@));
    }
    out
}

} // verus!
