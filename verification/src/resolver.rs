//! The resolver facade: an immutable composition of the materialization
//! mode, the repository-mapping table and the source repository, built
//! once and then only read.
//!
//! Resolution of a logical path: an absolute path is returned unchanged;
//! otherwise the leading segment, taken as an apparent repository name,
//! is looked up in the repository-mapping table under the source
//! repository, and the possibly remapped path is joined onto the
//! runfiles directory (directory-based mode) or looked up exactly in the
//! manifest table (manifest-based mode).  A directory-based result is
//! never checked for existence; a manifest miss yields no result.

use vstd::prelude::*;
use crate::errors::RunfilesError;
use crate::manifest::manifest_entries_of;
use crate::manifest::manifest_lines_ok;
use crate::manifest::parse_manifest;
use crate::paths::first_segment;
use crate::paths::is_absolute;
use crate::paths::is_absolute_path;
use crate::paths::path_join;
use crate::paths::path_join_exec;
use crate::paths::segment_remainder;
use crate::paths::skip_separators;
use crate::repo_mapping::mapping_entries_of;
use crate::repo_mapping::mapping_lines_ok;
use crate::repo_mapping::parse_repo_mapping;
use crate::table::Table;
use crate::text::find_char_from;
use crate::text::lemma_find_from;
use crate::text::lines_of;
use crate::text::str_eq;
use crate::text::view_opt;
use crate::text::view_opt_string;

verus! {

/// How the build system materialized the runfiles; fixed at
/// construction, never both, never neither.
pub enum Mode {
    /// A directory tree: resolution joins the path onto this root.
    DirectoryBased(String),
    /// A flat manifest: resolution is an exact lookup in this table.
    ManifestBased(Table),
}

/// The immutable resolver.
pub struct Runfiles {
    /// The active materialization mode.
    pub mode: Mode,
    /// The repository-mapping table, keyed by
    /// `<sourceRepo>,<apparentRepo>`; empty when no mapping file exists.
    pub repo_mapping: Table,
    /// The canonical repository owning the running binary, derived from
    /// the executable's installed path; empty for the main repository.
    pub source_repository: String,
    /// The canonical name of the caller's repository, fixed by the build
    /// tooling at build time and only exposed here.
    pub current_repository_name: String,
}

/// The repository-mapping key for a source repository and an apparent
/// repository: the two joined by a comma.
pub open spec fn remap_key(source: Seq<char>, apparent: Seq<char>) -> Seq<char> {
    source + seq![','] + apparent
}

/// A logical path after repository remapping: when the table maps
/// `(source, leading segment)`, the path becomes the mapped canonical
/// name, a separator, and the remainder — the separator run after the
/// segment collapses into the one the join writes — and otherwise the
/// path stands unchanged.
pub open spec fn remapped_path(
    rm: Map<Seq<char>, Seq<char>>,
    source: Seq<char>,
    p: Seq<char>,
) -> Seq<char> {
    let k = remap_key(source, first_segment(p));
    if rm.contains_key(k) {
        path_join(rm[k], segment_remainder(p))
    } else {
        p
    }
}

/// What the active mode makes of an already-remapped path: a pure join,
/// or an exact manifest lookup that can miss.
pub open spec fn mode_resolve(mode: Mode, p: Seq<char>) -> Option<Seq<char>> {
    match mode {
        Mode::DirectoryBased(root) => Some(path_join(root@, p)),
        Mode::ManifestBased(t) => if t.as_map().contains_key(p) {
            Some(t.as_map()[p])
        } else {
            None
        },
    }
}

/// `"1"` selects manifest-based construction; anything else or absence
/// selects directory-based.
pub open spec fn manifest_only_flag(v: Option<Seq<char>>) -> bool {
    match v {
        Some(s) => s == "1"@,
        None => false,
    }
}

/// Whether the manifest-only environment flag selects manifest-based
/// construction.
pub fn is_manifest_only(flag: Option<&str>) -> (r: bool)
    ensures
        r == manifest_only_flag(view_opt(flag)),
{
    match flag {
        Some(v) => str_eq(v, "1"),
        None => false,
    }
}

/// The manifest path named by the environment.  Manifest-only mode
/// without the path override is a contract violation between the build
/// tooling and this library, not a normal runtime state.
pub fn find_manifest_path(manifest_only: Option<&str>, manifest_file: Option<&str>) -> (r:
    Result<String, RunfilesError>)
    requires
        manifest_only_flag(view_opt(manifest_only)),
    ensures
        match r {
            Ok(p) => manifest_file matches Some(f) && p@ == f@,
            Err(e) => manifest_file.is_none() && e == RunfilesError::ManifestContractViolation,
        },
{
    match manifest_file {
        Some(p) => Ok(String::from_str(p)),
        None => Err(RunfilesError::ManifestContractViolation),
    }
}

impl Runfiles {
    /// The repository-mapping table as a map.
    pub open spec fn repo_map(self) -> Map<Seq<char>, Seq<char>> {
        self.repo_mapping.as_map()
    }

    /// The logical path after this instance's remapping step.
    pub open spec fn resolved_path(self, p: Seq<char>) -> Seq<char> {
        remapped_path(self.repo_map(), self.source_repository@, p)
    }

    /// What `rlocation` returns: the input itself when absolute, else the
    /// remapped path resolved against the active mode; `None` only on a
    /// manifest miss.
    pub open spec fn rlocation_spec(self, p: Seq<char>) -> Option<Seq<char>> {
        if is_absolute(p) {
            Some(p)
        } else {
            mode_resolve(self.mode, self.resolved_path(p))
        }
    }

    /// A directory-based instance with an empty repository mapping.
    pub fn create_directory_based(
        runfiles_dir: String,
        source_repository: String,
        current_repository_name: String,
    ) -> (r: Runfiles)
        ensures
            r.mode == Mode::DirectoryBased(runfiles_dir),
            r.repo_map() == Map::<Seq<char>, Seq<char>>::empty(),
            r.source_repository == source_repository,
            r.current_repository_name == current_repository_name,
    {
        Runfiles {
            mode: Mode::DirectoryBased(runfiles_dir),
            repo_mapping: Table::new(),
            source_repository,
            current_repository_name,
        }
    }

    /// A manifest-based instance with an empty repository mapping,
    /// parsed from the manifest file's text; fails exactly when some
    /// non-empty line has no space.
    pub fn create_manifest_based(
        manifest_content: &str,
        source_repository: String,
        current_repository_name: String,
    ) -> (r: Result<Runfiles, RunfilesError>)
        ensures
            match r {
                Ok(rf) => manifest_lines_ok(lines_of(manifest_content@)) && (rf.mode matches
                    Mode::ManifestBased(t) && t.entry_views() == manifest_entries_of(
                    lines_of(manifest_content@),
                )) && rf.repo_map() == Map::<Seq<char>, Seq<char>>::empty()
                    && rf.source_repository == source_repository
                    && rf.current_repository_name == current_repository_name,
                Err(e) => !manifest_lines_ok(lines_of(manifest_content@)) && e
                    == RunfilesError::ManifestContractViolation,
            },
    {
        let t = parse_manifest(manifest_content)?;
        Ok(
            Runfiles {
                mode: Mode::ManifestBased(t),
                repo_mapping: Table::new(),
                source_repository,
                current_repository_name,
            },
        )
    }

    /// The same instance with the repository-mapping table parsed from
    /// the mapping file's text; `None` exactly when some line has fewer
    /// than two commas.
    pub fn with_repo_mapping(self, content: &str) -> (r: Option<Runfiles>)
        ensures
            match r {
                Some(rf) => mapping_lines_ok(lines_of(content@)) && rf.mode == self.mode
                    && rf.source_repository == self.source_repository
                    && rf.current_repository_name == self.current_repository_name
                    && rf.repo_mapping.entry_views() == mapping_entries_of(lines_of(content@)),
                None => !mapping_lines_ok(lines_of(content@)),
            },
    {
        match parse_repo_mapping(content) {
            Some(t) => Some(
                Runfiles {
                    mode: self.mode,
                    repo_mapping: t,
                    source_repository: self.source_repository,
                    current_repository_name: self.current_repository_name,
                },
            ),
            None => None,
        }
    }

    /// Resolves a logical runfile path; `None` only in manifest-based
    /// mode, when the possibly remapped path has no manifest entry.
    pub fn try_rlocation(&self, path: &str) -> (r: Option<String>)
        requires
            path@.len() > 0,
        ensures
            view_opt_string(r) == self.rlocation_spec(path@),
    {
        if is_absolute_path(path) {
            return Some(String::from_str(path));
        }
        let n = path.unicode_len();
        let (seg, rem): (&str, &str) = match find_char_from(path, '/', 0) {
            Some(i) => {
                proof {
                    lemma_find_from(path@, '/', 0);
                }
                let mut j: usize = i;
                while j < n && path.get_char(j) == '/'
                    invariant
                        i <= j <= n,
                        n == path@.len(),
                        skip_separators(path@, i as int) == skip_separators(path@, j as int),
                    decreases n - j,
                {
                    j += 1;
                }
                proof {
                    assert(skip_separators(path@, j as int) == j as int);
                }
                (path.substring_char(0, i), path.substring_char(j, n))
            },
            None => (path, path.substring_char(n, n)),
        };
        proof {
            assert(seg@ == first_segment(path@));
            assert(rem@ =~= segment_remainder(path@));
        }
        let mut key = self.source_repository.clone();
        key.append(",");
        key.append(seg);
        proof {
            reveal_strlit(",");
            assert(key@ =~= remap_key(self.source_repository@, first_segment(path@)));
        }
        let final_path: String = match self.repo_mapping.get(key.as_str()) {
            Some(v) => path_join_exec(v.as_str(), rem),
            None => String::from_str(path),
        };
        match &self.mode {
            Mode::DirectoryBased(root) => Some(path_join_exec(root.as_str(), final_path.as_str())),
            Mode::ManifestBased(t) => match t.get(final_path.as_str()) {
                Some(v) => Some(v.clone()),
                None => None,
            },
        }
    }

    /// The runtime path of a runfile.  An absolute logical path is its
    /// own answer; the result of a directory-based join may name nothing
    /// on disk, which the caller must check.  The result is a function
    /// of the frozen state and the input alone, so repeated calls with
    /// the same input return the same path.
    pub fn rlocation(&self, path: &str) -> (r: String)
        requires
            path@.len() > 0,
            self.rlocation_spec(path@).is_some(),
        ensures
            Some(r@) == self.rlocation_spec(path@),
    {
        match self.try_rlocation(path) {
            Some(r) => r,
            None => unreached(),
        }
    }

    /// Where this instance keeps its repository-mapping file: the
    /// reserved logical name resolved through the instance itself.
    pub fn repo_mapping_location(&self) -> (r: Option<String>)
        ensures
            view_opt_string(r) == self.rlocation_spec("_repo_mapping"@),
    {
        proof {
            reveal_strlit("_repo_mapping");
        }
        self.try_rlocation("_repo_mapping")
    }

    /// The canonical name of the caller's repository, fixed by the build
    /// tooling at build time.
    pub fn current_repository(&self) -> (r: &str)
        ensures
            r@ == self.current_repository_name@,
    {
        self.current_repository_name.as_str()
    }
}

/// An absolute logical path is returned unchanged, whatever the mode,
/// the mapping and the source repository.
pub proof fn lemma_rlocation_absolute_identity(rf: Runfiles, p: Seq<char>)
    requires
        is_absolute(p),
    ensures
        rf.rlocation_spec(p) == Some(p),
{
}

/// A logical path whose leading segment has no remapping entry for the
/// source repository resolves as if no remapping existed.
pub proof fn lemma_rlocation_unmapped(rf: Runfiles, p: Seq<char>)
    requires
        !rf.repo_map().contains_key(remap_key(rf.source_repository@, first_segment(p))),
    ensures
        rf.resolved_path(p) == p,
        !is_absolute(p) ==> rf.rlocation_spec(p) == mode_resolve(rf.mode, p),
{
}

/// Round trip through a manifest entry: a relative logical path with no
/// applicable remapping and an entry `(l, p)` resolves to exactly `p`.
pub proof fn lemma_manifest_round_trip(rf: Runfiles, l: Seq<char>, p: Seq<char>)
    requires
        rf.mode matches Mode::ManifestBased(t) && t.as_map().contains_key(l) && t.as_map()[l]
            == p,
        !is_absolute(l),
        !rf.repo_map().contains_key(remap_key(rf.source_repository@, first_segment(l))),
    ensures
        rf.rlocation_spec(l) == Some(p),
{
}

/// Directory-based resolution is a pure join: with root `r` and no
/// applicable remapping, a relative logical path `l` resolves to the
/// join of `r` and `l`.
pub proof fn lemma_directory_resolution_is_join(rf: Runfiles, r: Seq<char>, l: Seq<char>)
    requires
        rf.mode matches Mode::DirectoryBased(d) && d@ == r,
        !is_absolute(l),
        !rf.repo_map().contains_key(remap_key(rf.source_repository@, first_segment(l))),
    ensures
        rf.rlocation_spec(l) == Some(path_join(r, l)),
{
}

} // verus!

