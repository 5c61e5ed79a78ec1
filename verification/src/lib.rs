//! Runfiles lookup library for binaries and tests built by a Bazel-style
//! build system.
//!
//! A built binary refers to its data dependencies ("runfiles") by logical
//! paths rooted at a repository name.  Depending on how the build system
//! materialized the runfiles, a logical path is resolved either by joining
//! it onto a runfiles directory tree, or by an exact lookup in a manifest
//! file that maps logical paths to physical ones.  An optional
//! repository-mapping table first translates the leading path segment from
//! the locally used ("apparent") repository name to its globally unique
//! ("canonical") name.
//!
//! This crate holds the verified core: path splitting and joining, the
//! manifest and repository-mapping file formats, the resolution algorithm
//! of [`Runfiles::rlocation`], the derivation of the source repository from
//! the executable's path, and the decision logic of the runfiles-directory
//! discovery search.  Reading environment variables, probing the
//! filesystem, and following real symbolic links are left to the embedding
//! program, which feeds the answers to the functions here as plain values.

mod discovery;
mod errors;
mod manifest;
mod paths;
mod repo_mapping;
mod resolver;
mod source_repo;
mod table;
mod text;

pub use discovery::candidate_runfiles_dir;
pub use discovery::choose_root_override;
pub use discovery::resolve_link_target;
pub use discovery::runfiles_ancestor;
pub use discovery::sibling_runfiles_path;
pub use errors::RunfilesError;
pub use manifest::parse_manifest;
pub use repo_mapping::parse_repo_mapping;
pub use resolver::Mode;
pub use resolver::Runfiles;
pub use resolver::find_manifest_path;
pub use resolver::is_manifest_only;
pub use paths::parent_of;
pub use source_repo::get_source_repository;
pub use table::Table;
