//! Construction-time failures.

use vstd::prelude::*;

verus! {

/// Why a `Runfiles` instance could not be built.
#[derive(Clone, Copy, Debug, PartialEq, Eq, Structural)]
pub enum RunfilesError {
    /// The runfiles root could not be located: every override was absent
    /// or unusable and the discovery search ran out of candidates.
    DiscoveryFailure,
    /// The build tooling and this library are out of sync: manifest-only
    /// mode was declared without a manifest path, or a manifest line is
    /// missing its separator.
    ManifestContractViolation,
}

} // verus!
