//! Version numbers of upgradeable contracts.

use vstd::prelude::*;

verus! {

/// A deployed version.
#[derive(Copy, Clone, Debug, PartialEq, Eq, Structural)]
pub struct VersionInfo {
    pub major: u32,
    pub minor: u32,
    pub patch: u32,
    pub deployed_at: u64,
}

/// A contract whose code can be replaced by a newer version.
pub struct UpgradeableContract;

/// The registry of contract versions.
pub struct VersionRegistry;

/// `major.minor.patch` as one comparable number.
pub open spec fn encoded_version(major: u32, minor: u32, patch: u32) -> int {
    major * 10_000_000 + minor * 10_000 + patch
}

impl UpgradeableContract {
    /// Encodes `major.minor.patch` as `major * 10^7 + minor * 10^4 + patch`;
    /// with `minor < 1000` and `patch < 10000` the order of the codes is the
    /// order of the versions.
    pub fn encode_version(major: u32, minor: u32, patch: u32) -> (r: u32)
        requires
            encoded_version(major, minor, patch) <= u32::MAX,
        ensures
            r == encoded_version(major, minor, patch),
    {
        major * 10_000_000 + minor * 10_000 + patch
    }
}

} // verus!
