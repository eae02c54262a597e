//! The failures of a release run.
use vstd::prelude::*;

verus! {

/// Why a release run stopped.
#[derive(Clone, Debug)]
pub enum ReleaseError {
    /// The configuration cannot be run: an empty matrix axis, a missing tag.
    Configuration(String),
    /// A binary that the build step should have produced is not on disk;
    /// holds the path that was looked for.
    MissingArtifact(String),
    /// The archive of a binary could not be produced; holds the binary's name.
    Packaging(String),
    /// Neither creating the release nor fetching it by tag succeeded.
    ReleaseUnavailable { create_error: String, fetch_error: String },
    /// The hosting platform rejected the upload of an asset or of its
    /// checksum file.
    Upload { asset: String, error: String },
    /// An asset has no checksum, so no checksum file can be made for it.
    MissingChecksum(String),
    /// A matrix entry has no uploaded asset: the uploads dropped one.
    AssetNotFound(String),
}

} // verus!
