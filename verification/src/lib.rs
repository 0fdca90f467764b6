//! A versioned delta-manifest access layer for a source-control storage
//! backend: given a changeset, it exposes the set of path-keyed objects that
//! changed relative to the changeset's parents, each represented as a full
//! object or as binary deltas against base objects held elsewhere, with the
//! delta instruction payloads resolved lazily from the object store.

pub mod buffer;
pub mod delta_manifest_ops;
pub mod delta_manifest_v2;
pub mod derivation;
pub mod hash;
pub mod path;
pub mod receiver;
pub mod store;
pub mod types;

pub use delta_manifest_ops::GitDeltaManifest;
pub use delta_manifest_ops::GitDeltaManifestEntryOps;
pub use delta_manifest_ops::GitDeltaManifestEntryStream;
pub use delta_manifest_ops::GitDeltaManifestOps;
pub use delta_manifest_ops::ObjectDeltaOps;
pub use delta_manifest_ops::fetch_git_delta_manifest;
pub use derivation::RepoDerivedData;
pub use derivation::RootGitDeltaManifestV2Id;
pub use hash::GIT_SHA1_RAW_SIZE;
pub use hash::GitSha1;
pub use hash::RichGitSha1;
pub use types::ChangesetId;
pub use types::CoreContext;
pub use types::GitDeltaManifestError;
pub use types::GitDeltaManifestVersion;
pub use types::ObjectId;
pub use types::ObjectKind;
