//! Build fingerprints and the catalogue of known builds.
pub mod fingerprint;
pub mod versions;

pub use fingerprint::{ApkBuildFingerprint, FingerprintGenerator};
pub use versions::{VersionCache, VersionLookup, VersionSource};
