//! Typed model of the remote version manifest that the resolver consumes.
//! Version fields are already decoded version values; size fields stay as
//! the decimal strings the wire format carries, and are decoded here with a
//! hard error on malformed text.

use vstd::prelude::*;
use crate::text::parse_dec_u64;
use crate::text::u64_from_dec;
use crate::version::Version;

verus! {

/// One locale's voice package as a manifest entry lists it.
#[derive(Debug, Clone, PartialEq, Eq)]
pub struct VoicePackEntry {
    /// Manifest language code, e.g. `"en-us"`.
    pub language: String,
    pub uri: String,
    /// Decimal string; the wire format's `size` field.
    pub size: String,
    /// Decimal string; the wire format's `package_size` field.
    pub package_size: String,
}

/// One package entry: the latest package or one incremental diff.
#[derive(Debug, Clone, PartialEq, Eq)]
pub struct PackageEntry {
    pub version: Version,
    pub uri: String,
    /// Decimal string; unpacked size of the package.
    pub size: String,
    /// Decimal string; size of the download itself.
    pub package_size: String,
    pub voice_packs: Vec<VoicePackEntry>,
}

/// Early-access data for the next version, when the manifest offers it.
#[derive(Debug, Clone, PartialEq, Eq)]
pub struct PredownloadInfo {
    /// The upcoming version.
    pub latest: Version,
    /// Diffs keyed by the version they upgrade from.
    pub diffs: Vec<PackageEntry>,
}

/// The decoded remote manifest for one product.
#[derive(Debug, Clone, PartialEq, Eq)]
pub struct Manifest {
    pub latest: PackageEntry,
    pub diffs: Vec<PackageEntry>,
    pub predownload: Option<PredownloadInfo>,
}

/// A malformed manifest is a hard error, never silently defaulted.
#[derive(Debug, Clone, PartialEq, Eq)]
pub enum ManifestError {
    /// A size field that is not a decimal `u64`; carries the offending text.
    MalformedSize(String),
}

/// Value of a decimal-string size field, `None` when malformed.
pub open spec fn size_of(s: String) -> Option<u64> {
    parse_dec_u64(vstd::utf8::encode_utf8(s@))
}

/// Decodes a size field, returning exactly what `size_of` denotes.
pub fn parse_size(s: &String) -> (r: Option<u64>)
    ensures
        r == size_of(*s),
{
    let b = s.as_str().as_bytes_vec();
    u64_from_dec(&b)
}

} // verus!
