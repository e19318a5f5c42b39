//! One installed product instance: holds the installation path, extracts
//! the installed version from scanned bytes, and resolves the difference
//! against a remote manifest.

use vstd::prelude::*;
use crate::diff::{resolve, resolve_post, VersionDiff};
use crate::manifest::{Manifest, ManifestError};
use crate::scan::{scan_spec, scan_version, ScanProfile};
use crate::version::Version;

verus! {

/// No version-like byte sequence was found in the scanned data.
#[derive(Debug, Clone, Copy, PartialEq, Eq, Structural)]
pub enum ScanError {
    NotFound,
}

/// An installed product instance, identified by its installation path.
#[derive(Debug, Clone)]
pub struct Game {
    path: String,
}

impl Game {
    /// The installation path this instance stands for.
    pub closed spec fn path_str(&self) -> String {
        self.path
    }

    pub fn new(path: String) -> (r: Game)
        ensures
            r.path_str() == path,
    {
        Game { path }
    }

    pub fn path(&self) -> (r: &String)
        ensures
            *r == self.path_str(),
    {
        &self.path
    }

    /// Extracts the installed version by scanning the component's data
    /// bytes under the product's scan profile.
    pub fn try_get_version(&self, data: &Vec<u8>, profile: &ScanProfile) -> (r: Result<
        Version,
        ScanError,
    >)
        ensures
            match r {
                Ok(v) => scan_spec(data@, *profile) == Some(v),
                Err(e) => scan_spec(data@, *profile) is None && e == ScanError::NotFound,
            },
    {
        match scan_version(data, profile) {
            Some(v) => Ok(v),
            None => Err(ScanError::NotFound),
        }
    }

    /// Difference between the installed version (`local`, `None` when the
    /// component is absent) and the latest the manifest offers. The
    /// produced diff installs into this instance's path.
    pub fn try_get_diff(&self, manifest: &Manifest, local: Option<Version>) -> (r: Result<
        VersionDiff,
        ManifestError,
    >)
        ensures
            resolve_post(local, *manifest, Some(self.path_str()), None, r),
    {
        resolve(local, manifest, Some(self.path.clone()), None)
    }
}

} // verus!
