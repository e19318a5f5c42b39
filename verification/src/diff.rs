//! Diff resolution: reconciles the locally installed version (or its
//! absence) with the remote manifest and produces a typed `VersionDiff`
//! saying exactly what must happen, plus the download plans derived from it.

use vstd::prelude::*;
use vstd::string::StringExecFns;
use crate::manifest::{size_of, parse_size, Manifest, ManifestError, PackageEntry};
use crate::version::Version;

verus! {

/// The typed difference between the installed and the latest remote
/// version. Exactly one variant is chosen per resolution.
#[derive(Debug, Clone, PartialEq, Eq)]
pub enum VersionDiff {
    /// Installed and remote versions are equal; nothing downloadable.
    Latest { version: Version },
    /// An early-access package for the next version is available while the
    /// current version is still playable.
    Predownload {
        current: Version,
        latest: Version,
        uri: String,
        downloaded_size: u64,
        unpacked_size: u64,
        /// Per-file fetch list; empty for a single-archive package.
        files: Vec<String>,
        /// `None` when the diff was produced without a known destination;
        /// install operations must then fail, never guess a path.
        installation_path: Option<String>,
        version_file_path: Option<String>,
        temp_folder: Option<String>,
    },
    /// An incremental patch archive transforms `current` into `latest`.
    Diff {
        current: Version,
        latest: Version,
        uri: String,
        downloaded_size: u64,
        unpacked_size: u64,
        files: Vec<String>,
        installation_path: Option<String>,
        version_file_path: Option<String>,
        temp_folder: Option<String>,
    },
    /// No incremental patch matches the installed version; only a full
    /// reinstall is possible.
    Outdated { current: Version, latest: Version },
    /// The component is absent; `uri` points to a full package.
    NotInstalled {
        latest: Version,
        uri: String,
        downloaded_size: u64,
        unpacked_size: u64,
        files: Vec<String>,
        installation_path: Option<String>,
        version_file_path: Option<String>,
        temp_folder: Option<String>,
    },
}

/// A failure of the download machinery itself.
#[derive(Debug, Clone, PartialEq, Eq)]
pub enum DownloadingError {
    /// Free space could not be queried for the destination path.
    PathNotMounted(String),
    /// Not enough free space at the destination.
    NoSpaceAvailable { path: String, required: u64, available: u64 },
    /// Wrapped transport failure, never retried here.
    Network(String),
}

/// Why a download or install request on a diff was refused or failed.
#[derive(Debug, Clone, PartialEq, Eq)]
pub enum DiffDownloadingError {
    /// The component is already the latest version.
    AlreadyLatest,
    /// The diff is terminal (`Outdated`): nothing is downloadable.
    NotActionable,
    /// The diff carries no installation path.
    PathNotSpecified,
    DownloadingError(DownloadingError),
}

/// First manifest entry keyed by exactly `v`, scanning in list order.
pub open spec fn found_diff(diffs: Seq<PackageEntry>, v: Version) -> Option<PackageEntry>
    decreases diffs.len(),
{
    if diffs.len() == 0 {
        None
    } else if diffs[0].version == v {
        Some(diffs[0])
    } else {
        found_diff(diffs.drop_first(), v)
    }
}

/// A match exists exactly when some entry carries the version, and any
/// match found carries it.
pub proof fn lemma_found_diff_some(diffs: Seq<PackageEntry>, v: Version)
    ensures
        (found_diff(diffs, v) is Some) <==> exists|i: int|
            0 <= i < diffs.len() && diffs[i].version == v,
        forall|e: PackageEntry| found_diff(diffs, v) == Some(e) ==> e.version == v,
    decreases diffs.len(),
{
    if diffs.len() > 0 {
        lemma_found_diff_some(diffs.drop_first(), v);
        if diffs[0].version != v {
            if exists|i: int| 0 <= i < diffs.len() && diffs[i].version == v {
                let i = choose|i: int| 0 <= i < diffs.len() && diffs[i].version == v;
                assert(diffs.drop_first()[i - 1].version == v);
            }
        }
    }
}

/// Both size fields of the entry decode.
pub open spec fn entry_ok(entry: PackageEntry) -> bool {
    size_of(entry.package_size) is Some && size_of(entry.size) is Some
}

/// The error reported for an entry with a malformed size field.
pub open spec fn size_error_for(r: Result<VersionDiff, ManifestError>, entry: PackageEntry) -> bool {
    if size_of(entry.package_size) is None {
        r == Err::<VersionDiff, ManifestError>(ManifestError::MalformedSize(entry.package_size))
    } else {
        r == Err::<VersionDiff, ManifestError>(ManifestError::MalformedSize(entry.size))
    }
}

/// The payload fields an installable diff takes from its manifest entry.
pub open spec fn installable_fields(
    uri: String,
    downloaded_size: u64,
    unpacked_size: u64,
    files: Seq<String>,
    installation_path: Option<String>,
    version_file_path: Option<String>,
    temp_folder: Option<String>,
    entry: PackageEntry,
    want_ip: Option<String>,
    want_vfp: Option<String>,
) -> bool {
    &&& uri == entry.uri
    &&& Some(downloaded_size) == size_of(entry.package_size)
    &&& Some(unpacked_size) == size_of(entry.size)
    &&& files.len() == 0
    &&& installation_path == want_ip
    &&& version_file_path == want_vfp
    &&& temp_folder is None
}

pub open spec fn is_not_installed_for(
    r: Result<VersionDiff, ManifestError>,
    entry: PackageEntry,
    want_ip: Option<String>,
    want_vfp: Option<String>,
) -> bool {
    r matches Ok(d) && d matches VersionDiff::NotInstalled {
        latest,
        uri,
        downloaded_size,
        unpacked_size,
        files,
        installation_path,
        version_file_path,
        temp_folder,
    } && latest == entry.version && installable_fields(
        uri,
        downloaded_size,
        unpacked_size,
        files@,
        installation_path,
        version_file_path,
        temp_folder,
        entry,
        want_ip,
        want_vfp,
    )
}

pub open spec fn is_diff_for(
    r: Result<VersionDiff, ManifestError>,
    cur: Version,
    lat: Version,
    entry: PackageEntry,
    want_ip: Option<String>,
    want_vfp: Option<String>,
) -> bool {
    r matches Ok(d) && d matches VersionDiff::Diff {
        current,
        latest,
        uri,
        downloaded_size,
        unpacked_size,
        files,
        installation_path,
        version_file_path,
        temp_folder,
    } && current == cur && latest == lat && installable_fields(
        uri,
        downloaded_size,
        unpacked_size,
        files@,
        installation_path,
        version_file_path,
        temp_folder,
        entry,
        want_ip,
        want_vfp,
    )
}

pub open spec fn is_predownload_for(
    r: Result<VersionDiff, ManifestError>,
    cur: Version,
    lat: Version,
    entry: PackageEntry,
    want_ip: Option<String>,
    want_vfp: Option<String>,
) -> bool {
    r matches Ok(d) && d matches VersionDiff::Predownload {
        current,
        latest,
        uri,
        downloaded_size,
        unpacked_size,
        files,
        installation_path,
        version_file_path,
        temp_folder,
    } && current == cur && latest == lat && installable_fields(
        uri,
        downloaded_size,
        unpacked_size,
        files@,
        installation_path,
        version_file_path,
        temp_folder,
        entry,
        want_ip,
        want_vfp,
    )
}

/// The full resolution policy, evaluated in this order: absent local
/// version; local equals latest (with a predownload check); otherwise an
/// incremental diff lookup, falling back to `Outdated`.
pub open spec fn resolve_post(
    local: Option<Version>,
    m: Manifest,
    want_ip: Option<String>,
    want_vfp: Option<String>,
    r: Result<VersionDiff, ManifestError>,
) -> bool {
    match local {
        None => if entry_ok(m.latest) {
            is_not_installed_for(r, m.latest, want_ip, want_vfp)
        } else {
            size_error_for(r, m.latest)
        },
        Some(v) => if v == m.latest.version {
            match m.predownload {
                Some(p) => match found_diff(p.diffs@, v) {
                    Some(e) => if entry_ok(e) {
                        is_predownload_for(r, v, p.latest, e, want_ip, want_vfp)
                    } else {
                        size_error_for(r, e)
                    },
                    None => r == Ok::<VersionDiff, ManifestError>(
                        VersionDiff::Latest { version: v },
                    ),
                },
                None => r == Ok::<VersionDiff, ManifestError>(VersionDiff::Latest { version: v }),
            }
        } else {
            match found_diff(m.diffs@, v) {
                Some(e) => if entry_ok(e) {
                    is_diff_for(r, v, m.latest.version, e, want_ip, want_vfp)
                } else {
                    size_error_for(r, e)
                },
                None => r == Ok::<VersionDiff, ManifestError>(
                    VersionDiff::Outdated { current: v, latest: m.latest.version },
                ),
            }
        },
    }
}

/// Index of the first manifest entry keyed by `v`.
pub(crate) fn find_diff(diffs: &Vec<PackageEntry>, v: Version) -> (r: Option<usize>)
    ensures
        match r {
            Some(i) => i < diffs@.len() && found_diff(diffs@, v) == Some(diffs@[i as int]),
            None => found_diff(diffs@, v) is None,
        },
{
    let mut i: usize = 0;
    proof {
        assert(diffs@.skip(0) =~= diffs@);
    }
    while i < diffs.len()
        invariant
            0 <= i <= diffs@.len(),
            found_diff(diffs@, v) == found_diff(diffs@.skip(i as int), v),
        decreases diffs@.len() - i,
    {
        proof {
            assert(diffs@.skip(i as int).drop_first() =~= diffs@.skip(i as int + 1));
            assert(diffs@.skip(i as int)[0] == diffs@[i as int]);
        }
        if diffs[i].version == v {
            return Some(i);
        }
        i = i + 1;
    }
    None
}

/// Builds an installable diff of the given shape from a manifest entry,
/// decoding its size fields.
fn build_not_installed(
    entry: &PackageEntry,
    installation_path: Option<String>,
    version_file_path: Option<String>,
) -> (r: Result<VersionDiff, ManifestError>)
    ensures
        if entry_ok(*entry) {
            is_not_installed_for(r, *entry, installation_path, version_file_path)
        } else {
            size_error_for(r, *entry)
        },
{
    let downloaded_size = match parse_size(&entry.package_size) {
        Some(n) => n,
        None => {
            return Err(ManifestError::MalformedSize(entry.package_size.clone()));
        },
    };
    let unpacked_size = match parse_size(&entry.size) {
        Some(n) => n,
        None => {
            return Err(ManifestError::MalformedSize(entry.size.clone()));
        },
    };
    Ok(
        VersionDiff::NotInstalled {
            latest: entry.version,
            uri: entry.uri.clone(),
            downloaded_size,
            unpacked_size,
            files: Vec::new(),
            installation_path,
            version_file_path,
            temp_folder: None,
        },
    )
}

fn build_diff(
    cur: Version,
    lat: Version,
    entry: &PackageEntry,
    installation_path: Option<String>,
    version_file_path: Option<String>,
) -> (r: Result<VersionDiff, ManifestError>)
    ensures
        if entry_ok(*entry) {
            is_diff_for(r, cur, lat, *entry, installation_path, version_file_path)
        } else {
            size_error_for(r, *entry)
        },
{
    let downloaded_size = match parse_size(&entry.package_size) {
        Some(n) => n,
        None => {
            return Err(ManifestError::MalformedSize(entry.package_size.clone()));
        },
    };
    let unpacked_size = match parse_size(&entry.size) {
        Some(n) => n,
        None => {
            return Err(ManifestError::MalformedSize(entry.size.clone()));
        },
    };
    Ok(
        VersionDiff::Diff {
            current: cur,
            latest: lat,
            uri: entry.uri.clone(),
            downloaded_size,
            unpacked_size,
            files: Vec::new(),
            installation_path,
            version_file_path,
            temp_folder: None,
        },
    )
}

fn build_predownload(
    cur: Version,
    lat: Version,
    entry: &PackageEntry,
    installation_path: Option<String>,
    version_file_path: Option<String>,
) -> (r: Result<VersionDiff, ManifestError>)
    ensures
        if entry_ok(*entry) {
            is_predownload_for(r, cur, lat, *entry, installation_path, version_file_path)
        } else {
            size_error_for(r, *entry)
        },
{
    let downloaded_size = match parse_size(&entry.package_size) {
        Some(n) => n,
        None => {
            return Err(ManifestError::MalformedSize(entry.package_size.clone()));
        },
    };
    let unpacked_size = match parse_size(&entry.size) {
        Some(n) => n,
        None => {
            return Err(ManifestError::MalformedSize(entry.size.clone()));
        },
    };
    Ok(
        VersionDiff::Predownload {
            current: cur,
            latest: lat,
            uri: entry.uri.clone(),
            downloaded_size,
            unpacked_size,
            files: Vec::new(),
            installation_path,
            version_file_path,
            temp_folder: None,
        },
    )
}

/// Reconciles the local version (or absence) with the manifest, following
/// the resolution policy exactly.
pub fn resolve(
    local: Option<Version>,
    manifest: &Manifest,
    installation_path: Option<String>,
    version_file_path: Option<String>,
) -> (r: Result<VersionDiff, ManifestError>)
    ensures
        resolve_post(local, *manifest, installation_path, version_file_path, r),
{
    match local {
        None => build_not_installed(&manifest.latest, installation_path, version_file_path),
        Some(v) => {
            if v == manifest.latest.version {
                match &manifest.predownload {
                    Some(p) => {
                        match find_diff(&p.diffs, v) {
                            Some(i) => build_predownload(
                                v,
                                p.latest,
                                &p.diffs[i],
                                installation_path,
                                version_file_path,
                            ),
                            None => Ok(VersionDiff::Latest { version: v }),
                        }
                    },
                    None => Ok(VersionDiff::Latest { version: v }),
                }
            } else {
                match find_diff(&manifest.diffs, v) {
                    Some(i) => build_diff(
                        v,
                        manifest.latest.version,
                        &manifest.diffs[i],
                        installation_path,
                        version_file_path,
                    ),
                    None => Ok(
                        VersionDiff::Outdated { current: v, latest: manifest.latest.version },
                    ),
                }
            }
        },
    }
}

/// A fetch of one URL into one destination file, ready for a transport.
#[derive(Debug, Clone, PartialEq, Eq)]
pub struct DownloadTask {
    pub uri: String,
    pub destination: String,
}

impl VersionDiff {
    /// The installed version the diff was resolved from, when one exists.
    pub open spec fn current_spec(d: VersionDiff) -> Option<Version> {
        match d {
            VersionDiff::Latest { version } => Some(version),
            VersionDiff::Predownload { current, .. } => Some(current),
            VersionDiff::Diff { current, .. } => Some(current),
            VersionDiff::Outdated { current, .. } => Some(current),
            VersionDiff::NotInstalled { .. } => None,
        }
    }

    /// The latest remote version the diff leads to.
    pub open spec fn latest_spec(d: VersionDiff) -> Version {
        match d {
            VersionDiff::Latest { version } => version,
            VersionDiff::Predownload { latest, .. } => latest,
            VersionDiff::Diff { latest, .. } => latest,
            VersionDiff::Outdated { latest, .. } => latest,
            VersionDiff::NotInstalled { latest, .. } => latest,
        }
    }

    pub open spec fn downloaded_size_spec(d: VersionDiff) -> Option<u64> {
        match d {
            VersionDiff::Predownload { downloaded_size, .. } => Some(downloaded_size),
            VersionDiff::Diff { downloaded_size, .. } => Some(downloaded_size),
            VersionDiff::NotInstalled { downloaded_size, .. } => Some(downloaded_size),
            _ => None,
        }
    }

    pub open spec fn unpacked_size_spec(d: VersionDiff) -> Option<u64> {
        match d {
            VersionDiff::Predownload { unpacked_size, .. } => Some(unpacked_size),
            VersionDiff::Diff { unpacked_size, .. } => Some(unpacked_size),
            VersionDiff::NotInstalled { unpacked_size, .. } => Some(unpacked_size),
            _ => None,
        }
    }

    pub open spec fn uri_spec(d: VersionDiff) -> Option<String> {
        match d {
            VersionDiff::Predownload { uri, .. } => Some(uri),
            VersionDiff::Diff { uri, .. } => Some(uri),
            VersionDiff::NotInstalled { uri, .. } => Some(uri),
            _ => None,
        }
    }

    pub open spec fn installation_path_spec(d: VersionDiff) -> Option<String> {
        match d {
            VersionDiff::Predownload { installation_path, .. } => installation_path,
            VersionDiff::Diff { installation_path, .. } => installation_path,
            VersionDiff::NotInstalled { installation_path, .. } => installation_path,
            _ => None,
        }
    }

    pub open spec fn version_file_path_spec(d: VersionDiff) -> Option<String> {
        match d {
            VersionDiff::Predownload { version_file_path, .. } => version_file_path,
            VersionDiff::Diff { version_file_path, .. } => version_file_path,
            VersionDiff::NotInstalled { version_file_path, .. } => version_file_path,
            _ => None,
        }
    }

    pub open spec fn files_spec(d: VersionDiff) -> Option<Seq<String>> {
        match d {
            VersionDiff::Predownload { files, .. } => Some(files@),
            VersionDiff::Diff { files, .. } => Some(files@),
            VersionDiff::NotInstalled { files, .. } => Some(files@),
            _ => None,
        }
    }

    /// The diff is one of the variants an install can act on.
    pub open spec fn is_installable(d: VersionDiff) -> bool {
        d matches VersionDiff::Predownload { .. } || d matches VersionDiff::Diff { .. }
            || d matches VersionDiff::NotInstalled { .. }
    }

    pub fn current(&self) -> (r: Option<Version>)
        ensures
            r == Self::current_spec(*self),
    {
        match self {
            VersionDiff::Latest { version } => Some(*version),
            VersionDiff::Predownload { current, .. } => Some(*current),
            VersionDiff::Diff { current, .. } => Some(*current),
            VersionDiff::Outdated { current, .. } => Some(*current),
            VersionDiff::NotInstalled { .. } => None,
        }
    }

    pub fn latest(&self) -> (r: Version)
        ensures
            r == Self::latest_spec(*self),
    {
        match self {
            VersionDiff::Latest { version } => *version,
            VersionDiff::Predownload { latest, .. } => *latest,
            VersionDiff::Diff { latest, .. } => *latest,
            VersionDiff::Outdated { latest, .. } => *latest,
            VersionDiff::NotInstalled { latest, .. } => *latest,
        }
    }

    pub fn downloaded_size(&self) -> (r: Option<u64>)
        ensures
            r == Self::downloaded_size_spec(*self),
    {
        match self {
            VersionDiff::Predownload { downloaded_size, .. } => Some(*downloaded_size),
            VersionDiff::Diff { downloaded_size, .. } => Some(*downloaded_size),
            VersionDiff::NotInstalled { downloaded_size, .. } => Some(*downloaded_size),
            _ => None,
        }
    }

    pub fn unpacked_size(&self) -> (r: Option<u64>)
        ensures
            r == Self::unpacked_size_spec(*self),
    {
        match self {
            VersionDiff::Predownload { unpacked_size, .. } => Some(*unpacked_size),
            VersionDiff::Diff { unpacked_size, .. } => Some(*unpacked_size),
            VersionDiff::NotInstalled { unpacked_size, .. } => Some(*unpacked_size),
            _ => None,
        }
    }

    /// URL of the package or the base of the per-file tree.
    pub fn downloading_uri(&self) -> (r: Option<String>)
        ensures
            r == Self::uri_spec(*self),
    {
        match self {
            VersionDiff::Predownload { uri, .. } => Some(uri.clone()),
            VersionDiff::Diff { uri, .. } => Some(uri.clone()),
            VersionDiff::NotInstalled { uri, .. } => Some(uri.clone()),
            _ => None,
        }
    }

    pub fn installation_path(&self) -> (r: Option<String>)
        ensures
            r == Self::installation_path_spec(*self),
    {
        match self {
            VersionDiff::Predownload { installation_path, .. } => clone_opt_string(
                installation_path,
            ),
            VersionDiff::Diff { installation_path, .. } => clone_opt_string(installation_path),
            VersionDiff::NotInstalled { installation_path, .. } => clone_opt_string(
                installation_path,
            ),
            _ => None,
        }
    }

    /// Path of the `.version` marker file, when the diff configures one.
    pub fn version_file_path(&self) -> (r: Option<String>)
        ensures
            r == Self::version_file_path_spec(*self),
    {
        match self {
            VersionDiff::Predownload { version_file_path, .. } => clone_opt_string(
                version_file_path,
            ),
            VersionDiff::Diff { version_file_path, .. } => clone_opt_string(version_file_path),
            VersionDiff::NotInstalled { version_file_path, .. } => clone_opt_string(
                version_file_path,
            ),
            _ => None,
        }
    }

    /// Per-file fetch list of an installable diff.
    pub fn files(&self) -> (r: Option<Vec<String>>)
        ensures
            match r {
                Some(fs) => Self::files_spec(*self) matches Some(s) && fs@ == s,
                None => Self::files_spec(*self) is None,
            },
    {
        match self {
            VersionDiff::Predownload { files, .. } => Some(clone_string_vec(files)),
            VersionDiff::Diff { files, .. } => Some(clone_string_vec(files)),
            VersionDiff::NotInstalled { files, .. } => Some(clone_string_vec(files)),
            _ => None,
        }
    }

    /// Plans the archive download into `[installation path]/game.zip`.
    /// `Latest` and `Outdated` diffs are refused outright.
    pub fn download(&self) -> (r: Result<DownloadTask, DiffDownloadingError>)
        ensures
            (*self) matches VersionDiff::Latest { .. } ==> r == Err::<DownloadTask,
                DiffDownloadingError,
            >(DiffDownloadingError::AlreadyLatest),
            (*self) matches VersionDiff::Outdated { .. } ==> r == Err::<DownloadTask,
                DiffDownloadingError,
            >(DiffDownloadingError::NotActionable),
            Self::is_installable(*self) ==> match Self::installation_path_spec(*self) {
                Some(p) => r matches Ok(t) && Some(t.uri) == Self::uri_spec(*self)
                    && t.destination@ == p@ + "/game.zip"@,
                None => r == Err::<DownloadTask, DiffDownloadingError>(
                    DiffDownloadingError::PathNotSpecified,
                ),
            },
    {
        match self {
            VersionDiff::Latest { .. } => Err(DiffDownloadingError::AlreadyLatest),
            VersionDiff::Outdated { .. } => Err(DiffDownloadingError::NotActionable),
            VersionDiff::Predownload { uri, installation_path, .. } => archive_task(
                uri,
                installation_path,
            ),
            VersionDiff::Diff { uri, installation_path, .. } => archive_task(
                uri,
                installation_path,
            ),
            VersionDiff::NotInstalled { uri, installation_path, .. } => archive_task(
                uri,
                installation_path,
            ),
        }
    }

    /// Plans the archive download into a caller-chosen destination file.
    /// `Latest` and `Outdated` diffs are refused outright.
    pub fn download_to(&self, path: String) -> (r: Result<DownloadTask, DiffDownloadingError>)
        ensures
            (*self) matches VersionDiff::Latest { .. } ==> r == Err::<DownloadTask,
                DiffDownloadingError,
            >(DiffDownloadingError::AlreadyLatest),
            (*self) matches VersionDiff::Outdated { .. } ==> r == Err::<DownloadTask,
                DiffDownloadingError,
            >(DiffDownloadingError::NotActionable),
            Self::is_installable(*self) ==> (r matches Ok(t) && Some(t.uri) == Self::uri_spec(
                *self,
            ) && t.destination == path),
    {
        match self {
            VersionDiff::Latest { .. } => Err(DiffDownloadingError::AlreadyLatest),
            VersionDiff::Outdated { .. } => Err(DiffDownloadingError::NotActionable),
            VersionDiff::Predownload { uri, .. } => Ok(
                DownloadTask { uri: uri.clone(), destination: path },
            ),
            VersionDiff::Diff { uri, .. } => Ok(
                DownloadTask { uri: uri.clone(), destination: path },
            ),
            VersionDiff::NotInstalled { uri, .. } => Ok(
                DownloadTask { uri: uri.clone(), destination: path },
            ),
        }
    }
}

/// Archive task for a diff's URL: refused when no installation path is
/// known.
fn archive_task(uri: &String, installation_path: &Option<String>) -> (r: Result<
    DownloadTask,
    DiffDownloadingError,
>)
    ensures
        match *installation_path {
            Some(p) => r matches Ok(t) && t.uri == *uri && t.destination@ == p@ + "/game.zip"@,
            None => r == Err::<DownloadTask, DiffDownloadingError>(
                DiffDownloadingError::PathNotSpecified,
            ),
        },
{
    match installation_path {
        Some(p) => {
            let dest = p.clone().concat("/game.zip");
            Ok(DownloadTask { uri: uri.clone(), destination: dest })
        },
        None => Err(DiffDownloadingError::PathNotSpecified),
    }
}

/// Clones an optional string, preserving the value.
pub fn clone_opt_string(s: &Option<String>) -> (r: Option<String>)
    ensures
        r == *s,
{
    match s {
        Some(p) => Some(p.clone()),
        None => None,
    }
}

/// Clones a string list, preserving the values.
pub fn clone_string_vec(v: &Vec<String>) -> (r: Vec<String>)
    ensures
        r@ == v@,
{
    let mut out: Vec<String> = Vec::new();
    let mut i: usize = 0;
    while i < v.len()
        invariant
            0 <= i <= v@.len(),
            out@ =~= v@.take(i as int),
        decreases v@.len() - i,
    {
        out.push(v[i].clone());
        i = i + 1;
    }
    proof {
        assert(v@.take(v@.len() as int) =~= v@);
    }
    out
}

/// With no local version, resolution always produces `NotInstalled` (on a
/// manifest whose latest entry decodes).
pub proof fn lemma_resolve_absent_is_not_installed(
    m: Manifest,
    want_ip: Option<String>,
    want_vfp: Option<String>,
    r: Result<VersionDiff, ManifestError>,
)
    requires
        entry_ok(m.latest),
        resolve_post(None, m, want_ip, want_vfp, r),
    ensures
        r matches Ok(d) && d matches VersionDiff::NotInstalled { .. },
{
}

/// With the latest version installed and no predownload offered,
/// resolution is always `Latest`.
pub proof fn lemma_resolve_latest(
    m: Manifest,
    want_ip: Option<String>,
    want_vfp: Option<String>,
    r: Result<VersionDiff, ManifestError>,
)
    requires
        m.predownload is None,
        resolve_post(Some(m.latest.version), m, want_ip, want_vfp, r),
    ensures
        r == Ok::<VersionDiff, ManifestError>(
            VersionDiff::Latest { version: m.latest.version },
        ),
{
}

/// An installed version that appears in the diff list resolves to `Diff`
/// from exactly that version (on an entry whose sizes decode).
pub proof fn lemma_resolve_diff(
    m: Manifest,
    v: Version,
    entry: PackageEntry,
    want_ip: Option<String>,
    want_vfp: Option<String>,
    r: Result<VersionDiff, ManifestError>,
)
    requires
        v != m.latest.version,
        found_diff(m.diffs@, v) == Some(entry),
        entry_ok(entry),
        resolve_post(Some(v), m, want_ip, want_vfp, r),
    ensures
        r matches Ok(d) && d matches VersionDiff::Diff { current, .. } && current == v,
{
}

/// An installed version that appears nowhere and is not the latest
/// resolves to `Outdated`.
pub proof fn lemma_resolve_outdated(
    m: Manifest,
    v: Version,
    want_ip: Option<String>,
    want_vfp: Option<String>,
    r: Result<VersionDiff, ManifestError>,
)
    requires
        v != m.latest.version,
        forall|i: int| 0 <= i < m.diffs@.len() ==> m.diffs@[i].version != v,
        resolve_post(Some(v), m, want_ip, want_vfp, r),
    ensures
        r == Ok::<VersionDiff, ManifestError>(
            VersionDiff::Outdated { current: v, latest: m.latest.version },
        ),
{
    lemma_found_diff_some(m.diffs@, v);
}

} // verus!
