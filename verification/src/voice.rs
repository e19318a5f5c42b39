//! Voice packages: locale-keyed audio bundles whose installed version
//! carries no marker and is approximated from the measured on-disk size
//! against a size table derived from the manifest.

use vstd::prelude::*;
use vstd::string::{StringExecFns, StrSliceExecFns};
use crate::manifest::{size_of, parse_size, Manifest, VoicePackEntry};
use crate::version::Version;
use crate::diff::VersionDiff;

verus! {

/// Supported voice locale: a closed enumeration with injective mappings to
/// an on-disk folder name and to a manifest language code.
#[derive(Debug, Clone, Copy, PartialEq, Eq, Structural, Hash)]
pub enum VoiceLocale {
    English,
    Japanese,
    Korean,
    Chinese,
}

impl VoiceLocale {
    /// Manifest language code of the locale.
    pub open spec fn code_spec(l: VoiceLocale) -> Seq<char> {
        match l {
            VoiceLocale::English => "en-us"@,
            VoiceLocale::Japanese => "ja-jp"@,
            VoiceLocale::Korean => "ko-kr"@,
            VoiceLocale::Chinese => "zh-cn"@,
        }
    }

    /// On-disk folder name of the locale.
    pub open spec fn folder_spec(l: VoiceLocale) -> Seq<char> {
        match l {
            VoiceLocale::English => "English(US)"@,
            VoiceLocale::Japanese => "Japanese"@,
            VoiceLocale::Korean => "Korean"@,
            VoiceLocale::Chinese => "Chinese"@,
        }
    }

    /// Locale denoted by a folder name or a language code: the first entry
    /// of the enumeration whose folder, then whose code, matches.
    pub open spec fn from_spec(s: Seq<char>) -> Option<VoiceLocale> {
        if s == Self::folder_spec(VoiceLocale::English) || s == Self::code_spec(
            VoiceLocale::English,
        ) {
            Some(VoiceLocale::English)
        } else if s == Self::folder_spec(VoiceLocale::Japanese) || s == Self::code_spec(
            VoiceLocale::Japanese,
        ) {
            Some(VoiceLocale::Japanese)
        } else if s == Self::folder_spec(VoiceLocale::Korean) || s == Self::code_spec(
            VoiceLocale::Korean,
        ) {
            Some(VoiceLocale::Korean)
        } else if s == Self::folder_spec(VoiceLocale::Chinese) || s == Self::code_spec(
            VoiceLocale::Chinese,
        ) {
            Some(VoiceLocale::Chinese)
        } else {
            None
        }
    }

    pub fn to_code(&self) -> (r: &'static str)
        ensures
            r@ == Self::code_spec(*self),
    {
        match self {
            VoiceLocale::English => "en-us",
            VoiceLocale::Japanese => "ja-jp",
            VoiceLocale::Korean => "ko-kr",
            VoiceLocale::Chinese => "zh-cn",
        }
    }

    pub fn to_folder(&self) -> (r: &'static str)
        ensures
            r@ == Self::folder_spec(*self),
    {
        match self {
            VoiceLocale::English => "English(US)",
            VoiceLocale::Japanese => "Japanese",
            VoiceLocale::Korean => "Korean",
            VoiceLocale::Chinese => "Chinese",
        }
    }

    /// Parses a folder name or a language code.
    pub fn from_str(s: &str) -> (r: Option<VoiceLocale>)
        ensures
            r == Self::from_spec(s@),
    {
        if str_eq(s, "English(US)") || str_eq(s, "en-us") {
            Some(VoiceLocale::English)
        } else if str_eq(s, "Japanese") || str_eq(s, "ja-jp") {
            Some(VoiceLocale::Japanese)
        } else if str_eq(s, "Korean") || str_eq(s, "ko-kr") {
            Some(VoiceLocale::Korean)
        } else if str_eq(s, "Chinese") || str_eq(s, "zh-cn") {
            Some(VoiceLocale::Chinese)
        } else {
            None
        }
    }
}

/// Why a voice package operation failed.
#[derive(Debug, Clone, PartialEq, Eq)]
pub enum VoiceError {
    /// The manifest lists no voice pack for the requested locale.
    LocaleNotListed,
    /// A manifest language code outside the supported enumeration.
    UnknownLanguageCode(String),
    /// A size field that is not a decimal `u64`.
    MalformedSize(String),
    /// No game directory is known to act in.
    GamePathUnknown,
}

/// Heuristic policy for approximating an installed voice pack's version
/// from its on-disk size. These are measured policy data, not derived
/// truths: expect the constants to drift and re-derive them as needed.
#[derive(Debug, Clone, Copy, PartialEq, Eq, Structural)]
pub struct SizePolicy {
    /// Empirical correction subtracted from the latest absolute size to
    /// compensate a known double-counted generation of files.
    pub correction: u64,
    /// A diff entry reporting at least this much is taken as an absolute
    /// folder size rather than an incremental one.
    pub absolute_threshold: u64,
    /// A measured size may fall short of a table value by up to this much
    /// and still count as a match.
    pub tolerance: u64,
}

impl SizePolicy {
    /// The policy currently measured for a locale.
    pub fn for_locale(locale: VoiceLocale) -> (r: SizePolicy)
        ensures
            r.absolute_threshold == 4 * 1024 * 1024 * 1024,
            r.tolerance == 512 * 1024 * 1024,
    {
        let correction: u64 = match locale {
            VoiceLocale::English => 8593687434 + 750 * 1024 * 1024,
            VoiceLocale::Japanese => 9373182378 + 750 * 1024 * 1024,
            VoiceLocale::Korean => 8804682956 + 750 * 1024 * 1024,
            VoiceLocale::Chinese => 8804682956 + 750 * 1024 * 1024,
        };
        SizePolicy {
            correction,
            absolute_threshold: 4 * 1024 * 1024 * 1024,
            tolerance: 512 * 1024 * 1024,
        }
    }
}

/// A locale's voice package: installed at a path, or known only from the
/// manifest.
#[derive(Debug, Clone, PartialEq, Eq)]
pub enum VoicePackage {
    Installed { path: String, locale: VoiceLocale },
    NotInstalled {
        locale: VoiceLocale,
        version: Version,
        data: VoicePackEntry,
        game_path: Option<String>,
    },
}

/// First voice pack of the list carrying the locale's language code.
pub open spec fn found_pack(packs: Seq<VoicePackEntry>, code: Seq<char>) -> Option<VoicePackEntry>
    decreases packs.len(),
{
    if packs.len() == 0 {
        None
    } else if packs[0].language@ == code {
        Some(packs[0])
    } else {
        found_pack(packs.drop_first(), code)
    }
}

/// Index of the first voice pack with the locale's language code.
pub fn find_voice_pack(packs: &Vec<VoicePackEntry>, locale: VoiceLocale) -> (r: Option<usize>)
    ensures
        match r {
            Some(i) => i < packs@.len() && found_pack(packs@, VoiceLocale::code_spec(locale))
                == Some(packs@[i as int]),
            None => found_pack(packs@, VoiceLocale::code_spec(locale)) is None,
        },
{
    let code = locale.to_code();
    let mut i: usize = 0;
    proof {
        assert(packs@.skip(0) =~= packs@);
    }
    while i < packs.len()
        invariant
            0 <= i <= packs@.len(),
            code@ == VoiceLocale::code_spec(locale),
            found_pack(packs@, VoiceLocale::code_spec(locale)) == found_pack(
                packs@.skip(i as int),
                VoiceLocale::code_spec(locale),
            ),
        decreases packs@.len() - i,
    {
        proof {
            assert(packs@.skip(i as int).drop_first() =~= packs@.skip(i as int + 1));
            assert(packs@.skip(i as int)[0] == packs@[i as int]);
        }
        if str_eq(packs[i].language.as_str(), code) {
            proof {
                assert(found_pack(packs@.skip(i as int), VoiceLocale::code_spec(locale)) == Some(
                    packs@[i as int],
                ));
            }
            return Some(i);
        }
        proof {
            assert(found_pack(packs@.skip(i as int), VoiceLocale::code_spec(locale)) == found_pack(
                packs@.skip(i as int + 1),
                VoiceLocale::code_spec(locale),
            ));
        }
        i = i + 1;
    }
    None
}

/// Clones a voice pack entry, preserving the value.
pub fn clone_pack(e: &VoicePackEntry) -> (r: VoicePackEntry)
    ensures
        r == *e,
{
    VoicePackEntry {
        language: e.language.clone(),
        uri: e.uri.clone(),
        size: e.size.clone(),
        package_size: e.package_size.clone(),
    }
}

/// One table-walk step: an incremental size is subtracted from the running
/// absolute size (never below zero); a figure at or above the threshold is
/// taken as already absolute and replaces the running size, minus the
/// correction when it exceeds it.
pub open spec fn walk_step(running: u64, rel: u64, pol: SizePolicy) -> u64 {
    if rel < pol.absolute_threshold {
        if running >= rel {
            (running - rel) as u64
        } else {
            0u64
        }
    } else {
        if rel > pol.correction {
            (rel - pol.correction) as u64
        } else {
            rel
        }
    }
}

/// The measured size matches a table value: at most `tolerance` below it.
pub open spec fn size_matches(measured: u64, table: u64, pol: SizePolicy) -> bool {
    measured + pol.tolerance >= table
}

/// Walks the diff list newest-first, deriving each version's absolute size
/// from the running total, and selects the newest version whose table size
/// the measured size matches; when none matches, the newest version wins
/// by default (an accepted imprecision of the heuristic).
pub open spec fn approx_from(
    diffs: Seq<crate::manifest::PackageEntry>,
    code: Seq<char>,
    running: u64,
    measured: u64,
    pol: SizePolicy,
    fallback: Version,
) -> Result<Version, VoiceError>
    decreases diffs.len(),
{
    if diffs.len() == 0 {
        Ok(fallback)
    } else {
        match found_pack(diffs[0].voice_packs@, code) {
            None => Err(VoiceError::LocaleNotListed),
            Some(p) => match size_of(p.size) {
                None => Err(VoiceError::MalformedSize(p.size)),
                Some(rel) => {
                    let next = walk_step(running, rel, pol);
                    if size_matches(measured, next, pol) {
                        Ok(diffs[0].version)
                    } else {
                        approx_from(diffs.drop_first(), code, next, measured, pol, fallback)
                    }
                },
            },
        }
    }
}

/// Full approximation over a manifest: the latest entry's corrected
/// absolute size seeds the walk and is checked first.
pub open spec fn approx_spec(
    m: Manifest,
    locale: VoiceLocale,
    measured: u64,
    pol: SizePolicy,
) -> Result<Version, VoiceError> {
    let code = VoiceLocale::code_spec(locale);
    match found_pack(m.latest.voice_packs@, code) {
        None => Err(VoiceError::LocaleNotListed),
        Some(p) => match size_of(p.size) {
            None => Err(VoiceError::MalformedSize(p.size)),
            Some(total) => {
                let start = if total >= pol.correction {
                    (total - pol.correction) as u64
                } else {
                    0u64
                };
                if size_matches(measured, start, pol) {
                    Ok(m.latest.version)
                } else {
                    approx_from(m.diffs@, code, start, measured, pol, m.latest.version)
                }
            },
        },
    }
}

/// Exact size-match test without overflow.
fn matches_size(measured: u64, table: u64, pol: &SizePolicy) -> (r: bool)
    ensures
        r == size_matches(measured, table, *pol),
{
    if table <= pol.tolerance {
        true
    } else {
        measured >= table - pol.tolerance
    }
}

impl VoicePackage {
    /// Interprets a path as an installed voice package: its final path
    /// segment must be a known locale folder. Whether the folder actually
    /// exists on disk is the caller's concern, checked before this call.
    pub fn new(path: String) -> (r: Option<VoicePackage>)
        ensures
            match r {
                Some(p) => VoiceLocale::from_spec(after_last_slash(path@)) matches Some(l) && p
                    == (VoicePackage::Installed { path, locale: l }),
                None => VoiceLocale::from_spec(after_last_slash(path@)) is None,
            },
    {
        let name = file_name_of(path.as_str());
        match VoiceLocale::from_str(name.as_str()) {
            Some(locale) => Some(VoicePackage::Installed { path, locale }),
            None => None,
        }
    }

    /// The latest voice package of the locale, as the manifest lists it.
    /// The result is `NotInstalled` with no game path: it only describes
    /// the remote package.
    pub fn with_locale(locale: VoiceLocale, manifest: &Manifest) -> (r: Result<
        VoicePackage,
        VoiceError,
    >)
        ensures
            match found_pack(manifest.latest.voice_packs@, VoiceLocale::code_spec(locale)) {
                Some(e) => r == Ok::<VoicePackage, VoiceError>(
                    VoicePackage::NotInstalled {
                        locale,
                        version: manifest.latest.version,
                        data: e,
                        game_path: None,
                    },
                ),
                None => r == Err::<VoicePackage, VoiceError>(VoiceError::LocaleNotListed),
            },
    {
        match find_voice_pack(&manifest.latest.voice_packs, locale) {
            Some(i) => Ok(
                VoicePackage::NotInstalled {
                    locale,
                    version: manifest.latest.version,
                    data: clone_pack(&manifest.latest.voice_packs[i]),
                    game_path: None,
                },
            ),
            None => Err(VoiceError::LocaleNotListed),
        }
    }

    /// All latest voice packages the manifest lists, one per entry, each
    /// `NotInstalled` with no game path. An entry with a language code
    /// outside the enumeration is a hard error.
    pub fn list_latest(manifest: &Manifest) -> (r: Result<Vec<VoicePackage>, VoiceError>)
        ensures
            match r {
                Ok(ps) => {
                    &&& ps@.len() == manifest.latest.voice_packs@.len()
                    &&& forall|i: int|
                        0 <= i < ps@.len() ==> {
                            let e = #[trigger] manifest.latest.voice_packs@[i];
                            VoiceLocale::from_spec(e.language@) matches Some(l) && ps@[i] == (
                            VoicePackage::NotInstalled {
                                locale: l,
                                version: manifest.latest.version,
                                data: e,
                                game_path: None,
                            })
                        }
                },
                Err(e) => exists|i: int|
                    0 <= i < manifest.latest.voice_packs@.len() && VoiceLocale::from_spec(
                        #[trigger] manifest.latest.voice_packs@[i].language@,
                    ) is None && e == VoiceError::UnknownLanguageCode(
                        manifest.latest.voice_packs@[i].language,
                    ),
            },
    {
        let packs = &manifest.latest.voice_packs;
        let mut out: Vec<VoicePackage> = Vec::new();
        let mut i: usize = 0;
        while i < packs.len()
            invariant
                0 <= i <= packs@.len(),
                packs@ == manifest.latest.voice_packs@,
                out@.len() == i,
                forall|j: int|
                    0 <= j < i ==> {
                        let e = #[trigger] packs@[j];
                        VoiceLocale::from_spec(e.language@) matches Some(l) && out@[j] == (
                        VoicePackage::NotInstalled {
                            locale: l,
                            version: manifest.latest.version,
                            data: e,
                            game_path: None,
                        })
                    },
            decreases packs@.len() - i,
        {
            match VoiceLocale::from_str(packs[i].language.as_str()) {
                Some(locale) => {
                    out.push(
                        VoicePackage::NotInstalled {
                            locale,
                            version: manifest.latest.version,
                            data: clone_pack(&packs[i]),
                            game_path: None,
                        },
                    );
                },
                None => {
                    proof {
                        assert(VoiceLocale::from_spec(
                            manifest.latest.voice_packs@[i as int].language@,
                        ) is None);
                    }
                    return Err(VoiceError::UnknownLanguageCode(packs[i].language.clone()));
                },
            }
            i = i + 1;
        }
        Ok(out)
    }

    /// Whether this value is the `Installed` variant. Use
    /// `is_installed_in` to ask about an on-disk state.
    pub fn is_installed(&self) -> (r: bool)
        ensures
            r == (*self matches VoicePackage::Installed { .. }),
    {
        match self {
            VoicePackage::Installed { .. } => true,
            VoicePackage::NotInstalled { .. } => false,
        }
    }

    /// Whether the package is installed under a game directory:
    /// `Installed` values are; for the rest the caller reports whether the
    /// locale's voice folder exists there.
    pub fn is_installed_in(&self, voices_folder_exists: bool) -> (r: bool)
        ensures
            *self matches VoicePackage::Installed { .. } ==> r == true,
            *self matches VoicePackage::NotInstalled { .. } ==> r == voices_folder_exists,
    {
        match self {
            VoicePackage::Installed { .. } => true,
            VoicePackage::NotInstalled { .. } => voices_folder_exists,
        }
    }

    /// The package's sizes as `(unpacked, Some(archive))` for a remote
    /// package; for an installed one the caller supplies the measured
    /// folder size and no archive size exists.
    pub fn size(&self, measured: Option<u64>) -> (r: Result<(u64, Option<u64>), VoiceError>)
        requires
            *self matches VoicePackage::Installed { .. } ==> measured is Some,
        ensures
            match *self {
                VoicePackage::Installed { .. } => match measured {
                    Some(m) => r == Ok::<(u64, Option<u64>), VoiceError>((m, None)),
                    None => true,
                },
                VoicePackage::NotInstalled { data, .. } => match size_of(data.package_size) {
                    None => r == Err::<(u64, Option<u64>), VoiceError>(
                        VoiceError::MalformedSize(data.package_size),
                    ),
                    Some(unpacked) => match size_of(data.size) {
                        None => r == Err::<(u64, Option<u64>), VoiceError>(
                            VoiceError::MalformedSize(data.size),
                        ),
                        Some(archive) => r == Ok::<(u64, Option<u64>), VoiceError>(
                            (unpacked, Some(archive)),
                        ),
                    },
                },
            },
    {
        match self {
            VoicePackage::Installed { .. } => {
                match measured {
                    Some(m) => Ok((m, None)),
                    None => {
                        proof {
                            assert(false);
                        }
                        Err(VoiceError::GamePathUnknown)
                    },
                }
            },
            VoicePackage::NotInstalled { data, .. } => {
                let unpacked = match parse_size(&data.package_size) {
                    Some(n) => n,
                    None => {
                        return Err(VoiceError::MalformedSize(data.package_size.clone()));
                    },
                };
                let archive = match parse_size(&data.size) {
                    Some(n) => n,
                    None => {
                        return Err(VoiceError::MalformedSize(data.size.clone()));
                    },
                };
                Ok((unpacked, Some(archive)))
            },
        }
    }

    pub fn locale(&self) -> (r: VoiceLocale)
        ensures
            match *self {
                VoicePackage::Installed { locale, .. } => r == locale,
                VoicePackage::NotInstalled { locale, .. } => r == locale,
            },
    {
        match self {
            VoicePackage::Installed { locale, .. } => *locale,
            VoicePackage::NotInstalled { locale, .. } => *locale,
        }
    }

    /// The package's version. A `NotInstalled` value knows it; for an
    /// installed package it is approximated from `measured_size`, the
    /// package folder's measured byte size, under the given policy.
    pub fn try_get_version(
        &self,
        manifest: &Manifest,
        measured_size: u64,
        policy: &SizePolicy,
    ) -> (r: Result<Version, VoiceError>)
        ensures
            match *self {
                VoicePackage::NotInstalled { version, .. } => r == Ok::<Version, VoiceError>(
                    version,
                ),
                VoicePackage::Installed { locale, .. } => r == approx_spec(
                    *manifest,
                    locale,
                    measured_size,
                    *policy,
                ),
            },
    {
        let locale = match self {
            VoicePackage::NotInstalled { version, .. } => {
                return Ok(*version);
            },
            VoicePackage::Installed { locale, .. } => *locale,
        };
        let total = match find_voice_pack(&manifest.latest.voice_packs, locale) {
            None => {
                return Err(VoiceError::LocaleNotListed);
            },
            Some(i) => match parse_size(&manifest.latest.voice_packs[i].size) {
                None => {
                    return Err(
                        VoiceError::MalformedSize(manifest.latest.voice_packs[i].size.clone()),
                    );
                },
                Some(t) => t,
            },
        };
        let mut running: u64 = if total >= policy.correction {
            total - policy.correction
        } else {
            0
        };
        if matches_size(measured_size, running, policy) {
            return Ok(manifest.latest.version);
        }
        let fallback = manifest.latest.version;
        let mut i: usize = 0;
        proof {
            assert(manifest.diffs@.skip(0) =~= manifest.diffs@);
        }
        while i < manifest.diffs.len()
            invariant
                0 <= i <= manifest.diffs@.len(),
                *self matches VoicePackage::Installed { locale: il, .. } && il == locale,
                fallback == manifest.latest.version,
                approx_spec(*manifest, locale, measured_size, *policy) == approx_from(
                    manifest.diffs@.skip(i as int),
                    VoiceLocale::code_spec(locale),
                    running,
                    measured_size,
                    *policy,
                    fallback,
                ),
            decreases manifest.diffs@.len() - i,
        {
            proof {
                assert(manifest.diffs@.skip(i as int).drop_first() =~= manifest.diffs@.skip(
                    i as int + 1,
                ));
                assert(manifest.diffs@.skip(i as int)[0] == manifest.diffs@[i as int]);
            }
            let ghost rest = manifest.diffs@.skip(i as int);
            let entry = &manifest.diffs[i];
            let rel = match find_voice_pack(&entry.voice_packs, locale) {
                None => {
                    proof {
                        assert(found_pack(rest[0].voice_packs@, VoiceLocale::code_spec(locale))
                            is None);
                        assert(approx_from(
                            rest,
                            VoiceLocale::code_spec(locale),
                            running,
                            measured_size,
                            *policy,
                            fallback,
                        ) == Err::<Version, VoiceError>(VoiceError::LocaleNotListed));
                    }
                    return Err(VoiceError::LocaleNotListed);
                },
                Some(j) => match parse_size(&entry.voice_packs[j].size) {
                    None => {
                        proof {
                            assert(found_pack(
                                rest[0].voice_packs@,
                                VoiceLocale::code_spec(locale),
                            ) == Some(entry.voice_packs@[j as int]));
                            assert(approx_from(
                                rest,
                                VoiceLocale::code_spec(locale),
                                running,
                                measured_size,
                                *policy,
                                fallback,
                            ) == Err::<Version, VoiceError>(
                                VoiceError::MalformedSize(entry.voice_packs@[j as int].size),
                            ));
                        }
                        return Err(VoiceError::MalformedSize(entry.voice_packs[j].size.clone()));
                    },
                    Some(v) => v,
                },
            };
            running = if rel < policy.absolute_threshold {
                if running >= rel {
                    running - rel
                } else {
                    0
                }
            } else {
                if rel > policy.correction {
                    rel - policy.correction
                } else {
                    rel
                }
            };
            if matches_size(measured_size, running, policy) {
                return Ok(entry.version);
            }
            i = i + 1;
        }
        Ok(fallback)
    }
}

/// The directory a locale's voice package occupies under a game root.
pub open spec fn voice_dir_spec(game: Seq<char>, locale: VoiceLocale) -> Seq<char> {
    game + "/GenshinImpact_Data/StreamingAssets/AudioAssets/"@ + VoiceLocale::folder_spec(locale)
}

/// The per-locale package version marker file under a game root.
pub open spec fn voice_marker_spec(game: Seq<char>, locale: VoiceLocale) -> Seq<char> {
    game + "/Audio_"@ + VoiceLocale::folder_spec(locale) + "_pkg_version"@
}

/// The game root: the voice package path with its last four segments
/// removed.
pub open spec fn game_root_of(path: Seq<char>) -> Option<Seq<char>> {
    match parent_spec(path) {
        Some(p1) => match parent_spec(p1) {
            Some(p2) => match parent_spec(p2) {
                Some(p3) => parent_spec(p3),
                None => None,
            },
            None => None,
        },
        None => None,
    }
}

/// The two filesystem entries removing a voice package deletes.
#[derive(Debug, Clone, PartialEq, Eq)]
pub struct DeletePlan {
    /// The locale's package directory, removed recursively.
    pub package_dir: String,
    /// The locale's package version marker file.
    pub marker_file: String,
}

/// Both size fields of the voice pack decode.
pub open spec fn pack_ok(p: VoicePackEntry) -> bool {
    size_of(p.size) is Some && size_of(p.package_size) is Some
}

/// The error reported for a voice pack with a malformed size field.
pub open spec fn voice_size_err(r: Result<VersionDiff, VoiceError>, p: VoicePackEntry) -> bool {
    if size_of(p.size) is None {
        r == Err::<VersionDiff, VoiceError>(VoiceError::MalformedSize(p.size))
    } else {
        r == Err::<VersionDiff, VoiceError>(VoiceError::MalformedSize(p.package_size))
    }
}

/// The payload fields a voice diff takes from its voice pack entry. Voice
/// packs use `size` as the download size and `package_size` as the
/// unpacked size.
pub open spec fn voice_fields(
    uri: String,
    downloaded_size: u64,
    unpacked_size: u64,
    files: Seq<String>,
    installation_path: Option<String>,
    version_file_path: Option<String>,
    temp_folder: Option<String>,
    pack: VoicePackEntry,
    want_ip: Option<String>,
) -> bool {
    &&& uri == pack.uri
    &&& Some(downloaded_size) == size_of(pack.size)
    &&& Some(unpacked_size) == size_of(pack.package_size)
    &&& files.len() == 0
    &&& installation_path == want_ip
    &&& version_file_path is None
    &&& temp_folder is None
}

pub open spec fn is_voice_diff(
    r: Result<VersionDiff, VoiceError>,
    cur: Version,
    lat: Version,
    pack: VoicePackEntry,
    want_ip: Option<String>,
) -> bool {
    r matches Ok(d) && d matches VersionDiff::Diff {
        current,
        latest,
        uri,
        downloaded_size,
        unpacked_size,
        files,
        installation_path,
        version_file_path,
        temp_folder,
    } && current == cur && latest == lat && voice_fields(
        uri,
        downloaded_size,
        unpacked_size,
        files@,
        installation_path,
        version_file_path,
        temp_folder,
        pack,
        want_ip,
    )
}

pub open spec fn is_voice_not_installed(
    r: Result<VersionDiff, VoiceError>,
    lat: Version,
    pack: VoicePackEntry,
    want_ip: Option<String>,
) -> bool {
    r matches Ok(d) && d matches VersionDiff::NotInstalled {
        latest,
        uri,
        downloaded_size,
        unpacked_size,
        files,
        installation_path,
        version_file_path,
        temp_folder,
    } && latest == lat && voice_fields(
        uri,
        downloaded_size,
        unpacked_size,
        files@,
        installation_path,
        version_file_path,
        temp_folder,
        pack,
        want_ip,
    )
}

/// The voice diff resolution policy: an installed package is reconciled
/// against the diff list by its (approximated) current version; an
/// uninstalled one always yields a `NotInstalled` diff for the latest
/// package. An installed package's diff carries no installation path.
pub open spec fn voice_diff_post(
    pkg: VoicePackage,
    m: Manifest,
    current: Option<Version>,
    r: Result<VersionDiff, VoiceError>,
) -> bool {
    match pkg {
        VoicePackage::Installed { locale, .. } => match current {
            Some(cur) => if cur == m.latest.version {
                r == Ok::<VersionDiff, VoiceError>(VersionDiff::Latest { version: cur })
            } else {
                match crate::diff::found_diff(m.diffs@, cur) {
                    Some(entry) => match found_pack(
                        entry.voice_packs@,
                        VoiceLocale::code_spec(locale),
                    ) {
                        None => r == Err::<VersionDiff, VoiceError>(VoiceError::LocaleNotListed),
                        Some(p) => if pack_ok(p) {
                            is_voice_diff(r, cur, m.latest.version, p, None)
                        } else {
                            voice_size_err(r, p)
                        },
                    },
                    None => r == Ok::<VersionDiff, VoiceError>(
                        VersionDiff::Outdated { current: cur, latest: m.latest.version },
                    ),
                }
            },
            None => true,
        },
        VoicePackage::NotInstalled { locale, game_path, .. } => match found_pack(
            m.latest.voice_packs@,
            VoiceLocale::code_spec(locale),
        ) {
            None => r == Err::<VersionDiff, VoiceError>(VoiceError::LocaleNotListed),
            Some(p) => if pack_ok(p) {
                is_voice_not_installed(r, m.latest.version, p, game_path)
            } else {
                voice_size_err(r, p)
            },
        },
    }
}

impl VoicePackage {
    /// The deletion plan for this package inside an explicit game
    /// directory.
    pub fn delete_in(&self, game_path: String) -> (r: DeletePlan)
        ensures
            ({
                let l = match *self {
                    VoicePackage::Installed { locale, .. } => locale,
                    VoicePackage::NotInstalled { locale, .. } => locale,
                };
                r.package_dir@ == voice_dir_spec(game_path@, l) && r.marker_file@
                    == voice_marker_spec(game_path@, l)
            }),
    {
        let locale = self.locale();
        let package_dir = game_path.clone().concat(
            "/GenshinImpact_Data/StreamingAssets/AudioAssets/",
        ).concat(locale.to_folder());
        let marker_file = game_path.clone().concat("/Audio_").concat(locale.to_folder()).concat(
            "_pkg_version",
        );
        DeletePlan { package_dir, marker_file }
    }

    /// The deletion plan for this package. For an installed package the
    /// game root is derived from its own path; a package that knows no
    /// game directory cannot be deleted.
    pub fn delete(&self) -> (r: Result<DeletePlan, VoiceError>)
        ensures
            match *self {
                VoicePackage::Installed { path, locale } => match game_root_of(path@) {
                    Some(g) => r matches Ok(plan) && plan.package_dir@ == voice_dir_spec(g, locale)
                        && plan.marker_file@ == voice_marker_spec(g, locale),
                    None => r == Err::<DeletePlan, VoiceError>(VoiceError::GamePathUnknown),
                },
                VoicePackage::NotInstalled { locale, game_path, .. } => match game_path {
                    Some(g) => r matches Ok(plan) && plan.package_dir@ == voice_dir_spec(
                        g@,
                        locale,
                    ) && plan.marker_file@ == voice_marker_spec(g@, locale),
                    None => r == Err::<DeletePlan, VoiceError>(VoiceError::GamePathUnknown),
                },
            },
    {
        match self {
            VoicePackage::Installed { path, .. } => {
                let p1 = match parent_dir(path.as_str()) {
                    Some(p) => p,
                    None => {
                        return Err(VoiceError::GamePathUnknown);
                    },
                };
                let p2 = match parent_dir(p1.as_str()) {
                    Some(p) => p,
                    None => {
                        return Err(VoiceError::GamePathUnknown);
                    },
                };
                let p3 = match parent_dir(p2.as_str()) {
                    Some(p) => p,
                    None => {
                        return Err(VoiceError::GamePathUnknown);
                    },
                };
                let game = match parent_dir(p3.as_str()) {
                    Some(p) => p,
                    None => {
                        return Err(VoiceError::GamePathUnknown);
                    },
                };
                Ok(self.delete_in(game))
            },
            VoicePackage::NotInstalled { game_path, .. } => {
                match game_path {
                    Some(g) => Ok(self.delete_in(g.clone())),
                    None => Err(VoiceError::GamePathUnknown),
                }
            },
        }
    }

    /// Difference between this package and the latest the manifest
    /// offers. For an installed package the caller supplies `current`, its
    /// approximated version (see `try_get_version`); an uninstalled
    /// package resolves to a `NotInstalled` diff for the latest package.
    pub fn try_get_diff(&self, manifest: &Manifest, current: Option<Version>) -> (r: Result<
        VersionDiff,
        VoiceError,
    >)
        requires
            *self matches VoicePackage::Installed { .. } ==> current is Some,
        ensures
            voice_diff_post(*self, *manifest, current, r),
    {
        let locale = self.locale();
        match self {
            VoicePackage::Installed { .. } => {
                let cur = match current {
                    Some(c) => c,
                    None => {
                        proof {
                            assert(false);
                        }
                        return Err(VoiceError::GamePathUnknown);
                    },
                };
                if cur == manifest.latest.version {
                    return Ok(VersionDiff::Latest { version: cur });
                }
                match crate::diff::find_diff(&manifest.diffs, cur) {
                    Some(i) => {
                        let entry = &manifest.diffs[i];
                        match find_voice_pack(&entry.voice_packs, locale) {
                            None => Err(VoiceError::LocaleNotListed),
                            Some(j) => {
                                let pack = &entry.voice_packs[j];
                                let downloaded_size = match parse_size(&pack.size) {
                                    Some(n) => n,
                                    None => {
                                        return Err(VoiceError::MalformedSize(pack.size.clone()));
                                    },
                                };
                                let unpacked_size = match parse_size(&pack.package_size) {
                                    Some(n) => n,
                                    None => {
                                        return Err(
                                            VoiceError::MalformedSize(pack.package_size.clone()),
                                        );
                                    },
                                };
                                Ok(
                                    VersionDiff::Diff {
                                        current: cur,
                                        latest: manifest.latest.version,
                                        uri: pack.uri.clone(),
                                        downloaded_size,
                                        unpacked_size,
                                        files: Vec::new(),
                                        installation_path: None,
                                        version_file_path: None,
                                        temp_folder: None,
                                    },
                                )
                            },
                        }
                    },
                    None => Ok(
                        VersionDiff::Outdated { current: cur, latest: manifest.latest.version },
                    ),
                }
            },
            VoicePackage::NotInstalled { game_path, .. } => {
                match find_voice_pack(&manifest.latest.voice_packs, locale) {
                    None => Err(VoiceError::LocaleNotListed),
                    Some(j) => {
                        let pack = &manifest.latest.voice_packs[j];
                        let downloaded_size = match parse_size(&pack.size) {
                            Some(n) => n,
                            None => {
                                return Err(VoiceError::MalformedSize(pack.size.clone()));
                            },
                        };
                        let unpacked_size = match parse_size(&pack.package_size) {
                            Some(n) => n,
                            None => {
                                return Err(VoiceError::MalformedSize(pack.package_size.clone()));
                            },
                        };
                        Ok(
                            VersionDiff::NotInstalled {
                                latest: manifest.latest.version,
                                uri: pack.uri.clone(),
                                downloaded_size,
                                unpacked_size,
                                files: Vec::new(),
                                installation_path: crate::diff::clone_opt_string(game_path),
                                version_file_path: None,
                                temp_folder: None,
                            },
                        )
                    },
                }
            },
        }
    }
}

/// Compares two string slices by value.
pub fn str_eq(a: &str, b: &str) -> (r: bool)
    ensures
        r == (a@ == b@),
{
    let sa = String::from_str(a);
    let sb = String::from_str(b);
    sa == sb
}

/// The suffix of `s` after its last `'/'`; all of `s` when it has none.
pub open spec fn after_last_slash(s: Seq<char>) -> Seq<char>
    decreases s.len(),
{
    if s.len() == 0 {
        s
    } else if s.last() == '/' {
        Seq::<char>::empty()
    } else {
        after_last_slash(s.drop_last()).push(s.last())
    }
}

/// Everything before the last `'/'`; `None` when `s` has none.
pub open spec fn parent_spec(s: Seq<char>) -> Option<Seq<char>>
    decreases s.len(),
{
    if s.len() == 0 {
        None
    } else if s.last() == '/' {
        Some(s.drop_last())
    } else {
        parent_spec(s.drop_last())
    }
}

proof fn lemma_suffix_after_slash(s: Seq<char>, k: int)
    requires
        0 <= k <= s.len(),
        forall|j: int| k <= j < s.len() ==> s[j] != '/',
        k > 0 ==> s[k - 1] == '/',
    ensures
        after_last_slash(s) == s.skip(k),
    decreases s.len(),
{
    if s.len() == 0 {
        assert(s.skip(0) =~= s);
    } else if s.last() == '/' {
        assert(k == s.len());
        assert(s.skip(k) =~= Seq::<char>::empty());
    } else {
        assert(k < s.len());
        lemma_suffix_after_slash(s.drop_last(), k);
        assert(s.drop_last().skip(k).push(s.last()) =~= s.skip(k));
    }
}

proof fn lemma_parent_at(s: Seq<char>, k: int)
    requires
        0 <= k < s.len(),
        s[k] == '/',
        forall|j: int| k < j < s.len() ==> s[j] != '/',
    ensures
        parent_spec(s) == Some(s.take(k)),
    decreases s.len(),
{
    if s.last() == '/' {
        assert(k == s.len() - 1);
        assert(s.drop_last() =~= s.take(k));
    } else {
        lemma_parent_at(s.drop_last(), k);
        assert(s.drop_last().take(k) =~= s.take(k));
    }
}

proof fn lemma_parent_none(s: Seq<char>)
    requires
        forall|j: int| 0 <= j < s.len() ==> s[j] != '/',
    ensures
        parent_spec(s) is None,
    decreases s.len(),
{
    if s.len() > 0 {
        lemma_parent_none(s.drop_last());
    }
}

/// Position of the last `'/'` in `s`, when one exists.
fn find_last_slash(s: &str) -> (r: Option<usize>)
    ensures
        match r {
            Some(i) => i < s@.len() && s@[i as int] == '/' && forall|j: int|
                i < j < s@.len() ==> s@[j] != '/',
            None => forall|j: int| 0 <= j < s@.len() ==> s@[j] != '/',
        },
{
    let n = s.unicode_len();
    let mut i: usize = n;
    while i > 0
        invariant
            0 <= i <= n,
            n == s@.len(),
            forall|j: int| i <= j < s@.len() ==> s@[j] != '/',
        decreases i,
    {
        if s.get_char(i - 1) == '/' {
            return Some(i - 1);
        }
        i = i - 1;
    }
    None
}

/// The final path segment of `s`.
pub fn file_name_of(s: &str) -> (r: String)
    ensures
        r@ == after_last_slash(s@),
{
    let n = s.unicode_len();
    match find_last_slash(s) {
        Some(i) => {
            proof {
                lemma_suffix_after_slash(s@, i as int + 1);
                assert(s@.subrange(i as int + 1, s@.len() as int) =~= s@.skip(i as int + 1));
            }
            String::from_str(s.substring_char(i + 1, n))
        },
        None => {
            proof {
                lemma_suffix_after_slash(s@, 0);
                assert(s@.skip(0) =~= s@);
            }
            String::from_str(s)
        },
    }
}

/// The parent directory of a `'/'`-separated path string.
pub fn parent_dir(s: &str) -> (r: Option<String>)
    ensures
        match r {
            Some(p) => parent_spec(s@) == Some(p@),
            None => parent_spec(s@) is None,
        },
{
    match find_last_slash(s) {
        Some(i) => {
            proof {
                lemma_parent_at(s@, i as int);
                assert(s@.subrange(0, i as int) =~= s@.take(i as int));
            }
            Some(String::from_str(s.substring_char(0, i)))
        },
        None => {
            proof {
                lemma_parent_none(s@);
            }
            None
        },
    }
}

} // verus!
