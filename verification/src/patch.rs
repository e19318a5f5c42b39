//! Patch resolver and executor: discovers a locally mirrored patch's
//! lifecycle state by inspecting its driver script, verifies applicability
//! by content hash, and drives apply/revert as a typed state machine whose
//! staging directory is always removed on the way out.

use vstd::prelude::*;
use vstd::string::StringExecFns;
use md5::Digest;
use crate::text::{
    bytes_match_at, bytes_to_hex, contains_bytes, contains_seq, eq_bytes, hex_of, is_digit,
    replace_bytes, replace_seq, split_byte, split_byte_vec, sub_bytes,
};
use crate::version::Version;

verus! {

/// Known-good content hashes of the patched binary, as lowercase hex text,
/// per region build.
#[derive(Debug, Clone, PartialEq, Eq)]
pub enum PatchRegions {
    Global(Vec<u8>),
    China(Vec<u8>),
    Both { global: Vec<u8>, china: Vec<u8> },
}

/// Spec-level shape of a `PatchRegions` value.
pub ghost enum RegionsRepr {
    Global(Seq<u8>),
    China(Seq<u8>),
    Both { global: Seq<u8>, china: Seq<u8> },
}

pub open spec fn regions_repr(r: PatchRegions) -> RegionsRepr {
    match r {
        PatchRegions::Global(h) => RegionsRepr::Global(h@),
        PatchRegions::China(h) => RegionsRepr::China(h@),
        PatchRegions::Both { global, china } => RegionsRepr::Both {
            global: global@,
            china: china@,
        },
    }
}

/// A hash matches the descriptor when it equals the hash of any region the
/// descriptor covers.
pub open spec fn regions_match(repr: RegionsRepr, hash: Seq<u8>) -> bool {
    match repr {
        RegionsRepr::Global(g) => g == hash,
        RegionsRepr::China(c) => c == hash,
        RegionsRepr::Both { global, china } => global == hash || china == hash,
    }
}

/// Lifecycle state of one patch-distribution lineage.
#[derive(Debug, Clone, PartialEq, Eq)]
pub enum PatchStatus {
    /// No patch folder exists on the mirror.
    NotAvailable,
    /// The mirrored patch lags the remote game version; apply and revert
    /// must refuse to run.
    Outdated { current: Version, latest: Version },
    /// A script exists but is not yet wired to any known hash.
    Preparation { version: Version },
    /// Hash-gated and experimental: the stability mark is absent.
    Testing { version: Version, player_hash: PatchRegions },
    /// Hash-gated and stable.
    Available { version: Version, player_hash: PatchRegions },
}

/// A discovered patch: the mirror folder it came from and its state.
#[derive(Debug, Clone, PartialEq, Eq)]
pub struct PlayerPatch {
    pub patch_folder: String,
    pub status: PatchStatus,
}

/// Why a patch operation failed.
#[derive(Debug, Clone, PartialEq, Eq)]
pub enum PatchError {
    /// More hash branches than the format allows, or malformed folder-name
    /// digits.
    FormatViolation,
    /// Apply or revert requested in a state that cannot run.
    NotApplicable,
    /// A filesystem or process failure, with its message.
    Io(String),
    /// The script ran but did not report success; carries its captured
    /// output.
    ScriptFailed(Vec<u8>),
}

/// One directory entry of the patch mirror, as the driver lists it.
#[derive(Debug, Clone, PartialEq, Eq)]
pub struct PatchFolderEntry {
    pub name: Vec<u8>,
    pub is_dir: bool,
    /// Whether the entry contains the driver script.
    pub has_driver_script: bool,
}

/// An entry that can hold a patch: a directory named by exactly three
/// bytes, containing the driver script.
pub open spec fn qualifies(e: PatchFolderEntry) -> bool {
    e.name@.len() == 3 && e.is_dir && e.has_driver_script
}

/// Numeric rank of a three-byte folder name, ordering names
/// lexicographically.
pub open spec fn name_rank(n: Seq<u8>) -> int {
    n[0] * 65536 + n[1] * 256 + n[2]
}

/// Picks the lexicographically greatest qualifying entry: the authoritative
/// patch version folder.
pub fn select_version_folder(entries: &Vec<PatchFolderEntry>) -> (r: Option<usize>)
    ensures
        match r {
            Some(i) => i < entries@.len() && qualifies(entries@[i as int]) && forall|j: int|
                0 <= j < entries@.len() && qualifies(#[trigger] entries@[j]) ==> name_rank(
                    entries@[j].name@,
                ) <= name_rank(entries@[i as int].name@),
            None => forall|j: int| 0 <= j < entries@.len() ==> !qualifies(#[trigger] entries@[j]),
        },
{
    let mut best: Option<usize> = None;
    let mut i: usize = 0;
    while i < entries.len()
        invariant
            0 <= i <= entries@.len(),
            match best {
                Some(b) => b < i && qualifies(entries@[b as int]) && forall|j: int|
                    0 <= j < i && qualifies(#[trigger] entries@[j]) ==> name_rank(entries@[j].name@)
                        <= name_rank(entries@[b as int].name@),
                None => forall|j: int| 0 <= j < i ==> !qualifies(#[trigger] entries@[j]),
            },
        decreases entries@.len() - i,
    {
        let e = &entries[i];
        if e.name.len() == 3 && e.is_dir && e.has_driver_script {
            let rank: u32 = (e.name[0] as u32) * 65536 + (e.name[1] as u32) * 256 + (
            e.name[2] as u32);
            let take = match best {
                None => true,
                Some(b) => {
                    let eb = &entries[b];
                    let brank: u32 = (eb.name[0] as u32) * 65536 + (eb.name[1] as u32) * 256 + (
                    eb.name[2] as u32);
                    brank <= rank
                },
            };
            if take {
                best = Some(i);
            }
        }
        i = i + 1;
    }
    best
}

/// Version denoted by a three-digit folder name, one digit per component.
pub open spec fn folder_version_spec(n: Seq<u8>) -> Option<Version> {
    if n.len() == 3 && is_digit(n[0]) && is_digit(n[1]) && is_digit(n[2]) {
        Some(
            Version {
                major: (n[0] - 48) as u8,
                minor: (n[1] - 48) as u8,
                patch: (n[2] - 48) as u8,
            },
        )
    } else {
        None
    }
}

/// Decodes a patch folder name; anything but three digits is a format
/// violation.
pub fn version_from_folder_name(name: &Vec<u8>) -> (r: Result<Version, PatchError>)
    ensures
        match r {
            Ok(v) => folder_version_spec(name@) == Some(v),
            Err(e) => folder_version_spec(name@) is None && e == PatchError::FormatViolation,
        },
{
    if name.len() != 3 {
        return Err(PatchError::FormatViolation);
    }
    let d0 = name[0];
    let d1 = name[1];
    let d2 = name[2];
    if d0 < 48 || d0 > 57 || d1 < 48 || d1 > 57 || d2 < 48 || d2 > 57 {
        return Err(PatchError::FormatViolation);
    }
    Ok(Version { major: d0 - 48, minor: d1 - 48, patch: d2 - 48 })
}

/// The opening of a hash-gated branch line in the driver script.
pub open spec fn sum_prefix() -> Seq<u8> {
    vstd::utf8::encode_utf8("if [ \"${sum}\" == \""@)
}

/// The sentinel comment whose presence marks a script stable.
pub open spec fn stability_mark() -> Seq<u8> {
    vstd::utf8::encode_utf8(
        "#echo \"If you would like to test this patch, modify this script and remove the line below this one.\""@,
    )
}

fn sum_prefix_bytes() -> (r: Vec<u8>)
    ensures
        r@ == sum_prefix(),
{
    "if [ \"${sum}\" == \"".as_bytes_vec()
}

/// A line ends the Windows way or ours: drop one trailing carriage return.
pub open spec fn strip_cr(l: Seq<u8>) -> Seq<u8> {
    if l.len() > 0 && l.last() == 13 {
        l.drop_last()
    } else {
        l
    }
}

/// A line carrying a hash branch: long enough to close its quote (nine
/// bytes of `" ]; then`) and opening with the branch prefix.
pub open spec fn interesting_line(l: Seq<u8>) -> bool {
    l.len() > 20 && l.len() >= sum_prefix().len() + 9 && l.subrange(0, sum_prefix().len() as int)
        == sum_prefix()
}

/// The hash slot of a branch line: between the prefix and the closing
/// `" ]; then`.
pub open spec fn candidate_of(l: Seq<u8>) -> Seq<u8> {
    l.subrange(sum_prefix().len() as int, l.len() - 9)
}

/// The hash slots of all branch lines, in script order.
pub open spec fn hash_candidates(lines: Seq<Seq<u8>>) -> Seq<Seq<u8>>
    decreases lines.len(),
{
    if lines.len() == 0 {
        Seq::<Seq<u8>>::empty()
    } else {
        let l = strip_cr(lines[0]);
        let rest = hash_candidates(lines.drop_first());
        if interesting_line(l) {
            seq![candidate_of(l)] + rest
        } else {
            rest
        }
    }
}

pub open spec fn script_candidates(s: Seq<u8>) -> Seq<Seq<u8>> {
    hash_candidates(split_byte(s, 10))
}

/// A well-formed hash slot: exactly 32 hex digits.
pub open spec fn well32(h: Seq<u8>) -> bool {
    h.len() == 32 && forall|i: int|
        0 <= i < h.len() ==> (is_digit(#[trigger] h[i]) || (97 <= h[i] <= 102) || (65 <= h[i]
            <= 70))
}

/// Region classification by which slots are well-formed: none well-formed
/// means not yet wired (no descriptor); with two slots the first is the
/// global build's, the second the China build's.
pub open spec fn classify_regions(cands: Seq<Seq<u8>>) -> Option<RegionsRepr> {
    if cands.len() == 0 {
        None
    } else if cands.len() == 1 {
        if well32(cands[0]) {
            Some(RegionsRepr::Global(cands[0]))
        } else {
            None
        }
    } else {
        let a = well32(cands[0]);
        let b = well32(cands[1]);
        if a && b {
            Some(RegionsRepr::Both { global: cands[0], china: cands[1] })
        } else if b {
            Some(RegionsRepr::China(cands[1]))
        } else if a {
            Some(RegionsRepr::Global(cands[0]))
        } else {
            None
        }
    }
}

pub open spec fn opt_regions_repr(o: Option<PatchRegions>) -> Option<RegionsRepr> {
    match o {
        Some(x) => Some(regions_repr(x)),
        None => None,
    }
}

/// What hash parsing yields: more than two branches is a format violation,
/// anything else classifies by `classify_regions`.
pub open spec fn hashes_post(
    cands: Seq<Seq<u8>>,
    r: Result<Option<PatchRegions>, PatchError>,
) -> bool {
    if cands.len() > 2 {
        r == Err::<Option<PatchRegions>, PatchError>(PatchError::FormatViolation)
    } else {
        r matches Ok(o) && opt_regions_repr(o) == classify_regions(cands)
    }
}

fn is_well32(h: &Vec<u8>) -> (r: bool)
    ensures
        r == well32(h@),
{
    if h.len() != 32 {
        return false;
    }
    let mut i: usize = 0;
    while i < h.len()
        invariant
            0 <= i <= h@.len(),
            h@.len() == 32,
            forall|k: int|
                0 <= k < i ==> (is_digit(#[trigger] h@[k]) || (97 <= h@[k] <= 102) || (65 <= h@[k]
                    <= 70)),
        decreases h@.len() - i,
    {
        let b = h[i];
        if !((48 <= b && b <= 57) || (97 <= b && b <= 102) || (65 <= b && b <= 70)) {
            return false;
        }
        i = i + 1;
    }
    true
}

/// Extracts the hash slots of the driver script's branch lines.
fn collect_candidates(script: &Vec<u8>) -> (r: Vec<Vec<u8>>)
    ensures
        r.deep_view() == script_candidates(script@),
{
    let prefix = sum_prefix_bytes();
    let lines = split_byte_vec(script, 10);
    let mut out: Vec<Vec<u8>> = Vec::new();
    let mut i: usize = 0;
    proof {
        assert(lines.deep_view().skip(0) =~~= lines.deep_view());
        assert(out.deep_view() + hash_candidates(lines.deep_view()) =~~= hash_candidates(
            lines.deep_view(),
        ));
    }
    while i < lines.len()
        invariant
            0 <= i <= lines@.len(),
            lines@.len() == lines.deep_view().len(),
            prefix@ == sum_prefix(),
            script_candidates(script@) == hash_candidates(lines.deep_view()),
            hash_candidates(lines.deep_view()) =~~= out.deep_view() + hash_candidates(
                lines.deep_view().skip(i as int),
            ),
        decreases lines@.len() - i,
    {
        proof {
            assert(lines.deep_view().skip(i as int).drop_first() =~~= lines.deep_view().skip(
                i as int + 1,
            ));
            assert(lines.deep_view().skip(i as int)[0] == lines@[i as int]@);
        }
        let mut line = crate::text::copy_bytes(&lines[i]);
        if line.len() > 0 && line[line.len() - 1] == 13 {
            line.pop();
            proof {
                assert(line@ =~= strip_cr(lines@[i as int]@));
            }
        }
        proof {
            assert(line@ == strip_cr(lines@[i as int]@));
        }
        let interesting = line.len() > 20 && line.len() - 9 >= prefix.len() && bytes_match_at(
            &line,
            &prefix,
            0,
        );
        if interesting {
            proof {
                assert(line@.subrange(0, sum_prefix().len() as int) =~= line@.subrange(
                    0,
                    0 + sum_prefix().len() as int,
                ));
                assert(interesting_line(line@));
            }
            let cand = sub_bytes(&line, prefix.len(), line.len() - 9);
            let ghost prev = out.deep_view();
            out.push(cand);
            proof {
                assert(out.deep_view() =~~= prev.push(cand@));
            }
        } else {
            proof {
                if line@.len() > 20 && line@.len() >= sum_prefix().len() + 9 {
                    assert(line@.subrange(0, sum_prefix().len() as int) =~= line@.subrange(
                        0,
                        0 + sum_prefix().len() as int,
                    ));
                }
                assert(!interesting_line(line@));
            }
        }
        i = i + 1;
    }
    proof {
        assert(lines.deep_view().skip(lines.deep_view().len() as int) =~~= Seq::<
            Seq<u8>,
        >::empty());
        assert(out.deep_view() =~~= script_candidates(script@));
    }
    out
}

/// Recovers the region hash descriptor from the driver script's hash-gated
/// branch lines. Zero well-formed branches means the script is not yet
/// wired to a hash; more than two branches is an unrecoverable format
/// violation, reported rather than guessed at.
pub fn parse_player_hashes(script: &Vec<u8>) -> (r: Result<Option<PatchRegions>, PatchError>)
    ensures
        hashes_post(script_candidates(script@), r),
{
    let cands = collect_candidates(script);
    proof {
        assert(cands.deep_view().len() == cands@.len());
        if cands@.len() > 0 {
            assert(cands.deep_view()[0] =~= cands@[0]@);
        }
        if cands@.len() > 1 {
            assert(cands.deep_view()[1] =~= cands@[1]@);
        }
    }
    if cands.len() > 2 {
        return Err(PatchError::FormatViolation);
    }
    if cands.len() == 0 {
        return Ok(None);
    }
    if cands.len() == 1 {
        if is_well32(&cands[0]) {
            let h = crate::text::copy_bytes(&cands[0]);
            return Ok(Some(PatchRegions::Global(h)));
        }
        return Ok(None);
    }
    let a = is_well32(&cands[0]);
    let b = is_well32(&cands[1]);
    if a && b {
        let g = crate::text::copy_bytes(&cands[0]);
        let c = crate::text::copy_bytes(&cands[1]);
        Ok(Some(PatchRegions::Both { global: g, china: c }))
    } else if b {
        let c = crate::text::copy_bytes(&cands[1]);
        Ok(Some(PatchRegions::China(c)))
    } else if a {
        let g = crate::text::copy_bytes(&cands[0]);
        Ok(Some(PatchRegions::Global(g)))
    } else {
        Ok(None)
    }
}

/// Whether the script carries the stability sentinel.
pub fn script_is_stable(script: &Vec<u8>) -> (r: bool)
    ensures
        r == contains_seq(script@, stability_mark()),
{
    let mark =
        "#echo \"If you would like to test this patch, modify this script and remove the line below this one.\"".as_bytes_vec();
    contains_bytes(script, &mark)
}

} // verus!

use crate::text::{append_bytes, copy_bytes};

verus! {

/// The 16-byte MD5 digest of a byte string. The digest function itself is
/// outside code; only its determinism and output length are assumed.
pub uninterp spec fn md5_of(data: Seq<u8>) -> Seq<u8>;

/// Relies on `md5::Md5` of the `md-5` crate, through
/// `digest::Digest::digest`: the 16-byte digest depends on the input bytes
/// alone.
#[verifier::external_body]
fn md5_digest(data: &Vec<u8>) -> (r: Vec<u8>)
    ensures
        r@ == md5_of(data@),
        r@.len() == 16,
{
    md5::Md5::digest(data.as_slice()).as_slice().to_vec()
}

impl PatchRegions {
    /// Whether a lowercase-hex content hash matches any region's known
    /// hash.
    pub fn is_applied(&self, hash: &Vec<u8>) -> (r: bool)
        ensures
            r == regions_match(regions_repr(*self), hash@),
    {
        match self {
            PatchRegions::Global(g) => eq_bytes(g, hash),
            PatchRegions::China(c) => eq_bytes(c, hash),
            PatchRegions::Both { global, china } => eq_bytes(global, hash) || eq_bytes(
                china,
                hash,
            ),
        }
    }
}

/// What script classification yields for a current (not outdated) patch
/// version: no descriptor means a script still in preparation; with a
/// descriptor the stability sentinel decides between stable and testing.
pub open spec fn classify_post(
    folder: String,
    version: Version,
    s: Seq<u8>,
    r: Result<PlayerPatch, PatchError>,
) -> bool {
    let cands = script_candidates(s);
    if cands.len() > 2 {
        r == Err::<PlayerPatch, PatchError>(PatchError::FormatViolation)
    } else {
        match classify_regions(cands) {
            None => r matches Ok(p) && p.patch_folder == folder && p.status == (
            PatchStatus::Preparation { version }),
            Some(repr) => r matches Ok(p) && p.patch_folder == folder && (if contains_seq(
                s,
                stability_mark(),
            ) {
                p.status matches PatchStatus::Available { version: v, player_hash } && v == version
                    && regions_repr(player_hash) == repr
            } else {
                p.status matches PatchStatus::Testing { version: v, player_hash } && v == version
                    && regions_repr(player_hash) == repr
            }),
        }
    }
}

impl PlayerPatch {
    /// The state of a mirror with no patch folder at all.
    pub fn not_available(patch_folder: String) -> (r: PlayerPatch)
        ensures
            r == (PlayerPatch { patch_folder, status: PatchStatus::NotAvailable }),
    {
        PlayerPatch { patch_folder, status: PatchStatus::NotAvailable }
    }

    pub fn folder(&self) -> (r: &String)
        ensures
            *r == self.patch_folder,
    {
        &self.patch_folder
    }

    pub fn status(&self) -> (r: &PatchStatus)
        ensures
            *r == self.status,
    {
        &self.status
    }

    /// Classifies a current patch from its driver script text.
    pub fn classify_script(patch_folder: String, version: Version, script: &Vec<u8>) -> (r: Result<
        PlayerPatch,
        PatchError,
    >)
        ensures
            classify_post(patch_folder, version, script@, r),
    {
        match parse_player_hashes(script) {
            Err(e) => Err(e),
            Ok(None) => Ok(
                PlayerPatch { patch_folder, status: PatchStatus::Preparation { version } },
            ),
            Ok(Some(player_hash)) => {
                if script_is_stable(script) {
                    Ok(
                        PlayerPatch {
                            patch_folder,
                            status: PatchStatus::Available { version, player_hash },
                        },
                    )
                } else {
                    Ok(
                        PlayerPatch {
                            patch_folder,
                            status: PatchStatus::Testing { version, player_hash },
                        },
                    )
                }
            },
        }
    }

    /// Resolves a selected patch folder: decodes its three-digit name,
    /// reports it outdated against the latest remote version, and
    /// otherwise classifies its driver script.
    pub fn from_parts(
        patch_folder: String,
        folder_name: &Vec<u8>,
        latest: Version,
        script: &Vec<u8>,
    ) -> (r: Result<PlayerPatch, PatchError>)
        ensures
            folder_version_spec(folder_name@) is None ==> r == Err::<PlayerPatch, PatchError>(
                PatchError::FormatViolation,
            ),
            folder_version_spec(folder_name@) matches Some(v) ==> (if Version::lt_spec(v, latest) {
                r matches Ok(p) && p.patch_folder == patch_folder && p.status == (
                PatchStatus::Outdated { current: v, latest })
            } else {
                classify_post(patch_folder, v, script@, r)
            }),
    {
        let version = match version_from_folder_name(folder_name) {
            Ok(v) => v,
            Err(e) => {
                return Err(e);
            },
        };
        if version.before(&latest) {
            return Ok(
                PlayerPatch {
                    patch_folder,
                    status: PatchStatus::Outdated { current: version, latest },
                },
            );
        }
        Self::classify_script(patch_folder, version, script)
    }

    /// Whether the patch is applied to the given installed binary's bytes:
    /// non-actionable states report `false` without hashing; hash-gated
    /// states compare the binary's MD5, region-aware.
    pub fn is_applied(&self, player_bytes: &Vec<u8>) -> (r: bool)
        ensures
            match self.status {
                PatchStatus::NotAvailable => r == false,
                PatchStatus::Outdated { .. } => r == false,
                PatchStatus::Preparation { .. } => r == false,
                PatchStatus::Testing { player_hash, .. } => r == regions_match(
                    regions_repr(player_hash),
                    hex_of(md5_of(player_bytes@)),
                ),
                PatchStatus::Available { player_hash, .. } => r == regions_match(
                    regions_repr(player_hash),
                    hex_of(md5_of(player_bytes@)),
                ),
            },
    {
        match &self.status {
            PatchStatus::NotAvailable => false,
            PatchStatus::Outdated { .. } => false,
            PatchStatus::Preparation { .. } => false,
            PatchStatus::Testing { player_hash, .. } => {
                let digest = md5_digest(player_bytes);
                let hex = bytes_to_hex(&digest);
                player_hash.is_applied(&hex)
            },
            PatchStatus::Available { player_hash, .. } => {
                let digest = md5_digest(player_bytes);
                let hex = bytes_to_hex(&digest);
                player_hash.is_applied(&hex)
            },
        }
    }
}

/// The test-mode preamble region: the first 1200 bytes, or all of a
/// shorter script.
pub open spec fn preamble_cut(s: Seq<u8>) -> int {
    if s.len() < 1200 {
        s.len() as int
    } else {
        1200
    }
}

/// The script with the interactive guard statements of its preamble
/// commented out.
pub open spec fn neutralize_spec(s: Seq<u8>) -> Seq<u8> {
    let cut = preamble_cut(s);
    replace_seq(
        replace_seq(s.take(cut), vstd::utf8::encode_utf8("exit"@), vstd::utf8::encode_utf8("#exit"@)),
        vstd::utf8::encode_utf8("read"@),
        vstd::utf8::encode_utf8("#read"@),
    ) + s.skip(cut)
}

/// Comments out `exit` and `read` statements in the script's test-mode
/// preamble, leaving the rest untouched.
pub fn neutralize_preamble(script: &Vec<u8>) -> (r: Vec<u8>)
    ensures
        r@ == neutralize_spec(script@),
{
    let cut = if script.len() < 1200 {
        script.len()
    } else {
        1200
    };
    let head = sub_bytes(script, 0, cut);
    let tail = sub_bytes(script, cut, script.len());
    let pass1 = replace_bytes(&head, &"exit".as_bytes_vec(), &"#exit".as_bytes_vec());
    let mut out = replace_bytes(&pass1, &"read".as_bytes_vec(), &"#read".as_bytes_vec());
    append_bytes(&mut out, &tail);
    proof {
        assert(script@.take(preamble_cut(script@)) =~= script@.subrange(0, cut as int));
        assert(script@.skip(preamble_cut(script@)) =~= script@.subrange(
            cut as int,
            script@.len() as int,
        ));
    }
    out
}

/// The revert script with its timestamp self-check disabled.
pub open spec fn disable_time_check_spec(s: Seq<u8>) -> Seq<u8> {
    replace_seq(
        s,
        vstd::utf8::encode_utf8("difftime=$"@),
        vstd::utf8::encode_utf8("difftime=0 #difftime=$"@),
    )
}

/// Disables the revert script's file-timestamp staleness check, for the
/// forced revert mode.
pub fn disable_time_check(script: &Vec<u8>) -> (r: Vec<u8>)
    ensures
        r@ == disable_time_check_spec(script@),
{
    replace_bytes(
        script,
        &"difftime=$".as_bytes_vec(),
        &"difftime=0 #difftime=$".as_bytes_vec(),
    )
}

} // verus!

verus! {

/// Which script the flow drives, and its mode-specific switches.
#[derive(Debug, Clone, Copy, PartialEq, Eq, Structural)]
pub enum PatchMode {
    /// Runs the patch script, optionally through privilege elevation.
    Apply { elevated: bool },
    /// Runs the revert script; `forced` disables its staleness self-check.
    Revert { forced: bool },
}

/// One unit of outside work the driver must perform next.
#[derive(Debug, Clone, PartialEq, Eq)]
pub enum PatchFlowAction {
    /// Remove the staging directory if it exists (stale from a prior run).
    ClearStaging { path: String },
    CreateStaging { path: String },
    /// Copy the versioned patch folder's contents (not the folder itself)
    /// into staging.
    CopyContents { from: String, to: String },
    ReadScript { path: String },
    WriteScript { path: String, content: Vec<u8> },
    /// Run the script with the installation as working directory. When
    /// `elevated`, the elevation tool does not preserve the working
    /// directory, so the driver must wrap an explicit change of directory
    /// into the elevated command. `confirm` feeds the single affirmative
    /// keystroke the script asks for.
    RunScript { script: String, work_dir: String, elevated: bool, confirm: bool },
    /// Remove the staging directory unconditionally.
    RemoveStaging { path: String },
}

/// What the driver observed for the last action. `None` and `Ok` report
/// success; messages carry the failure.
#[derive(Debug, PartialEq, Eq)]
pub enum PatchFlowEvent {
    Cleared(Option<String>),
    Created(Option<String>),
    Copied(Option<String>),
    ScriptRead(Result<Vec<u8>, String>),
    Written(Option<String>),
    /// Captured standard output on a run, or the spawn failure.
    Ran(Result<Vec<u8>, String>),
    Removed(Option<String>),
}

/// Where the flow stands between two driver calls.
#[derive(Debug, PartialEq, Eq)]
pub enum PatchFlowPhase {
    Clearing,
    Creating,
    Copying,
    Reading,
    Writing,
    Running,
    /// Staging is being removed; the verdict to report afterwards is held.
    Cleanup { verdict: Result<(), PatchError> },
    Done,
    Failed,
}

/// What a step tells the driver: the next action, or the final verdict.
#[derive(Debug, PartialEq, Eq)]
pub enum PatchStepOutcome {
    Continue(PatchFlowAction),
    Finished(Result<(), PatchError>),
}

/// The state of one apply or revert run.
#[derive(Debug)]
pub struct PatchFlow {
    pub mode: PatchMode,
    /// The versioned subfolder whose contents are staged.
    pub patch_contents: String,
    /// The fixed, well-known staging directory.
    pub staging: String,
    pub game_folder: String,
    /// The driver script inside staging.
    pub script_path: String,
    pub phase: PatchFlowPhase,
}

/// The marker whose presence in captured output signals a successful
/// apply.
pub open spec fn apply_success_mark() -> Seq<u8> {
    vstd::utf8::encode_utf8("Patch applied!"@)
}

/// The marker whose absence in captured output signals a successful
/// revert.
pub open spec fn revert_error_mark() -> Seq<u8> {
    vstd::utf8::encode_utf8("ERROR: "@)
}

/// The verdict of a finished script run.
pub open spec fn run_verdict(mode: PatchMode, res: Result<Vec<u8>, String>) -> Result<
    (),
    PatchError,
> {
    match res {
        Err(m) => Err(PatchError::Io(m)),
        Ok(out) => match mode {
            PatchMode::Apply { .. } => if contains_seq(out@, apply_success_mark()) {
                Ok(())
            } else {
                Err(PatchError::ScriptFailed(out))
            },
            PatchMode::Revert { .. } => if !contains_seq(out@, revert_error_mark()) {
                Ok(())
            } else {
                Err(PatchError::ScriptFailed(out))
            },
        },
    }
}

/// The script text transformation each mode performs before running.
pub open spec fn transform_spec(mode: PatchMode, s: Seq<u8>) -> Seq<u8> {
    match mode {
        PatchMode::Apply { .. } => neutralize_spec(s),
        PatchMode::Revert { forced } => if forced {
            disable_time_check_spec(s)
        } else {
            s
        },
    }
}

pub open spec fn mode_elevated(mode: PatchMode) -> bool {
    match mode {
        PatchMode::Apply { elevated } => elevated,
        PatchMode::Revert { .. } => false,
    }
}

/// The script file name each mode drives, under the staging directory.
pub open spec fn script_name_of(mode: PatchMode) -> Seq<char> {
    match mode {
        PatchMode::Apply { .. } => "/patch.sh"@,
        PatchMode::Revert { .. } => "/patch_revert.sh"@,
    }
}

/// The event kind the current phase awaits.
pub open spec fn event_fits(ph: PatchFlowPhase, ev: PatchFlowEvent) -> bool {
    match ph {
        PatchFlowPhase::Clearing => ev matches PatchFlowEvent::Cleared(_),
        PatchFlowPhase::Creating => ev matches PatchFlowEvent::Created(_),
        PatchFlowPhase::Copying => ev matches PatchFlowEvent::Copied(_),
        PatchFlowPhase::Reading => ev matches PatchFlowEvent::ScriptRead(_),
        PatchFlowPhase::Writing => ev matches PatchFlowEvent::Written(_),
        PatchFlowPhase::Running => ev matches PatchFlowEvent::Ran(_),
        PatchFlowPhase::Cleanup { .. } => ev matches PatchFlowEvent::Removed(_),
        PatchFlowPhase::Done => false,
        PatchFlowPhase::Failed => false,
    }
}

/// The configuration fields never change after `begin`.
pub open spec fn flow_config(a: PatchFlow, b: PatchFlow) -> bool {
    &&& a.mode == b.mode
    &&& a.patch_contents == b.patch_contents
    &&& a.staging == b.staging
    &&& a.game_folder == b.game_folder
    &&& a.script_path == b.script_path
}

/// The flow enters cleanup: staging removal is requested and the verdict
/// is held for afterwards.
pub open spec fn enters_cleanup(
    pre: PatchFlow,
    post: PatchFlow,
    r: PatchStepOutcome,
    verdict: Result<(), PatchError>,
) -> bool {
    post.phase == (PatchFlowPhase::Cleanup { verdict }) && r == PatchStepOutcome::Continue(
        PatchFlowAction::RemoveStaging { path: pre.staging },
    )
}

/// The full transition relation of the apply/revert flow. Every failure
/// after staging was touched routes through `Cleanup`, so the staging
/// directory is removed on the way out whatever the outcome; only a
/// failure to clear a stale directory (before this run staged anything)
/// ends directly.
pub open spec fn step_post(
    pre: PatchFlow,
    ev: PatchFlowEvent,
    post: PatchFlow,
    r: PatchStepOutcome,
) -> bool {
    &&& flow_config(pre, post)
    &&& match pre.phase {
        PatchFlowPhase::Clearing => ev matches PatchFlowEvent::Cleared(e) && match e {
            Some(m) => post.phase == PatchFlowPhase::Failed && r == PatchStepOutcome::Finished(
                Err(PatchError::Io(m)),
            ),
            None => post.phase == PatchFlowPhase::Creating && r == PatchStepOutcome::Continue(
                PatchFlowAction::CreateStaging { path: pre.staging },
            ),
        },
        PatchFlowPhase::Creating => ev matches PatchFlowEvent::Created(e) && match e {
            Some(m) => enters_cleanup(pre, post, r, Err(PatchError::Io(m))),
            None => post.phase == PatchFlowPhase::Copying && r == PatchStepOutcome::Continue(
                PatchFlowAction::CopyContents { from: pre.patch_contents, to: pre.staging },
            ),
        },
        PatchFlowPhase::Copying => ev matches PatchFlowEvent::Copied(e) && match e {
            Some(m) => enters_cleanup(pre, post, r, Err(PatchError::Io(m))),
            None => post.phase == PatchFlowPhase::Reading && r == PatchStepOutcome::Continue(
                PatchFlowAction::ReadScript { path: pre.script_path },
            ),
        },
        PatchFlowPhase::Reading => ev matches PatchFlowEvent::ScriptRead(res) && match res {
            Err(m) => enters_cleanup(pre, post, r, Err(PatchError::Io(m))),
            Ok(content) => post.phase == PatchFlowPhase::Writing && (r matches
                PatchStepOutcome::Continue(
                    PatchFlowAction::WriteScript { path, content: c },
                ) && path == pre.script_path && c@ == transform_spec(pre.mode, content@)),
        },
        PatchFlowPhase::Writing => ev matches PatchFlowEvent::Written(e) && match e {
            Some(m) => enters_cleanup(pre, post, r, Err(PatchError::Io(m))),
            None => post.phase == PatchFlowPhase::Running && r == PatchStepOutcome::Continue(
                PatchFlowAction::RunScript {
                    script: pre.script_path,
                    work_dir: pre.game_folder,
                    elevated: mode_elevated(pre.mode),
                    confirm: pre.mode matches PatchMode::Apply { .. },
                },
            ),
        },
        PatchFlowPhase::Running => ev matches PatchFlowEvent::Ran(res) && enters_cleanup(
            pre,
            post,
            r,
            run_verdict(pre.mode, res),
        ),
        PatchFlowPhase::Cleanup { verdict } => ev matches PatchFlowEvent::Removed(e) && {
            let final_verdict = if verdict is Ok && e is Some {
                Err(PatchError::Io(e->0))
            } else {
                verdict
            };
            &&& r == PatchStepOutcome::Finished(final_verdict)
            &&& post.phase == (if final_verdict is Ok {
                PatchFlowPhase::Done
            } else {
                PatchFlowPhase::Failed
            })
        },
        PatchFlowPhase::Done => false,
        PatchFlowPhase::Failed => false,
    }
}

impl PatchFlow {
    /// Starts an apply or revert run for a discovered patch. States that
    /// cannot run — no patch, outdated, still in preparation — are refused
    /// before anything touches the filesystem. The first action clears any
    /// stale staging left by an earlier run, making the flow re-entrant.
    pub fn begin(patch: &PlayerPatch, game_folder: String, staging: String, mode: PatchMode) -> (r:
        Result<(PatchFlow, PatchFlowAction), PatchError>)
        requires
            patch.status matches PatchStatus::Testing { version, .. } ==> version.major < 10
                && version.minor < 10 && version.patch < 10,
            patch.status matches PatchStatus::Available { version, .. } ==> version.major < 10
                && version.minor < 10 && version.patch < 10,
        ensures
            patch.status matches PatchStatus::NotAvailable ==> r == Err::<
                (PatchFlow, PatchFlowAction),
                PatchError,
            >(PatchError::NotApplicable),
            patch.status matches PatchStatus::Outdated { .. } ==> r == Err::<
                (PatchFlow, PatchFlowAction),
                PatchError,
            >(PatchError::NotApplicable),
            patch.status matches PatchStatus::Preparation { .. } ==> r == Err::<
                (PatchFlow, PatchFlowAction),
                PatchError,
            >(PatchError::NotApplicable),
            patch.status matches PatchStatus::Testing { version, .. } ==> begin_ok(
                r,
                *patch,
                version,
                game_folder,
                staging,
                mode,
            ),
            patch.status matches PatchStatus::Available { version, .. } ==> begin_ok(
                r,
                *patch,
                version,
                game_folder,
                staging,
                mode,
            ),
    {
        let version = match &patch.status {
            PatchStatus::NotAvailable => {
                return Err(PatchError::NotApplicable);
            },
            PatchStatus::Outdated { .. } => {
                return Err(PatchError::NotApplicable);
            },
            PatchStatus::Preparation { .. } => {
                return Err(PatchError::NotApplicable);
            },
            PatchStatus::Testing { version, .. } => *version,
            PatchStatus::Available { version, .. } => *version,
        };
        let patch_contents = patch.patch_folder.clone().concat("/").concat(
            version.to_plain_string().as_str(),
        );
        let script_path = match mode {
            PatchMode::Apply { .. } => staging.clone().concat("/patch.sh"),
            PatchMode::Revert { .. } => staging.clone().concat("/patch_revert.sh"),
        };
        let act = PatchFlowAction::ClearStaging { path: staging.clone() };
        let flow = PatchFlow {
            mode,
            patch_contents,
            staging,
            game_folder,
            script_path,
            phase: PatchFlowPhase::Clearing,
        };
        Ok((flow, act))
    }

    /// Consumes the driver's observation and decides the next action or
    /// the final verdict, following `step_post` exactly. A run only
    /// finishes out of `Cleanup` — after the staging directory was removed
    /// — except when clearing a stale directory failed before this run
    /// staged anything.
    pub fn step(&mut self, event: PatchFlowEvent) -> (r: PatchStepOutcome)
        requires
            event_fits(old(self).phase, event),
        ensures
            step_post(*old(self), event, *final(self), r),
            r matches PatchStepOutcome::Finished(_) ==> (old(self).phase matches
                PatchFlowPhase::Cleanup { .. } || old(self).phase matches
                PatchFlowPhase::Clearing),
    {
        let mut ph = PatchFlowPhase::Failed;
        core::mem::swap(&mut ph, &mut self.phase);
        match (ph, event) {
            (PatchFlowPhase::Clearing, PatchFlowEvent::Cleared(e)) => match e {
                Some(m) => {
                    self.phase = PatchFlowPhase::Failed;
                    PatchStepOutcome::Finished(Err(PatchError::Io(m)))
                },
                None => {
                    self.phase = PatchFlowPhase::Creating;
                    PatchStepOutcome::Continue(
                        PatchFlowAction::CreateStaging { path: self.staging.clone() },
                    )
                },
            },
            (PatchFlowPhase::Creating, PatchFlowEvent::Created(e)) => match e {
                Some(m) => self.enter_cleanup(Err(PatchError::Io(m))),
                None => {
                    self.phase = PatchFlowPhase::Copying;
                    PatchStepOutcome::Continue(
                        PatchFlowAction::CopyContents {
                            from: self.patch_contents.clone(),
                            to: self.staging.clone(),
                        },
                    )
                },
            },
            (PatchFlowPhase::Copying, PatchFlowEvent::Copied(e)) => match e {
                Some(m) => self.enter_cleanup(Err(PatchError::Io(m))),
                None => {
                    self.phase = PatchFlowPhase::Reading;
                    PatchStepOutcome::Continue(
                        PatchFlowAction::ReadScript { path: self.script_path.clone() },
                    )
                },
            },
            (PatchFlowPhase::Reading, PatchFlowEvent::ScriptRead(res)) => match res {
                Err(m) => self.enter_cleanup(Err(PatchError::Io(m))),
                Ok(content) => {
                    let new_content = match self.mode {
                        PatchMode::Apply { .. } => neutralize_preamble(&content),
                        PatchMode::Revert { forced } => {
                            if forced {
                                disable_time_check(&content)
                            } else {
                                copy_bytes(&content)
                            }
                        },
                    };
                    self.phase = PatchFlowPhase::Writing;
                    PatchStepOutcome::Continue(
                        PatchFlowAction::WriteScript {
                            path: self.script_path.clone(),
                            content: new_content,
                        },
                    )
                },
            },
            (PatchFlowPhase::Writing, PatchFlowEvent::Written(e)) => match e {
                Some(m) => self.enter_cleanup(Err(PatchError::Io(m))),
                None => {
                    self.phase = PatchFlowPhase::Running;
                    let elevated = match self.mode {
                        PatchMode::Apply { elevated } => elevated,
                        PatchMode::Revert { .. } => false,
                    };
                    let confirm = match self.mode {
                        PatchMode::Apply { .. } => true,
                        PatchMode::Revert { .. } => false,
                    };
                    PatchStepOutcome::Continue(
                        PatchFlowAction::RunScript {
                            script: self.script_path.clone(),
                            work_dir: self.game_folder.clone(),
                            elevated,
                            confirm,
                        },
                    )
                },
            },
            (PatchFlowPhase::Running, PatchFlowEvent::Ran(res)) => {
                let verdict = match res {
                    Err(m) => Err(PatchError::Io(m)),
                    Ok(out) => {
                        let hit = match self.mode {
                            PatchMode::Apply { .. } => {
                                let mark = "Patch applied!".as_bytes_vec();
                                contains_bytes(&out, &mark)
                            },
                            PatchMode::Revert { .. } => {
                                let mark = "ERROR: ".as_bytes_vec();
                                !contains_bytes(&out, &mark)
                            },
                        };
                        if hit {
                            Ok(())
                        } else {
                            Err(PatchError::ScriptFailed(out))
                        }
                    },
                };
                self.enter_cleanup(verdict)
            },
            (PatchFlowPhase::Cleanup { verdict }, PatchFlowEvent::Removed(e)) => {
                let failed_cleanup = match (&verdict, &e) {
                    (Ok(_), Some(_)) => true,
                    _ => false,
                };
                let final_verdict = if failed_cleanup {
                    match e {
                        Some(m) => Err(PatchError::Io(m)),
                        None => verdict,
                    }
                } else {
                    verdict
                };
                let ok = match &final_verdict {
                    Ok(_) => true,
                    Err(_) => false,
                };
                self.phase = if ok {
                    PatchFlowPhase::Done
                } else {
                    PatchFlowPhase::Failed
                };
                PatchStepOutcome::Finished(final_verdict)
            },
            _ => {
                proof {
                    assert(false);
                }
                PatchStepOutcome::Finished(Err(PatchError::NotApplicable))
            },
        }
    }

    /// Requests the unconditional staging removal, holding the verdict.
    fn enter_cleanup(&mut self, verdict: Result<(), PatchError>) -> (r: PatchStepOutcome)
        ensures
            flow_config(*old(self), *final(self)),
            enters_cleanup(*old(self), *final(self), r, verdict),
    {
        let act = PatchFlowAction::RemoveStaging { path: self.staging.clone() };
        self.phase = PatchFlowPhase::Cleanup { verdict };
        PatchStepOutcome::Continue(act)
    }
}

/// A successfully begun flow: configured from the patch, in the clearing
/// phase, with the stale-staging removal as its first action.
pub open spec fn begin_ok(
    r: Result<(PatchFlow, PatchFlowAction), PatchError>,
    patch: PlayerPatch,
    version: Version,
    game_folder: String,
    staging: String,
    mode: PatchMode,
) -> bool {
    r matches Ok((flow, act)) && flow.mode == mode && flow.staging == staging && flow.game_folder
        == game_folder && flow.phase == PatchFlowPhase::Clearing && flow.patch_contents@
        == patch.patch_folder@ + "/"@ + Version::plain_spec(version) && flow.script_path@
        == staging@ + script_name_of(mode) && act == (PatchFlowAction::ClearStaging {
        path: staging,
    })
}

} // verus!
