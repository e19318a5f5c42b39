//! Downloader orchestrator: a typed state machine that plans an install as
//! a sequence of actions for an outside driver to perform. The driver
//! performs each action (query free space, fetch, write the marker file)
//! and reports what happened; the machine decides every step, so the
//! ordering — free-space preflight before any fetch, marker write after
//! the last fetch, best-effort marker semantics — is part of its
//! contracts.

use vstd::prelude::*;
use vstd::string::StringExecFns;
use crate::diff::{DiffDownloadingError, DownloadingError, VersionDiff};
use crate::version::Version;

verus! {

/// Progress events, emitted in-line while an install advances.
#[derive(Debug, Clone, PartialEq, Eq)]
pub enum Update {
    CheckingFreeSpace(String),
    DownloadingStarted,
    /// `(downloaded files, total files)`
    DownloadingProgress(usize, usize),
    DownloadingFinished,
}

/// One unit of outside work the driver must perform next.
#[derive(Debug, Clone, PartialEq, Eq)]
pub enum InstallAction {
    /// Query the free space available on the mount holding `path`.
    CheckFreeSpace { path: String },
    /// Fetch a single archive, resuming a partial file when `resume` holds.
    FetchArchive { uri: String, destination: String, resume: bool },
    /// Fetch one listed file, always overwriting (never resuming).
    FetchFile { uri: String, destination: String },
    /// Write the `.version` marker; failure is reported but never fatal.
    WriteVersionFile { path: String, content: Vec<u8> },
    /// The install is complete; nothing is left to do.
    Finished,
}

/// Where the machine stands between two driver calls.
#[derive(Debug, Clone, Copy, PartialEq, Eq, Structural)]
pub enum InstallPhase {
    CheckingSpace,
    FetchingArchive,
    FetchingFiles { next: usize },
    WritingMarker,
    Done,
    Failed,
}

/// The state of one install run.
#[derive(Debug, Clone)]
pub struct Installation {
    pub uri: String,
    pub files: Vec<String>,
    pub required: u64,
    pub destination: String,
    pub version_file_path: Option<String>,
    pub latest: Version,
    pub phase: InstallPhase,
}

impl Installation {
    /// Well-formedness between steps.
    pub open spec fn inv(&self) -> bool {
        self.phase matches InstallPhase::FetchingFiles { next } ==> next < self.files@.len()
    }

    /// The configuration fields never change after `begin`.
    pub open spec fn same_config(a: Installation, b: Installation) -> bool {
        &&& a.uri == b.uri
        &&& a.files@ == b.files@
        &&& a.required == b.required
        &&& a.destination == b.destination
        &&& a.version_file_path == b.version_file_path
        &&& a.latest == b.latest
    }

    /// Starts an install for `diff`. Non-actionable diffs are refused with
    /// their declared error before any action is produced, and a diff
    /// without an installation path fails with `PathNotSpecified` rather
    /// than guessing a destination.
    pub fn begin(diff: &VersionDiff) -> (r: Result<
        (Installation, Update, InstallAction),
        DiffDownloadingError,
    >)
        ensures
            (*diff) matches VersionDiff::Latest { .. } ==> r == Err::<
                (Installation, Update, InstallAction),
                DiffDownloadingError,
            >(DiffDownloadingError::AlreadyLatest),
            (*diff) matches VersionDiff::Outdated { .. } ==> r == Err::<
                (Installation, Update, InstallAction),
                DiffDownloadingError,
            >(DiffDownloadingError::NotActionable),
            VersionDiff::is_installable(*diff) ==> match VersionDiff::installation_path_spec(
                *diff,
            ) {
                Some(p) => r matches Ok((inst, up, act)) && inst.phase
                    == InstallPhase::CheckingSpace && inst.inv() && Some(inst.uri)
                    == VersionDiff::uri_spec(*diff) && Some(inst.files@)
                    == VersionDiff::files_spec(*diff) && Some(inst.required)
                    == VersionDiff::unpacked_size_spec(*diff) && inst.destination == p
                    && inst.version_file_path == VersionDiff::version_file_path_spec(*diff)
                    && inst.latest == VersionDiff::latest_spec(*diff) && up
                    == Update::CheckingFreeSpace(p) && act == (InstallAction::CheckFreeSpace {
                    path: p,
                }),
                None => r == Err::<(Installation, Update, InstallAction), DiffDownloadingError>(
                    DiffDownloadingError::PathNotSpecified,
                ),
            },
    {
        match diff {
            VersionDiff::Latest { .. } => Err(DiffDownloadingError::AlreadyLatest),
            VersionDiff::Outdated { .. } => Err(DiffDownloadingError::NotActionable),
            _ => {
                let uri = match diff.downloading_uri() {
                    Some(u) => u,
                    None => {
                        return Err(DiffDownloadingError::PathNotSpecified);
                    },
                };
                let files = match diff.files() {
                    Some(fs) => fs,
                    None => {
                        return Err(DiffDownloadingError::PathNotSpecified);
                    },
                };
                let required = match diff.unpacked_size() {
                    Some(n) => n,
                    None => {
                        return Err(DiffDownloadingError::PathNotSpecified);
                    },
                };
                let destination = match diff.installation_path() {
                    Some(p) => p,
                    None => {
                        return Err(DiffDownloadingError::PathNotSpecified);
                    },
                };
                let version_file_path = diff.version_file_path();
                let latest = diff.latest();
                let inst = Installation {
                    uri,
                    files,
                    required,
                    destination: destination.clone(),
                    version_file_path,
                    latest,
                    phase: InstallPhase::CheckingSpace,
                };
                let up = Update::CheckingFreeSpace(destination.clone());
                let act = InstallAction::CheckFreeSpace { path: destination };
                Ok((inst, up, act))
            },
        }
    }

    /// Consumes the free-space answer. An unresolvable mount or a shortfall
    /// fails the install here, before any fetch is ever requested;
    /// otherwise downloading starts with the archive or the first file.
    pub fn on_space_checked(&mut self, available: Option<u64>) -> (r: Result<
        (Update, InstallAction),
        DiffDownloadingError,
    >)
        requires
            old(self).phase == InstallPhase::CheckingSpace,
            old(self).inv(),
        ensures
            Self::same_config(*old(self), *final(self)),
            final(self).inv(),
            match available {
                None => r == Err::<(Update, InstallAction), DiffDownloadingError>(
                    DiffDownloadingError::DownloadingError(
                        DownloadingError::PathNotMounted(old(self).destination),
                    ),
                ) && final(self).phase == InstallPhase::Failed,
                Some(a) => if a < old(self).required {
                    r == Err::<(Update, InstallAction), DiffDownloadingError>(
                        DiffDownloadingError::DownloadingError(
                            DownloadingError::NoSpaceAvailable {
                                path: old(self).destination,
                                required: old(self).required,
                                available: a,
                            },
                        ),
                    ) && final(self).phase == InstallPhase::Failed
                } else {
                    r matches Ok((up, act)) && up == Update::DownloadingStarted && if old(self).files@.len() == 0 {
                        final(self).phase == InstallPhase::FetchingArchive && (act matches
                            InstallAction::FetchArchive { uri, destination, resume } && uri
                            == old(self).uri && destination@ == old(self).destination@
                            + "/game.zip"@ && resume == true)
                    } else {
                        final(self).phase == (InstallPhase::FetchingFiles { next: 0 })
                            && fetch_file_action(act, *old(self), 0)
                    }
                },
            },
    {
        match available {
            None => {
                self.phase = InstallPhase::Failed;
                Err(
                    DiffDownloadingError::DownloadingError(
                        DownloadingError::PathNotMounted(self.destination.clone()),
                    ),
                )
            },
            Some(a) => {
                if a < self.required {
                    self.phase = InstallPhase::Failed;
                    Err(
                        DiffDownloadingError::DownloadingError(
                            DownloadingError::NoSpaceAvailable {
                                path: self.destination.clone(),
                                required: self.required,
                                available: a,
                            },
                        ),
                    )
                } else if self.files.len() == 0 {
                    self.phase = InstallPhase::FetchingArchive;
                    let dest = self.destination.clone().concat("/game.zip");
                    let act = InstallAction::FetchArchive {
                        uri: self.uri.clone(),
                        destination: dest,
                        resume: true,
                    };
                    Ok((Update::DownloadingStarted, act))
                } else {
                    self.phase = InstallPhase::FetchingFiles { next: 0 };
                    let act = self.file_action(0);
                    Ok((Update::DownloadingStarted, act))
                }
            },
        }
    }

    /// Builds the fetch action for file number `i`.
    fn file_action(&self, i: usize) -> (act: InstallAction)
        requires
            i < self.files@.len(),
        ensures
            fetch_file_action(act, *self, i as int),
    {
        let uri = self.uri.clone().concat("/").concat(self.files[i].as_str());
        let dest = self.destination.clone().concat("/").concat(self.files[i].as_str());
        InstallAction::FetchFile { uri, destination: dest }
    }

    /// Consumes a fetch outcome: `error` carries the transport's message
    /// when the fetch failed. A failure aborts the whole install at once;
    /// a success advances to the next file or to the marker write.
    pub fn on_fetched(&mut self, error: Option<String>) -> (r: Result<
        (Vec<Update>, InstallAction),
        DiffDownloadingError,
    >)
        requires
            old(self).phase matches InstallPhase::FetchingArchive || old(self).phase matches
                InstallPhase::FetchingFiles { .. },
            old(self).inv(),
        ensures
            Self::same_config(*old(self), *final(self)),
            final(self).inv(),
            match error {
                Some(msg) => r == Err::<(Vec<Update>, InstallAction), DiffDownloadingError>(
                    DiffDownloadingError::DownloadingError(DownloadingError::Network(msg)),
                ) && final(self).phase == InstallPhase::Failed,
                None => r matches Ok((ups, act)) && match old(self).phase {
                    InstallPhase::FetchingArchive => ups@ =~= Seq::<Update>::empty()
                        && final(self).phase == InstallPhase::WritingMarker && marker_action(
                        act,
                        *old(self),
                    ),
                    InstallPhase::FetchingFiles { next } => ups@ =~= seq![
                        Update::DownloadingProgress((next + 1) as usize, old(self).files@.len() as usize),
                    ] && if next + 1 < old(self).files@.len() {
                        final(self).phase == (InstallPhase::FetchingFiles {
                            next: (next + 1) as usize,
                        }) && fetch_file_action(act, *old(self), next + 1)
                    } else {
                        final(self).phase == InstallPhase::WritingMarker && marker_action(
                            act,
                            *old(self),
                        )
                    },
                    _ => false,
                },
            },
    {
        if let Some(msg) = error {
            self.phase = InstallPhase::Failed;
            return Err(
                DiffDownloadingError::DownloadingError(DownloadingError::Network(msg)),
            );
        }
        match self.phase {
            InstallPhase::FetchingArchive => {
                self.phase = InstallPhase::WritingMarker;
                let act = self.marker_write_action();
                Ok((Vec::new(), act))
            },
            InstallPhase::FetchingFiles { next } => {
                let total = self.files.len();
                let mut ups: Vec<Update> = Vec::new();
                ups.push(Update::DownloadingProgress(next + 1, total));
                if next + 1 < total {
                    self.phase = InstallPhase::FetchingFiles { next: next + 1 };
                    let act = self.file_action(next + 1);
                    Ok((ups, act))
                } else {
                    self.phase = InstallPhase::WritingMarker;
                    let act = self.marker_write_action();
                    Ok((ups, act))
                }
            },
            _ => {
                proof {
                    assert(false);
                }
                Err(DiffDownloadingError::NotActionable)
            },
        }
    }

    /// Builds the `.version` marker write: the configured path, or
    /// `[destination]/.version` when unset; content is the latest version's
    /// text.
    fn marker_write_action(&self) -> (act: InstallAction)
        ensures
            marker_action(act, *self),
    {
        let path = match &self.version_file_path {
            Some(p) => p.clone(),
            None => self.destination.clone().concat("/.version"),
        };
        let content = self.latest.render();
        InstallAction::WriteVersionFile { path, content }
    }

    /// Consumes the marker-write outcome. A failed marker write degrades
    /// future diffing but never aborts an otherwise-successful install.
    pub fn on_marker_written(&mut self, ok: bool) -> (r: (Update, InstallAction))
        requires
            old(self).phase == InstallPhase::WritingMarker,
            old(self).inv(),
        ensures
            Self::same_config(*old(self), *final(self)),
            final(self).inv(),
            final(self).phase == InstallPhase::Done,
            r == (Update::DownloadingFinished, InstallAction::Finished),
    {
        let _ = ok;
        self.phase = InstallPhase::Done;
        (Update::DownloadingFinished, InstallAction::Finished)
    }
}

/// `act` fetches file number `i` of the install's file list, from the base
/// URL into the destination folder, with resume disabled by construction.
pub open spec fn fetch_file_action(act: InstallAction, inst: Installation, i: int) -> bool {
    &&& 0 <= i < inst.files@.len()
    &&& act matches InstallAction::FetchFile { uri, destination } && uri@ == inst.uri@ + "/"@
        + inst.files@[i]@ && destination@ == inst.destination@ + "/"@ + inst.files@[i]@
}

/// `act` writes the version marker file for `inst`.
pub open spec fn marker_action(act: InstallAction, inst: Installation) -> bool {
    act matches InstallAction::WriteVersionFile { path, content } && content@
        == Version::render_spec(inst.latest) && match inst.version_file_path {
        Some(p) => path == p,
        None => path@ == inst.destination@ + "/.version"@,
    }
}

} // verus!
