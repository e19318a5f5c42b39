use update_core::diff::{DiffDownloadingError, DownloadingError, VersionDiff};
use update_core::install::{InstallAction, Installation, Update};
use update_core::version::Version;

fn archive_diff() -> VersionDiff {
    VersionDiff::Diff {
        current: Version::new(1, 0, 0),
        latest: Version::new(1, 1, 0),
        uri: "https://host/update.zip".to_string(),
        downloaded_size: 400,
        unpacked_size: 1000,
        files: Vec::new(),
        installation_path: Some("/game".to_string()),
        version_file_path: None,
        temp_folder: None,
    }
}

fn file_list_diff() -> VersionDiff {
    VersionDiff::NotInstalled {
        latest: Version::new(2, 0, 0),
        uri: "https://host/tree".to_string(),
        downloaded_size: 300,
        unpacked_size: 600,
        files: vec!["a.bin".to_string(), "sub/b.bin".to_string()],
        installation_path: Some("/game".to_string()),
        version_file_path: None,
        temp_folder: None,
    }
}

#[test]
fn install_on_latest_fails_without_any_action() {
    let d = VersionDiff::Latest {
        version: Version::new(1, 0, 0),
    };
    assert!(matches!(
        Installation::begin(&d),
        Err(DiffDownloadingError::AlreadyLatest)
    ));
}

#[test]
fn install_on_outdated_fails_without_any_action() {
    let d = VersionDiff::Outdated {
        current: Version::new(1, 0, 0),
        latest: Version::new(3, 0, 0),
    };
    assert!(matches!(
        Installation::begin(&d),
        Err(DiffDownloadingError::NotActionable)
    ));
}

#[test]
fn install_without_path_fails_with_path_not_specified() {
    let mut d = archive_diff();
    if let VersionDiff::Diff {
        installation_path, ..
    } = &mut d
    {
        *installation_path = None;
    }
    assert!(matches!(
        Installation::begin(&d),
        Err(DiffDownloadingError::PathNotSpecified)
    ));
}

#[test]
fn insufficient_space_fails_before_any_fetch() {
    let (mut inst, up, act) = Installation::begin(&archive_diff()).unwrap();
    assert_eq!(up, Update::CheckingFreeSpace("/game".to_string()));
    assert_eq!(
        act,
        InstallAction::CheckFreeSpace {
            path: "/game".to_string()
        }
    );
    let r = inst.on_space_checked(Some(999));
    assert_eq!(
        r,
        Err(DiffDownloadingError::DownloadingError(
            DownloadingError::NoSpaceAvailable {
                path: "/game".to_string(),
                required: 1000,
                available: 999,
            }
        ))
    );
}

#[test]
fn unmounted_path_fails_before_any_fetch() {
    let (mut inst, _, _) = Installation::begin(&archive_diff()).unwrap();
    let r = inst.on_space_checked(None);
    assert_eq!(
        r,
        Err(DiffDownloadingError::DownloadingError(
            DownloadingError::PathNotMounted("/game".to_string())
        ))
    );
}

#[test]
fn archive_install_runs_to_completion() {
    let (mut inst, _, _) = Installation::begin(&archive_diff()).unwrap();
    let (up, act) = inst.on_space_checked(Some(1000)).unwrap();
    assert_eq!(up, Update::DownloadingStarted);
    assert_eq!(
        act,
        InstallAction::FetchArchive {
            uri: "https://host/update.zip".to_string(),
            destination: "/game/game.zip".to_string(),
            resume: true,
        }
    );
    let (ups, act) = inst.on_fetched(None).unwrap();
    assert!(ups.is_empty());
    assert_eq!(
        act,
        InstallAction::WriteVersionFile {
            path: "/game/.version".to_string(),
            content: b"1.1.0".to_vec(),
        }
    );
    let (up, act) = inst.on_marker_written(false);
    assert_eq!(up, Update::DownloadingFinished);
    assert_eq!(act, InstallAction::Finished);
}

#[test]
fn file_list_install_fetches_each_file_in_order() {
    let (mut inst, _, _) = Installation::begin(&file_list_diff()).unwrap();
    let (_, act) = inst.on_space_checked(Some(600)).unwrap();
    assert_eq!(
        act,
        InstallAction::FetchFile {
            uri: "https://host/tree/a.bin".to_string(),
            destination: "/game/a.bin".to_string(),
        }
    );
    let (ups, act) = inst.on_fetched(None).unwrap();
    assert_eq!(ups, vec![Update::DownloadingProgress(1, 2)]);
    assert_eq!(
        act,
        InstallAction::FetchFile {
            uri: "https://host/tree/sub/b.bin".to_string(),
            destination: "/game/sub/b.bin".to_string(),
        }
    );
    let (ups, act) = inst.on_fetched(None).unwrap();
    assert_eq!(ups, vec![Update::DownloadingProgress(2, 2)]);
    assert_eq!(
        act,
        InstallAction::WriteVersionFile {
            path: "/game/.version".to_string(),
            content: b"2.0.0".to_vec(),
        }
    );
}

#[test]
fn network_failure_aborts_at_once() {
    let (mut inst, _, _) = Installation::begin(&file_list_diff()).unwrap();
    let _ = inst.on_space_checked(Some(600)).unwrap();
    let r = inst.on_fetched(Some("connection reset".to_string()));
    assert_eq!(
        r,
        Err(DiffDownloadingError::DownloadingError(
            DownloadingError::Network("connection reset".to_string())
        ))
    );
}
