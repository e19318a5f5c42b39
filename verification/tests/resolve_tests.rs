use update_core::diff::{resolve, DiffDownloadingError, VersionDiff};
use update_core::game::Game;
use update_core::manifest::{Manifest, ManifestError, PackageEntry, PredownloadInfo};
use update_core::version::Version;

fn entry(version: Version, uri: &str, size: &str, package_size: &str) -> PackageEntry {
    PackageEntry {
        version,
        uri: uri.to_string(),
        size: size.to_string(),
        package_size: package_size.to_string(),
        voice_packs: Vec::new(),
    }
}

fn sample_manifest() -> Manifest {
    Manifest {
        latest: entry(Version::new(3, 3, 0), "https://host/full.zip", "1000", "700"),
        diffs: vec![
            entry(Version::new(3, 2, 0), "https://host/d32.zip", "300", "200"),
            entry(Version::new(3, 1, 0), "https://host/d31.zip", "600", "400"),
        ],
        predownload: None,
    }
}

#[test]
fn absent_local_version_is_not_installed() {
    let r = resolve(None, &sample_manifest(), Some("/games/a".to_string()), None).unwrap();
    match r {
        VersionDiff::NotInstalled {
            latest,
            uri,
            downloaded_size,
            unpacked_size,
            files,
            installation_path,
            version_file_path,
            temp_folder,
        } => {
            assert_eq!(latest, Version::new(3, 3, 0));
            assert_eq!(uri, "https://host/full.zip");
            assert_eq!(downloaded_size, 700);
            assert_eq!(unpacked_size, 1000);
            assert!(files.is_empty());
            assert_eq!(installation_path, Some("/games/a".to_string()));
            assert_eq!(version_file_path, None);
            assert_eq!(temp_folder, None);
        }
        other => panic!("expected NotInstalled, got {:?}", other),
    }
}

#[test]
fn latest_without_predownload_is_latest() {
    let r = resolve(Some(Version::new(3, 3, 0)), &sample_manifest(), None, None).unwrap();
    assert_eq!(
        r,
        VersionDiff::Latest {
            version: Version::new(3, 3, 0)
        }
    );
}

#[test]
fn version_listed_in_diffs_resolves_to_diff() {
    let r = resolve(Some(Version::new(3, 1, 0)), &sample_manifest(), None, None).unwrap();
    match r {
        VersionDiff::Diff {
            current,
            latest,
            uri,
            downloaded_size,
            unpacked_size,
            ..
        } => {
            assert_eq!(current, Version::new(3, 1, 0));
            assert_eq!(latest, Version::new(3, 3, 0));
            assert_eq!(uri, "https://host/d31.zip");
            assert_eq!(downloaded_size, 400);
            assert_eq!(unpacked_size, 600);
        }
        other => panic!("expected Diff, got {:?}", other),
    }
}

#[test]
fn unlisted_version_is_outdated() {
    let r = resolve(Some(Version::new(2, 0, 0)), &sample_manifest(), None, None).unwrap();
    assert_eq!(
        r,
        VersionDiff::Outdated {
            current: Version::new(2, 0, 0),
            latest: Version::new(3, 3, 0)
        }
    );
}

#[test]
fn latest_with_matching_predownload_entry_is_predownload() {
    let mut m = sample_manifest();
    m.predownload = Some(PredownloadInfo {
        latest: Version::new(3, 4, 0),
        diffs: vec![entry(
            Version::new(3, 3, 0),
            "https://host/pre.zip",
            "900",
            "500",
        )],
    });
    let r = resolve(Some(Version::new(3, 3, 0)), &m, None, None).unwrap();
    match r {
        VersionDiff::Predownload {
            current,
            latest,
            uri,
            downloaded_size,
            unpacked_size,
            ..
        } => {
            assert_eq!(current, Version::new(3, 3, 0));
            assert_eq!(latest, Version::new(3, 4, 0));
            assert_eq!(uri, "https://host/pre.zip");
            assert_eq!(downloaded_size, 500);
            assert_eq!(unpacked_size, 900);
        }
        other => panic!("expected Predownload, got {:?}", other),
    }
}

#[test]
fn malformed_size_is_a_hard_error() {
    let mut m = sample_manifest();
    m.latest.package_size = "12g7".to_string();
    let r = resolve(None, &m, None, None);
    assert_eq!(r, Err(ManifestError::MalformedSize("12g7".to_string())));
}

#[test]
fn game_try_get_diff_installs_into_its_path() {
    let game = Game::new("/games/a".to_string());
    let r = game.try_get_diff(&sample_manifest(), None).unwrap();
    match r {
        VersionDiff::NotInstalled {
            installation_path, ..
        } => assert_eq!(installation_path, Some("/games/a".to_string())),
        other => panic!("expected NotInstalled, got {:?}", other),
    }
}

#[test]
fn download_plans_point_at_game_zip() {
    let d = resolve(None, &sample_manifest(), Some("/dest".to_string()), None).unwrap();
    let task = d.download().unwrap();
    assert_eq!(task.uri, "https://host/full.zip");
    assert_eq!(task.destination, "/dest/game.zip");
    let to = d.download_to("/tmp/x.zip".to_string()).unwrap();
    assert_eq!(to.destination, "/tmp/x.zip");
}

#[test]
fn download_refuses_non_actionable_diffs() {
    let latest = VersionDiff::Latest {
        version: Version::new(1, 0, 0),
    };
    assert_eq!(latest.download(), Err(DiffDownloadingError::AlreadyLatest));
    let outdated = VersionDiff::Outdated {
        current: Version::new(1, 0, 0),
        latest: Version::new(2, 0, 0),
    };
    assert_eq!(outdated.download(), Err(DiffDownloadingError::NotActionable));
}

#[test]
fn download_without_installation_path_is_refused() {
    let d = resolve(None, &sample_manifest(), None, None).unwrap();
    assert_eq!(d.download(), Err(DiffDownloadingError::PathNotSpecified));
}

#[test]
fn getters_report_the_resolved_fields() {
    let d = resolve(
        Some(Version::new(3, 2, 0)),
        &sample_manifest(),
        Some("/g".to_string()),
        Some("/g/.version".to_string()),
    )
    .unwrap();
    assert_eq!(d.current(), Some(Version::new(3, 2, 0)));
    assert_eq!(d.latest(), Version::new(3, 3, 0));
    assert_eq!(d.downloaded_size(), Some(200));
    assert_eq!(d.unpacked_size(), Some(300));
    assert_eq!(d.downloading_uri(), Some("https://host/d32.zip".to_string()));
    assert_eq!(d.installation_path(), Some("/g".to_string()));
    assert_eq!(d.version_file_path(), Some("/g/.version".to_string()));
    assert_eq!(d.files(), Some(Vec::new()));
}
