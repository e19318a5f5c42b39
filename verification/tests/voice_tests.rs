use update_core::manifest::{Manifest, PackageEntry, VoicePackEntry};
use update_core::diff::VersionDiff;
use update_core::version::Version;
use update_core::voice::{SizePolicy, VoiceError, VoiceLocale, VoicePackage};

fn pack(language: &str, uri: &str, size: &str, package_size: &str) -> VoicePackEntry {
    VoicePackEntry {
        language: language.to_string(),
        uri: uri.to_string(),
        size: size.to_string(),
        package_size: package_size.to_string(),
    }
}

fn entry_with_pack(version: Version, size: &str) -> PackageEntry {
    PackageEntry {
        version,
        uri: "https://host/pkg".to_string(),
        size: "1".to_string(),
        package_size: "1".to_string(),
        voice_packs: vec![pack("en-us", "https://host/en.zip", size, "42")],
    }
}

#[test]
fn locale_mappings_are_the_documented_ones() {
    assert_eq!(VoiceLocale::English.to_code(), "en-us");
    assert_eq!(VoiceLocale::English.to_folder(), "English(US)");
    assert_eq!(VoiceLocale::from_str("ja-jp"), Some(VoiceLocale::Japanese));
    assert_eq!(VoiceLocale::from_str("Korean"), Some(VoiceLocale::Korean));
    assert_eq!(VoiceLocale::from_str("zz-zz"), None);
}

#[test]
fn new_reads_the_locale_from_the_final_segment() {
    let p = VoicePackage::new("/g/GenshinImpact_Data/StreamingAssets/AudioAssets/Japanese".to_string());
    match p {
        Some(VoicePackage::Installed { locale, .. }) => {
            assert_eq!(locale, VoiceLocale::Japanese)
        }
        other => panic!("expected Installed, got {:?}", other),
    }
    assert_eq!(VoicePackage::new("/g/somewhere/else".to_string()), None);
}

#[test]
fn size_table_walk_selects_within_tolerance() {
    // The latest pack reports 10 GB; one diff of 1 GB (below the 4 GiB
    // absolute threshold) gives the older version a derived size of 9 GB.
    // A measured 9.4 GB folder is within the 512 MiB band of 9 GB, so the
    // older version wins over the latest.
    let manifest = Manifest {
        latest: entry_with_pack(Version::new(3, 0, 0), "10000000000"),
        diffs: vec![entry_with_pack(Version::new(2, 9, 0), "1000000000")],
        predownload: None,
    };
    let policy = SizePolicy {
        correction: 0,
        absolute_threshold: 4 * 1024 * 1024 * 1024,
        tolerance: 512 * 1024 * 1024,
    };
    let installed = VoicePackage::Installed {
        path: "/g/English(US)".to_string(),
        locale: VoiceLocale::English,
    };
    let v = installed
        .try_get_version(&manifest, 9_400_000_000, &policy)
        .unwrap();
    assert_eq!(v, Version::new(2, 9, 0));
}

#[test]
fn size_close_to_latest_selects_latest() {
    let manifest = Manifest {
        latest: entry_with_pack(Version::new(3, 0, 0), "10000000000"),
        diffs: vec![entry_with_pack(Version::new(2, 9, 0), "1000000000")],
        predownload: None,
    };
    let policy = SizePolicy {
        correction: 0,
        absolute_threshold: 4 * 1024 * 1024 * 1024,
        tolerance: 512 * 1024 * 1024,
    };
    let installed = VoicePackage::Installed {
        path: "/g/English(US)".to_string(),
        locale: VoiceLocale::English,
    };
    let v = installed
        .try_get_version(&manifest, 9_900_000_000, &policy)
        .unwrap();
    assert_eq!(v, Version::new(3, 0, 0));
}

#[test]
fn tiny_measured_size_still_defaults_to_newest_failing_entry() {
    // Nothing matches the tolerance band: the newest version wins by
    // default, the heuristic's accepted imprecision.
    let manifest = Manifest {
        latest: entry_with_pack(Version::new(3, 0, 0), "10000000000"),
        diffs: vec![entry_with_pack(Version::new(2, 9, 0), "9000000000")],
        predownload: None,
    };
    let policy = SizePolicy {
        correction: 0,
        absolute_threshold: 20_000_000_000,
        tolerance: 512 * 1024 * 1024,
    };
    let installed = VoicePackage::Installed {
        path: "/g/English(US)".to_string(),
        locale: VoiceLocale::English,
    };
    let v = installed.try_get_version(&manifest, 10, &policy).unwrap();
    assert_eq!(v, Version::new(3, 0, 0));
}

#[test]
fn not_installed_package_knows_its_version() {
    let p = VoicePackage::NotInstalled {
        locale: VoiceLocale::Korean,
        version: Version::new(2, 8, 0),
        data: pack("ko-kr", "u", "1", "2"),
        game_path: None,
    };
    let manifest = Manifest {
        latest: entry_with_pack(Version::new(3, 0, 0), "1"),
        diffs: Vec::new(),
        predownload: None,
    };
    let policy = SizePolicy::for_locale(VoiceLocale::Korean);
    assert_eq!(
        p.try_get_version(&manifest, 0, &policy),
        Ok(Version::new(2, 8, 0))
    );
}

#[test]
fn with_locale_picks_the_matching_pack() {
    let manifest = Manifest {
        latest: PackageEntry {
            version: Version::new(3, 0, 0),
            uri: "u".to_string(),
            size: "1".to_string(),
            package_size: "1".to_string(),
            voice_packs: vec![
                pack("en-us", "https://host/en.zip", "10", "20"),
                pack("ja-jp", "https://host/ja.zip", "30", "40"),
            ],
        },
        diffs: Vec::new(),
        predownload: None,
    };
    match VoicePackage::with_locale(VoiceLocale::Japanese, &manifest).unwrap() {
        VoicePackage::NotInstalled {
            locale,
            version,
            data,
            game_path,
        } => {
            assert_eq!(locale, VoiceLocale::Japanese);
            assert_eq!(version, Version::new(3, 0, 0));
            assert_eq!(data.uri, "https://host/ja.zip");
            assert_eq!(game_path, None);
        }
        other => panic!("expected NotInstalled, got {:?}", other),
    }
    assert_eq!(
        VoicePackage::with_locale(VoiceLocale::Chinese, &manifest),
        Err(VoiceError::LocaleNotListed)
    );
}

#[test]
fn list_latest_lists_each_pack_and_rejects_unknown_codes() {
    let mut manifest = Manifest {
        latest: PackageEntry {
            version: Version::new(3, 0, 0),
            uri: "u".to_string(),
            size: "1".to_string(),
            package_size: "1".to_string(),
            voice_packs: vec![
                pack("en-us", "a", "1", "2"),
                pack("zh-cn", "b", "3", "4"),
            ],
        },
        diffs: Vec::new(),
        predownload: None,
    };
    let ps = VoicePackage::list_latest(&manifest).unwrap();
    assert_eq!(ps.len(), 2);
    assert_eq!(ps[0].locale(), VoiceLocale::English);
    assert_eq!(ps[1].locale(), VoiceLocale::Chinese);
    assert!(!ps[0].is_installed());

    manifest.latest.voice_packs.push(pack("xx-yy", "c", "5", "6"));
    assert_eq!(
        VoicePackage::list_latest(&manifest),
        Err(VoiceError::UnknownLanguageCode("xx-yy".to_string()))
    );
}

#[test]
fn size_reports_measured_or_declared_sizes() {
    let installed = VoicePackage::Installed {
        path: "/g/English(US)".to_string(),
        locale: VoiceLocale::English,
    };
    assert_eq!(installed.size(Some(123)), Ok((123, None)));
    let remote = VoicePackage::NotInstalled {
        locale: VoiceLocale::English,
        version: Version::new(1, 0, 0),
        data: pack("en-us", "u", "500", "900"),
        game_path: None,
    };
    assert_eq!(remote.size(None), Ok((900, Some(500))));
    let broken = VoicePackage::NotInstalled {
        locale: VoiceLocale::English,
        version: Version::new(1, 0, 0),
        data: pack("en-us", "u", "500", "9x0"),
        game_path: None,
    };
    assert_eq!(
        broken.size(None),
        Err(VoiceError::MalformedSize("9x0".to_string()))
    );
}

#[test]
fn is_installed_in_uses_the_probe_for_remote_packages() {
    let p = VoicePackage::NotInstalled {
        locale: VoiceLocale::English,
        version: Version::new(1, 0, 0),
        data: pack("en-us", "u", "1", "2"),
        game_path: None,
    };
    assert!(!p.is_installed_in(false));
    assert!(p.is_installed_in(true));
    let q = VoicePackage::Installed {
        path: "/x/English(US)".to_string(),
        locale: VoiceLocale::English,
    };
    assert!(q.is_installed_in(false));
}

#[test]
fn delete_plan_derives_the_game_root() {
    let p = VoicePackage::Installed {
        path: "/games/a/GenshinImpact_Data/StreamingAssets/AudioAssets/English(US)".to_string(),
        locale: VoiceLocale::English,
    };
    let plan = p.delete().unwrap();
    assert_eq!(
        plan.package_dir,
        "/games/a/GenshinImpact_Data/StreamingAssets/AudioAssets/English(US)"
    );
    assert_eq!(plan.marker_file, "/games/a/Audio_English(US)_pkg_version");
}

#[test]
fn delete_without_game_path_is_refused() {
    let p = VoicePackage::NotInstalled {
        locale: VoiceLocale::English,
        version: Version::new(1, 0, 0),
        data: pack("en-us", "u", "1", "2"),
        game_path: None,
    };
    assert_eq!(p.delete(), Err(VoiceError::GamePathUnknown));
}

#[test]
fn voice_diff_for_installed_package_uses_its_current_version() {
    let manifest = Manifest {
        latest: entry_with_pack(Version::new(3, 0, 0), "100"),
        diffs: vec![PackageEntry {
            version: Version::new(2, 9, 0),
            uri: "u".to_string(),
            size: "1".to_string(),
            package_size: "1".to_string(),
            voice_packs: vec![pack("en-us", "https://host/en-diff.zip", "55", "66")],
        }],
        predownload: None,
    };
    let p = VoicePackage::Installed {
        path: "/g/English(US)".to_string(),
        locale: VoiceLocale::English,
    };
    match p
        .try_get_diff(&manifest, Some(Version::new(2, 9, 0)))
        .unwrap()
    {
        VersionDiff::Diff {
            current,
            latest,
            uri,
            downloaded_size,
            unpacked_size,
            installation_path,
            ..
        } => {
            assert_eq!(current, Version::new(2, 9, 0));
            assert_eq!(latest, Version::new(3, 0, 0));
            assert_eq!(uri, "https://host/en-diff.zip");
            assert_eq!(downloaded_size, 55);
            assert_eq!(unpacked_size, 66);
            assert_eq!(installation_path, None);
        }
        other => panic!("expected Diff, got {:?}", other),
    }
    assert_eq!(
        p.try_get_diff(&manifest, Some(Version::new(3, 0, 0))),
        Ok(VersionDiff::Latest {
            version: Version::new(3, 0, 0)
        })
    );
    assert_eq!(
        p.try_get_diff(&manifest, Some(Version::new(1, 0, 0))),
        Ok(VersionDiff::Outdated {
            current: Version::new(1, 0, 0),
            latest: Version::new(3, 0, 0)
        })
    );
}

#[test]
fn voice_diff_for_remote_package_is_not_installed() {
    let manifest = Manifest {
        latest: entry_with_pack(Version::new(3, 0, 0), "100"),
        diffs: Vec::new(),
        predownload: None,
    };
    let p = VoicePackage::NotInstalled {
        locale: VoiceLocale::English,
        version: Version::new(3, 0, 0),
        data: pack("en-us", "u", "1", "2"),
        game_path: Some("/g".to_string()),
    };
    match p.try_get_diff(&manifest, None).unwrap() {
        VersionDiff::NotInstalled {
            latest,
            uri,
            downloaded_size,
            unpacked_size,
            installation_path,
            ..
        } => {
            assert_eq!(latest, Version::new(3, 0, 0));
            assert_eq!(uri, "https://host/en.zip");
            assert_eq!(downloaded_size, 100);
            assert_eq!(unpacked_size, 42);
            assert_eq!(installation_path, Some("/g".to_string()));
        }
        other => panic!("expected NotInstalled, got {:?}", other),
    }
}
