use update_core::patch::{
    neutralize_preamble, disable_time_check, parse_player_hashes, select_version_folder,
    script_is_stable, version_from_folder_name, PatchError, PatchFlow, PatchFlowAction,
    PatchFlowEvent, PatchFolderEntry, PatchMode, PatchRegions, PatchStatus, PatchStepOutcome,
    PlayerPatch,
};
use update_core::version::Version;

const STABILITY_MARK: &str = "#echo \"If you would like to test this patch, modify this script and remove the line below this one.\"";

fn branch_line(hash: &str) -> String {
    format!("if [ \"${{sum}}\" == \"{}\" ]; then", hash)
}

fn entry(name: &[u8], is_dir: bool, has_script: bool) -> PatchFolderEntry {
    PatchFolderEntry {
        name: name.to_vec(),
        is_dir,
        has_driver_script: has_script,
    }
}

#[test]
fn one_well_formed_and_one_placeholder_branch_is_global_only() {
    let script = format!(
        "#!/bin/bash\n{}\n{}\n",
        branch_line("8c8c3d845b957e4cb84c662bed44d072"),
        branch_line("<TODO>")
    );
    let r = parse_player_hashes(&script.into_bytes()).unwrap();
    assert_eq!(
        r,
        Some(PatchRegions::Global(
            b"8c8c3d845b957e4cb84c662bed44d072".to_vec()
        ))
    );
}

#[test]
fn two_well_formed_branches_are_both() {
    let script = format!(
        "{}\n{}\n",
        branch_line("8c8c3d845b957e4cb84c662bed44d072"),
        branch_line("ffffffffffffffffffffffffffffffff")
    );
    let r = parse_player_hashes(&script.into_bytes()).unwrap();
    assert_eq!(
        r,
        Some(PatchRegions::Both {
            global: b"8c8c3d845b957e4cb84c662bed44d072".to_vec(),
            china: b"ffffffffffffffffffffffffffffffff".to_vec(),
        })
    );
}

#[test]
fn placeholder_first_branch_is_china_only() {
    let script = format!(
        "{}\n{}\n",
        branch_line("<TODO>"),
        branch_line("ffffffffffffffffffffffffffffffff")
    );
    let r = parse_player_hashes(&script.into_bytes()).unwrap();
    assert_eq!(
        r,
        Some(PatchRegions::China(
            b"ffffffffffffffffffffffffffffffff".to_vec()
        ))
    );
}

#[test]
fn no_branches_means_no_descriptor() {
    let script = b"#!/bin/bash\necho nothing here\n".to_vec();
    assert_eq!(parse_player_hashes(&script), Ok(None));
}

#[test]
fn three_branches_are_a_format_violation() {
    let script = format!(
        "{}\n{}\n{}\n",
        branch_line("8c8c3d845b957e4cb84c662bed44d072"),
        branch_line("ffffffffffffffffffffffffffffffff"),
        branch_line("00000000000000000000000000000000")
    );
    assert_eq!(
        parse_player_hashes(&script.into_bytes()),
        Err(PatchError::FormatViolation)
    );
}

#[test]
fn stability_mark_decides_available_against_testing() {
    let hash = "8c8c3d845b957e4cb84c662bed44d072";
    let stable = format!("{}\n{}\n", STABILITY_MARK, branch_line(hash));
    let testing = format!("{}\n", branch_line(hash));
    assert!(script_is_stable(&stable.clone().into_bytes()));
    assert!(!script_is_stable(&testing.clone().into_bytes()));

    let p = PlayerPatch::classify_script(
        "/mirror/330".to_string(),
        Version::new(3, 3, 0),
        &stable.into_bytes(),
    )
    .unwrap();
    assert!(matches!(p.status, PatchStatus::Available { .. }));
    let p = PlayerPatch::classify_script(
        "/mirror/330".to_string(),
        Version::new(3, 3, 0),
        &testing.into_bytes(),
    )
    .unwrap();
    assert!(matches!(p.status, PatchStatus::Testing { .. }));
}

#[test]
fn empty_branch_list_classifies_as_preparation() {
    let p = PlayerPatch::classify_script(
        "/mirror/330".to_string(),
        Version::new(3, 3, 0),
        &b"#!/bin/bash\n".to_vec(),
    )
    .unwrap();
    assert_eq!(p.status, PatchStatus::Preparation {
        version: Version::new(3, 3, 0)
    });
}

#[test]
fn folder_selection_takes_the_greatest_qualifying_name() {
    let entries = vec![
        entry(b"270", true, true),
        entry(b"330", true, true),
        entry(b"320", true, true),
        entry(b"9999", true, true),
        entry(b"340", false, true),
        entry(b"350", true, false),
    ];
    let i = select_version_folder(&entries).unwrap();
    assert_eq!(entries[i].name, b"330".to_vec());
    assert_eq!(select_version_folder(&Vec::new()), None);
}

#[test]
fn folder_names_decode_to_versions_or_fail_loudly() {
    assert_eq!(
        version_from_folder_name(&b"330".to_vec()),
        Ok(Version::new(3, 3, 0))
    );
    assert_eq!(
        version_from_folder_name(&b"3a0".to_vec()),
        Err(PatchError::FormatViolation)
    );
    assert_eq!(
        version_from_folder_name(&b"33".to_vec()),
        Err(PatchError::FormatViolation)
    );
}

#[test]
fn outdated_folder_resolves_to_outdated() {
    let p = PlayerPatch::from_parts(
        "/mirror".to_string(),
        &b"320".to_vec(),
        Version::new(3, 3, 0),
        &b"".to_vec(),
    )
    .unwrap();
    assert_eq!(p.status, PatchStatus::Outdated {
        current: Version::new(3, 2, 0),
        latest: Version::new(3, 3, 0)
    });
}

#[test]
fn is_applied_compares_the_real_content_hash() {
    // The MD5 of the empty byte string, as lowercase hex.
    let empty_md5 = b"d41d8cd98f00b204e9800998ecf8427e".to_vec();
    let patch = PlayerPatch {
        patch_folder: "/mirror/330".to_string(),
        status: PatchStatus::Available {
            version: Version::new(3, 3, 0),
            player_hash: PatchRegions::Global(empty_md5),
        },
    };
    assert!(patch.is_applied(&Vec::new()));
    assert!(!patch.is_applied(&b"some other binary".to_vec()));
}

#[test]
fn non_actionable_states_report_not_applied_without_hashing() {
    let patch = PlayerPatch {
        patch_folder: "/mirror".to_string(),
        status: PatchStatus::NotAvailable,
    };
    assert!(!patch.is_applied(&Vec::new()));
}

#[test]
fn region_descriptor_matches_either_build() {
    let both = PatchRegions::Both {
        global: b"aa".to_vec(),
        china: b"bb".to_vec(),
    };
    assert!(both.is_applied(&b"aa".to_vec()));
    assert!(both.is_applied(&b"bb".to_vec()));
    assert!(!both.is_applied(&b"cc".to_vec()));
}

#[test]
fn neutralize_comments_out_preamble_guards() {
    let script = b"exit\nread -n 1\necho run\n".to_vec();
    assert_eq!(
        neutralize_preamble(&script),
        b"#exit\n#read -n 1\necho run\n".to_vec()
    );
}

#[test]
fn neutralize_leaves_text_past_the_preamble_untouched() {
    let mut script = vec![b' '; 1200];
    script.extend_from_slice(b"exit\n");
    let out = neutralize_preamble(&script);
    assert_eq!(&out[1200..], b"exit\n");
}

#[test]
fn forced_revert_disables_the_time_check() {
    let script = b"difftime=$(a - b)\n".to_vec();
    assert_eq!(
        disable_time_check(&script),
        b"difftime=0 #difftime=$(a - b)\n".to_vec()
    );
}

#[test]
fn apply_flow_removes_staging_whatever_the_outcome() {
    let patch = PlayerPatch {
        patch_folder: "/mirror".to_string(),
        status: PatchStatus::Available {
            version: Version::new(3, 3, 0),
            player_hash: PatchRegions::Global(b"00000000000000000000000000000000".to_vec()),
        },
    };
    for (stdout, want_ok) in [
        (b"... Patch applied!\n".to_vec(), true),
        (b"something went wrong\n".to_vec(), false),
    ] {
        let mut staging_exists = true;  // stale staging from an earlier run
        let (mut flow, act) = PatchFlow::begin(
            &patch,
            "/game".to_string(),
            "/tmp/.patch-applying".to_string(),
            PatchMode::Apply { elevated: false },
        )
        .unwrap();
        assert_eq!(
            act,
            PatchFlowAction::ClearStaging {
                path: "/tmp/.patch-applying".to_string()
            }
        );
        staging_exists = false;
        let act = match flow.step(PatchFlowEvent::Cleared(None)) {
            PatchStepOutcome::Continue(a) => a,
            other => panic!("unexpected {:?}", other),
        };
        assert_eq!(
            act,
            PatchFlowAction::CreateStaging {
                path: "/tmp/.patch-applying".to_string()
            }
        );
        staging_exists = true;
        let act = match flow.step(PatchFlowEvent::Created(None)) {
            PatchStepOutcome::Continue(a) => a,
            other => panic!("unexpected {:?}", other),
        };
        assert_eq!(
            act,
            PatchFlowAction::CopyContents {
                from: "/mirror/330".to_string(),
                to: "/tmp/.patch-applying".to_string(),
            }
        );
        let act = match flow.step(PatchFlowEvent::Copied(None)) {
            PatchStepOutcome::Continue(a) => a,
            other => panic!("unexpected {:?}", other),
        };
        assert_eq!(
            act,
            PatchFlowAction::ReadScript {
                path: "/tmp/.patch-applying/patch.sh".to_string()
            }
        );
        let act = match flow.step(PatchFlowEvent::ScriptRead(Ok(b"exit\nrun\n".to_vec()))) {
            PatchStepOutcome::Continue(a) => a,
            other => panic!("unexpected {:?}", other),
        };
        assert_eq!(
            act,
            PatchFlowAction::WriteScript {
                path: "/tmp/.patch-applying/patch.sh".to_string(),
                content: b"#exit\nrun\n".to_vec(),
            }
        );
        let act = match flow.step(PatchFlowEvent::Written(None)) {
            PatchStepOutcome::Continue(a) => a,
            other => panic!("unexpected {:?}", other),
        };
        assert_eq!(
            act,
            PatchFlowAction::RunScript {
                script: "/tmp/.patch-applying/patch.sh".to_string(),
                work_dir: "/game".to_string(),
                elevated: false,
                confirm: true,
            }
        );
        let act = match flow.step(PatchFlowEvent::Ran(Ok(stdout))) {
            PatchStepOutcome::Continue(a) => a,
            other => panic!("unexpected {:?}", other),
        };
        // The staging directory is removed before any verdict, success or
        // failure alike.
        assert_eq!(
            act,
            PatchFlowAction::RemoveStaging {
                path: "/tmp/.patch-applying".to_string()
            }
        );
        staging_exists = false;
        match flow.step(PatchFlowEvent::Removed(None)) {
            PatchStepOutcome::Finished(v) => assert_eq!(v.is_ok(), want_ok),
            other => panic!("unexpected {:?}", other),
        }
        assert!(!staging_exists);
    }
}

#[test]
fn apply_on_non_actionable_patch_is_refused() {
    let patch = PlayerPatch {
        patch_folder: "/mirror".to_string(),
        status: PatchStatus::Preparation {
            version: Version::new(3, 3, 0),
        },
    };
    let r = PatchFlow::begin(
        &patch,
        "/game".to_string(),
        "/tmp/.patch-applying".to_string(),
        PatchMode::Apply { elevated: false },
    );
    assert!(matches!(r, Err(PatchError::NotApplicable)));
}

#[test]
fn revert_flow_succeeds_on_clean_output() {
    let patch = PlayerPatch {
        patch_folder: "/mirror".to_string(),
        status: PatchStatus::Testing {
            version: Version::new(3, 3, 0),
            player_hash: PatchRegions::Global(b"00000000000000000000000000000000".to_vec()),
        },
    };
    let (mut flow, _) = PatchFlow::begin(
        &patch,
        "/game".to_string(),
        "/tmp/.patch-applying".to_string(),
        PatchMode::Revert { forced: false },
    )
    .unwrap();
    let _ = flow.step(PatchFlowEvent::Cleared(None));
    let _ = flow.step(PatchFlowEvent::Created(None));
    let act = match flow.step(PatchFlowEvent::Copied(None)) {
        PatchStepOutcome::Continue(a) => a,
        other => panic!("unexpected {:?}", other),
    };
    assert_eq!(
        act,
        PatchFlowAction::ReadScript {
            path: "/tmp/.patch-applying/patch_revert.sh".to_string()
        }
    );
    let _ = flow.step(PatchFlowEvent::ScriptRead(Ok(b"revert\n".to_vec())));
    let _ = flow.step(PatchFlowEvent::Written(None));
    let _ = flow.step(PatchFlowEvent::Ran(Ok(b"done\n".to_vec())));
    match flow.step(PatchFlowEvent::Removed(None)) {
        PatchStepOutcome::Finished(v) => assert!(v.is_ok()),
        other => panic!("unexpected {:?}", other),
    }
}

#[test]
fn revert_output_with_error_marker_fails() {
    let patch = PlayerPatch {
        patch_folder: "/mirror".to_string(),
        status: PatchStatus::Testing {
            version: Version::new(3, 3, 0),
            player_hash: PatchRegions::Global(b"00000000000000000000000000000000".to_vec()),
        },
    };
    let (mut flow, _) = PatchFlow::begin(
        &patch,
        "/game".to_string(),
        "/t".to_string(),
        PatchMode::Revert { forced: false },
    )
    .unwrap();
    let _ = flow.step(PatchFlowEvent::Cleared(None));
    let _ = flow.step(PatchFlowEvent::Created(None));
    let _ = flow.step(PatchFlowEvent::Copied(None));
    let _ = flow.step(PatchFlowEvent::ScriptRead(Ok(b"r\n".to_vec())));
    let _ = flow.step(PatchFlowEvent::Written(None));
    let _ = flow.step(PatchFlowEvent::Ran(Ok(b"ERROR: no backup\n".to_vec())));
    match flow.step(PatchFlowEvent::Removed(None)) {
        PatchStepOutcome::Finished(Err(PatchError::ScriptFailed(out))) => {
            assert_eq!(out, b"ERROR: no backup\n".to_vec())
        }
        other => panic!("unexpected {:?}", other),
    }
}

#[test]
fn copy_failure_still_cleans_staging_before_reporting() {
    let patch = PlayerPatch {
        patch_folder: "/mirror".to_string(),
        status: PatchStatus::Available {
            version: Version::new(3, 3, 0),
            player_hash: PatchRegions::Global(b"00000000000000000000000000000000".to_vec()),
        },
    };
    let (mut flow, _) = PatchFlow::begin(
        &patch,
        "/game".to_string(),
        "/t".to_string(),
        PatchMode::Apply { elevated: true },
    )
    .unwrap();
    let _ = flow.step(PatchFlowEvent::Cleared(None));
    let _ = flow.step(PatchFlowEvent::Created(None));
    let act = match flow.step(PatchFlowEvent::Copied(Some("disk full".to_string()))) {
        PatchStepOutcome::Continue(a) => a,
        other => panic!("unexpected {:?}", other),
    };
    assert_eq!(
        act,
        PatchFlowAction::RemoveStaging {
            path: "/t".to_string()
        }
    );
    match flow.step(PatchFlowEvent::Removed(None)) {
        PatchStepOutcome::Finished(v) => {
            assert_eq!(v, Err(PatchError::Io("disk full".to_string())))
        }
        other => panic!("unexpected {:?}", other),
    }
}
