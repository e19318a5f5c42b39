use update_core::game::{Game, ScanError};
use update_core::scan::{scan_version, ScanProfile};
use update_core::version::Version;

fn ampersand_profile() -> ScanProfile {
    ScanProfile {
        skip: 0,
        window: None,
        terminator: 0x26,
    }
}

#[test]
fn well_formed_pattern_after_noise_is_found() {
    let mut data: Vec<u8> = vec![0xde, 0xad, 0xbe, 0xef, 0x00];
    data.extend_from_slice(b"4.16.9&");
    data.extend_from_slice(b"trailing");
    assert_eq!(
        scan_version(&data, &ampersand_profile()),
        Some(Version::new(4, 16, 9))
    );
}

#[test]
fn cursor_overflow_poisons_the_run_and_scanning_continues() {
    // More than two dots before the terminator: that run yields nothing.
    let data = b"1.2.3.4&".to_vec();
    assert_eq!(scan_version(&data, &ampersand_profile()), None);

    // After the poisoned run the scanner resets and can still find a
    // later well-formed pattern.
    let mut data = b"1.2.3.4&".to_vec();
    data.extend_from_slice(b"7.8.9&");
    assert_eq!(
        scan_version(&data, &ampersand_profile()),
        Some(Version::new(7, 8, 9))
    );
}

#[test]
fn noise_byte_inside_run_poisons_it() {
    let data = b"1.2x.3&2.0.1&".to_vec();
    assert_eq!(
        scan_version(&data, &ampersand_profile()),
        Some(Version::new(2, 0, 1))
    );
}

#[test]
fn zero_byte_resets_a_poisoned_run() {
    let mut data = b"junk".to_vec();
    data.push(0);
    data.extend_from_slice(b"3.3.0&");
    assert_eq!(
        scan_version(&data, &ampersand_profile()),
        Some(Version::new(3, 3, 0))
    );
}

#[test]
fn zero_terminator_closes_the_run() {
    let mut data = b"2.8.54".to_vec();
    data.push(0);
    let profile = ScanProfile {
        skip: 0,
        window: None,
        terminator: 0,
    };
    assert_eq!(scan_version(&data, &profile), Some(Version::new(2, 8, 54)));
}

#[test]
fn missing_terminator_finds_nothing() {
    let data = b"1.2.3".to_vec();
    assert_eq!(scan_version(&data, &ampersand_profile()), None);
}

#[test]
fn skip_and_window_bound_the_scan() {
    let mut data = b"9.9.9&".to_vec();
    data.extend_from_slice(b"1.2.3&");
    // Skipping past the first pattern finds only the second.
    let profile = ScanProfile {
        skip: 6,
        window: None,
        terminator: 0x26,
    };
    assert_eq!(scan_version(&data, &profile), Some(Version::new(1, 2, 3)));
    // A window that ends before any terminator finds nothing.
    let profile = ScanProfile {
        skip: 0,
        window: Some(5),
        terminator: 0x26,
    };
    assert_eq!(scan_version(&data, &profile), None);
}

#[test]
fn game_version_extraction_reports_not_found() {
    let game = Game::new("/games/a".to_string());
    assert_eq!(game.path(), "/games/a");
    assert_eq!(
        game.try_get_version(&b"no version here".to_vec(), &ampersand_profile()),
        Err(ScanError::NotFound)
    );
    assert_eq!(
        game.try_get_version(&b"1.2.3&".to_vec(), &ampersand_profile()),
        Ok(Version::new(1, 2, 3))
    );
}

#[test]
fn component_over_255_rejects_the_run() {
    let data = b"300.1.2&1.1.1&".to_vec();
    assert_eq!(
        scan_version(&data, &ampersand_profile()),
        Some(Version::new(1, 1, 1))
    );
}
