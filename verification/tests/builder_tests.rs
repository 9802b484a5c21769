use onerom_builder::builder::{Builder, FileData, License};
use onerom_builder::config::{
    Config, FileConfig, FirmwareProperties, FwVersion, ServeAlg, SetConfig, SetType,
};
use onerom_builder::image::BuildError;
use onerom_builder::model::{FileError, LicenseError, SetViolationKind};
use onerom_builder::SizeHandling;

fn file_cfg(rom_type: &str, license_url: Option<&str>) -> FileConfig {
    FileConfig {
        source: "https://example/rom.bin".to_string(),
        extract: None,
        size_handling: SizeHandling::Exact,
        rom_type: rom_type.to_string(),
        description: None,
        cs1: Some("a13".to_string()),
        cs2: None,
        cs3: None,
        license_url: license_url.map(|s| s.to_string()),
    }
}

/// One banked set of two 23512 images (65536 bytes each), the first behind a
/// license.
fn scenario_config() -> Config {
    Config {
        description: "two-bank image".to_string(),
        categories: vec!["test".to_string()],
        board: Some("fire-24-d".to_string()),
        sets: vec![SetConfig {
            set_type: SetType::Banked,
            set_description: Some("bank pair".to_string()),
            files: vec![
                file_cfg("23512", Some("https://example/license")),
                file_cfg("23512", None),
            ],
        }],
    }
}

fn props() -> FirmwareProperties {
    FirmwareProperties {
        version: FwVersion { major: 1, minor: 2, patch: 3, build: 4 },
        board: "fire-24-d".to_string(),
        serve_alg: ServeAlg::Default,
        boot_logging: false,
    }
}

fn license0() -> License {
    License { id: 0, file_id: 0, url: "https://example/license".to_string() }
}

#[test]
fn file_specs_are_resolved_in_order() {
    let b = Builder::from_config(scenario_config()).unwrap();
    let specs = b.file_specs();
    assert_eq!(specs.len(), 2);
    assert_eq!(specs[0].id, 0);
    assert_eq!(specs[1].id, 1);
    assert_eq!(specs[0].set_id, 0);
    assert_eq!(specs[1].set_id, 0);
    assert_eq!(specs[0].rom_size, 65536);
    assert_eq!(specs[1].rom_size, 65536);
    assert_eq!(specs[0].source, "https://example/rom.bin");
}

#[test]
fn file_specs_are_stable_across_calls() {
    let b = Builder::from_config(scenario_config()).unwrap();
    let a = b.file_specs();
    let c = b.file_specs();
    assert_eq!(a.len(), c.len());
    for (x, y) in a.iter().zip(c.iter()) {
        assert_eq!(x.id, y.id);
        assert_eq!(x.source, y.source);
        assert_eq!(x.rom_size, y.rom_size);
    }
}

#[test]
fn licenses_reflect_configuration() {
    let b = Builder::from_config(scenario_config()).unwrap();
    let lics = b.licenses();
    assert_eq!(lics.len(), 1);
    assert_eq!(lics[0].id, 0);
    assert_eq!(lics[0].file_id, 0);
    assert_eq!(lics[0].url, "https://example/license");
    assert!(!lics[0].accepted);
}

#[test]
fn accept_license_marks_accepted_and_is_idempotent() {
    let mut b = Builder::from_config(scenario_config()).unwrap();
    assert!(b.accept_license(&license0()).is_ok());
    assert!(b.licenses()[0].accepted);
    // Accepting again succeeds with no change.
    assert!(b.accept_license(&license0()).is_ok());
    assert!(b.licenses()[0].accepted);
    assert_eq!(b.licenses().len(), 1);
}

#[test]
fn accept_license_unknown_id_fails() {
    let mut b = Builder::from_config(scenario_config()).unwrap();
    let r = b.accept_license(&License { id: 99, file_id: 0, url: "x".to_string() });
    assert_eq!(r, Err(LicenseError::UnknownLicense));
    assert!(!b.licenses()[0].accepted);
}

#[test]
fn accept_license_mismatched_fields_fail() {
    let mut b = Builder::from_config(scenario_config()).unwrap();
    let r = b.accept_license(&License {
        id: 0,
        file_id: 0,
        url: "https://example/other".to_string(),
    });
    assert_eq!(r, Err(LicenseError::LicenseMismatch));
    let r = b.accept_license(&License {
        id: 0,
        file_id: 1,
        url: "https://example/license".to_string(),
    });
    assert_eq!(r, Err(LicenseError::LicenseMismatch));
    assert!(!b.licenses()[0].accepted);
}

#[test]
fn add_file_unknown_id_fails() {
    let mut b = Builder::from_config(scenario_config()).unwrap();
    let r = b.add_file(FileData { id: 99, data: vec![0u8; 65536] });
    assert_eq!(r, Err(FileError::UnknownFileId));
}

#[test]
fn add_file_exact_rejects_wrong_length() {
    let mut b = Builder::from_config(scenario_config()).unwrap();
    let r = b.add_file(FileData { id: 0, data: vec![0u8; 65535] });
    assert_eq!(r, Err(FileError::SizeMismatch));
    let r = b.add_file(FileData { id: 0, data: vec![0u8; 65537] });
    assert_eq!(r, Err(FileError::SizeMismatch));
    let r = b.add_file(FileData { id: 0, data: vec![0u8; 65536] });
    assert!(r.is_ok());
}

#[test]
fn validation_before_anything_lists_every_miss() {
    let b = Builder::from_config(scenario_config()).unwrap();
    let f = b.build_validation(&props()).unwrap_err();
    assert!(!f.unknown_board);
    assert_eq!(f.missing_licenses, vec![0]);
    assert_eq!(f.missing_files, vec![0, 1]);
    assert!(f.set_violations.is_empty());
}

#[test]
fn build_before_anything_fails_with_validation_failure() {
    let b = Builder::from_config(scenario_config()).unwrap();
    match b.build(&props()) {
        Err(BuildError::Validation(f)) => {
            assert_eq!(f.missing_licenses, vec![0]);
            assert_eq!(f.missing_files, vec![0, 1]);
        },
        _ => panic!("expected a validation failure"),
    }
}

#[test]
fn end_to_end_build() {
    let mut b = Builder::from_config(scenario_config()).unwrap();
    b.accept_license(&license0()).unwrap();
    b.add_file(FileData { id: 0, data: vec![0xAAu8; 65536] }).unwrap();
    b.add_file(FileData { id: 1, data: vec![0xBBu8; 65536] }).unwrap();
    assert!(b.build_validation(&props()).is_ok());
    let images = b.build(&props()).unwrap();
    let fw = images.firmware_images();
    // Header: magic, format version, metadata version, firmware version,
    // board, serving, logging, reserved, file count, set count.
    assert_eq!(&fw[0..4], b"OROM");
    assert_eq!(fw.len(), 24 + 2 * 65536);
    assert_eq!(&fw[20..22], &[2, 0]); // two files
    assert_eq!(&fw[22..24], &[1, 0]); // one set
    // Both payloads, in specification order.
    assert!(fw[24..24 + 65536].iter().all(|&x| x == 0xAA));
    assert!(fw[24 + 65536..].iter().all(|&x| x == 0xBB));
    let md = images.metadata();
    assert_eq!(&md[0..4], b"OMET");
    // magic(4) version tag(2) fw version(8) board(8+9) serve(1) logging(1)
    let off = 4 + 2 + 8 + 8 + 9 + 1 + 1;
    assert_eq!(&md[off..off + 2], &[2, 0]); // two files enumerated
    assert_eq!(&md[off + 2..off + 4], &[1, 0]); // one set enumerated
}

#[test]
fn build_is_deterministic() {
    let mut b = Builder::from_config(scenario_config()).unwrap();
    b.accept_license(&license0()).unwrap();
    b.add_file(FileData { id: 0, data: vec![1u8; 65536] }).unwrap();
    b.add_file(FileData { id: 1, data: vec![2u8; 65536] }).unwrap();
    let first = b.build(&props()).unwrap();
    let second = b.build(&props()).unwrap();
    assert_eq!(first.firmware_images(), second.firmware_images());
    assert_eq!(first.metadata(), second.metadata());
}

#[test]
fn add_file_replaces_prior_bytes() {
    let mut b = Builder::from_config(scenario_config()).unwrap();
    b.accept_license(&license0()).unwrap();
    b.add_file(FileData { id: 0, data: vec![1u8; 65536] }).unwrap();
    b.add_file(FileData { id: 1, data: vec![2u8; 65536] }).unwrap();
    // Re-adding identical bytes changes nothing.
    let before = b.build(&props()).unwrap();
    b.add_file(FileData { id: 0, data: vec![1u8; 65536] }).unwrap();
    let after = b.build(&props()).unwrap();
    assert_eq!(before.firmware_images(), after.firmware_images());
    // Different bytes replace the prior value entirely.
    b.add_file(FileData { id: 0, data: vec![9u8; 65536] }).unwrap();
    let replaced = b.build(&props()).unwrap();
    let fw = replaced.firmware_images();
    assert!(fw[24..24 + 65536].iter().all(|&x| x == 9));
}

#[test]
fn validation_matches_expected_over_all_combinations() {
    // For each combination of (license accepted, file 0 added, file 1 added),
    // validation succeeds exactly when all three hold.
    for mask in 0..8u32 {
        let accept = mask & 1 != 0;
        let add0 = mask & 2 != 0;
        let add1 = mask & 4 != 0;
        let mut b = Builder::from_config(scenario_config()).unwrap();
        if accept {
            b.accept_license(&license0()).unwrap();
        }
        if add0 {
            b.add_file(FileData { id: 0, data: vec![0u8; 65536] }).unwrap();
        }
        if add1 {
            b.add_file(FileData { id: 1, data: vec![0u8; 65536] }).unwrap();
        }
        let expected = accept && add0 && add1;
        assert_eq!(b.build_validation(&props()).is_ok(), expected);
        assert_eq!(b.build(&props()).is_ok(), expected);
    }
}

#[test]
fn validation_reports_unknown_board() {
    let b = Builder::from_config(scenario_config()).unwrap();
    let mut p = props();
    p.board = "no-such-board".to_string();
    let f = b.build_validation(&p).unwrap_err();
    assert!(f.unknown_board);
}

#[test]
fn single_set_with_two_members_is_a_violation() {
    let mut cfg = scenario_config();
    cfg.sets[0].set_type = SetType::Single;
    let mut b = Builder::from_config(cfg).unwrap();
    b.accept_license(&license0()).unwrap();
    b.add_file(FileData { id: 0, data: vec![0u8; 65536] }).unwrap();
    b.add_file(FileData { id: 1, data: vec![0u8; 65536] }).unwrap();
    let f = b.build_validation(&props()).unwrap_err();
    assert_eq!(f.set_violations.len(), 1);
    assert_eq!(f.set_violations[0].set_id, 0);
    assert_eq!(f.set_violations[0].kind, SetViolationKind::WrongMemberCount);
}

#[test]
fn banked_set_without_chip_select_is_a_violation() {
    let mut cfg = scenario_config();
    cfg.sets[0].files[1].cs1 = None;
    let b = Builder::from_config(cfg).unwrap();
    let f = b.build_validation(&props()).unwrap_err();
    assert!(f
        .set_violations
        .iter()
        .any(|v| v.kind == SetViolationKind::MissingChipSelect && v.set_id == 0));
}

#[test]
fn multi_rom_set_needs_a_capable_board() {
    let mut cfg = scenario_config();
    cfg.sets[0].set_type = SetType::MultiRom;
    cfg.board = None;
    let mut b = Builder::from_config(cfg).unwrap();
    b.accept_license(&license0()).unwrap();
    b.add_file(FileData { id: 0, data: vec![0u8; 65536] }).unwrap();
    b.add_file(FileData { id: 1, data: vec![0u8; 65536] }).unwrap();
    let mut p = props();
    p.board = "air-24-a".to_string();
    let f = b.build_validation(&p).unwrap_err();
    assert_eq!(f.set_violations.len(), 1);
    assert_eq!(f.set_violations[0].kind, SetViolationKind::BoardLacksMultiRomSets);
    // The same set on a capable board validates.
    assert!(b.build_validation(&props()).is_ok());
}

#[test]
fn description_and_categories_pass_through() {
    let b = Builder::from_config(scenario_config()).unwrap();
    assert_eq!(b.description(), "two-bank image");
    assert_eq!(b.categories(), vec!["test".to_string()]);
}

#[test]
fn mutations_commute() {
    let mut a = Builder::from_config(scenario_config()).unwrap();
    a.accept_license(&license0()).unwrap();
    a.add_file(FileData { id: 0, data: vec![7u8; 65536] }).unwrap();
    a.add_file(FileData { id: 1, data: vec![8u8; 65536] }).unwrap();
    let mut b = Builder::from_config(scenario_config()).unwrap();
    b.add_file(FileData { id: 1, data: vec![8u8; 65536] }).unwrap();
    b.add_file(FileData { id: 0, data: vec![7u8; 65536] }).unwrap();
    b.accept_license(&license0()).unwrap();
    let ia = a.build(&props()).unwrap();
    let ib = b.build(&props()).unwrap();
    assert_eq!(ia.firmware_images(), ib.firmware_images());
    assert_eq!(ia.metadata(), ib.metadata());
}
