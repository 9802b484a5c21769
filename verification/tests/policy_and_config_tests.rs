use onerom_builder::builder::Builder;
use onerom_builder::config::{Config, ConfigError, FileConfig, SetConfig, SetType};
use onerom_builder::policy::apply_size_handling;
use onerom_builder::SizeHandling;

fn file_cfg(rom_type: &str, size_handling: SizeHandling) -> FileConfig {
    FileConfig {
        source: "local".to_string(),
        extract: None,
        size_handling,
        rom_type: rom_type.to_string(),
        description: None,
        cs1: Some("a13".to_string()),
        cs2: None,
        cs3: None,
        license_url: None,
    }
}

#[test]
fn pad_to_size_round_trip() {
    // Input of exactly the expected size is stored unchanged.
    let exact = apply_size_handling(SizeHandling::PadToSize, vec![5u8; 16], 16).unwrap();
    assert_eq!(exact, vec![5u8; 16]);
    // Shorter input is zero-padded to exactly the expected size.
    let padded = apply_size_handling(SizeHandling::PadToSize, vec![5u8, 6u8], 5).unwrap();
    assert_eq!(padded, vec![5u8, 6u8, 0u8, 0u8, 0u8]);
    // Longer input is rejected.
    assert!(apply_size_handling(SizeHandling::PadToSize, vec![5u8; 17], 16).is_none());
}

#[test]
fn exact_policy() {
    assert_eq!(apply_size_handling(SizeHandling::Exact, vec![1u8; 4], 4), Some(vec![1u8; 4]));
    assert!(apply_size_handling(SizeHandling::Exact, vec![1u8; 3], 4).is_none());
    assert!(apply_size_handling(SizeHandling::Exact, vec![1u8; 5], 4).is_none());
}

#[test]
fn truncate_policy() {
    let truncated = apply_size_handling(SizeHandling::TruncateToSize, vec![1, 2, 3, 4], 2).unwrap();
    assert_eq!(truncated, vec![1, 2]);
    assert_eq!(
        apply_size_handling(SizeHandling::TruncateToSize, vec![1, 2], 2),
        Some(vec![1, 2])
    );
    assert!(apply_size_handling(SizeHandling::TruncateToSize, vec![1], 2).is_none());
}

#[test]
fn construction_rejects_unknown_board() {
    let cfg = Config {
        description: String::new(),
        categories: vec![],
        board: Some("atlantis-24".to_string()),
        sets: vec![SetConfig {
            set_type: SetType::Single,
            set_description: None,
            files: vec![file_cfg("2364", SizeHandling::Exact)],
        }],
    };
    match Builder::from_config(cfg) {
        Err(ConfigError::UnknownBoard { name }) => assert_eq!(name, "atlantis-24"),
        _ => panic!("expected an unknown-board error"),
    }
}

#[test]
fn construction_rejects_unknown_rom_type() {
    let cfg = Config {
        description: String::new(),
        categories: vec![],
        board: None,
        sets: vec![SetConfig {
            set_type: SetType::Single,
            set_description: None,
            files: vec![file_cfg("9999", SizeHandling::Exact)],
        }],
    };
    match Builder::from_config(cfg) {
        Err(ConfigError::UnknownRomType { name }) => assert_eq!(name, "9999"),
        _ => panic!("expected an unknown-ROM-type error"),
    }
}

#[test]
fn construction_rejects_empty_set() {
    let cfg = Config {
        description: String::new(),
        categories: vec![],
        board: None,
        sets: vec![
            SetConfig {
                set_type: SetType::Single,
                set_description: None,
                files: vec![file_cfg("2364", SizeHandling::Exact)],
            },
            SetConfig { set_type: SetType::Single, set_description: None, files: vec![] },
        ],
    };
    match Builder::from_config(cfg) {
        Err(ConfigError::EmptySet { set_index }) => assert_eq!(set_index, 1),
        _ => panic!("expected an empty-set error"),
    }
}

#[test]
fn construction_rejects_too_many_files() {
    let mut files = Vec::new();
    for _ in 0..65536 + 1 {
        files.push(file_cfg("2316", SizeHandling::Exact));
    }
    let cfg = Config {
        description: String::new(),
        categories: vec![],
        board: None,
        sets: vec![SetConfig { set_type: SetType::Banked, set_description: None, files }],
    };
    match Builder::from_config(cfg) {
        Err(ConfigError::TooManyFiles) => {},
        _ => panic!("expected a too-many-files error"),
    }
}

#[test]
fn construction_resolves_rom_sizes_from_the_catalog() {
    let cfg = Config {
        description: String::new(),
        categories: vec![],
        board: None,
        sets: vec![
            SetConfig {
                set_type: SetType::Single,
                set_description: None,
                files: vec![file_cfg("2316", SizeHandling::Exact)],
            },
            SetConfig {
                set_type: SetType::Single,
                set_description: None,
                files: vec![file_cfg("23256", SizeHandling::Exact)],
            },
        ],
    };
    let b = Builder::from_config(cfg).unwrap();
    let specs = b.file_specs();
    assert_eq!(specs[0].rom_size, 2048);
    assert_eq!(specs[1].rom_size, 32768);
    assert_eq!(specs[0].set_id, 0);
    assert_eq!(specs[1].set_id, 1);
}
