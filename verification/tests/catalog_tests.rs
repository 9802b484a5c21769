use onerom_builder::catalog_info::{
    board_info, boards, mcu_chip_id, mcu_flash_base, mcu_info, mcus, rom_type_info, rom_types,
    CatalogError,
};
use onerom_builder::names::{boards_for_mcu_family, format_board_name, mcus_for_mcu_family};

#[test]
fn catalog_enumerations() {
    assert_eq!(mcus().len(), 4);
    assert_eq!(rom_types(), vec!["2316", "2332", "2364", "23128", "23256", "23512"]);
    let b = boards().unwrap();
    assert!(b.contains(&"fire-24-d".to_string()));
    assert!(b.contains(&"ice-24-g".to_string()));
}

#[test]
fn rom_type_details() {
    let info = rom_type_info("2364".to_string()).unwrap();
    assert_eq!(info.name, "2364");
    assert_eq!(info.size_bytes, 8192);
    assert_eq!(info.rom_pins, 24);
    assert_eq!(info.num_addr_lines, 13);
    assert_eq!(rom_type_info("9999".to_string()).unwrap_err(), CatalogError::UnknownRomType);
}

#[test]
fn mcu_details() {
    let info = mcu_info("stm32f411re".to_string()).unwrap();
    assert_eq!(info.family, "stm32f4");
    assert_eq!(info.flash_kb, 512);
    assert_eq!(info.ram_kb, 128);
    assert_eq!(info.ccm_ram_kb, None);
    assert_eq!(info.max_sysclk_mhz, 100);
    assert!(!info.supports_multi_rom_sets);
    assert_eq!(mcu_info("z80".to_string()).unwrap_err(), CatalogError::UnknownMcuVariant);
}

#[test]
fn board_details() {
    let info = board_info("air-24-a".to_string()).unwrap();
    assert_eq!(info.mcu_family, "stm32f4");
    assert_eq!(info.rom_pins, 24);
    assert!(!info.supports_multi_rom_sets);
    assert!(!info.has_usb);
    assert_eq!(board_info("none".to_string()).unwrap_err(), CatalogError::UnknownBoard);
}

#[test]
fn flash_base_and_chip_id() {
    assert_eq!(mcu_flash_base("stm32f4").unwrap(), 0x0800_0000);
    assert_eq!(mcu_flash_base("rp2350").unwrap(), 0x1000_0000);
    assert_eq!(mcu_flash_base("m68k").unwrap_err(), CatalogError::UnknownMcuFamily);
    assert_eq!(mcu_chip_id("stm32f446re".to_string()).unwrap(), "STM32F446RETx");
}

#[test]
fn board_name_formatting() {
    assert_eq!(format_board_name("ice-24-g"), "Ice 24 G");
    assert_eq!(format_board_name("fire-24-usb"), "Fire 24 USB");
    assert_eq!(format_board_name("usb-24"), "USB 24");
    assert_eq!(format_board_name(""), "");
    assert_eq!(format_board_name("plain"), "Plain");
}

#[test]
fn family_enumerations() {
    let boards = boards_for_mcu_family("stm32f4".to_string()).unwrap();
    assert_eq!(boards.len(), 4);
    assert_eq!(boards[0].value(), "fire-24-d");
    assert_eq!(boards[0].pretty(), "Fire 24 D");
    assert_eq!(boards[1].pretty(), "Fire 24 USB");
    let rp = boards_for_mcu_family("rp2350".to_string()).unwrap();
    assert_eq!(rp.len(), 1);
    assert_eq!(rp[0].value(), "ice-24-g");
    let mcus = mcus_for_mcu_family("stm32f4".to_string()).unwrap();
    assert_eq!(mcus.len(), 3);
    assert_eq!(mcus[0].value(), "stm32f411re");
    assert!(boards_for_mcu_family("pdp11".to_string()).is_err());
}
