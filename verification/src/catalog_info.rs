//! Read-only views over the catalog: enumerations, per-entry detail lookups,
//! and the pretty board-name formatter.

use vstd::prelude::*;

use crate::builder::views_of_strings;
use crate::catalog::{
    board_from_name, family_from_name, mcu_from_name, rom_type_from_name, spec_board_from_name,
    spec_family_from_name, spec_mcu_from_name, spec_rom_type_from_name, Board, McuFamily,
    McuVariant, RomType,
};

verus! {

/// A catalog lookup failed: the name is not known.
#[derive(Clone, Copy, PartialEq, Eq, Structural, Debug)]
pub enum CatalogError {
    UnknownMcuVariant,
    UnknownMcuFamily,
    UnknownRomType,
    UnknownBoard,
}

/// Basic MCU information.
#[derive(Debug)]
pub struct McuInfo {
    pub name: String,
    pub family: String,
    pub flash_kb: usize,
    pub ram_kb: usize,
    pub ccm_ram_kb: Option<usize>,
    pub max_sysclk_mhz: u32,
    pub supports_usb_dfu: bool,
    pub supports_banked_roms: bool,
    pub supports_multi_rom_sets: bool,
}

/// Detailed ROM type information.
#[derive(Debug)]
pub struct RomTypeInfo {
    pub name: String,
    pub size_bytes: usize,
    pub rom_pins: u8,
    pub num_addr_lines: usize,
}

/// One board's information.
#[derive(Debug)]
pub struct BoardInfo {
    pub name: String,
    pub description: String,
    pub mcu_family: String,
    pub rom_pins: u8,
    pub supports_multi_rom_sets: bool,
    pub has_usb: bool,
}

/// The catalog's MCU variants, in catalog order.
pub open spec fn spec_mcu_variants() -> Seq<McuVariant> {
    seq![
        McuVariant::Stm32f411re,
        McuVariant::Stm32f446re,
        McuVariant::Stm32f405rg,
        McuVariant::Rp2350,
    ]
}

/// The catalog's ROM types, in catalog order.
pub open spec fn spec_rom_type_list() -> Seq<RomType> {
    seq![
        RomType::R2316,
        RomType::R2332,
        RomType::R2364,
        RomType::R23128,
        RomType::R23256,
        RomType::R23512,
    ]
}

/// The catalog's boards, in catalog order.
pub open spec fn spec_board_list() -> Seq<Board> {
    seq![Board::Fire24D, Board::Fire24Usb, Board::Fire28A, Board::Ice24G, Board::Air24A]
}

/// The names of all supported MCU variants.
pub fn mcus() -> (r: Vec<String>)
    ensures
        views_of_strings(r@) == spec_mcu_variants().map_values(|v: McuVariant| v.spec_name()),
{
    let mut out: Vec<String> = Vec::new();
    out.push(McuVariant::Stm32f411re.name().to_owned());
    out.push(McuVariant::Stm32f446re.name().to_owned());
    out.push(McuVariant::Stm32f405rg.name().to_owned());
    out.push(McuVariant::Rp2350.name().to_owned());
    proof {
        assert(views_of_strings(out@) =~= spec_mcu_variants().map_values(
            |v: McuVariant| v.spec_name(),
        ));
    }
    out
}

/// The names of all supported ROM types.
pub fn rom_types() -> (r: Vec<String>)
    ensures
        views_of_strings(r@) == spec_rom_type_list().map_values(|t: RomType| t.spec_name()),
{
    let mut out: Vec<String> = Vec::new();
    out.push(RomType::R2316.name().to_owned());
    out.push(RomType::R2332.name().to_owned());
    out.push(RomType::R2364.name().to_owned());
    out.push(RomType::R23128.name().to_owned());
    out.push(RomType::R23256.name().to_owned());
    out.push(RomType::R23512.name().to_owned());
    proof {
        assert(views_of_strings(out@) =~= spec_rom_type_list().map_values(
            |t: RomType| t.spec_name(),
        ));
    }
    out
}

/// The names of all supported boards.
pub fn boards() -> (r: Result<Vec<String>, CatalogError>)
    ensures
        r matches Ok(names) && views_of_strings(names@) == spec_board_list().map_values(
            |b: Board| b.spec_name(),
        ),
{
    let mut out: Vec<String> = Vec::new();
    out.push(Board::Fire24D.name().to_owned());
    out.push(Board::Fire24Usb.name().to_owned());
    out.push(Board::Fire28A.name().to_owned());
    out.push(Board::Ice24G.name().to_owned());
    out.push(Board::Air24A.name().to_owned());
    proof {
        assert(views_of_strings(out@) =~= spec_board_list().map_values(|b: Board| b.spec_name()));
    }
    Ok(out)
}

/// Detailed information about a specific MCU variant.
pub fn mcu_info(name: String) -> (r: Result<McuInfo, CatalogError>)
    ensures
        match spec_mcu_from_name(name@) {
            None => r matches Err(CatalogError::UnknownMcuVariant),
            Some(v) => r matches Ok(info) && info.name@ == v.spec_name() && info.family@
                == v.spec_family().spec_name() && info.flash_kb == v.spec_flash_kb()
                && info.ram_kb == v.spec_ram_kb() && info.ccm_ram_kb == v.spec_ccm_ram_kb()
                && info.max_sysclk_mhz == v.spec_max_sysclk_mhz() && info.supports_usb_dfu
                == v.spec_supports_usb_dfu() && info.supports_banked_roms
                == v.spec_supports_banked_roms() && info.supports_multi_rom_sets
                == v.spec_supports_multi_rom_sets(),
        },
{
    let v = match mcu_from_name(&name) {
        Some(v) => v,
        None => {
            return Err(CatalogError::UnknownMcuVariant);
        },
    };
    Ok(
        McuInfo {
            name: v.name().to_owned(),
            family: v.family().name().to_owned(),
            flash_kb: v.flash_kb(),
            ram_kb: v.ram_kb(),
            ccm_ram_kb: v.ccm_ram_kb(),
            max_sysclk_mhz: v.max_sysclk_mhz(),
            supports_usb_dfu: v.supports_usb_dfu(),
            supports_banked_roms: v.supports_banked_roms(),
            supports_multi_rom_sets: v.supports_multi_rom_sets(),
        },
    )
}

/// Detailed information about a specific ROM type.
pub fn rom_type_info(name: String) -> (r: Result<RomTypeInfo, CatalogError>)
    ensures
        match spec_rom_type_from_name(name@) {
            None => r matches Err(CatalogError::UnknownRomType),
            Some(t) => r matches Ok(info) && info.name@ == t.spec_name() && info.size_bytes
                == t.spec_size_bytes() && info.rom_pins == t.spec_rom_pins()
                && info.num_addr_lines == t.spec_num_addr_lines(),
        },
{
    let t = match rom_type_from_name(&name) {
        Some(t) => t,
        None => {
            return Err(CatalogError::UnknownRomType);
        },
    };
    Ok(
        RomTypeInfo {
            name: t.name().to_owned(),
            size_bytes: t.size_bytes(),
            rom_pins: t.rom_pins(),
            num_addr_lines: t.num_addr_lines(),
        },
    )
}

/// Detailed information about a specific board.
pub fn board_info(name: String) -> (r: Result<BoardInfo, CatalogError>)
    ensures
        match spec_board_from_name(name@) {
            None => r matches Err(CatalogError::UnknownBoard),
            Some(b) => r matches Ok(info) && info.name@ == b.spec_name() && info.description@
                == b.spec_description() && info.mcu_family@ == b.spec_mcu_family().spec_name()
                && info.rom_pins == b.spec_rom_pins() && info.supports_multi_rom_sets
                == b.spec_supports_multi_rom_sets() && info.has_usb == b.spec_has_usb(),
        },
{
    let b = match board_from_name(&name) {
        Some(b) => b,
        None => {
            return Err(CatalogError::UnknownBoard);
        },
    };
    Ok(
        BoardInfo {
            name: b.name().to_owned(),
            description: b.description().to_owned(),
            mcu_family: b.mcu_family().name().to_owned(),
            rom_pins: b.rom_pins(),
            supports_multi_rom_sets: b.supports_multi_rom_sets(),
            has_usb: b.has_usb(),
        },
    )
}

/// The flash base address of an MCU family.
pub fn mcu_flash_base(name: &str) -> (r: Result<u32, CatalogError>)
    ensures
        match spec_family_from_name(name@) {
            None => r matches Err(CatalogError::UnknownMcuFamily),
            Some(f) => r matches Ok(base) && base == f.spec_flash_base(),
        },
{
    let owned = name.to_owned();
    match family_from_name(&owned) {
        Some(f) => Ok(f.flash_base()),
        None => Err(CatalogError::UnknownMcuFamily),
    }
}

/// The chip identifier a flasher tool uses for an MCU variant.
pub fn mcu_chip_id(variant_name: String) -> (r: Result<String, CatalogError>)
    ensures
        match spec_mcu_from_name(variant_name@) {
            None => r matches Err(CatalogError::UnknownMcuVariant),
            Some(v) => r matches Ok(s) && s@ == v.spec_chip_id(),
        },
{
    match mcu_from_name(&variant_name) {
        Some(v) => Ok(v.chip_id().to_owned()),
        None => Err(CatalogError::UnknownMcuVariant),
    }
}

} // verus!
