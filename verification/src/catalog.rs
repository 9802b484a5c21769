//! The reference catalog: the ROM types, boards, MCU variants and MCU
//! families that configurations and build properties may name.
//!
//! The catalog is immutable data. Every lookup is by name and fails with
//! `None` for an unknown name; nothing here defaults.

use vstd::prelude::*;

verus! {

/// A supported ROM type.
#[derive(Clone, Copy, PartialEq, Eq, Structural, Debug)]
pub enum RomType {
    R2316,
    R2332,
    R2364,
    R23128,
    R23256,
    R23512,
}

impl RomType {
    /// The payload size in bytes of an image for this ROM type.
    pub open spec fn spec_size_bytes(self) -> usize {
        match self {
            RomType::R2316 => 2048usize,
            RomType::R2332 => 4096usize,
            RomType::R2364 => 8192usize,
            RomType::R23128 => 16384usize,
            RomType::R23256 => 32768usize,
            RomType::R23512 => 65536usize,
        }
    }

    pub fn size_bytes(self) -> (r: usize)
        ensures
            r == self.spec_size_bytes(),
    {
        match self {
            RomType::R2316 => 2048,
            RomType::R2332 => 4096,
            RomType::R2364 => 8192,
            RomType::R23128 => 16384,
            RomType::R23256 => 32768,
            RomType::R23512 => 65536,
        }
    }

    pub open spec fn spec_name(self) -> Seq<char> {
        match self {
            RomType::R2316 => "2316"@,
            RomType::R2332 => "2332"@,
            RomType::R2364 => "2364"@,
            RomType::R23128 => "23128"@,
            RomType::R23256 => "23256"@,
            RomType::R23512 => "23512"@,
        }
    }

    pub fn name(self) -> (r: &'static str)
        ensures
            r@ == self.spec_name(),
    {
        match self {
            RomType::R2316 => "2316",
            RomType::R2332 => "2332",
            RomType::R2364 => "2364",
            RomType::R23128 => "23128",
            RomType::R23256 => "23256",
            RomType::R23512 => "23512",
        }
    }

    /// The number of physical pins on the ROM package.
    pub open spec fn spec_rom_pins(self) -> u8 {
        match self {
            RomType::R2316 => 24u8,
            RomType::R2332 => 24u8,
            RomType::R2364 => 24u8,
            RomType::R23128 => 28u8,
            RomType::R23256 => 28u8,
            RomType::R23512 => 28u8,
        }
    }

    pub fn rom_pins(self) -> (r: u8)
        ensures
            r == self.spec_rom_pins(),
    {
        match self {
            RomType::R2316 => 24,
            RomType::R2332 => 24,
            RomType::R2364 => 24,
            RomType::R23128 => 28,
            RomType::R23256 => 28,
            RomType::R23512 => 28,
        }
    }

    /// The number of address lines: log2 of the size in bytes.
    pub open spec fn spec_num_addr_lines(self) -> usize {
        match self {
            RomType::R2316 => 11usize,
            RomType::R2332 => 12usize,
            RomType::R2364 => 13usize,
            RomType::R23128 => 14usize,
            RomType::R23256 => 15usize,
            RomType::R23512 => 16usize,
        }
    }

    pub fn num_addr_lines(self) -> (r: usize)
        ensures
            r == self.spec_num_addr_lines(),
    {
        match self {
            RomType::R2316 => 11,
            RomType::R2332 => 12,
            RomType::R2364 => 13,
            RomType::R23128 => 14,
            RomType::R23256 => 15,
            RomType::R23512 => 16,
        }
    }

    /// The stable one-byte tag used for this ROM type in the binary metadata
    /// record.
    pub open spec fn spec_code(self) -> u8 {
        match self {
            RomType::R2316 => 0u8,
            RomType::R2332 => 1u8,
            RomType::R2364 => 2u8,
            RomType::R23128 => 3u8,
            RomType::R23256 => 4u8,
            RomType::R23512 => 5u8,
        }
    }

    pub fn code(self) -> (r: u8)
        ensures
            r == self.spec_code(),
    {
        match self {
            RomType::R2316 => 0,
            RomType::R2332 => 1,
            RomType::R2364 => 2,
            RomType::R23128 => 3,
            RomType::R23256 => 4,
            RomType::R23512 => 5,
        }
    }
}

#[verifier::opaque]
pub open spec fn spec_rom_type_from_name(name: Seq<char>) -> Option<RomType> {
    if name == "2316"@ {
        Some(RomType::R2316)
    } else if name == "2332"@ {
        Some(RomType::R2332)
    } else if name == "2364"@ {
        Some(RomType::R2364)
    } else if name == "23128"@ {
        Some(RomType::R23128)
    } else if name == "23256"@ {
        Some(RomType::R23256)
    } else if name == "23512"@ {
        Some(RomType::R23512)
    } else {
        None
    }
}

/// Resolve a ROM type by catalog name.
pub fn rom_type_from_name(name: &String) -> (r: Option<RomType>)
    ensures
        r == spec_rom_type_from_name(name@),
{
    proof {
        reveal(spec_rom_type_from_name);
    }
    if *name == "2316".to_owned() {
        Some(RomType::R2316)
    } else if *name == "2332".to_owned() {
        Some(RomType::R2332)
    } else if *name == "2364".to_owned() {
        Some(RomType::R2364)
    } else if *name == "23128".to_owned() {
        Some(RomType::R23128)
    } else if *name == "23256".to_owned() {
        Some(RomType::R23256)
    } else if *name == "23512".to_owned() {
        Some(RomType::R23512)
    } else {
        None
    }
}

/// A supported MCU family.
#[derive(Clone, Copy, PartialEq, Eq, Structural, Debug)]
pub enum McuFamily {
    Stm32f4,
    Rp2350,
}

impl McuFamily {
    pub open spec fn spec_name(self) -> Seq<char> {
        match self {
            McuFamily::Stm32f4 => "stm32f4"@,
            McuFamily::Rp2350 => "rp2350"@,
        }
    }

    pub fn name(self) -> (r: &'static str)
        ensures
            r@ == self.spec_name(),
    {
        match self {
            McuFamily::Stm32f4 => "stm32f4",
            McuFamily::Rp2350 => "rp2350",
        }
    }

    /// The base address at which the MCU's flash is mapped.
    pub open spec fn spec_flash_base(self) -> u32 {
        match self {
            McuFamily::Stm32f4 => 0x0800_0000u32,
            McuFamily::Rp2350 => 0x1000_0000u32,
        }
    }

    pub fn flash_base(self) -> (r: u32)
        ensures
            r == self.spec_flash_base(),
    {
        match self {
            McuFamily::Stm32f4 => 0x0800_0000,
            McuFamily::Rp2350 => 0x1000_0000,
        }
    }
}

#[verifier::opaque]
pub open spec fn spec_family_from_name(name: Seq<char>) -> Option<McuFamily> {
    if name == "stm32f4"@ {
        Some(McuFamily::Stm32f4)
    } else if name == "rp2350"@ {
        Some(McuFamily::Rp2350)
    } else {
        None
    }
}

/// Resolve an MCU family by catalog name.
pub fn family_from_name(name: &String) -> (r: Option<McuFamily>)
    ensures
        r == spec_family_from_name(name@),
{
    proof {
        reveal(spec_family_from_name);
    }
    if *name == "stm32f4".to_owned() {
        Some(McuFamily::Stm32f4)
    } else if *name == "rp2350".to_owned() {
        Some(McuFamily::Rp2350)
    } else {
        None
    }
}

/// A supported PCB/board.
#[derive(Clone, Copy, PartialEq, Eq, Structural, Debug)]
pub enum Board {
    Fire24D,
    Fire24Usb,
    Fire28A,
    Ice24G,
    Air24A,
}

impl Board {
    pub open spec fn spec_name(self) -> Seq<char> {
        match self {
            Board::Fire24D => "fire-24-d"@,
            Board::Fire24Usb => "fire-24-usb"@,
            Board::Fire28A => "fire-28-a"@,
            Board::Ice24G => "ice-24-g"@,
            Board::Air24A => "air-24-a"@,
        }
    }

    pub fn name(self) -> (r: &'static str)
        ensures
            r@ == self.spec_name(),
    {
        match self {
            Board::Fire24D => "fire-24-d",
            Board::Fire24Usb => "fire-24-usb",
            Board::Fire28A => "fire-28-a",
            Board::Ice24G => "ice-24-g",
            Board::Air24A => "air-24-a",
        }
    }

    pub open spec fn spec_description(self) -> Seq<char> {
        match self {
            Board::Fire24D => "Fire 24-pin ROM emulator, revision D"@,
            Board::Fire24Usb => "Fire 24-pin ROM emulator with USB"@,
            Board::Fire28A => "Fire 28-pin ROM emulator, revision A"@,
            Board::Ice24G => "Ice 24-pin ROM emulator, revision G"@,
            Board::Air24A => "Air 24-pin single-ROM emulator, revision A"@,
        }
    }

    pub fn description(self) -> (r: &'static str)
        ensures
            r@ == self.spec_description(),
    {
        match self {
            Board::Fire24D => "Fire 24-pin ROM emulator, revision D",
            Board::Fire24Usb => "Fire 24-pin ROM emulator with USB",
            Board::Fire28A => "Fire 28-pin ROM emulator, revision A",
            Board::Ice24G => "Ice 24-pin ROM emulator, revision G",
            Board::Air24A => "Air 24-pin single-ROM emulator, revision A",
        }
    }

    pub open spec fn spec_mcu_family(self) -> McuFamily {
        match self {
            Board::Fire24D => McuFamily::Stm32f4,
            Board::Fire24Usb => McuFamily::Stm32f4,
            Board::Fire28A => McuFamily::Stm32f4,
            Board::Ice24G => McuFamily::Rp2350,
            Board::Air24A => McuFamily::Stm32f4,
        }
    }

    pub fn mcu_family(self) -> (r: McuFamily)
        ensures
            r == self.spec_mcu_family(),
    {
        match self {
            Board::Fire24D => McuFamily::Stm32f4,
            Board::Fire24Usb => McuFamily::Stm32f4,
            Board::Fire28A => McuFamily::Stm32f4,
            Board::Ice24G => McuFamily::Rp2350,
            Board::Air24A => McuFamily::Stm32f4,
        }
    }

    pub open spec fn spec_rom_pins(self) -> u8 {
        match self {
            Board::Fire24D => 24u8,
            Board::Fire24Usb => 24u8,
            Board::Fire28A => 28u8,
            Board::Ice24G => 24u8,
            Board::Air24A => 24u8,
        }
    }

    pub fn rom_pins(self) -> (r: u8)
        ensures
            r == self.spec_rom_pins(),
    {
        match self {
            Board::Fire24D => 24,
            Board::Fire24Usb => 24,
            Board::Fire28A => 28,
            Board::Ice24G => 24,
            Board::Air24A => 24,
        }
    }

    /// Whether the board can serve more than one ROM set.
    pub open spec fn spec_supports_multi_rom_sets(self) -> bool {
        match self {
            Board::Fire24D => true,
            Board::Fire24Usb => true,
            Board::Fire28A => true,
            Board::Ice24G => true,
            Board::Air24A => false,
        }
    }

    pub fn supports_multi_rom_sets(self) -> (r: bool)
        ensures
            r == self.spec_supports_multi_rom_sets(),
    {
        match self {
            Board::Fire24D => true,
            Board::Fire24Usb => true,
            Board::Fire28A => true,
            Board::Ice24G => true,
            Board::Air24A => false,
        }
    }

    pub open spec fn spec_has_usb(self) -> bool {
        match self {
            Board::Fire24D => false,
            Board::Fire24Usb => true,
            Board::Fire28A => false,
            Board::Ice24G => true,
            Board::Air24A => false,
        }
    }

    pub fn has_usb(self) -> (r: bool)
        ensures
            r == self.spec_has_usb(),
    {
        match self {
            Board::Fire24D => false,
            Board::Fire24Usb => true,
            Board::Fire28A => false,
            Board::Ice24G => true,
            Board::Air24A => false,
        }
    }

    /// The stable one-byte tag used for this board in the image header.
    pub open spec fn spec_code(self) -> u8 {
        match self {
            Board::Fire24D => 0u8,
            Board::Fire24Usb => 1u8,
            Board::Fire28A => 2u8,
            Board::Ice24G => 3u8,
            Board::Air24A => 4u8,
        }
    }

    pub fn code(self) -> (r: u8)
        ensures
            r == self.spec_code(),
    {
        match self {
            Board::Fire24D => 0,
            Board::Fire24Usb => 1,
            Board::Fire28A => 2,
            Board::Ice24G => 3,
            Board::Air24A => 4,
        }
    }
}

#[verifier::opaque]
pub open spec fn spec_board_from_name(name: Seq<char>) -> Option<Board> {
    if name == "fire-24-d"@ {
        Some(Board::Fire24D)
    } else if name == "fire-24-usb"@ {
        Some(Board::Fire24Usb)
    } else if name == "fire-28-a"@ {
        Some(Board::Fire28A)
    } else if name == "ice-24-g"@ {
        Some(Board::Ice24G)
    } else if name == "air-24-a"@ {
        Some(Board::Air24A)
    } else {
        None
    }
}

/// Resolve a board by catalog name.
pub fn board_from_name(name: &String) -> (r: Option<Board>)
    ensures
        r == spec_board_from_name(name@),
{
    proof {
        reveal(spec_board_from_name);
    }
    if *name == "fire-24-d".to_owned() {
        Some(Board::Fire24D)
    } else if *name == "fire-24-usb".to_owned() {
        Some(Board::Fire24Usb)
    } else if *name == "fire-28-a".to_owned() {
        Some(Board::Fire28A)
    } else if *name == "ice-24-g".to_owned() {
        Some(Board::Ice24G)
    } else if *name == "air-24-a".to_owned() {
        Some(Board::Air24A)
    } else {
        None
    }
}

/// A supported MCU variant.
#[derive(Clone, Copy, PartialEq, Eq, Structural, Debug)]
pub enum McuVariant {
    Stm32f411re,
    Stm32f446re,
    Stm32f405rg,
    Rp2350,
}

impl McuVariant {
    pub open spec fn spec_name(self) -> Seq<char> {
        match self {
            McuVariant::Stm32f411re => "stm32f411re"@,
            McuVariant::Stm32f446re => "stm32f446re"@,
            McuVariant::Stm32f405rg => "stm32f405rg"@,
            McuVariant::Rp2350 => "rp2350"@,
        }
    }

    pub fn name(self) -> (r: &'static str)
        ensures
            r@ == self.spec_name(),
    {
        match self {
            McuVariant::Stm32f411re => "stm32f411re",
            McuVariant::Stm32f446re => "stm32f446re",
            McuVariant::Stm32f405rg => "stm32f405rg",
            McuVariant::Rp2350 => "rp2350",
        }
    }

    pub open spec fn spec_family(self) -> McuFamily {
        match self {
            McuVariant::Stm32f411re => McuFamily::Stm32f4,
            McuVariant::Stm32f446re => McuFamily::Stm32f4,
            McuVariant::Stm32f405rg => McuFamily::Stm32f4,
            McuVariant::Rp2350 => McuFamily::Rp2350,
        }
    }

    pub fn family(self) -> (r: McuFamily)
        ensures
            r == self.spec_family(),
    {
        match self {
            McuVariant::Stm32f411re => McuFamily::Stm32f4,
            McuVariant::Stm32f446re => McuFamily::Stm32f4,
            McuVariant::Stm32f405rg => McuFamily::Stm32f4,
            McuVariant::Rp2350 => McuFamily::Rp2350,
        }
    }

    pub open spec fn spec_flash_kb(self) -> usize {
        match self {
            McuVariant::Stm32f411re => 512usize,
            McuVariant::Stm32f446re => 512usize,
            McuVariant::Stm32f405rg => 1024usize,
            McuVariant::Rp2350 => 4096usize,
        }
    }

    pub fn flash_kb(self) -> (r: usize)
        ensures
            r == self.spec_flash_kb(),
    {
        match self {
            McuVariant::Stm32f411re => 512,
            McuVariant::Stm32f446re => 512,
            McuVariant::Stm32f405rg => 1024,
            McuVariant::Rp2350 => 4096,
        }
    }

    pub open spec fn spec_ram_kb(self) -> usize {
        match self {
            McuVariant::Stm32f411re => 128usize,
            McuVariant::Stm32f446re => 128usize,
            McuVariant::Stm32f405rg => 128usize,
            McuVariant::Rp2350 => 520usize,
        }
    }

    pub fn ram_kb(self) -> (r: usize)
        ensures
            r == self.spec_ram_kb(),
    {
        match self {
            McuVariant::Stm32f411re => 128,
            McuVariant::Stm32f446re => 128,
            McuVariant::Stm32f405rg => 128,
            McuVariant::Rp2350 => 520,
        }
    }

    pub open spec fn spec_ccm_ram_kb(self) -> Option<usize> {
        match self {
            McuVariant::Stm32f411re => None,
            McuVariant::Stm32f446re => None,
            McuVariant::Stm32f405rg => Some(64usize),
            McuVariant::Rp2350 => None,
        }
    }

    pub fn ccm_ram_kb(self) -> (r: Option<usize>)
        ensures
            r == self.spec_ccm_ram_kb(),
    {
        match self {
            McuVariant::Stm32f411re => None,
            McuVariant::Stm32f446re => None,
            McuVariant::Stm32f405rg => Some(64),
            McuVariant::Rp2350 => None,
        }
    }

    pub open spec fn spec_max_sysclk_mhz(self) -> u32 {
        match self {
            McuVariant::Stm32f411re => 100u32,
            McuVariant::Stm32f446re => 180u32,
            McuVariant::Stm32f405rg => 168u32,
            McuVariant::Rp2350 => 150u32,
        }
    }

    pub fn max_sysclk_mhz(self) -> (r: u32)
        ensures
            r == self.spec_max_sysclk_mhz(),
    {
        match self {
            McuVariant::Stm32f411re => 100,
            McuVariant::Stm32f446re => 180,
            McuVariant::Stm32f405rg => 168,
            McuVariant::Rp2350 => 150,
        }
    }

    pub open spec fn spec_supports_usb_dfu(self) -> bool {
        match self {
            McuVariant::Stm32f411re => true,
            McuVariant::Stm32f446re => true,
            McuVariant::Stm32f405rg => true,
            McuVariant::Rp2350 => true,
        }
    }

    pub fn supports_usb_dfu(self) -> (r: bool)
        ensures
            r == self.spec_supports_usb_dfu(),
    {
        match self {
            McuVariant::Stm32f411re => true,
            McuVariant::Stm32f446re => true,
            McuVariant::Stm32f405rg => true,
            McuVariant::Rp2350 => true,
        }
    }

    pub open spec fn spec_supports_banked_roms(self) -> bool {
        match self {
            McuVariant::Stm32f411re => true,
            McuVariant::Stm32f446re => true,
            McuVariant::Stm32f405rg => true,
            McuVariant::Rp2350 => true,
        }
    }

    pub fn supports_banked_roms(self) -> (r: bool)
        ensures
            r == self.spec_supports_banked_roms(),
    {
        match self {
            McuVariant::Stm32f411re => true,
            McuVariant::Stm32f446re => true,
            McuVariant::Stm32f405rg => true,
            McuVariant::Rp2350 => true,
        }
    }

    pub open spec fn spec_supports_multi_rom_sets(self) -> bool {
        match self {
            McuVariant::Stm32f411re => false,
            McuVariant::Stm32f446re => true,
            McuVariant::Stm32f405rg => true,
            McuVariant::Rp2350 => true,
        }
    }

    pub fn supports_multi_rom_sets(self) -> (r: bool)
        ensures
            r == self.spec_supports_multi_rom_sets(),
    {
        match self {
            McuVariant::Stm32f411re => false,
            McuVariant::Stm32f446re => true,
            McuVariant::Stm32f405rg => true,
            McuVariant::Rp2350 => true,
        }
    }

    /// The chip identifier that a flasher tool uses for this variant.
    pub open spec fn spec_chip_id(self) -> Seq<char> {
        match self {
            McuVariant::Stm32f411re => "STM32F411RETx"@,
            McuVariant::Stm32f446re => "STM32F446RETx"@,
            McuVariant::Stm32f405rg => "STM32F405RGTx"@,
            McuVariant::Rp2350 => "RP2350"@,
        }
    }

    pub fn chip_id(self) -> (r: &'static str)
        ensures
            r@ == self.spec_chip_id(),
    {
        match self {
            McuVariant::Stm32f411re => "STM32F411RETx",
            McuVariant::Stm32f446re => "STM32F446RETx",
            McuVariant::Stm32f405rg => "STM32F405RGTx",
            McuVariant::Rp2350 => "RP2350",
        }
    }
}

#[verifier::opaque]
pub open spec fn spec_mcu_from_name(name: Seq<char>) -> Option<McuVariant> {
    if name == "stm32f411re"@ {
        Some(McuVariant::Stm32f411re)
    } else if name == "stm32f446re"@ {
        Some(McuVariant::Stm32f446re)
    } else if name == "stm32f405rg"@ {
        Some(McuVariant::Stm32f405rg)
    } else if name == "rp2350"@ {
        Some(McuVariant::Rp2350)
    } else {
        None
    }
}

/// Resolve an MCU variant by catalog name.
pub fn mcu_from_name(name: &String) -> (r: Option<McuVariant>)
    ensures
        r == spec_mcu_from_name(name@),
{
    proof {
        reveal(spec_mcu_from_name);
    }
    if *name == "stm32f411re".to_owned() {
        Some(McuVariant::Stm32f411re)
    } else if *name == "stm32f446re".to_owned() {
        Some(McuVariant::Stm32f446re)
    } else if *name == "stm32f405rg".to_owned() {
        Some(McuVariant::Stm32f405rg)
    } else if *name == "rp2350".to_owned() {
        Some(McuVariant::Rp2350)
    } else {
        None
    }
}

} // verus!
