//! The declarative configuration a [`crate::builder::Builder`] is constructed
//! from, and the build-time firmware properties.

use vstd::prelude::*;

use crate::catalog::Board;
use crate::policy::SizeHandling;

verus! {

/// How the member files of one set relate to each other.
#[derive(Clone, Copy, PartialEq, Eq, Structural, Debug)]
pub enum SetType {
    /// The set is a single stand-alone ROM image.
    Single,
    /// The set's members are banks of one ROM, switched by chip select.
    Banked,
    /// The set's members are independent ROMs served at once; the board must
    /// support multi-ROM sets.
    MultiRom,
}

impl SetType {
    /// The stable one-byte tag used for this set type in the binary metadata
    /// record.
    pub open spec fn spec_code(self) -> u8 {
        match self {
            SetType::Single => 0u8,
            SetType::Banked => 1u8,
            SetType::MultiRom => 2u8,
        }
    }

    pub fn code(self) -> (r: u8)
        ensures
            r == self.spec_code(),
    {
        match self {
            SetType::Single => 0,
            SetType::Banked => 1,
            SetType::MultiRom => 2,
        }
    }
}

/// One source file requirement inside a set, as the configuration states it.
pub struct FileConfig {
    /// Where the byte-provider should fetch the file from; passed through
    /// uninterpreted.
    pub source: String,
    /// Optional selector (such as a sub-path within an archive) the
    /// byte-provider must apply; passed through uninterpreted.
    pub extract: Option<String>,
    /// How retrieved bytes reconcile with the ROM size.
    pub size_handling: SizeHandling,
    /// Catalog name of the ROM type; must resolve.
    pub rom_type: String,
    /// Free-form description of the file.
    pub description: Option<String>,
    /// Chip-select configuration tags, scoped to the set.
    pub cs1: Option<String>,
    pub cs2: Option<String>,
    pub cs3: Option<String>,
    /// URL of a license that must be accepted before this file counts toward
    /// build readiness; `None` means no acceptance is required.
    pub license_url: Option<String>,
}

/// One logical ROM set: a group of files that together form one configuration
/// (for example, multiple chip-select banks).
pub struct SetConfig {
    pub set_type: SetType,
    pub set_description: Option<String>,
    pub files: Vec<FileConfig>,
}

/// A configuration document: the desired board, the ROM sets, and per-file
/// source descriptors.
pub struct Config {
    /// Free-form description of the whole configuration.
    pub description: String,
    /// Informational category labels.
    pub categories: Vec<String>,
    /// Board the configuration is intended for, if it names one; must resolve
    /// in the catalog when present.
    pub board: Option<String>,
    pub sets: Vec<SetConfig>,
}

/// Ghost mirror of [`FileConfig`].
#[verifier::ext_equal]
pub ghost struct FileConfigV {
    pub source: Seq<char>,
    pub extract: Option<Seq<char>>,
    pub size_handling: SizeHandling,
    pub rom_type: Seq<char>,
    pub description: Option<Seq<char>>,
    pub cs1: Option<Seq<char>>,
    pub cs2: Option<Seq<char>>,
    pub cs3: Option<Seq<char>>,
    pub license_url: Option<Seq<char>>,
}

/// Ghost mirror of [`SetConfig`].
#[verifier::ext_equal]
pub ghost struct SetConfigV {
    pub set_type: SetType,
    pub set_description: Option<Seq<char>>,
    pub files: Seq<FileConfigV>,
}

/// Ghost mirror of [`Config`].
#[verifier::ext_equal]
pub ghost struct ConfigV {
    pub description: Seq<char>,
    pub categories: Seq<Seq<char>>,
    pub board: Option<Seq<char>>,
    pub sets: Seq<SetConfigV>,
}

pub open spec fn view_opt_str(o: Option<String>) -> Option<Seq<char>> {
    match o {
        Some(s) => Some(s@),
        None => None,
    }
}

impl View for FileConfig {
    type V = FileConfigV;

    open spec fn view(&self) -> FileConfigV {
        FileConfigV {
            source: self.source@,
            extract: view_opt_str(self.extract),
            size_handling: self.size_handling,
            rom_type: self.rom_type@,
            description: view_opt_str(self.description),
            cs1: view_opt_str(self.cs1),
            cs2: view_opt_str(self.cs2),
            cs3: view_opt_str(self.cs3),
            license_url: view_opt_str(self.license_url),
        }
    }
}

impl View for SetConfig {
    type V = SetConfigV;

    open spec fn view(&self) -> SetConfigV {
        SetConfigV {
            set_type: self.set_type,
            set_description: view_opt_str(self.set_description),
            files: Seq::new(self.files@.len(), |i: int| self.files@[i]@),
        }
    }
}

impl View for Config {
    type V = ConfigV;

    open spec fn view(&self) -> ConfigV {
        ConfigV {
            description: self.description@,
            categories: Seq::new(self.categories@.len(), |i: int| self.categories@[i]@),
            board: view_opt_str(self.board),
            sets: Seq::new(self.sets@.len(), |i: int| self.sets@[i]@),
        }
    }
}

/// The firmware version embedded in a built image.
#[derive(Clone, Copy, PartialEq, Eq, Structural, Debug)]
pub struct FwVersion {
    pub major: u16,
    pub minor: u16,
    pub patch: u16,
    pub build: u16,
}

/// The algorithm the firmware uses to serve ROM contents.
#[derive(Clone, Copy, PartialEq, Eq, Structural, Debug)]
pub enum ServeAlg {
    /// Address lines sampled on every access.
    Default,
    /// Two-chip-select, one-byte serving.
    TwoCsOneByte,
}

impl ServeAlg {
    /// The stable one-byte tag used for this algorithm in the image header.
    pub open spec fn spec_code(self) -> u8 {
        match self {
            ServeAlg::Default => 0u8,
            ServeAlg::TwoCsOneByte => 1u8,
        }
    }

    pub fn code(self) -> (r: u8)
        ensures
            r == self.spec_code(),
    {
        match self {
            ServeAlg::Default => 0,
            ServeAlg::TwoCsOneByte => 1,
        }
    }
}

/// Build-time parameters independent of file content.
pub struct FirmwareProperties {
    pub version: FwVersion,
    /// Catalog name of the target board; resolved at validation time, an
    /// unknown name is a validation failure.
    pub board: String,
    pub serve_alg: ServeAlg,
    pub boot_logging: bool,
}

/// Ghost mirror of [`FirmwareProperties`].
#[verifier::ext_equal]
pub ghost struct FirmwarePropertiesV {
    pub version: FwVersion,
    pub board: Seq<char>,
    pub serve_alg: ServeAlg,
    pub boot_logging: bool,
}

impl View for FirmwareProperties {
    type V = FirmwarePropertiesV;

    open spec fn view(&self) -> FirmwarePropertiesV {
        FirmwarePropertiesV {
            version: self.version,
            board: self.board@,
            serve_alg: self.serve_alg,
            boot_logging: self.boot_logging,
        }
    }
}

impl FirmwarePropertiesV {
    /// The board the properties name, if it resolves in the catalog.
    pub open spec fn spec_board(self) -> Option<Board> {
        crate::catalog::spec_board_from_name(self.board)
    }
}

/// A reason a configuration is rejected at construction.
#[derive(Debug)]
pub enum ConfigError {
    /// The configuration names a board the catalog does not know.
    UnknownBoard { name: String },
    /// A file names a ROM type the catalog does not know.
    UnknownRomType { name: String },
    /// A set has no member files.
    EmptySet { set_index: usize },
    /// The configuration requires more files than a build can address.
    TooManyFiles,
}

/// Ghost mirror of [`ConfigError`].
#[verifier::ext_equal]
pub ghost enum ConfigErrorV {
    UnknownBoard { name: Seq<char> },
    UnknownRomType { name: Seq<char> },
    EmptySet { set_index: int },
    TooManyFiles,
}

impl View for ConfigError {
    type V = ConfigErrorV;

    open spec fn view(&self) -> ConfigErrorV {
        match self {
            ConfigError::UnknownBoard { name } => ConfigErrorV::UnknownBoard { name: name@ },
            ConfigError::UnknownRomType { name } => ConfigErrorV::UnknownRomType { name: name@ },
            ConfigError::EmptySet { set_index } => ConfigErrorV::EmptySet {
                set_index: *set_index as int,
            },
            ConfigError::TooManyFiles => ConfigErrorV::TooManyFiles,
        }
    }
}

} // verus!
