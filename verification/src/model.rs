//! The mathematical model of a build session: ghost mirrors of the builder's
//! state, the resolution of a configuration into file specifications, and the
//! state transitions that license acceptance and file addition perform.

use vstd::prelude::*;

use crate::catalog::{spec_board_from_name, spec_rom_type_from_name, Board, RomType};
use crate::config::{ConfigErrorV, ConfigV, FileConfigV, SetConfigV, SetType};
use crate::policy::{spec_apply_size_handling, SizeHandling};

verus! {

/// The most files one build can address: ids and counts are carried as 16-bit
/// values in the image header and metadata record.
pub const MAX_FILES: usize = 0xFFFF;

/// Ghost mirror of one resolved file specification.
#[verifier::ext_equal]
pub ghost struct FileSpecV {
    pub id: int,
    pub source: Seq<char>,
    pub extract: Option<Seq<char>>,
    pub size_handling: SizeHandling,
    pub rom_type: RomType,
    pub description: Option<Seq<char>>,
    pub rom_size: nat,
    pub set_id: int,
    pub cs1: Option<Seq<char>>,
    pub cs2: Option<Seq<char>>,
    pub cs3: Option<Seq<char>>,
    pub set_type: SetType,
    pub set_description: Option<Seq<char>>,
}

/// Ghost mirror of one license obligation with its acceptance state.
#[verifier::ext_equal]
pub ghost struct LicenseStateV {
    pub id: int,
    pub file_id: int,
    pub url: Seq<char>,
    pub accepted: bool,
}

/// Ghost mirror of a license value as a caller presents it.
#[verifier::ext_equal]
pub ghost struct LicenseV {
    pub id: int,
    pub file_id: int,
    pub url: Seq<char>,
}

/// Ghost mirror of retrieved file bytes as a caller presents them.
#[verifier::ext_equal]
pub ghost struct FileDataV {
    pub id: int,
    pub data: Seq<u8>,
}

/// Ghost mirror of a whole build session.
#[verifier::ext_equal]
pub ghost struct BuilderV {
    pub specs: Seq<FileSpecV>,
    pub lics: Seq<LicenseStateV>,
    /// Stored bytes per file, indexed like `specs`; `None` until added.
    pub files: Seq<Option<Seq<u8>>>,
    pub description: Seq<char>,
    pub categories: Seq<Seq<char>>,
}

/// Well-formedness of a specification list: ids are positional, ROM sizes
/// follow the ROM type, and set ids run contiguously from zero with every
/// member of a set agreeing on the set's type and description.
pub open spec fn specs_wf(specs: Seq<FileSpecV>) -> bool {
    &&& specs.len() <= MAX_FILES
    &&& (forall|i: int| 0 <= i < specs.len() ==> (#[trigger] specs[i]).id == i)
    &&& (forall|i: int|
        0 <= i < specs.len() ==> (#[trigger] specs[i]).rom_size
            == specs[i].rom_type.spec_size_bytes())
    &&& (specs.len() > 0 ==> specs[0].set_id == 0)
    &&& (forall|i: int|
        #![trigger specs[i], specs[i - 1]]
        0 < i < specs.len() ==> specs[i].set_id == specs[i - 1].set_id || specs[i].set_id
            == specs[i - 1].set_id + 1)
    &&& (forall|i: int, j: int|
        0 <= i < specs.len() && 0 <= j < specs.len() && (#[trigger] specs[i]).set_id == (
        #[trigger] specs[j]).set_id ==> specs[i].set_type == specs[j].set_type && specs[
            i].set_description == specs[j].set_description)
}

/// How many sets a specification list forms.
pub open spec fn num_sets_of(specs: Seq<FileSpecV>) -> int {
    if specs.len() == 0 {
        0
    } else {
        specs.last().set_id + 1
    }
}

impl BuilderV {
    /// Well-formedness: what construction establishes and every operation
    /// preserves.
    pub open spec fn wf(self) -> bool {
        &&& self.files.len() == self.specs.len()
        &&& specs_wf(self.specs)
        &&& (forall|i: int|
            0 <= i < self.lics.len() ==> (#[trigger] self.lics[i]).id == i)
        &&& (forall|i: int|
            0 <= i < self.lics.len() ==> 0 <= (#[trigger] self.lics[i]).file_id
                < self.specs.len())
        &&& (forall|i: int, j: int|
            0 <= i < self.lics.len() && 0 <= j < self.lics.len() && i != j
                ==> (#[trigger] self.lics[i]).file_id != (#[trigger] self.lics[j]).file_id)
        &&& (forall|i: int|
            0 <= i < self.files.len() ==> ((#[trigger] self.files[i]) matches Some(d)
                ==> d.len() == self.specs[i].rom_size))
    }

    /// How many sets the session's specifications form.
    pub open spec fn num_sets(self) -> int {
        num_sets_of(self.specs)
    }
}

// ---------------------------------------------------------------------------
// Resolving a configuration.
// ---------------------------------------------------------------------------
/// The number of files all sets together require.
pub open spec fn spec_count_files(sets: Seq<SetConfigV>) -> int
    decreases sets.len(),
{
    if sets.len() == 0 {
        0
    } else {
        spec_count_files(sets.drop_last()) + sets.last().files.len()
    }
}

/// The file specification one configured file resolves to.
pub open spec fn spec_file_spec_of(
    f: FileConfigV,
    id: int,
    set_id: int,
    set_type: SetType,
    set_description: Option<Seq<char>>,
) -> FileSpecV {
    FileSpecV {
        id,
        source: f.source,
        extract: f.extract,
        size_handling: f.size_handling,
        rom_type: spec_rom_type_from_name(f.rom_type).unwrap(),
        description: f.description,
        rom_size: spec_rom_type_from_name(f.rom_type).unwrap().spec_size_bytes() as nat,
        set_id,
        cs1: f.cs1,
        cs2: f.cs2,
        cs3: f.cs3,
        set_type,
        set_description,
    }
}

/// The file specifications one set resolves to, with ids starting at
/// `first_id`.
pub open spec fn spec_set_specs(s: SetConfigV, set_id: int, first_id: int) -> Seq<FileSpecV> {
    Seq::new(
        s.files.len(),
        |k: int| spec_file_spec_of(s.files[k], first_id + k, set_id, s.set_type, s.set_description),
    )
}

/// The ordered file specifications a configuration resolves to: set by set,
/// file by file, ids and set ids assigned in order.
pub open spec fn spec_resolve_specs(sets: Seq<SetConfigV>) -> Seq<FileSpecV>
    decreases sets.len(),
{
    if sets.len() == 0 {
        Seq::empty()
    } else {
        spec_resolve_specs(sets.drop_last()) + spec_set_specs(
            sets.last(),
            sets.len() - 1,
            spec_count_files(sets.drop_last()),
        )
    }
}

/// All configured files in resolution order, with set structure forgotten.
pub open spec fn spec_flat_files(sets: Seq<SetConfigV>) -> Seq<FileConfigV>
    decreases sets.len(),
{
    if sets.len() == 0 {
        Seq::empty()
    } else {
        spec_flat_files(sets.drop_last()) + sets.last().files
    }
}

/// The license obligations of a flat file list: one per file that names a
/// license URL, ids assigned in order, none accepted yet. The position of a
/// file in the list is its file id.
pub open spec fn spec_licenses_of(files: Seq<FileConfigV>) -> Seq<LicenseStateV>
    decreases files.len(),
{
    if files.len() == 0 {
        Seq::empty()
    } else {
        let rest = spec_licenses_of(files.drop_last());
        match files.last().license_url {
            None => rest,
            Some(url) => rest.push(
                LicenseStateV { id: rest.len() as int, file_id: files.len() - 1, url, accepted: false },
            ),
        }
    }
}

/// The first reason to reject the sets of a configuration, scanning sets in
/// order and, within a set, files in order: an empty set is reported before
/// its files are examined.
pub open spec fn spec_first_set_error(sets: Seq<SetConfigV>, i: int) -> Option<ConfigErrorV>
    decreases sets.len() - i,
{
    if i < 0 || i >= sets.len() {
        None
    } else if sets[i].files.len() == 0 {
        Some(ConfigErrorV::EmptySet { set_index: i })
    } else {
        match spec_first_rom_error(sets[i].files, 0) {
            Some(name) => Some(ConfigErrorV::UnknownRomType { name }),
            None => spec_first_set_error(sets, i + 1),
        }
    }
}

/// The name of the first ROM type in `files`, from position `j` on, that the
/// catalog does not know.
pub open spec fn spec_first_rom_error(files: Seq<FileConfigV>, j: int) -> Option<Seq<char>>
    decreases files.len() - j,
{
    if j < 0 || j >= files.len() {
        None
    } else if spec_rom_type_from_name(files[j].rom_type) is None {
        Some(files[j].rom_type)
    } else {
        spec_first_rom_error(files, j + 1)
    }
}

/// The reason a configuration is rejected, or `None` where construction
/// succeeds: an unknown board first, then the first set error, then the file
/// count limit.
pub open spec fn spec_config_error(c: ConfigV) -> Option<ConfigErrorV> {
    if c.board matches Some(b) && spec_board_from_name(b) is None {
        Some(ConfigErrorV::UnknownBoard { name: c.board.unwrap() })
    } else {
        match spec_first_set_error(c.sets, 0) {
            Some(e) => Some(e),
            None => if spec_count_files(c.sets) > MAX_FILES {
                Some(ConfigErrorV::TooManyFiles)
            } else {
                None
            },
        }
    }
}

pub open spec fn spec_config_ok(c: ConfigV) -> bool {
    spec_config_error(c) is None
}

/// The session a configuration resolves to: specifications and license
/// obligations derived from the sets, no bytes stored, nothing accepted.
pub open spec fn spec_builder_of(c: ConfigV) -> BuilderV {
    BuilderV {
        specs: spec_resolve_specs(c.sets),
        lics: spec_licenses_of(spec_flat_files(c.sets)),
        files: Seq::new(spec_resolve_specs(c.sets).len(), |i: int| None),
        description: c.description,
        categories: c.categories,
    }
}

// ---------------------------------------------------------------------------
// State transitions.
// ---------------------------------------------------------------------------
/// A reason a license is not accepted.
#[derive(Clone, Copy, PartialEq, Eq, Structural, Debug)]
pub enum LicenseError {
    /// No license with the given id is registered.
    UnknownLicense,
    /// A license with the given id exists, but its file id or URL differs
    /// from the registered value.
    LicenseMismatch,
}

/// A reason retrieved file bytes are not stored.
#[derive(Clone, Copy, PartialEq, Eq, Structural, Debug)]
pub enum FileError {
    /// No file specification with the given id exists.
    UnknownFileId,
    /// The byte length violates the file's size-handling policy.
    SizeMismatch,
}

/// What accepting a license does: the state after the call and the result.
/// On any error the state is unchanged.
pub open spec fn spec_accept_license(b: BuilderV, l: LicenseV) -> (BuilderV, Result<
    (),
    LicenseError,
>) {
    if !(0 <= l.id < b.lics.len()) {
        (b, Err(LicenseError::UnknownLicense))
    } else {
        let cur = b.lics[l.id];
        if cur.file_id != l.file_id || cur.url != l.url {
            (b, Err(LicenseError::LicenseMismatch))
        } else {
            (
                BuilderV { lics: b.lics.update(l.id, LicenseStateV { accepted: true, ..cur }), ..b },
                Ok(()),
            )
        }
    }
}

/// What adding a file does: the state after the call and the result. The
/// stored bytes are the input normalized by the file's size-handling policy;
/// re-adding replaces. On any error the state is unchanged.
pub open spec fn spec_add_file(b: BuilderV, fd: FileDataV) -> (BuilderV, Result<(), FileError>) {
    if !(0 <= fd.id < b.specs.len()) {
        (b, Err(FileError::UnknownFileId))
    } else {
        match spec_apply_size_handling(b.specs[fd.id].size_handling, fd.data, b.specs[fd.id].rom_size) {
            None => (b, Err(FileError::SizeMismatch)),
            Some(norm) => (BuilderV { files: b.files.update(fd.id, Some(norm)), ..b }, Ok(())),
        }
    }
}

// ---------------------------------------------------------------------------
// Readiness validation.
// ---------------------------------------------------------------------------
/// A set-level consistency violation.
#[derive(Clone, Copy, PartialEq, Eq, Structural, Debug)]
pub enum SetViolationKind {
    /// A single-ROM set must have exactly one member.
    WrongMemberCount,
    /// Every member of a banked or multi-ROM set must carry a `cs1` tag.
    MissingChipSelect,
    /// The resolved board cannot serve a multi-ROM set.
    BoardLacksMultiRomSets,
}

/// Ghost mirror of one reported set violation.
#[verifier::ext_equal]
pub ghost struct SetViolationV {
    pub set_id: int,
    pub kind: SetViolationKind,
}

/// The ids of the not-yet-accepted licenses among the first `n` registered
/// ones, in registration order.
pub open spec fn spec_missing_license_ids_upto(lics: Seq<LicenseStateV>, n: int) -> Seq<int>
    decreases n,
{
    if n <= 0 {
        Seq::empty()
    } else {
        let rest = spec_missing_license_ids_upto(lics, n - 1);
        if lics[n - 1].accepted {
            rest
        } else {
            rest.push(lics[n - 1].id)
        }
    }
}

/// The ids of registered licenses not yet accepted, in registration order.
pub open spec fn spec_missing_license_ids(lics: Seq<LicenseStateV>) -> Seq<int> {
    spec_missing_license_ids_upto(lics, lics.len() as int)
}

/// The ids of the file specifications without stored bytes among the first
/// `n`, in specification order.
pub open spec fn spec_missing_file_ids_upto(
    specs: Seq<FileSpecV>,
    files: Seq<Option<Seq<u8>>>,
    n: int,
) -> Seq<int>
    decreases n,
{
    if n <= 0 {
        Seq::empty()
    } else {
        let rest = spec_missing_file_ids_upto(specs, files, n - 1);
        if files[n - 1] is Some {
            rest
        } else {
            rest.push(specs[n - 1].id)
        }
    }
}

/// The ids of file specifications without stored bytes, in specification
/// order.
pub open spec fn spec_missing_file_ids(b: BuilderV) -> Seq<int> {
    spec_missing_file_ids_upto(b.specs, b.files, b.files.len() as int)
}

/// The member indices of set `set_id` among the first `n` specifications.
pub open spec fn spec_set_member_count(specs: Seq<FileSpecV>, set_id: int, n: int) -> int
    decreases n,
{
    if n <= 0 {
        0
    } else {
        spec_set_member_count(specs, set_id, n - 1) + if specs[n - 1].set_id == set_id {
            1int
        } else {
            0int
        }
    }
}

/// Whether every member of set `set_id` among the first `n` specifications
/// carries a `cs1` tag.
pub open spec fn spec_set_members_have_cs1(specs: Seq<FileSpecV>, set_id: int, n: int) -> bool {
    forall|i: int| 0 <= i < n && (#[trigger] specs[i]).set_id == set_id ==> specs[i].cs1 is Some
}

/// The set type of set `set_id`: the type its first member declares. Every
/// member declares the same type in a well-formed session.
pub open spec fn spec_set_type_of(specs: Seq<FileSpecV>, set_id: int) -> SetType {
    specs[spec_first_member_of(specs, set_id)].set_type
}

/// The index of the first member of set `set_id`.
pub open spec fn spec_first_member_of(specs: Seq<FileSpecV>, set_id: int) -> int {
    choose|i: int| 0 <= i < specs.len() && (#[trigger] specs[i]).set_id == set_id
}

/// The violations of one set, given the resolved board if any: a wrong member
/// count or a missing chip select for the set's type, and a multi-ROM set on
/// a board that cannot serve one.
pub open spec fn spec_violations_of_set(specs: Seq<FileSpecV>, set_id: int, board: Option<
    Board,
>) -> Seq<SetViolationV> {
    let count = spec_set_member_count(specs, set_id, specs.len() as int);
    let cs_ok = spec_set_members_have_cs1(specs, set_id, specs.len() as int);
    match spec_set_type_of(specs, set_id) {
        SetType::Single => if count != 1 {
            seq![SetViolationV { set_id, kind: SetViolationKind::WrongMemberCount }]
        } else {
            Seq::empty()
        },
        SetType::Banked => if !cs_ok {
            seq![SetViolationV { set_id, kind: SetViolationKind::MissingChipSelect }]
        } else {
            Seq::empty()
        },
        SetType::MultiRom => (if board matches Some(bd) && !bd.spec_supports_multi_rom_sets() {
            seq![SetViolationV { set_id, kind: SetViolationKind::BoardLacksMultiRomSets }]
        } else {
            Seq::empty()
        }) + (if !cs_ok {
            seq![SetViolationV { set_id, kind: SetViolationKind::MissingChipSelect }]
        } else {
            Seq::empty()
        }),
    }
}

/// The violations of the first `n` sets, in set order.
pub open spec fn spec_set_violations_upto(specs: Seq<FileSpecV>, board: Option<Board>, n: int) -> Seq<
    SetViolationV,
>
    decreases n,
{
    if n <= 0 {
        Seq::empty()
    } else {
        spec_set_violations_upto(specs, board, n - 1) + spec_violations_of_set(specs, n - 1, board)
    }
}

/// All set violations of a specification list.
pub open spec fn spec_set_violations(specs: Seq<FileSpecV>, board: Option<Board>) -> Seq<
    SetViolationV,
> {
    spec_set_violations_upto(specs, board, num_sets_of(specs))
}

/// Ghost mirror of an aggregate validation failure.
#[verifier::ext_equal]
pub ghost struct ValidationFailureV {
    pub unknown_board: bool,
    pub missing_licenses: Seq<int>,
    pub missing_files: Seq<int>,
    pub set_violations: Seq<SetViolationV>,
}

/// Everything readiness validation finds wrong with the session under the
/// given properties.
pub open spec fn spec_validation_failure(
    b: BuilderV,
    p: crate::config::FirmwarePropertiesV,
) -> ValidationFailureV {
    ValidationFailureV {
        unknown_board: p.spec_board() is None,
        missing_licenses: spec_missing_license_ids(b.lics),
        missing_files: spec_missing_file_ids(b),
        set_violations: spec_set_violations(b.specs, p.spec_board()),
    }
}

/// Whether the session is ready to build under the given properties: the
/// board resolves, every license is accepted, every file's bytes are stored,
/// and no set rule is violated.
pub open spec fn spec_validation_ok(b: BuilderV, p: crate::config::FirmwarePropertiesV) -> bool {
    let f = spec_validation_failure(b, p);
    &&& !f.unknown_board
    &&& f.missing_licenses.len() == 0
    &&& f.missing_files.len() == 0
    &&& f.set_violations.len() == 0
}

} // verus!
