//! The build session: resolved file specifications, the license gate, the
//! file store, readiness validation and image synthesis.

use vstd::prelude::*;

use crate::catalog::{rom_type_from_name, spec_rom_type_from_name, RomType};
use crate::config::{view_opt_str, Config, ConfigError, SetConfigV, SetType};
use crate::model::{
    spec_accept_license, spec_add_file, spec_builder_of, spec_config_error, spec_config_ok,
    spec_count_files, spec_file_spec_of, spec_first_rom_error, spec_first_set_error,
    spec_flat_files, spec_licenses_of, spec_resolve_specs, spec_set_specs, BuilderV, FileDataV,
    FileError, FileSpecV, LicenseError, LicenseStateV, LicenseV, MAX_FILES,
};
use vstd::pervasive::VecAdditionalExecFns;
use crate::policy::SizeHandling;

verus! {

/// One input file the build requires, resolved from the configuration.
pub struct FileSpec {
    /// Unique within the session; positional.
    pub id: usize,
    /// Where the byte-provider should fetch the file from; uninterpreted.
    pub source: String,
    /// Optional selector the byte-provider must apply; uninterpreted.
    pub extract: Option<String>,
    pub size_handling: SizeHandling,
    pub rom_type: RomType,
    pub description: Option<String>,
    /// Expected payload size in bytes after the size-handling policy is
    /// applied; determined by the ROM type.
    pub rom_size: usize,
    /// The set this file belongs to.
    pub set_id: usize,
    pub cs1: Option<String>,
    pub cs2: Option<String>,
    pub cs3: Option<String>,
    pub set_type: SetType,
    pub set_description: Option<String>,
}

impl View for FileSpec {
    type V = FileSpecV;

    open spec fn view(&self) -> FileSpecV {
        FileSpecV {
            id: self.id as int,
            source: self.source@,
            extract: view_opt_str(self.extract),
            size_handling: self.size_handling,
            rom_type: self.rom_type,
            description: view_opt_str(self.description),
            rom_size: self.rom_size as nat,
            set_id: self.set_id as int,
            cs1: view_opt_str(self.cs1),
            cs2: view_opt_str(self.cs2),
            cs3: view_opt_str(self.cs3),
            set_type: self.set_type,
            set_description: view_opt_str(self.set_description),
        }
    }
}

/// A license obligation as a caller presents it for acceptance.
pub struct License {
    pub id: usize,
    pub file_id: usize,
    pub url: String,
}

impl View for License {
    type V = LicenseV;

    open spec fn view(&self) -> LicenseV {
        LicenseV { id: self.id as int, file_id: self.file_id as int, url: self.url@ }
    }
}

/// A registered license obligation with its current acceptance state.
pub struct LicenseState {
    pub id: usize,
    pub file_id: usize,
    pub url: String,
    pub accepted: bool,
}

impl View for LicenseState {
    type V = LicenseStateV;

    open spec fn view(&self) -> LicenseStateV {
        LicenseStateV {
            id: self.id as int,
            file_id: self.file_id as int,
            url: self.url@,
            accepted: self.accepted,
        }
    }
}

/// Retrieved file bytes, handed in by the caller after out-of-band retrieval.
pub struct FileData {
    /// Must match a resolved file specification's id.
    pub id: usize,
    pub data: Vec<u8>,
}

impl View for FileData {
    type V = FileDataV;

    open spec fn view(&self) -> FileDataV {
        FileDataV { id: self.id as int, data: self.data@ }
    }
}

fn clone_opt_string(o: &Option<String>) -> (r: Option<String>)
    ensures
        view_opt_str(r) == view_opt_str(*o),
{
    match o {
        Some(s) => Some(s.clone()),
        None => None,
    }
}

impl Clone for FileSpec {
    fn clone(&self) -> (r: Self)
        ensures
            r@ == self@,
    {
        FileSpec {
            id: self.id,
            source: self.source.clone(),
            extract: clone_opt_string(&self.extract),
            size_handling: self.size_handling,
            rom_type: self.rom_type,
            description: clone_opt_string(&self.description),
            rom_size: self.rom_size,
            set_id: self.set_id,
            cs1: clone_opt_string(&self.cs1),
            cs2: clone_opt_string(&self.cs2),
            cs3: clone_opt_string(&self.cs3),
            set_type: self.set_type,
            set_description: clone_opt_string(&self.set_description),
        }
    }
}

impl Clone for License {
    fn clone(&self) -> (r: Self)
        ensures
            r@ == self@,
    {
        License { id: self.id, file_id: self.file_id, url: self.url.clone() }
    }
}

impl Clone for LicenseState {
    fn clone(&self) -> (r: Self)
        ensures
            r@ == self@,
    {
        LicenseState {
            id: self.id,
            file_id: self.file_id,
            url: self.url.clone(),
            accepted: self.accepted,
        }
    }
}

/// The views of a sequence of file specifications.
pub open spec fn views_of_specs(v: Seq<FileSpec>) -> Seq<FileSpecV> {
    Seq::new(v.len(), |i: int| v[i]@)
}

/// The views of a sequence of license states.
pub open spec fn views_of_lics(v: Seq<LicenseState>) -> Seq<LicenseStateV> {
    Seq::new(v.len(), |i: int| v[i]@)
}

/// The views of a sequence of optional byte vectors.
pub open spec fn views_of_files(v: Seq<Option<Vec<u8>>>) -> Seq<Option<Seq<u8>>> {
    Seq::new(
        v.len(),
        |i: int|
            match v[i] {
                Some(d) => Some(d@),
                None => None,
            },
    )
}

/// The views of a sequence of strings.
pub open spec fn views_of_strings(v: Seq<String>) -> Seq<Seq<char>> {
    Seq::new(v.len(), |i: int| v[i]@)
}

/// One build session. Owns the resolved file specifications (immutable once
/// resolved), the license gate, and the file store; nothing else mutates this
/// state.
pub struct Builder {
    specs: Vec<FileSpec>,
    lics: Vec<LicenseState>,
    files: Vec<Option<Vec<u8>>>,
    description: String,
    categories: Vec<String>,
}

impl View for Builder {
    type V = BuilderV;

    closed spec fn view(&self) -> BuilderV {
        BuilderV {
            specs: views_of_specs(self.specs@),
            lics: views_of_lics(self.lics@),
            files: views_of_files(self.files@),
            description: self.description@,
            categories: views_of_strings(self.categories@),
        }
    }
}

// ---------------------------------------------------------------------------
// Lemmas about configuration resolution.
// ---------------------------------------------------------------------------
/// Unfolding the resolution of a one-set-longer prefix.
proof fn lemma_take_step(sets: Seq<SetConfigV>, s: int)
    requires
        0 <= s < sets.len(),
    ensures
        spec_count_files(sets.take(s + 1)) == spec_count_files(sets.take(s))
            + sets[s].files.len(),
        spec_resolve_specs(sets.take(s + 1)) == spec_resolve_specs(sets.take(s))
            + spec_set_specs(sets[s], s, spec_count_files(sets.take(s))),
        spec_flat_files(sets.take(s + 1)) == spec_flat_files(sets.take(s)) + sets[s].files,
{
    let t = sets.take(s + 1);
    assert(t.drop_last() =~= sets.take(s));
    assert(t.last() == sets[s]);
}

/// The flat file list and the resolved specifications are as long as the
/// count says, and the count is not negative.
proof fn lemma_count_len(sets: Seq<SetConfigV>)
    ensures
        spec_count_files(sets) >= 0,
        spec_flat_files(sets).len() == spec_count_files(sets),
        spec_resolve_specs(sets).len() == spec_count_files(sets),
    decreases sets.len(),
{
    if sets.len() > 0 {
        lemma_count_len(sets.drop_last());
    }
}

/// A prefix never requires more files than the whole configuration.
proof fn lemma_count_mono(sets: Seq<SetConfigV>, n: int)
    requires
        0 <= n <= sets.len(),
    ensures
        spec_count_files(sets.take(n)) <= spec_count_files(sets),
    decreases sets.len() - n,
{
    if n == sets.len() {
        assert(sets.take(n) =~= sets);
    } else {
        lemma_take_step(sets, n);
        lemma_count_mono(sets, n + 1);
    }
}

/// Structural facts about the license obligations of a flat file list: ids
/// are positional, file ids point into the list and strictly increase, and
/// nothing is accepted yet.
proof fn lemma_licenses_props(files: Seq<crate::config::FileConfigV>)
    ensures
        forall|i: int|
            0 <= i < spec_licenses_of(files).len() ==> (#[trigger] spec_licenses_of(files)[i]).id
                == i,
        forall|i: int|
            0 <= i < spec_licenses_of(files).len() ==> 0 <= (#[trigger] spec_licenses_of(
                files,
            )[i]).file_id < files.len(),
        forall|i: int, j: int|
            0 <= i < j < spec_licenses_of(files).len() ==> (#[trigger] spec_licenses_of(
                files,
            )[i]).file_id < (#[trigger] spec_licenses_of(files)[j]).file_id,
        forall|i: int|
            0 <= i < spec_licenses_of(files).len() ==> !(#[trigger] spec_licenses_of(
                files,
            )[i]).accepted,
        spec_licenses_of(files).len() <= files.len(),
    decreases files.len(),
{
    if files.len() > 0 {
        lemma_licenses_props(files.drop_last());
    }
}

/// Appending one file extends the license obligations by at most one entry.
proof fn lemma_licenses_push(files: Seq<crate::config::FileConfigV>, f: crate::config::FileConfigV)
    ensures
        spec_licenses_of(files.push(f)) == (match f.license_url {
            Some(url) => spec_licenses_of(files).push(
                LicenseStateV {
                    id: spec_licenses_of(files).len() as int,
                    file_id: files.len() as int,
                    url,
                    accepted: false,
                },
            ),
            None => spec_licenses_of(files),
        }),
{
    assert(files.push(f).drop_last() =~= files);
    assert(files.push(f).last() == f);
}

/// A scan that found nothing wrong with the sets really left every set
/// non-empty with every ROM type resolved.
proof fn lemma_sets_ok(sets: Seq<SetConfigV>, i: int)
    requires
        spec_first_set_error(sets, 0) is None,
        0 <= i < sets.len(),
    ensures
        sets[i].files.len() > 0,
        forall|j: int|
            0 <= j < sets[i].files.len() ==> spec_rom_type_from_name(
                (#[trigger] sets[i].files[j]).rom_type,
            ) is Some,
{
    lemma_set_scan_none(sets, 0, i);
    lemma_rom_scan_none(sets[i].files, 0);
}

proof fn lemma_set_scan_none(sets: Seq<SetConfigV>, k: int, i: int)
    requires
        spec_first_set_error(sets, k) is None,
        0 <= k <= i < sets.len(),
    ensures
        sets[i].files.len() > 0,
        spec_first_rom_error(sets[i].files, 0) is None,
    decreases i - k,
{
    if k < i {
        lemma_set_scan_none(sets, k + 1, i);
    }
}

proof fn lemma_rom_scan_none(files: Seq<crate::config::FileConfigV>, j: int)
    requires
        spec_first_rom_error(files, 0) is None,
        0 <= j,
    ensures
        forall|m: int|
            0 <= m < files.len() ==> spec_rom_type_from_name(
                (#[trigger] files[m]).rom_type,
            ) is Some,
{
    assert forall|m: int| 0 <= m < files.len() implies spec_rom_type_from_name(
        (#[trigger] files[m]).rom_type,
    ) is Some by {
        lemma_rom_scan_step(files, 0, m);
    }
}

proof fn lemma_rom_scan_step(files: Seq<crate::config::FileConfigV>, k: int, m: int)
    requires
        spec_first_rom_error(files, k) is None,
        0 <= k <= m < files.len(),
    ensures
        spec_rom_type_from_name(files[m].rom_type) is Some,
    decreases m - k,
{
    if k < m {
        lemma_rom_scan_step(files, k + 1, m);
    }
}

/// The views of a sequence of set configurations.
pub open spec fn views_of_sets(v: Seq<crate::config::SetConfig>) -> Seq<SetConfigV> {
    Seq::new(v.len(), |i: int| v[i]@)
}

/// Scan the sets in order: no empty set, every ROM type known.
#[verifier::loop_isolation(false)]
fn scan_sets(sets: &Vec<crate::config::SetConfig>) -> (r: Option<ConfigError>)
    ensures
        match r {
            None => spec_first_set_error(views_of_sets(sets@), 0) is None,
            Some(e) => spec_first_set_error(views_of_sets(sets@), 0) == Some(e@),
        },
{
    let ghost svs = views_of_sets(sets@);
    let mut s: usize = 0;
    while s < sets.len()
        invariant
            s <= sets.len(),
            spec_first_set_error(svs, s as int) == spec_first_set_error(svs, 0),
        decreases sets.len() - s,
    {
        if sets[s].files.len() == 0 {
            assert(svs[s as int].files.len() == 0);
            return Some(ConfigError::EmptySet { set_index: s });
        }
        let flen = sets[s].files.len();
        let mut j: usize = 0;
        while j < flen
            invariant
                s < sets.len(),
                flen == svs[s as int].files.len(),
                j <= flen,
                spec_first_rom_error(svs[s as int].files, j as int) == spec_first_rom_error(
                    svs[s as int].files,
                    0,
                ),
            decreases flen - j,
        {
            let fc = &sets[s].files[j];
            assert(fc@ == svs[s as int].files[j as int]);
            if rom_type_from_name(&fc.rom_type).is_none() {
                assert(spec_first_rom_error(svs[s as int].files, j as int) == Some(fc.rom_type@));
                return Some(ConfigError::UnknownRomType { name: fc.rom_type.clone() });
            }
            j = j + 1;
        }
        assert(spec_first_rom_error(svs[s as int].files, flen as int) is None);
        s = s + 1;
    }
    assert(spec_first_set_error(svs, sets@.len() as int) is None);
    None
}

/// Count the files all sets require, against the addressable limit.
#[verifier::loop_isolation(false)]
fn count_all_files(sets: &Vec<crate::config::SetConfig>) -> (r: Option<usize>)
    ensures
        match r {
            Some(c) => c == spec_count_files(views_of_sets(sets@)) && c <= MAX_FILES,
            None => spec_count_files(views_of_sets(sets@)) > MAX_FILES,
        },
{
    let ghost svs = views_of_sets(sets@);
    let mut cnt: usize = 0;
    let mut s: usize = 0;
    while s < sets.len()
        invariant
            s <= sets.len(),
            cnt == spec_count_files(svs.take(s as int)),
            cnt <= MAX_FILES,
        decreases sets.len() - s,
    {
        let flen = sets[s].files.len();
        proof {
            lemma_take_step(svs, s as int);
        }
        if flen > MAX_FILES - cnt {
            proof {
                lemma_count_mono(svs, s as int + 1);
            }
            return None;
        }
        cnt = cnt + flen;
        s = s + 1;
    }
    proof {
        assert(svs.take(sets@.len() as int) =~= svs);
    }
    Some(cnt)
}


/// The state of resolution after the first `s` sets: what the specification
/// and license vectors hold, and the structural facts that make the final
/// session well-formed.
pub open spec fn resolution_state_ok(
    svs: Seq<SetConfigV>,
    s: int,
    vs: Seq<FileSpecV>,
    vl: Seq<LicenseStateV>,
) -> bool {
    &&& vs == spec_resolve_specs(svs.take(s))
    &&& vl == spec_licenses_of(spec_flat_files(svs.take(s)))
    &&& vs.len() == spec_count_files(svs.take(s))
}

/// Resolve the members of set `s`, appending to the vectors.
#[verifier::rlimit(100)]
#[verifier::loop_isolation(false)]
fn resolve_one_set(
    sets: &Vec<crate::config::SetConfig>,
    s: usize,
    specs: &mut Vec<FileSpec>,
    lics: &mut Vec<LicenseState>,
    files: &mut Vec<Option<Vec<u8>>>,
)
    requires
        s < sets@.len(),
        spec_first_set_error(views_of_sets(sets@), 0) is None,
        spec_count_files(views_of_sets(sets@)) <= MAX_FILES,
        resolution_state_ok(
            views_of_sets(sets@),
            s as int,
            views_of_specs(old(specs)@),
            views_of_lics(old(lics)@),
        ),
        forall|i: int| 0 <= i < old(files)@.len() ==> (#[trigger] old(files)@[i]) is None,
        old(files)@.len() == old(specs)@.len(),
    ensures
        resolution_state_ok(
            views_of_sets(sets@),
            s as int + 1,
            views_of_specs(final(specs)@),
            views_of_lics(final(lics)@),
        ),
        forall|i: int| 0 <= i < final(files)@.len() ==> (#[trigger] final(files)@[i]) is None,
        final(files)@.len() == final(specs)@.len(),
{
    let ghost svs = views_of_sets(sets@);
    let set_type = sets[s].set_type;
    let flen = sets[s].files.len();
    let ghost base = specs@.len() as int;
    proof {
        lemma_take_step(svs, s as int);
        lemma_count_mono(svs, s as int + 1);
        lemma_count_len(svs.take(s as int));
        lemma_sets_ok(svs, s as int);
        assert(spec_set_specs(svs[s as int], s as int, base).take(0)
            =~= Seq::<FileSpecV>::empty());
        assert(svs[s as int].files.take(0) =~= Seq::<crate::config::FileConfigV>::empty());
        assert(spec_flat_files(svs.take(s as int)) + svs[s as int].files.take(0)
            =~= spec_flat_files(svs.take(s as int)));
        assert(views_of_specs(specs@) =~= spec_resolve_specs(svs.take(s as int))
            + spec_set_specs(svs[s as int], s as int, base).take(0));
    }
    let mut j: usize = 0;
    while j < flen
        invariant
            j <= flen,
            specs@.len() == base + j,
            views_of_specs(specs@) == spec_resolve_specs(svs.take(s as int)) + spec_set_specs(
                svs[s as int],
                s as int,
                base,
            ).take(j as int),
            views_of_lics(lics@) == spec_licenses_of(
                spec_flat_files(svs.take(s as int)) + svs[s as int].files.take(j as int),
            ),
            forall|i: int| 0 <= i < files@.len() ==> (#[trigger] files@[i]) is None,
            files@.len() == specs@.len(),
        decreases flen - j,
    {
        let ghost flat = spec_flat_files(svs.take(s as int)) + svs[s as int].files.take(j as int);
        proof {
            lemma_count_len(svs.take(s as int));
        }
        let fc = &sets[s].files[j];
        assert(fc@ == svs[s as int].files[j as int]);
        let rt = rom_type_from_name(&fc.rom_type).unwrap();
        let id = specs.len();
        let fs = FileSpec {
            id,
            source: fc.source.clone(),
            extract: clone_opt_string(&fc.extract),
            size_handling: fc.size_handling,
            rom_type: rt,
            description: clone_opt_string(&fc.description),
            rom_size: rt.size_bytes(),
            set_id: s,
            cs1: clone_opt_string(&fc.cs1),
            cs2: clone_opt_string(&fc.cs2),
            cs3: clone_opt_string(&fc.cs3),
            set_type,
            set_description: clone_opt_string(&sets[s].set_description),
        };
        assert(fs@ =~= spec_file_spec_of(
            svs[s as int].files[j as int],
            base + j,
            s as int,
            svs[s as int].set_type,
            svs[s as int].set_description,
        ));
        let ghost prev_specs = specs@;
        let ghost prev_lics = lics@;
        match &fc.license_url {
            Some(url) => {
                let lid = lics.len();
                lics.push(
                    LicenseState { id: lid, file_id: id, url: url.clone(), accepted: false },
                );
                assert(views_of_lics(lics@) =~= views_of_lics(prev_lics).push(
                    LicenseStateV {
                        id: lid as int,
                        file_id: id as int,
                        url: url@,
                        accepted: false,
                    },
                ));
            },
            None => {},
        }
        specs.push(fs);
        files.push(None);
        proof {
            lemma_licenses_push(flat, svs[s as int].files[j as int]);
            assert(flat.push(svs[s as int].files[j as int]) =~= spec_flat_files(
                svs.take(s as int),
            ) + svs[s as int].files.take(j as int + 1));
            assert(views_of_lics(lics@) =~= spec_licenses_of(
                spec_flat_files(svs.take(s as int)) + svs[s as int].files.take(j as int + 1),
            ));
            assert(views_of_specs(specs@) =~= views_of_specs(prev_specs).push(fs@));
            assert(spec_set_specs(svs[s as int], s as int, base).take(j as int + 1)
                =~= spec_set_specs(svs[s as int], s as int, base).take(j as int).push(fs@));
            assert(views_of_specs(specs@) =~= spec_resolve_specs(svs.take(s as int))
                + spec_set_specs(svs[s as int], s as int, base).take(j as int + 1));
        }
        j = j + 1;
    }
    proof {
        assert(spec_set_specs(svs[s as int], s as int, base).take(flen as int)
            =~= spec_set_specs(svs[s as int], s as int, base));
        assert(svs[s as int].files.take(flen as int) =~= svs[s as int].files);
        lemma_take_step(svs, s as int);
    }
}

/// Resolve the sets into file specifications, license obligations and an
/// empty file store.
#[verifier::loop_isolation(false)]
fn resolve_sets(sets: &Vec<crate::config::SetConfig>) -> (r: (
    Vec<FileSpec>,
    Vec<LicenseState>,
    Vec<Option<Vec<u8>>>,
))
    requires
        spec_first_set_error(views_of_sets(sets@), 0) is None,
        spec_count_files(views_of_sets(sets@)) <= MAX_FILES,
    ensures
        resolution_state_ok(
            views_of_sets(sets@),
            sets@.len() as int,
            views_of_specs(r.0@),
            views_of_lics(r.1@),
        ),
        views_of_files(r.2@) == Seq::new(r.0@.len() as nat, |i: int| None::<Seq<u8>>),
        r.2@.len() == r.0@.len(),
{
    let ghost svs = views_of_sets(sets@);
    let mut specs: Vec<FileSpec> = Vec::new();
    let mut lics: Vec<LicenseState> = Vec::new();
    let mut files: Vec<Option<Vec<u8>>> = Vec::new();
    proof {
        assert(views_of_specs(specs@) =~= spec_resolve_specs(svs.take(0)));
        assert(spec_flat_files(svs.take(0)) =~= Seq::<crate::config::FileConfigV>::empty());
        assert(views_of_lics(lics@) =~= spec_licenses_of(spec_flat_files(svs.take(0))));
    }
    let mut s: usize = 0;
    while s < sets.len()
        invariant
            s <= sets.len(),
            resolution_state_ok(svs, s as int, views_of_specs(specs@), views_of_lics(lics@)),
            forall|i: int| 0 <= i < files@.len() ==> (#[trigger] files@[i]) is None,
            files@.len() == specs@.len(),
        decreases sets.len() - s,
    {
        resolve_one_set(sets, s, &mut specs, &mut lics, &mut files);
        s = s + 1;
    }
    proof {
        assert(views_of_files(files@) =~= Seq::new(specs@.len() as nat, |i: int| None::<Seq<u8>>));
    }
    (specs, lics, files)
}

impl Builder {
    /// Well-formedness of the session; established by construction and
    /// preserved by every operation.
    pub open spec fn wf(&self) -> bool {
        self@.wf()
    }

    /// Construct a build session from a configuration document.
    ///
    /// Resolution reads the configuration once: it derives the ordered file
    /// specifications and the license obligations. Construction fails — and
    /// no partial session is produced — exactly when the configuration names
    /// an unknown board or ROM type, contains an empty set, or requires more
    /// files than a build can address.
    #[verifier::rlimit(50)]
    pub fn from_config(config: Config) -> (r: Result<Builder, ConfigError>)
        ensures
            match r {
                Ok(b) => spec_config_ok(config@) && b@ == spec_builder_of(config@) && b@.wf(),
                Err(e) => spec_config_error(config@) == Some(e@),
            },
    {
        let ghost cv = config@;
        let Config { description, categories, board, sets } = config;
        let ghost svs = cv.sets;
        proof {
            assert(svs =~= views_of_sets(sets@));
        }
        // The board, when named, must resolve.
        match &board {
            Some(bname) => {
                if crate::catalog::board_from_name(bname).is_none() {
                    return Err(ConfigError::UnknownBoard { name: bname.clone() });
                }
            },
            None => {},
        }
        match scan_sets(&sets) {
            Some(e) => {
                return Err(e);
            },
            None => {},
        }
        if count_all_files(&sets).is_none() {
            return Err(ConfigError::TooManyFiles);
        }
        assert(spec_config_error(cv) is None);
        let (specs, lics, files) = resolve_sets(&sets);
        let b = Builder { specs, lics, files, description, categories };
        proof {
            assert(svs.take(svs.len() as int) =~= svs);
            assert(b@.categories =~= cv.categories);
            assert(b@.files =~= Seq::new(spec_resolve_specs(cv.sets).len(), |i: int| None::<
                Seq<u8>,
            >));
            assert(b@ =~= spec_builder_of(cv));
            lemma_builder_wf_final(b@, svs);
        }
        Ok(b)
    }
}

impl Builder {
    /// The ordered file specifications this session requires. Deterministic
    /// and stable: the result is exactly the resolved specifications, so ids
    /// can be used to correlate later calls.
    #[verifier::loop_isolation(false)]
    pub fn file_specs(&self) -> (r: Vec<FileSpec>)
        ensures
            views_of_specs(r@) == self@.specs,
    {
        let mut out: Vec<FileSpec> = Vec::new();
        proof {
            assert(views_of_specs(out@) =~= self@.specs.take(0));
        }
        let mut i: usize = 0;
        while i < self.specs.len()
            invariant
                i <= self.specs@.len(),
                views_of_specs(out@) == self@.specs.take(i as int),
            decreases self.specs@.len() - i,
        {
            let ghost prev = out@;
            out.push(self.specs[i].clone());
            proof {
                assert(views_of_specs(out@) =~= views_of_specs(prev).push(self.specs@[i as int]@));
                assert(self@.specs.take(i as int + 1) =~= self@.specs.take(i as int).push(
                    self@.specs[i as int],
                ));
            }
            i = i + 1;
        }
        proof {
            assert(self@.specs.take(self.specs@.len() as int) =~= self@.specs);
        }
        out
    }

    /// The registered license obligations with their current acceptance
    /// state.
    #[verifier::loop_isolation(false)]
    pub fn licenses(&self) -> (r: Vec<LicenseState>)
        ensures
            views_of_lics(r@) == self@.lics,
    {
        let mut out: Vec<LicenseState> = Vec::new();
        proof {
            assert(views_of_lics(out@) =~= self@.lics.take(0));
        }
        let mut i: usize = 0;
        while i < self.lics.len()
            invariant
                i <= self.lics@.len(),
                views_of_lics(out@) == self@.lics.take(i as int),
            decreases self.lics@.len() - i,
        {
            let ghost prev = out@;
            out.push(self.lics[i].clone());
            proof {
                assert(views_of_lics(out@) =~= views_of_lics(prev).push(self.lics@[i as int]@));
                assert(self@.lics.take(i as int + 1) =~= self@.lics.take(i as int).push(
                    self@.lics[i as int],
                ));
            }
            i = i + 1;
        }
        proof {
            assert(self@.lics.take(self.lics@.len() as int) =~= self@.lics);
        }
        out
    }

    /// The configuration's description.
    pub fn description(&self) -> (r: String)
        ensures
            r@ == self@.description,
    {
        self.description.clone()
    }

    /// The configuration's category labels.
    #[verifier::loop_isolation(false)]
    pub fn categories(&self) -> (r: Vec<String>)
        ensures
            views_of_strings(r@) == self@.categories,
    {
        let mut out: Vec<String> = Vec::new();
        proof {
            assert(views_of_strings(out@) =~= self@.categories.take(0));
        }
        let mut i: usize = 0;
        while i < self.categories.len()
            invariant
                i <= self.categories@.len(),
                views_of_strings(out@) == self@.categories.take(i as int),
            decreases self.categories@.len() - i,
        {
            let ghost prev = out@;
            out.push(self.categories[i].clone());
            proof {
                assert(views_of_strings(out@) =~= views_of_strings(prev).push(
                    self.categories@[i as int]@,
                ));
                assert(self@.categories.take(i as int + 1) =~= self@.categories.take(
                    i as int,
                ).push(self@.categories[i as int]));
            }
            i = i + 1;
        }
        proof {
            assert(self@.categories.take(self.categories@.len() as int) =~= self@.categories);
        }
        out
    }

    /// Accept a license.
    ///
    /// Fails with `UnknownLicense` when no license with the given id is
    /// registered, and with `LicenseMismatch` when the id exists but the file
    /// id or URL differs from the registered value. On success the license is
    /// marked accepted; accepting an already-accepted license with matching
    /// fields succeeds with no change. On any error the state is unchanged.
    pub fn accept_license(&mut self, license: &License) -> (r: Result<(), LicenseError>)
        requires
            old(self)@.wf(),
        ensures
            (final(self)@, r) == spec_accept_license(old(self)@, license@),
            final(self)@.wf(),
    {
        let id = license.id;
        if id >= self.lics.len() {
            return Err(LicenseError::UnknownLicense);
        }
        let cur = &self.lics[id];
        assert(cur@ == self@.lics[id as int]);
        if cur.file_id != license.file_id || !(cur.url == license.url) {
            return Err(LicenseError::LicenseMismatch);
        }
        let updated = LicenseState {
            id: cur.id,
            file_id: cur.file_id,
            url: cur.url.clone(),
            accepted: true,
        };
        let ghost prev = self@;
        proof {
            assert(updated@ == LicenseStateV { accepted: true, ..prev.lics[id as int] });
        }
        self.lics.set(id, updated);
        proof {
            assert(views_of_lics(self.lics@) =~= prev.lics.update(
                id as int,
                LicenseStateV { accepted: true, ..prev.lics[id as int] },
            ));
            assert(self@ =~= spec_accept_license(prev, license@).0);
        }
        Ok(())
    }

    /// Store retrieved file bytes.
    ///
    /// Fails with `UnknownFileId` when the id matches no resolved file
    /// specification, and with `SizeMismatch` when the byte length violates
    /// the specification's size-handling policy. On success the normalized
    /// bytes — exactly `rom_size` long under every policy — are stored,
    /// replacing any previously stored bytes for that id. Storing is
    /// independent of license state. On any error the state is unchanged.
    pub fn add_file(&mut self, file: FileData) -> (r: Result<(), FileError>)
        requires
            old(self)@.wf(),
        ensures
            (final(self)@, r) == spec_add_file(old(self)@, file@),
            final(self)@.wf(),
    {
        let ghost fv = file@;
        let FileData { id, data } = file;
        if id >= self.specs.len() {
            return Err(FileError::UnknownFileId);
        }
        assert(self.specs@[id as int]@ == self@.specs[id as int]);
        let policy = self.specs[id].size_handling;
        let rom_size = self.specs[id].rom_size;
        match crate::policy::apply_size_handling(policy, data, rom_size) {
            None => Err(FileError::SizeMismatch),
            Some(norm) => {
                let ghost prev = self@;
                let ghost normv = norm@;
                self.files.set(id, Some(norm));
                proof {
                    assert(views_of_files(self.files@) =~= prev.files.update(
                        id as int,
                        Some(normv),
                    ));
                    assert(self@ =~= spec_add_file(prev, fv).0);
                }
                Ok(())
            },
        }
    }

    /// Check readiness to build, without mutating anything.
    ///
    /// Returns `Ok` exactly when the properties name a known board, every
    /// registered license is accepted, every file's bytes are stored, and no
    /// set rule is violated; otherwise returns the complete list of misses.
    /// Safe to call at any time, any number of times.
    pub fn build_validation(&self, props: &crate::config::FirmwareProperties) -> (r: Result<
        (),
        crate::validate::ValidationFailure,
    >)
        requires
            self@.wf(),
        ensures
            match r {
                Ok(()) => crate::model::spec_validation_ok(self@, props@),
                Err(f) => !crate::model::spec_validation_ok(self@, props@) && f@
                    == crate::model::spec_validation_failure(self@, props@),
            },
    {
        let board = crate::catalog::board_from_name(&props.board);
        let missing_licenses = crate::validate::compute_missing_licenses(&self.lics);
        let missing_files = crate::validate::compute_missing_files(&self.specs, &self.files);
        let set_violations = crate::validate::compute_set_violations(&self.specs, board);
        if board.is_some() && missing_licenses.len() == 0 && missing_files.len() == 0
            && set_violations.len() == 0 {
            Ok(())
        } else {
            Err(
                crate::validate::ValidationFailure {
                    unknown_board: board.is_none(),
                    missing_licenses,
                    missing_files,
                    set_violations,
                },
            )
        }
    }
}

/// An empty miss list means every file's bytes are stored.
proof fn lemma_no_missing_files(specs: Seq<FileSpecV>, files: Seq<Option<Seq<u8>>>, n: int)
    requires
        crate::model::spec_missing_file_ids_upto(specs, files, n).len() == 0,
    ensures
        forall|i: int| 0 <= i < n ==> (#[trigger] files[i]) is Some,
    decreases n,
{
    if n > 0 {
        lemma_no_missing_files(specs, files, n - 1);
    }
}

/// Count the members of one set.
#[verifier::loop_isolation(false)]
fn set_member_count_exec(specs: &Vec<FileSpec>, sid: usize) -> (r: usize)
    ensures
        r == crate::model::spec_set_member_count(
            views_of_specs(specs@),
            sid as int,
            specs@.len() as int,
        ),
        r <= specs@.len(),
{
    let ghost vs = views_of_specs(specs@);
    let mut count: usize = 0;
    let mut i: usize = 0;
    while i < specs.len()
        invariant
            i <= specs@.len(),
            count == crate::model::spec_set_member_count(vs, sid as int, i as int),
            count <= i,
        decreases specs@.len() - i,
    {
        if specs[i].set_id == sid {
            count = count + 1;
        }
        i = i + 1;
    }
    count
}

/// Find a member of one set; every member carries the set's type and
/// description, so any member serves.
#[verifier::loop_isolation(false)]
fn first_member_exec(specs: &Vec<FileSpec>, sid: usize) -> (r: usize)
    requires
        exists|i: int|
            0 <= i < specs@.len() && (#[trigger] views_of_specs(specs@)[i]).set_id == sid as int,
    ensures
        r < specs@.len(),
        views_of_specs(specs@)[r as int].set_id == sid as int,
{
    let ghost vs = views_of_specs(specs@);
    let mut i: usize = 0;
    while i < specs.len()
        invariant
            i <= specs@.len(),
            forall|k: int| 0 <= k < i ==> (#[trigger] vs[k]).set_id != sid as int,
        decreases specs@.len() - i,
    {
        if specs[i].set_id == sid {
            return i;
        }
        i = i + 1;
    }
    proof {
        let w = choose|k: int| 0 <= k < vs.len() && (#[trigger] vs[k]).set_id == sid as int;
        assert(vs[w].set_id != sid as int);
    }
    0
}

impl Builder {
    /// Lay out the firmware image: the header, then every stored payload in
    /// specification order.
    #[verifier::rlimit(100)]
    #[verifier::loop_isolation(false)]
    fn build_firmware(&self, props: &crate::config::FirmwareProperties) -> (r: Vec<u8>)
        requires
            self@.wf(),
            crate::model::spec_validation_ok(self@, props@),
        ensures
            r@ == crate::image::spec_firmware_image(self@, props@),
    {
        let board = crate::catalog::board_from_name(&props.board).unwrap();
        let mut fw: Vec<u8> = Vec::new();
        fw.push(0x4f);
        fw.push(0x52);
        fw.push(0x4f);
        fw.push(0x4d);
        proof {
            assert(fw@ =~= crate::image::spec_image_magic());
        }
        crate::image::push_u16(&mut fw, crate::image::IMAGE_FORMAT_VERSION);
        crate::image::push_u16(&mut fw, crate::image::METADATA_VERSION);
        crate::image::push_version(&mut fw, &props.version);
        fw.push(board.code());
        fw.push(props.serve_alg.code());
        fw.push(if props.boot_logging {
            1
        } else {
            0
        });
        fw.push(0);
        let nfiles = self.specs.len();
        crate::image::push_u16(&mut fw, nfiles as u16);
        let num_sets = if self.specs.len() == 0 {
            0
        } else {
            proof {
                crate::validate::lemma_set_id_le(self@.specs, self@.specs.len() - 1);
            }
            self.specs[self.specs.len() - 1].set_id + 1
        };
        assert(num_sets == crate::model::num_sets_of(self@.specs));
        crate::image::push_u16(&mut fw, num_sets as u16);
        proof {
            assert(fw@ =~= crate::image::spec_header_bytes(self@, props@));
            assert(fw@ + crate::image::spec_payload_upto(self@.files, 0) =~= fw@);
        }
        let ghost header = fw@;
        let mut i: usize = 0;
        while i < self.files.len()
            invariant
                i <= self.files@.len(),
                fw@ == header + crate::image::spec_payload_upto(self@.files, i as int),
            decreases self.files@.len() - i,
        {
            proof {
                lemma_no_missing_files(self@.specs, self@.files, self@.files.len() as int);
            }
            let ghost prev = fw@;
            match &self.files[i] {
                Some(d) => {
                    crate::image::push_bytes(&mut fw, d.as_slice());
                    proof {
                        assert(fw@ =~= header + crate::image::spec_payload_upto(
                            self@.files,
                            i as int + 1,
                        ));
                    }
                },
                None => {
                    proof {
                        assert(false);
                    }
                },
            }
            i = i + 1;
        }
        fw
    }

    /// Append every file's metadata record.
    #[verifier::rlimit(100)]
    #[verifier::loop_isolation(false)]
    fn push_meta_file_records(&self, md: &mut Vec<u8>)
        requires
            self@.wf(),
        ensures
            final(md)@ == old(md)@ + crate::image::spec_file_records_upto(
                self@.specs,
                self@.specs.len() as int,
            ),
    {
        proof {
            assert(md@ + crate::image::spec_file_records_upto(self@.specs, 0) =~= md@);
        }
        let mut i: usize = 0;
        while i < self.specs.len()
            invariant
                i <= self.specs@.len(),
                md@ == old(md)@ + crate::image::spec_file_records_upto(self@.specs, i as int),
            decreases self.specs@.len() - i,
        {
            let f = &self.specs[i];
            proof {
                crate::validate::lemma_set_id_le(self@.specs, i as int);
                assert(f@ == self@.specs[i as int]);
                assert(f@.rom_size <= 65536);
            }
            let ghost prev = md@;
            crate::image::push_u16(md, f.id as u16);
            crate::image::push_u16(md, f.set_id as u16);
            md.push(f.rom_type.code());
            md.push(f.size_handling.code());
            crate::image::push_u32(md, f.rom_size as u32);
            crate::image::push_str(md, &f.source);
            proof {
                assert(md@ =~= prev + crate::image::spec_file_record(f@));
                assert(md@ =~= old(md)@ + crate::image::spec_file_records_upto(
                    self@.specs,
                    i as int + 1,
                ));
            }
            i = i + 1;
        }
    }

    /// Append every set's metadata record.
    #[verifier::rlimit(100)]
    #[verifier::loop_isolation(false)]
    fn push_meta_set_records(&self, md: &mut Vec<u8>, num_sets: usize)
        requires
            self@.wf(),
            num_sets == crate::model::num_sets_of(self@.specs),
        ensures
            final(md)@ == old(md)@ + crate::image::spec_set_records_upto(
                self@.specs,
                num_sets as int,
            ),
    {
        proof {
            assert(md@ + crate::image::spec_set_records_upto(self@.specs, 0) =~= md@);
        }
        let mut sid: usize = 0;
        while sid < num_sets
            invariant
                sid <= num_sets,
                md@ == old(md)@ + crate::image::spec_set_records_upto(self@.specs, sid as int),
            decreases num_sets - sid,
        {
            proof {
                crate::validate::lemma_set_cover(self@.specs, sid as int);
            }
            let count = set_member_count_exec(&self.specs, sid);
            let fm = first_member_exec(&self.specs, sid);
            let ghost prev = md@;
            crate::image::push_u16(md, sid as u16);
            let st = self.specs[fm].set_type;
            proof {
                let c = crate::model::spec_first_member_of(self@.specs, sid as int);
                assert(0 <= c < self@.specs.len() && self@.specs[c].set_id == sid as int);
                assert(st == crate::model::spec_set_type_of(self@.specs, sid as int));
                assert(self@.specs[fm as int].set_description == self@.specs[c].set_description);
            }
            md.push(st.code());
            crate::image::push_u16(md, count as u16);
            crate::image::push_opt_str(md, &self.specs[fm].set_description);
            proof {
                assert(md@ =~= prev + crate::image::spec_set_record(self@.specs, sid as int));
                assert(md@ =~= old(md)@ + crate::image::spec_set_records_upto(
                    self@.specs,
                    sid as int + 1,
                ));
            }
            sid = sid + 1;
        }
    }

    /// Append the description and the category labels.
    #[verifier::loop_isolation(false)]
    fn push_meta_tail(&self, md: &mut Vec<u8>)
        ensures
            final(md)@ == old(md)@ + crate::image::spec_str_bytes(self@.description)
                + vstd::bytes::spec_u64_to_le_bytes(self@.categories.len() as u64)
                + crate::image::spec_cat_records_upto(
                self@.categories,
                self@.categories.len() as int,
            ),
    {
        crate::image::push_str(md, &self.description);
        crate::image::push_u64(md, self.categories.len() as u64);
        let ghost head = md@;
        proof {
            assert(md@ + crate::image::spec_cat_records_upto(self@.categories, 0) =~= md@);
        }
        let mut c: usize = 0;
        while c < self.categories.len()
            invariant
                c <= self.categories@.len(),
                md@ == head + crate::image::spec_cat_records_upto(self@.categories, c as int),
            decreases self.categories@.len() - c,
        {
            crate::image::push_str(md, &self.categories[c]);
            proof {
                assert(md@ =~= head + crate::image::spec_cat_records_upto(
                    self@.categories,
                    c as int + 1,
                ));
            }
            c = c + 1;
        }
        proof {
            assert(final(md)@ =~= old(md)@ + crate::image::spec_str_bytes(self@.description)
                + vstd::bytes::spec_u64_to_le_bytes(self@.categories.len() as u64)
                + crate::image::spec_cat_records_upto(
                self@.categories,
                self@.categories.len() as int,
            ));
        }
    }

    /// Serialize the metadata record: build parameters, then every file, then
    /// every set, then the description and categories.
    #[verifier::rlimit(100)]
    fn build_metadata(&self, props: &crate::config::FirmwareProperties) -> (r: Vec<u8>)
        requires
            self@.wf(),
        ensures
            r@ == crate::image::spec_metadata_record(self@, props@),
    {
        let mut md: Vec<u8> = Vec::new();
        md.push(0x4f);
        md.push(0x4d);
        md.push(0x45);
        md.push(0x54);
        proof {
            assert(md@ =~= crate::image::spec_meta_magic());
        }
        crate::image::push_u16(&mut md, crate::image::METADATA_VERSION);
        crate::image::push_version(&mut md, &props.version);
        crate::image::push_str(&mut md, &props.board);
        md.push(props.serve_alg.code());
        md.push(if props.boot_logging {
            1
        } else {
            0
        });
        crate::image::push_u16(&mut md, self.specs.len() as u16);
        let num_sets = if self.specs.len() == 0 {
            0
        } else {
            proof {
                crate::validate::lemma_set_id_le(self@.specs, self@.specs.len() - 1);
            }
            self.specs[self.specs.len() - 1].set_id + 1
        };
        assert(num_sets == crate::model::num_sets_of(self@.specs));
        crate::image::push_u16(&mut md, num_sets as u16);
        self.push_meta_file_records(&mut md);
        self.push_meta_set_records(&mut md, num_sets);
        self.push_meta_tail(&mut md);
        proof {
            assert(md@ =~= crate::image::spec_metadata_record(self@, props@));
        }
        md
    }

    /// Build the firmware image and its metadata record.
    ///
    /// First performs exactly the checks of [`Builder::build_validation`];
    /// on any miss it returns the same structured failure and synthesizes
    /// nothing. On success the outputs are functions of the session state and
    /// the properties alone, so repeated calls on unchanged state return
    /// byte-identical images. Nothing is mutated either way.
    pub fn build(&self, props: &crate::config::FirmwareProperties) -> (r: Result<
        crate::image::Images,
        crate::image::BuildError,
    >)
        requires
            self@.wf(),
        ensures
            match r {
                Ok(images) => crate::model::spec_validation_ok(self@, props@) && images@.firmware
                    == crate::image::spec_firmware_image(self@, props@) && images@.metadata
                    == crate::image::spec_metadata_record(self@, props@),
                Err(e) => !crate::model::spec_validation_ok(self@, props@) && (e@ matches
                    crate::image::BuildErrorV::Validation(f) && f
                    == crate::model::spec_validation_failure(self@, props@)),
            },
    {
        match self.build_validation(props) {
            Err(f) => Err(crate::image::BuildError::Validation(f)),
            Ok(()) => {
                let fw = self.build_firmware(props);
                let md = self.build_metadata(props);
                Ok(crate::image::Images::assemble(md, fw))
            },
        }
    }
}

/// Ids of resolved specifications are positional, and each ROM size follows
/// its ROM type.
proof fn lemma_resolve_ids(sets: Seq<SetConfigV>)
    ensures
        forall|i: int|
            0 <= i < spec_resolve_specs(sets).len() ==> (#[trigger] spec_resolve_specs(sets)[i]).id
                == i,
        forall|i: int|
            0 <= i < spec_resolve_specs(sets).len() ==> (#[trigger] spec_resolve_specs(
                sets,
            )[i]).rom_size == spec_resolve_specs(sets)[i].rom_type.spec_size_bytes(),
    decreases sets.len(),
{
    lemma_count_len(sets);
    if sets.len() > 0 {
        let pre = sets.drop_last();
        let all = spec_resolve_specs(sets);
        let head = spec_resolve_specs(pre);
        let tail = spec_set_specs(sets.last(), sets.len() - 1, spec_count_files(pre));
        lemma_resolve_ids(pre);
        lemma_count_len(pre);
        assert(all == head + tail);
        assert forall|i: int| 0 <= i < all.len() implies (#[trigger] all[i]).id == i && all[
        i].rom_size == all[i].rom_type.spec_size_bytes() by {
            if i < head.len() {
                assert(all[i] == head[i]);
            } else {
                assert(all[i] == tail[i - head.len()]);
            }
        }
    }
}

/// Each resolved specification carries the type and description of the set it
/// belongs to, and its set id points at that set.
proof fn lemma_resolve_set_fields(sets: Seq<SetConfigV>)
    ensures
        forall|i: int|
            0 <= i < spec_resolve_specs(sets).len() ==> 0 <= (#[trigger] spec_resolve_specs(
                sets,
            )[i]).set_id < sets.len() && spec_resolve_specs(sets)[i].set_type == sets[
                spec_resolve_specs(sets)[i].set_id].set_type && spec_resolve_specs(
                sets,
            )[i].set_description == sets[spec_resolve_specs(sets)[i].set_id].set_description,
    decreases sets.len(),
{
    if sets.len() > 0 {
        let pre = sets.drop_last();
        let all = spec_resolve_specs(sets);
        let head = spec_resolve_specs(pre);
        let tail = spec_set_specs(sets.last(), sets.len() - 1, spec_count_files(pre));
        lemma_resolve_set_fields(pre);
        assert(all == head + tail);
        assert(forall|i: int| 0 <= i < pre.len() ==> pre[i] == (#[trigger] sets[i]));
        assert forall|i: int|
            0 <= i < all.len() implies 0 <= (#[trigger] all[i]).set_id < sets.len() && all[
        i].set_type == sets[all[i].set_id].set_type && all[i].set_description == sets[all[
        i].set_id].set_description by {
            if i < head.len() {
                assert(all[i] == head[i]);
                assert(0 <= head[i].set_id < pre.len());
            } else {
                assert(all[i] == tail[i - head.len()]);
                assert(all[i].set_id == sets.len() - 1);
            }
        }
    }
}

/// A non-empty configuration resolves to a non-empty list whose last entry
/// belongs to the last set.
proof fn lemma_resolve_last(sets: Seq<SetConfigV>)
    requires
        sets.len() > 0,
        forall|i: int| 0 <= i < sets.len() ==> (#[trigger] sets[i]).files.len() > 0,
    ensures
        spec_resolve_specs(sets).len() > 0,
        spec_resolve_specs(sets).last().set_id == sets.len() - 1,
{
    lemma_count_len(sets);
    lemma_count_len(sets.drop_last());
    let head = spec_resolve_specs(sets.drop_last());
    let tail = spec_set_specs(sets.last(), sets.len() - 1, spec_count_files(sets.drop_last()));
    assert(sets[sets.len() - 1].files.len() > 0);
    assert(tail.len() == sets.last().files.len());
    assert(spec_resolve_specs(sets) == head + tail);
    assert(spec_resolve_specs(sets).last() == tail[tail.len() - 1]);
}

/// A positive file count forces at least one set member.
proof fn lemma_count_pos(sets: Seq<SetConfigV>)
    requires
        sets.len() > 0,
        forall|i: int| 0 <= i < sets.len() ==> (#[trigger] sets[i]).files.len() > 0,
    ensures
        spec_count_files(sets) > 0,
{
    lemma_count_len(sets.drop_last());
    assert(sets[sets.len() - 1].files.len() > 0);
}

/// The first resolved specification belongs to set zero.
proof fn lemma_resolve_first(sets: Seq<SetConfigV>)
    requires
        spec_resolve_specs(sets).len() > 0,
        forall|i: int| 0 <= i < sets.len() ==> (#[trigger] sets[i]).files.len() > 0,
    ensures
        spec_resolve_specs(sets)[0].set_id == 0,
    decreases sets.len(),
{
    lemma_count_len(sets);
    let pre = sets.drop_last();
    let head = spec_resolve_specs(pre);
    let tail = spec_set_specs(sets.last(), sets.len() - 1, spec_count_files(pre));
    assert(spec_resolve_specs(sets) == head + tail);
    assert(forall|i: int| 0 <= i < pre.len() ==> pre[i] == (#[trigger] sets[i]));
    lemma_count_len(pre);
    if head.len() > 0 {
        lemma_resolve_first(pre);
        assert(spec_resolve_specs(sets)[0] == head[0]);
    } else {
        if pre.len() > 0 {
            lemma_count_pos(pre);
        }
        assert(pre.len() == 0);
        assert(sets.len() == 1);
        assert(spec_resolve_specs(sets)[0] == tail[0]);
    }
}

/// Consecutive resolved specifications sit in the same set or in adjacent
/// sets.
proof fn lemma_resolve_step_at(sets: Seq<SetConfigV>, i: int)
    requires
        0 < i < spec_resolve_specs(sets).len(),
        forall|k: int| 0 <= k < sets.len() ==> (#[trigger] sets[k]).files.len() > 0,
    ensures
        spec_resolve_specs(sets)[i].set_id == spec_resolve_specs(sets)[i - 1].set_id
            || spec_resolve_specs(sets)[i].set_id == spec_resolve_specs(sets)[i - 1].set_id + 1,
    decreases sets.len(),
{
    lemma_count_len(sets);
    let pre = sets.drop_last();
    let all = spec_resolve_specs(sets);
    let head = spec_resolve_specs(pre);
    let tail = spec_set_specs(sets.last(), sets.len() - 1, spec_count_files(pre));
    assert(all == head + tail);
    assert(forall|k: int| 0 <= k < pre.len() ==> pre[k] == (#[trigger] sets[k]));
    lemma_count_len(pre);
    if i < head.len() {
        lemma_resolve_step_at(pre, i);
        assert(all[i] == head[i]);
        assert(all[i - 1] == head[i - 1]);
    } else if i == head.len() {
        assert(all[i] == tail[0]);
        assert(all[i - 1] == head[head.len() - 1]);
        lemma_resolve_last(pre);
        assert(all[i - 1].set_id == pre.len() - 1);
        assert(all[i].set_id == sets.len() - 1);
    } else {
        assert(all[i] == tail[i - head.len()]);
        assert(all[i - 1] == tail[i - head.len() - 1]);
    }
}

/// Set ids of the resolved specifications start at zero and never jump.
proof fn lemma_resolve_order(sets: Seq<SetConfigV>)
    requires
        forall|k: int| 0 <= k < sets.len() ==> (#[trigger] sets[k]).files.len() > 0,
    ensures
        spec_resolve_specs(sets).len() > 0 ==> spec_resolve_specs(sets)[0].set_id == 0,
        forall|i: int|
            #![trigger spec_resolve_specs(sets)[i], spec_resolve_specs(sets)[i - 1]]
            0 < i < spec_resolve_specs(sets).len() ==> spec_resolve_specs(sets)[i].set_id
                == spec_resolve_specs(sets)[i - 1].set_id || spec_resolve_specs(sets)[i].set_id
                == spec_resolve_specs(sets)[i - 1].set_id + 1,
{
    if spec_resolve_specs(sets).len() > 0 {
        lemma_resolve_first(sets);
    }
    assert forall|i: int|
        #![trigger spec_resolve_specs(sets)[i], spec_resolve_specs(sets)[i - 1]]
        0 < i < spec_resolve_specs(sets).len() implies spec_resolve_specs(sets)[i].set_id
        == spec_resolve_specs(sets)[i - 1].set_id || spec_resolve_specs(sets)[i].set_id
        == spec_resolve_specs(sets)[i - 1].set_id + 1 by {
        lemma_resolve_step_at(sets, i);
    }
}

/// A fully resolved session is well-formed.
#[verifier::rlimit(100)]
proof fn lemma_builder_wf_final(bv: BuilderV, sets: Seq<SetConfigV>)
    requires
        spec_first_set_error(sets, 0) is None,
        spec_count_files(sets) <= MAX_FILES,
        bv.specs == spec_resolve_specs(sets),
        bv.lics == spec_licenses_of(spec_flat_files(sets)),
        bv.files.len() == bv.specs.len(),
        forall|i: int| 0 <= i < bv.files.len() ==> (#[trigger] bv.files[i]) is None,
    ensures
        bv.wf(),
{
    assert forall|i: int| 0 <= i < sets.len() implies (#[trigger] sets[i]).files.len() > 0 by {
        lemma_sets_ok(sets, i);
    }
    lemma_count_len(sets);
    lemma_resolve_ids(sets);
    lemma_resolve_set_fields(sets);
    lemma_licenses_props(spec_flat_files(sets));
    lemma_strict_mono_unique(bv.lics);
    lemma_same_set_same_fields(bv.specs, sets);
    lemma_resolve_order(sets);
}

/// Pairwise-distinct file ids follow from strictly increasing ones.
proof fn lemma_strict_mono_unique(lics: Seq<LicenseStateV>)
    requires
        forall|i: int, j: int|
            0 <= i < j < lics.len() ==> (#[trigger] lics[i]).file_id < (#[trigger] lics[
                j]).file_id,
    ensures
        forall|i: int, j: int|
            0 <= i < lics.len() && 0 <= j < lics.len() && i != j ==> (#[trigger] lics[i]).file_id
                != (#[trigger] lics[j]).file_id,
{
    assert forall|i: int, j: int|
        0 <= i < lics.len() && 0 <= j < lics.len() && i != j implies (#[trigger] lics[i]).file_id
        != (#[trigger] lics[j]).file_id by {
        if i < j {
            assert(lics[i].file_id < lics[j].file_id);
        } else {
            assert(lics[j].file_id < lics[i].file_id);
        }
    }
}

/// Members of one set share its type and description.
proof fn lemma_same_set_same_fields(specs: Seq<FileSpecV>, sets: Seq<SetConfigV>)
    requires
        forall|i: int|
            0 <= i < specs.len() ==> 0 <= (#[trigger] specs[i]).set_id < sets.len() && specs[
                i].set_type == sets[specs[i].set_id].set_type && specs[i].set_description == sets[
                specs[i].set_id].set_description,
    ensures
        forall|i: int, j: int|
            0 <= i < specs.len() && 0 <= j < specs.len() && (#[trigger] specs[i]).set_id == (
            #[trigger] specs[j]).set_id ==> specs[i].set_type == specs[j].set_type && specs[
                i].set_description == specs[j].set_description,
{
}

} // verus!
