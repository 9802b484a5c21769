//! Laws of the build session, proved over the model that every executable
//! contract is stated against.

use vstd::prelude::*;

use crate::config::FirmwarePropertiesV;
use crate::image::{spec_firmware_image, spec_metadata_record};
use crate::model::{
    spec_accept_license, spec_add_file, spec_missing_file_ids_upto,
    spec_missing_license_ids_upto, spec_set_violations, spec_validation_failure,
    spec_validation_ok, BuilderV, FileDataV, FileSpecV, LicenseError, LicenseStateV, LicenseV,
};
use crate::policy::{spec_apply_size_handling, SizeHandling};

verus! {

/// Law: the file specifications of a well-formed session have pairwise
/// distinct ids, and two reads of an unchanged session return the same list.
/// [`crate::builder::Builder::file_specs`] returns exactly the session's
/// specifications, so this pins both uniqueness and stability.
pub proof fn lemma_file_spec_ids_unique_and_stable(
    b: BuilderV,
    r1: Seq<FileSpecV>,
    r2: Seq<FileSpecV>,
)
    requires
        b.wf(),
        r1 == b.specs,
        r2 == b.specs,
    ensures
        r1 == r2,
        forall|i: int, j: int|
            0 <= i < r1.len() && 0 <= j < r1.len() && i != j ==> (#[trigger] r1[i]).id != (
            #[trigger] r1[j]).id,
{
}

/// Law: accepting the same valid license twice yields the same state as
/// accepting it once, with the second call succeeding.
pub proof fn lemma_accept_license_idempotent(b: BuilderV, l: LicenseV)
    requires
        b.wf(),
        spec_accept_license(b, l).1 is Ok,
    ensures
        spec_accept_license(spec_accept_license(b, l).0, l) == (
            spec_accept_license(b, l).0,
            Result::<(), LicenseError>::Ok(()),
        ),
{
    let b1 = spec_accept_license(b, l).0;
    let entry = LicenseStateV { accepted: true, ..b.lics[l.id] };
    assert(b1.lics == b.lics.update(l.id, entry));
    assert(b1.lics[l.id] == entry);
    assert(b1.lics.update(l.id, LicenseStateV { accepted: true, ..b1.lics[l.id] }) =~= b1.lics);
    assert(spec_accept_license(b1, l).0 =~= b1);
}

/// Law: adding the same file data twice yields the same stored bytes as
/// adding it once, with the second call succeeding.
pub proof fn lemma_add_file_idempotent(b: BuilderV, fd: FileDataV)
    requires
        b.wf(),
        spec_add_file(b, fd).1 is Ok,
    ensures
        spec_add_file(spec_add_file(b, fd).0, fd) == (
            spec_add_file(b, fd).0,
            Result::<(), crate::model::FileError>::Ok(()),
        ),
{
    let b1 = spec_add_file(b, fd).0;
    let norm = spec_apply_size_handling(
        b.specs[fd.id].size_handling,
        fd.data,
        b.specs[fd.id].rom_size,
    ).unwrap();
    assert(b1.specs == b.specs);
    assert(b1.files == b.files.update(fd.id, Some(norm)));
    assert(b1.files.update(fd.id, Some(norm)) =~= b1.files);
    assert(spec_add_file(b1, fd).0 =~= b1);
}

/// Law: adding different bytes for an id replaces the prior value entirely —
/// the state after storing one payload and then another is the state after
/// storing only the second.
pub proof fn lemma_add_file_replaces(b: BuilderV, fd1: FileDataV, fd2: FileDataV)
    requires
        b.wf(),
        fd1.id == fd2.id,
        spec_add_file(b, fd1).1 is Ok,
        spec_add_file(b, fd2).1 is Ok,
    ensures
        spec_add_file(spec_add_file(b, fd1).0, fd2).0 == spec_add_file(b, fd2).0,
{
    let b1 = spec_add_file(b, fd1).0;
    let norm2 = spec_apply_size_handling(
        b.specs[fd2.id].size_handling,
        fd2.data,
        b.specs[fd2.id].rom_size,
    ).unwrap();
    assert(b1.specs == b.specs);
    assert(spec_add_file(b1, fd2).0.files =~= b.files.update(fd2.id, Some(norm2)));
    assert(spec_add_file(b1, fd2).0 =~= spec_add_file(b, fd2).0);
}

proof fn lemma_missing_licenses_iff(lics: Seq<LicenseStateV>, n: int)
    requires
        0 <= n <= lics.len(),
    ensures
        (spec_missing_license_ids_upto(lics, n).len() == 0) <==> (forall|i: int|
            0 <= i < n ==> (#[trigger] lics[i]).accepted),
    decreases n,
{
    if n > 0 {
        lemma_missing_licenses_iff(lics, n - 1);
    }
}

proof fn lemma_missing_files_iff(
    specs: Seq<FileSpecV>,
    files: Seq<Option<Seq<u8>>>,
    n: int,
)
    requires
        0 <= n <= files.len(),
    ensures
        (spec_missing_file_ids_upto(specs, files, n).len() == 0) <==> (forall|i: int|
            0 <= i < n ==> (#[trigger] files[i]) is Some),
    decreases n,
{
    if n > 0 {
        lemma_missing_files_iff(specs, files, n - 1);
    }
}

/// Law: with a board the catalog knows and no set rule violated, readiness
/// validation succeeds exactly when every registered license is accepted and
/// every file specification has stored bytes.
pub proof fn lemma_validation_iff(b: BuilderV, p: FirmwarePropertiesV)
    requires
        b.wf(),
        p.spec_board() is Some,
        spec_set_violations(b.specs, p.spec_board()).len() == 0,
    ensures
        spec_validation_ok(b, p) <==> ((forall|i: int|
            0 <= i < b.lics.len() ==> (#[trigger] b.lics[i]).accepted) && (forall|i: int|
            0 <= i < b.files.len() ==> (#[trigger] b.files[i]) is Some)),
{
    lemma_missing_licenses_iff(b.lics, b.lics.len() as int);
    lemma_missing_files_iff(b.specs, b.files, b.files.len() as int);
}

/// Law: building is deterministic. Both outputs are functions of the session
/// state and the properties alone; since [`crate::builder::Builder::build`]
/// pins its outputs to these functions and mutates nothing, two successive
/// calls with identical state and properties return byte-identical images.
pub proof fn lemma_build_deterministic(
    b1: BuilderV,
    p1: FirmwarePropertiesV,
    b2: BuilderV,
    p2: FirmwarePropertiesV,
)
    requires
        b1 == b2,
        p1 == p2,
    ensures
        spec_firmware_image(b1, p1) == spec_firmware_image(b2, p2),
        spec_metadata_record(b1, p1) == spec_metadata_record(b2, p2),
{
}

/// Law: building and readiness validation agree. Both are specified against
/// the same predicate, so a build never succeeds when validation fails and
/// never fails when validation succeeds; on failure it reports exactly the
/// validation failure.
pub proof fn lemma_build_validation_consistency(b: BuilderV, p: FirmwarePropertiesV)
    ensures
        spec_validation_ok(b, p) <==> (!spec_validation_failure(b, p).unknown_board
            && spec_validation_failure(b, p).missing_licenses.len() == 0
            && spec_validation_failure(b, p).missing_files.len() == 0 && spec_validation_failure(
            b,
            p,
        ).set_violations.len() == 0),
{
}

/// Law: the pad-to-size policy round trip. Input of exactly the expected
/// length is stored unchanged; shorter input is stored zero-padded to exactly
/// the expected length; longer input is rejected.
pub proof fn lemma_pad_to_size_round_trip(data: Seq<u8>, rom_size: nat)
    ensures
        data.len() == rom_size ==> spec_apply_size_handling(
            SizeHandling::PadToSize,
            data,
            rom_size,
        ) == Some(data),
        data.len() < rom_size ==> (spec_apply_size_handling(
            SizeHandling::PadToSize,
            data,
            rom_size,
        ) matches Some(norm) && norm.len() == rom_size && norm.take(data.len() as int) == data
            && (forall|i: int| data.len() <= i < rom_size ==> norm[i] == 0u8)),
        data.len() > rom_size ==> spec_apply_size_handling(
            SizeHandling::PadToSize,
            data,
            rom_size,
        ) is None,
{
    if data.len() == rom_size {
        assert(data + Seq::new(0, |i: int| 0u8) =~= data);
    }
    if data.len() < rom_size {
        let norm = spec_apply_size_handling(SizeHandling::PadToSize, data, rom_size).unwrap();
        assert(norm.take(data.len() as int) =~= data);
    }
}

} // verus!
