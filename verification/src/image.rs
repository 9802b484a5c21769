//! The binary layout of a built firmware image and of its companion metadata
//! record. Both layouts are a versioned contract: the image starts with a
//! fixed header carrying the format and metadata versions, the firmware
//! version, the board, serving and logging selections and the file and set
//! counts, followed by the stored payloads in specification order. The
//! metadata record describes every included file, every set and every build
//! parameter; strings are length-prefixed UTF-8, all integers little-endian.

use vstd::bytes::{
    spec_u16_to_le_bytes, spec_u32_to_le_bytes, spec_u64_to_le_bytes, u16_to_le_bytes,
    u32_to_le_bytes, u64_to_le_bytes,
};
use vstd::prelude::*;
use vstd::utf8::encode_utf8;

use crate::config::{view_opt_str, FirmwarePropertiesV, FwVersion};
use crate::model::{
    num_sets_of, spec_first_member_of, spec_set_member_count, spec_set_type_of, BuilderV,
    FileSpecV,
};
use crate::validate::ValidationFailure;

verus! {

/// The version of the image header layout.
pub const IMAGE_FORMAT_VERSION: u16 = 1;

/// The version of the metadata record layout.
pub const METADATA_VERSION: u16 = 1;

pub open spec fn spec_image_magic() -> Seq<u8> {
    seq![0x4fu8, 0x52u8, 0x4fu8, 0x4du8]
}

pub open spec fn spec_meta_magic() -> Seq<u8> {
    seq![0x4fu8, 0x4du8, 0x45u8, 0x54u8]
}

/// A firmware version as eight bytes: major, minor, patch, build.
pub open spec fn spec_version_bytes(v: FwVersion) -> Seq<u8> {
    spec_u16_to_le_bytes(v.major) + spec_u16_to_le_bytes(v.minor) + spec_u16_to_le_bytes(v.patch)
        + spec_u16_to_le_bytes(v.build)
}

/// A string as its UTF-8 bytes, prefixed by their 64-bit length.
pub open spec fn spec_str_bytes(s: Seq<char>) -> Seq<u8> {
    spec_u64_to_le_bytes(encode_utf8(s).len() as u64) + encode_utf8(s)
}

/// An optional string: a zero byte, or a one byte followed by the string.
pub open spec fn spec_opt_str_bytes(o: Option<Seq<char>>) -> Seq<u8> {
    match o {
        None => seq![0u8],
        Some(s) => seq![1u8] + spec_str_bytes(s),
    }
}

/// The image header.
pub open spec fn spec_header_bytes(b: BuilderV, p: FirmwarePropertiesV) -> Seq<u8> {
    spec_image_magic() + spec_u16_to_le_bytes(IMAGE_FORMAT_VERSION) + spec_u16_to_le_bytes(
        METADATA_VERSION,
    ) + spec_version_bytes(p.version) + seq![
        p.spec_board().unwrap().spec_code(),
        p.serve_alg.spec_code(),
        (if p.boot_logging {
            1u8
        } else {
            0u8
        }),
        0u8,
    ] + spec_u16_to_le_bytes(b.specs.len() as u16) + spec_u16_to_le_bytes(
        num_sets_of(b.specs) as u16,
    )
}

/// The stored payloads of the first `n` files, concatenated in order.
pub open spec fn spec_payload_upto(files: Seq<Option<Seq<u8>>>, n: int) -> Seq<u8>
    decreases n,
{
    if n <= 0 {
        Seq::empty()
    } else {
        spec_payload_upto(files, n - 1) + files[n - 1].unwrap()
    }
}

/// The whole firmware image: header, then payloads.
pub open spec fn spec_firmware_image(b: BuilderV, p: FirmwarePropertiesV) -> Seq<u8> {
    spec_header_bytes(b, p) + spec_payload_upto(b.files, b.files.len() as int)
}

/// One file's metadata record.
pub open spec fn spec_file_record(f: FileSpecV) -> Seq<u8> {
    spec_u16_to_le_bytes(f.id as u16) + spec_u16_to_le_bytes(f.set_id as u16) + seq![
        f.rom_type.spec_code(),
        f.size_handling.spec_code(),
    ] + spec_u32_to_le_bytes(f.rom_size as u32) + spec_str_bytes(f.source)
}

/// The records of the first `n` files.
pub open spec fn spec_file_records_upto(specs: Seq<FileSpecV>, n: int) -> Seq<u8>
    decreases n,
{
    if n <= 0 {
        Seq::empty()
    } else {
        spec_file_records_upto(specs, n - 1) + spec_file_record(specs[n - 1])
    }
}

/// One set's metadata record: its id, type, member count and description.
pub open spec fn spec_set_record(specs: Seq<FileSpecV>, sid: int) -> Seq<u8> {
    spec_u16_to_le_bytes(sid as u16) + seq![spec_set_type_of(specs, sid).spec_code()]
        + spec_u16_to_le_bytes(spec_set_member_count(specs, sid, specs.len() as int) as u16)
        + spec_opt_str_bytes(specs[spec_first_member_of(specs, sid)].set_description)
}

/// The records of the first `n` sets.
pub open spec fn spec_set_records_upto(specs: Seq<FileSpecV>, n: int) -> Seq<u8>
    decreases n,
{
    if n <= 0 {
        Seq::empty()
    } else {
        spec_set_records_upto(specs, n - 1) + spec_set_record(specs, n - 1)
    }
}

/// The first `n` category labels, each length-prefixed.
pub open spec fn spec_cat_records_upto(cats: Seq<Seq<char>>, n: int) -> Seq<u8>
    decreases n,
{
    if n <= 0 {
        Seq::empty()
    } else {
        spec_cat_records_upto(cats, n - 1) + spec_str_bytes(cats[n - 1])
    }
}

/// The whole metadata record.
pub open spec fn spec_metadata_record(b: BuilderV, p: FirmwarePropertiesV) -> Seq<u8> {
    spec_meta_magic() + spec_u16_to_le_bytes(METADATA_VERSION) + spec_version_bytes(p.version)
        + spec_str_bytes(p.board) + seq![
        p.serve_alg.spec_code(),
        (if p.boot_logging {
            1u8
        } else {
            0u8
        }),
    ] + spec_u16_to_le_bytes(b.specs.len() as u16) + spec_u16_to_le_bytes(
        num_sets_of(b.specs) as u16,
    ) + spec_file_records_upto(b.specs, b.specs.len() as int) + spec_set_records_upto(
        b.specs,
        num_sets_of(b.specs),
    ) + spec_str_bytes(b.description) + spec_u64_to_le_bytes(b.categories.len() as u64)
        + spec_cat_records_upto(b.categories, b.categories.len() as int)
}

// ---------------------------------------------------------------------------
// Verified serialization helpers.
// ---------------------------------------------------------------------------
pub(crate) fn push_u16(out: &mut Vec<u8>, x: u16)
    ensures
        final(out)@ == old(out)@ + spec_u16_to_le_bytes(x),
{
    let mut b = u16_to_le_bytes(x);
    out.append(&mut b);
}

pub(crate) fn push_u32(out: &mut Vec<u8>, x: u32)
    ensures
        final(out)@ == old(out)@ + spec_u32_to_le_bytes(x),
{
    let mut b = u32_to_le_bytes(x);
    out.append(&mut b);
}

pub(crate) fn push_u64(out: &mut Vec<u8>, x: u64)
    ensures
        final(out)@ == old(out)@ + spec_u64_to_le_bytes(x),
{
    let mut b = u64_to_le_bytes(x);
    out.append(&mut b);
}

#[verifier::loop_isolation(false)]
pub(crate) fn push_bytes(out: &mut Vec<u8>, b: &[u8])
    ensures
        final(out)@ == old(out)@ + b@,
{
    let mut i: usize = 0;
    while i < b.len()
        invariant
            i <= b@.len(),
            out@ == old(out)@ + b@.take(i as int),
        decreases b@.len() - i,
    {
        out.push(b[i]);
        proof {
            assert(old(out)@ + b@.take(i as int + 1) =~= (old(out)@ + b@.take(i as int)).push(
                b@[i as int],
            ));
        }
        i = i + 1;
    }
    proof {
        assert(b@.take(b@.len() as int) =~= b@);
    }
}

pub(crate) fn push_str(out: &mut Vec<u8>, s: &String)
    ensures
        final(out)@ == old(out)@ + spec_str_bytes(s@),
{
    let bytes: &[u8] = s.as_str().as_bytes();
    assert(bytes@ == encode_utf8(s@));
    push_u64(out, bytes.len() as u64);
    push_bytes(out, bytes);
    proof {
        assert(final(out)@ =~= old(out)@ + spec_str_bytes(s@));
    }
}

pub(crate) fn push_opt_str(out: &mut Vec<u8>, o: &Option<String>)
    ensures
        final(out)@ == old(out)@ + spec_opt_str_bytes(view_opt_str(*o)),
{
    match o {
        None => {
            out.push(0u8);
            proof {
                assert(final(out)@ =~= old(out)@ + spec_opt_str_bytes(None));
            }
        },
        Some(s) => {
            out.push(1u8);
            let ghost mid = out@;
            push_str(out, s);
            proof {
                assert(mid =~= old(out)@ + seq![1u8]);
                assert(final(out)@ =~= old(out)@ + spec_opt_str_bytes(Some(s@)));
            }
        },
    }
}

pub(crate) fn push_version(out: &mut Vec<u8>, v: &FwVersion)
    ensures
        final(out)@ == old(out)@ + spec_version_bytes(*v),
{
    push_u16(out, v.major);
    push_u16(out, v.minor);
    push_u16(out, v.patch);
    push_u16(out, v.build);
    proof {
        assert(final(out)@ =~= old(out)@ + spec_version_bytes(*v));
    }
}

/// The two byte sequences a successful build produces.
pub struct Images {
    pub(crate) metadata: Vec<u8>,
    pub(crate) firmware: Vec<u8>,
}

/// Ghost mirror of [`Images`].
#[verifier::ext_equal]
pub ghost struct ImagesV {
    pub metadata: Seq<u8>,
    pub firmware: Seq<u8>,
}

impl View for Images {
    type V = ImagesV;

    closed spec fn view(&self) -> ImagesV {
        ImagesV { metadata: self.metadata@, firmware: self.firmware@ }
    }
}

#[verifier::loop_isolation(false)]
fn copy_bytes(v: &Vec<u8>) -> (r: Vec<u8>)
    ensures
        r@ == v@,
{
    let mut out: Vec<u8> = Vec::new();
    let mut i: usize = 0;
    while i < v.len()
        invariant
            i <= v@.len(),
            out@ == v@.take(i as int),
        decreases v@.len() - i,
    {
        out.push(v[i]);
        proof {
            assert(v@.take(i as int + 1) =~= v@.take(i as int).push(v@[i as int]));
        }
        i = i + 1;
    }
    proof {
        assert(v@.take(v@.len() as int) =~= v@);
    }
    out
}

impl Images {
    pub(crate) fn assemble(metadata: Vec<u8>, firmware: Vec<u8>) -> (r: Images)
        ensures
            r@.metadata == metadata@,
            r@.firmware == firmware@,
    {
        Images { metadata, firmware }
    }

    /// The metadata record.
    pub fn metadata(&self) -> (r: Vec<u8>)
        ensures
            r@ == self@.metadata,
    {
        copy_bytes(&self.metadata)
    }

    /// The firmware image.
    pub fn firmware_images(&self) -> (r: Vec<u8>)
        ensures
            r@ == self@.firmware,
    {
        copy_bytes(&self.firmware)
    }
}

/// A reason a build fails.
#[derive(Debug)]
pub enum BuildError {
    /// The session is not ready; the failure lists every miss.
    Validation(ValidationFailure),
    /// An internal invariant was violated during layout. Verification shows
    /// the synthesizer never produces this; it is kept as part of the error
    /// contract.
    Synthesis,
}

/// Ghost mirror of [`BuildError`].
#[verifier::ext_equal]
pub ghost enum BuildErrorV {
    Validation(crate::model::ValidationFailureV),
    Synthesis,
}

impl View for BuildError {
    type V = BuildErrorV;

    open spec fn view(&self) -> BuildErrorV {
        match self {
            BuildError::Validation(f) => BuildErrorV::Validation(f@),
            BuildError::Synthesis => BuildErrorV::Synthesis,
        }
    }
}

} // verus!
