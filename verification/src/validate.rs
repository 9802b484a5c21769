//! Readiness validation: a pure, non-mutating check that collects every
//! missing license, every missing file and every set-level violation, so a
//! caller can drive a complete checklist rather than fixing one miss at a
//! time.

use vstd::prelude::*;

use crate::builder::{views_of_lics, views_of_specs, FileSpec, LicenseState};
use crate::catalog::Board;
use crate::model::{
    num_sets_of, spec_missing_file_ids_upto, spec_missing_license_ids_upto,
    spec_set_member_count, spec_set_members_have_cs1, spec_set_type_of, spec_set_violations,
    spec_set_violations_upto, spec_violations_of_set, specs_wf, FileSpecV, SetViolationKind,
    SetViolationV,
};
use crate::config::SetType;

verus! {

/// One reported set-level violation.
#[derive(Clone, Copy, PartialEq, Eq, Structural, Debug)]
pub struct SetViolation {
    pub set_id: usize,
    pub kind: SetViolationKind,
}

impl View for SetViolation {
    type V = SetViolationV;

    open spec fn view(&self) -> SetViolationV {
        SetViolationV { set_id: self.set_id as int, kind: self.kind }
    }
}

/// The views of a sequence of set violations.
pub open spec fn views_of_violations(v: Seq<SetViolation>) -> Seq<SetViolationV> {
    Seq::new(v.len(), |i: int| v[i]@)
}

/// A sequence of ids as mathematical integers.
pub open spec fn ints_of(v: Seq<usize>) -> Seq<int> {
    Seq::new(v.len(), |i: int| v[i] as int)
}

/// Everything readiness validation found wrong: every missing license id,
/// every missing file id, every set violation, and whether the board failed
/// to resolve.
#[derive(Debug)]
pub struct ValidationFailure {
    /// The properties name a board the catalog does not know.
    pub unknown_board: bool,
    /// Ids of registered licenses not yet accepted, in registration order.
    pub missing_licenses: Vec<usize>,
    /// Ids of file specifications without stored bytes, in order.
    pub missing_files: Vec<usize>,
    /// Set-level violations, in set order.
    pub set_violations: Vec<SetViolation>,
}

impl View for ValidationFailure {
    type V = crate::model::ValidationFailureV;

    open spec fn view(&self) -> crate::model::ValidationFailureV {
        crate::model::ValidationFailureV {
            unknown_board: self.unknown_board,
            missing_licenses: ints_of(self.missing_licenses@),
            missing_files: ints_of(self.missing_files@),
            set_violations: views_of_violations(self.set_violations@),
        }
    }
}

/// The ids of registered licenses not yet accepted.
#[verifier::loop_isolation(false)]
pub(crate) fn compute_missing_licenses(lics: &Vec<LicenseState>) -> (r: Vec<usize>)
    ensures
        ints_of(r@) == spec_missing_license_ids_upto(views_of_lics(lics@), lics@.len() as int),
{
    let mut out: Vec<usize> = Vec::new();
    proof {
        assert(ints_of(out@) =~= spec_missing_license_ids_upto(views_of_lics(lics@), 0));
    }
    let mut i: usize = 0;
    while i < lics.len()
        invariant
            i <= lics@.len(),
            ints_of(out@) == spec_missing_license_ids_upto(views_of_lics(lics@), i as int),
        decreases lics@.len() - i,
    {
        let ghost prev = out@;
        if !lics[i].accepted {
            out.push(lics[i].id);
            proof {
                assert(ints_of(out@) =~= ints_of(prev).push(lics@[i as int].id as int));
            }
        }
        i = i + 1;
    }
    out
}

/// The ids of file specifications without stored bytes.
#[verifier::loop_isolation(false)]
pub(crate) fn compute_missing_files(specs: &Vec<FileSpec>, files: &Vec<Option<Vec<u8>>>) -> (r:
    Vec<usize>)
    requires
        files@.len() == specs@.len(),
    ensures
        ints_of(r@) == spec_missing_file_ids_upto(
            views_of_specs(specs@),
            crate::builder::views_of_files(files@),
            files@.len() as int,
        ),
{
    let mut out: Vec<usize> = Vec::new();
    proof {
        assert(ints_of(out@) =~= spec_missing_file_ids_upto(
            views_of_specs(specs@),
            crate::builder::views_of_files(files@),
            0,
        ));
    }
    let mut i: usize = 0;
    while i < files.len()
        invariant
            i <= files@.len(),
            ints_of(out@) == spec_missing_file_ids_upto(
                views_of_specs(specs@),
                crate::builder::views_of_files(files@),
                i as int,
            ),
        decreases files@.len() - i,
    {
        let ghost prev = out@;
        if files[i].is_none() {
            out.push(specs[i].id);
            proof {
                assert(ints_of(out@) =~= ints_of(prev).push(specs@[i as int].id as int));
            }
        }
        i = i + 1;
    }
    out
}

/// Each specification's set id is bounded by its position.
pub(crate) proof fn lemma_set_id_le(specs: Seq<FileSpecV>, i: int)
    requires
        specs_wf(specs),
        0 <= i < specs.len(),
    ensures
        0 <= specs[i].set_id <= i,
    decreases i,
{
    if i > 0 {
        lemma_set_id_le(specs, i - 1);
        assert(specs[i].set_id == specs[i - 1].set_id || specs[i].set_id == specs[i - 1].set_id
            + 1);
    }
}

/// Every set id up to the last one has at least one member: set ids start at
/// zero and never jump.
pub(crate) proof fn lemma_set_cover(specs: Seq<FileSpecV>, sid: int)
    requires
        specs.len() > 0,
        specs[0].set_id == 0,
        forall|i: int|
            #![trigger specs[i], specs[i - 1]]
            0 < i < specs.len() ==> specs[i].set_id == specs[i - 1].set_id || specs[i].set_id
                == specs[i - 1].set_id + 1,
        0 <= sid <= specs.last().set_id,
    ensures
        exists|i: int| 0 <= i < specs.len() && (#[trigger] specs[i]).set_id == sid,
    decreases specs.len(),
{
    if specs.last().set_id == sid {
        assert(specs[specs.len() - 1].set_id == sid);
    } else {
        assert(specs.len() > 1) by {
            if specs.len() == 1 {
                assert(specs.last() == specs[0]);
            }
        }
        let pre = specs.drop_last();
        let n = specs.len() as int - 1;
        assert(specs[n].set_id == specs[n - 1].set_id || specs[n].set_id == specs[n - 1].set_id
            + 1);
        assert(pre.last() == specs[n - 1]);
        assert(forall|i: int| 0 <= i < pre.len() ==> pre[i] == (#[trigger] specs[i]));
        lemma_set_cover(pre, sid);
        let w = choose|i: int| 0 <= i < pre.len() && (#[trigger] pre[i]).set_id == sid;
        assert(specs[w].set_id == sid);
    }
}

/// The violations of one set: scan its members once, then apply the rule of
/// the set's type.
#[verifier::rlimit(50)]
#[verifier::loop_isolation(false)]
pub(crate) fn violations_of_set_exec(specs: &Vec<FileSpec>, sid: usize, board: Option<Board>) -> (r:
    Vec<SetViolation>)
    requires
        specs_wf(views_of_specs(specs@)),
        exists|i: int|
            0 <= i < specs@.len() && (#[trigger] views_of_specs(specs@)[i]).set_id == sid as int,
    ensures
        views_of_violations(r@) == spec_violations_of_set(
            views_of_specs(specs@),
            sid as int,
            board,
        ),
{
    let ghost vs = views_of_specs(specs@);
    let mut count: usize = 0;
    let mut cs_ok = true;
    let mut first: Option<usize> = None;
    let mut i: usize = 0;
    while i < specs.len()
        invariant
            i <= specs@.len(),
            count == spec_set_member_count(vs, sid as int, i as int),
            count <= i,
            cs_ok == spec_set_members_have_cs1(vs, sid as int, i as int),
            match first {
                None => forall|k: int| 0 <= k < i ==> (#[trigger] vs[k]).set_id != sid as int,
                Some(f) => f < i && vs[f as int].set_id == sid as int,
            },
        decreases specs@.len() - i,
    {
        if specs[i].set_id == sid {
            count = count + 1;
            if specs[i].cs1.is_none() {
                cs_ok = false;
            }
            if first.is_none() {
                first = Some(i);
            }
        }
        proof {
            if vs[i as int].set_id == sid as int && vs[i as int].cs1 is Some {
                assert(spec_set_members_have_cs1(vs, sid as int, i as int + 1)
                    == spec_set_members_have_cs1(vs, sid as int, i as int));
            }
        }
        i = i + 1;
    }
    let f = match first {
        Some(f) => f,
        None => {
            proof {
                let w = choose|k: int|
                    0 <= k < specs@.len() && (#[trigger] vs[k]).set_id == sid as int;
                assert(vs[w].set_id != sid as int);
            }
            0
        },
    };
    let st = specs[f].set_type;
    proof {
        let c = crate::model::spec_first_member_of(vs, sid as int);
        assert(0 <= c < vs.len() && vs[c].set_id == sid as int);
        assert(st == spec_set_type_of(vs, sid as int));
    }
    let mut out: Vec<SetViolation> = Vec::new();
    match st {
        SetType::Single => {
            if count != 1 {
                out.push(SetViolation { set_id: sid, kind: SetViolationKind::WrongMemberCount });
            }
        },
        SetType::Banked => {
            if !cs_ok {
                out.push(SetViolation { set_id: sid, kind: SetViolationKind::MissingChipSelect });
            }
        },
        SetType::MultiRom => {
            match board {
                Some(bd) => {
                    if !bd.supports_multi_rom_sets() {
                        out.push(
                            SetViolation {
                                set_id: sid,
                                kind: SetViolationKind::BoardLacksMultiRomSets,
                            },
                        );
                    }
                },
                None => {},
            }
            if !cs_ok {
                out.push(SetViolation { set_id: sid, kind: SetViolationKind::MissingChipSelect });
            }
        },
    }
    proof {
        assert(views_of_violations(out@) =~= spec_violations_of_set(vs, sid as int, board));
    }
    out
}

/// All set violations, set by set.
#[verifier::loop_isolation(false)]
pub(crate) fn compute_set_violations(specs: &Vec<FileSpec>, board: Option<Board>) -> (r: Vec<
    SetViolation,
>)
    requires
        specs_wf(views_of_specs(specs@)),
    ensures
        views_of_violations(r@) == spec_set_violations(views_of_specs(specs@), board),
{
    let ghost vs = views_of_specs(specs@);
    let mut out: Vec<SetViolation> = Vec::new();
    if specs.len() == 0 {
        proof {
            assert(views_of_violations(out@) =~= spec_set_violations_upto(vs, board, 0));
        }
        return out;
    }
    proof {
        lemma_set_id_le(vs, vs.len() as int - 1);
    }
    let num_sets = specs[specs.len() - 1].set_id + 1;
    assert(num_sets == num_sets_of(vs));
    proof {
        assert(views_of_violations(out@) =~= spec_set_violations_upto(vs, board, 0));
    }
    let mut sid: usize = 0;
    while sid < num_sets
        invariant
            sid <= num_sets,
            views_of_violations(out@) == spec_set_violations_upto(vs, board, sid as int),
        decreases num_sets - sid,
    {
        proof {
            lemma_set_cover(vs, sid as int);
        }
        let mut v = violations_of_set_exec(specs, sid, board);
        let ghost prev = out@;
        let ghost vv = v@;
        out.append(&mut v);
        proof {
            assert(views_of_violations(out@) =~= views_of_violations(prev) + views_of_violations(
                vv,
            ));
        }
        sid = sid + 1;
    }
    out
}

} // verus!
