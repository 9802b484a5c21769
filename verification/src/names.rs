//! Pretty display names for catalog entries, and per-family enumerations.

use vstd::prelude::*;
use vstd::string::StrSliceExecFns;

use crate::catalog::{spec_family_from_name, Board, McuFamily, McuVariant};
use crate::catalog_info::CatalogError;

verus! {

/// ASCII upper-casing of one character; anything else passes through.
pub open spec fn spec_upper_char(c: char) -> char {
    if 97 <= c as u32 <= 122 {
        (((c as u32) - 32) as u8) as char
    } else {
        c
    }
}

/// ASCII lower-casing of one character; anything else passes through.
pub open spec fn spec_lower_char(c: char) -> char {
    if 65 <= c as u32 <= 90 {
        (((c as u32) + 32) as u8) as char
    } else {
        c
    }
}

/// Whether a name starts with the word "usb", in any case, ending there or at
/// a dash.
pub open spec fn spec_is_usb_word(s: Seq<char>) -> bool {
    &&& s.len() >= 3
    &&& spec_lower_char(s[0]) == 'u'
    &&& spec_lower_char(s[1]) == 's'
    &&& spec_lower_char(s[2]) == 'b'
    &&& (s.len() == 3 || s[3] == '-')
}

/// The pretty form of a dash-separated name: dashes become spaces, each word
/// is capitalized, and the word "usb" becomes all caps.
pub open spec fn spec_pretty_rec(s: Seq<char>, at_start: bool) -> Seq<char>
    decreases s.len(),
{
    if s.len() == 0 {
        Seq::empty()
    } else if at_start && spec_is_usb_word(s) {
        seq!['U', 'S', 'B'] + spec_pretty_rec(s.skip(3), false)
    } else if s[0] == '-' {
        seq![' '] + spec_pretty_rec(s.skip(1), true)
    } else {
        seq![
            if at_start {
                spec_upper_char(s[0])
            } else {
                s[0]
            },
        ] + spec_pretty_rec(s.skip(1), false)
    }
}

/// The pretty form of a board name.
pub open spec fn spec_pretty_board_name(s: Seq<char>) -> Seq<char> {
    spec_pretty_rec(s, true)
}

/// Relies on String::push: appends the given character.
#[verifier::external_body]
fn push_char(s: &mut String, c: char)
    ensures
        final(s)@ == old(s)@ + seq![c],
{
    s.push(c);
}

fn lower_char(c: char) -> (r: char)
    ensures
        r == spec_lower_char(c),
{
    let u = c as u32;
    if 65 <= u && u <= 90 {
        ((u + 32) as u8) as char
    } else {
        c
    }
}

fn upper_char(c: char) -> (r: char)
    ensures
        r == spec_upper_char(c),
{
    let u = c as u32;
    if 97 <= u && u <= 122 {
        ((u - 32) as u8) as char
    } else {
        c
    }
}

/// Convert a dash-separated catalog name to a display name: "fire-24-usb"
/// becomes "Fire 24 USB".
#[verifier::rlimit(50)]
#[verifier::loop_isolation(false)]
pub fn format_board_name(name: &str) -> (r: String)
    ensures
        r@ == spec_pretty_board_name(name@),
{
    let n = name.unicode_len();
    let mut out = String::new();
    let mut i: usize = 0;
    let mut at_start = true;
    proof {
        assert(name@.skip(0) =~= name@);
        assert(out@ + spec_pretty_rec(name@, true) =~= spec_pretty_rec(name@, true));
    }
    while i < n
        invariant
            i <= n,
            n == name@.len(),
            out@ + spec_pretty_rec(name@.skip(i as int), at_start) == spec_pretty_board_name(
                name@,
            ),
        decreases n - i,
    {
        let ghost rest = name@.skip(i as int);
        let c = name.get_char(i);
        assert(c == rest[0]);
        let usb = at_start && n - i >= 3 && lower_char(c) == 'u' && lower_char(name.get_char(i + 1))
            == 's' && lower_char(name.get_char(i + 2)) == 'b' && (i + 3 == n || name.get_char(i + 3)
            == '-');
        if usb {
            assert(spec_is_usb_word(rest));
            push_char(&mut out, 'U');
            push_char(&mut out, 'S');
            push_char(&mut out, 'B');
            proof {
                assert(rest.skip(3) =~= name@.skip(i as int + 3));
                assert(out@ + spec_pretty_rec(name@.skip(i as int + 3), false)
                    =~= spec_pretty_board_name(name@));
            }
            i = i + 3;
            at_start = false;
        } else if c == '-' {
            proof {
                if at_start {
                    assert(!spec_is_usb_word(rest));
                }
            }
            push_char(&mut out, ' ');
            proof {
                assert(rest.skip(1) =~= name@.skip(i as int + 1));
                assert(out@ + spec_pretty_rec(name@.skip(i as int + 1), true)
                    =~= spec_pretty_board_name(name@));
            }
            i = i + 1;
            at_start = true;
        } else {
            proof {
                if at_start {
                    assert(!spec_is_usb_word(rest));
                }
            }
            let e = if at_start {
                upper_char(c)
            } else {
                c
            };
            push_char(&mut out, e);
            proof {
                assert(rest.skip(1) =~= name@.skip(i as int + 1));
                assert(out@ + spec_pretty_rec(name@.skip(i as int + 1), false)
                    =~= spec_pretty_board_name(name@));
            }
            i = i + 1;
            at_start = false;
        }
    }
    proof {
        assert(name@.skip(n as int) =~= Seq::<char>::empty());
        assert(out@ =~= spec_pretty_board_name(name@));
    }
    out
}

/// A machine name together with its display form.
pub struct ValuePrettyPair {
    value: String,
    pretty: String,
}

/// Ghost mirror of [`ValuePrettyPair`].
#[verifier::ext_equal]
pub ghost struct ValuePrettyPairV {
    pub value: Seq<char>,
    pub pretty: Seq<char>,
}

impl View for ValuePrettyPair {
    type V = ValuePrettyPairV;

    closed spec fn view(&self) -> ValuePrettyPairV {
        ValuePrettyPairV { value: self.value@, pretty: self.pretty@ }
    }
}

impl ValuePrettyPair {
    pub fn value(&self) -> (r: String)
        ensures
            r@ == self@.value,
    {
        self.value.clone()
    }

    pub fn pretty(&self) -> (r: String)
        ensures
            r@ == self@.pretty,
    {
        self.pretty.clone()
    }
}

/// The catalog's boards of one MCU family, in catalog order.
pub open spec fn spec_family_boards(f: McuFamily) -> Seq<Board> {
    match f {
        McuFamily::Stm32f4 => seq![Board::Fire24D, Board::Fire24Usb, Board::Fire28A, Board::Air24A],
        McuFamily::Rp2350 => seq![Board::Ice24G],
    }
}

/// The catalog's MCU variants of one family, in catalog order.
pub open spec fn spec_family_mcus(f: McuFamily) -> Seq<McuVariant> {
    match f {
        McuFamily::Stm32f4 => seq![
            McuVariant::Stm32f411re,
            McuVariant::Stm32f446re,
            McuVariant::Stm32f405rg,
        ],
        McuFamily::Rp2350 => seq![McuVariant::Rp2350],
    }
}

fn board_pair(b: Board) -> (r: ValuePrettyPair)
    ensures
        r@.value == b.spec_name(),
        r@.pretty == spec_pretty_board_name(b.spec_name()),
{
    ValuePrettyPair { value: b.name().to_owned(), pretty: format_board_name(b.name()) }
}

/// The boards of a specific MCU family, with display names.
pub fn boards_for_mcu_family(family_name: String) -> (r: Result<Vec<ValuePrettyPair>, CatalogError>)
    ensures
        match spec_family_from_name(family_name@) {
            None => r matches Err(CatalogError::UnknownMcuFamily),
            Some(f) => r matches Ok(v) && v@.len() == spec_family_boards(f).len() && (forall|
                i: int,
            |
                0 <= i < v@.len() ==> (#[trigger] v@[i])@.value == spec_family_boards(f)[
                    i].spec_name() && v@[i]@.pretty == spec_pretty_board_name(
                    spec_family_boards(f)[i].spec_name(),
                )),
        },
{
    let f = match crate::catalog::family_from_name(&family_name) {
        Some(f) => f,
        None => {
            return Err(CatalogError::UnknownMcuFamily);
        },
    };
    let mut out: Vec<ValuePrettyPair> = Vec::new();
    match f {
        McuFamily::Stm32f4 => {
            out.push(board_pair(Board::Fire24D));
            out.push(board_pair(Board::Fire24Usb));
            out.push(board_pair(Board::Fire28A));
            out.push(board_pair(Board::Air24A));
        },
        McuFamily::Rp2350 => {
            out.push(board_pair(Board::Ice24G));
        },
    }
    Ok(out)
}

/// The MCU variants of a specific family; the display name is the machine
/// name.
pub fn mcus_for_mcu_family(family_name: String) -> (r: Result<Vec<ValuePrettyPair>, CatalogError>)
    ensures
        match spec_family_from_name(family_name@) {
            None => r matches Err(CatalogError::UnknownMcuFamily),
            Some(f) => r matches Ok(v) && v@.len() == spec_family_mcus(f).len() && (forall|i: int|
                0 <= i < v@.len() ==> (#[trigger] v@[i])@.value == spec_family_mcus(f)[
                    i].spec_name() && v@[i]@.pretty == spec_family_mcus(f)[i].spec_name()),
        },
{
    let f = match crate::catalog::family_from_name(&family_name) {
        Some(f) => f,
        None => {
            return Err(CatalogError::UnknownMcuFamily);
        },
    };
    let mut out: Vec<ValuePrettyPair> = Vec::new();
    match f {
        McuFamily::Stm32f4 => {
            out.push(mcu_pair(McuVariant::Stm32f411re));
            out.push(mcu_pair(McuVariant::Stm32f446re));
            out.push(mcu_pair(McuVariant::Stm32f405rg));
        },
        McuFamily::Rp2350 => {
            out.push(mcu_pair(McuVariant::Rp2350));
        },
    }
    Ok(out)
}

fn mcu_pair(v: McuVariant) -> (r: ValuePrettyPair)
    ensures
        r@.value == v.spec_name(),
        r@.pretty == v.spec_name(),
{
    ValuePrettyPair { value: v.name().to_owned(), pretty: v.name().to_owned() }
}

} // verus!
