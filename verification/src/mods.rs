//! The mods of a score as a bit mask, and their two-letter abbreviations.

use crate::text::push_char;
use vstd::prelude::*;
use vstd::string::{StrSliceExecFns, StringExecFns};

verus! {

/// The abbreviation of each mod, by the number of its bit.
pub const MOD_ABBREVIATIONS: [&'static str; 31] = [
    "NF",
    "EZ",
    "TD",
    "HD",
    "HR",
    "SD",
    "DT",
    "RX",
    "HT",
    "NC",
    "FL",
    "AU",
    "SO",
    "AP",
    "PF",
    "K4",
    "K5",
    "K6",
    "K7",
    "K8",
    "FI",
    "RA",
    "CN",
    "TP",
    "K9",
    "CO",
    "K1",
    "K3",
    "K2",
    "V2",
    "MR",
];

/// The bit of double time.
pub const DOUBLE_TIME: u32 = 64;

/// The bit of nightcore, which implies double time.
pub const NIGHTCORE: u32 = 512;

/// Whether the mask holds the bit with the number `bit`.
pub open spec fn has_bit(mods: u32, bit: u32) -> bool {
    mods & (1u32 << bit) != 0
}

/// Whether the text of a mask names the mod with the number `bit`: the mask
/// holds the bit. Double time is passed over beside nightcore, and the last
/// mod of the table stands for everything from its bit upward.
pub open spec fn names_mod(mods: u32, bit: u32) -> bool {
    if bit == 30 {
        mods >= 0x4000_0000
    } else if bit == 6 {
        has_bit(mods, 6) && !has_bit(mods, 9)
    } else {
        has_bit(mods, bit)
    }
}

/// The abbreviations of the mods with a number below `upto` that the text of
/// the mask names, in the order of their bits.
pub open spec fn mod_text(mods: u32, upto: nat) -> Seq<char>
    decreases upto,
{
    if upto == 0 {
        Seq::empty()
    } else {
        let bit = (upto - 1) as nat;
        mod_text(mods, bit) + if names_mod(mods, bit as u32) {
            MOD_ABBREVIATIONS@[bit as int]@
        } else {
            Seq::empty()
        }
    }
}

/// Writes a mask out as the abbreviations of its mods, lowest bit first.
pub fn get_mod_string(mods: u32) -> (r: String)
    ensures
        r@ == mod_text(mods, 31),
{
    let mut text = String::new();
    let mut bit: u32 = 0;
    while bit < 31
        invariant
            bit <= 31,
            text@ == mod_text(mods, bit as nat),
        decreases 31 - bit,
    {
        let named = if bit == 30 {
            mods >= 0x4000_0000
        } else if bit == 6 {
            mods & (1u32 << 6) != 0 && !(mods & (1u32 << 9) != 0)
        } else {
            mods & (1u32 << bit) != 0
        };
        if named {
            text.append(MOD_ABBREVIATIONS[bit as usize]);
        }
        assert(text@ =~= mod_text(mods, (bit + 1) as nat));
        bit += 1;
    }
    text
}

/// The upper-case form of an ASCII letter; any other byte is left as it is.
pub open spec fn upper(b: u8) -> u8 {
    if 0x61 <= b <= 0x7A {
        (b - 0x20) as u8
    } else {
        b
    }
}

/// The two letters at `at` in `text`, in upper case.
pub open spec fn pair_at(text: Seq<char>, at: int) -> Seq<char> {
    seq![upper(text[at] as u8) as char, upper(text[at + 1] as u8) as char]
}

/// The number of the first mod from `from` on whose abbreviation is `pair`.
pub open spec fn mod_index_from(pair: Seq<char>, from: nat) -> Option<u32>
    decreases 31 - from,
{
    if from >= 31 {
        None
    } else if MOD_ABBREVIATIONS@[from as int]@ == pair {
        Some(from as u32)
    } else {
        mod_index_from(pair, from + 1)
    }
}

/// The number of the mod whose abbreviation is `pair`.
pub open spec fn mod_index(pair: Seq<char>) -> Option<u32> {
    mod_index_from(pair, 0)
}

/// The mask that the abbreviations from `at` on add to `acc`, or `None`
/// where one of them is no mod. `NM` stands for no mod and adds nothing; a
/// mod named twice is added twice, and the sum wraps round.
pub open spec fn parsed(text: Seq<char>, at: int, acc: u32) -> Option<u32>
    decreases text.len() - at,
{
    if at < 0 || at + 2 > text.len() {
        Some(acc)
    } else if pair_at(text, at) == "NM"@ {
        parsed(text, at + 2, acc)
    } else {
        match mod_index(pair_at(text, at)) {
            Some(bit) => parsed(text, at + 2, acc.wrapping_add(1u32 << bit)),
            None => None,
        }
    }
}

/// The mask with double time added where it holds nightcore.
pub open spec fn with_double_time(mods: u32) -> u32 {
    if mods & NIGHTCORE != 0 && mods & DOUBLE_TIME == 0 {
        mods | DOUBLE_TIME
    } else {
        mods
    }
}

/// The mask that an argument stands for: an optional `+`, then an
/// abbreviation of two letters for each mod, in either case. `None` where the
/// argument is not made up of such abbreviations.
pub open spec fn mod_arg_value(arg: Seq<char>) -> Option<u32> {
    let start: int = if arg.len() > 0 && arg[0] as u8 == 0x2B {
        1
    } else {
        0
    };
    if !vstd::utf8::is_ascii_chars(arg) || (arg.len() - start) % 2 != 0 {
        None
    } else {
        match parsed(arg, start, 0) {
            Some(mods) => Some(with_double_time(mods)),
            None => None,
        }
    }
}

/// Finds the number of the mod with the abbreviation `pair`.
fn find_mod(pair: &String) -> (r: Option<u32>)
    ensures
        r == mod_index(pair@),
        r matches Some(bit) ==> bit < 31,
{
    let mut bit: u32 = 0;
    while bit < 31
        invariant
            bit <= 31,
            mod_index(pair@) == mod_index_from(pair@, bit as nat),
        decreases 31 - bit,
    {
        let name = MOD_ABBREVIATIONS[bit as usize].to_owned();
        if *pair == name {
            return Some(bit);
        }
        bit += 1;
    }
    None
}

/// The upper-case form of an ASCII letter; any other byte is left as it is.
fn to_upper(b: u8) -> (r: u8)
    ensures
        r == upper(b),
{
    if 0x61 <= b && b <= 0x7A {
        b - 0x20
    } else {
        b
    }
}

/// Reads the mods that an argument names.
pub fn parse_mod_arg(arg: &str) -> (r: Result<u32, String>)
    ensures
        match mod_arg_value(arg@) {
            Some(mods) => r == Ok::<u32, String>(mods),
            None => r matches Err(message) && message@ == "Invalid mod abbreviation"@,
        },
{
    if !arg.is_ascii() {
        return Err("Invalid mod abbreviation".to_owned());
    }
    let len = arg.unicode_len();
    let start: usize = if len > 0 && arg.get_ascii(0) == 0x2B {
        1
    } else {
        0
    };
    if (len - start) % 2 != 0 {
        return Err("Invalid mod abbreviation".to_owned());
    }
    let mut mod_flags: u32 = 0;
    let mut i: usize = start;
    while i < len
        invariant
            arg.is_ascii(),
            len == arg@.len(),
            start <= i <= len,
            start == if arg@.len() > 0 && arg@[0] as u8 == 0x2B {
                1int
            } else {
                0int
            },
            (len - start) % 2 == 0,
            (len - i) % 2 == 0,
            parsed(arg@, start as int, 0) == parsed(arg@, i as int, mod_flags),
        decreases len - i,
    {
        let mut pair = String::new();
        push_char(&mut pair, to_upper(arg.get_ascii(i)) as char);
        push_char(&mut pair, to_upper(arg.get_ascii(i + 1)) as char);
        assert(pair@ =~= pair_at(arg@, i as int));
        let none = "NM".to_owned();
        if pair == none {
        } else {
            match find_mod(&pair) {
                Some(bit) => {
                    mod_flags = mod_flags.wrapping_add(1u32 << bit);
                },
                None => {
                    return Err("Invalid mod abbreviation".to_owned());
                },
            }
        }
        i += 2;
    }
    if mod_flags & NIGHTCORE != 0 && mod_flags & DOUBLE_TIME == 0 {
        mod_flags = mod_flags | DOUBLE_TIME;
    }
    Ok(mod_flags)
}

} // verus!
