//! Decoding of UTF-16 code units into text.

use crate::text::push_char;
use vstd::prelude::*;

verus! {

/// Whether the code unit is the first half of a surrogate pair.
pub open spec fn is_high_surrogate(unit: u16) -> bool {
    0xD800 <= unit <= 0xDBFF
}

/// Whether the code unit is the second half of a surrogate pair.
pub open spec fn is_low_surrogate(unit: u16) -> bool {
    0xDC00 <= unit <= 0xDFFF
}

/// The scalar value that a surrogate pair encodes.
pub open spec fn pair_scalar(high: u16, low: u16) -> int {
    0x1_0000 + (high - 0xD800) * 0x400 + (low - 0xDC00)
}

/// `first` followed by the characters of `rest`, where there are any.
pub open spec fn prepend(first: Seq<char>, rest: Option<Seq<char>>) -> Option<Seq<char>> {
    match rest {
        Some(chars) => Some(first + chars),
        None => None,
    }
}

/// The characters that the code units encode, or `None` where the units are
/// not well-formed UTF-16: a code unit outside the surrogate range stands for
/// itself, a high surrogate with the low surrogate after it stands for one
/// character, and a surrogate anywhere else is an error.
pub open spec fn utf16_chars(units: Seq<u16>) -> Option<Seq<char>>
    decreases units.len(),
{
    if units.len() == 0 {
        Some(Seq::empty())
    } else if !is_high_surrogate(units[0]) && !is_low_surrogate(units[0]) {
        prepend(seq![units[0] as char], utf16_chars(units.skip(1)))
    } else if is_high_surrogate(units[0]) && units.len() >= 2 && is_low_surrogate(units[1]) {
        prepend(seq![pair_scalar(units[0], units[1]) as char], utf16_chars(units.skip(2)))
    } else {
        None
    }
}

/// `char::from_u32` of std: the character with the scalar value `value`, or
/// `None` where `value` is a surrogate or lies above `0x10FFFF`.
#[verifier::external_body]
fn char_from_scalar(value: u32) -> (r: Option<char>)
    ensures
        r == if value <= 0xD7FF || 0xE000 <= value <= 0x10_FFFF {
            Some(value as char)
        } else {
            None
        },
{
    char::from_u32(value)
}

/// Decodes UTF-16 code units; `None` where they are not well-formed.
pub fn decode_utf16(units: &[u16]) -> (r: Option<String>)
    ensures
        match utf16_chars(units@) {
            Some(chars) => r matches Some(text) && text@ == chars,
            None => r is None,
        },
{
    let mut text = String::new();
    let mut i: usize = 0;
    proof {
        assert(units@.skip(0) =~= units@);
        match utf16_chars(units@) {
            Some(chars) => assert(text@ + chars =~= chars),
            None => {},
        }
    }
    while i < units.len()
        invariant
            i <= units@.len(),
            utf16_chars(units@) == prepend(text@, utf16_chars(units@.skip(i as int))),
        decreases units@.len() - i,
    {
        let ghost rest = units@.skip(i as int);
        let ghost before = text@;
        let unit = units[i];
        assert(rest[0] == unit);
        let scalar: u32 = if unit < 0xD800 || unit > 0xDFFF {
            assert(rest.skip(1) =~= units@.skip(i + 1));
            i += 1;
            unit as u32
        } else if unit <= 0xDBFF && i + 1 < units.len() && 0xDC00 <= units[i + 1] && units[i + 1]
            <= 0xDFFF {
            let low = units[i + 1];
            assert(rest[1] == low);
            assert(rest.skip(2) =~= units@.skip(i + 2));
            i += 2;
            0x1_0000 + (unit as u32 - 0xD800) * 0x400 + (low as u32 - 0xDC00)
        } else {
            return None;
        };
        match char_from_scalar(scalar) {
            Some(c) => {
                push_char(&mut text, c);
                assert(forall|tail: Seq<char>| before.push(c) + tail =~= before + (seq![c] + tail));
            },
            None => {
                return None;
            },
        }
    }
    assert(units@.skip(i as int) =~= Seq::<u16>::empty());
    Some(text)
}

} // verus!
