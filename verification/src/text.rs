//! Text as a sequence of characters: conversion, white space, trimming,
//! the search for a character, and numbers written out.

use vstd::prelude::*;
use vstd::string::StringExecFns;

verus! {

/// `String::push` of std: appends `c` to the end of `text`.
#[verifier::external_body]
pub(crate) fn push_char(text: &mut String, c: char)
    ensures
        final(text)@ == old(text)@.push(c),
{
    text.push(c)
}

/// The characters of a string.
pub fn chars_of(text: &str) -> (r: Vec<char>)
    ensures
        r@ == text@,
{
    let mut out: Vec<char> = Vec::new();
    for c in it: text.chars()
        invariant
            out@ == it.seq().take(it.index() as int),
            it.seq() == text@,
    {
        out.push(c);
    }
    out
}

/// The string made of the characters from `from` up to `to`.
pub fn string_of(chars: &[char], from: usize, to: usize) -> (r: String)
    requires
        from <= to <= chars@.len(),
    ensures
        r@ == chars@.subrange(from as int, to as int),
{
    let mut out = String::new();
    let mut i: usize = from;
    while i < to
        invariant
            from <= i <= to <= chars@.len(),
            out@ == chars@.subrange(from as int, i as int),
        decreases to - i,
    {
        push_char(&mut out, chars[i]);
        assert(out@ =~= chars@.subrange(from as int, i + 1));
        i += 1;
    }
    out
}

/// Whether the character is white space: one of the characters with the
/// Unicode property `White_Space`.
pub open spec fn is_white(c: char) -> bool {
    let u = c as u32;
    ||| 0x09 <= u <= 0x0D
    ||| u == 0x20
    ||| u == 0x85
    ||| u == 0xA0
    ||| u == 0x1680
    ||| 0x2000 <= u <= 0x200A
    ||| u == 0x2028
    ||| u == 0x2029
    ||| u == 0x202F
    ||| u == 0x205F
    ||| u == 0x3000
}

/// Whether the character is white space.
pub fn is_white_space(c: char) -> (r: bool)
    ensures
        r == is_white(c),
{
    let u = c as u32;
    (0x09 <= u && u <= 0x0D) || u == 0x20 || u == 0x85 || u == 0xA0 || u == 0x1680 || (0x2000 <= u
        && u <= 0x200A) || u == 0x2028 || u == 0x2029 || u == 0x202F || u == 0x205F || u == 0x3000
}

/// The text without the white space at its start and at its end.
pub open spec fn trimmed(text: Seq<char>) -> Seq<char>
    decreases text.len(),
{
    if text.len() == 0 {
        text
    } else if is_white(text[0]) {
        trimmed(text.skip(1))
    } else if is_white(text.last()) {
        trimmed(text.drop_last())
    } else {
        text
    }
}

/// Trims the text between `from` and `to`: returns where what is left of it
/// begins and ends.
pub fn trim(chars: &[char], from: usize, to: usize) -> (r: (usize, usize))
    requires
        from <= to <= chars@.len(),
    ensures
        from <= r.0 <= r.1 <= to,
        chars@.subrange(r.0 as int, r.1 as int) == trimmed(chars@.subrange(from as int, to as int)),
{
    let mut start = from;
    while start < to && is_white_space(chars[start])
        invariant
            from <= start <= to <= chars@.len(),
            trimmed(chars@.subrange(from as int, to as int)) == trimmed(
                chars@.subrange(start as int, to as int),
            ),
        decreases to - start,
    {
        assert(chars@.subrange(start as int, to as int).skip(1) =~= chars@.subrange(
            start + 1,
            to as int,
        ));
        start += 1;
    }
    let mut end = to;
    while start < end && is_white_space(chars[end - 1])
        invariant
            from <= start <= end <= to <= chars@.len(),
            start < to ==> !is_white(chars@[start as int]),
            trimmed(chars@.subrange(from as int, to as int)) == trimmed(
                chars@.subrange(start as int, end as int),
            ),
        decreases end - start,
    {
        assert(chars@.subrange(start as int, end as int).drop_last() =~= chars@.subrange(
            start as int,
            end - 1,
        ));
        end -= 1;
    }
    (start, end)
}

/// The place of the first `c` in `text` from `from` on and before `to`, or
/// `to` where there is none.
pub open spec fn position(text: Seq<char>, c: char, from: int, to: int) -> int
    decreases to - from,
{
    if from >= to || text[from] == c {
        from
    } else {
        position(text, c, from + 1, to)
    }
}

/// The first place of a character lies at or after the place where the
/// search begins, and at or before the place where it ends.
pub proof fn lemma_position_bounds(text: Seq<char>, c: char, from: int, to: int)
    requires
        from <= to,
    ensures
        from <= position(text, c, from, to) <= to,
    decreases to - from,
{
    if from < to && text[from] != c {
        lemma_position_bounds(text, c, from + 1, to);
    }
}

/// Finds the first `c` from `from` on and before `to`.
pub fn find_char(chars: &[char], c: char, from: usize, to: usize) -> (r: usize)
    requires
        from <= to <= chars@.len(),
    ensures
        r == position(chars@, c, from as int, to as int),
        from <= r <= to,
{
    let mut i = from;
    while i < to && chars[i] != c
        invariant
            from <= i <= to <= chars@.len(),
            position(chars@, c, from as int, to as int) == position(chars@, c, i as int, to as int),
        decreases to - i,
    {
        i += 1;
    }
    i
}

/// The character of a digit: `0` to `9`, then `A` to `F`.
pub open spec fn digit(d: int) -> char {
    if d < 10 {
        (0x30 + d) as char
    } else {
        (0x41 + d - 10) as char
    }
}

/// The digits of a natural number to the base `base`, without leading
/// zeros.
pub open spec fn numeral(n: nat, base: nat) -> Seq<char>
    decreases n,
    via numeral_ends
{
    if n < base || base < 2 {
        seq![digit(n as int)]
    } else {
        numeral(n / base, base).push(digit((n % base) as int))
    }
}

#[via_fn]
proof fn numeral_ends(n: nat, base: nat) {
    if n >= base && base >= 2 {
        lemma_quotient(n, base);
    }
}

/// The quotient by a base of at least 2 is smaller than the number, unless
/// the number is 0; the remainder is smaller than the base; and a number
/// below the base is its own remainder.
proof fn lemma_quotient(n: nat, base: nat)
    requires
        base >= 2,
    ensures
        n > 0 ==> n / base < n,
        n % base < base,
        n < base ==> n / base == 0 && n % base == n,
        n >= base ==> n / base > 0,
{
    assert(n >= base ==> n / base > 0) by (nonlinear_arith)
        requires
            base >= 2,
    ;
    assert(n > 0 ==> n / base < n) by (nonlinear_arith)
        requires
            base >= 2,
    ;
    assert(n % base < base) by (nonlinear_arith)
        requires
            base >= 2,
    ;
    assert(n < base ==> n / base == 0 && n % base == n) by (nonlinear_arith)
        requires
            base >= 2,
    ;
}

/// Writes a number to a base from 2 to 16.
pub fn numeral_string(n: u64, base: u64) -> (r: String)
    requires
        2 <= base <= 16,
    ensures
        r@ == numeral(n as nat, base as nat),
{
    proof {
        lemma_quotient(n as nat, base as nat);
    }
    // the digits from the last to the first
    let mut low: Vec<u8> = Vec::new();
    low.push((n % base) as u8);
    let mut rest: u64 = n / base;
    let ghost mut digits: Seq<char> = seq![digit((n % base) as int)];
    assert(n >= base ==> numeral(n as nat, base as nat) =~= numeral(
        (n / base) as nat,
        base as nat,
    ) + digits);
    while rest > 0
        invariant
            2 <= base <= 16,
            low@.len() == digits.len(),
            low@.len() > 0,
            forall|i: int| 0 <= i < low@.len() ==> low@[i] < 16,
            forall|i: int|
                0 <= i < low@.len() ==> digits[low@.len() - 1 - i] == digit(
                    #[trigger] low@[i] as int,
                ),
            numeral(n as nat, base as nat) == if rest > 0 {
                numeral(rest as nat, base as nat) + digits
            } else {
                digits
            },
        decreases rest,
    {
        proof {
            lemma_quotient(rest as nat, base as nat);
        }
        let d = (rest % base) as u8;
        proof {
            let before = digits;
            digits = seq![digit(d as int)] + digits;
            if rest < base {
                assert(numeral(rest as nat, base as nat) + before =~= digits);
            } else {
                assert(numeral(rest as nat, base as nat) =~= numeral(
                    (rest / base) as nat,
                    base as nat,
                ) + seq![digit(d as int)]);
                assert(numeral(rest as nat, base as nat) + before =~= numeral(
                    (rest / base) as nat,
                    base as nat,
                ) + digits);
            }
        }
        low.push(d);
        rest = rest / base;
    }
    let mut text = String::new();
    let mut i: usize = low.len();
    while i > 0
        invariant
            i <= low@.len(),
            low@.len() == digits.len(),
            forall|k: int| 0 <= k < low@.len() ==> low@[k] < 16,
            forall|k: int|
                0 <= k < low@.len() ==> digits[low@.len() - 1 - k] == digit(
                    #[trigger] low@[k] as int,
                ),
            text@ == digits.take(low@.len() - i),
        decreases i,
    {
        i -= 1;
        let d = low[i];
        let c = if d < 10 {
            (0x30 + d) as char
        } else {
            (0x41 + d - 10) as char
        };
        push_char(&mut text, c);
        assert(text@ =~= digits.take(low@.len() - i));
    }
    assert(digits.take(digits.len() as int) =~= digits);
    text
}

/// The decimal form of a number: its digits, after a `-` where it is
/// negative.
pub open spec fn decimal(n: int) -> Seq<char> {
    if n < 0 {
        seq!['-'] + numeral((-n) as nat, 10)
    } else {
        numeral(n as nat, 10)
    }
}

/// Writes a number in decimal.
pub fn decimal_string(n: i32) -> (r: String)
    ensures
        r@ == decimal(n as int),
{
    if n < 0 {
        let mut text = String::new();
        push_char(&mut text, '-');
        text.append(numeral_string((-(n as i64)) as u64, 10).as_str());
        assert(text@ =~= seq!['-'] + numeral((-n) as nat, 10));
        text
    } else {
        numeral_string(n as u64, 10)
    }
}

/// The hexadecimal form of a number, in upper case.
pub open spec fn hexadecimal(n: nat) -> Seq<char> {
    numeral(n, 16)
}

/// Writes a number in hexadecimal, in upper case.
pub fn hex_string(n: usize) -> (r: String)
    ensures
        r@ == hexadecimal(n as nat),
{
    numeral_string(n as u64, 16)
}

} // verus!
