use osu_memory_reader::text::{
    chars_of, find_char, hex_string, is_white_space, numeral_string, string_of, trim,
};

fn chars(text: &str) -> Vec<char> {
    text.chars().collect()
}

fn trimmed(text: &str) -> String {
    let all = chars(text);
    let (from, to) = trim(&all, 0, all.len());
    string_of(&all, from, to)
}

#[test]
fn chars_of_gives_the_characters() {
    assert_eq!(chars_of(""), Vec::<char>::new());
    assert_eq!(chars_of("a𝄞é"), vec!['a', '𝄞', 'é']);
    assert_eq!(chars_of("夜に駆ける"), chars("夜に駆ける"));
}

#[test]
fn string_of_gives_the_part_asked_for() {
    let all = chars("Exit This Earth");
    assert_eq!(string_of(&all, 0, all.len()), "Exit This Earth");
    assert_eq!(string_of(&all, 5, 9), "This");
    assert_eq!(string_of(&all, 4, 4), "");
    assert_eq!(string_of(&chars("a𝄞é"), 1, 3), "𝄞é");
}

#[test]
fn white_space_is_what_std_takes_for_white_space() {
    for code in 0..=0x10_FFFFu32 {
        if let Some(c) = char::from_u32(code) {
            assert_eq!(is_white_space(c), c.is_whitespace(), "U+{:04X}", code);
        }
    }
}

#[test]
fn white_space_characters() {
    for c in ['\t', '\n', '\u{B}', '\u{C}', '\r', ' ', '\u{85}', '\u{A0}', '\u{1680}', '\u{2000}', '\u{200A}', '\u{2028}', '\u{2029}', '\u{202F}', '\u{205F}', '\u{3000}'] {
        assert!(is_white_space(c));
    }
    for c in ['a', '0', '\u{8}', '\u{E}', '\u{1F}', '!', '\u{84}', '\u{86}', '\u{180E}', '\u{200B}', '\u{2060}', '\u{FEFF}'] {
        assert!(!is_white_space(c));
    }
}

#[test]
fn trim_takes_the_white_space_off_both_ends() {
    for text in [
        "", " ", "  \t\r\n", "a", " a", "a ", "  a b  ", "\u{3000}osu!\u{A0}\n", "a\u{200B} ",
        " \u{200B} ", "=\t", "\r\nUSERNAME = x\r", "x\u{2028}y", "\u{1680}\u{1680}", "ab\u{85}",
    ] {
        assert_eq!(trimmed(text), text.trim(), "{:?}", text);
    }
}

#[test]
fn trim_of_a_part_stays_within_the_part() {
    let all = chars(" a  b c  d ");
    assert_eq!(trim(&all, 2, 9), (4, 7));
    let (from, to) = trim(&all, 2, 4);
    assert!(2 <= from && from == to && to <= 4);
    assert_eq!(trim(&all, 0, all.len()), (1, 10));
    assert_eq!(trim(&all, 1, 2), (1, 2));
    assert_eq!(trim(&all, 0, 0), (0, 0));
}

#[test]
fn find_char_gives_the_first_place_or_the_end() {
    let all = chars("a=b=c\n=");
    assert_eq!(find_char(&all, '=', 0, all.len()), 1);
    assert_eq!(find_char(&all, '=', 2, all.len()), 3);
    assert_eq!(find_char(&all, '=', 4, all.len()), 6);
    assert_eq!(find_char(&all, '=', 4, 6), 6);
    assert_eq!(find_char(&all, '\n', 0, all.len()), 5);
    assert_eq!(find_char(&all, 'x', 0, all.len()), all.len());
    assert_eq!(find_char(&all, 'a', 0, 0), 0);
    assert_eq!(find_char(&all, 'a', 1, 1), 1);
}

#[test]
fn numbers_to_a_base() {
    assert_eq!(numeral_string(0, 2), "0");
    assert_eq!(numeral_string(5, 2), "101");
    assert_eq!(numeral_string(255, 16), "FF");
    assert_eq!(numeral_string(255, 10), "255");
    assert_eq!(numeral_string(35, 12), "2B");
    assert_eq!(numeral_string(u64::MAX, 10), "18446744073709551615");
    assert_eq!(numeral_string(u64::MAX, 16), "FFFFFFFFFFFFFFFF");
    assert_eq!(numeral_string(u64::MAX, 2), "1".repeat(64));
    assert_eq!(numeral_string(0x1234_5678_9ABC_DEF0, 16), "123456789ABCDEF0");
}

#[test]
fn numbers_in_hexadecimal_as_std_writes_them() {
    assert_eq!(hex_string(0), "0");
    assert_eq!(hex_string(0xC), "C");
    assert_eq!(hex_string(0x10), "10");
    assert_eq!(hex_string(0x7000_0000), "70000000");
    assert_eq!(hex_string(usize::MAX), format!("{:X}", usize::MAX));
    let mut state = 0x2545_F491u32;
    for _ in 0..5000 {
        state = state.wrapping_mul(1664525).wrapping_add(1013904223);
        let n = state as usize;
        assert_eq!(hex_string(n), format!("{:X}", n));
        assert_eq!(hex_string(n >> 13), format!("{:X}", n >> 13));
        assert_eq!(numeral_string(n as u64, 10), n.to_string());
        assert_eq!(numeral_string(n as u64, 8), format!("{:o}", n));
        assert_eq!(numeral_string(n as u64, 2), format!("{:b}", n));
    }
}
