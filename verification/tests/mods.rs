use osu_memory_reader::mods::{get_mod_string, parse_mod_arg, MOD_ABBREVIATIONS};

const INVALID: &str = "Invalid mod abbreviation";

/// The text of a mask, worked out from the highest flag down.
fn text_from_the_top(mods: u32) -> String {
    let mut names: Vec<&str> = vec![];
    let mut value = mods;
    let mut nightcore = false;
    for i in 1..MOD_ABBREVIATIONS.len() + 1 {
        let flag = 1u32 << (MOD_ABBREVIATIONS.len() - i);
        if value >= flag {
            value %= flag;
            if flag == 512 {
                nightcore = true;
            } else if flag == 64 && nightcore {
                continue;
            }
            names.push(MOD_ABBREVIATIONS[MOD_ABBREVIATIONS.len() - i]);
        }
    }
    names.reverse();
    names.join("")
}

#[test]
fn no_mods_have_no_text() {
    assert_eq!(get_mod_string(0), "");
}

#[test]
fn each_mod_has_its_abbreviation() {
    let names = [
        "NF", "EZ", "TD", "HD", "HR", "SD", "DT", "RX", "HT", "NC", "FL", "AU", "SO", "AP", "PF",
        "K4", "K5", "K6", "K7", "K8", "FI", "RA", "CN", "TP", "K9", "CO", "K1", "K3", "K2", "V2",
        "MR",
    ];
    for (bit, name) in names.iter().enumerate() {
        assert_eq!(get_mod_string(1 << bit), *name);
        assert_eq!(parse_mod_arg(name), Ok((1 << bit) | if bit == 9 { 64 } else { 0 }));
    }
}

#[test]
fn mods_are_written_lowest_bit_first() {
    assert_eq!(get_mod_string(8 | 16), "HDHR");
    assert_eq!(get_mod_string(1 | 8 | 64 | 1024), "NFHDDTFL");
    assert_eq!(get_mod_string(16 | 32 | 16384), "HRSDPF");
}

#[test]
fn double_time_is_not_written_beside_nightcore() {
    assert_eq!(get_mod_string(64), "DT");
    assert_eq!(get_mod_string(512), "NC");
    assert_eq!(get_mod_string(512 | 64), "NC");
    assert_eq!(get_mod_string(512 | 64 | 8), "HDNC");
    assert_eq!(get_mod_string(512 | 64 | 1 | 1024), "NFNCFL");
}

#[test]
fn the_last_mod_stands_for_the_bits_above_it() {
    assert_eq!(get_mod_string(1 << 30), "MR");
    assert_eq!(get_mod_string(1 << 31), "MR");
    assert_eq!(get_mod_string((1 << 31) | 8), "HDMR");
    assert_eq!(get_mod_string((1 << 31) | (1 << 30) | 1), "NFMR");
    assert_eq!(
        get_mod_string(u32::MAX),
        "NFEZTDHDHRSDRXHTNCFLAUSOAPPFK4K5K6K7K8FIRACNTPK9COK1K3K2V2MR"
    );
}

#[test]
fn the_text_is_that_of_the_walk_from_the_highest_flag_down() {
    let mut state = 0x9E37_79B9u32;
    for _ in 0..2000 {
        state = state.wrapping_mul(1664525).wrapping_add(1013904223);
        assert_eq!(get_mod_string(state), text_from_the_top(state));
        assert_eq!(get_mod_string(state >> 16), text_from_the_top(state >> 16));
    }
    for mods in 0..4096u32 {
        assert_eq!(get_mod_string(mods), text_from_the_top(mods));
    }
}

#[test]
fn arguments_name_mods_with_or_without_the_plus() {
    assert_eq!(parse_mod_arg("+HDHR"), Ok(24));
    assert_eq!(parse_mod_arg("HDHR"), Ok(24));
    assert_eq!(parse_mod_arg("+HRHD"), Ok(24));
    assert_eq!(parse_mod_arg("+DT"), Ok(64));
    assert_eq!(parse_mod_arg("+EZFLK4"), Ok(2 | 1024 | 32768));
    assert_eq!(parse_mod_arg("+MR"), Ok(1 << 30));
}

#[test]
fn arguments_may_be_in_either_case() {
    assert_eq!(parse_mod_arg("+hdhr"), Ok(24));
    assert_eq!(parse_mod_arg("+HdhR"), Ok(24));
    assert_eq!(parse_mod_arg("k4"), Ok(32768));
    assert_eq!(parse_mod_arg("+nm"), Ok(0));
}

#[test]
fn no_mod_adds_nothing() {
    assert_eq!(parse_mod_arg(""), Ok(0));
    assert_eq!(parse_mod_arg("+"), Ok(0));
    assert_eq!(parse_mod_arg("+NM"), Ok(0));
    assert_eq!(parse_mod_arg("NMHD"), Ok(8));
    assert_eq!(parse_mod_arg("+HDNMNM"), Ok(8));
}

#[test]
fn nightcore_brings_double_time() {
    assert_eq!(parse_mod_arg("+NC"), Ok(512 | 64));
    assert_eq!(parse_mod_arg("+NCDT"), Ok(512 | 64));
    assert_eq!(parse_mod_arg("+DTNC"), Ok(512 | 64));
    assert_eq!(parse_mod_arg("+HDNC"), Ok(8 | 512 | 64));
}

#[test]
fn a_mod_named_twice_is_added_twice() {
    assert_eq!(parse_mod_arg("+HDHD"), Ok(16));
    assert_eq!(parse_mod_arg("+NFNF"), Ok(2));
    assert_eq!(parse_mod_arg("+MRMRMRMR"), Ok(0));
    assert_eq!(parse_mod_arg("+MRMRMRMRHD"), Ok(8));
}

#[test]
fn arguments_that_name_no_mod_are_refused() {
    for arg in ["+HD1", "H", "+H", "+XX", "+HDXX", "XXHD", "+H D", "++HD", "HD+", "+HD ", " HD", "+N", "+0x"]
    {
        assert_eq!(parse_mod_arg(arg), Err(INVALID.to_string()), "{:?}", arg);
    }
}

#[test]
fn arguments_outside_ascii_are_refused() {
    for arg in ["éé", "+HDé", "+ＨＤ", "ſoh", "+ĸ4"] {
        assert_eq!(parse_mod_arg(arg), Err(INVALID.to_string()), "{:?}", arg);
    }
}

#[test]
fn text_and_argument_agree() {
    for mods in [0u32, 1, 8, 24, 64, 72, 576, 584, 1 << 30, 0x3FFF_FDBF] {
        assert_eq!(parse_mod_arg(&get_mod_string(mods)), Ok(mods));
        assert_eq!(parse_mod_arg(&format!("+{}", get_mod_string(mods))), Ok(mods));
    }
}
