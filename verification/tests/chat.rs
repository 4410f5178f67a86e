use osu_memory_reader::chat::{
    has_badge, may_use, request_of, retry_after, Audience, Cooldowns, Request, HEAD_START,
    NANOS_PER_SECOND,
};

/// Whether a list of badges holds one of the names, read with the string
/// functions of std.
fn wears_with_std(badges: &str, names: &[&str]) -> bool {
    for badge in badges.split(",") {
        let (name, _) = badge.split_once("/").or(Some((badge, ""))).unwrap();
        for n in names {
            if name.eq(*n) {
                return true;
            }
        }
    }
    false
}

/// The command word of a message, read with the string functions of std.
fn word_with_std(text: &str) -> Option<&str> {
    if !text.starts_with("!") {
        return None;
    }
    let (cmd, _) = text.split_once(" ").or(Some((text.trim(), ""))).unwrap();
    Some(cmd)
}

fn request_with_std(text: &str) -> Option<Request> {
    match word_with_std(text) {
        Some("!np") => Some(Request::NowPlaying),
        Some("!pp") => Some(Request::Performance),
        Some("!ppnow") => Some(Request::PerformanceNow),
        _ => None,
    }
}

#[test]
fn requests_by_their_command_words() {
    assert_eq!(request_of("!np"), Some(Request::NowPlaying));
    assert_eq!(request_of("!pp"), Some(Request::Performance));
    assert_eq!(request_of("!ppnow"), Some(Request::PerformanceNow));
    assert_eq!(request_of("!pp 98.5% +HDHR"), Some(Request::Performance));
    assert_eq!(request_of("!np please"), Some(Request::NowPlaying));
    assert_eq!(request_of("!ppnow "), Some(Request::PerformanceNow));
}

#[test]
fn messages_that_make_no_request() {
    for text in ["", "np", "hello !np", " !np", "!", "!n", "!npp", "!NP", "!pp98", "! np", "!help", "?np"] {
        assert_eq!(request_of(text), None, "{:?}", text);
    }
}

#[test]
fn white_space_after_a_lone_command_word_is_dropped() {
    assert_eq!(request_of("!np\r\n"), Some(Request::NowPlaying));
    assert_eq!(request_of("!pp\t"), Some(Request::Performance));
    assert_eq!(request_of("!ppnow\u{A0}"), Some(Request::PerformanceNow));
    // before a space the word is taken as it stands
    assert_eq!(request_of("!np\t x"), None);
    assert_eq!(request_of("!np\u{200B}"), None);
}

#[test]
fn requests_are_what_the_string_functions_of_std_give() {
    for text in [
        "!np", "!pp", "!ppnow", "!np ", "!np  x", "!pp +HD", "!ppnow now", "!np\n", "!np\t", "!np\u{3000}",
        "!np\tx", "!n p", "!", "! ", "!!np", "!np!", " !np", "\t!np", "!pp\u{85}", "!ppnow\u{2029}\u{2028}",
        "!PP", "!Np", "", " ", "np", "!np\u{FEFF}", "!ｎｐ",
    ] {
        assert_eq!(request_of(text), request_with_std(text), "{:?}", text);
    }
}

#[test]
fn each_request_has_its_slot_its_cooldown_and_its_audience() {
    assert_eq!(Request::NowPlaying.slot(), 0);
    assert_eq!(Request::Performance.slot(), 1);
    assert_eq!(Request::PerformanceNow.slot(), 2);
    assert_eq!(Request::NowPlaying.cooldown(), 5);
    assert_eq!(Request::Performance.cooldown(), 3);
    assert_eq!(Request::PerformanceNow.cooldown(), 1);
    assert_eq!(Request::NowPlaying.audience(), Audience::Everyone);
    assert_eq!(Request::Performance.audience(), Audience::Subscribers);
    assert_eq!(Request::PerformanceNow.audience(), Audience::Moderators);
}

#[test]
fn at_the_start_every_request_counts_as_answered_five_seconds_ago() {
    let start = HEAD_START + 123;
    let cooldowns = Cooldowns::new(start);
    assert_eq!(cooldowns.0, [123, 123, 123]);
    for slot in 0..3 {
        assert!(cooldowns.can_use(slot, 5, start));
        assert!(cooldowns.can_use(slot, 3, start));
        assert!(!cooldowns.can_use(slot, 6, start));
        assert!(cooldowns.can_use(slot, 6, start + NANOS_PER_SECOND));
    }
    assert_eq!(Cooldowns::new(HEAD_START).0, [0, 0, 0]);
}

#[test]
fn a_request_may_be_answered_once_its_cooldown_has_passed() {
    let start = HEAD_START;
    let mut cooldowns = Cooldowns::new(start);
    let answered = start + 7 * NANOS_PER_SECOND;
    cooldowns.reset(1, answered);
    assert_eq!(cooldowns.0, [0, answered, 0]);
    assert!(!cooldowns.can_use(1, 3, answered));
    assert!(cooldowns.can_use(1, 0, answered));
    assert!(!cooldowns.can_use(1, 3, answered + 3 * NANOS_PER_SECOND - 1));
    assert!(cooldowns.can_use(1, 3, answered + 3 * NANOS_PER_SECOND));
    assert!(cooldowns.can_use(1, 3, answered + 4 * NANOS_PER_SECOND));
    // the other requests are not held back
    assert!(cooldowns.can_use(0, 5, answered));
    assert!(cooldowns.can_use(2, 1, answered));
}

#[test]
fn a_clock_read_earlier_counts_as_no_time_passed() {
    let mut cooldowns = Cooldowns::new(HEAD_START);
    cooldowns.reset(2, 100 * NANOS_PER_SECOND);
    assert!(!cooldowns.can_use(2, 1, 50 * NANOS_PER_SECOND));
    assert!(cooldowns.can_use(2, 0, 50 * NANOS_PER_SECOND));
    assert!(cooldowns.can_use(2, u64::MAX, u128::MAX) == (u128::MAX - 100 * NANOS_PER_SECOND >= u64::MAX as u128 * NANOS_PER_SECOND));
}

#[test]
fn badges_are_found_by_their_names() {
    let staff = ["moderator", "broadcaster"];
    assert!(has_badge("moderator/1", &staff));
    assert!(has_badge("subscriber/12,moderator/1", &staff));
    assert!(has_badge("broadcaster/1,subscriber/3000,premium/1", &staff));
    assert!(has_badge("moderator", &staff));
    assert!(has_badge("vip/1,broadcaster", &staff));
    assert!(has_badge("moderator/1/2", &staff));
    assert!(has_badge("moderator/", &staff));
}

#[test]
fn badges_with_other_names_are_not_found() {
    let staff = ["moderator", "broadcaster"];
    for badges in [
        "", "subscriber/12", "subscriber/12,premium/1", "moderators/1", "moderato/1", "Moderator/1",
        " moderator/1", "moderator /1", "vip/moderator", "subscriber/1;moderator/1", "/moderator", ",", "/",
    ] {
        assert!(!has_badge(badges, &staff), "{:?}", badges);
    }
    assert!(!has_badge("moderator/1", &[]));
}

#[test]
fn an_empty_name_is_the_name_of_an_empty_badge() {
    assert!(has_badge("", &[""]));
    assert!(has_badge("a/1,", &[""]));
    assert!(has_badge("a/1,,b/1", &[""]));
    assert!(has_badge("/1", &[""]));
    assert!(!has_badge("a/1,b", &[""]));
}

#[test]
fn badges_are_what_the_string_functions_of_std_give() {
    let lists = [
        "", ",", "/", "a", "a/1", "a/1,b/2", "a,b", "a/,b/", "/a,/b", "a//1,b", ",a", "a,", "a/1,,b/2",
        "moderator/1", "subscriber/0,bits/100", "broadcaster/1,subscriber/3000", "é/1,moderator/1",
        "moder,ator/1", "mod/erator", "moderator/1,moderator/2",
    ];
    let names: [&[&str]; 5] =
        [&[], &[""], &["moderator", "broadcaster"], &["subscriber", "moderator", "broadcaster"], &["a", "b", "é"]];
    for badges in lists {
        for wanted in names {
            assert_eq!(has_badge(badges, wanted), wears_with_std(badges, wanted), "{:?} {:?}", badges, wanted);
        }
    }
}

#[test]
fn audiences() {
    for badges in ["", "vip/1", "premium/1,bits/100"] {
        assert!(may_use(Audience::Everyone, badges));
        assert!(!may_use(Audience::Subscribers, badges));
        assert!(!may_use(Audience::Moderators, badges));
    }
    assert!(may_use(Audience::Subscribers, "subscriber/6"));
    assert!(!may_use(Audience::Moderators, "subscriber/6"));
    for badges in ["moderator/1", "broadcaster/1,subscriber/12", "vip/1,moderator/1"] {
        assert!(may_use(Audience::Everyone, badges));
        assert!(may_use(Audience::Subscribers, badges));
        assert!(may_use(Audience::Moderators, badges));
    }
}

#[test]
fn a_snapshot_is_tried_five_times_ten_milliseconds_apart() {
    assert_eq!(retry_after(1), Some(10));
    assert_eq!(retry_after(4), Some(10));
    assert_eq!(retry_after(5), None);
    assert_eq!(retry_after(6), None);
    assert_eq!(retry_after(u32::MAX), None);
    // the attempts until the bot gives up
    let mut failures = 0;
    let mut waits = 0;
    loop {
        failures += 1;
        match retry_after(failures) {
            Some(_) => waits += 1,
            None => break,
        }
    }
    assert_eq!((failures, waits), (5, 4));
}
