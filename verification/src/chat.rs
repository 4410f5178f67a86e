//! The rules of the chat: what is asked for, who may ask, and how often.

use crate::text::{
    chars_of, find_char, lemma_position_bounds, position, string_of, trim, trimmed,
};
use vstd::prelude::*;

verus! {

/// What a chat message asks the bot for.
#[derive(Debug, Clone, Copy, PartialEq, Eq, Structural)]
pub enum Request {
    /// `!np`: the beatmap being played.
    NowPlaying,
    /// `!pp`: the performance points of the beatmap or of the score shown.
    Performance,
    /// `!ppnow`: the performance points of the play in progress.
    PerformanceNow,
}

/// Who may make a request.
#[derive(Debug, Clone, Copy, PartialEq, Eq, Structural)]
pub enum Audience {
    Everyone,
    Subscribers,
    Moderators,
}

impl Request {
    /// The place of the request among the three, which is also the place of
    /// its cooldown.
    pub fn slot(self) -> (r: usize)
        ensures
            r == match self {
                Request::NowPlaying => 0usize,
                Request::Performance => 1usize,
                Request::PerformanceNow => 2usize,
            },
    {
        match self {
            Request::NowPlaying => 0,
            Request::Performance => 1,
            Request::PerformanceNow => 2,
        }
    }

    /// The seconds that must pass between two answers to the request.
    pub fn cooldown(self) -> (r: u64)
        ensures
            r == match self {
                Request::NowPlaying => 5u64,
                Request::Performance => 3u64,
                Request::PerformanceNow => 1u64,
            },
    {
        match self {
            Request::NowPlaying => 5,
            Request::Performance => 3,
            Request::PerformanceNow => 1,
        }
    }

    /// Who may make the request.
    pub fn audience(self) -> (r: Audience)
        ensures
            r == match self {
                Request::NowPlaying => Audience::Everyone,
                Request::Performance => Audience::Subscribers,
                Request::PerformanceNow => Audience::Moderators,
            },
    {
        match self {
            Request::NowPlaying => Audience::Everyone,
            Request::Performance => Audience::Subscribers,
            Request::PerformanceNow => Audience::Moderators,
        }
    }
}

/// The nanoseconds in a second.
pub const NANOS_PER_SECOND: u128 = 1_000_000_000;

/// The nanoseconds that every request counts as answered before the bot
/// began: five seconds.
pub const HEAD_START: u128 = 5_000_000_000;

/// The time between two readings of the clock, in nanoseconds; none where
/// the second reading is the earlier one.
pub open spec fn elapsed(last: u128, now: u128) -> int {
    if now >= last {
        now - last
    } else {
        0
    }
}

/// When each of the three requests was last answered, in nanoseconds on a
/// clock that never runs backward.
#[derive(Debug)]
pub struct Cooldowns(pub [u128; 3]);

impl Cooldowns {
    /// The cooldowns at the start: every request counts as answered five
    /// seconds ago.
    pub fn new(now: u128) -> (r: Self)
        requires
            now >= HEAD_START,
        ensures
            r.0@ == seq![(now - HEAD_START) as u128, (now - HEAD_START) as u128, (now - HEAD_START) as u128],
    {
        let start = now - HEAD_START;
        let r = Cooldowns([start, start, start]);
        assert(r.0@ =~= seq![start, start, start]);
        r
    }

    /// Whether the request with the slot `i` may be answered again: at least
    /// `cooldown` seconds have passed since it was last answered.
    pub fn can_use(&self, i: usize, cooldown: u64, now: u128) -> (r: bool)
        requires
            i < 3,
        ensures
            r == (elapsed(self.0@[i as int], now) >= cooldown * NANOS_PER_SECOND),
    {
        let last = self.0[i];
        let passed = if now >= last {
            now - last
        } else {
            0
        };
        passed >= cooldown as u128 * NANOS_PER_SECOND
    }

    /// Notes that the request with the slot `i` was answered now.
    pub fn reset(&mut self, i: usize, now: u128)
        requires
            i < 3,
        ensures
            final(self).0@ == old(self).0@.update(i as int, now),
    {
        self.0[i] = now;
    }
}

/// How often a snapshot is tried before the bot gives up.
pub const SNAPSHOT_ATTEMPTS: u32 = 5;

/// The milliseconds to wait before a snapshot is tried again.
pub const SNAPSHOT_DELAY: u64 = 10;

/// What to do once `failures` attempts at a snapshot have failed in a row:
/// wait for the milliseconds returned and try again, or give up where `None`
/// is returned.
pub fn retry_after(failures: u32) -> (r: Option<u64>)
    ensures
        r == if failures < SNAPSHOT_ATTEMPTS {
            Some(SNAPSHOT_DELAY)
        } else {
            None
        },
{
    if failures < SNAPSHOT_ATTEMPTS {
        Some(SNAPSHOT_DELAY)
    } else {
        None
    }
}

/// The command word of a message: what stands before the first space, or,
/// in a message without a space, the message without the white space round
/// it.
pub open spec fn command_word(text: Seq<char>) -> Seq<char> {
    let space = position(text, ' ', 0, text.len() as int);
    if space < text.len() {
        text.take(space)
    } else {
        trimmed(text)
    }
}

/// The request that a message makes: the one that its command word names,
/// provided that the message begins with `!`.
pub open spec fn requested(text: Seq<char>) -> Option<Request> {
    if text.len() == 0 || text[0] != '!' {
        None
    } else if command_word(text) == "!np"@ {
        Some(Request::NowPlaying)
    } else if command_word(text) == "!pp"@ {
        Some(Request::Performance)
    } else if command_word(text) == "!ppnow"@ {
        Some(Request::PerformanceNow)
    } else {
        None
    }
}

/// Reads the request that a chat message makes, if it makes one.
pub fn request_of(text: &str) -> (r: Option<Request>)
    ensures
        r == requested(text@),
{
    let chars = chars_of(text);
    if chars.len() == 0 || chars[0] != '!' {
        return None;
    }
    let space = find_char(chars.as_slice(), ' ', 0, chars.len());
    let word = if space < chars.len() {
        assert(chars@.subrange(0, space as int) =~= chars@.take(space as int));
        string_of(chars.as_slice(), 0, space)
    } else {
        let (from, to) = trim(chars.as_slice(), 0, chars.len());
        assert(chars@.subrange(0, chars@.len() as int) =~= chars@);
        string_of(chars.as_slice(), from, to)
    };
    if word == "!np".to_owned() {
        Some(Request::NowPlaying)
    } else if word == "!pp".to_owned() {
        Some(Request::Performance)
    } else if word == "!ppnow".to_owned() {
        Some(Request::PerformanceNow)
    } else {
        None
    }
}

/// Where the badge that begins at `from` ends: at the next `,` or at the end
/// of the list.
pub open spec fn badge_end(badges: Seq<char>, from: int) -> int {
    position(badges, ',', from, badges.len() as int)
}

/// The name of the badge that lies between `from` and `end`: what stands
/// before its first `/`, or all of it where it holds none.
pub open spec fn badge_name(badges: Seq<char>, from: int, end: int) -> Seq<char> {
    badges.subrange(from, position(badges, '/', from, end))
}

/// Whether one of the badges from `from` on has one of the names. The list
/// holds one badge after another with a `,` in between.
pub open spec fn wears(badges: Seq<char>, from: int, names: Seq<Seq<char>>) -> bool
    decreases badges.len() - from,
    via wears_ends
{
    let end = badge_end(badges, from);
    if from < 0 || from > badges.len() {
        false
    } else {
        names.contains(badge_name(badges, from, end)) || (end < badges.len() && wears(
            badges,
            end + 1,
            names,
        ))
    }
}

#[via_fn]
proof fn wears_ends(badges: Seq<char>, from: int, names: Seq<Seq<char>>) {
    if 0 <= from <= badges.len() {
        lemma_position_bounds(badges, ',', from, badges.len() as int);
    }
}

/// The texts of a list of names.
pub open spec fn texts(names: Seq<&str>) -> Seq<Seq<char>> {
    Seq::new(names.len(), |i: int| names[i]@)
}

/// Whether one of the names is `name`.
fn is_named(name: &String, names: &[&str]) -> (r: bool)
    ensures
        r == texts(names@).contains(name@),
{
    let mut i: usize = 0;
    while i < names.len()
        invariant
            i <= names@.len(),
            forall|j: int| 0 <= j < i ==> texts(names@)[j] != name@,
        decreases names@.len() - i,
    {
        if *name == names[i].to_owned() {
            assert(texts(names@)[i as int] == name@);
            return true;
        }
        i += 1;
    }
    false
}

/// Whether a list of badges, as a chat message carries it, holds a badge
/// with one of the names.
pub fn has_badge(badges: &str, names: &[&str]) -> (r: bool)
    ensures
        r == wears(badges@, 0, texts(names@)),
{
    let chars = chars_of(badges);
    let mut from: usize = 0;
    loop
        invariant
            chars@ == badges@,
            from <= chars@.len(),
            wears(badges@, 0, texts(names@)) == wears(chars@, from as int, texts(names@)),
        decreases chars@.len() - from,
    {
        let end = find_char(chars.as_slice(), ',', from, chars.len());
        let name_end = find_char(chars.as_slice(), '/', from, end);
        let name = string_of(chars.as_slice(), from, name_end);
        if is_named(&name, names) {
            return true;
        }
        if end == chars.len() {
            return false;
        }
        from = end + 1;
    }
}

/// Whether someone with these badges belongs to the audience.
pub fn may_use(audience: Audience, badges: &str) -> (r: bool)
    ensures
        r == match audience {
            Audience::Everyone => true,
            Audience::Subscribers => wears(
                badges@,
                0,
                seq!["subscriber"@, "moderator"@, "broadcaster"@],
            ),
            Audience::Moderators => wears(badges@, 0, seq!["moderator"@, "broadcaster"@]),
        },
{
    match audience {
        Audience::Everyone => true,
        Audience::Subscribers => {
            let names = ["subscriber", "moderator", "broadcaster"];
            assert(texts(names@) =~= seq!["subscriber"@, "moderator"@, "broadcaster"@]);
            has_badge(badges, &names)
        },
        Audience::Moderators => {
            let names = ["moderator", "broadcaster"];
            assert(texts(names@) =~= seq!["moderator"@, "broadcaster"@]);
            has_badge(badges, &names)
        },
    }
}

} // verus!
