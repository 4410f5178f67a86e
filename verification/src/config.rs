//! The bot's configuration: the account it speaks from and the channel it
//! joins, as the configuration file states them.

use crate::text::{
    chars_of, find_char, lemma_position_bounds, position, push_char, string_of, trim, trimmed,
};
use vstd::prelude::*;
use vstd::string::StringExecFns;

verus! {

/// The account and the channel of the bot.
#[derive(Debug)]
pub struct TwitchConfig {
    pub username: String,
    pub oauth_token: String,
    pub channel: String,
}

/// The value of a [`TwitchConfig`].
pub struct ConfigView {
    pub username: Seq<char>,
    pub oauth_token: Seq<char>,
    pub channel: Seq<char>,
}

impl View for TwitchConfig {
    type V = ConfigView;

    open spec fn view(&self) -> ConfigView {
        ConfigView {
            username: self.username@,
            oauth_token: self.oauth_token@,
            channel: self.channel@,
        }
    }
}

/// What a line of the configuration sets.
#[derive(Debug, Clone, Copy, PartialEq, Eq, Structural)]
pub enum ConfigKey {
    Username,
    OauthToken,
    Channel,
}

/// The text in upper case, as `str::to_uppercase` of std gives it.
pub uninterp spec fn uppercase_of(text: Seq<char>) -> Seq<char>;

/// `str::to_uppercase` of std: the text with each character replaced by its
/// upper-case form, which depends on the text alone.
#[verifier::external_body]
fn to_uppercase(text: &str) -> (r: String)
    ensures
        r@ == uppercase_of(text@),
{
    text.to_uppercase()
}

/// The key that a name, put in upper case, stands for.
pub open spec fn key_named(upper: Seq<char>) -> Option<ConfigKey> {
    if upper == "USERNAME"@ {
        Some(ConfigKey::Username)
    } else if upper == "OAUTH_TOKEN"@ {
        Some(ConfigKey::OauthToken)
    } else if upper == "CHANNEL"@ {
        Some(ConfigKey::Channel)
    } else {
        None
    }
}

/// Finds the key that a name, put in upper case, stands for.
pub fn key_of(upper: &String) -> (r: Option<ConfigKey>)
    ensures
        r == key_named(upper@),
{
    if *upper == "USERNAME".to_owned() {
        Some(ConfigKey::Username)
    } else if *upper == "OAUTH_TOKEN".to_owned() {
        Some(ConfigKey::OauthToken)
    } else if *upper == "CHANNEL".to_owned() {
        Some(ConfigKey::Channel)
    } else {
        None
    }
}

/// The channel name with the `#` that a channel begins with.
pub open spec fn channel_name(value: Seq<char>) -> Seq<char> {
    if value.len() > 0 && value[0] == '#' {
        value
    } else {
        seq!['#'] + value
    }
}

/// The configuration after the line of `text` between `from` and `end`, or
/// the complaint about the line.
///
/// A line of white space changes nothing. Any other line is a key, `=`, and
/// a value, each taken without the white space round it; the value must not be
/// empty, and the key, in either case, must be one of the three.
pub open spec fn applied(text: Seq<char>, from: int, end: int, config: ConfigView) -> Result<
    ConfigView,
    Seq<char>,
> {
    let eq = position(text, '=', from, end);
    let key = trimmed(text.subrange(from, eq));
    let value = trimmed(text.subrange(eq + 1, end));
    if trimmed(text.subrange(from, end)).len() == 0 {
        Ok(config)
    } else if eq == end {
        Err("Invalid formatting in setup.cfg"@)
    } else if value.len() == 0 {
        Err(key + " is missing a value"@)
    } else {
        match key_named(uppercase_of(key)) {
            Some(ConfigKey::Username) => Ok(ConfigView { username: value, ..config }),
            Some(ConfigKey::OauthToken) => Ok(ConfigView { oauth_token: value, ..config }),
            Some(ConfigKey::Channel) => Ok(ConfigView { channel: channel_name(value), ..config }),
            None => Err("Invalid config key '"@ + key + "'"@),
        }
    }
}

/// The configuration after the lines of `text` from `from` on, or the
/// complaint about the first line that is not in order.
pub open spec fn parsed_from(text: Seq<char>, from: int, config: ConfigView) -> Result<
    ConfigView,
    Seq<char>,
>
    decreases text.len() - from,
    via parsed_from_ends
{
    let end = position(text, '\n', from, text.len() as int);
    if from < 0 || from > text.len() {
        Ok(config)
    } else {
        match applied(text, from, end, config) {
            Err(complaint) => Err(complaint),
            Ok(next) => if end < text.len() {
                parsed_from(text, end + 1, next)
            } else {
                Ok(next)
            },
        }
    }
}

#[via_fn]
proof fn parsed_from_ends(text: Seq<char>, from: int, config: ConfigView) {
    if 0 <= from <= text.len() {
        lemma_position_bounds(text, '\n', from, text.len() as int);
    }
}

/// The configuration that a text states, line by line; a later line
/// overrides an earlier one.
pub open spec fn parsed(text: Seq<char>) -> Result<ConfigView, Seq<char>> {
    parsed_from(
        text,
        0,
        ConfigView { username: Seq::empty(), oauth_token: Seq::empty(), channel: Seq::empty() },
    )
}

impl TwitchConfig {
    /// Takes in one line of a configuration: the characters between `from`
    /// and `end`.
    fn apply(&mut self, chars: &[char], from: usize, end: usize) -> (r: Result<(), String>)
        requires
            from <= end <= chars@.len(),
        ensures
            match applied(chars@, from as int, end as int, old(self)@) {
                Ok(next) => r is Ok && final(self)@ == next,
                Err(complaint) => r matches Err(e) && e@ == complaint,
            },
    {
        let (start, stop) = trim(chars, from, end);
        if start == stop {
            return Ok(());
        }
        let eq = find_char(chars, '=', from, end);
        if eq == end {
            return Err("Invalid formatting in setup.cfg".to_owned());
        }
        let (key_from, key_to) = trim(chars, from, eq);
        let (value_from, value_to) = trim(chars, eq + 1, end);
        let mut key = string_of(chars, key_from, key_to);
        if value_from == value_to {
            key.append(" is missing a value");
            return Err(key);
        }
        let value = string_of(chars, value_from, value_to);
        let upper = to_uppercase(key.as_str());
        match key_of(&upper) {
            Some(ConfigKey::Username) => {
                self.username = value;
            },
            Some(ConfigKey::OauthToken) => {
                self.oauth_token = value;
            },
            Some(ConfigKey::Channel) => {
                if chars[value_from] == '#' {
                    self.channel = value;
                } else {
                    let mut channel = String::new();
                    push_char(&mut channel, '#');
                    channel.append(value.as_str());
                    assert(channel@ =~= seq!['#'] + value@);
                    self.channel = channel;
                }
            },
            None => {
                let mut complaint = "Invalid config key '".to_owned();
                complaint.append(key.as_str());
                complaint.append("'");
                return Err(complaint);
            },
        }
        Ok(())
    }

    /// Makes a configuration of the text of a configuration file.
    pub fn new(contents: &str) -> (r: Result<TwitchConfig, String>)
        ensures
            match parsed(contents@) {
                Ok(config) => r matches Ok(c) && c@ == config,
                Err(complaint) => r matches Err(e) && e@ == complaint,
            },
    {
        let chars = chars_of(contents);
        let mut config = TwitchConfig {
            username: String::new(),
            oauth_token: String::new(),
            channel: String::new(),
        };
        let mut from: usize = 0;
        loop
            invariant
                chars@ == contents@,
                from <= chars@.len(),
                parsed(contents@) == parsed_from(chars@, from as int, config@),
            decreases chars@.len() - from,
        {
            let end = find_char(chars.as_slice(), '\n', from, chars.len());
            match config.apply(chars.as_slice(), from, end) {
                Ok(()) => {},
                Err(complaint) => {
                    return Err(complaint);
                },
            }
            if end == chars.len() {
                return Ok(config);
            }
            from = end + 1;
        }
    }
}

} // verus!
