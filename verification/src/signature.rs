//! The signatures that lead to the client's state, by name.

use crate::data::AddressInfo;
use crate::pattern::PatternValue;
use crate::pattern::PatternValue::{A, V};
use vstd::prelude::*;

verus! {

/// The name of a signature.
#[derive(Debug, Clone, Copy, PartialEq, Eq, Structural)]
pub enum Signature {
    /// The code that tests the status.
    Status,
    /// The code that reads the settings.
    SettingsClass,
    /// The code that the menu state and the beatmap lie before.
    Base,
    /// The code that sets the mods chosen in the menu.
    MenuMods,
    /// The code that stores the play time.
    PlayTime,
    /// The data that the chat state lies before.
    ChatChecker,
    /// The code that loads the skin.
    SkinData,
    /// The code that loads the rulesets.
    Rulesets,
    /// The data of the chat area.
    ChatArea,
    /// The code that loads the user's profile; sought only while the status is
    /// not located or is that of a tournament client.
    UserInfo,
}

impl Signature {
    /// The pattern that goes by this name.
    pub open spec fn tokens(self) -> Seq<PatternValue> {
        match self {
            Signature::Status => seq![V(0x48), V(0x83), V(0xF8), V(0x04), V(0x73), V(0x1E)],
            Signature::SettingsClass => seq![
                V(0x83),
                V(0xE0),
                V(0x20),
                V(0x85),
                V(0xC0),
                V(0x7E),
                V(0x2F),
            ],
            Signature::Base => seq![V(0xF8), V(0x1), V(0x74), V(0x04), V(0x83), V(0x65)],
            Signature::MenuMods => seq![
                V(0xC8),
                V(0xFF),
                A(),
                A(),
                A(),
                A(),
                A(),
                V(0x81),
                V(0xD),
                A(),
                A(),
                A(),
                A(),
                V(0),
                V(0x8),
                V(0),
                V(0),
            ],
            Signature::PlayTime => seq![
                V(0x5E),
                V(0x5F),
                V(0x5D),
                V(0xC3),
                V(0xA1),
                A(),
                A(),
                A(),
                A(),
                V(0x89),
                A(),
                V(0x4),
            ],
            Signature::ChatChecker => seq![
                V(0xA),
                V(0xD7),
                V(0x23),
                V(0x3C),
                V(0),
                V(0),
                A(),
                V(0x1),
            ],
            Signature::SkinData => seq![V(0x75), V(0x21), V(0x8B), V(0x1D)],
            Signature::Rulesets => seq![
                V(0x7D),
                V(0x15),
                V(0xA1),
                A(),
                A(),
                A(),
                A(),
                V(0x85),
                V(0xC0),
            ],
            Signature::ChatArea => seq![
                V(0x33),
                V(0x47),
                V(0x9D),
                V(0xFF),
                V(0x5B),
                V(0x7F),
                V(0xFF),
                V(0xFF),
            ],
            Signature::UserInfo => seq![
                V(0x52),
                V(0x30),
                V(0x8B),
                V(0xC8),
                V(0xE8),
                A(),
                A(),
                A(),
                A(),
                V(0x8B),
                V(0xC8),
                V(0x8D),
            ],
        }
    }

    /// The pattern that goes by this name.
    pub fn pattern(self) -> (r: Vec<PatternValue>)
        ensures
            r@ == self.tokens(),
    {
        match self {
            Signature::Status => vec![V(0x48), V(0x83), V(0xF8), V(0x04), V(0x73), V(0x1E)],
            Signature::SettingsClass => vec![
                V(0x83),
                V(0xE0),
                V(0x20),
                V(0x85),
                V(0xC0),
                V(0x7E),
                V(0x2F),
            ],
            Signature::Base => vec![V(0xF8), V(0x1), V(0x74), V(0x04), V(0x83), V(0x65)],
            Signature::MenuMods => vec![
                V(0xC8),
                V(0xFF),
                A(),
                A(),
                A(),
                A(),
                A(),
                V(0x81),
                V(0xD),
                A(),
                A(),
                A(),
                A(),
                V(0),
                V(0x8),
                V(0),
                V(0),
            ],
            Signature::PlayTime => vec![
                V(0x5E),
                V(0x5F),
                V(0x5D),
                V(0xC3),
                V(0xA1),
                A(),
                A(),
                A(),
                A(),
                V(0x89),
                A(),
                V(0x4),
            ],
            Signature::ChatChecker => vec![
                V(0xA),
                V(0xD7),
                V(0x23),
                V(0x3C),
                V(0),
                V(0),
                A(),
                V(0x1),
            ],
            Signature::SkinData => vec![V(0x75), V(0x21), V(0x8B), V(0x1D)],
            Signature::Rulesets => vec![
                V(0x7D),
                V(0x15),
                V(0xA1),
                A(),
                A(),
                A(),
                A(),
                V(0x85),
                V(0xC0),
            ],
            Signature::ChatArea => vec![
                V(0x33),
                V(0x47),
                V(0x9D),
                V(0xFF),
                V(0x5B),
                V(0x7F),
                V(0xFF),
                V(0xFF),
            ],
            Signature::UserInfo => vec![
                V(0x52),
                V(0x30),
                V(0x8B),
                V(0xC8),
                V(0xE8),
                A(),
                A(),
                A(),
                A(),
                V(0x8B),
                V(0xC8),
                V(0x8D),
            ],
        }
    }
}

impl AddressInfo {
    /// The address kept under the name of a signature.
    pub open spec fn of(self, signature: Signature) -> usize {
        match signature {
            Signature::Status => self.status,
            Signature::SettingsClass => self.settings_class,
            Signature::Base => self.base,
            Signature::MenuMods => self.menu_mods,
            Signature::PlayTime => self.play_time,
            Signature::ChatChecker => self.chat_checker,
            Signature::SkinData => self.skin_data,
            Signature::Rulesets => self.rulesets,
            Signature::ChatArea => self.chat_area,
            Signature::UserInfo => self.user_info,
        }
    }

    /// The address kept under the name of a signature.
    pub fn get(&self, signature: Signature) -> (r: usize)
        ensures
            r == self.of(signature),
    {
        match signature {
            Signature::Status => self.status,
            Signature::SettingsClass => self.settings_class,
            Signature::Base => self.base,
            Signature::MenuMods => self.menu_mods,
            Signature::PlayTime => self.play_time,
            Signature::ChatChecker => self.chat_checker,
            Signature::SkinData => self.skin_data,
            Signature::Rulesets => self.rulesets,
            Signature::ChatArea => self.chat_area,
            Signature::UserInfo => self.user_info,
        }
    }
}

} // verus!
