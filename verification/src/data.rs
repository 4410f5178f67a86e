//! The snapshot of the client's state and the records it is made of.

use vstd::prelude::*;

verus! {

/// What the client's settings hold.
#[derive(Debug)]
pub struct SettingsMemoryData {
    pub songs_folder: String,
    pub skin_folder: String,
    pub show_interface: i8,
}

/// The value of a [`SettingsMemoryData`].
pub struct SettingsView {
    pub songs_folder: Seq<char>,
    pub skin_folder: Seq<char>,
    pub show_interface: i8,
}

impl View for SettingsMemoryData {
    type V = SettingsView;

    open spec fn view(&self) -> SettingsView {
        SettingsView {
            songs_folder: self.songs_folder@,
            skin_folder: self.skin_folder@,
            show_interface: self.show_interface,
        }
    }
}

/// The overlay of a tournament client.
#[derive(Debug)]
pub struct TournamentMemoryData {
    pub ipc_state: i32,
    pub left_stars: i32,
    pub right_stars: i32,
    pub bo: i32,
    pub stars_visible: i8,
    pub score_visible: i8,
    pub team_one_name: String,
    pub team_two_name: String,
    pub team_one_score: i32,
    pub team_two_score: i32,
    pub ipc_base_addr: u32,
}

/// The value of a [`TournamentMemoryData`].
pub struct TournamentView {
    pub ipc_state: i32,
    pub left_stars: i32,
    pub right_stars: i32,
    pub bo: i32,
    pub stars_visible: i8,
    pub score_visible: i8,
    pub team_one_name: Seq<char>,
    pub team_two_name: Seq<char>,
    pub team_one_score: i32,
    pub team_two_score: i32,
    pub ipc_base_addr: u32,
}

impl TournamentView {
    /// The overlay of a tournament that is absent: every field has the
    /// default of its type.
    pub open spec fn absent() -> TournamentView {
        TournamentView {
            ipc_state: 0,
            left_stars: 0,
            right_stars: 0,
            bo: 0,
            stars_visible: 0,
            score_visible: 0,
            team_one_name: Seq::empty(),
            team_two_name: Seq::empty(),
            team_one_score: 0,
            team_two_score: 0,
            ipc_base_addr: 0,
        }
    }
}

impl View for TournamentMemoryData {
    type V = TournamentView;

    open spec fn view(&self) -> TournamentView {
        TournamentView {
            ipc_state: self.ipc_state,
            left_stars: self.left_stars,
            right_stars: self.right_stars,
            bo: self.bo,
            stars_visible: self.stars_visible,
            score_visible: self.score_visible,
            team_one_name: self.team_one_name@,
            team_two_name: self.team_two_name@,
            team_one_score: self.team_one_score,
            team_two_score: self.team_two_score,
            ipc_base_addr: self.ipc_base_addr,
        }
    }
}

/// The statistics of a score, live or completed.
#[derive(Debug)]
pub struct ResultsMemoryData {
    pub player_name: String,
    pub mods: u32,
    pub mode: i32,
    pub max_combo: i16,
    pub score: i32,
    pub hit100: i16,
    pub hit300: i16,
    pub hit50: i16,
    pub hit_geki: i16,
    pub hit_katu: i16,
    pub misses: i16,
    /// The accuracy, as the bit pattern of a double-precision number.
    pub accuracy_bits: u64,
}

/// The value of a [`ResultsMemoryData`].
pub struct ResultsView {
    pub player_name: Seq<char>,
    pub mods: u32,
    pub mode: i32,
    pub max_combo: i16,
    pub score: i32,
    pub hit100: i16,
    pub hit300: i16,
    pub hit50: i16,
    pub hit_geki: i16,
    pub hit_katu: i16,
    pub misses: i16,
    pub accuracy_bits: u64,
}

impl ResultsView {
    /// The statistics of a score that is absent: every field has the default
    /// of its type.
    pub open spec fn absent() -> ResultsView {
        ResultsView {
            player_name: Seq::empty(),
            mods: 0,
            mode: 0,
            max_combo: 0,
            score: 0,
            hit100: 0,
            hit300: 0,
            hit50: 0,
            hit_geki: 0,
            hit_katu: 0,
            misses: 0,
            accuracy_bits: 0,
        }
    }
}

impl View for ResultsMemoryData {
    type V = ResultsView;

    open spec fn view(&self) -> ResultsView {
        ResultsView {
            player_name: self.player_name@,
            mods: self.mods,
            mode: self.mode,
            max_combo: self.max_combo,
            score: self.score,
            hit100: self.hit100,
            hit300: self.hit300,
            hit50: self.hit50,
            hit_geki: self.hit_geki,
            hit_katu: self.hit_katu,
            misses: self.misses,
            accuracy_bits: self.accuracy_bits,
        }
    }
}

/// The song-select state and the beatmap chosen there.
#[derive(Debug)]
pub struct MenuMemoryData {
    pub game_mode: i32,
    pub plays: i32,
    pub artist: String,
    pub artist_original: String,
    pub title: String,
    pub title_original: String,
    /// Approach rate, as the bit pattern of a single-precision number.
    pub ar_bits: u32,
    /// Circle size, as the bit pattern of a single-precision number.
    pub cs_bits: u32,
    /// Health drain, as the bit pattern of a single-precision number.
    pub hp_bits: u32,
    /// Overall difficulty, as the bit pattern of a single-precision number.
    pub od_bits: u32,
    pub audio_file: String,
    pub bg_file: String,
    pub folder: String,
    pub creator: String,
    pub name: String,
    pub path: String,
    pub difficulty: String,
    pub beatmap_id: i32,
    pub beatmapset_id: i32,
    pub ranked_status: i32,
    pub md5: String,
    pub object_count: i32,
    pub mods: u32,
}

/// The value of a [`MenuMemoryData`].
pub struct MenuView {
    pub game_mode: i32,
    pub plays: i32,
    pub artist: Seq<char>,
    pub artist_original: Seq<char>,
    pub title: Seq<char>,
    pub title_original: Seq<char>,
    pub ar_bits: u32,
    pub cs_bits: u32,
    pub hp_bits: u32,
    pub od_bits: u32,
    pub audio_file: Seq<char>,
    pub bg_file: Seq<char>,
    pub folder: Seq<char>,
    pub creator: Seq<char>,
    pub name: Seq<char>,
    pub path: Seq<char>,
    pub difficulty: Seq<char>,
    pub beatmap_id: i32,
    pub beatmapset_id: i32,
    pub ranked_status: i32,
    pub md5: Seq<char>,
    pub object_count: i32,
    pub mods: u32,
}

impl View for MenuMemoryData {
    type V = MenuView;

    open spec fn view(&self) -> MenuView {
        MenuView {
            game_mode: self.game_mode,
            plays: self.plays,
            artist: self.artist@,
            artist_original: self.artist_original@,
            title: self.title@,
            title_original: self.title_original@,
            ar_bits: self.ar_bits,
            cs_bits: self.cs_bits,
            hp_bits: self.hp_bits,
            od_bits: self.od_bits,
            audio_file: self.audio_file@,
            bg_file: self.bg_file@,
            folder: self.folder@,
            creator: self.creator@,
            name: self.name@,
            path: self.path@,
            difficulty: self.difficulty@,
            beatmap_id: self.beatmap_id,
            beatmapset_id: self.beatmapset_id,
            ranked_status: self.ranked_status,
            md5: self.md5@,
            object_count: self.object_count,
            mods: self.mods,
        }
    }
}

/// The name of a ranked status as the client's web pages write it.
pub open spec fn status_text(ranked_status: i32) -> Seq<char> {
    if ranked_status == 0 {
        "..."@
    } else if ranked_status == 1 {
        "unsubmitted"@
    } else if ranked_status == 2 {
        "unranked"@
    } else if ranked_status == 4 {
        "ranked"@
    } else if ranked_status == 5 {
        "approved"@
    } else if ranked_status == 6 {
        "qualified"@
    } else if ranked_status == 7 {
        "loved"@
    } else {
        ""@
    }
}

impl MenuMemoryData {
    /// The name of the beatmap's ranked status; empty for a status without one.
    pub fn status_name(&self) -> (r: &'static str)
        ensures
            r@ == status_text(self.ranked_status),
    {
        match self.ranked_status {
            0 => "...",
            1 => "unsubmitted",
            2 => "unranked",
            4 => "ranked",
            5 => "approved",
            6 => "qualified",
            7 => "loved",
            _ => "",
        }
    }
}

/// The state of a play in progress.
#[derive(Debug)]
pub struct GameplayMemoryData {
    pub stats: ResultsMemoryData,
    pub retries: i32,
    pub hit_errors: Vec<i32>,
    pub combo: i16,
    /// The displayed health, as the bit pattern of a double-precision number.
    pub hp_smooth_bits: u64,
    /// The health, as the bit pattern of a double-precision number.
    pub hp_bits: u64,
}

/// The value of a [`GameplayMemoryData`].
pub struct GameplayView {
    pub stats: ResultsView,
    pub retries: i32,
    pub hit_errors: Seq<i32>,
    pub combo: i16,
    pub hp_smooth_bits: u64,
    pub hp_bits: u64,
}

impl View for GameplayMemoryData {
    type V = GameplayView;

    open spec fn view(&self) -> GameplayView {
        GameplayView {
            stats: self.stats@,
            retries: self.retries,
            hit_errors: self.hit_errors@,
            combo: self.combo,
            hp_smooth_bits: self.hp_smooth_bits,
            hp_bits: self.hp_bits,
        }
    }
}

/// One point-in-time sample of the client's state.
#[derive(Debug)]
pub struct MemoryData {
    pub status: u32,
    pub chat_status: i8,
    pub play_time: i32,
    pub settings: SettingsMemoryData,
    pub tournament: Option<TournamentMemoryData>,
    pub results: Option<ResultsMemoryData>,
    pub menu: MenuMemoryData,
    pub gameplay: Option<GameplayMemoryData>,
}

/// The value of a [`MemoryData`].
pub struct MemoryDataView {
    pub status: u32,
    pub chat_status: i8,
    pub play_time: i32,
    pub settings: SettingsView,
    pub tournament: Option<TournamentView>,
    pub results: Option<ResultsView>,
    pub menu: MenuView,
    pub gameplay: Option<GameplayView>,
}

impl View for MemoryData {
    type V = MemoryDataView;

    open spec fn view(&self) -> MemoryDataView {
        MemoryDataView {
            status: self.status,
            chat_status: self.chat_status,
            play_time: self.play_time,
            settings: self.settings@,
            tournament: match self.tournament {
                Some(t) => Some(t@),
                None => None,
            },
            results: match self.results {
                Some(r) => Some(r@),
                None => None,
            },
            menu: self.menu@,
            gameplay: match self.gameplay {
                Some(g) => Some(g@),
                None => None,
            },
        }
    }
}

impl MemoryDataView {
    /// The mods in effect: those of the results where there are results, else
    /// those of the play in progress where there is one, else those chosen in
    /// the menu.
    pub open spec fn current_mods(self) -> u32 {
        match self.results {
            Some(results) => results.mods,
            None => match self.gameplay {
                Some(gameplay) => gameplay.stats.mods,
                None => self.menu.mods,
            },
        }
    }
}

impl MemoryData {
    /// The mods in effect, taken from the most specific context the snapshot
    /// holds.
    pub fn current_mods(&self) -> (r: u32)
        ensures
            r == self@.current_mods(),
    {
        if let Some(ref results) = self.results {
            results.mods
        } else if let Some(ref gameplay) = self.gameplay {
            gameplay.stats.mods
        } else {
            self.menu.mods
        }
    }
}

/// The addresses that the signatures lead to; 0 stands for one not located.
#[derive(Debug, Clone, Copy, PartialEq, Eq, Structural)]
pub struct AddressInfo {
    pub status: usize,
    pub settings_class: usize,
    pub base: usize,
    pub menu_mods: usize,
    pub play_time: usize,
    pub chat_checker: usize,
    pub skin_data: usize,
    pub rulesets: usize,
    pub chat_area: usize,
    pub user_info: usize,
}

impl AddressInfo {
    /// The table with no address located.
    pub open spec fn unresolved() -> AddressInfo {
        AddressInfo {
            status: 0,
            settings_class: 0,
            base: 0,
            menu_mods: 0,
            play_time: 0,
            chat_checker: 0,
            skin_data: 0,
            rulesets: 0,
            chat_area: 0,
            user_info: 0,
        }
    }
}

impl Default for AddressInfo {
    fn default() -> (r: AddressInfo)
        ensures
            r == AddressInfo::unresolved(),
    {
        AddressInfo {
            status: 0,
            settings_class: 0,
            base: 0,
            menu_mods: 0,
            play_time: 0,
            chat_checker: 0,
            skin_data: 0,
            rulesets: 0,
            chat_area: 0,
            user_info: 0,
        }
    }
}

} // verus!
