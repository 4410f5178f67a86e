//! Taking a snapshot: the reads that fill each record.

use crate::client::{field, field_back, MemoryClient};
use crate::data::{
    GameplayMemoryData, MemoryData, MenuMemoryData, ResultsMemoryData, SettingsMemoryData,
    TournamentMemoryData,
};
use crate::layout::{
    combined_mods, gameplay_of, menu_of, results_of, settings_of, snapshot_of, stats_of,
    tournament_of, yields, BEATMAP, BEATMAP_ARTIST, BEATMAP_ARTIST_ORIGINAL, BEATMAP_AUDIO_FILE,
    BEATMAP_BG_FILE, BEATMAP_CREATOR, BEATMAP_DIFFICULTY, BEATMAP_FOLDER, BEATMAP_MD5,
    BEATMAP_NAME, BEATMAP_PATH, BEATMAP_SLOT, BEATMAP_TITLE, BEATMAP_TITLE_ORIGINAL, INTERFACE,
    MENU_BASE, MENU_MODS, PLAY, PLAY_ACCURACY, PLAY_HEALTH, PLAY_HIT_ERRORS, PLAY_SCORE,
    PLAY_TIME, RESULT_ACCURACY, RESULT_SCORE, RULESETS, SCORE_MODS, SCORE_PLAYER, SETTINGS,
    SKIN_FOLDER, SONGS_FOLDER, STATUS, STATUS_PLAYING, STATUS_RESULTS, STATUS_TOURNEY,
    TEAM_NAME, TOURNEY_IPC, TOURNEY_LEFT, TOURNEY_RIGHT,
};
use crate::read::{MemoryError, MemoryReader};
use vstd::prelude::*;

verus! {

/// Puts the two words that hold the mods of a score together.
pub fn combine_mods(a: u32, b: u32) -> (r: u32)
    ensures
        r == combined_mods(a, b),
{
    a ^ b
}

impl<R: MemoryReader> MemoryClient<R> {
    /// Reads the statistics of the score whose record lies at `score`, with the
    /// points at `points_addr` and the accuracy at `accuracy_addr`.
    pub fn read_stats(&self, score: usize, points_addr: usize, accuracy_addr: usize) -> (r: Result<ResultsMemoryData, MemoryError>)
        ensures
            yields(r, stats_of(&self.reader, score, points_addr, accuracy_addr)),
    {
        let mods = self.chain(score, &SCORE_MODS);
        Ok(
            ResultsMemoryData {
                player_name: self.reader.read_str(self.chain(score, &SCORE_PLAYER))?,
                mods: combine_mods(
                    self.reader.read_u32(field(mods, 0xC))?,
                    self.reader.read_u32(field(mods, 0x8))?,
                ),
                mode: self.reader.read_i32(field(score, 0x64))?,
                max_combo: self.reader.read_i16(field(score, 0x68))?,
                score: self.reader.read_i32(points_addr)?,
                hit100: self.reader.read_i16(field(score, 0x88))?,
                hit300: self.reader.read_i16(field(score, 0x8A))?,
                hit50: self.reader.read_i16(field(score, 0x8C))?,
                hit_geki: self.reader.read_i16(field(score, 0x8E))?,
                hit_katu: self.reader.read_i16(field(score, 0x90))?,
                misses: self.reader.read_i16(field(score, 0x92))?,
                accuracy_bits: self.reader.read_f64_bits(accuracy_addr)?,
            },
        )
    }

    /// Reads the completed score on the results screen.
    pub fn read_results(&self, ruleset: usize) -> (r: Result<ResultsMemoryData, MemoryError>)
        ensures
            yields(r, results_of(&self.reader, ruleset)),
    {
        let score = self.chain(ruleset, &RESULT_SCORE);
        let accuracy = field(self.chain(ruleset, &RESULT_ACCURACY), 0xC);
        self.read_stats(score, field(score, 0x78), accuracy)
    }

    /// Reads the play in progress.
    pub fn read_gameplay(&self, ruleset: usize, menu_base: usize) -> (r: Result<GameplayMemoryData, MemoryError>)
        ensures
            yields(r, gameplay_of(&self.reader, ruleset, menu_base)),
    {
        let play = self.chain(ruleset, &PLAY);
        let score = self.chain(play, &PLAY_SCORE);
        let health = self.chain(play, &PLAY_HEALTH);
        Ok(
            GameplayMemoryData {
                stats: self.read_stats(score, field(ruleset, 0x100), field(self.chain(ruleset, &PLAY_ACCURACY), 0xC))?,
                retries: self.reader.read_i32(field(menu_base, 0x8))?,
                hit_errors: self.reader.read_array::<i32>(self.chain(score, &PLAY_HIT_ERRORS))?,
                combo: self.reader.read_i16(field(score, 0x94))?,
                hp_smooth_bits: self.reader.read_f64_bits(field(health, 0x14))?,
                hp_bits: self.reader.read_f64_bits(field(health, 0x1C))?,
            },
        )
    }

    /// Reads the overlay of a tournament client.
    pub fn read_tournament(&self, ruleset: usize) -> (r: Result<TournamentMemoryData, MemoryError>)
        ensures
            yields(r, tournament_of(&self.reader, ruleset)),
    {
        let left = self.chain(ruleset, &TOURNEY_LEFT);
        let right = self.chain(ruleset, &TOURNEY_RIGHT);
        Ok(
            TournamentMemoryData {
                ipc_state: self.reader.read_i32(field(ruleset, 0x54))?,
                left_stars: self.reader.read_i32(field(left, 0x2C))?,
                right_stars: self.reader.read_i32(field(right, 0x2C))?,
                bo: self.reader.read_i32(field(right, 0x30))?,
                stars_visible: self.reader.read_i8(field(right, 0x38))?,
                score_visible: self.reader.read_i8(field(right, 0x39))?,
                team_one_name: self.reader.read_str(self.chain(left, &TEAM_NAME))?,
                team_two_name: self.reader.read_str(self.chain(right, &TEAM_NAME))?,
                team_one_score: self.reader.read_i32(field(left, 0x28))?,
                team_two_score: self.reader.read_i32(field(right, 0x28))?,
                ipc_base_addr: self.reader.read_u32(field(self.chain(ruleset, &TOURNEY_IPC), 0x4))?,
            },
        )
    }

    /// Reads the settings.
    pub fn read_settings(&self, settings: usize, skin_data: usize) -> (r: Result<SettingsMemoryData, MemoryError>)
        ensures
            yields(r, settings_of(&self.reader, settings, skin_data)),
    {
        Ok(
            SettingsMemoryData {
                songs_folder: self.reader.read_str(self.chain(settings, &SONGS_FOLDER))?,
                skin_folder: self.reader.read_str(self.chain(skin_data, &SKIN_FOLDER))?,
                show_interface: self.reader.read_i8(field(self.chain(settings, &INTERFACE), 0xC))?,
            },
        )
    }

    /// Reads the menu state and the beatmap chosen there.
    pub fn read_menu(&self, menu_base: usize, beatmap: usize, menu_mods: usize) -> (r: Result<MenuMemoryData, MemoryError>)
        ensures
            yields(r, menu_of(&self.reader, menu_base, beatmap, menu_mods)),
    {
        Ok(
            MenuMemoryData {
                game_mode: self.reader.read_i32(menu_base)?,
                plays: self.reader.read_i32(field(menu_base, 0xC))?,
                artist: self.reader.read_str(self.chain(beatmap, &BEATMAP_ARTIST))?,
                artist_original: self.reader.read_str(self.chain(beatmap, &BEATMAP_ARTIST_ORIGINAL))?,
                title: self.reader.read_str(self.chain(beatmap, &BEATMAP_TITLE))?,
                title_original: self.reader.read_str(self.chain(beatmap, &BEATMAP_TITLE_ORIGINAL))?,
                ar_bits: self.reader.read_f32_bits(field(beatmap, 0x2C))?,
                cs_bits: self.reader.read_f32_bits(field(beatmap, 0x30))?,
                hp_bits: self.reader.read_f32_bits(field(beatmap, 0x34))?,
                od_bits: self.reader.read_f32_bits(field(beatmap, 0x38))?,
                audio_file: self.reader.read_str(self.chain(beatmap, &BEATMAP_AUDIO_FILE))?,
                bg_file: self.reader.read_str(self.chain(beatmap, &BEATMAP_BG_FILE))?,
                folder: self.reader.read_str(self.chain(beatmap, &BEATMAP_FOLDER))?,
                creator: self.reader.read_str(self.chain(beatmap, &BEATMAP_CREATOR))?,
                name: self.reader.read_str(self.chain(beatmap, &BEATMAP_NAME))?,
                path: self.reader.read_str(self.chain(beatmap, &BEATMAP_PATH))?,
                difficulty: self.reader.read_str(self.chain(beatmap, &BEATMAP_DIFFICULTY))?,
                beatmap_id: self.reader.read_i32(field(beatmap, 0xC8))?,
                beatmapset_id: self.reader.read_i32(field(beatmap, 0xCC))?,
                ranked_status: self.reader.read_i32(field(beatmap, 0x12C))?,
                md5: self.reader.read_str(self.chain(beatmap, &BEATMAP_MD5))?,
                object_count: self.reader.read_i32(field(beatmap, 0xFC))?,
                mods: self.reader.read_u32(self.chain(menu_mods, &MENU_MODS))?,
            },
        )
    }

    /// Takes one snapshot of the client's state.
    ///
    /// The status selects which of the play in progress, the results and the
    /// tournament overlay the snapshot holds; the settings and the menu are
    /// read whatever the status. A record that a chain does not lead to is
    /// absent and reads as the defaults of its fields; it does not fail the
    /// snapshot.
    pub fn get_memory_data(&self) -> (r: Result<MemoryData, MemoryError>)
        ensures
            yields(r, snapshot_of(&self.reader, self.addresses)),
            r matches Ok(data) ==> {
                &&& data.gameplay is Some <==> data.status == STATUS_PLAYING
                &&& data.results is Some <==> data.status == STATUS_RESULTS
                &&& data.tournament is Some <==> data.status == STATUS_TOURNEY
            },
    {
        let ruleset = self.chain(self.addresses.rulesets, &RULESETS);
        let settings = self.chain(self.addresses.settings_class, &SETTINGS);
        let menu_base = self.chain(self.addresses.base, &MENU_BASE);
        let beatmap_slot = self.chain(self.addresses.base, &BEATMAP_SLOT);
        let beatmap = self.chain(beatmap_slot, &BEATMAP);

        let status = self.reader.read_u32(self.chain(self.addresses.status, &STATUS))?;

        let mut tournament = None;
        let mut results = None;
        let mut gameplay = None;
        if status == STATUS_PLAYING {
            gameplay = Some(self.read_gameplay(ruleset, menu_base)?);
        } else if status == STATUS_RESULTS {
            results = Some(self.read_results(ruleset)?);
        } else if status == STATUS_TOURNEY {
            tournament = Some(self.read_tournament(ruleset)?);
        }

        Ok(
            MemoryData {
                status,
                chat_status: self.reader.read_i8(field_back(self.addresses.chat_checker, 0x20))?,
                play_time: self.reader.read_i32(self.chain(self.addresses.play_time, &PLAY_TIME))?,
                settings: self.read_settings(settings, self.addresses.skin_data)?,
                tournament,
                results,
                menu: self.read_menu(menu_base, beatmap, self.addresses.menu_mods)?,
                gameplay,
            },
        )
    }
}

} // verus!
