//! Where the client keeps its state: the pointer chains and field offsets
//! that lead from the located addresses to each field of a snapshot.
//!
//! Each record is read field by field in the order written here, and the
//! first read that fails is the failure of the whole record. A record whose
//! address is 0 is absent, and so is each of its fields and each object that a
//! chain from it would lead to: they read as the defaults of their types.

use crate::client::{chain_of, field_at, field_before};
use crate::data::{
    AddressInfo, GameplayView, MemoryDataView, MenuView, ResultsView, SettingsView,
    TournamentView,
};
use crate::read::{
    array_at, i16_at, i32_at, i8_at, str_at, u32_at, u64_at, MemoryError, MemoryReader,
};
use vstd::prelude::*;

verus! {

/// The status of a play in progress.
pub const STATUS_PLAYING: u32 = 2;

/// The status of the results screen.
pub const STATUS_RESULTS: u32 = 7;

/// The status of a tournament client.
pub const STATUS_TOURNEY: u32 = 22;

/// From the rulesets signature to the rulesets.
pub const RULESETS: [isize; 2] = [-0xB, 0x4];

/// From the settings signature to the settings object.
pub const SETTINGS: [isize; 1] = [0x8];

/// From the base signature to the menu state.
pub const MENU_BASE: [isize; 1] = [-0x33];

/// From the base signature to the slot that holds the beatmap.
pub const BEATMAP_SLOT: [isize; 1] = [-0xC];

/// From the beatmap slot to the beatmap.
pub const BEATMAP: [isize; 1] = [0];

/// From the status signature to the status.
pub const STATUS: [isize; 1] = [-4];

/// From the play-time signature to the play time.
pub const PLAY_TIME: [isize; 1] = [0x5];

/// From the mods signature to the mods chosen in the menu.
pub const MENU_MODS: [isize; 1] = [0x9];

/// From a score to its mods.
pub const SCORE_MODS: [isize; 1] = [0x1C];

/// From a score to the player's name.
pub const SCORE_PLAYER: [isize; 1] = [0x28];

/// From the rulesets to the score on the results screen.
pub const RESULT_SCORE: [isize; 1] = [0x38];

/// From the rulesets to the accuracy on the results screen.
pub const RESULT_ACCURACY: [isize; 1] = [0x48];

/// From the rulesets to the play in progress.
pub const PLAY: [isize; 1] = [0x68];

/// From the play in progress to its score.
pub const PLAY_SCORE: [isize; 1] = [0x38];

/// From the play in progress to its health bar.
pub const PLAY_HEALTH: [isize; 1] = [0x40];

/// From the rulesets to the accuracy of the play in progress.
pub const PLAY_ACCURACY: [isize; 2] = [0x68, 0x48];

/// From the score of the play in progress to its hit errors.
pub const PLAY_HIT_ERRORS: [isize; 2] = [0x38, 0x4];

/// From the rulesets to the left team of a tournament.
pub const TOURNEY_LEFT: [isize; 1] = [0x1C];

/// From the rulesets to the right team of a tournament.
pub const TOURNEY_RIGHT: [isize; 1] = [0x20];

/// From a team to its name.
pub const TEAM_NAME: [isize; 2] = [0x20, 0x144];

/// From the rulesets to the tournament's channel to its clients.
pub const TOURNEY_IPC: [isize; 2] = [0x34, 0x4];

/// From the settings object to the songs folder.
pub const SONGS_FOLDER: [isize; 2] = [0xB8, 0x4];

/// From the skin signature to the skin folder.
pub const SKIN_FOLDER: [isize; 3] = [0x4, 0, 68];

/// From the settings object to the interface setting.
pub const INTERFACE: [isize; 1] = [0x4];

/// From the beatmap to its artist.
pub const BEATMAP_ARTIST: [isize; 1] = [0x18];

/// From the beatmap to its artist in its own script.
pub const BEATMAP_ARTIST_ORIGINAL: [isize; 1] = [0x1C];

/// From the beatmap to its title.
pub const BEATMAP_TITLE: [isize; 1] = [0x24];

/// From the beatmap to its title in its own script.
pub const BEATMAP_TITLE_ORIGINAL: [isize; 1] = [0x28];

/// From the beatmap to its audio file.
pub const BEATMAP_AUDIO_FILE: [isize; 1] = [0x64];

/// From the beatmap to its background file.
pub const BEATMAP_BG_FILE: [isize; 1] = [0x68];

/// From the beatmap to its folder.
pub const BEATMAP_FOLDER: [isize; 1] = [0x78];

/// From the beatmap to its creator.
pub const BEATMAP_CREATOR: [isize; 1] = [0x7C];

/// From the beatmap to its name.
pub const BEATMAP_NAME: [isize; 1] = [0x80];

/// From the beatmap to its file.
pub const BEATMAP_PATH: [isize; 1] = [0x90];

/// From the beatmap to its difficulty name.
pub const BEATMAP_DIFFICULTY: [isize; 1] = [0xAC];

/// From the beatmap to its checksum.
pub const BEATMAP_MD5: [isize; 1] = [0x6C];

/// The first failure among reads made one after another.
pub struct ReadOrder {
    pub failure: Option<MemoryError>,
}

/// No read made yet.
pub open spec fn in_order() -> ReadOrder {
    ReadOrder { failure: None }
}

impl ReadOrder {
    /// The reads so far, and after them the read that gave `outcome`.
    pub open spec fn and<T>(self, outcome: Result<T, MemoryError>) -> ReadOrder {
        match self.failure {
            Some(_) => self,
            None => match outcome {
                Ok(_) => self,
                Err(e) => ReadOrder { failure: Some(e) },
            },
        }
    }

    /// The first failure, or `value` where no read failed.
    pub open spec fn done<V>(self, value: V) -> Result<V, MemoryError> {
        match self.failure {
            Some(e) => Err(e),
            None => Ok(value),
        }
    }
}

/// Whether `r` is the failure that `expected` names, or holds a record with
/// the value that `expected` names.
pub open spec fn yields<T: View>(
    r: Result<T, MemoryError>,
    expected: Result<T::V, MemoryError>,
) -> bool {
    match expected {
        Ok(v) => r matches Ok(d) && d@ == v,
        Err(e) => r matches Err(x) && x == e,
    }
}

/// The mods of a score: the client keeps them as two words whose exclusive
/// or is the bit mask.
pub open spec fn combined_mods(a: u32, b: u32) -> u32 {
    a ^ b
}

/// The statistics of the score whose record lies at `score`. The points and
/// the accuracy are kept elsewhere, at `points_addr` and `accuracy_addr`.
pub open spec fn stats_of<R: MemoryReader>(m: &R, score: usize, points_addr: usize, accuracy_addr: usize) -> Result<ResultsView, MemoryError> {
    let mods = chain_of(m, score, SCORE_MODS@);
    let player_name = str_at(m, chain_of(m, score, SCORE_PLAYER@));
    let mods_a = u32_at(m, field_at(mods, 0xC));
    let mods_b = u32_at(m, field_at(mods, 0x8));
    let mode = i32_at(m, field_at(score, 0x64));
    let max_combo = i16_at(m, field_at(score, 0x68));
    let points = i32_at(m, points_addr);
    let hit100 = i16_at(m, field_at(score, 0x88));
    let hit300 = i16_at(m, field_at(score, 0x8A));
    let hit50 = i16_at(m, field_at(score, 0x8C));
    let hit_geki = i16_at(m, field_at(score, 0x8E));
    let hit_katu = i16_at(m, field_at(score, 0x90));
    let misses = i16_at(m, field_at(score, 0x92));
    let accuracy_bits = u64_at(m, accuracy_addr);
    in_order().and(player_name).and(mods_a).and(mods_b).and(mode).and(max_combo).and(points)
        .and(hit100).and(hit300).and(hit50).and(hit_geki).and(hit_katu).and(misses)
        .and(accuracy_bits).done(
        ResultsView {
            player_name: player_name->Ok_0,
            mods: combined_mods(mods_a->Ok_0, mods_b->Ok_0),
            mode: mode->Ok_0,
            max_combo: max_combo->Ok_0,
            score: points->Ok_0,
            hit100: hit100->Ok_0,
            hit300: hit300->Ok_0,
            hit50: hit50->Ok_0,
            hit_geki: hit_geki->Ok_0,
            hit_katu: hit_katu->Ok_0,
            misses: misses->Ok_0,
            accuracy_bits: accuracy_bits->Ok_0,
        },
    )
}

/// The completed score on the results screen, where `ruleset` is the address
/// of the rulesets.
pub open spec fn results_of<R: MemoryReader>(m: &R, ruleset: usize) -> Result<
    ResultsView,
    MemoryError,
> {
    let score = chain_of(m, ruleset, RESULT_SCORE@);
    stats_of(
        m,
        score,
        field_at(score, 0x78),
        field_at(chain_of(m, ruleset, RESULT_ACCURACY@), 0xC),
    )
}

/// The play in progress, where `ruleset` is the address of the rulesets and
/// `menu_base` that of the menu state.
pub open spec fn gameplay_of<R: MemoryReader>(m: &R, ruleset: usize, menu_base: usize) -> Result<GameplayView, MemoryError> {
    let play = chain_of(m, ruleset, PLAY@);
    let score = chain_of(m, play, PLAY_SCORE@);
    let health = chain_of(m, play, PLAY_HEALTH@);
    let stats = stats_of(m, score, field_at(ruleset, 0x100), field_at(chain_of(m, ruleset, PLAY_ACCURACY@), 0xC));
    let retries = i32_at(m, field_at(menu_base, 0x8));
    let hit_errors = array_at::<R, i32>(m, chain_of(m, score, PLAY_HIT_ERRORS@));
    let combo = i16_at(m, field_at(score, 0x94));
    let hp_smooth_bits = u64_at(m, field_at(health, 0x14));
    let hp_bits = u64_at(m, field_at(health, 0x1C));
    in_order().and(stats).and(retries).and(hit_errors).and(combo).and(hp_smooth_bits).and(hp_bits).done(
        GameplayView {
            stats: stats->Ok_0,
            retries: retries->Ok_0,
            hit_errors: hit_errors->Ok_0,
            combo: combo->Ok_0,
            hp_smooth_bits: hp_smooth_bits->Ok_0,
            hp_bits: hp_bits->Ok_0,
        },
    )
}

/// The overlay of a tournament client, where `ruleset` is the address of the
/// rulesets.
pub open spec fn tournament_of<R: MemoryReader>(m: &R, ruleset: usize) -> Result<TournamentView, MemoryError> {
    let left = chain_of(m, ruleset, TOURNEY_LEFT@);
    let right = chain_of(m, ruleset, TOURNEY_RIGHT@);
    let ipc_state = i32_at(m, field_at(ruleset, 0x54));
    let left_stars = i32_at(m, field_at(left, 0x2C));
    let right_stars = i32_at(m, field_at(right, 0x2C));
    let bo = i32_at(m, field_at(right, 0x30));
    let stars_visible = i8_at(m, field_at(right, 0x38));
    let score_visible = i8_at(m, field_at(right, 0x39));
    let team_one_name = str_at(m, chain_of(m, left, TEAM_NAME@));
    let team_two_name = str_at(m, chain_of(m, right, TEAM_NAME@));
    let team_one_score = i32_at(m, field_at(left, 0x28));
    let team_two_score = i32_at(m, field_at(right, 0x28));
    let ipc_base_addr = u32_at(m, field_at(chain_of(m, ruleset, TOURNEY_IPC@), 0x4));
    in_order().and(ipc_state).and(left_stars).and(right_stars).and(bo).and(stars_visible)
        .and(score_visible).and(team_one_name).and(team_two_name).and(team_one_score)
        .and(team_two_score).and(ipc_base_addr).done(
        TournamentView {
            ipc_state: ipc_state->Ok_0,
            left_stars: left_stars->Ok_0,
            right_stars: right_stars->Ok_0,
            bo: bo->Ok_0,
            stars_visible: stars_visible->Ok_0,
            score_visible: score_visible->Ok_0,
            team_one_name: team_one_name->Ok_0,
            team_two_name: team_two_name->Ok_0,
            team_one_score: team_one_score->Ok_0,
            team_two_score: team_two_score->Ok_0,
            ipc_base_addr: ipc_base_addr->Ok_0,
        },
    )
}

/// The settings, where `settings` is the address of the settings object and
/// `skin_data` the address that the skin signature gave.
pub open spec fn settings_of<R: MemoryReader>(m: &R, settings: usize, skin_data: usize) -> Result<SettingsView, MemoryError> {
    let songs_folder = str_at(m, chain_of(m, settings, SONGS_FOLDER@));
    let skin_folder = str_at(m, chain_of(m, skin_data, SKIN_FOLDER@));
    let show_interface = i8_at(m, field_at(chain_of(m, settings, INTERFACE@), 0xC));
    in_order().and(songs_folder).and(skin_folder).and(show_interface).done(
        SettingsView {
            songs_folder: songs_folder->Ok_0,
            skin_folder: skin_folder->Ok_0,
            show_interface: show_interface->Ok_0,
        },
    )
}

/// The menu state at `menu_base` with the beatmap at `beatmap`, and the mods
/// chosen there, which the address `menu_mods` leads to.
pub open spec fn menu_of<R: MemoryReader>(m: &R, menu_base: usize, beatmap: usize, menu_mods: usize) -> Result<MenuView, MemoryError> {
    let game_mode = i32_at(m, menu_base);
    let plays = i32_at(m, field_at(menu_base, 0xC));
    let artist = str_at(m, chain_of(m, beatmap, BEATMAP_ARTIST@));
    let artist_original = str_at(m, chain_of(m, beatmap, BEATMAP_ARTIST_ORIGINAL@));
    let title = str_at(m, chain_of(m, beatmap, BEATMAP_TITLE@));
    let title_original = str_at(m, chain_of(m, beatmap, BEATMAP_TITLE_ORIGINAL@));
    let ar_bits = u32_at(m, field_at(beatmap, 0x2C));
    let cs_bits = u32_at(m, field_at(beatmap, 0x30));
    let hp_bits = u32_at(m, field_at(beatmap, 0x34));
    let od_bits = u32_at(m, field_at(beatmap, 0x38));
    let audio_file = str_at(m, chain_of(m, beatmap, BEATMAP_AUDIO_FILE@));
    let bg_file = str_at(m, chain_of(m, beatmap, BEATMAP_BG_FILE@));
    let folder = str_at(m, chain_of(m, beatmap, BEATMAP_FOLDER@));
    let creator = str_at(m, chain_of(m, beatmap, BEATMAP_CREATOR@));
    let name = str_at(m, chain_of(m, beatmap, BEATMAP_NAME@));
    let path = str_at(m, chain_of(m, beatmap, BEATMAP_PATH@));
    let difficulty = str_at(m, chain_of(m, beatmap, BEATMAP_DIFFICULTY@));
    let beatmap_id = i32_at(m, field_at(beatmap, 0xC8));
    let beatmapset_id = i32_at(m, field_at(beatmap, 0xCC));
    let ranked_status = i32_at(m, field_at(beatmap, 0x12C));
    let md5 = str_at(m, chain_of(m, beatmap, BEATMAP_MD5@));
    let object_count = i32_at(m, field_at(beatmap, 0xFC));
    let mods = u32_at(m, chain_of(m, menu_mods, MENU_MODS@));
    in_order().and(game_mode).and(plays).and(artist).and(artist_original).and(title)
        .and(title_original).and(ar_bits).and(cs_bits).and(hp_bits).and(od_bits).and(audio_file)
        .and(bg_file).and(folder).and(creator).and(name).and(path).and(difficulty).and(beatmap_id)
        .and(beatmapset_id).and(ranked_status).and(md5).and(object_count).and(mods).done(
        MenuView {
            game_mode: game_mode->Ok_0,
            plays: plays->Ok_0,
            artist: artist->Ok_0,
            artist_original: artist_original->Ok_0,
            title: title->Ok_0,
            title_original: title_original->Ok_0,
            ar_bits: ar_bits->Ok_0,
            cs_bits: cs_bits->Ok_0,
            hp_bits: hp_bits->Ok_0,
            od_bits: od_bits->Ok_0,
            audio_file: audio_file->Ok_0,
            bg_file: bg_file->Ok_0,
            folder: folder->Ok_0,
            creator: creator->Ok_0,
            name: name->Ok_0,
            path: path->Ok_0,
            difficulty: difficulty->Ok_0,
            beatmap_id: beatmap_id->Ok_0,
            beatmapset_id: beatmapset_id->Ok_0,
            ranked_status: ranked_status->Ok_0,
            md5: md5->Ok_0,
            object_count: object_count->Ok_0,
            mods: mods->Ok_0,
        },
    )
}

/// The address of the rulesets.
pub open spec fn ruleset_addr<R: MemoryReader>(m: &R, addresses: AddressInfo) -> usize {
    chain_of(m, addresses.rulesets, RULESETS@)
}

/// The address of the menu state.
pub open spec fn menu_base_addr<R: MemoryReader>(m: &R, addresses: AddressInfo) -> usize {
    chain_of(m, addresses.base, MENU_BASE@)
}

/// The address of the beatmap chosen in the menu.
pub open spec fn beatmap_addr<R: MemoryReader>(m: &R, addresses: AddressInfo) -> usize {
    chain_of(m, chain_of(m, addresses.base, BEATMAP_SLOT@), BEATMAP@)
}

/// The status that the client is in.
pub open spec fn status_of<R: MemoryReader>(m: &R, addresses: AddressInfo) -> Result<
    u32,
    MemoryError,
> {
    u32_at(m, chain_of(m, addresses.status, STATUS@))
}

/// The record `value` where the status is `wanted`, and no record otherwise.
pub open spec fn when<V>(status: u32, wanted: u32, value: Result<V, MemoryError>) -> Result<
    Option<V>,
    MemoryError,
> {
    if status == wanted {
        match value {
            Ok(v) => Ok(Some(v)),
            Err(e) => Err(e),
        }
    } else {
        Ok(None)
    }
}

/// The snapshot that the addresses lead to.
///
/// The status is read first. It selects the one record that is read next: the
/// play in progress, the results, or the tournament overlay; any other status
/// selects none. The chat state, the play time, the settings and the menu
/// follow, whatever the status.
pub open spec fn snapshot_of<R: MemoryReader>(m: &R, addresses: AddressInfo) -> Result<
    MemoryDataView,
    MemoryError,
> {
    let ruleset = ruleset_addr(m, addresses);
    let menu_base = menu_base_addr(m, addresses);
    let status = status_of(m, addresses);
    let code = status->Ok_0;
    let gameplay = when(code, STATUS_PLAYING, gameplay_of(m, ruleset, menu_base));
    let results = when(code, STATUS_RESULTS, results_of(m, ruleset));
    let tournament = when(code, STATUS_TOURNEY, tournament_of(m, ruleset));
    let chat_status = i8_at(m, field_before(addresses.chat_checker, 0x20));
    let play_time = i32_at(m, chain_of(m, addresses.play_time, PLAY_TIME@));
    let settings = settings_of(
        m,
        chain_of(m, addresses.settings_class, SETTINGS@),
        addresses.skin_data,
    );
    let menu = menu_of(m, menu_base, beatmap_addr(m, addresses), addresses.menu_mods);
    in_order().and(status).and(gameplay).and(results).and(tournament).and(chat_status).and(
        play_time,
    ).and(settings).and(menu).done(
        MemoryDataView {
            status: code,
            chat_status: chat_status->Ok_0,
            play_time: play_time->Ok_0,
            settings: settings->Ok_0,
            tournament: tournament->Ok_0,
            results: results->Ok_0,
            menu: menu->Ok_0,
            gameplay: gameplay->Ok_0,
        },
    )
}

/// The statistics of an absent score are the defaults, whatever the memory
/// holds: nothing is read.
pub proof fn lemma_absent_score<R: MemoryReader>(m: &R)
    ensures
        stats_of(m, 0, 0, 0) == Ok::<ResultsView, MemoryError>(ResultsView::absent()),
{
    assert(0u32 ^ 0u32 == 0u32) by (bit_vector);
}

/// Results whose score the chain from the rulesets does not lead to do not
/// fail for want of it: the name is empty and every field of the score is 0.
/// The accuracy lies behind a chain of its own and is what that chain gives;
/// where that chain leads nowhere either, the results are the defaults.
pub proof fn lemma_results_without_score<R: MemoryReader>(m: &R, ruleset: usize)
    requires
        chain_of(m, ruleset, RESULT_SCORE@) == 0,
    ensures
        results_of(m, ruleset) == match u64_at(
            m,
            field_at(chain_of(m, ruleset, RESULT_ACCURACY@), 0xC),
        ) {
            Ok(bits) => Ok::<ResultsView, MemoryError>(
                ResultsView { accuracy_bits: bits, ..ResultsView::absent() },
            ),
            Err(e) => Err::<ResultsView, MemoryError>(e),
        },
        chain_of(m, ruleset, RESULT_ACCURACY@) == 0 ==> results_of(m, ruleset) == Ok::<
            ResultsView,
            MemoryError,
        >(ResultsView::absent()),
{
    assert(0u32 ^ 0u32 == 0u32) by (bit_vector);
}

/// The overlay of a tournament whose rulesets are absent is the defaults.
pub proof fn lemma_absent_tournament<R: MemoryReader>(m: &R)
    ensures
        tournament_of(m, 0) == Ok::<TournamentView, MemoryError>(TournamentView::absent()),
{
}

/// A snapshot on the results screen does not fail for want of the results:
/// where the chains to the score and to its accuracy lead nowhere and
/// everything else can be read, the snapshot holds results that are the
/// defaults, and neither a play in progress nor a tournament.
pub proof fn lemma_missing_results_do_not_fail<R: MemoryReader>(m: &R, addresses: AddressInfo)
    requires
        status_of(m, addresses) == Ok::<u32, MemoryError>(STATUS_RESULTS),
        chain_of(m, ruleset_addr(m, addresses), RESULT_SCORE@) == 0,
        chain_of(m, ruleset_addr(m, addresses), RESULT_ACCURACY@) == 0,
        i8_at(m, field_before(addresses.chat_checker, 0x20)) is Ok,
        i32_at(m, chain_of(m, addresses.play_time, PLAY_TIME@)) is Ok,
        settings_of(
            m,
            chain_of(m, addresses.settings_class, SETTINGS@),
            addresses.skin_data,
        ) is Ok,
        menu_of(
            m,
            menu_base_addr(m, addresses),
            beatmap_addr(m, addresses),
            addresses.menu_mods,
        ) is Ok,
    ensures
        snapshot_of(m, addresses) matches Ok(data) && data.results == Some(ResultsView::absent())
            && data.gameplay is None && data.tournament is None,
{
    lemma_results_without_score(m, ruleset_addr(m, addresses));
}

} // verus!
