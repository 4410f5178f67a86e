use osu_memory_reader::client::MemoryClient;
use osu_memory_reader::data::{AddressInfo, MemoryData, MenuMemoryData};
use osu_memory_reader::image::MemoryImage;
use osu_memory_reader::read::MemoryError;
use osu_memory_reader::snapshot::combine_mods;

const BASE: usize = 0x0100_0000;
const SIZE: usize = 0x1_0000;

/// The memory of a client, built object by object.
struct Client {
    data: Vec<u8>,
    next: usize,
    addresses: AddressInfo,
    ruleset: usize,
    menu_base: usize,
    beatmap: usize,
    settings: usize,
    status_cell: usize,
}

impl Client {
    /// Room for a new object.
    fn object(&mut self) -> usize {
        let addr = self.next;
        self.next += 0x200;
        addr
    }

    fn put(&mut self, addr: usize, bytes: &[u8]) {
        self.data[addr - BASE..addr - BASE + bytes.len()].copy_from_slice(bytes);
    }

    fn put_u32(&mut self, addr: usize, value: u32) {
        self.put(addr, &value.to_le_bytes());
    }

    fn put_i32(&mut self, addr: usize, value: i32) {
        self.put(addr, &value.to_le_bytes());
    }

    fn put_i16(&mut self, addr: usize, value: i16) {
        self.put(addr, &value.to_le_bytes());
    }

    fn put_i8(&mut self, addr: usize, value: i8) {
        self.put(addr, &value.to_le_bytes());
    }

    fn put_f32(&mut self, addr: usize, value: f32) {
        self.put(addr, &value.to_le_bytes());
    }

    fn put_f64(&mut self, addr: usize, value: f64) {
        self.put(addr, &value.to_le_bytes());
    }

    /// A new object that the pointer at `at` leads to.
    fn behind(&mut self, at: usize) -> usize {
        let target = self.object();
        self.put_u32(at, target as u32);
        target
    }

    /// A new string that the pointer at `at` leads to.
    fn string_behind(&mut self, at: usize, text: &str) {
        let target = self.behind(at);
        let units: Vec<u16> = text.encode_utf16().collect();
        self.put_u32(target + 4, units.len() as u32);
        for (i, unit) in units.iter().enumerate() {
            self.put(target + 8 + 2 * i, &unit.to_le_bytes());
        }
    }

    /// A client in the menu, with the status `status`.
    fn new(status: u32) -> Client {
        let mut c = Client {
            data: vec![0; SIZE],
            next: BASE + 0x1000,
            addresses: AddressInfo::default(),
            ruleset: 0,
            menu_base: 0,
            beatmap: 0,
            settings: 0,
            status_cell: 0,
        };
        // the places that the signatures stand at
        c.addresses = AddressInfo {
            status: BASE + 0x100,
            settings_class: BASE + 0x200,
            base: BASE + 0x300,
            menu_mods: BASE + 0x400,
            play_time: BASE + 0x500,
            chat_checker: BASE + 0x600,
            skin_data: BASE + 0x700,
            rulesets: BASE + 0x800,
            chat_area: BASE + 0x900,
            user_info: 0,
        };
        c.status_cell = c.behind(BASE + 0x100 - 4);
        c.put_u32(c.status_cell, status);
        let rulesets = c.behind(BASE + 0x800 - 0xB);
        c.ruleset = c.behind(rulesets + 0x4);
        c.settings = c.behind(BASE + 0x200 + 0x8);
        c.menu_base = c.behind(BASE + 0x300 - 0x33);
        let slot = c.behind(BASE + 0x300 - 0xC);
        c.beatmap = c.behind(slot);
        let play_time = c.behind(BASE + 0x500 + 0x5);
        c.put_i32(play_time, 83_250);
        let menu_mods = c.behind(BASE + 0x400 + 0x9);
        c.put_u32(menu_mods, 64);
        c.put_i8(BASE + 0x600 - 0x20, 1);

        let songs = c.behind(c.settings + 0xB8);
        c.string_behind(songs + 0x4, "D:\\osu!\\Songs");
        let skin_a = c.behind(BASE + 0x700 + 0x4);
        let skin_b = c.behind(skin_a);
        c.string_behind(skin_b + 68, "- YUGEN -");
        let interface = c.behind(c.settings + 0x4);
        c.put_i8(interface + 0xC, -1);

        let (menu_base, beatmap) = (c.menu_base, c.beatmap);
        c.put_i32(menu_base, 3);
        c.put_i32(menu_base + 0x8, 5);
        c.put_i32(menu_base + 0xC, 1234);
        c.string_behind(beatmap + 0x18, "Camellia");
        c.string_behind(beatmap + 0x1C, "かめりあ");
        c.string_behind(beatmap + 0x24, "GHOST");
        c.string_behind(beatmap + 0x28, "ゴースト");
        c.put_f32(beatmap + 0x2C, 9.5);
        c.put_f32(beatmap + 0x30, 4.0);
        c.put_f32(beatmap + 0x34, 6.0);
        c.put_f32(beatmap + 0x38, 8.8);
        c.string_behind(beatmap + 0x64, "audio.mp3");
        c.string_behind(beatmap + 0x68, "bg.jpg");
        c.string_behind(beatmap + 0x78, "1234 Camellia - GHOST");
        c.string_behind(beatmap + 0x7C, "Mapper");
        c.string_behind(beatmap + 0x80, "Camellia - GHOST (Mapper) [Extra]");
        c.string_behind(beatmap + 0x90, "Camellia - GHOST (Mapper) [Extra].osu");
        c.string_behind(beatmap + 0xAC, "Extra");
        c.put_i32(beatmap + 0xC8, 2_000_001);
        c.put_i32(beatmap + 0xCC, 900_001);
        c.put_i32(beatmap + 0x12C, 4);
        c.string_behind(beatmap + 0x6C, "0123456789abcdef0123456789abcdef");
        c.put_i32(beatmap + 0xFC, 1500);
        c
    }

    /// Fills the record of a score at `score`.
    fn score(&mut self, score: usize, name: &str, mods: (u32, u32)) {
        self.string_behind(score + 0x28, name);
        let mods_object = self.behind(score + 0x1C);
        self.put_u32(mods_object + 0xC, mods.0);
        self.put_u32(mods_object + 0x8, mods.1);
        self.put_i32(score + 0x64, 0);
        self.put_i16(score + 0x68, 727);
        self.put_i16(score + 0x88, 12);
        self.put_i16(score + 0x8A, 901);
        self.put_i16(score + 0x8C, 3);
        self.put_i16(score + 0x8E, 150);
        self.put_i16(score + 0x90, 7);
        self.put_i16(score + 0x92, 2);
    }

    /// Adds a play in progress.
    fn playing(&mut self) {
        let play = self.behind(self.ruleset + 0x68);
        let score = self.behind(play + 0x38);
        let health = self.behind(play + 0x40);
        self.score(score, "cookiezi", (0x1234_0048, 0x1234_0000));
        self.put_i32(self.ruleset + 0x100, 12_345_678);
        let accuracy = self.behind(play + 0x48);
        self.put_f64(accuracy + 0xC, 98.76);
        let errors_holder = self.behind(score + 0x38);
        let errors = self.behind(errors_holder + 0x4);
        self.put_u32(errors + 4, 3);
        self.put_i32(errors + 8, -12);
        self.put_i32(errors + 12, 4);
        self.put_i32(errors + 16, 0);
        self.put_i16(score + 0x94, 321);
        self.put_f64(health + 0x14, 180.5);
        self.put_f64(health + 0x1C, 200.0);
    }

    /// Adds the results screen.
    fn results(&mut self) {
        let score = self.behind(self.ruleset + 0x38);
        self.score(score, "WhiteCat", (9, 1));
        self.put_i32(score + 0x78, 87_654_321);
        let accuracy = self.behind(self.ruleset + 0x48);
        self.put_f64(accuracy + 0xC, 99.5);
    }

    /// Adds the overlay of a tournament client.
    fn tournament(&mut self) {
        let ruleset = self.ruleset;
        let left = self.behind(ruleset + 0x1C);
        let right = self.behind(ruleset + 0x20);
        self.put_i32(ruleset + 0x54, 3);
        self.put_i32(left + 0x2C, 2);
        self.put_i32(right + 0x2C, 4);
        self.put_i32(right + 0x30, 9);
        self.put_i8(right + 0x38, 1);
        self.put_i8(right + 0x39, 0);
        let left_team = self.behind(left + 0x20);
        self.string_behind(left_team + 0x144, "Poland");
        let right_team = self.behind(right + 0x20);
        self.string_behind(right_team + 0x144, "South Korea");
        self.put_i32(left + 0x28, 1_000_000);
        self.put_i32(right + 0x28, 2_000_000);
        let ipc = self.behind(ruleset + 0x34);
        let channel = self.behind(ipc + 0x4);
        self.put_u32(channel + 0x4, 0xCAFE_F00D);
    }

    fn session(&self) -> MemoryClient<MemoryImage> {
        let mut image = MemoryImage::new();
        image.map(BASE, 0x04, self.data.clone());
        MemoryClient { reader: image, is_open: true, addresses: self.addresses }
    }

    fn snapshot(&self) -> Result<MemoryData, MemoryError> {
        self.session().get_memory_data()
    }
}

fn check_menu(data: &MemoryData) {
    assert_eq!(data.chat_status, 1);
    assert_eq!(data.play_time, 83_250);
    assert_eq!(data.settings.songs_folder, "D:\\osu!\\Songs");
    assert_eq!(data.settings.skin_folder, "- YUGEN -");
    assert_eq!(data.settings.show_interface, -1);
    let menu = &data.menu;
    assert_eq!(menu.game_mode, 3);
    assert_eq!(menu.plays, 1234);
    assert_eq!(menu.artist, "Camellia");
    assert_eq!(menu.artist_original, "かめりあ");
    assert_eq!(menu.title, "GHOST");
    assert_eq!(menu.title_original, "ゴースト");
    assert_eq!(f32::from_bits(menu.ar_bits), 9.5);
    assert_eq!(f32::from_bits(menu.cs_bits), 4.0);
    assert_eq!(f32::from_bits(menu.hp_bits), 6.0);
    assert_eq!(f32::from_bits(menu.od_bits), 8.8);
    assert_eq!(menu.audio_file, "audio.mp3");
    assert_eq!(menu.bg_file, "bg.jpg");
    assert_eq!(menu.folder, "1234 Camellia - GHOST");
    assert_eq!(menu.creator, "Mapper");
    assert_eq!(menu.name, "Camellia - GHOST (Mapper) [Extra]");
    assert_eq!(menu.path, "Camellia - GHOST (Mapper) [Extra].osu");
    assert_eq!(menu.difficulty, "Extra");
    assert_eq!(menu.beatmap_id, 2_000_001);
    assert_eq!(menu.beatmapset_id, 900_001);
    assert_eq!(menu.ranked_status, 4);
    assert_eq!(menu.md5, "0123456789abcdef0123456789abcdef");
    assert_eq!(menu.object_count, 1500);
    assert_eq!(menu.mods, 64);
    assert_eq!(menu.status_name(), "ranked");
}

#[test]
fn mods_are_the_exclusive_or_of_the_two_words() {
    assert_eq!(combine_mods(8, 0), 8);
    assert_eq!(combine_mods(9, 1), 8);
    assert_eq!(combine_mods(0, 0), 0);
    assert_eq!(combine_mods(0xFFFF_FFFF, 0x0000_FFFF), 0xFFFF_0000);
    assert_eq!(combine_mods(0x1234_0048, 0x1234_0000), 0x48);
}

#[test]
fn status_playing_gives_gameplay_only() {
    let mut client = Client::new(2);
    client.playing();
    client.results();
    client.tournament();
    let data = client.snapshot().unwrap();
    assert_eq!(data.status, 2);
    assert!(data.results.is_none());
    assert!(data.tournament.is_none());
    let gameplay = data.gameplay.as_ref().unwrap();
    assert_eq!(gameplay.stats.player_name, "cookiezi");
    assert_eq!(gameplay.stats.mods, 0x48);
    assert_eq!(gameplay.stats.mode, 0);
    assert_eq!(gameplay.stats.max_combo, 727);
    assert_eq!(gameplay.stats.score, 12_345_678);
    assert_eq!(gameplay.stats.hit100, 12);
    assert_eq!(gameplay.stats.hit300, 901);
    assert_eq!(gameplay.stats.hit50, 3);
    assert_eq!(gameplay.stats.hit_geki, 150);
    assert_eq!(gameplay.stats.hit_katu, 7);
    assert_eq!(gameplay.stats.misses, 2);
    assert_eq!(f64::from_bits(gameplay.stats.accuracy_bits), 98.76);
    assert_eq!(gameplay.retries, 5);
    assert_eq!(gameplay.hit_errors, vec![-12, 4, 0]);
    assert_eq!(gameplay.combo, 321);
    assert_eq!(f64::from_bits(gameplay.hp_smooth_bits), 180.5);
    assert_eq!(f64::from_bits(gameplay.hp_bits), 200.0);
    assert_eq!(data.current_mods(), 0x48);
    check_menu(&data);
}

#[test]
fn status_results_gives_results_only() {
    let mut client = Client::new(7);
    client.playing();
    client.results();
    client.tournament();
    let data = client.snapshot().unwrap();
    assert_eq!(data.status, 7);
    assert!(data.gameplay.is_none());
    assert!(data.tournament.is_none());
    let results = data.results.as_ref().unwrap();
    assert_eq!(results.player_name, "WhiteCat");
    assert_eq!(results.mods, 8);
    assert_eq!(results.mode, 0);
    assert_eq!(results.max_combo, 727);
    assert_eq!(results.score, 87_654_321);
    assert_eq!(results.hit100, 12);
    assert_eq!(results.hit300, 901);
    assert_eq!(results.hit50, 3);
    assert_eq!(results.hit_geki, 150);
    assert_eq!(results.hit_katu, 7);
    assert_eq!(results.misses, 2);
    assert_eq!(f64::from_bits(results.accuracy_bits), 99.5);
    assert_eq!(data.current_mods(), 8);
    check_menu(&data);
}

#[test]
fn status_tourney_gives_tournament_only() {
    let mut client = Client::new(22);
    client.playing();
    client.results();
    client.tournament();
    let data = client.snapshot().unwrap();
    assert_eq!(data.status, 22);
    assert!(data.gameplay.is_none());
    assert!(data.results.is_none());
    let tournament = data.tournament.as_ref().unwrap();
    assert_eq!(tournament.ipc_state, 3);
    assert_eq!(tournament.left_stars, 2);
    assert_eq!(tournament.right_stars, 4);
    assert_eq!(tournament.bo, 9);
    assert_eq!(tournament.stars_visible, 1);
    assert_eq!(tournament.score_visible, 0);
    assert_eq!(tournament.team_one_name, "Poland");
    assert_eq!(tournament.team_two_name, "South Korea");
    assert_eq!(tournament.team_one_score, 1_000_000);
    assert_eq!(tournament.team_two_score, 2_000_000);
    assert_eq!(tournament.ipc_base_addr, 0xCAFE_F00D);
    assert_eq!(data.current_mods(), 64);
    check_menu(&data);
}

#[test]
fn any_other_status_gives_none_of_the_three() {
    for status in [0u32, 1, 3, 5, 6, 8, 11, 21, 23, 0xFFFF_FFFF] {
        let mut client = Client::new(status);
        client.playing();
        client.results();
        client.tournament();
        let data = client.snapshot().unwrap();
        assert_eq!(data.status, status);
        assert!(data.gameplay.is_none());
        assert!(data.results.is_none());
        assert!(data.tournament.is_none());
        assert_eq!(data.current_mods(), 64);
        check_menu(&data);
    }
}

#[test]
fn results_behind_a_broken_chain_read_as_defaults() {
    // no results were ever shown: every chain from the rulesets breaks
    let client = Client::new(7);
    let data = client.snapshot().unwrap();
    assert_eq!(data.status, 7);
    assert!(data.gameplay.is_none());
    assert!(data.tournament.is_none());
    let results = data.results.as_ref().unwrap();
    assert_eq!(results.player_name, "");
    assert_eq!(results.mods, 0);
    assert_eq!(results.mode, 0);
    assert_eq!(results.max_combo, 0);
    assert_eq!(results.score, 0);
    assert_eq!(
        (results.hit100, results.hit300, results.hit50, results.hit_geki, results.hit_katu, results.misses),
        (0, 0, 0, 0, 0, 0)
    );
    assert_eq!(results.accuracy_bits, 0);
    assert_eq!(data.current_mods(), 0);
    check_menu(&data);
}

#[test]
fn a_play_and_a_tournament_behind_broken_chains_read_as_defaults() {
    let data = Client::new(2).snapshot().unwrap();
    let gameplay = data.gameplay.as_ref().unwrap();
    assert_eq!(gameplay.stats.player_name, "");
    assert_eq!(gameplay.stats.max_combo, 0);
    // the points lie in the rulesets and the retries in the menu state,
    // which are there
    assert_eq!(gameplay.stats.score, 0);
    assert_eq!(gameplay.retries, 5);
    assert_eq!(gameplay.hit_errors, Vec::<i32>::new());
    assert_eq!((gameplay.combo, gameplay.hp_smooth_bits, gameplay.hp_bits), (0, 0, 0));
    check_menu(&data);

    let data = Client::new(22).snapshot().unwrap();
    let tournament = data.tournament.as_ref().unwrap();
    assert_eq!(tournament.team_one_name, "");
    assert_eq!(tournament.team_two_name, "");
    assert_eq!((tournament.left_stars, tournament.right_stars, tournament.bo), (0, 0, 0));
    assert_eq!(tournament.ipc_base_addr, 0);
    check_menu(&data);
}

#[test]
fn a_session_that_has_located_nothing_reads_defaults_throughout() {
    let client = Client::new(7);
    let mut session = client.session();
    session.addresses = AddressInfo::default();
    let data = session.get_memory_data().unwrap();
    assert_eq!(data.status, 0);
    assert_eq!(data.chat_status, 0);
    assert_eq!(data.play_time, 0);
    assert_eq!(data.settings.songs_folder, "");
    assert_eq!(data.settings.show_interface, 0);
    assert_eq!(data.menu.artist, "");
    assert_eq!(data.menu.beatmap_id, 0);
    assert_eq!(data.menu.mods, 0);
    assert!(data.gameplay.is_none() && data.results.is_none() && data.tournament.is_none());
}

#[test]
fn a_field_of_a_record_that_is_there_must_be_readable() {
    // the score on the results screen lies where nothing is mapped: its name
    // and its mods, behind chains that break, are absent, and its mode fails
    let mut client = Client::new(7);
    let ruleset = client.ruleset;
    client.put_u32(ruleset + 0x38, 0x7000_0000);
    assert_eq!(client.snapshot().unwrap_err(), MemoryError::ReadFailed(0x7000_0064));
}

#[test]
fn a_read_failure_fails_the_snapshot_with_its_address() {
    let mut client = Client::new(5);
    // the play time now lies outside the mapped region
    client.put_u32(BASE + 0x500 + 0x5, 0x7000_0000);
    assert_eq!(client.snapshot().unwrap_err(), MemoryError::ReadFailed(0x7000_0000));
}

#[test]
fn the_first_failure_in_reading_order_is_reported() {
    let mut client = Client::new(5);
    client.put_u32(BASE + 0x500 + 0x5, 0x7000_0000);
    client.addresses.chat_checker = 0x6000_0020;
    assert_eq!(client.snapshot().unwrap_err(), MemoryError::ReadFailed(0x6000_0000));
    // the status is read before everything else
    client.put_u32(BASE + 0x100 - 4, 0x5000_0000);
    assert_eq!(client.snapshot().unwrap_err(), MemoryError::ReadFailed(0x5000_0000));
}

#[test]
fn an_ill_formed_string_fails_the_snapshot() {
    let mut client = Client::new(0);
    let beatmap = client.beatmap;
    let title = client.behind(beatmap + 0x24);
    client.put_u32(title + 4, 1);
    client.put(title + 8, &[0x00, 0xD8]);
    assert_eq!(client.snapshot().unwrap_err(), MemoryError::StringDecodeFailed);
}

#[test]
fn an_unresolved_status_reads_as_status_zero() {
    let mut client = Client::new(2);
    client.playing();
    client.put_u32(BASE + 0x100 - 4, 0);
    let data = client.snapshot().unwrap();
    assert_eq!(data.status, 0);
    assert!(data.gameplay.is_none());
}

#[test]
fn missing_menu_strings_are_empty() {
    let mut client = Client::new(0);
    let beatmap = client.beatmap;
    client.put_u32(beatmap + 0x18, 0);
    client.put_u32(beatmap + 0x6C, 0);
    let data = client.snapshot().unwrap();
    assert_eq!(data.menu.artist, "");
    assert_eq!(data.menu.md5, "");
    assert_eq!(data.menu.title, "GHOST");
}

#[test]
fn the_parts_of_a_snapshot_can_be_read_alone() {
    let mut client = Client::new(0);
    client.playing();
    client.results();
    client.tournament();
    let session = client.session();
    assert_eq!(session.read_results(client.ruleset).unwrap().player_name, "WhiteCat");
    let gameplay = session.read_gameplay(client.ruleset, client.menu_base).unwrap();
    assert_eq!(gameplay.stats.player_name, "cookiezi");
    assert_eq!(session.read_tournament(client.ruleset).unwrap().bo, 9);
    let settings = session.read_settings(client.settings, client.addresses.skin_data).unwrap();
    assert_eq!(settings.skin_folder, "- YUGEN -");
    let menu =
        session.read_menu(client.menu_base, client.beatmap, client.addresses.menu_mods).unwrap();
    assert_eq!(menu.difficulty, "Extra");
}

fn menu_with_status(ranked_status: i32) -> MenuMemoryData {
    let mut data = Client::new(0).snapshot().unwrap();
    data.menu.ranked_status = ranked_status;
    data.menu
}

#[test]
fn status_names() {
    assert_eq!(menu_with_status(0).status_name(), "...");
    assert_eq!(menu_with_status(1).status_name(), "unsubmitted");
    assert_eq!(menu_with_status(2).status_name(), "unranked");
    assert_eq!(menu_with_status(3).status_name(), "");
    assert_eq!(menu_with_status(4).status_name(), "ranked");
    assert_eq!(menu_with_status(5).status_name(), "approved");
    assert_eq!(menu_with_status(6).status_name(), "qualified");
    assert_eq!(menu_with_status(7).status_name(), "loved");
    assert_eq!(menu_with_status(8).status_name(), "");
    assert_eq!(menu_with_status(-1).status_name(), "");
}

#[test]
fn current_mods_prefers_results_then_gameplay_then_menu() {
    let mut playing = Client::new(2);
    playing.playing();
    let gameplay = playing.snapshot().unwrap().gameplay;
    let mut shown = Client::new(7);
    shown.results();
    let mut data = shown.snapshot().unwrap();
    assert_eq!(data.current_mods(), 8);
    data.gameplay = gameplay;
    assert_eq!(data.current_mods(), 8);
    data.results = None;
    assert_eq!(data.current_mods(), 0x48);
    data.gameplay = None;
    assert_eq!(data.current_mods(), 64);
}
