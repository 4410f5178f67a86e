//! The answers of the bot, put together from a snapshot and from the numbers
//! that are worked out elsewhere and handed over as text.

use crate::data::{
    status_text, MemoryData, MemoryDataView, MenuMemoryData, MenuView, ResultsView,
};
use crate::mods::{get_mod_string, mod_text};
use crate::text::{decimal, decimal_string};
use vstd::prelude::*;
use vstd::string::StringExecFns;

verus! {

/// The mods as an answer shows them: nothing for no mods, else the names of
/// the mods after ` +`.
pub open spec fn shown_mods(mods: u32) -> Seq<char> {
    if mods == 0 {
        Seq::empty()
    } else {
        " +"@ + mod_text(mods, 31)
    }
}

/// Writes the mods as an answer shows them.
pub fn maybe_mods(mods: u32) -> (r: String)
    ensures
        r@ == shown_mods(mods),
{
    let mut text = String::new();
    if mods != 0 {
        text.append(" +");
        text.append(get_mod_string(mods).as_str());
        assert(text@ =~= " +"@ + mod_text(mods, 31));
    }
    text
}

/// The answer that tells what is being played; `stars` is the star rating as
/// it is to be shown.
pub open spec fn now_playing(menu: MenuView, mods: u32, stars: Seq<char>) -> Seq<char> {
    "Now playing: ["@ + status_text(menu.ranked_status) + "] "@ + menu.artist + " - "@
        + menu.title + " ["@ + menu.difficulty + "]"@ + shown_mods(mods) + " ("@ + stars
        + "*) by "@ + menu.creator + " | https://osu.ppy.sh/b/"@ + decimal(
        menu.beatmap_id as int,
    )
}

/// Writes the answer that tells what is being played.
pub fn np_text(menu: &MenuMemoryData, mods: u32, stars: &str) -> (r: String)
    ensures
        r@ == now_playing(menu@, mods, stars@),
{
    let mut text = "Now playing: [".to_owned();
    text.append(menu.status_name());
    text.append("] ");
    text.append(menu.artist.as_str());
    text.append(" - ");
    text.append(menu.title.as_str());
    text.append(" [");
    text.append(menu.difficulty.as_str());
    text.append("]");
    text.append(maybe_mods(mods).as_str());
    text.append(" (");
    text.append(stars);
    text.append("*) by ");
    text.append(menu.creator.as_str());
    text.append(" | https://osu.ppy.sh/b/");
    text.append(decimal_string(menu.beatmap_id).as_str());
    text
}

/// The answer that gives the performance points for an accuracy; `pp` and
/// `accuracy` are the numbers as they are to be shown.
pub open spec fn performance_for_accuracy(
    menu: MenuView,
    mods: u32,
    pp: Seq<char>,
    accuracy: Seq<char>,
) -> Seq<char> {
    "["@ + status_text(menu.ranked_status) + "] "@ + pp + " for "@ + accuracy + "%"@
        + shown_mods(mods)
}

/// Writes the answer that gives the performance points for an accuracy.
pub fn pp_text(menu: &MenuMemoryData, mods: u32, pp: &str, accuracy: &str) -> (r: String)
    ensures
        r@ == performance_for_accuracy(menu@, mods, pp@, accuracy@),
{
    let mut text = "[".to_owned();
    text.append(menu.status_name());
    text.append("] ");
    text.append(pp);
    text.append(" for ");
    text.append(accuracy);
    text.append("%");
    text.append(maybe_mods(mods).as_str());
    text
}

/// The mods as the answer about a score shows them: nothing for no mods,
/// else the names of the mods in brackets.
pub open spec fn score_mods(mods: u32) -> Seq<char> {
    if mods == 0 {
        Seq::empty()
    } else {
        " ("@ + mod_text(mods, 31) + ")"@
    }
}

/// The answer that gives the performance points of the score shown.
pub open spec fn performance_for_score(menu: MenuView, mods: u32, pp: Seq<char>) -> Seq<char> {
    "["@ + status_text(menu.ranked_status) + "] "@ + pp + " for this score"@ + score_mods(mods)
}

/// Writes the answer that gives the performance points of the score shown.
pub fn pp_score_text(menu: &MenuMemoryData, mods: u32, pp: &str) -> (r: String)
    ensures
        r@ == performance_for_score(menu@, mods, pp@),
{
    let mut text = "[".to_owned();
    text.append(menu.status_name());
    text.append("] ");
    text.append(pp);
    text.append(" for this score");
    let mut shown = String::new();
    if mods != 0 {
        shown.append(" (");
        shown.append(get_mod_string(mods).as_str());
        shown.append(")");
        assert(shown@ =~= " ("@ + mod_text(mods, 31) + ")"@);
    }
    text.append(shown.as_str());
    text
}

/// Writes the answer that gives the performance points of the play in
/// progress; `pp` is the number as it is to be shown.
pub fn pp_now_text(pp: &str) -> (r: String)
    ensures
        r@ == "Current pp count: "@ + pp@,
{
    let mut text = "Current pp count: ".to_owned();
    text.append(pp);
    text
}

/// What there is to say of the performance points of the play in progress,
/// before any is worked out.
#[derive(Debug, Clone, Copy, PartialEq, Eq, Structural)]
pub enum PointsNow {
    /// No play is in progress.
    NotPlaying,
    /// A play is in progress and no hit has been counted yet.
    NoHits,
    /// A play is in progress with this many hits counted.
    Hits(u32),
}

/// The hits counted in a score: the 300s, the 100s, the 50s and the misses,
/// each taken as an unsigned number, in a sum that wraps round.
pub open spec fn counted_hits(stats: ResultsView) -> u32 {
    (stats.hit300 as u32).wrapping_add(stats.hit100 as u32).wrapping_add(
        stats.hit50 as u32,
    ).wrapping_add(stats.misses as u32)
}

/// What a snapshot says of the performance points of the play in progress.
pub open spec fn points_now(data: MemoryDataView) -> PointsNow {
    match data.gameplay {
        None => PointsNow::NotPlaying,
        Some(gameplay) => if counted_hits(gameplay.stats) == 0 {
            PointsNow::NoHits
        } else {
            PointsNow::Hits(counted_hits(gameplay.stats))
        },
    }
}

/// Tells what a snapshot says of the performance points of the play in
/// progress.
pub fn points_now_of(data: &MemoryData) -> (r: PointsNow)
    ensures
        r == points_now(data@),
{
    match &data.gameplay {
        None => PointsNow::NotPlaying,
        Some(gameplay) => {
            let stats = &gameplay.stats;
            let hits = (stats.hit300 as u32).wrapping_add(stats.hit100 as u32).wrapping_add(
                stats.hit50 as u32,
            ).wrapping_add(stats.misses as u32);
            if hits == 0 {
                PointsNow::NoHits
            } else {
                PointsNow::Hits(hits)
            }
        },
    }
}

} // verus!
