//! What a game's mode decides in the player's browser: its name in addresses,
//! the languages the guess box offers, and whether a score's breakdown is shown.
use vstd::prelude::*;

use crate::game::spec_language_pool;
use crate::types::{GameMode, Language};

verus! {

/// The name of a mode in addresses.
pub open spec fn spec_mode_str(mode: GameMode) -> Seq<char> {
    match mode {
        GameMode::Easy => "easy"@,
        GameMode::Medium => "medium"@,
        GameMode::Hard => "hard"@,
        GameMode::Daily => "daily"@,
    }
}

/// The name of `mode` in addresses.
pub fn mode_str(mode: &GameMode) -> (r: &'static str)
    ensures
        r@ == spec_mode_str(*mode),
{
    match mode {
        GameMode::Easy => "easy",
        GameMode::Medium => "medium",
        GameMode::Hard => "hard",
        GameMode::Daily => "daily",
    }
}

/// The languages that the guess box offers in a game of `mode`: the pool the
/// game's languages are drawn from.
pub fn suggestion_pool(mode: &GameMode) -> (r: &'static [Language])
    ensures
        r@ == spec_language_pool(*mode),
{
    match mode {
        GameMode::Easy => Language::easy_pool(),
        GameMode::Medium => Language::medium_pool(),
        GameMode::Hard | GameMode::Daily => Language::all(),
    }
}

/// Whether a round's score is shown axis by axis: in every mode but Easy.
pub fn show_score_breakdown(mode: &GameMode) -> (r: bool)
    ensures
        r == (*mode != GameMode::Easy),
{
    *mode != GameMode::Easy
}

/// Different modes have different names, so an address names one mode.
pub proof fn law_mode_names_distinct(a: GameMode, b: GameMode)
    ensures
        spec_mode_str(a) == spec_mode_str(b) ==> a == b,
{
    reveal_strlit("easy");
    reveal_strlit("medium");
    reveal_strlit("hard");
    reveal_strlit("daily");
    if a != b && spec_mode_str(a) == spec_mode_str(b) {
        assert(spec_mode_str(a).len() == spec_mode_str(b).len());
        assert(spec_mode_str(a)[0] == spec_mode_str(b)[0]);
    }
}

} // verus!
