//! What the game's server and its players exchange: a game as the player sees
//! it, a guess, and the answer to a guess. Ids are UUIDs, held as numbers.
use vstd::prelude::*;

use crate::scoring::{ScoreBreakdown, ScoreLabels};
use crate::types::Language;

verus! {

/// A round as the player sees it: its text, and in Easy games the languages
/// to choose from. The answer is not part of it.
#[derive(Debug, Clone, PartialEq, Eq)]
pub struct RoundView {
    pub round_id: u128,
    pub text: String,
    pub options: Vec<Language>,
}

/// A game as the player sees it.
#[derive(Debug, Clone, PartialEq, Eq)]
pub struct GameView {
    pub game_id: u128,
    pub rounds: Vec<RoundView>,
}

/// A player's guess of the language of a round.
#[derive(Debug, Clone, Copy, PartialEq, Eq, Structural)]
pub struct GuessRequest {
    pub round_id: u128,
    pub language: Language,
}

/// The answer to a guess: whether it was right, the round's language, the
/// score and its labels.
#[derive(Debug, Clone, PartialEq, Eq)]
pub struct GuessResponse {
    pub correct: bool,
    pub correct_language: Language,
    pub score: ScoreBreakdown,
    pub labels: ScoreLabels,
}

} // verus!
