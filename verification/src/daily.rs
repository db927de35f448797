//! The Daily challenge in the player's browser: what is kept of today's
//! result, and whether today's challenge was already played.
use vstd::prelude::*;

use crate::text::same_text;

verus! {

/// The key under which the browser keeps the last Daily result.
pub const STORAGE_KEY: &'static str = "linguaguessr_daily";

/// A Daily result as the browser keeps it: its date, its squares and its score.
#[derive(Debug, Clone, PartialEq, Eq)]
pub struct DailyEntry {
    pub date: String,
    pub emojis: String,
    pub score: u32,
}

/// Whether `entry` is a result of the day `today`.
pub fn daily_already_played(entry: &DailyEntry, today: &str) -> (r: bool)
    ensures
        r == (entry.date@ == today@),
{
    same_text(entry.date.as_str(), today)
}

} // verus!
