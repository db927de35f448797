//! A game as the player plays it: the round on screen, the score so far and
//! the results of the rounds played, what happens after a guess and after
//! "Next", and what the end of a game keeps.
use vstd::prelude::*;

use crate::api::GuessResponse;
use crate::client::RoundResult;
use crate::daily::DailyEntry;
use crate::score::{emoji_row, share_emojis, spec_emoji};
use crate::scoring::{easy_score, law_correct_guess_scores_full, law_wrong_guess_bounded, ScoringData};
use crate::text::owned;
use crate::types::{GameMode, Language};

verus! {

/// The player's progress through a game of `rounds` rounds.
#[derive(Debug, Clone, PartialEq, Eq)]
pub struct Progress {
    /// The round on screen, counted from 0.
    pub round: usize,
    /// How many rounds the game has.
    pub rounds: usize,
    /// The points earned so far.
    pub score: u32,
    /// The rounds played so far, in order.
    pub results: Vec<RoundResult>,
}

/// What "Next" leads to.
#[derive(Debug, Clone, Copy, PartialEq, Eq, Structural)]
pub enum Advance {
    /// The round with this index is shown.
    Next(usize),
    /// The game is over.
    Finished,
}

/// The points of each round played.
pub open spec fn totals_of(results: Seq<RoundResult>) -> Seq<u32> {
    results.map_values(|r: RoundResult| r.response.score.total)
}

/// The points of the rounds played, added up.
pub open spec fn points(results: Seq<RoundResult>) -> int
    decreases results.len(),
{
    if results.len() == 0 {
        0
    } else {
        points(results.drop_last()) + results.last().response.score.total
    }
}

/// Whether the score is the sum of the rounds played and the round on screen
/// is within the game.
pub open spec fn consistent(p: Progress) -> bool {
    &&& p.score == points(p.results@)
    &&& p.round <= p.rounds
}

/// The start of a game of `rounds` rounds: its first round, no points.
pub fn start_progress(rounds: usize) -> (p: Progress)
    ensures
        p.round == 0,
        p.rounds == rounds,
        p.score == 0,
        p.results@.len() == 0,
        consistent(p),
{
    Progress { round: 0, rounds, score: 0, results: Vec::new() }
}

/// Records the answer to a guess of `guessed`: its points are added to the
/// score and the round joins the results. The round on screen stays.
pub fn record_guess(p: &mut Progress, guessed: Language, response: GuessResponse)
    requires
        old(p).score + response.score.total <= u32::MAX,
    ensures
        final(p).score == old(p).score + response.score.total,
        final(p).results@ == old(p).results@.push(RoundResult { guessed, response }),
        final(p).round == old(p).round,
        final(p).rounds == old(p).rounds,
        consistent(*old(p)) ==> consistent(*final(p)),
{
    let ghost before = p.results@;
    p.score = p.score + response.score.total;
    p.results.push(RoundResult { guessed, response });
    proof {
        assert(p.results@.drop_last() =~= before);
    }
}

/// What "Next" does: shows the following round, or ends the game after the
/// last one (the progress then stays as it is).
pub fn advance(p: &mut Progress) -> (r: Advance)
    ensures
        if old(p).round + 1 >= old(p).rounds {
            r == Advance::Finished && *final(p) == *old(p)
        } else {
            &&& r == Advance::Next((old(p).round + 1) as usize)
            &&& final(p).round == old(p).round + 1
            &&& final(p).rounds == old(p).rounds
            &&& final(p).score == old(p).score
            &&& final(p).results@ == old(p).results@
        },
        consistent(*old(p)) ==> consistent(*final(p)),
{
    if p.round >= p.rounds || p.rounds - p.round == 1 {
        Advance::Finished
    } else {
        p.round = p.round + 1;
        Advance::Next(p.round)
    }
}

/// The caption of the button under a round's feedback: the last round leads
/// to the score.
pub fn next_button_label(round: usize, rounds: usize) -> (r: &'static str)
    ensures
        r@ == if round + 1 >= rounds { "See my score"@ } else { "Next →"@ },
{
    if round >= rounds || rounds - round == 1 {
        "See my score"
    } else {
        "Next →"
    }
}

/// The points of each round played, in order.
pub fn round_totals(results: &Vec<RoundResult>) -> (r: Vec<u32>)
    ensures
        r@ == totals_of(results@),
{
    let mut totals: Vec<u32> = Vec::new();
    for i in 0..results.len()
        invariant
            totals@ == totals_of(results@.take(i as int)),
    {
        totals.push(results[i].response.score.total);
        assert(totals_of(results@.take(i + 1)) =~= totals_of(results@.take(i as int)).push(
            results@[i as int].response.score.total,
        ));
    }
    assert(results@.take(results@.len() as int) =~= results@);
    totals
}

/// Which rounds the end screen opens at first: the ones guessed wrong.
pub fn initially_expanded(results: &Vec<RoundResult>) -> (r: Vec<bool>)
    ensures
        r@.len() == results@.len(),
        forall|i: int| 0 <= i < r@.len() ==> r@[i] == !(#[trigger] results@[i]).response.correct,
{
    let mut open: Vec<bool> = Vec::new();
    for i in 0..results.len()
        invariant
            open@.len() == i,
            forall|k: int| 0 <= k < i ==> open@[k] == !(#[trigger] results@[k]).response.correct,
    {
        open.push(!results[i].response.correct);
    }
    open
}

/// The Daily result a finished game leaves on day `today`: only a Daily game
/// leaves one, with the squares of its rounds and its score.
pub fn daily_entry_for(mode: &GameMode, results: &Vec<RoundResult>, score: u32, today: &str) -> (r: Option<DailyEntry>)
    ensures
        match r {
            Some(e) => {
                &&& *mode == GameMode::Daily
                &&& e.date@ == today@
                &&& e.emojis@ == emoji_row(totals_of(results@))
                &&& e.score == score
            },
            None => *mode != GameMode::Daily,
        },
{
    if *mode == GameMode::Daily {
        let totals = round_totals(results);
        Some(DailyEntry { date: owned(today), emojis: share_emojis(&totals), score })
    } else {
        None
    }
}

/// A round's square is green exactly when its guess was right: in an Easy
/// game always, and in the others whenever the table's maxima add up to less
/// than 1000, so that no wrong guess earns every point.
pub proof fn law_green_square_iff_right(data: ScoringData, guess: Language, answer: Language)
    ensures
        spec_emoji(easy_score(guess == answer).total) == "🟩"@ <==> guess == answer,
        data.config().script_max + data.config().family_max < 1000 ==> (
            spec_emoji((data.script_score(guess, answer) + data.family_score(guess, answer)) as u32) == "🟩"@
                <==> guess == answer),
{
    reveal_strlit("🟩");
    reveal_strlit("🟨");
    reveal_strlit("🟥");
    assert("🟩"@[0] != "🟨"@[0]);
    assert("🟩"@[0] != "🟥"@[0]);
    if guess == answer {
        law_correct_guess_scores_full(data, guess);
    } else {
        law_wrong_guess_bounded(data, guess, answer);
    }
}

/// The challenge after a mode is picked on the home screen: a seed already
/// drawn is kept, so that the link shared so far stays that game's; a seed is
/// drawn with `draw` only when none was drawn yet.
pub fn pick_challenge<F: FnOnce() -> String>(current: Option<(String, GameMode)>, mode: GameMode, draw: F) -> (r: (
    String,
    GameMode,
))
    requires
        current is None ==> call_requires(draw, ()),
    ensures
        r.1 == mode,
        match current {
            Some((seed, _)) => r.0@ == seed@,
            None => call_ensures(draw, (), r.0),
        },
{
    match current {
        Some((seed, _)) => (seed, mode),
        None => (draw(), mode),
    }
}

} // verus!
