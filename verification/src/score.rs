//! How scores are shown to the player: per mode, per round as a coloured
//! square, in order, and as the text that shares a Daily result.
use vstd::prelude::*;
use vstd::relations::sorted_by;

use crate::text::{decimal, owned, push_decimal, push_str};
use crate::types::GameMode;

verus! {

/// The most a game can score: five rounds of 1000 points.
pub const GAME_MAX: u32 = 5000;

/// The score shown for `score` points in a game of `mode`: Easy games count
/// right answers (1000 points each), the others show the points.
pub fn display_score(score: u32, mode: &GameMode) -> (r: u32)
    ensures
        r == if *mode == GameMode::Easy { score / 1000 } else { score },
{
    match mode {
        GameMode::Easy => score / 1000,
        _ => score,
    }
}

/// The highest score shown in a game of `mode`.
pub fn max_score(mode: &GameMode) -> (r: u32)
    ensures
        r == if *mode == GameMode::Easy { 5u32 } else { 5000u32 },
{
    match mode {
        GameMode::Easy => 5,
        _ => 5000,
    }
}

/// A shown score never exceeds the highest shown score of its mode.
pub proof fn law_display_within_max(score: u32, mode: GameMode)
    requires
        score <= GAME_MAX,
    ensures
        (if mode == GameMode::Easy { score / 1000 } else { score }) <= (if mode == GameMode::Easy { 5u32 } else { 5000u32 }),
{
}

/// The square that shows a round's points: green for all of them, red for
/// none, yellow in between.
pub open spec fn spec_emoji(score: u32) -> Seq<char> {
    if score == 1000 {
        "🟩"@
    } else if score == 0 {
        "🟥"@
    } else {
        "🟨"@
    }
}

/// The square that shows a round's points.
pub fn round_result_emoji(score: u32) -> (r: &'static str)
    ensures
        r@ == spec_emoji(score),
{
    match score {
        1000 => "🟩",
        0 => "🟥",
        _ => "🟨",
    }
}

/// The squares of rounds scored `totals`, one after the other.
pub open spec fn emoji_row(totals: Seq<u32>) -> Seq<char>
    decreases totals.len(),
{
    if totals.len() == 0 {
        Seq::empty()
    } else {
        emoji_row(totals.drop_last()) + spec_emoji(totals.last())
    }
}

/// The squares of rounds scored `totals`, one after the other.
pub fn share_emojis(totals: &Vec<u32>) -> (r: String)
    ensures
        r@ == emoji_row(totals@),
{
    let mut row = String::new();
    for i in 0..totals.len()
        invariant
            row@ == emoji_row(totals@.take(i as int)),
    {
        push_str(&mut row, round_result_emoji(totals[i]));
        assert(totals@.take(i + 1).drop_last() =~= totals@.take(i as int));
    }
    assert(totals@.take(totals@.len() as int) =~= totals@);
    row
}

/// The order of scores from the highest down.
pub open spec fn descending(a: u32, b: u32) -> bool {
    a >= b
}

/// The scores, from the highest down.
pub fn sort_scores_descending(scores: Vec<u32>) -> (r: Vec<u32>)
    ensures
        r@.to_multiset() == scores@.to_multiset(),
        sorted_by(r@, |a: u32, b: u32| descending(a, b)),
{
    let mut sorted: Vec<u32> = Vec::new();
    proof {
        assert(scores@.take(0) =~= Seq::<u32>::empty());
    }
    for k in 0..scores.len()
        invariant
            sorted@.to_multiset() == scores@.take(k as int).to_multiset(),
            forall|i: int, j: int| 0 <= i < j < sorted@.len() ==> #[trigger] sorted@[i] >= #[trigger] sorted@[j],
    {
        let x = scores[k];
        let mut p: usize = 0;
        while p < sorted.len() && sorted[p] >= x
            invariant
                p <= sorted@.len(),
                forall|i: int| 0 <= i < p ==> sorted@[i] >= x,
            decreases sorted@.len() - p,
        {
            p = p + 1;
        }
        let ghost before = sorted@;
        sorted.insert(p, x);
        proof {
            vstd::seq_lib::to_multiset_insert(before, p as int, x);
            assert(scores@.take(k + 1) =~= scores@.take(k as int).push(x));
            vstd::seq_lib::to_multiset_build(scores@.take(k as int), x);
            assert forall|i: int, j: int| 0 <= i < j < sorted@.len() implies #[trigger] sorted@[i] >= #[trigger] sorted@[j] by {
                if i < p && j < p {
                    assert(before[i] >= before[j]);
                } else if i < p && j > p {
                    assert(before[i] >= before[j - 1]);
                } else if i == p && j > p {
                    if (p as int) < before.len() {
                        assert(before[p as int] < x);
                        if p < j - 1 {
                            assert(before[p as int] >= before[j - 1]);
                        }
                    }
                } else if i > p {
                    assert(before[i - 1] >= before[j - 1]);
                }
            }
        }
    }
    assert(scores@.take(scores@.len() as int) =~= scores@);
    assert forall|i: int, j: int| 0 <= i < j < sorted@.len() implies #[trigger] descending(sorted@[i], sorted@[j]) by {
        assert(sorted@[i] >= sorted@[j]);
    }
    sorted
}

/// The text that shares a Daily result: the date, the squares of the rounds,
/// the score out of 5000, and the site's address.
pub fn format_share_text(date: &str, emojis: &str, total_score: u32) -> (r: String)
    ensures
        r@ == "LinguaGuessr Daily — "@ + date@ + "\n"@ + emojis@ + "\n"@ + decimal(total_score as nat)
            + " / 5000\nlinguaguessr.io"@,
{
    let mut text = owned("LinguaGuessr Daily — ");
    push_str(&mut text, date);
    push_str(&mut text, "\n");
    push_str(&mut text, emojis);
    push_str(&mut text, "\n");
    push_decimal(&mut text, total_score);
    push_str(&mut text, " / 5000\nlinguaguessr.io");
    text
}

} // verus!
