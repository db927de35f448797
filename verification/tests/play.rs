use linguaguessr::api::GuessResponse;
use linguaguessr::client::RoundResult;
use linguaguessr::play::{
    advance, daily_entry_for, initially_expanded, next_button_label, pick_challenge, record_guess, round_totals,
    start_progress, Advance,
};
use linguaguessr::score::round_result_emoji;
use linguaguessr::scoring::{binary_score, ScoreBreakdown, ScoreLabels};
use linguaguessr::types::{GameMode, Language};

fn answer(correct_language: Language, script: u32, family: u32) -> GuessResponse {
    GuessResponse {
        correct: script + family == 1000,
        correct_language,
        score: ScoreBreakdown { script, family, total: script + family },
        labels: ScoreLabels { script: "s".into(), family: "f".into() },
    }
}

fn played(guessed: Language, response: GuessResponse) -> RoundResult {
    RoundResult { guessed, response }
}

#[test]
fn a_new_game_starts_at_its_first_round_with_no_points() {
    let p = start_progress(5);
    assert_eq!((p.round, p.rounds, p.score), (0, 5, 0));
    assert!(p.results.is_empty());
}

#[test]
fn recording_guesses_adds_their_points_in_order() {
    let mut p = start_progress(5);
    record_guess(&mut p, Language::Portuguese, answer(Language::Spanish, 388, 450));
    record_guess(&mut p, Language::French, answer(Language::French, 500, 500));
    assert_eq!(p.score, 1838);
    assert_eq!(p.round, 0);
    assert_eq!(p.results.len(), 2);
    assert_eq!(p.results[0].guessed, Language::Portuguese);
    assert_eq!(p.results[0].response.correct_language, Language::Spanish);
    assert_eq!(p.results[1].guessed, Language::French);
}

#[test]
fn next_shows_the_following_round() {
    let mut p = start_progress(5);
    assert_eq!(advance(&mut p), Advance::Next(1));
    assert_eq!(p.round, 1);
}

#[test]
fn next_after_the_last_round_finishes_the_game() {
    let mut p = start_progress(2);
    record_guess(&mut p, Language::Hindi, answer(Language::Urdu, 0, 450));
    assert_eq!(advance(&mut p), Advance::Next(1));
    record_guess(&mut p, Language::Welsh, answer(Language::Welsh, 500, 500));
    let before = p.clone();
    assert_eq!(advance(&mut p), Advance::Finished);
    assert_eq!(p, before);
    assert_eq!(p.score, 1450);
}

#[test]
fn a_game_without_rounds_is_over_at_once() {
    let mut p = start_progress(0);
    assert_eq!(advance(&mut p), Advance::Finished);
    assert_eq!(p.round, 0);
}

#[test]
fn the_last_round_leads_to_the_score() {
    assert_eq!(next_button_label(4, 5), "See my score");
    assert_eq!(next_button_label(3, 5), "Next →");
    assert_eq!(next_button_label(0, 1), "See my score");
}

#[test]
fn round_totals_lists_each_rounds_points() {
    let results = vec![
        played(Language::English, answer(Language::English, 500, 500)),
        played(Language::German, answer(Language::Japanese, 0, 0)),
        played(Language::Russian, answer(Language::Ukrainian, 392, 450)),
    ];
    assert_eq!(round_totals(&results), vec![1000, 0, 842]);
}

#[test]
fn the_end_screen_opens_the_wrong_guesses() {
    let results = vec![
        played(Language::English, answer(Language::English, 500, 500)),
        played(Language::German, answer(Language::Japanese, 0, 0)),
    ];
    assert_eq!(initially_expanded(&results), vec![false, true]);
}

#[test]
fn a_daily_game_leaves_its_result() {
    let results = vec![
        played(Language::English, answer(Language::English, 500, 500)),
        played(Language::German, answer(Language::Japanese, 0, 0)),
        played(Language::Russian, answer(Language::Ukrainian, 392, 450)),
    ];
    let entry = daily_entry_for(&GameMode::Daily, &results, 1842, "2026-05-30").unwrap();
    assert_eq!(entry.date, "2026-05-30");
    assert_eq!(entry.emojis, "🟩🟥🟨");
    assert_eq!(entry.score, 1842);
}

#[test]
fn other_games_leave_no_daily_result() {
    let results = vec![played(Language::English, answer(Language::English, 500, 500))];
    assert!(daily_entry_for(&GameMode::Medium, &results, 1000, "2026-05-30").is_none());
    assert!(daily_entry_for(&GameMode::Easy, &results, 1000, "2026-05-30").is_none());
    assert!(daily_entry_for(&GameMode::Hard, &results, 1000, "2026-05-30").is_none());
}

#[test]
fn picking_a_mode_keeps_the_drawn_seed() {
    let first = pick_challenge(None, GameMode::Easy, || "AB12CD".to_string());
    assert_eq!(first, ("AB12CD".to_string(), GameMode::Easy));
    let second = pick_challenge(Some(first), GameMode::Hard, || -> String { panic!("no new seed is drawn") });
    assert_eq!(second, ("AB12CD".to_string(), GameMode::Hard));
}

#[test]
fn only_a_right_easy_guess_is_green() {
    assert_eq!(round_result_emoji(binary_score(true).total), "🟩");
    assert_eq!(round_result_emoji(binary_score(false).total), "🟥");
}
