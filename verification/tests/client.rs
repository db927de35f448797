use linguaguessr::api::GuessResponse;
use linguaguessr::client::{
    family_tooltip_text, feedback_header, game_url, is_blank, is_whitespace, prepare_feedback, script_tooltip_text, seed_scores_url, RoundContext,
};
use linguaguessr::combobox::{enter_choice, next_highlighted, prev_highlighted};
use linguaguessr::daily::{daily_already_played, DailyEntry};
use linguaguessr::mode::{mode_str, show_score_breakdown, suggestion_pool};
use linguaguessr::scoring::{ScoreBreakdown, ScoreLabels};
use linguaguessr::types::{GameMode, Language};

// --- mode ---

#[test]
fn mode_str_easy() { assert_eq!(mode_str(&GameMode::Easy), "easy"); }

#[test]
fn mode_str_medium() { assert_eq!(mode_str(&GameMode::Medium), "medium"); }

#[test]
fn mode_str_hard() { assert_eq!(mode_str(&GameMode::Hard), "hard"); }

#[test]
fn show_score_breakdown_is_false_for_easy() {
    assert!(!show_score_breakdown(&GameMode::Easy));
}

#[test]
fn show_score_breakdown_is_true_for_medium() {
    assert!(show_score_breakdown(&GameMode::Medium));
}

#[test]
fn show_score_breakdown_is_true_for_hard() {
    assert!(show_score_breakdown(&GameMode::Hard));
}

#[test]
fn mode_str_daily() { assert_eq!(mode_str(&GameMode::Daily), "daily"); }

#[test]
fn show_score_breakdown_is_true_for_daily() {
    assert!(show_score_breakdown(&GameMode::Daily));
}

#[test]
fn suggestion_pool_daily_returns_full_75() {
    assert_eq!(suggestion_pool(&GameMode::Daily).len(), 75);
}

#[test]
fn suggestion_pool_easy_returns_10() {
    assert_eq!(suggestion_pool(&GameMode::Easy).len(), 10);
}

#[test]
fn suggestion_pool_medium_returns_30() {
    assert_eq!(suggestion_pool(&GameMode::Medium).len(), 30);
}

#[test]
fn suggestion_pool_hard_returns_75() {
    assert_eq!(suggestion_pool(&GameMode::Hard).len(), 75);
}

// --- daily ---

fn entry(date: &str) -> DailyEntry {
    DailyEntry { date: date.into(), emojis: "🟩🟨🟥🟩🟩".into(), score: 3500 }
}

#[test]
fn returns_true_when_date_matches_today() {
    assert!(daily_already_played(&entry("2026-05-30"), "2026-05-30"));
}

#[test]
fn returns_false_when_date_is_yesterday() {
    assert!(!daily_already_played(&entry("2026-05-29"), "2026-05-30"));
}

#[test]
fn returns_false_when_date_is_tomorrow() {
    assert!(!daily_already_played(&entry("2026-05-31"), "2026-05-30"));
}

#[test]
fn returns_false_when_entry_is_from_different_month() {
    assert!(!daily_already_played(&entry("2026-04-30"), "2026-05-30"));
}

// --- server addresses ---

#[test]
fn seed_scores_url_format() {
    let url = seed_scores_url("http://localhost:3000", "ABC123");
    assert_eq!(url, "http://localhost:3000/api/seeds/ABC123/scores");
}

#[test]
fn seed_scores_url_different_seed() {
    let url = seed_scores_url("https://api.linguaguessr.io", "XYZ789");
    assert_eq!(url, "https://api.linguaguessr.io/api/seeds/XYZ789/scores");
}

#[test]
fn game_url_without_seed_includes_mode() {
    let url = game_url("http://localhost:3000", &GameMode::Medium, None);
    assert_eq!(url, "http://localhost:3000/api/game?mode=medium");
}

#[test]
fn game_url_without_seed_easy() {
    let url = game_url("http://localhost:3000", &GameMode::Easy, None);
    assert_eq!(url, "http://localhost:3000/api/game?mode=easy");
}

#[test]
fn game_url_with_seed_includes_both() {
    let url = game_url("http://localhost:3000", &GameMode::Hard, Some("ABC123"));
    assert_eq!(url, "http://localhost:3000/api/game?seed=ABC123&mode=hard");
}

#[test]
fn game_url_with_seed_medium() {
    let url = game_url("http://localhost:3000", &GameMode::Medium, Some("XYZ789"));
    assert_eq!(url, "http://localhost:3000/api/game?seed=XYZ789&mode=medium");
}

// --- combobox ---

#[test]
fn next_highlighted_none_with_no_items_returns_none() {
    assert_eq!(next_highlighted(None, 0), None);
}

#[test]
fn next_highlighted_none_with_items_returns_first() {
    assert_eq!(next_highlighted(None, 3), Some(0));
}

#[test]
fn next_highlighted_advances_index() {
    assert_eq!(next_highlighted(Some(0), 3), Some(1));
}

#[test]
fn next_highlighted_clamps_at_last_item() {
    assert_eq!(next_highlighted(Some(2), 3), Some(2));
}

#[test]
fn next_highlighted_single_item_stays_at_zero() {
    assert_eq!(next_highlighted(Some(0), 1), Some(0));
}

#[test]
fn prev_highlighted_none_returns_none() {
    assert_eq!(prev_highlighted(None), None);
}

#[test]
fn prev_highlighted_first_item_returns_none() {
    assert_eq!(prev_highlighted(Some(0)), None);
}

#[test]
fn prev_highlighted_decrements_index() {
    assert_eq!(prev_highlighted(Some(2)), Some(1));
}

#[test]
fn prev_highlighted_from_one_returns_zero() {
    assert_eq!(prev_highlighted(Some(1)), Some(0));
}

#[test]
fn up_after_down_returns_to_the_same_item() {
    assert_eq!(prev_highlighted(next_highlighted(Some(1), 4)), Some(1));
}

#[test]
fn enter_picks_highlighted_or_only_item() {
    let items = vec![Language::Persian, Language::Polish];
    assert_eq!(enter_choice(Some(1), &items), Some(Language::Polish));
    assert_eq!(enter_choice(Some(5), &items), None);
    assert_eq!(enter_choice(None, &items), None);
    assert_eq!(enter_choice(None, &vec![Language::Thai]), Some(Language::Thai));
}

// --- feedback panel and form ---

#[test]
fn script_tooltip_text_is_correct() {
    assert_eq!(script_tooltip_text(), "How similar was the script of your guess to the answer?");
}

#[test]
fn family_tooltip_text_is_correct() {
    assert_eq!(family_tooltip_text(), "How closely related was the language of your guess to the answer?");
}

fn response(correct: bool) -> GuessResponse {
    GuessResponse {
        correct,
        correct_language: Language::French,
        score: ScoreBreakdown { script: 0, family: 0, total: 0 },
        labels: ScoreLabels { script: String::new(), family: String::new() },
    }
}

#[test]
fn header_of_right_and_wrong_guesses() {
    assert_eq!(feedback_header(&response(true)), "✓ Correct!");
    assert_eq!(feedback_header(&response(false)), "✗ Wrong — it was French (FR)");
}

#[test]
fn blank_message_is_refused() {
    assert_eq!(prepare_feedback("  \n\t", "", &None).err(), Some("Message is required.".to_string()));
}

#[test]
fn feedback_takes_round_context_and_drops_blank_email() {
    let ctx = Some(RoundContext { game_id: 3, round_id: 4, language: Some("French".into()) });
    let p = prepare_feedback("broken text", "   ", &ctx).unwrap();
    assert_eq!(p.message, "broken text");
    assert_eq!(p.email, None);
    assert_eq!(p.game_id, Some(3));
    assert_eq!(p.round_id, Some(4));
    assert_eq!(p.language, Some("French".to_string()));
    assert_eq!(p.article_url, None);
    let q = prepare_feedback("hi", "a@b.com", &None).unwrap();
    assert_eq!(q.email, Some("a@b.com".to_string()));
    assert_eq!(q.game_id, None);
}

#[test]
fn unicode_spaces_are_blank_but_zero_width_space_is_not() {
    assert!(is_blank("\u{3000}\u{a0}\u{2009}\n"));
    assert!(!is_blank("\u{200b}"));
}

#[test]
fn whitespace_is_the_white_space_property() {
    for c in ['\t', '\n', '\r', ' ', '\u{85}', '\u{a0}', '\u{1680}', '\u{2000}', '\u{200a}', '\u{2028}', '\u{2029}', '\u{202f}', '\u{205f}', '\u{3000}'] {
        assert!(is_whitespace(c), "{c:?}");
    }
    for c in ['a', '\u{8}', '\u{e}', '\u{200b}', '\u{feff}', '\u{180e}'] {
        assert!(!is_whitespace(c), "{c:?}");
    }
    for n in 0u32..0x3100 {
        if let Some(c) = char::from_u32(n) {
            assert_eq!(is_whitespace(c), c.is_whitespace(), "{c:?}");
        }
    }
}
