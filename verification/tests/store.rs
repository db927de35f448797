use linguaguessr::api::GuessRequest;
use linguaguessr::scoring::{LanguageEntry, ScoreBreakdown, ScoringConfig, ScoringData};
use linguaguessr::store::{answer_guess, open_game, GameStore};
use linguaguessr::types::{GameMode, Language};
use linguaguessr::wikipedia::FetchError;

fn described(script: &str, family: &str, branch: &str, sub_branch: &str) -> LanguageEntry {
    LanguageEntry {
        script: script.into(),
        script_family: script.into(),
        script_branch: script.into(),
        script_chars: None,
        family: family.into(),
        branch: branch.into(),
        sub_branch: sub_branch.into(),
        notes: None,
    }
}

/// A table of the languages these games are played in.
fn grading_table() -> ScoringData {
    ScoringData::new(
        ScoringConfig { script_max: 500, family_max: 450, unrelated: 0 },
        vec![
            (Language::French, described("Latin", "Indo-European", "Romance", "Gallo-Romance")),
            (Language::Spanish, described("Latin", "Indo-European", "Romance", "Iberian Romance")),
            (Language::English, described("Latin", "Indo-European", "Germanic", "West Germanic")),
            (Language::Japanese, described("Japanese", "Japonic", "Japonic", "Japonic")),
            (Language::Arabic, described("Arabic", "Afro-Asiatic", "Semitic", "Central Semitic")),
        ],
    )
    .unwrap()
}

fn five_languages() -> Vec<Language> {
    vec![Language::French, Language::Spanish, Language::English, Language::Japanese, Language::Arabic]
}

fn texts(n: usize) -> Vec<Result<String, FetchError>> {
    (0..n).map(|i| Ok(format!("Text number {i}."))).collect()
}

#[test]
fn an_empty_store_answers_no_guess() {
    let store = GameStore::new();
    let request = GuessRequest { round_id: 1, language: Language::French };
    assert!(answer_guess(&store, 7, &request, &grading_table()).is_none());
}

#[test]
fn an_opened_game_has_a_round_per_language_with_its_text() {
    let mut store = GameStore::new();
    let view = open_game(&mut store, &five_languages(), &texts(5), &GameMode::Medium).unwrap();
    assert_eq!(view.rounds.len(), 5);
    for (i, round) in view.rounds.iter().enumerate() {
        assert_eq!(round.text, format!("Text number {i}."));
        assert!(round.options.is_empty());
    }
    let stored = store.get(view.game_id).unwrap();
    assert_eq!(stored.game_id, view.game_id);
    assert_eq!(stored.rounds.len(), 5);
    for (round, lang) in stored.rounds.iter().zip(five_languages()) {
        assert_eq!(round.language, lang);
    }
}

#[test]
fn a_guess_is_graded_against_the_opened_game() {
    let mut store = GameStore::new();
    let view = open_game(&mut store, &five_languages(), &texts(5), &GameMode::Hard).unwrap();
    let data = grading_table();

    let right = GuessRequest { round_id: view.rounds[0].round_id, language: Language::French };
    let answer = answer_guess(&store, view.game_id, &right, &data).unwrap();
    assert!(answer.correct);
    assert_eq!(answer.correct_language, Language::French);
    assert_eq!(answer.score, ScoreBreakdown { script: 500, family: 500, total: 1000 });

    let close = GuessRequest { round_id: view.rounds[1].round_id, language: Language::French };
    let answer = answer_guess(&store, view.game_id, &close, &data).unwrap();
    assert!(!answer.correct);
    assert_eq!(answer.correct_language, Language::Spanish);
    assert_eq!(answer.score, ScoreBreakdown { script: 500, family: 225, total: 725 });
    assert_eq!(answer.labels.family, "Both Romance languages");

    let far = GuessRequest { round_id: view.rounds[3].round_id, language: Language::Arabic };
    let answer = answer_guess(&store, view.game_id, &far, &data).unwrap();
    assert_eq!(answer.correct_language, Language::Japanese);
    assert_eq!(answer.score, ScoreBreakdown { script: 0, family: 0, total: 0 });
    assert_eq!(answer.labels.script, "Different scripts");
}

#[test]
fn guessing_the_same_round_twice_gives_the_same_answer() {
    let mut store = GameStore::new();
    let view = open_game(&mut store, &five_languages(), &texts(5), &GameMode::Medium).unwrap();
    let data = grading_table();
    let request = GuessRequest { round_id: view.rounds[2].round_id, language: Language::Spanish };
    let first = answer_guess(&store, view.game_id, &request, &data).unwrap();
    let second = answer_guess(&store, view.game_id, &request, &data).unwrap();
    assert_eq!(first, second);
}

#[test]
fn a_guess_about_an_unknown_game_is_refused() {
    let mut store = GameStore::new();
    let view = open_game(&mut store, &five_languages(), &texts(5), &GameMode::Medium).unwrap();
    let request = GuessRequest { round_id: view.rounds[0].round_id, language: Language::French };
    assert!(answer_guess(&store, view.game_id.wrapping_add(1), &request, &grading_table()).is_none());
}

#[test]
fn a_guess_about_an_unknown_round_is_refused() {
    let mut store = GameStore::new();
    let view = open_game(&mut store, &five_languages(), &texts(5), &GameMode::Medium).unwrap();
    let unknown = view.rounds.iter().map(|r| r.round_id).max().unwrap().wrapping_add(1);
    let request = GuessRequest { round_id: unknown, language: Language::French };
    assert!(answer_guess(&store, view.game_id, &request, &grading_table()).is_none());
}

#[test]
fn a_failed_fetch_opens_no_game() {
    let mut store = GameStore::new();
    let mut fetched = texts(5);
    fetched[3] = Err(FetchError::Http("mock error".into()));
    assert!(open_game(&mut store, &five_languages(), &fetched, &GameMode::Medium).is_none());
}

#[test]
fn two_games_are_kept_apart() {
    let mut store = GameStore::new();
    let first = open_game(&mut store, &five_languages(), &texts(5), &GameMode::Medium).unwrap();
    let mut reversed = five_languages();
    reversed.reverse();
    let second = open_game(&mut store, &reversed, &texts(5), &GameMode::Medium).unwrap();
    assert_eq!(store.get(first.game_id).unwrap().rounds[0].language, Language::French);
    assert_eq!(store.get(second.game_id).unwrap().rounds[0].language, Language::Arabic);
}

#[test]
fn easy_rounds_offer_their_answer_among_four() {
    let mut store = GameStore::new();
    let langs = vec![Language::English, Language::French, Language::Japanese, Language::Arabic, Language::Spanish];
    let view = open_game(&mut store, &langs, &texts(5), &GameMode::Easy).unwrap();
    let stored = store.get(view.game_id).unwrap();
    for (round, kept) in view.rounds.iter().zip(stored.rounds.iter()) {
        assert_eq!(round.options.len(), 4);
        assert_eq!(round.options.iter().filter(|l| **l == kept.language).count(), 1);
        for l in &round.options {
            assert!(Language::easy_pool().contains(l));
        }
    }
}

#[test]
fn an_easy_game_scores_a_near_miss_nothing() {
    let mut store = GameStore::new();
    let langs = vec![Language::French, Language::English, Language::Japanese, Language::Arabic, Language::Spanish];
    let view = open_game(&mut store, &langs, &texts(5), &GameMode::Easy).unwrap();
    assert_eq!(store.get(view.game_id).unwrap().mode, GameMode::Easy);
    let data = grading_table();
    let near = GuessRequest { round_id: view.rounds[0].round_id, language: Language::Spanish };
    let answer = answer_guess(&store, view.game_id, &near, &data).unwrap();
    assert!(!answer.correct);
    assert_eq!(answer.score, ScoreBreakdown { script: 0, family: 0, total: 0 });
    let right = GuessRequest { round_id: view.rounds[0].round_id, language: Language::French };
    let answer = answer_guess(&store, view.game_id, &right, &data).unwrap();
    assert_eq!(answer.score, ScoreBreakdown { script: 500, family: 500, total: 1000 });
}

#[test]
fn a_daily_game_scores_a_near_miss_partially() {
    let mut store = GameStore::new();
    let view = open_game(&mut store, &five_languages(), &texts(5), &GameMode::Daily).unwrap();
    let near = GuessRequest { round_id: view.rounds[1].round_id, language: Language::French };
    let answer = answer_guess(&store, view.game_id, &near, &grading_table()).unwrap();
    assert!(answer.score.total > 0);
}
