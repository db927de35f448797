use linguaguessr::types::Language;
use linguaguessr::wikipedia::{
    fetch_outcome, parse_summary, summary_url, truncate_extract, wiki_code, FetchError, MAX_ATTEMPTS, MAX_CHARS,
};

#[test]
fn summary_url_trims_trailing_slashes() {
    assert_eq!(summary_url("https://fr.wikipedia.org//"), "https://fr.wikipedia.org/api/rest_v1/page/random/summary");
    assert_eq!(summary_url("http://127.0.0.1:1234"), "http://127.0.0.1:1234/api/rest_v1/page/random/summary");
}

#[test]
fn summary_extract_is_read_from_json() {
    assert_eq!(parse_summary(r#"{"extract": "Bonjour."}"#), Ok("Bonjour.".to_string()));
}

#[test]
fn summary_without_extract_is_a_parse_error() {
    assert_eq!(parse_summary(r#"{"title": "Something", "no_extract": true}"#), Err(FetchError::Parse));
    assert_eq!(parse_summary("not json"), Err(FetchError::Parse));
    assert_eq!(parse_summary(r#"{"extract": 3}"#), Err(FetchError::Parse));
}

#[test]
fn short_extract_is_fetched_again_until_the_last_attempt() {
    assert_eq!(fetch_outcome(0, "Too short."), None);
    assert_eq!(fetch_outcome(1, "Too short."), None);
    assert_eq!(fetch_outcome(MAX_ATTEMPTS - 1, "Too short."), Some("Too short.".to_string()));
}

#[test]
fn long_enough_extract_is_kept_at_once() {
    let text = "x".repeat(120);
    assert_eq!(fetch_outcome(0, &text), Some(text.clone()));
}

#[test]
fn long_extract_is_cut_before_last_space() {
    let text = format!("{} {}", "a".repeat(500), "b".repeat(200));
    assert_eq!(truncate_extract(&text), "a".repeat(500));
}

#[test]
fn long_extract_without_space_is_cut_at_the_limit() {
    let text = "z".repeat(MAX_CHARS + 5);
    assert_eq!(truncate_extract(&text), "z".repeat(MAX_CHARS));
}

#[test]
fn wiki_codes_are_two_or_three_letters() {
    for l in Language::all() {
        let code = wiki_code(l);
        assert!(code.len() >= 2 && code.len() <= 3);
    }
}

#[test]
fn exactly_min_chars_is_kept_and_one_less_is_fetched_again() {
    assert_eq!(fetch_outcome(0, &"y".repeat(100)), Some("y".repeat(100)));
    assert_eq!(fetch_outcome(0, &"y".repeat(99)), None);
}

#[test]
fn length_is_counted_in_characters_not_bytes() {
    // 40 Thai characters take 120 bytes, but are still too short
    let thai = "ก".repeat(40);
    assert_eq!(thai.len(), 120);
    assert_eq!(fetch_outcome(0, &thai), None);
    let long_thai = "ก".repeat(100);
    assert_eq!(fetch_outcome(0, &long_thai), Some(long_thai.clone()));
}
