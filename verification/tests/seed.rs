use linguaguessr::seed::{build_share_url, parse_url_seed, seed_from_indices, CHARSET_LEN};
use linguaguessr::types::GameMode;

// --- seed characters ---

#[test]
fn seed_from_indices_produces_six_chars() {
    let s = seed_from_indices(&vec![0, 3, 7, 18, 28, 35]);
    assert_eq!(s.len(), 6);
}

#[test]
fn seed_from_indices_all_chars_are_uppercase_alphanumeric() {
    let s = seed_from_indices(&(0..36).collect());
    for ch in s.chars() {
        assert!(ch.is_ascii_uppercase() || ch.is_ascii_digit(), "unexpected char: {ch}");
    }
}

#[test]
fn seed_from_indices_zero_maps_to_first_charset_char() {
    assert_eq!(seed_from_indices(&vec![0; 6]), "AAAAAA");
}

#[test]
fn seed_from_indices_last_index_maps_to_nine() {
    assert_eq!(seed_from_indices(&vec![35; 6]), "999999");
}

// --- parse_url_seed ---

#[test]
fn parse_url_seed_returns_none_when_no_seed_param() {
    assert_eq!(parse_url_seed(""), None);
}

#[test]
fn parse_url_seed_returns_none_when_only_mode_present() {
    assert_eq!(parse_url_seed("?mode=hard"), None);
}

#[test]
fn parse_url_seed_returns_seed_with_default_medium_when_no_mode() {
    let result = parse_url_seed("?seed=ABC123");
    assert_eq!(result, Some(("ABC123".to_string(), GameMode::Medium)));
}

#[test]
fn parse_url_seed_returns_seed_and_easy_mode() {
    let result = parse_url_seed("?seed=ABC123&mode=easy");
    assert_eq!(result, Some(("ABC123".to_string(), GameMode::Easy)));
}

#[test]
fn parse_url_seed_returns_seed_and_hard_mode() {
    let result = parse_url_seed("?seed=XYZ789&mode=hard");
    assert_eq!(result, Some(("XYZ789".to_string(), GameMode::Hard)));
}

#[test]
fn parse_url_seed_returns_seed_and_medium_mode_explicitly() {
    let result = parse_url_seed("?seed=ABC123&mode=medium");
    assert_eq!(result, Some(("ABC123".to_string(), GameMode::Medium)));
}

#[test]
fn parse_url_seed_unknown_mode_defaults_to_medium() {
    let result = parse_url_seed("?seed=ABC123&mode=nonsense");
    assert_eq!(result, Some(("ABC123".to_string(), GameMode::Medium)));
}

#[test]
fn parse_url_seed_returns_none_for_empty_seed_value() {
    assert_eq!(parse_url_seed("?seed="), None);
}

#[test]
fn parse_url_seed_handles_mode_before_seed() {
    let result = parse_url_seed("?mode=hard&seed=ABC123");
    assert_eq!(result, Some(("ABC123".to_string(), GameMode::Hard)));
}

#[test]
fn parse_url_seed_last_seed_wins_and_values_keep_equals() {
    assert_eq!(parse_url_seed("??seed=A&x&seed=B=C"), Some(("B=C".to_string(), GameMode::Medium)));
}

// --- build_share_url ---

#[test]
fn build_share_url_contains_seed() {
    let url = build_share_url("https://linguaguessr.io", "ABC123", &GameMode::Medium);
    assert!(url.contains("ABC123"));
}

#[test]
fn build_share_url_contains_mode() {
    let url = build_share_url("https://linguaguessr.io", "ABC123", &GameMode::Hard);
    assert!(url.contains("mode=hard"));
}

#[test]
fn build_share_url_format() {
    let url = build_share_url("https://linguaguessr.io", "XY9012", &GameMode::Easy);
    assert_eq!(url, "https://linguaguessr.io/?seed=XY9012&mode=easy");
}

#[test]
fn build_share_url_medium_mode() {
    let url = build_share_url("https://linguaguessr.io", "HELLO1", &GameMode::Medium);
    assert_eq!(url, "https://linguaguessr.io/?seed=HELLO1&mode=medium");
}

#[test]
fn shared_address_opens_the_same_game() {
    let origin = "https://linguaguessr.io";
    for mode in [GameMode::Easy, GameMode::Medium, GameMode::Hard] {
        let url = build_share_url(origin, "Q7Z", &mode);
        let search = &url[origin.len() + 1..];
        assert_eq!(parse_url_seed(search), Some(("Q7Z".to_string(), mode)));
    }
}

// --- seeds from random draws in [0, 1), as the browser makes them ---

/// The seed of six draws: each draw picks the charset position it falls in.
fn seed_from_values(values: [f64; 6]) -> String {
    let indices: Vec<usize> = values.iter().map(|&v| (v * CHARSET_LEN as f64) as usize).collect();
    seed_from_indices(&indices)
}

#[test]
fn seed_from_values_produces_six_chars() {
    let s = seed_from_values([0.0, 0.1, 0.2, 0.5, 0.8, 0.99]);
    assert_eq!(s.len(), 6);
}

#[test]
fn seed_from_values_all_chars_are_uppercase_alphanumeric() {
    let s = seed_from_values([0.0, 0.1, 0.3, 0.5, 0.7, 0.99]);
    for ch in s.chars() {
        assert!(ch.is_ascii_uppercase() || ch.is_ascii_digit(), "unexpected char: {ch}");
    }
}

#[test]
fn seed_from_values_same_input_same_output() {
    let input = [0.1, 0.2, 0.3, 0.4, 0.5, 0.6];
    assert_eq!(seed_from_values(input), seed_from_values(input));
}

#[test]
fn seed_from_values_different_inputs_different_outputs() {
    let a = seed_from_values([0.0, 0.1, 0.2, 0.3, 0.4, 0.5]);
    let b = seed_from_values([0.9, 0.8, 0.7, 0.6, 0.5, 0.4]);
    assert_ne!(a, b);
}

#[test]
fn seed_from_values_near_zero_maps_to_first_charset_char() {
    let s = seed_from_values([0.0, 0.0, 0.0, 0.0, 0.0, 0.0]);
    assert_eq!(&s, "AAAAAA");
}

#[test]
fn seed_from_values_known_input_known_output() {
    // 0.999 * 36 = 35.964 → index 35 → '9'
    let s = seed_from_values([0.999, 0.999, 0.999, 0.999, 0.999, 0.999]);
    assert_eq!(&s, "999999");
}
