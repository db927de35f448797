use linguaguessr::feedback::{format_body, format_title, issues_url, FeedbackRequest};
use uuid::Uuid;

// --- format_title ---

#[test]
fn title_has_feedback_prefix() {
    assert!(format_title("Hello").starts_with("[Feedback] "));
}

#[test]
fn title_includes_short_message_in_full() {
    assert_eq!(format_title("Hello"), "[Feedback] Hello");
}

#[test]
fn title_includes_message_of_exactly_60_chars_in_full() {
    let msg = "A".repeat(60);
    assert_eq!(format_title(&msg), format!("[Feedback] {msg}"));
}

#[test]
fn title_truncates_message_longer_than_60_chars() {
    let msg = "A".repeat(61);
    let expected = format!("[Feedback] {}", "A".repeat(60));
    assert_eq!(format_title(&msg), expected);
}

#[test]
fn title_truncates_long_message_to_60_chars() {
    let msg = "B".repeat(100);
    let title = format_title(&msg);
    assert_eq!(title, format!("[Feedback] {}", "B".repeat(60)));
}

#[test]
fn title_counts_characters_not_bytes() {
    let msg = "é".repeat(70);
    assert_eq!(format_title(&msg), format!("[Feedback] {}", "é".repeat(60)));
}

// --- format_body ---

#[test]
fn body_always_contains_message() {
    let req = FeedbackRequest { message: "great game".into(), email: None, game_id: None, round_id: None };
    assert!(format_body(&req).contains("great game"));
}

#[test]
fn body_includes_email_when_provided() {
    let req = FeedbackRequest { message: "hi".into(), email: Some("user@example.com".into()), game_id: None, round_id: None };
    assert!(format_body(&req).contains("user@example.com"));
}

#[test]
fn body_omits_email_when_absent() {
    let req = FeedbackRequest { message: "hi".into(), email: None, game_id: None, round_id: None };
    assert!(!format_body(&req).contains("email") && !format_body(&req).contains('@'));
}

#[test]
fn body_includes_game_id_when_provided() {
    let id = Uuid::new_v4();
    let req = FeedbackRequest { message: "hi".into(), email: None, game_id: Some(id.as_u128()), round_id: None };
    assert!(format_body(&req).contains(&id.to_string()));
}

#[test]
fn body_omits_game_id_when_absent() {
    let req = FeedbackRequest { message: "hi".into(), email: None, game_id: None, round_id: None };
    assert!(!format_body(&req).contains("game"));
}

#[test]
fn body_includes_round_id_when_provided() {
    let id = Uuid::new_v4();
    let req = FeedbackRequest { message: "hi".into(), email: None, game_id: None, round_id: Some(id.as_u128()) };
    assert!(format_body(&req).contains(&id.to_string()));
}

#[test]
fn body_omits_round_id_when_absent() {
    let req = FeedbackRequest { message: "hi".into(), email: None, game_id: None, round_id: None };
    assert!(!format_body(&req).contains("round"));
}

#[test]
fn body_includes_all_fields_when_all_provided() {
    let game_id = Uuid::new_v4();
    let round_id = Uuid::new_v4();
    let req = FeedbackRequest {
        message: "full feedback".into(),
        email: Some("user@example.com".into()),
        game_id: Some(game_id.as_u128()),
        round_id: Some(round_id.as_u128()),
    };
    let body = format_body(&req);
    assert!(body.contains("full feedback"));
    assert!(body.contains("user@example.com"));
    assert!(body.contains(&game_id.to_string()));
    assert!(body.contains(&round_id.to_string()));
}

#[test]
fn body_writes_ids_hyphenated_in_lower_case() {
    let req = FeedbackRequest {
        message: "m".into(),
        email: Some("a@b.c".into()),
        game_id: Some(0xa1a2a3a4b1b2c1c2d1d2d3d4d5d6d7d8),
        round_id: Some(0x550e8400e29b41d4a716446655440000),
    };
    assert_eq!(
        format_body(&req),
        "m\n\nEmail: a@b.c\n\nGame ID: a1a2a3a4-b1b2-c1c2-d1d2-d3d4d5d6d7d8\n\nRound ID: 550e8400-e29b-41d4-a716-446655440000"
    );
}

#[test]
fn issues_url_appends_repository_path() {
    assert_eq!(
        issues_url("https://api.github.com"),
        "https://api.github.com/repos/elisedemarie/linguaguessr/issues"
    );
}
