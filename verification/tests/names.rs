use linguaguessr::wikipedia::wiki_base_url;
use linguaguessr::types::Language;

#[test]
fn every_language_has_its_name() {
    for l in Language::all() {
        assert_eq!(Language::from_name(l.name()), Some(*l));
    }
}

#[test]
fn unknown_name_is_none() {
    assert_eq!(Language::from_name("Klingon"), None);
    assert_eq!(Language::from_name("english"), None);
}

#[test]
fn all_lists_each_language_once() {
    let all = Language::all();
    for (i, a) in all.iter().enumerate() {
        for b in &all[i + 1..] {
            assert_ne!(a, b);
            assert_ne!(a.label(), b.label());
        }
    }
}

#[test]
fn each_alias_finds_its_language() {
    let french = Language::suggestions_for_lowered("français", Language::all());
    assert_eq!(french, vec![Language::French]);
}

#[test]
fn easy_pool_is_inside_medium_pool() {
    for l in Language::easy_pool() {
        assert!(Language::medium_pool().contains(l));
    }
}

#[test]
fn suggestions_keep_pool_duplicates() {
    let pool = [Language::Thai, Language::Thai, Language::Tamil];
    assert_eq!(Language::suggestions_for("t", &pool), vec![Language::Tamil, Language::Thai, Language::Thai]);
}

// --- what a label's code says ---

#[test]
fn every_wikipedia_edition_is_named_by_the_label_code() {
    let mut seen = std::collections::HashSet::new();
    for l in Language::all() {
        let label = l.label();
        let code = label[label.len() - 3..label.len() - 1].to_ascii_lowercase();
        let url = wiki_base_url(l);
        assert_eq!(url, format!("https://{code}.wikipedia.org"));
        assert!(seen.insert(url), "{l:?} shares its Wikipedia edition");
    }
}

#[test]
fn every_language_is_found_by_its_code_and_english_name() {
    for l in Language::all() {
        let label = l.label();
        let code = label[label.len() - 3..label.len() - 1].to_ascii_lowercase();
        let name = label[..label.len() - 5].to_lowercase();
        assert!(Language::suggestions(&code).contains(l), "{l:?} not found by {code}");
        assert!(Language::suggestions(&name).contains(l), "{l:?} not found by {name}");
    }
}

#[test]
fn typing_more_never_adds_a_suggestion() {
    for (shorter, longer) in [("f", "fr"), ("fr", "fre"), ("", "a"), ("s", "sw"), ("po", "pol")] {
        let few = Language::suggestions(longer);
        let many = Language::suggestions(shorter);
        for l in &few {
            assert!(many.contains(l), "{l:?} found by {longer} but not {shorter}");
        }
    }
}
