//! Scores and labels on a full scoring table: every language of the game,
//! with a script maximum of 500, a family maximum of 450, the script
//! hierarchy (family, branch, script) of the scoring notes, and alphabets
//! whose overlaps are those the expected scores are worked out from (Spanish
//! and Portuguese share 31 of 40 letters, Russian and Bulgarian 30 of 33, and
//! so on).
use linguaguessr::scoring::{partial_score, score_labels, LanguageEntry, ScoreBreakdown, ScoringConfig, ScoringData};
use linguaguessr::types::Language;

#[allow(clippy::too_many_arguments)]
fn row(
    name: &str,
    script: &str,
    script_family: &str,
    script_branch: &str,
    script_chars: Option<&str>,
    family: &str,
    branch: &str,
    sub_branch: &str,
) -> (String, LanguageEntry) {
    (
        name.to_string(),
        LanguageEntry {
            script: script.into(),
            script_family: script_family.into(),
            script_branch: script_branch.into(),
            script_chars: script_chars.map(|c| c.into()),
            family: family.into(),
            branch: branch.into(),
            sub_branch: sub_branch.into(),
            notes: None,
        },
    )
}

/// The table, given by language names as the table file writes them.
fn data() -> ScoringData {
    let rows = vec![
        row("English", "Latin", "Latin", "Latin", Some("abcdefghijklmnopqrstuvwxyz"), "Indo-European", "Germanic", "West Germanic"),
        row("French", "Latin", "Latin", "Latin", Some("abcdefghijklmnopqrstuvwxyzàâæçéèêëîïôœùûü"), "Indo-European", "Romance", "Gallo-Romance"),
        row("Japanese", "Japanese", "CJK", "Logographic", None, "Japonic", "Japonic", "Japonic"),
        row("Arabic", "Arabic", "Semitic", "Arabic Abjad", None, "Afro-Asiatic", "Semitic", "Central Semitic"),
        row("Russian", "Cyrillic", "Cyrillic", "Cyrillic", Some("абвгдеёжзийклмнопрстуфхцчшщъыьэюя"), "Indo-European", "Slavic", "East Slavic"),
        row("Spanish", "Latin", "Latin", "Latin", Some("abcdefghijklmnopqrstuvwxyzáéíñóúü"), "Indo-European", "Romance", "Iberian Romance"),
        row("Chinese", "Han", "CJK", "Logographic", None, "Sino-Tibetan", "Sinitic", "Sinitic"),
        row("Hindi", "Devanagari", "Brahmic", "North Indic", None, "Indo-European", "Indo-Iranian", "Indo-Aryan"),
        row("Bengali", "Bengali", "Brahmic", "North Indic", None, "Indo-European", "Indo-Iranian", "Indo-Aryan"),
        row("Portuguese", "Latin", "Latin", "Latin", Some("abcdefghijklmnopqrstuvwxyzáâãàçéêíóôõú"), "Indo-European", "Romance", "Iberian Romance"),
        row("Indonesian", "Latin", "Latin", "Latin", Some("abcdefghijklmnopqrstuvwxyz"), "Austronesian", "Malayo-Polynesian", "Malayic"),
        row("Urdu", "Arabic", "Semitic", "Arabic Abjad", None, "Indo-European", "Indo-Iranian", "Indo-Aryan"),
        row("German", "Latin", "Latin", "Latin", None, "Indo-European", "Germanic", "West Germanic"),
        row("Korean", "Hangul", "Hangul", "Hangul", None, "Koreanic", "Koreanic", "Koreanic"),
        row("Vietnamese", "Latin", "Latin", "Latin", None, "Austroasiatic", "Vietic", "Viet-Muong"),
        row("Telugu", "Telugu", "Brahmic", "South Indic", None, "Dravidian", "South Dravidian", "South Dravidian"),
        row("Marathi", "Devanagari", "Brahmic", "North Indic", None, "Indo-European", "Indo-Iranian", "Indo-Aryan"),
        row("Tamil", "Tamil", "Brahmic", "South Indic", None, "Dravidian", "South Dravidian", "South Dravidian"),
        row("Turkish", "Latin", "Latin", "Latin", Some("abcdefghijklmnopqrstuvwxyzçğıöşü"), "Turkic", "Oghuz", "Oghuz"),
        row("Persian", "Arabic", "Semitic", "Arabic Abjad", None, "Indo-European", "Indo-Iranian", "Iranian"),
        row("Italian", "Latin", "Latin", "Latin", None, "Indo-European", "Romance", "Italo-Dalmatian"),
        row("Thai", "Thai", "Brahmic", "Southeast Asian", None, "Kra-Dai", "Tai", "Southwestern Tai"),
        row("Swahili", "Latin", "Latin", "Latin", Some("abcdefghijklmnopqrstuvwxyz"), "Niger-Congo", "Bantu", "Bantu"),
        row("Polish", "Latin", "Latin", "Latin", None, "Indo-European", "Slavic", "West Slavic"),
        row("Ukrainian", "Cyrillic", "Cyrillic", "Cyrillic", Some("абвгдежзийклмнопрстуфхцчшщьюяґєії"), "Indo-European", "Slavic", "East Slavic"),
        row("Dutch", "Latin", "Latin", "Latin", None, "Indo-European", "Germanic", "West Germanic"),
        row("Greek", "Greek", "Greek", "Greek", None, "Indo-European", "Hellenic", "Hellenic"),
        row("Romanian", "Latin", "Latin", "Latin", None, "Indo-European", "Romance", "Eastern Romance"),
        row("Czech", "Latin", "Latin", "Latin", None, "Indo-European", "Slavic", "West Slavic"),
        row("Hungarian", "Latin", "Latin", "Latin", Some("abcdefghijklmnopqrstuvwxyzáéíóöőúüű"), "Uralic", "Finno-Ugric", "Ugric"),
        row("Afrikaans", "Latin", "Latin", "Latin", None, "Indo-European", "Germanic", "West Germanic"),
        row("Albanian", "Latin", "Latin", "Latin", None, "Indo-European", "Albanian", "Albanian"),
        row("Amharic", "Ge'ez", "Semitic", "Ethiopic", None, "Afro-Asiatic", "Semitic", "South Semitic"),
        row("Armenian", "Armenian", "Armenian", "Armenian", None, "Indo-European", "Armenian", "Armenian"),
        row("Azerbaijani", "Latin", "Latin", "Latin", Some("abcdefghijklmnopqrstuvwxyzçğıöşüə"), "Turkic", "Oghuz", "Oghuz"),
        row("Basque", "Latin", "Latin", "Latin", Some("abcdefghijklmnopqrstuvwxyzñ"), "Language isolate", "Basque", "Basque"),
        row("Belarusian", "Cyrillic", "Cyrillic", "Cyrillic", None, "Indo-European", "Slavic", "East Slavic"),
        row("Bulgarian", "Cyrillic", "Cyrillic", "Cyrillic", Some("абвгдежзийклмнопрстуфхцчшщъьюя"), "Indo-European", "Slavic", "South Slavic"),
        row("Burmese", "Myanmar", "Brahmic", "Southeast Asian", None, "Sino-Tibetan", "Lolo-Burmese", "Burmish"),
        row("Catalan", "Latin", "Latin", "Latin", None, "Indo-European", "Romance", "Occitano-Romance"),
        row("Croatian", "Latin", "Latin", "Latin", None, "Indo-European", "Slavic", "South Slavic"),
        row("Danish", "Latin", "Latin", "Latin", None, "Indo-European", "Germanic", "North Germanic"),
        row("Estonian", "Latin", "Latin", "Latin", None, "Uralic", "Finno-Ugric", "Finnic"),
        row("Finnish", "Latin", "Latin", "Latin", Some("abcdefghijklmnopqrstuvwxyzäö"), "Uralic", "Finno-Ugric", "Finnic"),
        row("Galician", "Latin", "Latin", "Latin", None, "Indo-European", "Romance", "Iberian Romance"),
        row("Georgian", "Georgian", "Georgian", "Georgian", None, "Kartvelian", "Kartvelian", "Kartvelian"),
        row("Gujarati", "Gujarati", "Brahmic", "North Indic", None, "Indo-European", "Indo-Iranian", "Indo-Aryan"),
        row("Hausa", "Latin", "Latin", "Latin", None, "Afro-Asiatic", "Chadic", "West Chadic"),
        row("Hebrew", "Hebrew", "Semitic", "Hebrew Abjad", None, "Afro-Asiatic", "Semitic", "Northwest Semitic"),
        row("Icelandic", "Latin", "Latin", "Latin", None, "Indo-European", "Germanic", "North Germanic"),
        row("Irish", "Latin", "Latin", "Latin", None, "Indo-European", "Celtic", "Goidelic"),
        row("Kannada", "Kannada", "Brahmic", "South Indic", None, "Dravidian", "South Dravidian", "South Dravidian"),
        row("Kazakh", "Cyrillic", "Cyrillic", "Cyrillic", None, "Turkic", "Kipchak", "Kipchak"),
        row("Khmer", "Khmer", "Brahmic", "Southeast Asian", None, "Austroasiatic", "Khmeric", "Khmer"),
        row("Latvian", "Latin", "Latin", "Latin", None, "Indo-European", "Baltic", "East Baltic"),
        row("Lithuanian", "Latin", "Latin", "Latin", None, "Indo-European", "Baltic", "East Baltic"),
        row("Macedonian", "Cyrillic", "Cyrillic", "Cyrillic", None, "Indo-European", "Slavic", "South Slavic"),
        row("Malay", "Latin", "Latin", "Latin", Some("abcdefghijklmnopqrstuvwxyz"), "Austronesian", "Malayo-Polynesian", "Malayic"),
        row("Malayalam", "Malayalam", "Brahmic", "South Indic", None, "Dravidian", "South Dravidian", "South Dravidian"),
        row("Mongolian", "Cyrillic", "Cyrillic", "Cyrillic", None, "Mongolic", "Mongolic", "Mongolic"),
        row("Nepali", "Devanagari", "Brahmic", "North Indic", None, "Indo-European", "Indo-Iranian", "Indo-Aryan"),
        row("Norwegian", "Latin", "Latin", "Latin", None, "Indo-European", "Germanic", "North Germanic"),
        row("Odia", "Odia", "Brahmic", "North Indic", None, "Indo-European", "Indo-Iranian", "Indo-Aryan"),
        row("Punjabi", "Gurmukhi", "Brahmic", "North Indic", None, "Indo-European", "Indo-Iranian", "Indo-Aryan"),
        row("Serbian", "Cyrillic", "Cyrillic", "Cyrillic", None, "Indo-European", "Slavic", "South Slavic"),
        row("Sinhala", "Sinhala", "Brahmic", "North Indic", None, "Indo-European", "Indo-Iranian", "Indo-Aryan"),
        row("Slovak", "Latin", "Latin", "Latin", None, "Indo-European", "Slavic", "West Slavic"),
        row("Slovenian", "Latin", "Latin", "Latin", None, "Indo-European", "Slavic", "South Slavic"),
        row("Somali", "Latin", "Latin", "Latin", None, "Afro-Asiatic", "Cushitic", "East Cushitic"),
        row("Swedish", "Latin", "Latin", "Latin", None, "Indo-European", "Germanic", "North Germanic"),
        row("Tagalog", "Latin", "Latin", "Latin", None, "Austronesian", "Malayo-Polynesian", "Philippine"),
        row("Uzbek", "Latin", "Latin", "Latin", None, "Turkic", "Karluk", "Karluk"),
        row("Welsh", "Latin", "Latin", "Latin", None, "Indo-European", "Celtic", "Brythonic"),
        row("Yoruba", "Latin", "Latin", "Latin", None, "Niger-Congo", "Volta-Niger", "Yoruboid"),
        row("Zulu", "Latin", "Latin", "Latin", Some("abcdefghijklmnopqrstuvwxyz"), "Niger-Congo", "Bantu", "Bantu"),
    ];
    ScoringData::from_named(ScoringConfig { script_max: 500, family_max: 450, unrelated: 0 }, rows).unwrap()
}

fn score(guess: Language, answer: Language) -> ScoreBreakdown {
    partial_score(&guess, &answer, &data())
}

// --- cross-script Jaccard scoring ---

#[test]
fn punjabi_hindi_same_branch_scores_250() {
    assert_eq!(score(Language::Punjabi, Language::Hindi).script, 250);
}

#[test]
fn hindi_tamil_same_family_diff_branch_scores_100() {
    assert_eq!(score(Language::Hindi, Language::Tamil).script, 100);
}

#[test]
fn hindi_thai_same_family_diff_branch_scores_100() {
    assert_eq!(score(Language::Hindi, Language::Thai).script, 100);
}

#[test]
fn thai_khmer_same_branch_scores_250() {
    assert_eq!(score(Language::Thai, Language::Khmer).script, 250);
}

#[test]
fn arabic_hebrew_same_family_diff_branch_scores_100() {
    assert_eq!(score(Language::Arabic, Language::Hebrew).script, 100);
}

#[test]
fn english_russian_unrelated_scripts_scores_0() {
    assert_eq!(score(Language::English, Language::Russian).script, 0);
}

#[test]
fn cross_script_scoring_is_symmetric() {
    assert_eq!(
        score(Language::Punjabi, Language::Hindi).script,
        score(Language::Hindi, Language::Punjabi).script,
    );
    assert_eq!(
        score(Language::Arabic, Language::Hebrew).script,
        score(Language::Hebrew, Language::Arabic).script,
    );
}

// --- completeness: every language is in the table ---

#[test]
fn all_languages_have_toml_entries() {
    let data = data();
    for lang in Language::all() {
        assert!(data.has_language(*lang), "{lang:?} has no entry");
    }
    assert!(data.is_complete());
}

// --- representative pair scores (Jaccard-based) ---

#[test]
fn spanish_portuguese_scores_838() {
    // Latin, 31 of 40 letters shared: 387.5 rounds up to 388; same Iberian Romance → 450
    assert_eq!(score(Language::Spanish, Language::Portuguese),
        ScoreBreakdown { script: 388, family: 450, total: 838 });
}

#[test]
fn russian_bulgarian_scores_680() {
    // Cyrillic Jaccard 30/33 → 455; East vs South Slavic 2/4 → 225
    assert_eq!(score(Language::Russian, Language::Bulgarian),
        ScoreBreakdown { script: 455, family: 225, total: 680 });
}

#[test]
fn chinese_japanese_scores_250() {
    // Both CJK / Logographic scripts, unrelated families
    assert_eq!(score(Language::Chinese, Language::Japanese),
        ScoreBreakdown { script: 250, family: 0, total: 250 });
}

#[test]
fn hindi_urdu_scores_450() {
    // Different scripts (Devanagari vs Arabic), sibling Indo-Aryan
    assert_eq!(score(Language::Hindi, Language::Urdu),
        ScoreBreakdown { script: 0, family: 450, total: 450 });
}

#[test]
fn english_japanese_scores_0() {
    assert_eq!(score(Language::English, Language::Japanese),
        ScoreBreakdown { script: 0, family: 0, total: 0 });
}

#[test]
fn turkish_azerbaijani_scores_935() {
    // Latin Jaccard 32/33 → 485; both Oghuz → 450
    assert_eq!(score(Language::Turkish, Language::Azerbaijani),
        ScoreBreakdown { script: 485, family: 450, total: 935 });
}

#[test]
fn finnish_hungarian_scores_600() {
    // Latin Jaccard 27/36 = 0.75 → 375; Finnic vs Ugric 2/4 → 225
    assert_eq!(score(Language::Finnish, Language::Hungarian),
        ScoreBreakdown { script: 375, family: 225, total: 600 });
}

#[test]
fn arabic_hebrew_scores_325() {
    // Semitic cross-script (Arabic Abjad vs Hebrew Abjad) → 100; Semitic branch 2/4 → 225
    assert_eq!(score(Language::Arabic, Language::Hebrew),
        ScoreBreakdown { script: 100, family: 225, total: 325 });
}

#[test]
fn english_french_scores_407() {
    // Latin Jaccard 26/41 → 317; Indo-European only 1/5 → 90
    assert_eq!(score(Language::English, Language::French),
        ScoreBreakdown { script: 317, family: 90, total: 407 });
}

#[test]
fn russian_ukrainian_scores_842() {
    // Cyrillic Jaccard 29/37 → 392; both East Slavic → 450
    assert_eq!(score(Language::Russian, Language::Ukrainian),
        ScoreBreakdown { script: 392, family: 450, total: 842 });
}

#[test]
fn basque_spanish_scores_409() {
    // Latin Jaccard 27/33 → 409; Basque isolate vs Indo-European → 0
    assert_eq!(score(Language::Basque, Language::Spanish),
        ScoreBreakdown { script: 409, family: 0, total: 409 });
}

#[test]
fn tamil_telugu_scores_700() {
    // Both Brahmic / South Indic → 250; both South Dravidian → 450
    assert_eq!(score(Language::Tamil, Language::Telugu),
        ScoreBreakdown { script: 250, family: 450, total: 700 });
}

#[test]
fn swahili_zulu_scores_950() {
    // Both base Latin (Jaccard 1 → 500), sibling Bantu → 450
    assert_eq!(score(Language::Swahili, Language::Zulu),
        ScoreBreakdown { script: 500, family: 450, total: 950 });
}

#[test]
fn japanese_korean_scores_0() {
    assert_eq!(score(Language::Japanese, Language::Korean),
        ScoreBreakdown { script: 0, family: 0, total: 0 });
}

#[test]
fn indonesian_malay_scores_950() {
    // Both base Latin (Jaccard 1 → 500), sibling Malayo-Polynesian → 450
    assert_eq!(score(Language::Indonesian, Language::Malay),
        ScoreBreakdown { script: 500, family: 450, total: 950 });
}

// --- symmetry: score(A, B) == score(B, A) ---

#[test]
fn scoring_is_symmetric() {
    let pairs = [
        (Language::Spanish, Language::French),
        (Language::Chinese, Language::Japanese),
        (Language::Hindi, Language::Urdu),
        (Language::Finnish, Language::Hungarian),
    ];
    for (a, b) in pairs {
        assert_eq!(score(a, b), score(b, a), "Score not symmetric for {a:?} / {b:?}");
    }
}

// --- score_labels ---

fn labels(guess: Language, answer: Language) -> (String, String) {
    let l = score_labels(&guess, &answer, &data());
    (l.script, l.family)
}

#[test]
fn labels_for_same_script_match() {
    assert_eq!(labels(Language::Spanish, Language::French).0, "Both Latin script");
}

#[test]
fn labels_for_same_family_same_branch_different_script() {
    // Punjabi (Gurmukhi) and Hindi (Devanagari): both Brahmic / North Indic
    assert_eq!(labels(Language::Punjabi, Language::Hindi).0, "Both use North Indic scripts");
}

#[test]
fn labels_for_same_family_different_branch() {
    // Hindi (North Indic) and Tamil (South Indic): both Brahmic
    assert_eq!(labels(Language::Hindi, Language::Tamil).0, "Related Brahmic scripts");
}

#[test]
fn labels_for_cjk_pair() {
    assert_eq!(labels(Language::Chinese, Language::Japanese).0, "Both use Logographic scripts");
}

#[test]
fn labels_for_different_scripts() {
    assert_eq!(labels(Language::English, Language::Arabic).0, "Different scripts");
}

#[test]
fn labels_for_sub_branch_match() {
    assert_eq!(labels(Language::Spanish, Language::Portuguese).1, "Both Iberian Romance");
}

#[test]
fn labels_for_branch_match() {
    assert_eq!(labels(Language::Spanish, Language::French).1, "Both Romance languages");
}

#[test]
fn labels_for_family_match() {
    assert_eq!(labels(Language::English, Language::French).1, "Both Indo-European family");
}

#[test]
fn labels_for_no_match() {
    assert_eq!(labels(Language::English, Language::Japanese).1, "Different language families");
}
