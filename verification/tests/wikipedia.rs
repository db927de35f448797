use linguaguessr::types::Language;
use linguaguessr::wikipedia::{truncate_extract, wiki_base_url, MAX_CHARS};

fn long_extract() -> String {
    // 650 chars — longer than MAX_CHARS (600)
    let sentence = "This is a long sentence that takes up space in the extract. ";
    sentence.repeat(11)
}

fn adequate_extract() -> &'static str {
    // > MIN_CHARS (100), < MAX_CHARS (600)
    "This is an adequate extract that is long enough to be returned without truncation. It has multiple sentences and is clearly over one hundred characters total."
}

#[test] fn english_url()    { assert_eq!(wiki_base_url(&Language::English),    "https://en.wikipedia.org"); }

#[test] fn french_url()     { assert_eq!(wiki_base_url(&Language::French),     "https://fr.wikipedia.org"); }

#[test] fn japanese_url()   { assert_eq!(wiki_base_url(&Language::Japanese),   "https://ja.wikipedia.org"); }

#[test] fn arabic_url()     { assert_eq!(wiki_base_url(&Language::Arabic),     "https://ar.wikipedia.org"); }

#[test] fn russian_url()    { assert_eq!(wiki_base_url(&Language::Russian),    "https://ru.wikipedia.org"); }

#[test] fn spanish_url()    { assert_eq!(wiki_base_url(&Language::Spanish),    "https://es.wikipedia.org"); }

#[test] fn chinese_url()    { assert_eq!(wiki_base_url(&Language::Chinese),    "https://zh.wikipedia.org"); }

#[test] fn hindi_url()      { assert_eq!(wiki_base_url(&Language::Hindi),      "https://hi.wikipedia.org"); }

#[test] fn bengali_url()    { assert_eq!(wiki_base_url(&Language::Bengali),    "https://bn.wikipedia.org"); }

#[test] fn portuguese_url() { assert_eq!(wiki_base_url(&Language::Portuguese), "https://pt.wikipedia.org"); }

#[test] fn indonesian_url() { assert_eq!(wiki_base_url(&Language::Indonesian), "https://id.wikipedia.org"); }

#[test] fn urdu_url()       { assert_eq!(wiki_base_url(&Language::Urdu),       "https://ur.wikipedia.org"); }

#[test] fn german_url()     { assert_eq!(wiki_base_url(&Language::German),     "https://de.wikipedia.org"); }

#[test] fn korean_url()     { assert_eq!(wiki_base_url(&Language::Korean),     "https://ko.wikipedia.org"); }

#[test] fn vietnamese_url() { assert_eq!(wiki_base_url(&Language::Vietnamese), "https://vi.wikipedia.org"); }

#[test] fn telugu_url()     { assert_eq!(wiki_base_url(&Language::Telugu),     "https://te.wikipedia.org"); }

#[test] fn marathi_url()    { assert_eq!(wiki_base_url(&Language::Marathi),    "https://mr.wikipedia.org"); }

#[test] fn tamil_url()      { assert_eq!(wiki_base_url(&Language::Tamil),      "https://ta.wikipedia.org"); }

#[test] fn turkish_url()    { assert_eq!(wiki_base_url(&Language::Turkish),    "https://tr.wikipedia.org"); }

#[test] fn persian_url()    { assert_eq!(wiki_base_url(&Language::Persian),    "https://fa.wikipedia.org"); }

#[test] fn italian_url()    { assert_eq!(wiki_base_url(&Language::Italian),    "https://it.wikipedia.org"); }

#[test] fn thai_url()       { assert_eq!(wiki_base_url(&Language::Thai),       "https://th.wikipedia.org"); }

#[test] fn swahili_url()    { assert_eq!(wiki_base_url(&Language::Swahili),    "https://sw.wikipedia.org"); }

#[test] fn polish_url()     { assert_eq!(wiki_base_url(&Language::Polish),     "https://pl.wikipedia.org"); }

#[test] fn ukrainian_url()  { assert_eq!(wiki_base_url(&Language::Ukrainian),  "https://uk.wikipedia.org"); }

#[test] fn dutch_url()      { assert_eq!(wiki_base_url(&Language::Dutch),      "https://nl.wikipedia.org"); }

#[test] fn greek_url()      { assert_eq!(wiki_base_url(&Language::Greek),      "https://el.wikipedia.org"); }

#[test] fn romanian_url()   { assert_eq!(wiki_base_url(&Language::Romanian),   "https://ro.wikipedia.org"); }

#[test] fn czech_url()      { assert_eq!(wiki_base_url(&Language::Czech),      "https://cs.wikipedia.org"); }

#[test] fn hungarian_url()    { assert_eq!(wiki_base_url(&Language::Hungarian),    "https://hu.wikipedia.org"); }

#[test] fn afrikaans_url()   { assert_eq!(wiki_base_url(&Language::Afrikaans),   "https://af.wikipedia.org"); }

#[test] fn albanian_url()    { assert_eq!(wiki_base_url(&Language::Albanian),    "https://sq.wikipedia.org"); }

#[test] fn amharic_url()     { assert_eq!(wiki_base_url(&Language::Amharic),     "https://am.wikipedia.org"); }

#[test] fn armenian_url()    { assert_eq!(wiki_base_url(&Language::Armenian),    "https://hy.wikipedia.org"); }

#[test] fn azerbaijani_url() { assert_eq!(wiki_base_url(&Language::Azerbaijani), "https://az.wikipedia.org"); }

#[test] fn basque_url()      { assert_eq!(wiki_base_url(&Language::Basque),      "https://eu.wikipedia.org"); }

#[test] fn belarusian_url()  { assert_eq!(wiki_base_url(&Language::Belarusian),  "https://be.wikipedia.org"); }

#[test] fn bulgarian_url()   { assert_eq!(wiki_base_url(&Language::Bulgarian),   "https://bg.wikipedia.org"); }

#[test] fn burmese_url()     { assert_eq!(wiki_base_url(&Language::Burmese),     "https://my.wikipedia.org"); }

#[test] fn catalan_url()     { assert_eq!(wiki_base_url(&Language::Catalan),     "https://ca.wikipedia.org"); }

#[test] fn croatian_url()    { assert_eq!(wiki_base_url(&Language::Croatian),    "https://hr.wikipedia.org"); }

#[test] fn danish_url()      { assert_eq!(wiki_base_url(&Language::Danish),      "https://da.wikipedia.org"); }

#[test] fn estonian_url()    { assert_eq!(wiki_base_url(&Language::Estonian),    "https://et.wikipedia.org"); }

#[test] fn finnish_url()     { assert_eq!(wiki_base_url(&Language::Finnish),     "https://fi.wikipedia.org"); }

#[test] fn galician_url()    { assert_eq!(wiki_base_url(&Language::Galician),    "https://gl.wikipedia.org"); }

#[test] fn georgian_url()    { assert_eq!(wiki_base_url(&Language::Georgian),    "https://ka.wikipedia.org"); }

#[test] fn gujarati_url()    { assert_eq!(wiki_base_url(&Language::Gujarati),    "https://gu.wikipedia.org"); }

#[test] fn hausa_url()       { assert_eq!(wiki_base_url(&Language::Hausa),       "https://ha.wikipedia.org"); }

#[test] fn hebrew_url()      { assert_eq!(wiki_base_url(&Language::Hebrew),      "https://he.wikipedia.org"); }

#[test] fn icelandic_url()   { assert_eq!(wiki_base_url(&Language::Icelandic),   "https://is.wikipedia.org"); }

#[test] fn irish_url()       { assert_eq!(wiki_base_url(&Language::Irish),       "https://ga.wikipedia.org"); }

#[test] fn kannada_url()     { assert_eq!(wiki_base_url(&Language::Kannada),     "https://kn.wikipedia.org"); }

#[test] fn kazakh_url()      { assert_eq!(wiki_base_url(&Language::Kazakh),      "https://kk.wikipedia.org"); }

#[test] fn khmer_url()       { assert_eq!(wiki_base_url(&Language::Khmer),       "https://km.wikipedia.org"); }

#[test] fn latvian_url()     { assert_eq!(wiki_base_url(&Language::Latvian),     "https://lv.wikipedia.org"); }

#[test] fn lithuanian_url()  { assert_eq!(wiki_base_url(&Language::Lithuanian),  "https://lt.wikipedia.org"); }

#[test] fn macedonian_url()  { assert_eq!(wiki_base_url(&Language::Macedonian),  "https://mk.wikipedia.org"); }

#[test] fn malay_url()       { assert_eq!(wiki_base_url(&Language::Malay),       "https://ms.wikipedia.org"); }

#[test] fn malayalam_url()   { assert_eq!(wiki_base_url(&Language::Malayalam),   "https://ml.wikipedia.org"); }

#[test] fn mongolian_url()   { assert_eq!(wiki_base_url(&Language::Mongolian),   "https://mn.wikipedia.org"); }

#[test] fn nepali_url()      { assert_eq!(wiki_base_url(&Language::Nepali),      "https://ne.wikipedia.org"); }

#[test] fn norwegian_url()   { assert_eq!(wiki_base_url(&Language::Norwegian),   "https://no.wikipedia.org"); }

#[test] fn odia_url()        { assert_eq!(wiki_base_url(&Language::Odia),        "https://or.wikipedia.org"); }

#[test] fn punjabi_url()     { assert_eq!(wiki_base_url(&Language::Punjabi),     "https://pa.wikipedia.org"); }

#[test] fn serbian_url()     { assert_eq!(wiki_base_url(&Language::Serbian),     "https://sr.wikipedia.org"); }

#[test] fn sinhala_url()     { assert_eq!(wiki_base_url(&Language::Sinhala),     "https://si.wikipedia.org"); }

#[test] fn slovak_url()      { assert_eq!(wiki_base_url(&Language::Slovak),      "https://sk.wikipedia.org"); }

#[test] fn slovenian_url()   { assert_eq!(wiki_base_url(&Language::Slovenian),   "https://sl.wikipedia.org"); }

#[test] fn somali_url()      { assert_eq!(wiki_base_url(&Language::Somali),      "https://so.wikipedia.org"); }

#[test] fn swedish_url()     { assert_eq!(wiki_base_url(&Language::Swedish),     "https://sv.wikipedia.org"); }

#[test] fn tagalog_url()     { assert_eq!(wiki_base_url(&Language::Tagalog),     "https://tl.wikipedia.org"); }

#[test] fn uzbek_url()       { assert_eq!(wiki_base_url(&Language::Uzbek),       "https://uz.wikipedia.org"); }

#[test] fn welsh_url()       { assert_eq!(wiki_base_url(&Language::Welsh),       "https://cy.wikipedia.org"); }

#[test] fn yoruba_url()      { assert_eq!(wiki_base_url(&Language::Yoruba),      "https://yo.wikipedia.org"); }

#[test] fn zulu_url()        { assert_eq!(wiki_base_url(&Language::Zulu),        "https://zu.wikipedia.org"); }

fn long_multibyte_extract() -> String {
    // 599 ASCII bytes then Thai chars — byte 600 lands inside a 3-byte Thai char, triggering the panic
    "a".repeat(599) + &"กขคง".repeat(50)
}

fn long_arabic_extract() -> String {
    // 599 ASCII bytes then Arabic chars — byte 600 lands inside a 2-byte Arabic char
    "a".repeat(599) + &"مرحبا بالعالم ".repeat(20)
}

#[test]
fn short_text_returned_unchanged() {
    assert_eq!(truncate_extract(adequate_extract()), adequate_extract());
}

#[test]
fn long_ascii_text_truncated_within_char_limit() {
    let result = truncate_extract(&long_extract());
    assert!(result.chars().count() <= MAX_CHARS);
}

#[test]
fn long_text_not_cut_mid_word() {
    let result = truncate_extract(&long_extract());
    assert!(!result.ends_with(|c: char| c.is_alphanumeric()));
}

#[test]
fn multibyte_thai_text_does_not_panic() {
    let result = truncate_extract(&long_multibyte_extract());
    assert!(result.chars().count() <= MAX_CHARS);
}

#[test]
fn multibyte_thai_text_result_is_valid_utf8() {
    let result = truncate_extract(&long_multibyte_extract());
    assert!(std::str::from_utf8(result.as_bytes()).is_ok());
}

#[test]
fn multibyte_arabic_text_does_not_panic() {
    let result = truncate_extract(&long_arabic_extract());
    assert!(result.chars().count() <= MAX_CHARS);
}

#[test]
fn text_exactly_max_chars_returned_unchanged() {
    let exact = "a".repeat(MAX_CHARS);
    assert_eq!(truncate_extract(&exact).len(), MAX_CHARS);
}

#[test]
fn long_text_preserves_content_up_to_cutoff() {
    let result = truncate_extract(&long_extract());
    assert!(long_extract().starts_with(&result));
}

