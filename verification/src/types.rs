//! The game's modes and its languages: the full list, the pools of each
//! difficulty, each language's label and search aliases, and the search that
//! the guess box offers.
use vstd::prelude::*;
use vstd::relations::sorted_by;

use crate::text::{chars_of, chars_start_with, lex_le, lex_less, lex_lt, lowercase, same_text, to_lowercase};

verus! {

/// How a game is played: the pool its languages come from and how it is scored.
#[derive(Debug, Clone, Copy, PartialEq, Eq, Hash, Structural)]
pub enum GameMode {
    Easy,
    Medium,
    Hard,
    Daily,
}

impl Default for GameMode {
    /// A game is played in Medium unless another mode is asked for.
    fn default() -> (m: GameMode)
        ensures
            m == GameMode::Medium,
    {
        GameMode::Medium
    }
}

/// A language of the game.
#[derive(Debug, Clone, Copy, PartialEq, Eq, Hash, Structural)]
pub enum Language {
    English,
    French,
    Japanese,
    Arabic,
    Russian,
    Spanish,
    Chinese,
    Hindi,
    Bengali,
    Portuguese,
    Indonesian,
    Urdu,
    German,
    Korean,
    Vietnamese,
    Telugu,
    Marathi,
    Tamil,
    Turkish,
    Persian,
    Italian,
    Thai,
    Swahili,
    Polish,
    Ukrainian,
    Dutch,
    Greek,
    Romanian,
    Czech,
    Hungarian,
    Afrikaans,
    Albanian,
    Amharic,
    Armenian,
    Azerbaijani,
    Basque,
    Belarusian,
    Bulgarian,
    Burmese,
    Catalan,
    Croatian,
    Danish,
    Estonian,
    Finnish,
    Galician,
    Georgian,
    Gujarati,
    Hausa,
    Hebrew,
    Icelandic,
    Irish,
    Kannada,
    Kazakh,
    Khmer,
    Latvian,
    Lithuanian,
    Macedonian,
    Malay,
    Malayalam,
    Mongolian,
    Nepali,
    Norwegian,
    Odia,
    Punjabi,
    Serbian,
    Sinhala,
    Slovak,
    Slovenian,
    Somali,
    Swedish,
    Tagalog,
    Uzbek,
    Welsh,
    Yoruba,
    Zulu,
}

/// Every language of the game, in the order the game lists them.
pub open spec fn all_languages() -> Seq<Language> {
    seq![
        Language::English,
        Language::French,
        Language::Japanese,
        Language::Arabic,
        Language::Russian,
        Language::Spanish,
        Language::Chinese,
        Language::Hindi,
        Language::Bengali,
        Language::Portuguese,
        Language::Indonesian,
        Language::Urdu,
        Language::German,
        Language::Korean,
        Language::Vietnamese,
        Language::Telugu,
        Language::Marathi,
        Language::Tamil,
        Language::Turkish,
        Language::Persian,
        Language::Italian,
        Language::Thai,
        Language::Swahili,
        Language::Polish,
        Language::Ukrainian,
        Language::Dutch,
        Language::Greek,
        Language::Romanian,
        Language::Czech,
        Language::Hungarian,
        Language::Afrikaans,
        Language::Albanian,
        Language::Amharic,
        Language::Armenian,
        Language::Azerbaijani,
        Language::Basque,
        Language::Belarusian,
        Language::Bulgarian,
        Language::Burmese,
        Language::Catalan,
        Language::Croatian,
        Language::Danish,
        Language::Estonian,
        Language::Finnish,
        Language::Galician,
        Language::Georgian,
        Language::Gujarati,
        Language::Hausa,
        Language::Hebrew,
        Language::Icelandic,
        Language::Irish,
        Language::Kannada,
        Language::Kazakh,
        Language::Khmer,
        Language::Latvian,
        Language::Lithuanian,
        Language::Macedonian,
        Language::Malay,
        Language::Malayalam,
        Language::Mongolian,
        Language::Nepali,
        Language::Norwegian,
        Language::Odia,
        Language::Punjabi,
        Language::Serbian,
        Language::Sinhala,
        Language::Slovak,
        Language::Slovenian,
        Language::Somali,
        Language::Swedish,
        Language::Tagalog,
        Language::Uzbek,
        Language::Welsh,
        Language::Yoruba,
        Language::Zulu,
    ]
}

/// The languages of Medium games: the first thirty of the full list.
pub open spec fn medium_languages() -> Seq<Language> {
    all_languages().take(30)
}

/// The ten most spoken languages, the pool of Easy games.
pub open spec fn easy_languages() -> Seq<Language> {
    seq![
        Language::English,
        Language::Chinese,
        Language::Hindi,
        Language::Spanish,
        Language::French,
        Language::Arabic,
        Language::Bengali,
        Language::Portuguese,
        Language::Russian,
        Language::Urdu,
    ]
}

/// Whether the sequence is ordered by the languages' labels.
pub open spec fn sorted_by_label(s: Seq<Language>) -> bool {
    forall|i: int, j: int| 0 <= i < j < s.len() ==> lex_le(#[trigger] s[i].spec_label(), #[trigger] s[j].spec_label())
}

/// The order in which suggestions are listed: by label.
pub open spec fn label_le(a: Language, b: Language) -> bool {
    lex_le(a.spec_label(), b.spec_label())
}

impl Language {
    /// The label shown for the language: its English name and its code.
    pub open spec fn spec_label(self) -> Seq<char> {
        match self {
            Language::English => "English (EN)"@,
            Language::French => "French (FR)"@,
            Language::Japanese => "Japanese (JA)"@,
            Language::Arabic => "Arabic (AR)"@,
            Language::Russian => "Russian (RU)"@,
            Language::Spanish => "Spanish (ES)"@,
            Language::Chinese => "Chinese (ZH)"@,
            Language::Hindi => "Hindi (HI)"@,
            Language::Bengali => "Bengali (BN)"@,
            Language::Portuguese => "Portuguese (PT)"@,
            Language::Indonesian => "Indonesian (ID)"@,
            Language::Urdu => "Urdu (UR)"@,
            Language::German => "German (DE)"@,
            Language::Korean => "Korean (KO)"@,
            Language::Vietnamese => "Vietnamese (VI)"@,
            Language::Telugu => "Telugu (TE)"@,
            Language::Marathi => "Marathi (MR)"@,
            Language::Tamil => "Tamil (TA)"@,
            Language::Turkish => "Turkish (TR)"@,
            Language::Persian => "Persian (FA)"@,
            Language::Italian => "Italian (IT)"@,
            Language::Thai => "Thai (TH)"@,
            Language::Swahili => "Swahili (SW)"@,
            Language::Polish => "Polish (PL)"@,
            Language::Ukrainian => "Ukrainian (UK)"@,
            Language::Dutch => "Dutch (NL)"@,
            Language::Greek => "Greek (EL)"@,
            Language::Romanian => "Romanian (RO)"@,
            Language::Czech => "Czech (CS)"@,
            Language::Hungarian => "Hungarian (HU)"@,
            Language::Afrikaans => "Afrikaans (AF)"@,
            Language::Albanian => "Albanian (SQ)"@,
            Language::Amharic => "Amharic (AM)"@,
            Language::Armenian => "Armenian (HY)"@,
            Language::Azerbaijani => "Azerbaijani (AZ)"@,
            Language::Basque => "Basque (EU)"@,
            Language::Belarusian => "Belarusian (BE)"@,
            Language::Bulgarian => "Bulgarian (BG)"@,
            Language::Burmese => "Burmese (MY)"@,
            Language::Catalan => "Catalan (CA)"@,
            Language::Croatian => "Croatian (HR)"@,
            Language::Danish => "Danish (DA)"@,
            Language::Estonian => "Estonian (ET)"@,
            Language::Finnish => "Finnish (FI)"@,
            Language::Galician => "Galician (GL)"@,
            Language::Georgian => "Georgian (KA)"@,
            Language::Gujarati => "Gujarati (GU)"@,
            Language::Hausa => "Hausa (HA)"@,
            Language::Hebrew => "Hebrew (HE)"@,
            Language::Icelandic => "Icelandic (IS)"@,
            Language::Irish => "Irish (GA)"@,
            Language::Kannada => "Kannada (KN)"@,
            Language::Kazakh => "Kazakh (KK)"@,
            Language::Khmer => "Khmer (KM)"@,
            Language::Latvian => "Latvian (LV)"@,
            Language::Lithuanian => "Lithuanian (LT)"@,
            Language::Macedonian => "Macedonian (MK)"@,
            Language::Malay => "Malay (MS)"@,
            Language::Malayalam => "Malayalam (ML)"@,
            Language::Mongolian => "Mongolian (MN)"@,
            Language::Nepali => "Nepali (NE)"@,
            Language::Norwegian => "Norwegian (NO)"@,
            Language::Odia => "Odia (OR)"@,
            Language::Punjabi => "Punjabi (PA)"@,
            Language::Serbian => "Serbian (SR)"@,
            Language::Sinhala => "Sinhala (SI)"@,
            Language::Slovak => "Slovak (SK)"@,
            Language::Slovenian => "Slovenian (SL)"@,
            Language::Somali => "Somali (SO)"@,
            Language::Swedish => "Swedish (SV)"@,
            Language::Tagalog => "Tagalog (TL)"@,
            Language::Uzbek => "Uzbek (UZ)"@,
            Language::Welsh => "Welsh (CY)"@,
            Language::Yoruba => "Yoruba (YO)"@,
            Language::Zulu => "Zulu (ZU)"@,
        }
    }

    /// The words a player may type to find the language: its code, English
    /// name(s) and native name(s), all in lower case.
    pub open spec fn spec_aliases(self) -> Seq<Seq<char>> {
        match self {
            Language::English => seq!["en"@, "english"@],
            Language::French => seq!["fr"@, "french"@, "français"@, "francais"@],
            Language::Japanese => seq!["ja"@, "japanese"@, "日本語"@],
            Language::Arabic => seq!["ar"@, "arabic"@, "العربية"@],
            Language::Russian => seq!["ru"@, "russian"@, "русский"@],
            Language::Spanish => seq!["es"@, "spanish"@, "español"@, "espanol"@],
            Language::Chinese => seq!["zh"@, "chinese"@, "mandarin"@, "中文"@, "普通话"@],
            Language::Hindi => seq!["hi"@, "hindi"@, "हिंदी"@],
            Language::Bengali => seq!["bn"@, "bengali"@, "bangla"@, "বাংলা"@],
            Language::Portuguese => seq!["pt"@, "portuguese"@, "português"@, "portugues"@],
            Language::Indonesian => seq!["id"@, "indonesian"@, "bahasa"@],
            Language::Urdu => seq!["ur"@, "urdu"@, "اردو"@],
            Language::German => seq!["de"@, "german"@, "deutsch"@],
            Language::Korean => seq!["ko"@, "korean"@, "한국어"@],
            Language::Vietnamese => seq!["vi"@, "vietnamese"@],
            Language::Telugu => seq!["te"@, "telugu"@, "తెలుగు"@],
            Language::Marathi => seq!["mr"@, "marathi"@, "मराठी"@],
            Language::Tamil => seq!["ta"@, "tamil"@, "தமிழ்"@],
            Language::Turkish => seq!["tr"@, "turkish"@, "türkçe"@, "turkce"@],
            Language::Persian => seq!["fa"@, "persian"@, "farsi"@, "فارسی"@],
            Language::Italian => seq!["it"@, "italian"@, "italiano"@],
            Language::Thai => seq!["th"@, "thai"@, "ภาษาไทย"@],
            Language::Swahili => seq!["sw"@, "swahili"@, "kiswahili"@],
            Language::Polish => seq!["pl"@, "polish"@, "polski"@],
            Language::Ukrainian => seq!["uk"@, "ukrainian"@, "українська"@],
            Language::Dutch => seq!["nl"@, "dutch"@, "nederlands"@],
            Language::Greek => seq!["el"@, "greek"@, "ελληνικά"@],
            Language::Romanian => seq!["ro"@, "romanian"@, "română"@, "romana"@],
            Language::Czech => seq!["cs"@, "czech"@, "čeština"@, "cestina"@],
            Language::Hungarian => seq!["hu"@, "hungarian"@, "magyar"@],
            Language::Afrikaans => seq!["af"@, "afrikaans"@],
            Language::Albanian => seq!["sq"@, "albanian"@, "shqip"@],
            Language::Amharic => seq!["am"@, "amharic"@, "አማርኛ"@],
            Language::Armenian => seq!["hy"@, "armenian"@, "հայերեն"@],
            Language::Azerbaijani => seq!["az"@, "azerbaijani"@, "azərbaycan"@],
            Language::Basque => seq!["eu"@, "basque"@, "euskera"@],
            Language::Belarusian => seq!["be"@, "belarusian"@, "беларуская"@],
            Language::Bulgarian => seq!["bg"@, "bulgarian"@, "български"@],
            Language::Burmese => seq!["my"@, "burmese"@, "myanmar"@, "မြန်မာဘာသာ"@],
            Language::Catalan => seq!["ca"@, "catalan"@, "català"@],
            Language::Croatian => seq!["hr"@, "croatian"@, "hrvatski"@],
            Language::Danish => seq!["da"@, "danish"@, "dansk"@],
            Language::Estonian => seq!["et"@, "estonian"@, "eesti"@],
            Language::Finnish => seq!["fi"@, "finnish"@, "suomi"@],
            Language::Galician => seq!["gl"@, "galician"@, "galego"@],
            Language::Georgian => seq!["ka"@, "georgian"@, "ქართული"@],
            Language::Gujarati => seq!["gu"@, "gujarati"@, "ગુજરાતી"@],
            Language::Hausa => seq!["ha"@, "hausa"@],
            Language::Hebrew => seq!["he"@, "hebrew"@, "עברית"@],
            Language::Icelandic => seq!["is"@, "icelandic"@, "íslenska"@],
            Language::Irish => seq!["ga"@, "irish"@, "gaeilge"@],
            Language::Kannada => seq!["kn"@, "kannada"@, "ಕನ್ನಡ"@],
            Language::Kazakh => seq!["kk"@, "kazakh"@, "қазақ"@],
            Language::Khmer => seq!["km"@, "khmer"@, "ខ្មែរ"@],
            Language::Latvian => seq!["lv"@, "latvian"@, "latviešu"@],
            Language::Lithuanian => seq!["lt"@, "lithuanian"@, "lietuvių"@],
            Language::Macedonian => seq!["mk"@, "macedonian"@, "македонски"@],
            Language::Malay => seq!["ms"@, "malay"@, "melayu"@],
            Language::Malayalam => seq!["ml"@, "malayalam"@, "മലയാളം"@],
            Language::Mongolian => seq!["mn"@, "mongolian"@, "монгол"@],
            Language::Nepali => seq!["ne"@, "nepali"@, "नेपाली"@],
            Language::Norwegian => seq!["no"@, "norwegian"@, "norsk"@],
            Language::Odia => seq!["or"@, "odia"@, "oriya"@, "ଓଡ଼ିଆ"@],
            Language::Punjabi => seq!["pa"@, "punjabi"@, "ਪੰਜਾਬੀ"@],
            Language::Serbian => seq!["sr"@, "serbian"@, "српски"@],
            Language::Sinhala => seq!["si"@, "sinhala"@, "sinhalese"@, "සිංහල"@],
            Language::Slovak => seq!["sk"@, "slovak"@, "slovenčina"@],
            Language::Slovenian => seq!["sl"@, "slovenian"@, "slovenščina"@],
            Language::Somali => seq!["so"@, "somali"@, "soomaali"@],
            Language::Swedish => seq!["sv"@, "swedish"@, "svenska"@],
            Language::Tagalog => seq!["tl"@, "tagalog"@, "filipino"@],
            Language::Uzbek => seq!["uz"@, "uzbek"@],
            Language::Welsh => seq!["cy"@, "welsh"@, "cymraeg"@],
            Language::Yoruba => seq!["yo"@, "yoruba"@],
            Language::Zulu => seq!["zu"@, "zulu"@],
        }
    }

    /// The name by which the language is written in data and messages.
    pub open spec fn spec_name(self) -> Seq<char> {
        match self {
            Language::English => "English"@,
            Language::French => "French"@,
            Language::Japanese => "Japanese"@,
            Language::Arabic => "Arabic"@,
            Language::Russian => "Russian"@,
            Language::Spanish => "Spanish"@,
            Language::Chinese => "Chinese"@,
            Language::Hindi => "Hindi"@,
            Language::Bengali => "Bengali"@,
            Language::Portuguese => "Portuguese"@,
            Language::Indonesian => "Indonesian"@,
            Language::Urdu => "Urdu"@,
            Language::German => "German"@,
            Language::Korean => "Korean"@,
            Language::Vietnamese => "Vietnamese"@,
            Language::Telugu => "Telugu"@,
            Language::Marathi => "Marathi"@,
            Language::Tamil => "Tamil"@,
            Language::Turkish => "Turkish"@,
            Language::Persian => "Persian"@,
            Language::Italian => "Italian"@,
            Language::Thai => "Thai"@,
            Language::Swahili => "Swahili"@,
            Language::Polish => "Polish"@,
            Language::Ukrainian => "Ukrainian"@,
            Language::Dutch => "Dutch"@,
            Language::Greek => "Greek"@,
            Language::Romanian => "Romanian"@,
            Language::Czech => "Czech"@,
            Language::Hungarian => "Hungarian"@,
            Language::Afrikaans => "Afrikaans"@,
            Language::Albanian => "Albanian"@,
            Language::Amharic => "Amharic"@,
            Language::Armenian => "Armenian"@,
            Language::Azerbaijani => "Azerbaijani"@,
            Language::Basque => "Basque"@,
            Language::Belarusian => "Belarusian"@,
            Language::Bulgarian => "Bulgarian"@,
            Language::Burmese => "Burmese"@,
            Language::Catalan => "Catalan"@,
            Language::Croatian => "Croatian"@,
            Language::Danish => "Danish"@,
            Language::Estonian => "Estonian"@,
            Language::Finnish => "Finnish"@,
            Language::Galician => "Galician"@,
            Language::Georgian => "Georgian"@,
            Language::Gujarati => "Gujarati"@,
            Language::Hausa => "Hausa"@,
            Language::Hebrew => "Hebrew"@,
            Language::Icelandic => "Icelandic"@,
            Language::Irish => "Irish"@,
            Language::Kannada => "Kannada"@,
            Language::Kazakh => "Kazakh"@,
            Language::Khmer => "Khmer"@,
            Language::Latvian => "Latvian"@,
            Language::Lithuanian => "Lithuanian"@,
            Language::Macedonian => "Macedonian"@,
            Language::Malay => "Malay"@,
            Language::Malayalam => "Malayalam"@,
            Language::Mongolian => "Mongolian"@,
            Language::Nepali => "Nepali"@,
            Language::Norwegian => "Norwegian"@,
            Language::Odia => "Odia"@,
            Language::Punjabi => "Punjabi"@,
            Language::Serbian => "Serbian"@,
            Language::Sinhala => "Sinhala"@,
            Language::Slovak => "Slovak"@,
            Language::Slovenian => "Slovenian"@,
            Language::Somali => "Somali"@,
            Language::Swedish => "Swedish"@,
            Language::Tagalog => "Tagalog"@,
            Language::Uzbek => "Uzbek"@,
            Language::Welsh => "Welsh"@,
            Language::Yoruba => "Yoruba"@,
            Language::Zulu => "Zulu"@,
        }
    }

    /// Whether a lowered query finds the language: an empty query finds every
    /// language, any other one finds it when it begins one of its aliases.
    pub open spec fn matches_query(self, query_lower: Seq<char>) -> bool {
        query_lower.len() == 0 || exists|i: int|
            0 <= i < self.spec_aliases().len() && query_lower.is_prefix_of(#[trigger] self.spec_aliases()[i])
    }

    /// Every language of the game.
    pub fn all() -> (r: &'static [Language])
        ensures
            r@ == all_languages(),
    {
        &[
            Language::English,
            Language::French,
            Language::Japanese,
            Language::Arabic,
            Language::Russian,
            Language::Spanish,
            Language::Chinese,
            Language::Hindi,
            Language::Bengali,
            Language::Portuguese,
            Language::Indonesian,
            Language::Urdu,
            Language::German,
            Language::Korean,
            Language::Vietnamese,
            Language::Telugu,
            Language::Marathi,
            Language::Tamil,
            Language::Turkish,
            Language::Persian,
            Language::Italian,
            Language::Thai,
            Language::Swahili,
            Language::Polish,
            Language::Ukrainian,
            Language::Dutch,
            Language::Greek,
            Language::Romanian,
            Language::Czech,
            Language::Hungarian,
            Language::Afrikaans,
            Language::Albanian,
            Language::Amharic,
            Language::Armenian,
            Language::Azerbaijani,
            Language::Basque,
            Language::Belarusian,
            Language::Bulgarian,
            Language::Burmese,
            Language::Catalan,
            Language::Croatian,
            Language::Danish,
            Language::Estonian,
            Language::Finnish,
            Language::Galician,
            Language::Georgian,
            Language::Gujarati,
            Language::Hausa,
            Language::Hebrew,
            Language::Icelandic,
            Language::Irish,
            Language::Kannada,
            Language::Kazakh,
            Language::Khmer,
            Language::Latvian,
            Language::Lithuanian,
            Language::Macedonian,
            Language::Malay,
            Language::Malayalam,
            Language::Mongolian,
            Language::Nepali,
            Language::Norwegian,
            Language::Odia,
            Language::Punjabi,
            Language::Serbian,
            Language::Sinhala,
            Language::Slovak,
            Language::Slovenian,
            Language::Somali,
            Language::Swedish,
            Language::Tagalog,
            Language::Uzbek,
            Language::Welsh,
            Language::Yoruba,
            Language::Zulu,
        ]
    }

    fn aliases(&self) -> (r: &'static [&'static str])
        ensures
            r@.len() == self.spec_aliases().len(),
            forall|i: int| 0 <= i < r@.len() ==> (#[trigger] r@[i])@ == self.spec_aliases()[i],
    {
        match self {
            Language::English => &["en", "english"],
            Language::French => &["fr", "french", "français", "francais"],
            Language::Japanese => &["ja", "japanese", "日本語"],
            Language::Arabic => &["ar", "arabic", "العربية"],
            Language::Russian => &["ru", "russian", "русский"],
            Language::Spanish => &["es", "spanish", "español", "espanol"],
            Language::Chinese => &["zh", "chinese", "mandarin", "中文", "普通话"],
            Language::Hindi => &["hi", "hindi", "हिंदी"],
            Language::Bengali => &["bn", "bengali", "bangla", "বাংলা"],
            Language::Portuguese => &["pt", "portuguese", "português", "portugues"],
            Language::Indonesian => &["id", "indonesian", "bahasa"],
            Language::Urdu => &["ur", "urdu", "اردو"],
            Language::German => &["de", "german", "deutsch"],
            Language::Korean => &["ko", "korean", "한국어"],
            Language::Vietnamese => &["vi", "vietnamese"],
            Language::Telugu => &["te", "telugu", "తెలుగు"],
            Language::Marathi => &["mr", "marathi", "मराठी"],
            Language::Tamil => &["ta", "tamil", "தமிழ்"],
            Language::Turkish => &["tr", "turkish", "türkçe", "turkce"],
            Language::Persian => &["fa", "persian", "farsi", "فارسی"],
            Language::Italian => &["it", "italian", "italiano"],
            Language::Thai => &["th", "thai", "ภาษาไทย"],
            Language::Swahili => &["sw", "swahili", "kiswahili"],
            Language::Polish => &["pl", "polish", "polski"],
            Language::Ukrainian => &["uk", "ukrainian", "українська"],
            Language::Dutch => &["nl", "dutch", "nederlands"],
            Language::Greek => &["el", "greek", "ελληνικά"],
            Language::Romanian => &["ro", "romanian", "română", "romana"],
            Language::Czech => &["cs", "czech", "čeština", "cestina"],
            Language::Hungarian => &["hu", "hungarian", "magyar"],
            Language::Afrikaans => &["af", "afrikaans"],
            Language::Albanian => &["sq", "albanian", "shqip"],
            Language::Amharic => &["am", "amharic", "አማርኛ"],
            Language::Armenian => &["hy", "armenian", "հայերեն"],
            Language::Azerbaijani => &["az", "azerbaijani", "azərbaycan"],
            Language::Basque => &["eu", "basque", "euskera"],
            Language::Belarusian => &["be", "belarusian", "беларуская"],
            Language::Bulgarian => &["bg", "bulgarian", "български"],
            Language::Burmese => &["my", "burmese", "myanmar", "မြန်မာဘာသာ"],
            Language::Catalan => &["ca", "catalan", "català"],
            Language::Croatian => &["hr", "croatian", "hrvatski"],
            Language::Danish => &["da", "danish", "dansk"],
            Language::Estonian => &["et", "estonian", "eesti"],
            Language::Finnish => &["fi", "finnish", "suomi"],
            Language::Galician => &["gl", "galician", "galego"],
            Language::Georgian => &["ka", "georgian", "ქართული"],
            Language::Gujarati => &["gu", "gujarati", "ગુજરાતી"],
            Language::Hausa => &["ha", "hausa"],
            Language::Hebrew => &["he", "hebrew", "עברית"],
            Language::Icelandic => &["is", "icelandic", "íslenska"],
            Language::Irish => &["ga", "irish", "gaeilge"],
            Language::Kannada => &["kn", "kannada", "ಕನ್ನಡ"],
            Language::Kazakh => &["kk", "kazakh", "қазақ"],
            Language::Khmer => &["km", "khmer", "ខ្មែរ"],
            Language::Latvian => &["lv", "latvian", "latviešu"],
            Language::Lithuanian => &["lt", "lithuanian", "lietuvių"],
            Language::Macedonian => &["mk", "macedonian", "македонски"],
            Language::Malay => &["ms", "malay", "melayu"],
            Language::Malayalam => &["ml", "malayalam", "മലയാളം"],
            Language::Mongolian => &["mn", "mongolian", "монгол"],
            Language::Nepali => &["ne", "nepali", "नेपाली"],
            Language::Norwegian => &["no", "norwegian", "norsk"],
            Language::Odia => &["or", "odia", "oriya", "ଓଡ଼ିଆ"],
            Language::Punjabi => &["pa", "punjabi", "ਪੰਜਾਬੀ"],
            Language::Serbian => &["sr", "serbian", "српски"],
            Language::Sinhala => &["si", "sinhala", "sinhalese", "සිංහල"],
            Language::Slovak => &["sk", "slovak", "slovenčina"],
            Language::Slovenian => &["sl", "slovenian", "slovenščina"],
            Language::Somali => &["so", "somali", "soomaali"],
            Language::Swedish => &["sv", "swedish", "svenska"],
            Language::Tagalog => &["tl", "tagalog", "filipino"],
            Language::Uzbek => &["uz", "uzbek"],
            Language::Welsh => &["cy", "welsh", "cymraeg"],
            Language::Yoruba => &["yo", "yoruba"],
            Language::Zulu => &["zu", "zulu"],
        }
    }

    /// The label shown for the language.
    pub fn label(&self) -> (r: &'static str)
        ensures
            r@ == self.spec_label(),
    {
        match self {
            Language::English => "English (EN)",
            Language::French => "French (FR)",
            Language::Japanese => "Japanese (JA)",
            Language::Arabic => "Arabic (AR)",
            Language::Russian => "Russian (RU)",
            Language::Spanish => "Spanish (ES)",
            Language::Chinese => "Chinese (ZH)",
            Language::Hindi => "Hindi (HI)",
            Language::Bengali => "Bengali (BN)",
            Language::Portuguese => "Portuguese (PT)",
            Language::Indonesian => "Indonesian (ID)",
            Language::Urdu => "Urdu (UR)",
            Language::German => "German (DE)",
            Language::Korean => "Korean (KO)",
            Language::Vietnamese => "Vietnamese (VI)",
            Language::Telugu => "Telugu (TE)",
            Language::Marathi => "Marathi (MR)",
            Language::Tamil => "Tamil (TA)",
            Language::Turkish => "Turkish (TR)",
            Language::Persian => "Persian (FA)",
            Language::Italian => "Italian (IT)",
            Language::Thai => "Thai (TH)",
            Language::Swahili => "Swahili (SW)",
            Language::Polish => "Polish (PL)",
            Language::Ukrainian => "Ukrainian (UK)",
            Language::Dutch => "Dutch (NL)",
            Language::Greek => "Greek (EL)",
            Language::Romanian => "Romanian (RO)",
            Language::Czech => "Czech (CS)",
            Language::Hungarian => "Hungarian (HU)",
            Language::Afrikaans => "Afrikaans (AF)",
            Language::Albanian => "Albanian (SQ)",
            Language::Amharic => "Amharic (AM)",
            Language::Armenian => "Armenian (HY)",
            Language::Azerbaijani => "Azerbaijani (AZ)",
            Language::Basque => "Basque (EU)",
            Language::Belarusian => "Belarusian (BE)",
            Language::Bulgarian => "Bulgarian (BG)",
            Language::Burmese => "Burmese (MY)",
            Language::Catalan => "Catalan (CA)",
            Language::Croatian => "Croatian (HR)",
            Language::Danish => "Danish (DA)",
            Language::Estonian => "Estonian (ET)",
            Language::Finnish => "Finnish (FI)",
            Language::Galician => "Galician (GL)",
            Language::Georgian => "Georgian (KA)",
            Language::Gujarati => "Gujarati (GU)",
            Language::Hausa => "Hausa (HA)",
            Language::Hebrew => "Hebrew (HE)",
            Language::Icelandic => "Icelandic (IS)",
            Language::Irish => "Irish (GA)",
            Language::Kannada => "Kannada (KN)",
            Language::Kazakh => "Kazakh (KK)",
            Language::Khmer => "Khmer (KM)",
            Language::Latvian => "Latvian (LV)",
            Language::Lithuanian => "Lithuanian (LT)",
            Language::Macedonian => "Macedonian (MK)",
            Language::Malay => "Malay (MS)",
            Language::Malayalam => "Malayalam (ML)",
            Language::Mongolian => "Mongolian (MN)",
            Language::Nepali => "Nepali (NE)",
            Language::Norwegian => "Norwegian (NO)",
            Language::Odia => "Odia (OR)",
            Language::Punjabi => "Punjabi (PA)",
            Language::Serbian => "Serbian (SR)",
            Language::Sinhala => "Sinhala (SI)",
            Language::Slovak => "Slovak (SK)",
            Language::Slovenian => "Slovenian (SL)",
            Language::Somali => "Somali (SO)",
            Language::Swedish => "Swedish (SV)",
            Language::Tagalog => "Tagalog (TL)",
            Language::Uzbek => "Uzbek (UZ)",
            Language::Welsh => "Welsh (CY)",
            Language::Yoruba => "Yoruba (YO)",
            Language::Zulu => "Zulu (ZU)",
        }
    }

    /// The name of the language in data and messages (its variant's name).
    pub fn name(&self) -> (r: &'static str)
        ensures
            r@ == self.spec_name(),
    {
        match self {
            Language::English => "English",
            Language::French => "French",
            Language::Japanese => "Japanese",
            Language::Arabic => "Arabic",
            Language::Russian => "Russian",
            Language::Spanish => "Spanish",
            Language::Chinese => "Chinese",
            Language::Hindi => "Hindi",
            Language::Bengali => "Bengali",
            Language::Portuguese => "Portuguese",
            Language::Indonesian => "Indonesian",
            Language::Urdu => "Urdu",
            Language::German => "German",
            Language::Korean => "Korean",
            Language::Vietnamese => "Vietnamese",
            Language::Telugu => "Telugu",
            Language::Marathi => "Marathi",
            Language::Tamil => "Tamil",
            Language::Turkish => "Turkish",
            Language::Persian => "Persian",
            Language::Italian => "Italian",
            Language::Thai => "Thai",
            Language::Swahili => "Swahili",
            Language::Polish => "Polish",
            Language::Ukrainian => "Ukrainian",
            Language::Dutch => "Dutch",
            Language::Greek => "Greek",
            Language::Romanian => "Romanian",
            Language::Czech => "Czech",
            Language::Hungarian => "Hungarian",
            Language::Afrikaans => "Afrikaans",
            Language::Albanian => "Albanian",
            Language::Amharic => "Amharic",
            Language::Armenian => "Armenian",
            Language::Azerbaijani => "Azerbaijani",
            Language::Basque => "Basque",
            Language::Belarusian => "Belarusian",
            Language::Bulgarian => "Bulgarian",
            Language::Burmese => "Burmese",
            Language::Catalan => "Catalan",
            Language::Croatian => "Croatian",
            Language::Danish => "Danish",
            Language::Estonian => "Estonian",
            Language::Finnish => "Finnish",
            Language::Galician => "Galician",
            Language::Georgian => "Georgian",
            Language::Gujarati => "Gujarati",
            Language::Hausa => "Hausa",
            Language::Hebrew => "Hebrew",
            Language::Icelandic => "Icelandic",
            Language::Irish => "Irish",
            Language::Kannada => "Kannada",
            Language::Kazakh => "Kazakh",
            Language::Khmer => "Khmer",
            Language::Latvian => "Latvian",
            Language::Lithuanian => "Lithuanian",
            Language::Macedonian => "Macedonian",
            Language::Malay => "Malay",
            Language::Malayalam => "Malayalam",
            Language::Mongolian => "Mongolian",
            Language::Nepali => "Nepali",
            Language::Norwegian => "Norwegian",
            Language::Odia => "Odia",
            Language::Punjabi => "Punjabi",
            Language::Serbian => "Serbian",
            Language::Sinhala => "Sinhala",
            Language::Slovak => "Slovak",
            Language::Slovenian => "Slovenian",
            Language::Somali => "Somali",
            Language::Swedish => "Swedish",
            Language::Tagalog => "Tagalog",
            Language::Uzbek => "Uzbek",
            Language::Welsh => "Welsh",
            Language::Yoruba => "Yoruba",
            Language::Zulu => "Zulu",
        }
    }

    /// The thirty languages of Medium games.
    pub fn medium_pool() -> (r: &'static [Language])
        ensures
            r@ == medium_languages(),
    {
        let r: &'static [Language] = &[
            Language::English,
            Language::French,
            Language::Japanese,
            Language::Arabic,
            Language::Russian,
            Language::Spanish,
            Language::Chinese,
            Language::Hindi,
            Language::Bengali,
            Language::Portuguese,
            Language::Indonesian,
            Language::Urdu,
            Language::German,
            Language::Korean,
            Language::Vietnamese,
            Language::Telugu,
            Language::Marathi,
            Language::Tamil,
            Language::Turkish,
            Language::Persian,
            Language::Italian,
            Language::Thai,
            Language::Swahili,
            Language::Polish,
            Language::Ukrainian,
            Language::Dutch,
            Language::Greek,
            Language::Romanian,
            Language::Czech,
            Language::Hungarian,
        ];
        assert(r@ =~= medium_languages());
        r
    }

    /// The ten languages of Easy games.
    pub fn easy_pool() -> (r: &'static [Language])
        ensures
            r@ == easy_languages(),
    {
        &[
            Language::English,
            Language::Chinese,
            Language::Hindi,
            Language::Spanish,
            Language::French,
            Language::Arabic,
            Language::Bengali,
            Language::Portuguese,
            Language::Russian,
            Language::Urdu,
        ]
    }

    /// The position of the language in the full list.
    pub open spec fn index(self) -> int {
        match self {
            Language::English => 0,
            Language::French => 1,
            Language::Japanese => 2,
            Language::Arabic => 3,
            Language::Russian => 4,
            Language::Spanish => 5,
            Language::Chinese => 6,
            Language::Hindi => 7,
            Language::Bengali => 8,
            Language::Portuguese => 9,
            Language::Indonesian => 10,
            Language::Urdu => 11,
            Language::German => 12,
            Language::Korean => 13,
            Language::Vietnamese => 14,
            Language::Telugu => 15,
            Language::Marathi => 16,
            Language::Tamil => 17,
            Language::Turkish => 18,
            Language::Persian => 19,
            Language::Italian => 20,
            Language::Thai => 21,
            Language::Swahili => 22,
            Language::Polish => 23,
            Language::Ukrainian => 24,
            Language::Dutch => 25,
            Language::Greek => 26,
            Language::Romanian => 27,
            Language::Czech => 28,
            Language::Hungarian => 29,
            Language::Afrikaans => 30,
            Language::Albanian => 31,
            Language::Amharic => 32,
            Language::Armenian => 33,
            Language::Azerbaijani => 34,
            Language::Basque => 35,
            Language::Belarusian => 36,
            Language::Bulgarian => 37,
            Language::Burmese => 38,
            Language::Catalan => 39,
            Language::Croatian => 40,
            Language::Danish => 41,
            Language::Estonian => 42,
            Language::Finnish => 43,
            Language::Galician => 44,
            Language::Georgian => 45,
            Language::Gujarati => 46,
            Language::Hausa => 47,
            Language::Hebrew => 48,
            Language::Icelandic => 49,
            Language::Irish => 50,
            Language::Kannada => 51,
            Language::Kazakh => 52,
            Language::Khmer => 53,
            Language::Latvian => 54,
            Language::Lithuanian => 55,
            Language::Macedonian => 56,
            Language::Malay => 57,
            Language::Malayalam => 58,
            Language::Mongolian => 59,
            Language::Nepali => 60,
            Language::Norwegian => 61,
            Language::Odia => 62,
            Language::Punjabi => 63,
            Language::Serbian => 64,
            Language::Sinhala => 65,
            Language::Slovak => 66,
            Language::Slovenian => 67,
            Language::Somali => 68,
            Language::Swedish => 69,
            Language::Tagalog => 70,
            Language::Uzbek => 71,
            Language::Welsh => 72,
            Language::Yoruba => 73,
            Language::Zulu => 74,
        }
    }
}

/// Every language stands in the full list at its own position.
pub proof fn lemma_all_languages_index(l: Language)
    ensures
        0 <= l.index() < all_languages().len(),
        all_languages()[l.index()] == l,
{
    match l {
        Language::English => { assert(all_languages()[0] == l); },
        Language::French => { assert(all_languages()[1] == l); },
        Language::Japanese => { assert(all_languages()[2] == l); },
        Language::Arabic => { assert(all_languages()[3] == l); },
        Language::Russian => { assert(all_languages()[4] == l); },
        Language::Spanish => { assert(all_languages()[5] == l); },
        Language::Chinese => { assert(all_languages()[6] == l); },
        Language::Hindi => { assert(all_languages()[7] == l); },
        Language::Bengali => { assert(all_languages()[8] == l); },
        Language::Portuguese => { assert(all_languages()[9] == l); },
        Language::Indonesian => { assert(all_languages()[10] == l); },
        Language::Urdu => { assert(all_languages()[11] == l); },
        Language::German => { assert(all_languages()[12] == l); },
        Language::Korean => { assert(all_languages()[13] == l); },
        Language::Vietnamese => { assert(all_languages()[14] == l); },
        Language::Telugu => { assert(all_languages()[15] == l); },
        Language::Marathi => { assert(all_languages()[16] == l); },
        Language::Tamil => { assert(all_languages()[17] == l); },
        Language::Turkish => { assert(all_languages()[18] == l); },
        Language::Persian => { assert(all_languages()[19] == l); },
        Language::Italian => { assert(all_languages()[20] == l); },
        Language::Thai => { assert(all_languages()[21] == l); },
        Language::Swahili => { assert(all_languages()[22] == l); },
        Language::Polish => { assert(all_languages()[23] == l); },
        Language::Ukrainian => { assert(all_languages()[24] == l); },
        Language::Dutch => { assert(all_languages()[25] == l); },
        Language::Greek => { assert(all_languages()[26] == l); },
        Language::Romanian => { assert(all_languages()[27] == l); },
        Language::Czech => { assert(all_languages()[28] == l); },
        Language::Hungarian => { assert(all_languages()[29] == l); },
        Language::Afrikaans => { assert(all_languages()[30] == l); },
        Language::Albanian => { assert(all_languages()[31] == l); },
        Language::Amharic => { assert(all_languages()[32] == l); },
        Language::Armenian => { assert(all_languages()[33] == l); },
        Language::Azerbaijani => { assert(all_languages()[34] == l); },
        Language::Basque => { assert(all_languages()[35] == l); },
        Language::Belarusian => { assert(all_languages()[36] == l); },
        Language::Bulgarian => { assert(all_languages()[37] == l); },
        Language::Burmese => { assert(all_languages()[38] == l); },
        Language::Catalan => { assert(all_languages()[39] == l); },
        Language::Croatian => { assert(all_languages()[40] == l); },
        Language::Danish => { assert(all_languages()[41] == l); },
        Language::Estonian => { assert(all_languages()[42] == l); },
        Language::Finnish => { assert(all_languages()[43] == l); },
        Language::Galician => { assert(all_languages()[44] == l); },
        Language::Georgian => { assert(all_languages()[45] == l); },
        Language::Gujarati => { assert(all_languages()[46] == l); },
        Language::Hausa => { assert(all_languages()[47] == l); },
        Language::Hebrew => { assert(all_languages()[48] == l); },
        Language::Icelandic => { assert(all_languages()[49] == l); },
        Language::Irish => { assert(all_languages()[50] == l); },
        Language::Kannada => { assert(all_languages()[51] == l); },
        Language::Kazakh => { assert(all_languages()[52] == l); },
        Language::Khmer => { assert(all_languages()[53] == l); },
        Language::Latvian => { assert(all_languages()[54] == l); },
        Language::Lithuanian => { assert(all_languages()[55] == l); },
        Language::Macedonian => { assert(all_languages()[56] == l); },
        Language::Malay => { assert(all_languages()[57] == l); },
        Language::Malayalam => { assert(all_languages()[58] == l); },
        Language::Mongolian => { assert(all_languages()[59] == l); },
        Language::Nepali => { assert(all_languages()[60] == l); },
        Language::Norwegian => { assert(all_languages()[61] == l); },
        Language::Odia => { assert(all_languages()[62] == l); },
        Language::Punjabi => { assert(all_languages()[63] == l); },
        Language::Serbian => { assert(all_languages()[64] == l); },
        Language::Sinhala => { assert(all_languages()[65] == l); },
        Language::Slovak => { assert(all_languages()[66] == l); },
        Language::Slovenian => { assert(all_languages()[67] == l); },
        Language::Somali => { assert(all_languages()[68] == l); },
        Language::Swedish => { assert(all_languages()[69] == l); },
        Language::Tagalog => { assert(all_languages()[70] == l); },
        Language::Uzbek => { assert(all_languages()[71] == l); },
        Language::Welsh => { assert(all_languages()[72] == l); },
        Language::Yoruba => { assert(all_languages()[73] == l); },
        Language::Zulu => { assert(all_languages()[74] == l); },
    }
}

impl Language {
    /// The language whose name is `name`, if any.
    pub fn from_name(name: &str) -> (r: Option<Language>)
        ensures
            match r {
                Some(l) => first_named(l, name@),
                None => forall|l: Language| #[trigger] l.spec_name() != name@,
            },
    {
        let all = Language::all();
        proof {
            lemma_all_languages_positions();
        }
        for i in 0..all.len()
            invariant
                all@ == all_languages(),
                forall|k: int| 0 <= k < i ==> (#[trigger] all@[k]).spec_name() != name@,
                forall|k: int| 0 <= k < all_languages().len() ==> (#[trigger] all_languages()[k]).index() == k,
        {
            let l = all[i];
            if same_text(l.name(), name) {
                proof {
                    assert forall|m: Language| #[trigger] m.index() < l.index() implies m.spec_name() != name@ by {
                        lemma_all_languages_index(m);
                    }
                }
                return Some(l);
            }
        }
        proof {
            assert forall|l: Language| #[trigger] l.spec_name() != name@ by {
                lemma_all_languages_index(l);
            }
        }
        None
    }

    /// Whether the lowered query finds this language.
    fn matches(&self, query_lower: &Vec<char>) -> (r: bool)
        ensures
            r == self.matches_query(query_lower@),
    {
        if query_lower.len() == 0 {
            return true;
        }
        let aliases = self.aliases();
        for i in 0..aliases.len()
            invariant
                aliases@.len() == self.spec_aliases().len(),
                forall|k: int| 0 <= k < aliases@.len() ==> (#[trigger] aliases@[k])@ == self.spec_aliases()[k],
                forall|k: int| 0 <= k < i ==> !query_lower@.is_prefix_of(#[trigger] self.spec_aliases()[k]),
        {
            let alias = chars_of(aliases[i]);
            if chars_start_with(&alias, query_lower) {
                return true;
            }
        }
        false
    }

    /// The languages of `pool` that the already lowered `query_lower` finds,
    /// ordered by label; a language that `pool` holds twice comes twice.
    pub fn suggestions_for_lowered(query_lower: &str, pool: &[Language]) -> (r: Vec<Language>)
        ensures
            r@.to_multiset() == pool@.filter(|l: Language| l.matches_query(query_lower@)).to_multiset(),
            sorted_by_label(r@),
    {
        let q = chars_of(query_lower);
        let ghost pred = |l: Language| l.matches_query(query_lower@);
        let mut results: Vec<Language> = Vec::new();
        proof {
            reveal(Seq::filter);
            assert(pool@.take(0).filter(pred) =~= Seq::<Language>::empty());
        }
        for k in 0..pool.len()
            invariant
                q@ == query_lower@,
                pred == (|l: Language| l.matches_query(query_lower@)),
                results@.to_multiset() == pool@.take(k as int).filter(pred).to_multiset(),
                sorted_by_label(results@),
        {
            let x = pool[k];
            proof {
                pool@.lemma_take_succ_push(k as int);
                pool@.take(k as int).lemma_filter_push(x, pred);
            }
            if x.matches(&q) {
                let p = insertion_point(&results, x);
                let ghost before = results@;
                results.insert(p, x);
                proof {
                    vstd::seq_lib::to_multiset_build(pool@.take(k as int).filter(pred), x);
                    vstd::seq_lib::to_multiset_insert(before, p as int, x);
                    lemma_insert_keeps_sorted(before, p as int, x);
                }
            }
        }
        assert(pool@.take(pool.len() as int) =~= pool@);
        results
    }

    /// The languages of `pool` that `query` finds, ordered by label. The query is
    /// lowered first; an empty query finds the whole pool, any other one the
    /// languages with an alias that it begins.
    pub fn suggestions_for(query: &str, pool: &[Language]) -> (r: Vec<Language>)
        ensures
            r@.to_multiset() == pool@.filter(|l: Language| l.matches_query(lowercase(query@))).to_multiset(),
            sorted_by_label(r@),
            query@.len() == 0 ==> r@.to_multiset() == pool@.to_multiset(),
    {
        let query_lower = to_lowercase(query);
        let r = Self::suggestions_for_lowered(query_lower.as_str(), pool);
        proof {
            if query@.len() == 0 {
                assert(lowercase(query@) =~= Seq::<char>::empty());
                law_empty_query_finds_all(pool@);
                assert(pool@.filter(|l: Language| l.matches_query(lowercase(query@))) == pool@.filter(
                    |l: Language| l.matches_query(Seq::<char>::empty()),
                ));
            }
        }
        r
    }

    /// The languages of the whole game that `query` finds, ordered by label.
    pub fn suggestions(query: &str) -> (r: Vec<Language>)
        ensures
            r@.to_multiset() == all_languages().filter(|l: Language| l.matches_query(lowercase(query@))).to_multiset(),
            sorted_by_label(r@),
            query@.len() == 0 ==> r@.to_multiset() == all_languages().to_multiset(),
    {
        Self::suggestions_for(query, Self::all())
    }
}

/// Where `x` goes in `sorted` so that it stays ordered by label, after any
/// language with the same label.
fn insertion_point(sorted: &Vec<Language>, x: Language) -> (p: usize)
    requires
        sorted_by_label(sorted@),
    ensures
        p <= sorted@.len(),
        forall|i: int| 0 <= i < p ==> lex_le((#[trigger] sorted@[i]).spec_label(), x.spec_label()),
        p < sorted@.len() ==> lex_lt(x.spec_label(), sorted@[p as int].spec_label()),
{
    let label = x.label();
    for i in 0..sorted.len()
        invariant
            label@ == x.spec_label(),
            forall|k: int| 0 <= k < i ==> lex_le((#[trigger] sorted@[k]).spec_label(), x.spec_label()),
    {
        if lex_less(label, sorted[i].label()) {
            return i;
        }
    }
    sorted.len()
}

/// Inserting `x` at an insertion point keeps a sequence ordered by label.
proof fn lemma_insert_keeps_sorted(s: Seq<Language>, p: int, x: Language)
    requires
        sorted_by_label(s),
        0 <= p <= s.len(),
        forall|i: int| 0 <= i < p ==> lex_le((#[trigger] s[i]).spec_label(), x.spec_label()),
        p < s.len() ==> lex_lt(x.spec_label(), s[p].spec_label()),
    ensures
        sorted_by_label(s.insert(p, x)),
{
    let n = s.insert(p, x);
    assert forall|i: int, j: int| 0 <= i < j < n.len() implies lex_le(#[trigger] n[i].spec_label(), #[trigger] n[j].spec_label()) by {
        if j > p {
            assert(n[j] == s[j - 1]);
            if p < s.len() {
                // x comes before s[p], which comes no later than s[j - 1]
                if p == j - 1 {
                    crate::text::lemma_lex_irreflexive(s[p].spec_label());
                } else {
                    assert(lex_le(s[p].spec_label(), s[j - 1].spec_label()));
                }
                crate::text::lemma_lex_lt_le(x.spec_label(), s[p].spec_label(), s[j - 1].spec_label());
                crate::text::lemma_lex_asymmetric(x.spec_label(), s[j - 1].spec_label());
            }
            if i < p {
                assert(n[i] == s[i]);
            } else if i > p {
                assert(n[i] == s[i - 1]);
            }
        } else if j == p {
            assert(n[i] == s[i]);
        } else {
            assert(n[i] == s[i]);
            assert(n[j] == s[j]);
        }
    }
}

/// Whether `l` is the first language of the full list named `n`.
pub open spec fn first_named(l: Language, n: Seq<char>) -> bool {
    l.spec_name() == n && forall|m: Language| #[trigger] m.index() < l.index() ==> m.spec_name() != n
}

/// One name has only one first language.
pub proof fn lemma_first_named_unique(l1: Language, l2: Language, n: Seq<char>)
    requires
        first_named(l1, n),
        first_named(l2, n),
    ensures
        l1 == l2,
{
    lemma_all_languages_index(l1);
    lemma_all_languages_index(l2);
}

/// Every index of the full list holds the language of that index.
pub proof fn lemma_all_languages_positions()
    ensures
        forall|i: int| 0 <= i < all_languages().len() ==> (#[trigger] all_languages()[i]).index() == i,
{
    assert(all_languages().len() == 75);
    assert(all_languages()[0].index() == 0);
    assert(all_languages()[1].index() == 1);
    assert(all_languages()[2].index() == 2);
    assert(all_languages()[3].index() == 3);
    assert(all_languages()[4].index() == 4);
    assert(all_languages()[5].index() == 5);
    assert(all_languages()[6].index() == 6);
    assert(all_languages()[7].index() == 7);
    assert(all_languages()[8].index() == 8);
    assert(all_languages()[9].index() == 9);
    assert(all_languages()[10].index() == 10);
    assert(all_languages()[11].index() == 11);
    assert(all_languages()[12].index() == 12);
    assert(all_languages()[13].index() == 13);
    assert(all_languages()[14].index() == 14);
    assert(all_languages()[15].index() == 15);
    assert(all_languages()[16].index() == 16);
    assert(all_languages()[17].index() == 17);
    assert(all_languages()[18].index() == 18);
    assert(all_languages()[19].index() == 19);
    assert(all_languages()[20].index() == 20);
    assert(all_languages()[21].index() == 21);
    assert(all_languages()[22].index() == 22);
    assert(all_languages()[23].index() == 23);
    assert(all_languages()[24].index() == 24);
    assert(all_languages()[25].index() == 25);
    assert(all_languages()[26].index() == 26);
    assert(all_languages()[27].index() == 27);
    assert(all_languages()[28].index() == 28);
    assert(all_languages()[29].index() == 29);
    assert(all_languages()[30].index() == 30);
    assert(all_languages()[31].index() == 31);
    assert(all_languages()[32].index() == 32);
    assert(all_languages()[33].index() == 33);
    assert(all_languages()[34].index() == 34);
    assert(all_languages()[35].index() == 35);
    assert(all_languages()[36].index() == 36);
    assert(all_languages()[37].index() == 37);
    assert(all_languages()[38].index() == 38);
    assert(all_languages()[39].index() == 39);
    assert(all_languages()[40].index() == 40);
    assert(all_languages()[41].index() == 41);
    assert(all_languages()[42].index() == 42);
    assert(all_languages()[43].index() == 43);
    assert(all_languages()[44].index() == 44);
    assert(all_languages()[45].index() == 45);
    assert(all_languages()[46].index() == 46);
    assert(all_languages()[47].index() == 47);
    assert(all_languages()[48].index() == 48);
    assert(all_languages()[49].index() == 49);
    assert(all_languages()[50].index() == 50);
    assert(all_languages()[51].index() == 51);
    assert(all_languages()[52].index() == 52);
    assert(all_languages()[53].index() == 53);
    assert(all_languages()[54].index() == 54);
    assert(all_languages()[55].index() == 55);
    assert(all_languages()[56].index() == 56);
    assert(all_languages()[57].index() == 57);
    assert(all_languages()[58].index() == 58);
    assert(all_languages()[59].index() == 59);
    assert(all_languages()[60].index() == 60);
    assert(all_languages()[61].index() == 61);
    assert(all_languages()[62].index() == 62);
    assert(all_languages()[63].index() == 63);
    assert(all_languages()[64].index() == 64);
    assert(all_languages()[65].index() == 65);
    assert(all_languages()[66].index() == 66);
    assert(all_languages()[67].index() == 67);
    assert(all_languages()[68].index() == 68);
    assert(all_languages()[69].index() == 69);
    assert(all_languages()[70].index() == 70);
    assert(all_languages()[71].index() == 71);
    assert(all_languages()[72].index() == 72);
    assert(all_languages()[73].index() == 73);
    assert(all_languages()[74].index() == 74);
}

/// The full list names every language of the game exactly once.
pub proof fn law_all_languages_once(l: Language)
    ensures
        all_languages().contains(l),
        all_languages().no_duplicates(),
        all_languages().len() == 75,
{
    lemma_all_languages_index(l);
    lemma_all_languages_positions();
}

/// Every Easy language is a Medium language, and every Medium language is in
/// the full list; the pools hold ten, thirty and seventy-five languages.
pub proof fn law_pools_nested(l: Language)
    ensures
        easy_languages().contains(l) ==> medium_languages().contains(l),
        medium_languages().contains(l) ==> all_languages().contains(l),
        easy_languages().len() == 10,
        medium_languages().len() == 30,
        all_languages().len() == 75,
{
    if easy_languages().contains(l) {
        let i = choose|i: int| 0 <= i < easy_languages().len() && easy_languages()[i] == l;
        if i == 0 { assert(medium_languages()[0] == l); }
        if i == 1 { assert(medium_languages()[6] == l); }
        if i == 2 { assert(medium_languages()[7] == l); }
        if i == 3 { assert(medium_languages()[5] == l); }
        if i == 4 { assert(medium_languages()[1] == l); }
        if i == 5 { assert(medium_languages()[3] == l); }
        if i == 6 { assert(medium_languages()[8] == l); }
        if i == 7 { assert(medium_languages()[9] == l); }
        if i == 8 { assert(medium_languages()[4] == l); }
        if i == 9 { assert(medium_languages()[11] == l); }
    }
    if medium_languages().contains(l) {
        let i = choose|i: int| 0 <= i < medium_languages().len() && medium_languages()[i] == l;
        assert(all_languages()[i] == l);
    }
}


/// The two letters of the code at the end of a label, `(XX)`.
pub open spec fn label_code(s: Seq<char>) -> (char, char) {
    (s[s.len() - 3], s[s.len() - 2])
}

/// The language whose label ends with the code `c`.
pub open spec fn language_of_code(c: (char, char)) -> Option<Language> {
    if c == ('E', 'N') {
        Some(Language::English)
    } else if c == ('F', 'R') {
        Some(Language::French)
    } else if c == ('J', 'A') {
        Some(Language::Japanese)
    } else if c == ('A', 'R') {
        Some(Language::Arabic)
    } else if c == ('R', 'U') {
        Some(Language::Russian)
    } else if c == ('E', 'S') {
        Some(Language::Spanish)
    } else if c == ('Z', 'H') {
        Some(Language::Chinese)
    } else if c == ('H', 'I') {
        Some(Language::Hindi)
    } else if c == ('B', 'N') {
        Some(Language::Bengali)
    } else if c == ('P', 'T') {
        Some(Language::Portuguese)
    } else if c == ('I', 'D') {
        Some(Language::Indonesian)
    } else if c == ('U', 'R') {
        Some(Language::Urdu)
    } else if c == ('D', 'E') {
        Some(Language::German)
    } else if c == ('K', 'O') {
        Some(Language::Korean)
    } else if c == ('V', 'I') {
        Some(Language::Vietnamese)
    } else if c == ('T', 'E') {
        Some(Language::Telugu)
    } else if c == ('M', 'R') {
        Some(Language::Marathi)
    } else if c == ('T', 'A') {
        Some(Language::Tamil)
    } else if c == ('T', 'R') {
        Some(Language::Turkish)
    } else if c == ('F', 'A') {
        Some(Language::Persian)
    } else if c == ('I', 'T') {
        Some(Language::Italian)
    } else if c == ('T', 'H') {
        Some(Language::Thai)
    } else if c == ('S', 'W') {
        Some(Language::Swahili)
    } else if c == ('P', 'L') {
        Some(Language::Polish)
    } else if c == ('U', 'K') {
        Some(Language::Ukrainian)
    } else if c == ('N', 'L') {
        Some(Language::Dutch)
    } else if c == ('E', 'L') {
        Some(Language::Greek)
    } else if c == ('R', 'O') {
        Some(Language::Romanian)
    } else if c == ('C', 'S') {
        Some(Language::Czech)
    } else if c == ('H', 'U') {
        Some(Language::Hungarian)
    } else if c == ('A', 'F') {
        Some(Language::Afrikaans)
    } else if c == ('S', 'Q') {
        Some(Language::Albanian)
    } else if c == ('A', 'M') {
        Some(Language::Amharic)
    } else if c == ('H', 'Y') {
        Some(Language::Armenian)
    } else if c == ('A', 'Z') {
        Some(Language::Azerbaijani)
    } else if c == ('E', 'U') {
        Some(Language::Basque)
    } else if c == ('B', 'E') {
        Some(Language::Belarusian)
    } else if c == ('B', 'G') {
        Some(Language::Bulgarian)
    } else if c == ('M', 'Y') {
        Some(Language::Burmese)
    } else if c == ('C', 'A') {
        Some(Language::Catalan)
    } else if c == ('H', 'R') {
        Some(Language::Croatian)
    } else if c == ('D', 'A') {
        Some(Language::Danish)
    } else if c == ('E', 'T') {
        Some(Language::Estonian)
    } else if c == ('F', 'I') {
        Some(Language::Finnish)
    } else if c == ('G', 'L') {
        Some(Language::Galician)
    } else if c == ('K', 'A') {
        Some(Language::Georgian)
    } else if c == ('G', 'U') {
        Some(Language::Gujarati)
    } else if c == ('H', 'A') {
        Some(Language::Hausa)
    } else if c == ('H', 'E') {
        Some(Language::Hebrew)
    } else if c == ('I', 'S') {
        Some(Language::Icelandic)
    } else if c == ('G', 'A') {
        Some(Language::Irish)
    } else if c == ('K', 'N') {
        Some(Language::Kannada)
    } else if c == ('K', 'K') {
        Some(Language::Kazakh)
    } else if c == ('K', 'M') {
        Some(Language::Khmer)
    } else if c == ('L', 'V') {
        Some(Language::Latvian)
    } else if c == ('L', 'T') {
        Some(Language::Lithuanian)
    } else if c == ('M', 'K') {
        Some(Language::Macedonian)
    } else if c == ('M', 'S') {
        Some(Language::Malay)
    } else if c == ('M', 'L') {
        Some(Language::Malayalam)
    } else if c == ('M', 'N') {
        Some(Language::Mongolian)
    } else if c == ('N', 'E') {
        Some(Language::Nepali)
    } else if c == ('N', 'O') {
        Some(Language::Norwegian)
    } else if c == ('O', 'R') {
        Some(Language::Odia)
    } else if c == ('P', 'A') {
        Some(Language::Punjabi)
    } else if c == ('S', 'R') {
        Some(Language::Serbian)
    } else if c == ('S', 'I') {
        Some(Language::Sinhala)
    } else if c == ('S', 'K') {
        Some(Language::Slovak)
    } else if c == ('S', 'L') {
        Some(Language::Slovenian)
    } else if c == ('S', 'O') {
        Some(Language::Somali)
    } else if c == ('S', 'V') {
        Some(Language::Swedish)
    } else if c == ('T', 'L') {
        Some(Language::Tagalog)
    } else if c == ('U', 'Z') {
        Some(Language::Uzbek)
    } else if c == ('C', 'Y') {
        Some(Language::Welsh)
    } else if c == ('Y', 'O') {
        Some(Language::Yoruba)
    } else if c == ('Z', 'U') {
        Some(Language::Zulu)
    } else {
        None
    }
}

/// Each label ends with a code that names its language alone.
pub(crate) proof fn lemma_label_code(l: Language)
    ensures
        l.spec_label().len() >= 3,
        language_of_code(label_code(l.spec_label())) == Some(l),
{
    match l {
        Language::English => {
            reveal_strlit("English (EN)");
        },
        Language::French => {
            reveal_strlit("French (FR)");
        },
        Language::Japanese => {
            reveal_strlit("Japanese (JA)");
        },
        Language::Arabic => {
            reveal_strlit("Arabic (AR)");
        },
        Language::Russian => {
            reveal_strlit("Russian (RU)");
        },
        Language::Spanish => {
            reveal_strlit("Spanish (ES)");
        },
        Language::Chinese => {
            reveal_strlit("Chinese (ZH)");
        },
        Language::Hindi => {
            reveal_strlit("Hindi (HI)");
        },
        Language::Bengali => {
            reveal_strlit("Bengali (BN)");
        },
        Language::Portuguese => {
            reveal_strlit("Portuguese (PT)");
        },
        Language::Indonesian => {
            reveal_strlit("Indonesian (ID)");
        },
        Language::Urdu => {
            reveal_strlit("Urdu (UR)");
        },
        Language::German => {
            reveal_strlit("German (DE)");
        },
        Language::Korean => {
            reveal_strlit("Korean (KO)");
        },
        Language::Vietnamese => {
            reveal_strlit("Vietnamese (VI)");
        },
        Language::Telugu => {
            reveal_strlit("Telugu (TE)");
        },
        Language::Marathi => {
            reveal_strlit("Marathi (MR)");
        },
        Language::Tamil => {
            reveal_strlit("Tamil (TA)");
        },
        Language::Turkish => {
            reveal_strlit("Turkish (TR)");
        },
        Language::Persian => {
            reveal_strlit("Persian (FA)");
        },
        Language::Italian => {
            reveal_strlit("Italian (IT)");
        },
        Language::Thai => {
            reveal_strlit("Thai (TH)");
        },
        Language::Swahili => {
            reveal_strlit("Swahili (SW)");
        },
        Language::Polish => {
            reveal_strlit("Polish (PL)");
        },
        Language::Ukrainian => {
            reveal_strlit("Ukrainian (UK)");
        },
        Language::Dutch => {
            reveal_strlit("Dutch (NL)");
        },
        Language::Greek => {
            reveal_strlit("Greek (EL)");
        },
        Language::Romanian => {
            reveal_strlit("Romanian (RO)");
        },
        Language::Czech => {
            reveal_strlit("Czech (CS)");
        },
        Language::Hungarian => {
            reveal_strlit("Hungarian (HU)");
        },
        Language::Afrikaans => {
            reveal_strlit("Afrikaans (AF)");
        },
        Language::Albanian => {
            reveal_strlit("Albanian (SQ)");
        },
        Language::Amharic => {
            reveal_strlit("Amharic (AM)");
        },
        Language::Armenian => {
            reveal_strlit("Armenian (HY)");
        },
        Language::Azerbaijani => {
            reveal_strlit("Azerbaijani (AZ)");
        },
        Language::Basque => {
            reveal_strlit("Basque (EU)");
        },
        Language::Belarusian => {
            reveal_strlit("Belarusian (BE)");
        },
        Language::Bulgarian => {
            reveal_strlit("Bulgarian (BG)");
        },
        Language::Burmese => {
            reveal_strlit("Burmese (MY)");
        },
        Language::Catalan => {
            reveal_strlit("Catalan (CA)");
        },
        Language::Croatian => {
            reveal_strlit("Croatian (HR)");
        },
        Language::Danish => {
            reveal_strlit("Danish (DA)");
        },
        Language::Estonian => {
            reveal_strlit("Estonian (ET)");
        },
        Language::Finnish => {
            reveal_strlit("Finnish (FI)");
        },
        Language::Galician => {
            reveal_strlit("Galician (GL)");
        },
        Language::Georgian => {
            reveal_strlit("Georgian (KA)");
        },
        Language::Gujarati => {
            reveal_strlit("Gujarati (GU)");
        },
        Language::Hausa => {
            reveal_strlit("Hausa (HA)");
        },
        Language::Hebrew => {
            reveal_strlit("Hebrew (HE)");
        },
        Language::Icelandic => {
            reveal_strlit("Icelandic (IS)");
        },
        Language::Irish => {
            reveal_strlit("Irish (GA)");
        },
        Language::Kannada => {
            reveal_strlit("Kannada (KN)");
        },
        Language::Kazakh => {
            reveal_strlit("Kazakh (KK)");
        },
        Language::Khmer => {
            reveal_strlit("Khmer (KM)");
        },
        Language::Latvian => {
            reveal_strlit("Latvian (LV)");
        },
        Language::Lithuanian => {
            reveal_strlit("Lithuanian (LT)");
        },
        Language::Macedonian => {
            reveal_strlit("Macedonian (MK)");
        },
        Language::Malay => {
            reveal_strlit("Malay (MS)");
        },
        Language::Malayalam => {
            reveal_strlit("Malayalam (ML)");
        },
        Language::Mongolian => {
            reveal_strlit("Mongolian (MN)");
        },
        Language::Nepali => {
            reveal_strlit("Nepali (NE)");
        },
        Language::Norwegian => {
            reveal_strlit("Norwegian (NO)");
        },
        Language::Odia => {
            reveal_strlit("Odia (OR)");
        },
        Language::Punjabi => {
            reveal_strlit("Punjabi (PA)");
        },
        Language::Serbian => {
            reveal_strlit("Serbian (SR)");
        },
        Language::Sinhala => {
            reveal_strlit("Sinhala (SI)");
        },
        Language::Slovak => {
            reveal_strlit("Slovak (SK)");
        },
        Language::Slovenian => {
            reveal_strlit("Slovenian (SL)");
        },
        Language::Somali => {
            reveal_strlit("Somali (SO)");
        },
        Language::Swedish => {
            reveal_strlit("Swedish (SV)");
        },
        Language::Tagalog => {
            reveal_strlit("Tagalog (TL)");
        },
        Language::Uzbek => {
            reveal_strlit("Uzbek (UZ)");
        },
        Language::Welsh => {
            reveal_strlit("Welsh (CY)");
        },
        Language::Yoruba => {
            reveal_strlit("Yoruba (YO)");
        },
        Language::Zulu => {
            reveal_strlit("Zulu (ZU)");
        },
    }
}

/// Different languages have different labels.
pub proof fn law_labels_distinct(a: Language, b: Language)
    requires
        a.spec_label() == b.spec_label(),
    ensures
        a == b,
{
    lemma_label_code(a);
    lemma_label_code(b);
}

/// Ordering by label is a total order on the languages.
pub proof fn law_label_order_total()
    ensures
        vstd::relations::total_ordering(|a: Language, b: Language| label_le(a, b)),
{
    let leq = |a: Language, b: Language| label_le(a, b);
    assert forall|x: Language| #[trigger] leq(x, x) by {
        crate::text::lemma_lex_irreflexive(x.spec_label());
    }
    assert forall|x: Language, y: Language| #[trigger] leq(x, y) && #[trigger] leq(y, x) implies x == y by {
        crate::text::lemma_lex_total(x.spec_label(), y.spec_label());
        law_labels_distinct(x, y);
    }
    assert forall|x: Language, y: Language, z: Language| #[trigger] leq(x, y) && #[trigger] leq(y, z) implies leq(x, z) by {
        crate::text::lemma_lex_le_transitive(x.spec_label(), y.spec_label(), z.spec_label());
    }
    assert forall|x: Language, y: Language| #[trigger] leq(x, y) || #[trigger] leq(y, x) by {
        crate::text::lemma_lex_asymmetric(x.spec_label(), y.spec_label());
    }
}

/// Suggestions are determined: two lists ordered by label that hold the same
/// languages, as often, are the same list.
pub proof fn law_suggestions_determined(x: Seq<Language>, y: Seq<Language>)
    requires
        sorted_by_label(x),
        sorted_by_label(y),
        x.to_multiset() == y.to_multiset(),
    ensures
        x == y,
{
    let leq = |a: Language, b: Language| label_le(a, b);
    law_label_order_total();
    assert(sorted_by(x, leq)) by {
        assert forall|i: int, j: int| 0 <= i < j < x.len() implies #[trigger] leq(x[i], x[j]) by {
            assert(lex_le(x[i].spec_label(), x[j].spec_label()));
        }
    }
    assert(sorted_by(y, leq)) by {
        assert forall|i: int, j: int| 0 <= i < j < y.len() implies #[trigger] leq(y[i], y[j]) by {
            assert(lex_le(y[i].spec_label(), y[j].spec_label()));
        }
    }
    vstd::seq_lib::lemma_sorted_unique(x, y, leq);
}

/// An empty query finds every language of the pool.
pub proof fn law_empty_query_finds_all(pool: Seq<Language>)
    ensures
        pool.filter(|l: Language| l.matches_query(Seq::<char>::empty())) == pool,
{
    let pred = |l: Language| l.matches_query(Seq::<char>::empty());
    assert forall|k: int| 0 <= k <= pool.len() implies #[trigger] pool.take(k).filter(pred) == pool.take(k) by {
        lemma_filter_all(pool, pred, k);
    }
    assert(pool.take(pool.len() as int) =~= pool);
}

proof fn lemma_filter_all(pool: Seq<Language>, pred: spec_fn(Language) -> bool, k: int)
    requires
        0 <= k <= pool.len(),
        forall|l: Language| #[trigger] pred(l),
    ensures
        pool.take(k).filter(pred) == pool.take(k),
    decreases k,
{
    reveal(Seq::filter);
    if k > 0 {
        lemma_filter_all(pool, pred, k - 1);
        assert(pool.take(k).drop_last() =~= pool.take(k - 1));
        assert(pool.take(k - 1).push(pool[k - 1]) =~= pool.take(k));
    } else {
        assert(pool.take(0) =~= Seq::<Language>::empty());
    }
}

/// Each alias of a language finds it.
pub proof fn law_alias_finds_language(l: Language, i: int)
    requires
        0 <= i < l.spec_aliases().len(),
    ensures
        l.matches_query(l.spec_aliases()[i]),
{
    assert(l.spec_aliases()[i].is_prefix_of(l.spec_aliases()[i])) by {
        assert(l.spec_aliases()[i] =~= l.spec_aliases()[i].subrange(0, l.spec_aliases()[i].len() as int));
    }
}

/// Typing more never adds a suggestion: a query that a longer one begins
/// finds every language the longer one finds, at least as often, in any pool.
pub proof fn law_longer_query_finds_fewer(pool: Seq<Language>, shorter: Seq<char>, longer: Seq<char>)
    requires
        shorter.is_prefix_of(longer),
    ensures
        pool.filter(|l: Language| l.matches_query(longer)).to_multiset().subset_of(
            pool.filter(|l: Language| l.matches_query(shorter)).to_multiset(),
        ),
{
    let p_long = |l: Language| l.matches_query(longer);
    let p_short = |l: Language| l.matches_query(shorter);
    assert forall|l: Language| #[trigger] p_long(l) implies p_short(l) by {
        if shorter.len() > 0 {
            let i = choose|i: int| 0 <= i < l.spec_aliases().len() && longer.is_prefix_of(#[trigger] l.spec_aliases()[i]);
            assert(shorter.is_prefix_of(l.spec_aliases()[i]));
        }
    }
    lemma_filter_weaker(pool, p_long, p_short);
}

proof fn lemma_filter_weaker(pool: Seq<Language>, p: spec_fn(Language) -> bool, q: spec_fn(Language) -> bool)
    requires
        forall|l: Language| #[trigger] p(l) ==> q(l),
    ensures
        pool.filter(p).to_multiset().subset_of(pool.filter(q).to_multiset()),
    decreases pool.len(),
{
    reveal(Seq::filter);
    if pool.len() == 0 {
        assert(pool.filter(p) =~= Seq::<Language>::empty());
        assert(pool.filter(q) =~= Seq::<Language>::empty());
    } else {
        let rest = pool.drop_last();
        let x = pool.last();
        lemma_filter_weaker(rest, p, q);
        assert(pool.filter(p) == if p(x) { rest.filter(p).push(x) } else { rest.filter(p) });
        assert(pool.filter(q) == if q(x) { rest.filter(q).push(x) } else { rest.filter(q) });
        vstd::seq_lib::lemma_multiset_commutative(rest.filter(p), seq![x]);
        vstd::seq_lib::lemma_multiset_commutative(rest.filter(q), seq![x]);
        assert(rest.filter(p).push(x) =~= rest.filter(p) + seq![x]);
        assert(rest.filter(q).push(x) =~= rest.filter(q) + seq![x]);
    }
}

} // verus!
