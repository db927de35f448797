//! Fetching the text of a round: which Wikipedia serves a language, where its
//! random-article summary is asked for, how an article's extract is cut to
//! length, and when a short extract is fetched again.
use vstd::prelude::*;

use crate::text::{chars_of, owned, push_str};
use crate::types::Language;

verus! {

/// How many summaries are fetched at most for one round.
pub const MAX_ATTEMPTS: usize = 3;

/// An extract of fewer characters than this is fetched again while attempts remain.
pub const MIN_CHARS: usize = 100;

/// An extract is cut to at most this many characters.
pub const MAX_CHARS: usize = 600;

/// Why an article could not be fetched.
#[derive(Debug, Clone, PartialEq, Eq)]
pub enum FetchError {
    /// The request failed or was answered with an error status.
    Http(String),
    /// The answer was not a summary with an extract.
    Parse,
    /// The extract was too short.
    TooShort,
}

/// The code of the Wikipedia edition in the language.
pub open spec fn spec_wiki_code(lang: Language) -> Seq<char> {
    match lang {
        Language::English => "en"@,
        Language::French => "fr"@,
        Language::Japanese => "ja"@,
        Language::Arabic => "ar"@,
        Language::Russian => "ru"@,
        Language::Spanish => "es"@,
        Language::Chinese => "zh"@,
        Language::Hindi => "hi"@,
        Language::Bengali => "bn"@,
        Language::Portuguese => "pt"@,
        Language::Indonesian => "id"@,
        Language::Urdu => "ur"@,
        Language::German => "de"@,
        Language::Korean => "ko"@,
        Language::Vietnamese => "vi"@,
        Language::Telugu => "te"@,
        Language::Marathi => "mr"@,
        Language::Tamil => "ta"@,
        Language::Turkish => "tr"@,
        Language::Persian => "fa"@,
        Language::Italian => "it"@,
        Language::Thai => "th"@,
        Language::Swahili => "sw"@,
        Language::Polish => "pl"@,
        Language::Ukrainian => "uk"@,
        Language::Dutch => "nl"@,
        Language::Greek => "el"@,
        Language::Romanian => "ro"@,
        Language::Czech => "cs"@,
        Language::Hungarian => "hu"@,
        Language::Afrikaans => "af"@,
        Language::Albanian => "sq"@,
        Language::Amharic => "am"@,
        Language::Armenian => "hy"@,
        Language::Azerbaijani => "az"@,
        Language::Basque => "eu"@,
        Language::Belarusian => "be"@,
        Language::Bulgarian => "bg"@,
        Language::Burmese => "my"@,
        Language::Catalan => "ca"@,
        Language::Croatian => "hr"@,
        Language::Danish => "da"@,
        Language::Estonian => "et"@,
        Language::Finnish => "fi"@,
        Language::Galician => "gl"@,
        Language::Georgian => "ka"@,
        Language::Gujarati => "gu"@,
        Language::Hausa => "ha"@,
        Language::Hebrew => "he"@,
        Language::Icelandic => "is"@,
        Language::Irish => "ga"@,
        Language::Kannada => "kn"@,
        Language::Kazakh => "kk"@,
        Language::Khmer => "km"@,
        Language::Latvian => "lv"@,
        Language::Lithuanian => "lt"@,
        Language::Macedonian => "mk"@,
        Language::Malay => "ms"@,
        Language::Malayalam => "ml"@,
        Language::Mongolian => "mn"@,
        Language::Nepali => "ne"@,
        Language::Norwegian => "no"@,
        Language::Odia => "or"@,
        Language::Punjabi => "pa"@,
        Language::Serbian => "sr"@,
        Language::Sinhala => "si"@,
        Language::Slovak => "sk"@,
        Language::Slovenian => "sl"@,
        Language::Somali => "so"@,
        Language::Swedish => "sv"@,
        Language::Tagalog => "tl"@,
        Language::Uzbek => "uz"@,
        Language::Welsh => "cy"@,
        Language::Yoruba => "yo"@,
        Language::Zulu => "zu"@,
    }
}

/// The code of the Wikipedia edition in `lang`.
pub fn wiki_code(lang: &Language) -> (r: &'static str)
    ensures
        r@ == spec_wiki_code(*lang),
{
    match lang {
        Language::English => "en",
        Language::French => "fr",
        Language::Japanese => "ja",
        Language::Arabic => "ar",
        Language::Russian => "ru",
        Language::Spanish => "es",
        Language::Chinese => "zh",
        Language::Hindi => "hi",
        Language::Bengali => "bn",
        Language::Portuguese => "pt",
        Language::Indonesian => "id",
        Language::Urdu => "ur",
        Language::German => "de",
        Language::Korean => "ko",
        Language::Vietnamese => "vi",
        Language::Telugu => "te",
        Language::Marathi => "mr",
        Language::Tamil => "ta",
        Language::Turkish => "tr",
        Language::Persian => "fa",
        Language::Italian => "it",
        Language::Thai => "th",
        Language::Swahili => "sw",
        Language::Polish => "pl",
        Language::Ukrainian => "uk",
        Language::Dutch => "nl",
        Language::Greek => "el",
        Language::Romanian => "ro",
        Language::Czech => "cs",
        Language::Hungarian => "hu",
        Language::Afrikaans => "af",
        Language::Albanian => "sq",
        Language::Amharic => "am",
        Language::Armenian => "hy",
        Language::Azerbaijani => "az",
        Language::Basque => "eu",
        Language::Belarusian => "be",
        Language::Bulgarian => "bg",
        Language::Burmese => "my",
        Language::Catalan => "ca",
        Language::Croatian => "hr",
        Language::Danish => "da",
        Language::Estonian => "et",
        Language::Finnish => "fi",
        Language::Galician => "gl",
        Language::Georgian => "ka",
        Language::Gujarati => "gu",
        Language::Hausa => "ha",
        Language::Hebrew => "he",
        Language::Icelandic => "is",
        Language::Irish => "ga",
        Language::Kannada => "kn",
        Language::Kazakh => "kk",
        Language::Khmer => "km",
        Language::Latvian => "lv",
        Language::Lithuanian => "lt",
        Language::Macedonian => "mk",
        Language::Malay => "ms",
        Language::Malayalam => "ml",
        Language::Mongolian => "mn",
        Language::Nepali => "ne",
        Language::Norwegian => "no",
        Language::Odia => "or",
        Language::Punjabi => "pa",
        Language::Serbian => "sr",
        Language::Sinhala => "si",
        Language::Slovak => "sk",
        Language::Slovenian => "sl",
        Language::Somali => "so",
        Language::Swedish => "sv",
        Language::Tagalog => "tl",
        Language::Uzbek => "uz",
        Language::Welsh => "cy",
        Language::Yoruba => "yo",
        Language::Zulu => "zu",
    }
}

/// The address of the Wikipedia edition in `lang`.
pub fn wiki_base_url(lang: &Language) -> (r: String)
    ensures
        r@ == "https://"@ + spec_wiki_code(*lang) + ".wikipedia.org"@,
{
    let mut url = owned("https://");
    push_str(&mut url, wiki_code(lang));
    push_str(&mut url, ".wikipedia.org");
    url
}

/// The index of the last space of `s` before index `end`, or -1 if there is none.
pub open spec fn last_space_before(s: Seq<char>, end: int) -> int
    decreases end,
{
    if end <= 0 {
        -1
    } else if s[end - 1] == ' ' {
        end - 1
    } else {
        last_space_before(s, end - 1)
    }
}

/// An extract cut to length: a text of at most `MAX_CHARS` characters is kept
/// whole; a longer one is cut before the last space among its first
/// `MAX_CHARS` characters, or after them when they hold no space.
pub open spec fn truncated(t: Seq<char>) -> Seq<char> {
    if t.len() <= MAX_CHARS {
        t
    } else {
        let k = last_space_before(t, MAX_CHARS as int);
        if k >= 0 {
            t.take(k)
        } else {
            t.take(MAX_CHARS as int)
        }
    }
}

proof fn lemma_last_space_before(s: Seq<char>, end: int)
    requires
        0 <= end <= s.len(),
    ensures
        -1 <= last_space_before(s, end) < end,
        last_space_before(s, end) >= 0 ==> s[last_space_before(s, end)] == ' ',
        forall|i: int| last_space_before(s, end) < i < end ==> s[i] != ' ',
    decreases end,
{
    if end > 0 && s[end - 1] != ' ' {
        lemma_last_space_before(s, end - 1);
    }
}

/// Cuts an article's extract to at most `MAX_CHARS` characters, at a space when
/// it can, so that Latin-script text is not cut inside a word.
pub fn truncate_extract(text: &str) -> (r: String)
    ensures
        r@ == truncated(text@),
{
    let chars = chars_of(text);
    if chars.len() <= MAX_CHARS {
        return owned(text);
    }
    let mut end: usize = MAX_CHARS;
    while end > 0 && chars[end - 1] != ' '
        invariant
            end <= MAX_CHARS,
            MAX_CHARS < chars@.len(),
            last_space_before(chars@, end as int) == last_space_before(chars@, MAX_CHARS as int),
        decreases end,
    {
        end = end - 1;
    }
    let cut = if end > 0 { end - 1 } else { MAX_CHARS };
    owned(text.substring_char(0, cut))
}

/// What a cut extract is: a beginning of the text, of at most `MAX_CHARS`
/// characters, the whole text when it is that short; when it is shorter than
/// the text, it ends where the text has a space, or it holds `MAX_CHARS`
/// characters none of which is a space; and it is cut at the last space of
/// the first `MAX_CHARS` characters, so no space stands between the cut and
/// that limit.
pub proof fn law_truncated_shape(t: Seq<char>)
    ensures
        truncated(t).is_prefix_of(t),
        truncated(t).len() <= MAX_CHARS,
        t.len() <= MAX_CHARS ==> truncated(t) == t,
        truncated(t).len() < t.len() ==> {
            ||| t[truncated(t).len() as int] == ' '
            ||| (truncated(t).len() == MAX_CHARS && forall|i: int| 0 <= i < MAX_CHARS ==> t[i] != ' ')
        },
        truncated(t).len() < t.len() ==> t.len() > MAX_CHARS,
        truncated(t).len() < t.len() ==> forall|i: int| truncated(t).len() < i < MAX_CHARS ==> t[i] != ' ',
{
    if t.len() > MAX_CHARS {
        lemma_last_space_before(t, MAX_CHARS as int);
    }
    assert(truncated(t) =~= t.subrange(0, truncated(t).len() as int));
}

/// The text with every `c` at its end removed.
pub open spec fn trim_end(s: Seq<char>, c: char) -> Seq<char>
    decreases s.len(),
{
    if s.len() > 0 && s.last() == c {
        trim_end(s.drop_last(), c)
    } else {
        s
    }
}

/// The address that answers with the summary of a random article of the
/// Wikipedia at `base_url`.
pub fn summary_url(base_url: &str) -> (r: String)
    ensures
        r@ == trim_end(base_url@, '/') + "/api/rest_v1/page/random/summary"@,
{
    let chars = chars_of(base_url);
    let mut end: usize = chars.len();
    assert(chars@.take(end as int) =~= chars@);
    while end > 0 && chars[end - 1] == '/'
        invariant
            end <= chars@.len(),
            chars@ == base_url@,
            trim_end(chars@.take(end as int), '/') == trim_end(base_url@, '/'),
        decreases end,
    {
        assert(chars@.take(end as int).drop_last() =~= chars@.take(end - 1));
        end = end - 1;
    }
    proof {
        if end > 0 {
            assert(chars@.take(end as int).last() == chars@[end - 1]);
        }
        assert(trim_end(chars@.take(end as int), '/') == chars@.take(end as int));
    }
    let mut url = owned(base_url.substring_char(0, end));
    assert(url@ =~= chars@.take(end as int));
    push_str(&mut url, "/api/rest_v1/page/random/summary");
    url
}

/// What `serde_json` reads from a JSON text as the string held under `key` in
/// its top-level object: `None` when the text is not JSON or holds no string
/// there. Stated by serde_json's parser; named here, not restated.
pub uninterp spec fn json_string_field(body: Seq<char>, key: Seq<char>) -> Option<Seq<char>>;

/// Parses `body` with `serde_json::from_str` into a `serde_json::Value` and
/// reads `value[key].as_str()`; the result is `json_string_field` of the two.
#[verifier::external_body]
fn json_string_field_of(body: &str, key: &str) -> (r: Option<String>)
    ensures
        match r {
            Some(s) => json_string_field(body@, key@) == Some(s@),
            None => json_string_field(body@, key@) is None,
        },
{
    match serde_json::from_str::<serde_json::Value>(body) {
        Ok(value) => value[key].as_str().map(|s| s.to_string()),
        Err(_) => None,
    }
}

/// The extract of a summary that Wikipedia answered with: the string under
/// `"extract"`, or `FetchError::Parse` when there is none.
pub fn parse_summary(body: &str) -> (r: Result<String, FetchError>)
    ensures
        match json_string_field(body@, "extract"@) {
            Some(e) => r matches Ok(t) && t@ == e,
            None => r == Err::<String, FetchError>(FetchError::Parse),
        },
{
    match json_string_field_of(body, "extract") {
        Some(t) => Ok(t),
        None => Err(FetchError::Parse),
    }
}

/// What to do with the extract of the `attempt`-th fetch (counting from 0):
/// keep its cut text when it is long enough or when no attempt remains, or
/// fetch again (`None`).
pub fn fetch_outcome(attempt: usize, extract: &str) -> (r: Option<String>)
    requires
        attempt < MAX_ATTEMPTS,
    ensures
        match r {
            Some(t) => t@ == truncated(extract@)
                && (t@.len() >= MIN_CHARS || attempt == MAX_ATTEMPTS - 1),
            None => truncated(extract@).len() < MIN_CHARS && attempt < MAX_ATTEMPTS - 1,
        },
        attempt == MAX_ATTEMPTS - 1 ==> r is Some,
{
    let t = truncate_extract(extract);
    let length = chars_of(t.as_str()).len();
    if length >= MIN_CHARS || attempt == MAX_ATTEMPTS - 1 {
        Some(t)
    } else {
        None
    }
}

} // verus!
