//! What the code in a language's label says: it names the language's
//! Wikipedia edition and is its first search alias, beside its English name.
use vstd::prelude::*;

use crate::types::{label_code, language_of_code, lemma_label_code, Language};
use crate::wikipedia::spec_wiki_code;

verus! {

/// Whether `c` is a capital letter of the ASCII alphabet.
pub open spec fn ascii_upper(c: char) -> bool {
    'A' <= c && c <= 'Z'
}

/// `c` with an ASCII capital made small.
pub open spec fn ascii_lower(c: char) -> char {
    if ascii_upper(c) {
        ((c as u32) + 32) as char
    } else {
        c
    }
}

/// `s` with its ASCII capitals made small.
pub open spec fn ascii_lower_text(s: Seq<char>) -> Seq<char> {
    s.map_values(|c: char| ascii_lower(c))
}

/// The name in a label `Name (XX)`: all before ` (XX)`.
pub open spec fn label_name(s: Seq<char>) -> Seq<char> {
    s.take(s.len() - 5)
}

/// The code of a label `Name (XX)`, in small letters.
pub open spec fn code_of_label(s: Seq<char>) -> Seq<char> {
    seq![ascii_lower(s[s.len() - 3]), ascii_lower(s[s.len() - 2])]
}

/// Whether `s` holds no ASCII capital.
pub open spec fn no_ascii_upper(s: Seq<char>) -> bool {
    forall|j: int| 0 <= j < s.len() ==> !ascii_upper(#[trigger] s[j])
}

/// What the label of `l` says of it, as the per-language lemmas prove.
pub open spec fn codes_agree(l: Language) -> bool {
    let lab = l.spec_label();
    &&& lab.len() >= 6
    &&& lab[lab.len() - 5] == ' '
    &&& lab[lab.len() - 4] == '('
    &&& lab[lab.len() - 1] == ')'
    &&& ascii_upper(lab[lab.len() - 3])
    &&& ascii_upper(lab[lab.len() - 2])
    &&& spec_wiki_code(l) == code_of_label(lab)
    &&& l.spec_aliases().len() >= 1
    &&& l.spec_aliases()[0] == code_of_label(lab)
    &&& l.spec_aliases().contains(ascii_lower_text(label_name(lab)))
    &&& forall|i: int| 0 <= i < l.spec_aliases().len() ==> no_ascii_upper(#[trigger] l.spec_aliases()[i])
}

proof fn lemma_codes_english()
    ensures
        codes_agree(Language::English),
{
    reveal_strlit("English (EN)");
    reveal_strlit("en");
    reveal_strlit("en");
    reveal_strlit("english");
    let lab = Language::English.spec_label();
    assert(code_of_label(lab) =~= "en"@);
    assert(ascii_lower_text(label_name(lab)) =~= "english"@);
    assert(Language::English.spec_aliases()[1] == "english"@);
    assert(no_ascii_upper("en"@));
    assert(no_ascii_upper("english"@));
}

proof fn lemma_codes_french()
    ensures
        codes_agree(Language::French),
{
    reveal_strlit("French (FR)");
    reveal_strlit("fr");
    reveal_strlit("fr");
    reveal_strlit("french");
    reveal_strlit("français");
    reveal_strlit("francais");
    let lab = Language::French.spec_label();
    assert(code_of_label(lab) =~= "fr"@);
    assert(ascii_lower_text(label_name(lab)) =~= "french"@);
    assert(Language::French.spec_aliases()[1] == "french"@);
    assert(no_ascii_upper("fr"@));
    assert(no_ascii_upper("french"@));
    assert(no_ascii_upper("français"@));
    assert(no_ascii_upper("francais"@));
}

proof fn lemma_codes_japanese()
    ensures
        codes_agree(Language::Japanese),
{
    reveal_strlit("Japanese (JA)");
    reveal_strlit("ja");
    reveal_strlit("ja");
    reveal_strlit("japanese");
    reveal_strlit("日本語");
    let lab = Language::Japanese.spec_label();
    assert(code_of_label(lab) =~= "ja"@);
    assert(ascii_lower_text(label_name(lab)) =~= "japanese"@);
    assert(Language::Japanese.spec_aliases()[1] == "japanese"@);
    assert(no_ascii_upper("ja"@));
    assert(no_ascii_upper("japanese"@));
    assert(no_ascii_upper("日本語"@));
}

proof fn lemma_codes_arabic()
    ensures
        codes_agree(Language::Arabic),
{
    reveal_strlit("Arabic (AR)");
    reveal_strlit("ar");
    reveal_strlit("ar");
    reveal_strlit("arabic");
    reveal_strlit("العربية");
    let lab = Language::Arabic.spec_label();
    assert(code_of_label(lab) =~= "ar"@);
    assert(ascii_lower_text(label_name(lab)) =~= "arabic"@);
    assert(Language::Arabic.spec_aliases()[1] == "arabic"@);
    assert(no_ascii_upper("ar"@));
    assert(no_ascii_upper("arabic"@));
    assert(no_ascii_upper("العربية"@));
}

proof fn lemma_codes_russian()
    ensures
        codes_agree(Language::Russian),
{
    reveal_strlit("Russian (RU)");
    reveal_strlit("ru");
    reveal_strlit("ru");
    reveal_strlit("russian");
    reveal_strlit("русский");
    let lab = Language::Russian.spec_label();
    assert(code_of_label(lab) =~= "ru"@);
    assert(ascii_lower_text(label_name(lab)) =~= "russian"@);
    assert(Language::Russian.spec_aliases()[1] == "russian"@);
    assert(no_ascii_upper("ru"@));
    assert(no_ascii_upper("russian"@));
    assert(no_ascii_upper("русский"@));
}

proof fn lemma_codes_spanish()
    ensures
        codes_agree(Language::Spanish),
{
    reveal_strlit("Spanish (ES)");
    reveal_strlit("es");
    reveal_strlit("es");
    reveal_strlit("spanish");
    reveal_strlit("español");
    reveal_strlit("espanol");
    let lab = Language::Spanish.spec_label();
    assert(code_of_label(lab) =~= "es"@);
    assert(ascii_lower_text(label_name(lab)) =~= "spanish"@);
    assert(Language::Spanish.spec_aliases()[1] == "spanish"@);
    assert(no_ascii_upper("es"@));
    assert(no_ascii_upper("spanish"@));
    assert(no_ascii_upper("español"@));
    assert(no_ascii_upper("espanol"@));
}

proof fn lemma_codes_chinese()
    ensures
        codes_agree(Language::Chinese),
{
    reveal_strlit("Chinese (ZH)");
    reveal_strlit("zh");
    reveal_strlit("zh");
    reveal_strlit("chinese");
    reveal_strlit("mandarin");
    reveal_strlit("中文");
    reveal_strlit("普通话");
    let lab = Language::Chinese.spec_label();
    assert(code_of_label(lab) =~= "zh"@);
    assert(ascii_lower_text(label_name(lab)) =~= "chinese"@);
    assert(Language::Chinese.spec_aliases()[1] == "chinese"@);
    assert(no_ascii_upper("zh"@));
    assert(no_ascii_upper("chinese"@));
    assert(no_ascii_upper("mandarin"@));
    assert(no_ascii_upper("中文"@));
    assert(no_ascii_upper("普通话"@));
}

proof fn lemma_codes_hindi()
    ensures
        codes_agree(Language::Hindi),
{
    reveal_strlit("Hindi (HI)");
    reveal_strlit("hi");
    reveal_strlit("hi");
    reveal_strlit("hindi");
    reveal_strlit("हिंदी");
    let lab = Language::Hindi.spec_label();
    assert(code_of_label(lab) =~= "hi"@);
    assert(ascii_lower_text(label_name(lab)) =~= "hindi"@);
    assert(Language::Hindi.spec_aliases()[1] == "hindi"@);
    assert(no_ascii_upper("hi"@));
    assert(no_ascii_upper("hindi"@));
    assert(no_ascii_upper("हिंदी"@));
}

proof fn lemma_codes_bengali()
    ensures
        codes_agree(Language::Bengali),
{
    reveal_strlit("Bengali (BN)");
    reveal_strlit("bn");
    reveal_strlit("bn");
    reveal_strlit("bengali");
    reveal_strlit("bangla");
    reveal_strlit("বাংলা");
    let lab = Language::Bengali.spec_label();
    assert(code_of_label(lab) =~= "bn"@);
    assert(ascii_lower_text(label_name(lab)) =~= "bengali"@);
    assert(Language::Bengali.spec_aliases()[1] == "bengali"@);
    assert(no_ascii_upper("bn"@));
    assert(no_ascii_upper("bengali"@));
    assert(no_ascii_upper("bangla"@));
    assert(no_ascii_upper("বাংলা"@));
}

proof fn lemma_codes_portuguese()
    ensures
        codes_agree(Language::Portuguese),
{
    reveal_strlit("Portuguese (PT)");
    reveal_strlit("pt");
    reveal_strlit("pt");
    reveal_strlit("portuguese");
    reveal_strlit("português");
    reveal_strlit("portugues");
    let lab = Language::Portuguese.spec_label();
    assert(code_of_label(lab) =~= "pt"@);
    assert(ascii_lower_text(label_name(lab)) =~= "portuguese"@);
    assert(Language::Portuguese.spec_aliases()[1] == "portuguese"@);
    assert(no_ascii_upper("pt"@));
    assert(no_ascii_upper("portuguese"@));
    assert(no_ascii_upper("português"@));
    assert(no_ascii_upper("portugues"@));
}

proof fn lemma_codes_indonesian()
    ensures
        codes_agree(Language::Indonesian),
{
    reveal_strlit("Indonesian (ID)");
    reveal_strlit("id");
    reveal_strlit("id");
    reveal_strlit("indonesian");
    reveal_strlit("bahasa");
    let lab = Language::Indonesian.spec_label();
    assert(code_of_label(lab) =~= "id"@);
    assert(ascii_lower_text(label_name(lab)) =~= "indonesian"@);
    assert(Language::Indonesian.spec_aliases()[1] == "indonesian"@);
    assert(no_ascii_upper("id"@));
    assert(no_ascii_upper("indonesian"@));
    assert(no_ascii_upper("bahasa"@));
}

proof fn lemma_codes_urdu()
    ensures
        codes_agree(Language::Urdu),
{
    reveal_strlit("Urdu (UR)");
    reveal_strlit("ur");
    reveal_strlit("ur");
    reveal_strlit("urdu");
    reveal_strlit("اردو");
    let lab = Language::Urdu.spec_label();
    assert(code_of_label(lab) =~= "ur"@);
    assert(ascii_lower_text(label_name(lab)) =~= "urdu"@);
    assert(Language::Urdu.spec_aliases()[1] == "urdu"@);
    assert(no_ascii_upper("ur"@));
    assert(no_ascii_upper("urdu"@));
    assert(no_ascii_upper("اردو"@));
}

proof fn lemma_codes_german()
    ensures
        codes_agree(Language::German),
{
    reveal_strlit("German (DE)");
    reveal_strlit("de");
    reveal_strlit("de");
    reveal_strlit("german");
    reveal_strlit("deutsch");
    let lab = Language::German.spec_label();
    assert(code_of_label(lab) =~= "de"@);
    assert(ascii_lower_text(label_name(lab)) =~= "german"@);
    assert(Language::German.spec_aliases()[1] == "german"@);
    assert(no_ascii_upper("de"@));
    assert(no_ascii_upper("german"@));
    assert(no_ascii_upper("deutsch"@));
}

proof fn lemma_codes_korean()
    ensures
        codes_agree(Language::Korean),
{
    reveal_strlit("Korean (KO)");
    reveal_strlit("ko");
    reveal_strlit("ko");
    reveal_strlit("korean");
    reveal_strlit("한국어");
    let lab = Language::Korean.spec_label();
    assert(code_of_label(lab) =~= "ko"@);
    assert(ascii_lower_text(label_name(lab)) =~= "korean"@);
    assert(Language::Korean.spec_aliases()[1] == "korean"@);
    assert(no_ascii_upper("ko"@));
    assert(no_ascii_upper("korean"@));
    assert(no_ascii_upper("한국어"@));
}

proof fn lemma_codes_vietnamese()
    ensures
        codes_agree(Language::Vietnamese),
{
    reveal_strlit("Vietnamese (VI)");
    reveal_strlit("vi");
    reveal_strlit("vi");
    reveal_strlit("vietnamese");
    let lab = Language::Vietnamese.spec_label();
    assert(code_of_label(lab) =~= "vi"@);
    assert(ascii_lower_text(label_name(lab)) =~= "vietnamese"@);
    assert(Language::Vietnamese.spec_aliases()[1] == "vietnamese"@);
    assert(no_ascii_upper("vi"@));
    assert(no_ascii_upper("vietnamese"@));
}

proof fn lemma_codes_telugu()
    ensures
        codes_agree(Language::Telugu),
{
    reveal_strlit("Telugu (TE)");
    reveal_strlit("te");
    reveal_strlit("te");
    reveal_strlit("telugu");
    reveal_strlit("తెలుగు");
    let lab = Language::Telugu.spec_label();
    assert(code_of_label(lab) =~= "te"@);
    assert(ascii_lower_text(label_name(lab)) =~= "telugu"@);
    assert(Language::Telugu.spec_aliases()[1] == "telugu"@);
    assert(no_ascii_upper("te"@));
    assert(no_ascii_upper("telugu"@));
    assert(no_ascii_upper("తెలుగు"@));
}

proof fn lemma_codes_marathi()
    ensures
        codes_agree(Language::Marathi),
{
    reveal_strlit("Marathi (MR)");
    reveal_strlit("mr");
    reveal_strlit("mr");
    reveal_strlit("marathi");
    reveal_strlit("मराठी");
    let lab = Language::Marathi.spec_label();
    assert(code_of_label(lab) =~= "mr"@);
    assert(ascii_lower_text(label_name(lab)) =~= "marathi"@);
    assert(Language::Marathi.spec_aliases()[1] == "marathi"@);
    assert(no_ascii_upper("mr"@));
    assert(no_ascii_upper("marathi"@));
    assert(no_ascii_upper("मराठी"@));
}

proof fn lemma_codes_tamil()
    ensures
        codes_agree(Language::Tamil),
{
    reveal_strlit("Tamil (TA)");
    reveal_strlit("ta");
    reveal_strlit("ta");
    reveal_strlit("tamil");
    reveal_strlit("தமிழ்");
    let lab = Language::Tamil.spec_label();
    assert(code_of_label(lab) =~= "ta"@);
    assert(ascii_lower_text(label_name(lab)) =~= "tamil"@);
    assert(Language::Tamil.spec_aliases()[1] == "tamil"@);
    assert(no_ascii_upper("ta"@));
    assert(no_ascii_upper("tamil"@));
    assert(no_ascii_upper("தமிழ்"@));
}

proof fn lemma_codes_turkish()
    ensures
        codes_agree(Language::Turkish),
{
    reveal_strlit("Turkish (TR)");
    reveal_strlit("tr");
    reveal_strlit("tr");
    reveal_strlit("turkish");
    reveal_strlit("türkçe");
    reveal_strlit("turkce");
    let lab = Language::Turkish.spec_label();
    assert(code_of_label(lab) =~= "tr"@);
    assert(ascii_lower_text(label_name(lab)) =~= "turkish"@);
    assert(Language::Turkish.spec_aliases()[1] == "turkish"@);
    assert(no_ascii_upper("tr"@));
    assert(no_ascii_upper("turkish"@));
    assert(no_ascii_upper("türkçe"@));
    assert(no_ascii_upper("turkce"@));
}

proof fn lemma_codes_persian()
    ensures
        codes_agree(Language::Persian),
{
    reveal_strlit("Persian (FA)");
    reveal_strlit("fa");
    reveal_strlit("fa");
    reveal_strlit("persian");
    reveal_strlit("farsi");
    reveal_strlit("فارسی");
    let lab = Language::Persian.spec_label();
    assert(code_of_label(lab) =~= "fa"@);
    assert(ascii_lower_text(label_name(lab)) =~= "persian"@);
    assert(Language::Persian.spec_aliases()[1] == "persian"@);
    assert(no_ascii_upper("fa"@));
    assert(no_ascii_upper("persian"@));
    assert(no_ascii_upper("farsi"@));
    assert(no_ascii_upper("فارسی"@));
}

proof fn lemma_codes_italian()
    ensures
        codes_agree(Language::Italian),
{
    reveal_strlit("Italian (IT)");
    reveal_strlit("it");
    reveal_strlit("it");
    reveal_strlit("italian");
    reveal_strlit("italiano");
    let lab = Language::Italian.spec_label();
    assert(code_of_label(lab) =~= "it"@);
    assert(ascii_lower_text(label_name(lab)) =~= "italian"@);
    assert(Language::Italian.spec_aliases()[1] == "italian"@);
    assert(no_ascii_upper("it"@));
    assert(no_ascii_upper("italian"@));
    assert(no_ascii_upper("italiano"@));
}

proof fn lemma_codes_thai()
    ensures
        codes_agree(Language::Thai),
{
    reveal_strlit("Thai (TH)");
    reveal_strlit("th");
    reveal_strlit("th");
    reveal_strlit("thai");
    reveal_strlit("ภาษาไทย");
    let lab = Language::Thai.spec_label();
    assert(code_of_label(lab) =~= "th"@);
    assert(ascii_lower_text(label_name(lab)) =~= "thai"@);
    assert(Language::Thai.spec_aliases()[1] == "thai"@);
    assert(no_ascii_upper("th"@));
    assert(no_ascii_upper("thai"@));
    assert(no_ascii_upper("ภาษาไทย"@));
}

proof fn lemma_codes_swahili()
    ensures
        codes_agree(Language::Swahili),
{
    reveal_strlit("Swahili (SW)");
    reveal_strlit("sw");
    reveal_strlit("sw");
    reveal_strlit("swahili");
    reveal_strlit("kiswahili");
    let lab = Language::Swahili.spec_label();
    assert(code_of_label(lab) =~= "sw"@);
    assert(ascii_lower_text(label_name(lab)) =~= "swahili"@);
    assert(Language::Swahili.spec_aliases()[1] == "swahili"@);
    assert(no_ascii_upper("sw"@));
    assert(no_ascii_upper("swahili"@));
    assert(no_ascii_upper("kiswahili"@));
}

proof fn lemma_codes_polish()
    ensures
        codes_agree(Language::Polish),
{
    reveal_strlit("Polish (PL)");
    reveal_strlit("pl");
    reveal_strlit("pl");
    reveal_strlit("polish");
    reveal_strlit("polski");
    let lab = Language::Polish.spec_label();
    assert(code_of_label(lab) =~= "pl"@);
    assert(ascii_lower_text(label_name(lab)) =~= "polish"@);
    assert(Language::Polish.spec_aliases()[1] == "polish"@);
    assert(no_ascii_upper("pl"@));
    assert(no_ascii_upper("polish"@));
    assert(no_ascii_upper("polski"@));
}

proof fn lemma_codes_ukrainian()
    ensures
        codes_agree(Language::Ukrainian),
{
    reveal_strlit("Ukrainian (UK)");
    reveal_strlit("uk");
    reveal_strlit("uk");
    reveal_strlit("ukrainian");
    reveal_strlit("українська");
    let lab = Language::Ukrainian.spec_label();
    assert(code_of_label(lab) =~= "uk"@);
    assert(ascii_lower_text(label_name(lab)) =~= "ukrainian"@);
    assert(Language::Ukrainian.spec_aliases()[1] == "ukrainian"@);
    assert(no_ascii_upper("uk"@));
    assert(no_ascii_upper("ukrainian"@));
    assert(no_ascii_upper("українська"@));
}

proof fn lemma_codes_dutch()
    ensures
        codes_agree(Language::Dutch),
{
    reveal_strlit("Dutch (NL)");
    reveal_strlit("nl");
    reveal_strlit("nl");
    reveal_strlit("dutch");
    reveal_strlit("nederlands");
    let lab = Language::Dutch.spec_label();
    assert(code_of_label(lab) =~= "nl"@);
    assert(ascii_lower_text(label_name(lab)) =~= "dutch"@);
    assert(Language::Dutch.spec_aliases()[1] == "dutch"@);
    assert(no_ascii_upper("nl"@));
    assert(no_ascii_upper("dutch"@));
    assert(no_ascii_upper("nederlands"@));
}

proof fn lemma_codes_greek()
    ensures
        codes_agree(Language::Greek),
{
    reveal_strlit("Greek (EL)");
    reveal_strlit("el");
    reveal_strlit("el");
    reveal_strlit("greek");
    reveal_strlit("ελληνικά");
    let lab = Language::Greek.spec_label();
    assert(code_of_label(lab) =~= "el"@);
    assert(ascii_lower_text(label_name(lab)) =~= "greek"@);
    assert(Language::Greek.spec_aliases()[1] == "greek"@);
    assert(no_ascii_upper("el"@));
    assert(no_ascii_upper("greek"@));
    assert(no_ascii_upper("ελληνικά"@));
}

proof fn lemma_codes_romanian()
    ensures
        codes_agree(Language::Romanian),
{
    reveal_strlit("Romanian (RO)");
    reveal_strlit("ro");
    reveal_strlit("ro");
    reveal_strlit("romanian");
    reveal_strlit("română");
    reveal_strlit("romana");
    let lab = Language::Romanian.spec_label();
    assert(code_of_label(lab) =~= "ro"@);
    assert(ascii_lower_text(label_name(lab)) =~= "romanian"@);
    assert(Language::Romanian.spec_aliases()[1] == "romanian"@);
    assert(no_ascii_upper("ro"@));
    assert(no_ascii_upper("romanian"@));
    assert(no_ascii_upper("română"@));
    assert(no_ascii_upper("romana"@));
}

proof fn lemma_codes_czech()
    ensures
        codes_agree(Language::Czech),
{
    reveal_strlit("Czech (CS)");
    reveal_strlit("cs");
    reveal_strlit("cs");
    reveal_strlit("czech");
    reveal_strlit("čeština");
    reveal_strlit("cestina");
    let lab = Language::Czech.spec_label();
    assert(code_of_label(lab) =~= "cs"@);
    assert(ascii_lower_text(label_name(lab)) =~= "czech"@);
    assert(Language::Czech.spec_aliases()[1] == "czech"@);
    assert(no_ascii_upper("cs"@));
    assert(no_ascii_upper("czech"@));
    assert(no_ascii_upper("čeština"@));
    assert(no_ascii_upper("cestina"@));
}

proof fn lemma_codes_hungarian()
    ensures
        codes_agree(Language::Hungarian),
{
    reveal_strlit("Hungarian (HU)");
    reveal_strlit("hu");
    reveal_strlit("hu");
    reveal_strlit("hungarian");
    reveal_strlit("magyar");
    let lab = Language::Hungarian.spec_label();
    assert(code_of_label(lab) =~= "hu"@);
    assert(ascii_lower_text(label_name(lab)) =~= "hungarian"@);
    assert(Language::Hungarian.spec_aliases()[1] == "hungarian"@);
    assert(no_ascii_upper("hu"@));
    assert(no_ascii_upper("hungarian"@));
    assert(no_ascii_upper("magyar"@));
}

proof fn lemma_codes_afrikaans()
    ensures
        codes_agree(Language::Afrikaans),
{
    reveal_strlit("Afrikaans (AF)");
    reveal_strlit("af");
    reveal_strlit("af");
    reveal_strlit("afrikaans");
    let lab = Language::Afrikaans.spec_label();
    assert(code_of_label(lab) =~= "af"@);
    assert(ascii_lower_text(label_name(lab)) =~= "afrikaans"@);
    assert(Language::Afrikaans.spec_aliases()[1] == "afrikaans"@);
    assert(no_ascii_upper("af"@));
    assert(no_ascii_upper("afrikaans"@));
}

proof fn lemma_codes_albanian()
    ensures
        codes_agree(Language::Albanian),
{
    reveal_strlit("Albanian (SQ)");
    reveal_strlit("sq");
    reveal_strlit("sq");
    reveal_strlit("albanian");
    reveal_strlit("shqip");
    let lab = Language::Albanian.spec_label();
    assert(code_of_label(lab) =~= "sq"@);
    assert(ascii_lower_text(label_name(lab)) =~= "albanian"@);
    assert(Language::Albanian.spec_aliases()[1] == "albanian"@);
    assert(no_ascii_upper("sq"@));
    assert(no_ascii_upper("albanian"@));
    assert(no_ascii_upper("shqip"@));
}

proof fn lemma_codes_amharic()
    ensures
        codes_agree(Language::Amharic),
{
    reveal_strlit("Amharic (AM)");
    reveal_strlit("am");
    reveal_strlit("am");
    reveal_strlit("amharic");
    reveal_strlit("አማርኛ");
    let lab = Language::Amharic.spec_label();
    assert(code_of_label(lab) =~= "am"@);
    assert(ascii_lower_text(label_name(lab)) =~= "amharic"@);
    assert(Language::Amharic.spec_aliases()[1] == "amharic"@);
    assert(no_ascii_upper("am"@));
    assert(no_ascii_upper("amharic"@));
    assert(no_ascii_upper("አማርኛ"@));
}

proof fn lemma_codes_armenian()
    ensures
        codes_agree(Language::Armenian),
{
    reveal_strlit("Armenian (HY)");
    reveal_strlit("hy");
    reveal_strlit("hy");
    reveal_strlit("armenian");
    reveal_strlit("հայերեն");
    let lab = Language::Armenian.spec_label();
    assert(code_of_label(lab) =~= "hy"@);
    assert(ascii_lower_text(label_name(lab)) =~= "armenian"@);
    assert(Language::Armenian.spec_aliases()[1] == "armenian"@);
    assert(no_ascii_upper("hy"@));
    assert(no_ascii_upper("armenian"@));
    assert(no_ascii_upper("հայերեն"@));
}

proof fn lemma_codes_azerbaijani()
    ensures
        codes_agree(Language::Azerbaijani),
{
    reveal_strlit("Azerbaijani (AZ)");
    reveal_strlit("az");
    reveal_strlit("az");
    reveal_strlit("azerbaijani");
    reveal_strlit("azərbaycan");
    let lab = Language::Azerbaijani.spec_label();
    assert(code_of_label(lab) =~= "az"@);
    assert(ascii_lower_text(label_name(lab)) =~= "azerbaijani"@);
    assert(Language::Azerbaijani.spec_aliases()[1] == "azerbaijani"@);
    assert(no_ascii_upper("az"@));
    assert(no_ascii_upper("azerbaijani"@));
    assert(no_ascii_upper("azərbaycan"@));
}

proof fn lemma_codes_basque()
    ensures
        codes_agree(Language::Basque),
{
    reveal_strlit("Basque (EU)");
    reveal_strlit("eu");
    reveal_strlit("eu");
    reveal_strlit("basque");
    reveal_strlit("euskera");
    let lab = Language::Basque.spec_label();
    assert(code_of_label(lab) =~= "eu"@);
    assert(ascii_lower_text(label_name(lab)) =~= "basque"@);
    assert(Language::Basque.spec_aliases()[1] == "basque"@);
    assert(no_ascii_upper("eu"@));
    assert(no_ascii_upper("basque"@));
    assert(no_ascii_upper("euskera"@));
}

proof fn lemma_codes_belarusian()
    ensures
        codes_agree(Language::Belarusian),
{
    reveal_strlit("Belarusian (BE)");
    reveal_strlit("be");
    reveal_strlit("be");
    reveal_strlit("belarusian");
    reveal_strlit("беларуская");
    let lab = Language::Belarusian.spec_label();
    assert(code_of_label(lab) =~= "be"@);
    assert(ascii_lower_text(label_name(lab)) =~= "belarusian"@);
    assert(Language::Belarusian.spec_aliases()[1] == "belarusian"@);
    assert(no_ascii_upper("be"@));
    assert(no_ascii_upper("belarusian"@));
    assert(no_ascii_upper("беларуская"@));
}

proof fn lemma_codes_bulgarian()
    ensures
        codes_agree(Language::Bulgarian),
{
    reveal_strlit("Bulgarian (BG)");
    reveal_strlit("bg");
    reveal_strlit("bg");
    reveal_strlit("bulgarian");
    reveal_strlit("български");
    let lab = Language::Bulgarian.spec_label();
    assert(code_of_label(lab) =~= "bg"@);
    assert(ascii_lower_text(label_name(lab)) =~= "bulgarian"@);
    assert(Language::Bulgarian.spec_aliases()[1] == "bulgarian"@);
    assert(no_ascii_upper("bg"@));
    assert(no_ascii_upper("bulgarian"@));
    assert(no_ascii_upper("български"@));
}

proof fn lemma_codes_burmese()
    ensures
        codes_agree(Language::Burmese),
{
    reveal_strlit("Burmese (MY)");
    reveal_strlit("my");
    reveal_strlit("my");
    reveal_strlit("burmese");
    reveal_strlit("myanmar");
    reveal_strlit("မြန်မာဘာသာ");
    let lab = Language::Burmese.spec_label();
    assert(code_of_label(lab) =~= "my"@);
    assert(ascii_lower_text(label_name(lab)) =~= "burmese"@);
    assert(Language::Burmese.spec_aliases()[1] == "burmese"@);
    assert(no_ascii_upper("my"@));
    assert(no_ascii_upper("burmese"@));
    assert(no_ascii_upper("myanmar"@));
    assert(no_ascii_upper("မြန်မာဘာသာ"@));
}

proof fn lemma_codes_catalan()
    ensures
        codes_agree(Language::Catalan),
{
    reveal_strlit("Catalan (CA)");
    reveal_strlit("ca");
    reveal_strlit("ca");
    reveal_strlit("catalan");
    reveal_strlit("català");
    let lab = Language::Catalan.spec_label();
    assert(code_of_label(lab) =~= "ca"@);
    assert(ascii_lower_text(label_name(lab)) =~= "catalan"@);
    assert(Language::Catalan.spec_aliases()[1] == "catalan"@);
    assert(no_ascii_upper("ca"@));
    assert(no_ascii_upper("catalan"@));
    assert(no_ascii_upper("català"@));
}

proof fn lemma_codes_croatian()
    ensures
        codes_agree(Language::Croatian),
{
    reveal_strlit("Croatian (HR)");
    reveal_strlit("hr");
    reveal_strlit("hr");
    reveal_strlit("croatian");
    reveal_strlit("hrvatski");
    let lab = Language::Croatian.spec_label();
    assert(code_of_label(lab) =~= "hr"@);
    assert(ascii_lower_text(label_name(lab)) =~= "croatian"@);
    assert(Language::Croatian.spec_aliases()[1] == "croatian"@);
    assert(no_ascii_upper("hr"@));
    assert(no_ascii_upper("croatian"@));
    assert(no_ascii_upper("hrvatski"@));
}

proof fn lemma_codes_danish()
    ensures
        codes_agree(Language::Danish),
{
    reveal_strlit("Danish (DA)");
    reveal_strlit("da");
    reveal_strlit("da");
    reveal_strlit("danish");
    reveal_strlit("dansk");
    let lab = Language::Danish.spec_label();
    assert(code_of_label(lab) =~= "da"@);
    assert(ascii_lower_text(label_name(lab)) =~= "danish"@);
    assert(Language::Danish.spec_aliases()[1] == "danish"@);
    assert(no_ascii_upper("da"@));
    assert(no_ascii_upper("danish"@));
    assert(no_ascii_upper("dansk"@));
}

proof fn lemma_codes_estonian()
    ensures
        codes_agree(Language::Estonian),
{
    reveal_strlit("Estonian (ET)");
    reveal_strlit("et");
    reveal_strlit("et");
    reveal_strlit("estonian");
    reveal_strlit("eesti");
    let lab = Language::Estonian.spec_label();
    assert(code_of_label(lab) =~= "et"@);
    assert(ascii_lower_text(label_name(lab)) =~= "estonian"@);
    assert(Language::Estonian.spec_aliases()[1] == "estonian"@);
    assert(no_ascii_upper("et"@));
    assert(no_ascii_upper("estonian"@));
    assert(no_ascii_upper("eesti"@));
}

proof fn lemma_codes_finnish()
    ensures
        codes_agree(Language::Finnish),
{
    reveal_strlit("Finnish (FI)");
    reveal_strlit("fi");
    reveal_strlit("fi");
    reveal_strlit("finnish");
    reveal_strlit("suomi");
    let lab = Language::Finnish.spec_label();
    assert(code_of_label(lab) =~= "fi"@);
    assert(ascii_lower_text(label_name(lab)) =~= "finnish"@);
    assert(Language::Finnish.spec_aliases()[1] == "finnish"@);
    assert(no_ascii_upper("fi"@));
    assert(no_ascii_upper("finnish"@));
    assert(no_ascii_upper("suomi"@));
}

proof fn lemma_codes_galician()
    ensures
        codes_agree(Language::Galician),
{
    reveal_strlit("Galician (GL)");
    reveal_strlit("gl");
    reveal_strlit("gl");
    reveal_strlit("galician");
    reveal_strlit("galego");
    let lab = Language::Galician.spec_label();
    assert(code_of_label(lab) =~= "gl"@);
    assert(ascii_lower_text(label_name(lab)) =~= "galician"@);
    assert(Language::Galician.spec_aliases()[1] == "galician"@);
    assert(no_ascii_upper("gl"@));
    assert(no_ascii_upper("galician"@));
    assert(no_ascii_upper("galego"@));
}

proof fn lemma_codes_georgian()
    ensures
        codes_agree(Language::Georgian),
{
    reveal_strlit("Georgian (KA)");
    reveal_strlit("ka");
    reveal_strlit("ka");
    reveal_strlit("georgian");
    reveal_strlit("ქართული");
    let lab = Language::Georgian.spec_label();
    assert(code_of_label(lab) =~= "ka"@);
    assert(ascii_lower_text(label_name(lab)) =~= "georgian"@);
    assert(Language::Georgian.spec_aliases()[1] == "georgian"@);
    assert(no_ascii_upper("ka"@));
    assert(no_ascii_upper("georgian"@));
    assert(no_ascii_upper("ქართული"@));
}

proof fn lemma_codes_gujarati()
    ensures
        codes_agree(Language::Gujarati),
{
    reveal_strlit("Gujarati (GU)");
    reveal_strlit("gu");
    reveal_strlit("gu");
    reveal_strlit("gujarati");
    reveal_strlit("ગુજરાતી");
    let lab = Language::Gujarati.spec_label();
    assert(code_of_label(lab) =~= "gu"@);
    assert(ascii_lower_text(label_name(lab)) =~= "gujarati"@);
    assert(Language::Gujarati.spec_aliases()[1] == "gujarati"@);
    assert(no_ascii_upper("gu"@));
    assert(no_ascii_upper("gujarati"@));
    assert(no_ascii_upper("ગુજરાતી"@));
}

proof fn lemma_codes_hausa()
    ensures
        codes_agree(Language::Hausa),
{
    reveal_strlit("Hausa (HA)");
    reveal_strlit("ha");
    reveal_strlit("ha");
    reveal_strlit("hausa");
    let lab = Language::Hausa.spec_label();
    assert(code_of_label(lab) =~= "ha"@);
    assert(ascii_lower_text(label_name(lab)) =~= "hausa"@);
    assert(Language::Hausa.spec_aliases()[1] == "hausa"@);
    assert(no_ascii_upper("ha"@));
    assert(no_ascii_upper("hausa"@));
}

proof fn lemma_codes_hebrew()
    ensures
        codes_agree(Language::Hebrew),
{
    reveal_strlit("Hebrew (HE)");
    reveal_strlit("he");
    reveal_strlit("he");
    reveal_strlit("hebrew");
    reveal_strlit("עברית");
    let lab = Language::Hebrew.spec_label();
    assert(code_of_label(lab) =~= "he"@);
    assert(ascii_lower_text(label_name(lab)) =~= "hebrew"@);
    assert(Language::Hebrew.spec_aliases()[1] == "hebrew"@);
    assert(no_ascii_upper("he"@));
    assert(no_ascii_upper("hebrew"@));
    assert(no_ascii_upper("עברית"@));
}

proof fn lemma_codes_icelandic()
    ensures
        codes_agree(Language::Icelandic),
{
    reveal_strlit("Icelandic (IS)");
    reveal_strlit("is");
    reveal_strlit("is");
    reveal_strlit("icelandic");
    reveal_strlit("íslenska");
    let lab = Language::Icelandic.spec_label();
    assert(code_of_label(lab) =~= "is"@);
    assert(ascii_lower_text(label_name(lab)) =~= "icelandic"@);
    assert(Language::Icelandic.spec_aliases()[1] == "icelandic"@);
    assert(no_ascii_upper("is"@));
    assert(no_ascii_upper("icelandic"@));
    assert(no_ascii_upper("íslenska"@));
}

proof fn lemma_codes_irish()
    ensures
        codes_agree(Language::Irish),
{
    reveal_strlit("Irish (GA)");
    reveal_strlit("ga");
    reveal_strlit("ga");
    reveal_strlit("irish");
    reveal_strlit("gaeilge");
    let lab = Language::Irish.spec_label();
    assert(code_of_label(lab) =~= "ga"@);
    assert(ascii_lower_text(label_name(lab)) =~= "irish"@);
    assert(Language::Irish.spec_aliases()[1] == "irish"@);
    assert(no_ascii_upper("ga"@));
    assert(no_ascii_upper("irish"@));
    assert(no_ascii_upper("gaeilge"@));
}

proof fn lemma_codes_kannada()
    ensures
        codes_agree(Language::Kannada),
{
    reveal_strlit("Kannada (KN)");
    reveal_strlit("kn");
    reveal_strlit("kn");
    reveal_strlit("kannada");
    reveal_strlit("ಕನ್ನಡ");
    let lab = Language::Kannada.spec_label();
    assert(code_of_label(lab) =~= "kn"@);
    assert(ascii_lower_text(label_name(lab)) =~= "kannada"@);
    assert(Language::Kannada.spec_aliases()[1] == "kannada"@);
    assert(no_ascii_upper("kn"@));
    assert(no_ascii_upper("kannada"@));
    assert(no_ascii_upper("ಕನ್ನಡ"@));
}

proof fn lemma_codes_kazakh()
    ensures
        codes_agree(Language::Kazakh),
{
    reveal_strlit("Kazakh (KK)");
    reveal_strlit("kk");
    reveal_strlit("kk");
    reveal_strlit("kazakh");
    reveal_strlit("қазақ");
    let lab = Language::Kazakh.spec_label();
    assert(code_of_label(lab) =~= "kk"@);
    assert(ascii_lower_text(label_name(lab)) =~= "kazakh"@);
    assert(Language::Kazakh.spec_aliases()[1] == "kazakh"@);
    assert(no_ascii_upper("kk"@));
    assert(no_ascii_upper("kazakh"@));
    assert(no_ascii_upper("қазақ"@));
}

proof fn lemma_codes_khmer()
    ensures
        codes_agree(Language::Khmer),
{
    reveal_strlit("Khmer (KM)");
    reveal_strlit("km");
    reveal_strlit("km");
    reveal_strlit("khmer");
    reveal_strlit("ខ្មែរ");
    let lab = Language::Khmer.spec_label();
    assert(code_of_label(lab) =~= "km"@);
    assert(ascii_lower_text(label_name(lab)) =~= "khmer"@);
    assert(Language::Khmer.spec_aliases()[1] == "khmer"@);
    assert(no_ascii_upper("km"@));
    assert(no_ascii_upper("khmer"@));
    assert(no_ascii_upper("ខ្មែរ"@));
}

proof fn lemma_codes_latvian()
    ensures
        codes_agree(Language::Latvian),
{
    reveal_strlit("Latvian (LV)");
    reveal_strlit("lv");
    reveal_strlit("lv");
    reveal_strlit("latvian");
    reveal_strlit("latviešu");
    let lab = Language::Latvian.spec_label();
    assert(code_of_label(lab) =~= "lv"@);
    assert(ascii_lower_text(label_name(lab)) =~= "latvian"@);
    assert(Language::Latvian.spec_aliases()[1] == "latvian"@);
    assert(no_ascii_upper("lv"@));
    assert(no_ascii_upper("latvian"@));
    assert(no_ascii_upper("latviešu"@));
}

proof fn lemma_codes_lithuanian()
    ensures
        codes_agree(Language::Lithuanian),
{
    reveal_strlit("Lithuanian (LT)");
    reveal_strlit("lt");
    reveal_strlit("lt");
    reveal_strlit("lithuanian");
    reveal_strlit("lietuvių");
    let lab = Language::Lithuanian.spec_label();
    assert(code_of_label(lab) =~= "lt"@);
    assert(ascii_lower_text(label_name(lab)) =~= "lithuanian"@);
    assert(Language::Lithuanian.spec_aliases()[1] == "lithuanian"@);
    assert(no_ascii_upper("lt"@));
    assert(no_ascii_upper("lithuanian"@));
    assert(no_ascii_upper("lietuvių"@));
}

proof fn lemma_codes_macedonian()
    ensures
        codes_agree(Language::Macedonian),
{
    reveal_strlit("Macedonian (MK)");
    reveal_strlit("mk");
    reveal_strlit("mk");
    reveal_strlit("macedonian");
    reveal_strlit("македонски");
    let lab = Language::Macedonian.spec_label();
    assert(code_of_label(lab) =~= "mk"@);
    assert(ascii_lower_text(label_name(lab)) =~= "macedonian"@);
    assert(Language::Macedonian.spec_aliases()[1] == "macedonian"@);
    assert(no_ascii_upper("mk"@));
    assert(no_ascii_upper("macedonian"@));
    assert(no_ascii_upper("македонски"@));
}

proof fn lemma_codes_malay()
    ensures
        codes_agree(Language::Malay),
{
    reveal_strlit("Malay (MS)");
    reveal_strlit("ms");
    reveal_strlit("ms");
    reveal_strlit("malay");
    reveal_strlit("melayu");
    let lab = Language::Malay.spec_label();
    assert(code_of_label(lab) =~= "ms"@);
    assert(ascii_lower_text(label_name(lab)) =~= "malay"@);
    assert(Language::Malay.spec_aliases()[1] == "malay"@);
    assert(no_ascii_upper("ms"@));
    assert(no_ascii_upper("malay"@));
    assert(no_ascii_upper("melayu"@));
}

proof fn lemma_codes_malayalam()
    ensures
        codes_agree(Language::Malayalam),
{
    reveal_strlit("Malayalam (ML)");
    reveal_strlit("ml");
    reveal_strlit("ml");
    reveal_strlit("malayalam");
    reveal_strlit("മലയാളം");
    let lab = Language::Malayalam.spec_label();
    assert(code_of_label(lab) =~= "ml"@);
    assert(ascii_lower_text(label_name(lab)) =~= "malayalam"@);
    assert(Language::Malayalam.spec_aliases()[1] == "malayalam"@);
    assert(no_ascii_upper("ml"@));
    assert(no_ascii_upper("malayalam"@));
    assert(no_ascii_upper("മലയാളം"@));
}

proof fn lemma_codes_mongolian()
    ensures
        codes_agree(Language::Mongolian),
{
    reveal_strlit("Mongolian (MN)");
    reveal_strlit("mn");
    reveal_strlit("mn");
    reveal_strlit("mongolian");
    reveal_strlit("монгол");
    let lab = Language::Mongolian.spec_label();
    assert(code_of_label(lab) =~= "mn"@);
    assert(ascii_lower_text(label_name(lab)) =~= "mongolian"@);
    assert(Language::Mongolian.spec_aliases()[1] == "mongolian"@);
    assert(no_ascii_upper("mn"@));
    assert(no_ascii_upper("mongolian"@));
    assert(no_ascii_upper("монгол"@));
}

proof fn lemma_codes_nepali()
    ensures
        codes_agree(Language::Nepali),
{
    reveal_strlit("Nepali (NE)");
    reveal_strlit("ne");
    reveal_strlit("ne");
    reveal_strlit("nepali");
    reveal_strlit("नेपाली");
    let lab = Language::Nepali.spec_label();
    assert(code_of_label(lab) =~= "ne"@);
    assert(ascii_lower_text(label_name(lab)) =~= "nepali"@);
    assert(Language::Nepali.spec_aliases()[1] == "nepali"@);
    assert(no_ascii_upper("ne"@));
    assert(no_ascii_upper("nepali"@));
    assert(no_ascii_upper("नेपाली"@));
}

proof fn lemma_codes_norwegian()
    ensures
        codes_agree(Language::Norwegian),
{
    reveal_strlit("Norwegian (NO)");
    reveal_strlit("no");
    reveal_strlit("no");
    reveal_strlit("norwegian");
    reveal_strlit("norsk");
    let lab = Language::Norwegian.spec_label();
    assert(code_of_label(lab) =~= "no"@);
    assert(ascii_lower_text(label_name(lab)) =~= "norwegian"@);
    assert(Language::Norwegian.spec_aliases()[1] == "norwegian"@);
    assert(no_ascii_upper("no"@));
    assert(no_ascii_upper("norwegian"@));
    assert(no_ascii_upper("norsk"@));
}

proof fn lemma_codes_odia()
    ensures
        codes_agree(Language::Odia),
{
    reveal_strlit("Odia (OR)");
    reveal_strlit("or");
    reveal_strlit("or");
    reveal_strlit("odia");
    reveal_strlit("oriya");
    reveal_strlit("ଓଡ଼ିଆ");
    let lab = Language::Odia.spec_label();
    assert(code_of_label(lab) =~= "or"@);
    assert(ascii_lower_text(label_name(lab)) =~= "odia"@);
    assert(Language::Odia.spec_aliases()[1] == "odia"@);
    assert(no_ascii_upper("or"@));
    assert(no_ascii_upper("odia"@));
    assert(no_ascii_upper("oriya"@));
    assert(no_ascii_upper("ଓଡ଼ିଆ"@));
}

proof fn lemma_codes_punjabi()
    ensures
        codes_agree(Language::Punjabi),
{
    reveal_strlit("Punjabi (PA)");
    reveal_strlit("pa");
    reveal_strlit("pa");
    reveal_strlit("punjabi");
    reveal_strlit("ਪੰਜਾਬੀ");
    let lab = Language::Punjabi.spec_label();
    assert(code_of_label(lab) =~= "pa"@);
    assert(ascii_lower_text(label_name(lab)) =~= "punjabi"@);
    assert(Language::Punjabi.spec_aliases()[1] == "punjabi"@);
    assert(no_ascii_upper("pa"@));
    assert(no_ascii_upper("punjabi"@));
    assert(no_ascii_upper("ਪੰਜਾਬੀ"@));
}

proof fn lemma_codes_serbian()
    ensures
        codes_agree(Language::Serbian),
{
    reveal_strlit("Serbian (SR)");
    reveal_strlit("sr");
    reveal_strlit("sr");
    reveal_strlit("serbian");
    reveal_strlit("српски");
    let lab = Language::Serbian.spec_label();
    assert(code_of_label(lab) =~= "sr"@);
    assert(ascii_lower_text(label_name(lab)) =~= "serbian"@);
    assert(Language::Serbian.spec_aliases()[1] == "serbian"@);
    assert(no_ascii_upper("sr"@));
    assert(no_ascii_upper("serbian"@));
    assert(no_ascii_upper("српски"@));
}

proof fn lemma_codes_sinhala()
    ensures
        codes_agree(Language::Sinhala),
{
    reveal_strlit("Sinhala (SI)");
    reveal_strlit("si");
    reveal_strlit("si");
    reveal_strlit("sinhala");
    reveal_strlit("sinhalese");
    reveal_strlit("සිංහල");
    let lab = Language::Sinhala.spec_label();
    assert(code_of_label(lab) =~= "si"@);
    assert(ascii_lower_text(label_name(lab)) =~= "sinhala"@);
    assert(Language::Sinhala.spec_aliases()[1] == "sinhala"@);
    assert(no_ascii_upper("si"@));
    assert(no_ascii_upper("sinhala"@));
    assert(no_ascii_upper("sinhalese"@));
    assert(no_ascii_upper("සිංහල"@));
}

proof fn lemma_codes_slovak()
    ensures
        codes_agree(Language::Slovak),
{
    reveal_strlit("Slovak (SK)");
    reveal_strlit("sk");
    reveal_strlit("sk");
    reveal_strlit("slovak");
    reveal_strlit("slovenčina");
    let lab = Language::Slovak.spec_label();
    assert(code_of_label(lab) =~= "sk"@);
    assert(ascii_lower_text(label_name(lab)) =~= "slovak"@);
    assert(Language::Slovak.spec_aliases()[1] == "slovak"@);
    assert(no_ascii_upper("sk"@));
    assert(no_ascii_upper("slovak"@));
    assert(no_ascii_upper("slovenčina"@));
}

proof fn lemma_codes_slovenian()
    ensures
        codes_agree(Language::Slovenian),
{
    reveal_strlit("Slovenian (SL)");
    reveal_strlit("sl");
    reveal_strlit("sl");
    reveal_strlit("slovenian");
    reveal_strlit("slovenščina");
    let lab = Language::Slovenian.spec_label();
    assert(code_of_label(lab) =~= "sl"@);
    assert(ascii_lower_text(label_name(lab)) =~= "slovenian"@);
    assert(Language::Slovenian.spec_aliases()[1] == "slovenian"@);
    assert(no_ascii_upper("sl"@));
    assert(no_ascii_upper("slovenian"@));
    assert(no_ascii_upper("slovenščina"@));
}

proof fn lemma_codes_somali()
    ensures
        codes_agree(Language::Somali),
{
    reveal_strlit("Somali (SO)");
    reveal_strlit("so");
    reveal_strlit("so");
    reveal_strlit("somali");
    reveal_strlit("soomaali");
    let lab = Language::Somali.spec_label();
    assert(code_of_label(lab) =~= "so"@);
    assert(ascii_lower_text(label_name(lab)) =~= "somali"@);
    assert(Language::Somali.spec_aliases()[1] == "somali"@);
    assert(no_ascii_upper("so"@));
    assert(no_ascii_upper("somali"@));
    assert(no_ascii_upper("soomaali"@));
}

proof fn lemma_codes_swedish()
    ensures
        codes_agree(Language::Swedish),
{
    reveal_strlit("Swedish (SV)");
    reveal_strlit("sv");
    reveal_strlit("sv");
    reveal_strlit("swedish");
    reveal_strlit("svenska");
    let lab = Language::Swedish.spec_label();
    assert(code_of_label(lab) =~= "sv"@);
    assert(ascii_lower_text(label_name(lab)) =~= "swedish"@);
    assert(Language::Swedish.spec_aliases()[1] == "swedish"@);
    assert(no_ascii_upper("sv"@));
    assert(no_ascii_upper("swedish"@));
    assert(no_ascii_upper("svenska"@));
}

proof fn lemma_codes_tagalog()
    ensures
        codes_agree(Language::Tagalog),
{
    reveal_strlit("Tagalog (TL)");
    reveal_strlit("tl");
    reveal_strlit("tl");
    reveal_strlit("tagalog");
    reveal_strlit("filipino");
    let lab = Language::Tagalog.spec_label();
    assert(code_of_label(lab) =~= "tl"@);
    assert(ascii_lower_text(label_name(lab)) =~= "tagalog"@);
    assert(Language::Tagalog.spec_aliases()[1] == "tagalog"@);
    assert(no_ascii_upper("tl"@));
    assert(no_ascii_upper("tagalog"@));
    assert(no_ascii_upper("filipino"@));
}

proof fn lemma_codes_uzbek()
    ensures
        codes_agree(Language::Uzbek),
{
    reveal_strlit("Uzbek (UZ)");
    reveal_strlit("uz");
    reveal_strlit("uz");
    reveal_strlit("uzbek");
    let lab = Language::Uzbek.spec_label();
    assert(code_of_label(lab) =~= "uz"@);
    assert(ascii_lower_text(label_name(lab)) =~= "uzbek"@);
    assert(Language::Uzbek.spec_aliases()[1] == "uzbek"@);
    assert(no_ascii_upper("uz"@));
    assert(no_ascii_upper("uzbek"@));
}

proof fn lemma_codes_welsh()
    ensures
        codes_agree(Language::Welsh),
{
    reveal_strlit("Welsh (CY)");
    reveal_strlit("cy");
    reveal_strlit("cy");
    reveal_strlit("welsh");
    reveal_strlit("cymraeg");
    let lab = Language::Welsh.spec_label();
    assert(code_of_label(lab) =~= "cy"@);
    assert(ascii_lower_text(label_name(lab)) =~= "welsh"@);
    assert(Language::Welsh.spec_aliases()[1] == "welsh"@);
    assert(no_ascii_upper("cy"@));
    assert(no_ascii_upper("welsh"@));
    assert(no_ascii_upper("cymraeg"@));
}

proof fn lemma_codes_yoruba()
    ensures
        codes_agree(Language::Yoruba),
{
    reveal_strlit("Yoruba (YO)");
    reveal_strlit("yo");
    reveal_strlit("yo");
    reveal_strlit("yoruba");
    let lab = Language::Yoruba.spec_label();
    assert(code_of_label(lab) =~= "yo"@);
    assert(ascii_lower_text(label_name(lab)) =~= "yoruba"@);
    assert(Language::Yoruba.spec_aliases()[1] == "yoruba"@);
    assert(no_ascii_upper("yo"@));
    assert(no_ascii_upper("yoruba"@));
}

proof fn lemma_codes_zulu()
    ensures
        codes_agree(Language::Zulu),
{
    reveal_strlit("Zulu (ZU)");
    reveal_strlit("zu");
    reveal_strlit("zu");
    reveal_strlit("zulu");
    let lab = Language::Zulu.spec_label();
    assert(code_of_label(lab) =~= "zu"@);
    assert(ascii_lower_text(label_name(lab)) =~= "zulu"@);
    assert(Language::Zulu.spec_aliases()[1] == "zulu"@);
    assert(no_ascii_upper("zu"@));
    assert(no_ascii_upper("zulu"@));
}

/// The names by which a language is searched besides its code and its
/// English name: its own names (in its own script, and spelled without
/// accents where players type them so) and other English names in use.
pub open spec fn other_names(l: Language) -> Seq<Seq<char>> {
    match l {
        Language::English => seq![],
        Language::French => seq!["français"@, "francais"@],
        Language::Japanese => seq!["日本語"@],
        Language::Arabic => seq!["العربية"@],
        Language::Russian => seq!["русский"@],
        Language::Spanish => seq!["español"@, "espanol"@],
        Language::Chinese => seq!["mandarin"@, "中文"@, "普通话"@],
        Language::Hindi => seq!["हिंदी"@],
        Language::Bengali => seq!["bangla"@, "বাংলা"@],
        Language::Portuguese => seq!["português"@, "portugues"@],
        Language::Indonesian => seq!["bahasa"@],
        Language::Urdu => seq!["اردو"@],
        Language::German => seq!["deutsch"@],
        Language::Korean => seq!["한국어"@],
        Language::Vietnamese => seq![],
        Language::Telugu => seq!["తెలుగు"@],
        Language::Marathi => seq!["मराठी"@],
        Language::Tamil => seq!["தமிழ்"@],
        Language::Turkish => seq!["türkçe"@, "turkce"@],
        Language::Persian => seq!["farsi"@, "فارسی"@],
        Language::Italian => seq!["italiano"@],
        Language::Thai => seq!["ภาษาไทย"@],
        Language::Swahili => seq!["kiswahili"@],
        Language::Polish => seq!["polski"@],
        Language::Ukrainian => seq!["українська"@],
        Language::Dutch => seq!["nederlands"@],
        Language::Greek => seq!["ελληνικά"@],
        Language::Romanian => seq!["română"@, "romana"@],
        Language::Czech => seq!["čeština"@, "cestina"@],
        Language::Hungarian => seq!["magyar"@],
        Language::Afrikaans => seq![],
        Language::Albanian => seq!["shqip"@],
        Language::Amharic => seq!["አማርኛ"@],
        Language::Armenian => seq!["հայերեն"@],
        Language::Azerbaijani => seq!["azərbaycan"@],
        Language::Basque => seq!["euskera"@],
        Language::Belarusian => seq!["беларуская"@],
        Language::Bulgarian => seq!["български"@],
        Language::Burmese => seq!["myanmar"@, "မြန်မာဘာသာ"@],
        Language::Catalan => seq!["català"@],
        Language::Croatian => seq!["hrvatski"@],
        Language::Danish => seq!["dansk"@],
        Language::Estonian => seq!["eesti"@],
        Language::Finnish => seq!["suomi"@],
        Language::Galician => seq!["galego"@],
        Language::Georgian => seq!["ქართული"@],
        Language::Gujarati => seq!["ગુજરાતી"@],
        Language::Hausa => seq![],
        Language::Hebrew => seq!["עברית"@],
        Language::Icelandic => seq!["íslenska"@],
        Language::Irish => seq!["gaeilge"@],
        Language::Kannada => seq!["ಕನ್ನಡ"@],
        Language::Kazakh => seq!["қазақ"@],
        Language::Khmer => seq!["ខ្មែរ"@],
        Language::Latvian => seq!["latviešu"@],
        Language::Lithuanian => seq!["lietuvių"@],
        Language::Macedonian => seq!["македонски"@],
        Language::Malay => seq!["melayu"@],
        Language::Malayalam => seq!["മലയാളം"@],
        Language::Mongolian => seq!["монгол"@],
        Language::Nepali => seq!["नेपाली"@],
        Language::Norwegian => seq!["norsk"@],
        Language::Odia => seq!["oriya"@, "ଓଡ଼ିଆ"@],
        Language::Punjabi => seq!["ਪੰਜਾਬੀ"@],
        Language::Serbian => seq!["српски"@],
        Language::Sinhala => seq!["sinhalese"@, "සිංහල"@],
        Language::Slovak => seq!["slovenčina"@],
        Language::Slovenian => seq!["slovenščina"@],
        Language::Somali => seq!["soomaali"@],
        Language::Swedish => seq!["svenska"@],
        Language::Tagalog => seq!["filipino"@],
        Language::Uzbek => seq![],
        Language::Welsh => seq!["cymraeg"@],
        Language::Yoruba => seq![],
        Language::Zulu => seq![],
    }
}

/// The aliases of a language are its code, its English name and its other
/// names, in that order; so each of its other names, and each beginning of
/// one, finds it in the guess box.
pub proof fn law_every_name_finds_language(l: Language)
    ensures
        l.spec_aliases().len() == 2 + other_names(l).len(),
        l.spec_aliases().skip(2) == other_names(l),
        forall|j: int, k: int| 0 <= j < other_names(l).len() && 1 <= k <= other_names(l)[j].len()
            ==> #[trigger] l.matches_query(other_names(l)[j].take(k)),
{
    match l {
        Language::English => { assert(Language::English.spec_aliases().skip(2) =~= other_names(Language::English)); },
        Language::French => { assert(Language::French.spec_aliases().skip(2) =~= other_names(Language::French)); },
        Language::Japanese => { assert(Language::Japanese.spec_aliases().skip(2) =~= other_names(Language::Japanese)); },
        Language::Arabic => { assert(Language::Arabic.spec_aliases().skip(2) =~= other_names(Language::Arabic)); },
        Language::Russian => { assert(Language::Russian.spec_aliases().skip(2) =~= other_names(Language::Russian)); },
        Language::Spanish => { assert(Language::Spanish.spec_aliases().skip(2) =~= other_names(Language::Spanish)); },
        Language::Chinese => { assert(Language::Chinese.spec_aliases().skip(2) =~= other_names(Language::Chinese)); },
        Language::Hindi => { assert(Language::Hindi.spec_aliases().skip(2) =~= other_names(Language::Hindi)); },
        Language::Bengali => { assert(Language::Bengali.spec_aliases().skip(2) =~= other_names(Language::Bengali)); },
        Language::Portuguese => { assert(Language::Portuguese.spec_aliases().skip(2) =~= other_names(Language::Portuguese)); },
        Language::Indonesian => { assert(Language::Indonesian.spec_aliases().skip(2) =~= other_names(Language::Indonesian)); },
        Language::Urdu => { assert(Language::Urdu.spec_aliases().skip(2) =~= other_names(Language::Urdu)); },
        Language::German => { assert(Language::German.spec_aliases().skip(2) =~= other_names(Language::German)); },
        Language::Korean => { assert(Language::Korean.spec_aliases().skip(2) =~= other_names(Language::Korean)); },
        Language::Vietnamese => { assert(Language::Vietnamese.spec_aliases().skip(2) =~= other_names(Language::Vietnamese)); },
        Language::Telugu => { assert(Language::Telugu.spec_aliases().skip(2) =~= other_names(Language::Telugu)); },
        Language::Marathi => { assert(Language::Marathi.spec_aliases().skip(2) =~= other_names(Language::Marathi)); },
        Language::Tamil => { assert(Language::Tamil.spec_aliases().skip(2) =~= other_names(Language::Tamil)); },
        Language::Turkish => { assert(Language::Turkish.spec_aliases().skip(2) =~= other_names(Language::Turkish)); },
        Language::Persian => { assert(Language::Persian.spec_aliases().skip(2) =~= other_names(Language::Persian)); },
        Language::Italian => { assert(Language::Italian.spec_aliases().skip(2) =~= other_names(Language::Italian)); },
        Language::Thai => { assert(Language::Thai.spec_aliases().skip(2) =~= other_names(Language::Thai)); },
        Language::Swahili => { assert(Language::Swahili.spec_aliases().skip(2) =~= other_names(Language::Swahili)); },
        Language::Polish => { assert(Language::Polish.spec_aliases().skip(2) =~= other_names(Language::Polish)); },
        Language::Ukrainian => { assert(Language::Ukrainian.spec_aliases().skip(2) =~= other_names(Language::Ukrainian)); },
        Language::Dutch => { assert(Language::Dutch.spec_aliases().skip(2) =~= other_names(Language::Dutch)); },
        Language::Greek => { assert(Language::Greek.spec_aliases().skip(2) =~= other_names(Language::Greek)); },
        Language::Romanian => { assert(Language::Romanian.spec_aliases().skip(2) =~= other_names(Language::Romanian)); },
        Language::Czech => { assert(Language::Czech.spec_aliases().skip(2) =~= other_names(Language::Czech)); },
        Language::Hungarian => { assert(Language::Hungarian.spec_aliases().skip(2) =~= other_names(Language::Hungarian)); },
        Language::Afrikaans => { assert(Language::Afrikaans.spec_aliases().skip(2) =~= other_names(Language::Afrikaans)); },
        Language::Albanian => { assert(Language::Albanian.spec_aliases().skip(2) =~= other_names(Language::Albanian)); },
        Language::Amharic => { assert(Language::Amharic.spec_aliases().skip(2) =~= other_names(Language::Amharic)); },
        Language::Armenian => { assert(Language::Armenian.spec_aliases().skip(2) =~= other_names(Language::Armenian)); },
        Language::Azerbaijani => { assert(Language::Azerbaijani.spec_aliases().skip(2) =~= other_names(Language::Azerbaijani)); },
        Language::Basque => { assert(Language::Basque.spec_aliases().skip(2) =~= other_names(Language::Basque)); },
        Language::Belarusian => { assert(Language::Belarusian.spec_aliases().skip(2) =~= other_names(Language::Belarusian)); },
        Language::Bulgarian => { assert(Language::Bulgarian.spec_aliases().skip(2) =~= other_names(Language::Bulgarian)); },
        Language::Burmese => { assert(Language::Burmese.spec_aliases().skip(2) =~= other_names(Language::Burmese)); },
        Language::Catalan => { assert(Language::Catalan.spec_aliases().skip(2) =~= other_names(Language::Catalan)); },
        Language::Croatian => { assert(Language::Croatian.spec_aliases().skip(2) =~= other_names(Language::Croatian)); },
        Language::Danish => { assert(Language::Danish.spec_aliases().skip(2) =~= other_names(Language::Danish)); },
        Language::Estonian => { assert(Language::Estonian.spec_aliases().skip(2) =~= other_names(Language::Estonian)); },
        Language::Finnish => { assert(Language::Finnish.spec_aliases().skip(2) =~= other_names(Language::Finnish)); },
        Language::Galician => { assert(Language::Galician.spec_aliases().skip(2) =~= other_names(Language::Galician)); },
        Language::Georgian => { assert(Language::Georgian.spec_aliases().skip(2) =~= other_names(Language::Georgian)); },
        Language::Gujarati => { assert(Language::Gujarati.spec_aliases().skip(2) =~= other_names(Language::Gujarati)); },
        Language::Hausa => { assert(Language::Hausa.spec_aliases().skip(2) =~= other_names(Language::Hausa)); },
        Language::Hebrew => { assert(Language::Hebrew.spec_aliases().skip(2) =~= other_names(Language::Hebrew)); },
        Language::Icelandic => { assert(Language::Icelandic.spec_aliases().skip(2) =~= other_names(Language::Icelandic)); },
        Language::Irish => { assert(Language::Irish.spec_aliases().skip(2) =~= other_names(Language::Irish)); },
        Language::Kannada => { assert(Language::Kannada.spec_aliases().skip(2) =~= other_names(Language::Kannada)); },
        Language::Kazakh => { assert(Language::Kazakh.spec_aliases().skip(2) =~= other_names(Language::Kazakh)); },
        Language::Khmer => { assert(Language::Khmer.spec_aliases().skip(2) =~= other_names(Language::Khmer)); },
        Language::Latvian => { assert(Language::Latvian.spec_aliases().skip(2) =~= other_names(Language::Latvian)); },
        Language::Lithuanian => { assert(Language::Lithuanian.spec_aliases().skip(2) =~= other_names(Language::Lithuanian)); },
        Language::Macedonian => { assert(Language::Macedonian.spec_aliases().skip(2) =~= other_names(Language::Macedonian)); },
        Language::Malay => { assert(Language::Malay.spec_aliases().skip(2) =~= other_names(Language::Malay)); },
        Language::Malayalam => { assert(Language::Malayalam.spec_aliases().skip(2) =~= other_names(Language::Malayalam)); },
        Language::Mongolian => { assert(Language::Mongolian.spec_aliases().skip(2) =~= other_names(Language::Mongolian)); },
        Language::Nepali => { assert(Language::Nepali.spec_aliases().skip(2) =~= other_names(Language::Nepali)); },
        Language::Norwegian => { assert(Language::Norwegian.spec_aliases().skip(2) =~= other_names(Language::Norwegian)); },
        Language::Odia => { assert(Language::Odia.spec_aliases().skip(2) =~= other_names(Language::Odia)); },
        Language::Punjabi => { assert(Language::Punjabi.spec_aliases().skip(2) =~= other_names(Language::Punjabi)); },
        Language::Serbian => { assert(Language::Serbian.spec_aliases().skip(2) =~= other_names(Language::Serbian)); },
        Language::Sinhala => { assert(Language::Sinhala.spec_aliases().skip(2) =~= other_names(Language::Sinhala)); },
        Language::Slovak => { assert(Language::Slovak.spec_aliases().skip(2) =~= other_names(Language::Slovak)); },
        Language::Slovenian => { assert(Language::Slovenian.spec_aliases().skip(2) =~= other_names(Language::Slovenian)); },
        Language::Somali => { assert(Language::Somali.spec_aliases().skip(2) =~= other_names(Language::Somali)); },
        Language::Swedish => { assert(Language::Swedish.spec_aliases().skip(2) =~= other_names(Language::Swedish)); },
        Language::Tagalog => { assert(Language::Tagalog.spec_aliases().skip(2) =~= other_names(Language::Tagalog)); },
        Language::Uzbek => { assert(Language::Uzbek.spec_aliases().skip(2) =~= other_names(Language::Uzbek)); },
        Language::Welsh => { assert(Language::Welsh.spec_aliases().skip(2) =~= other_names(Language::Welsh)); },
        Language::Yoruba => { assert(Language::Yoruba.spec_aliases().skip(2) =~= other_names(Language::Yoruba)); },
        Language::Zulu => { assert(Language::Zulu.spec_aliases().skip(2) =~= other_names(Language::Zulu)); },
    }
    assert forall|j: int, k: int| 0 <= j < other_names(l).len() && 1 <= k <= other_names(l)[j].len()
        implies #[trigger] l.matches_query(other_names(l)[j].take(k)) by {
        let name = other_names(l)[j];
        assert(l.spec_aliases()[j + 2] == name);
        assert(name.take(k) =~= name.subrange(0, k));
        assert(name.take(k).is_prefix_of(l.spec_aliases()[j + 2]));
    }
}

/// The label of every language ends in its code, `Name (XX)`; the code, in
/// small letters, is the language's Wikipedia edition and its first search
/// alias; its English name, in small letters, is an alias too; and no alias
/// holds an ASCII capital, so a query made small can find it.
pub proof fn law_label_code_names_language(l: Language)
    ensures
        codes_agree(l),
{
    match l {
        Language::English => lemma_codes_english(),
        Language::French => lemma_codes_french(),
        Language::Japanese => lemma_codes_japanese(),
        Language::Arabic => lemma_codes_arabic(),
        Language::Russian => lemma_codes_russian(),
        Language::Spanish => lemma_codes_spanish(),
        Language::Chinese => lemma_codes_chinese(),
        Language::Hindi => lemma_codes_hindi(),
        Language::Bengali => lemma_codes_bengali(),
        Language::Portuguese => lemma_codes_portuguese(),
        Language::Indonesian => lemma_codes_indonesian(),
        Language::Urdu => lemma_codes_urdu(),
        Language::German => lemma_codes_german(),
        Language::Korean => lemma_codes_korean(),
        Language::Vietnamese => lemma_codes_vietnamese(),
        Language::Telugu => lemma_codes_telugu(),
        Language::Marathi => lemma_codes_marathi(),
        Language::Tamil => lemma_codes_tamil(),
        Language::Turkish => lemma_codes_turkish(),
        Language::Persian => lemma_codes_persian(),
        Language::Italian => lemma_codes_italian(),
        Language::Thai => lemma_codes_thai(),
        Language::Swahili => lemma_codes_swahili(),
        Language::Polish => lemma_codes_polish(),
        Language::Ukrainian => lemma_codes_ukrainian(),
        Language::Dutch => lemma_codes_dutch(),
        Language::Greek => lemma_codes_greek(),
        Language::Romanian => lemma_codes_romanian(),
        Language::Czech => lemma_codes_czech(),
        Language::Hungarian => lemma_codes_hungarian(),
        Language::Afrikaans => lemma_codes_afrikaans(),
        Language::Albanian => lemma_codes_albanian(),
        Language::Amharic => lemma_codes_amharic(),
        Language::Armenian => lemma_codes_armenian(),
        Language::Azerbaijani => lemma_codes_azerbaijani(),
        Language::Basque => lemma_codes_basque(),
        Language::Belarusian => lemma_codes_belarusian(),
        Language::Bulgarian => lemma_codes_bulgarian(),
        Language::Burmese => lemma_codes_burmese(),
        Language::Catalan => lemma_codes_catalan(),
        Language::Croatian => lemma_codes_croatian(),
        Language::Danish => lemma_codes_danish(),
        Language::Estonian => lemma_codes_estonian(),
        Language::Finnish => lemma_codes_finnish(),
        Language::Galician => lemma_codes_galician(),
        Language::Georgian => lemma_codes_georgian(),
        Language::Gujarati => lemma_codes_gujarati(),
        Language::Hausa => lemma_codes_hausa(),
        Language::Hebrew => lemma_codes_hebrew(),
        Language::Icelandic => lemma_codes_icelandic(),
        Language::Irish => lemma_codes_irish(),
        Language::Kannada => lemma_codes_kannada(),
        Language::Kazakh => lemma_codes_kazakh(),
        Language::Khmer => lemma_codes_khmer(),
        Language::Latvian => lemma_codes_latvian(),
        Language::Lithuanian => lemma_codes_lithuanian(),
        Language::Macedonian => lemma_codes_macedonian(),
        Language::Malay => lemma_codes_malay(),
        Language::Malayalam => lemma_codes_malayalam(),
        Language::Mongolian => lemma_codes_mongolian(),
        Language::Nepali => lemma_codes_nepali(),
        Language::Norwegian => lemma_codes_norwegian(),
        Language::Odia => lemma_codes_odia(),
        Language::Punjabi => lemma_codes_punjabi(),
        Language::Serbian => lemma_codes_serbian(),
        Language::Sinhala => lemma_codes_sinhala(),
        Language::Slovak => lemma_codes_slovak(),
        Language::Slovenian => lemma_codes_slovenian(),
        Language::Somali => lemma_codes_somali(),
        Language::Swedish => lemma_codes_swedish(),
        Language::Tagalog => lemma_codes_tagalog(),
        Language::Uzbek => lemma_codes_uzbek(),
        Language::Welsh => lemma_codes_welsh(),
        Language::Yoruba => lemma_codes_yoruba(),
        Language::Zulu => lemma_codes_zulu(),
    }
}

/// Different languages have different Wikipedia editions.
pub proof fn law_wiki_codes_distinct(a: Language, b: Language)
    requires
        spec_wiki_code(a) == spec_wiki_code(b),
    ensures
        a == b,
{
    law_label_code_names_language(a);
    law_label_code_names_language(b);
    lemma_label_code(a);
    lemma_label_code(b);
    let la = a.spec_label();
    let lb = b.spec_label();
    assert(code_of_label(la)[0] == code_of_label(lb)[0]);
    assert(code_of_label(la)[1] == code_of_label(lb)[1]);
    assert(label_code(la) == label_code(lb));
}

} // verus!
