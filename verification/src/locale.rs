//! The language in which the service answers: a code from a fixed set of
//! supported ones, each with a name that a person can read.

use crate::text::same_text;
use vstd::prelude::*;
use vstd::string::*;

verus! {

/// The codes of the supported languages, in the order in which they are
/// listed to the user. The service's client writes the code of Cantonese
/// with an underscore.
pub open spec fn supported_codes() -> Seq<Seq<char>> {
    seq![
        "zh-CN"@,
        "zh_HK"@,
        "zh-TW"@,
        "en-US"@,
        "ar-ME"@,
        "de-DE"@,
        "es-ES"@,
        "es-419"@,
        "fr-FR"@,
        "it-IT"@,
        "pt-BR"@,
        "pt-PT"@,
        "ru-RU"@,
    ]
}

/// The code that is used where neither the user nor the system names a
/// supported language.
pub open spec fn default_code() -> Seq<char> {
    "en-US"@
}

/// Whether `code` is one of the supported languages.
pub open spec fn is_supported_code(code: Seq<char>) -> bool {
    supported_codes().contains(code)
}

/// The name of the supported language `code`, for a person to read; the
/// empty text for any other code.
pub open spec fn language_name(code: Seq<char>) -> Seq<char> {
    if code == "zh-CN"@ {
        "Chinese (China)"@
    } else if code == "zh_HK"@ {
        "Chinese (Cantonese)"@
    } else if code == "zh-TW"@ {
        "Chinese (Mandarin)"@
    } else if code == "en-US"@ {
        "English (US)"@
    } else if code == "ar-ME"@ {
        "Arabic"@
    } else if code == "de-DE"@ {
        "German"@
    } else if code == "es-ES"@ {
        "Spanish (European)"@
    } else if code == "es-419"@ {
        "Spanish (Latin America)"@
    } else if code == "fr-FR"@ {
        "French"@
    } else if code == "it-IT"@ {
        "Italian"@
    } else if code == "pt-BR"@ {
        "Portuguese (Brazil)"@
    } else if code == "pt-PT"@ {
        "Portuguese (Europe)"@
    } else if code == "ru-RU"@ {
        "Russian"@
    } else {
        Seq::empty()
    }
}

/// Makes the `crunchyroll_rs::Locale` of `code` and calls its
/// `to_human_readable`. For each supported code the contract states the name
/// that the table of that function holds for the locale of the code.
#[verifier::external_body]
fn human_readable(code: &str) -> (r: String)
    requires
        is_supported_code(code@),
    ensures
        r@ == language_name(code@),
{
    crunchyroll_rs::Locale::from(code.to_string()).to_human_readable()
}

/// The texts of a sequence of string slices.
pub open spec fn texts(v: Seq<&'static str>) -> Seq<Seq<char>> {
    v.map_values(|s: &'static str| s@)
}

/// The codes of the supported languages.
pub fn supported_locales() -> (r: Vec<&'static str>)
    ensures
        texts(r@) == supported_codes(),
{
    let r = vec![
        "zh-CN",
        "zh_HK",
        "zh-TW",
        "en-US",
        "ar-ME",
        "de-DE",
        "es-ES",
        "es-419",
        "fr-FR",
        "it-IT",
        "pt-BR",
        "pt-PT",
        "ru-RU",
    ];
    assert(texts(r@) =~= supported_codes());
    r
}

/// Whether `code` is one of the supported languages.
pub fn is_supported(code: &str) -> (r: bool)
    ensures
        r == is_supported_code(code@),
{
    let all = supported_locales();
    let mut i: usize = 0;
    while i < all.len()
        invariant
            i <= all.len(),
            texts(all@) == supported_codes(),
            forall|j: int| 0 <= j < i ==> supported_codes()[j] != code@,
        decreases all.len() - i,
    {
        assert(texts(all@)[i as int] == all@[i as int]@);
        if same_text(all[i], code) {
            return true;
        }
        i += 1;
    }
    false
}

/// A supported language as it is listed to the user.
#[derive(Clone, Debug, PartialEq, Eq)]
pub struct LanguageEntry {
    pub code: String,
    pub label: String,
}

/// A listed language as plain text values.
pub struct LanguageEntryModel {
    pub code: Seq<char>,
    pub label: Seq<char>,
}

impl View for LanguageEntry {
    type V = LanguageEntryModel;

    open spec fn view(&self) -> LanguageEntryModel {
        LanguageEntryModel { code: self.code@, label: self.label@ }
    }
}

/// The views of a sequence of entries.
pub open spec fn entry_models(entries: Seq<LanguageEntry>) -> Seq<LanguageEntryModel> {
    entries.map_values(|e: LanguageEntry| e@)
}

/// Every supported language with its name, each once, in the order of
/// `supported_codes`.
pub open spec fn supported_listing() -> Seq<LanguageEntryModel> {
    Seq::new(
        supported_codes().len(),
        |i: int|
            LanguageEntryModel {
                code: supported_codes()[i],
                label: language_name(supported_codes()[i]),
            },
    )
}

/// Every supported language with its name.
pub fn supported_languages() -> (r: Vec<LanguageEntry>)
    ensures
        entry_models(r@) == supported_listing(),
{
    let all = supported_locales();
    let mut r: Vec<LanguageEntry> = Vec::new();
    let mut i: usize = 0;
    while i < all.len()
        invariant
            i <= all.len(),
            texts(all@) == supported_codes(),
            r@.len() == i,
            forall|j: int| 0 <= j < i ==> (#[trigger] r@[j])@ == supported_listing()[j],
        decreases all.len() - i,
    {
        assert(texts(all@)[i as int] == all@[i as int]@);
        assert(supported_codes()[i as int] == all@[i as int]@);
        let label = human_readable(all[i]);
        r.push(LanguageEntry { code: all[i].to_owned(), label });
        i += 1;
    }
    assert(entry_models(r@) =~= supported_listing());
    r
}

/// One listed language: its code between backticks, then its name in
/// parentheses.
pub open spec fn entry_text(entry: LanguageEntryModel) -> Seq<char> {
    "`"@ + entry.code + "` ("@ + entry.label + ")"@
}

/// The listed languages, one after the other, with a comma and a space
/// between two of them.
pub open spec fn listing_text(entries: Seq<LanguageEntryModel>) -> Seq<char>
    decreases entries.len(),
{
    if entries.len() == 0 {
        Seq::empty()
    } else if entries.len() == 1 {
        entry_text(entries[0])
    } else {
        listing_text(entries.drop_last()) + ", "@ + entry_text(entries.last())
    }
}

/// What the refusal of a language begins with.
pub open spec fn unsupported_language_header() -> Seq<char> {
    "Via `--lang` specified language is not supported. Supported languages: "@
}

/// The refusal of a language that is not supported: the header, then the
/// languages in `entries`.
pub fn unsupported_language_message(entries: &Vec<LanguageEntry>) -> (r: String)
    ensures
        r@ == unsupported_language_header() + listing_text(entry_models(entries@)),
{
    let ghost models = entry_models(entries@);
    let mut line = "Via `--lang` specified language is not supported. Supported languages: ".to_owned();
    let mut i: usize = 0;
    assert(models.take(0) =~= Seq::<LanguageEntryModel>::empty());
    assert(line@ =~= unsupported_language_header() + listing_text(models.take(0)));
    while i < entries.len()
        invariant
            i <= entries.len(),
            models == entry_models(entries@),
            line@ == unsupported_language_header() + listing_text(models.take(i as int)),
        decreases entries.len() - i,
    {
        let ghost before = line@;
        if i > 0 {
            line.append(", ");
        }
        line.append("`");
        line.append(entries[i].code.as_str());
        line.append("` (");
        line.append(entries[i].label.as_str());
        line.append(")");
        proof {
            let now = models.take(i as int + 1);
            assert(now.drop_last() =~= models.take(i as int));
            assert(now.last() == entries@[i as int]@);
            if i == 0 {
                assert(listing_text(now) == entry_text(now[0]));
                assert(line@ =~= unsupported_language_header() + listing_text(now));
            } else {
                assert(line@ =~= before + (", "@ + entry_text(now.last())));
                assert(line@ =~= unsupported_language_header() + listing_text(now));
            }
        }
        i += 1;
    }
    assert(models.take(entries.len() as int) =~= models);
    line
}

/// Where the language of a session came from.
#[derive(Clone, Copy, Debug, PartialEq, Eq, Structural)]
pub enum LocaleSource {
    /// The user named it.
    Explicit,
    /// It is the language of the system.
    System,
    /// The language of the system is not supported, so the default stands
    /// in; the user is warned.
    Fallback,
}

/// The language of a session.
#[derive(Clone, Debug, PartialEq, Eq)]
pub struct ResolvedLocale {
    pub code: String,
    pub source: LocaleSource,
}

/// The refusal of a language that the user named: what was named, and what
/// could have been.
#[derive(Clone, Debug, PartialEq, Eq)]
pub struct UnsupportedLanguage {
    pub requested: String,
    pub supported: Vec<LanguageEntry>,
}

/// The text of an optional string slice.
pub open spec fn optional_text(s: Option<&str>) -> Option<Seq<char>> {
    match s {
        Some(s) => Some(s@),
        None => None,
    }
}

/// The language of a session: what the user named, if that is supported;
/// with nothing named, the language of the system if that is supported, else
/// the default. `None` where the user named an unsupported language.
pub open spec fn resolved(explicit: Option<Seq<char>>, system: Seq<char>) -> Option<
    (Seq<char>, LocaleSource),
> {
    match explicit {
        Some(code) => if is_supported_code(code) {
            Some((code, LocaleSource::Explicit))
        } else {
            None
        },
        None => if is_supported_code(system) {
            Some((system, LocaleSource::System))
        } else {
            Some((default_code(), LocaleSource::Fallback))
        },
    }
}

/// Picks the language of a session from what the user named and the
/// language of the system. An unsupported language that the user named is
/// refused, with every supported language listed; an unsupported language
/// of the system gives way to the default.
pub fn resolve_locale(explicit: Option<&str>, system: &str) -> (r: Result<
    ResolvedLocale,
    UnsupportedLanguage,
>)
    ensures
        match r {
            Ok(locale) => resolved(optional_text(explicit), system@) == Some(
                (locale.code@, locale.source),
            ) && is_supported_code(locale.code@),
            Err(refusal) => {
                &&& resolved(optional_text(explicit), system@) is None
                &&& explicit matches Some(code) && refusal.requested@ == code@
                &&& entry_models(refusal.supported@) == supported_listing()
            },
        },
{
    match explicit {
        Some(code) => {
            if is_supported(code) {
                Ok(ResolvedLocale { code: code.to_owned(), source: LocaleSource::Explicit })
            } else {
                Err(
                    UnsupportedLanguage {
                        requested: code.to_owned(),
                        supported: supported_languages(),
                    },
                )
            }
        },
        None => {
            if is_supported(system) {
                Ok(ResolvedLocale { code: system.to_owned(), source: LocaleSource::System })
            } else {
                proof {
                    lemma_default_is_supported();
                }
                Ok(ResolvedLocale { code: "en-US".to_owned(), source: LocaleSource::Fallback })
            }
        },
    }
}

/// The default language is one of the supported ones.
pub proof fn lemma_default_is_supported()
    ensures
        is_supported_code(default_code()),
{
    assert(supported_codes()[3] == default_code());
}

/// No code is listed twice among the supported languages.
pub proof fn lemma_supported_codes_distinct()
    ensures
        supported_codes().len() == 13,
        forall|i: int, j: int|
            0 <= i < j < supported_codes().len() ==> supported_codes()[i] != supported_codes()[j],
{
    reveal_strlit("zh-CN");
    reveal_strlit("zh_HK");
    reveal_strlit("zh-TW");
    reveal_strlit("en-US");
    reveal_strlit("ar-ME");
    reveal_strlit("de-DE");
    reveal_strlit("es-ES");
    reveal_strlit("es-419");
    reveal_strlit("fr-FR");
    reveal_strlit("it-IT");
    reveal_strlit("pt-BR");
    reveal_strlit("pt-PT");
    reveal_strlit("ru-RU");
    let c = supported_codes();
    assert(c[0][3] == 'C' && c[0][1] == 'h');
    assert(c[1][2] == '_');
    assert(c[2][3] == 'T' && c[2][1] == 'h');
    assert(c[3][1] == 'n');
    assert(c[4][1] == 'r');
    assert(c[5][1] == 'e');
    assert(c[6][1] == 's' && c[6][3] == 'E');
    assert(c[7][1] == 's' && c[7][3] == '4');
    assert(c[8][1] == 'r' && c[8][0] == 'f');
    assert(c[9][1] == 't');
    assert(c[10][1] == 't' && c[10][0] == 'p' && c[10][3] == 'B');
    assert(c[11][1] == 't' && c[11][0] == 'p' && c[11][3] == 'P');
    assert(c[12][1] == 'u');
    assert(c[4][0] == 'a' && c[9][0] == 'i' && c[0][2] == '-' && c[2][2] == '-');
}

/// The listing of the supported languages holds each supported code once,
/// with its name, and nothing else.
pub proof fn law_listing_complete()
    ensures
        supported_listing().len() == supported_codes().len(),
        forall|i: int|
            0 <= i < supported_listing().len() ==> (#[trigger] supported_listing()[i]).code
                == supported_codes()[i] && supported_listing()[i].label == language_name(
                supported_codes()[i],
            ),
        forall|i: int, j: int|
            0 <= i < j < supported_listing().len() ==> supported_listing()[i].code
                != supported_listing()[j].code,
        forall|code: Seq<char>|
            is_supported_code(code) <==> exists|i: int|
                0 <= i < supported_listing().len() && (#[trigger] supported_listing()[i]).code
                    == code,
{
    lemma_supported_codes_distinct();
    assert forall|code: Seq<char>| is_supported_code(code) implies exists|i: int|
        0 <= i < supported_listing().len() && (#[trigger] supported_listing()[i]).code
            == code by {
        let k = choose|k: int| 0 <= k < supported_codes().len() && supported_codes()[k] == code;
        assert(supported_listing()[k].code == code);
    }
    assert forall|code: Seq<char>|
        (exists|i: int|
            0 <= i < supported_listing().len() && (#[trigger] supported_listing()[i]).code
                == code) implies is_supported_code(code) by {
        let k = choose|k: int|
            0 <= k < supported_listing().len() && (#[trigger] supported_listing()[k]).code == code;
        assert(supported_codes()[k] == code);
    }
}

/// The language that the user names decides alone, whatever the system's
/// is; the system's counts only where none is named; and whatever is picked
/// is supported.
pub proof fn law_locale_precedence(explicit: Option<Seq<char>>, system: Seq<char>)
    ensures
        explicit matches Some(code) ==> resolved(explicit, system) == (if is_supported_code(code) {
            Some((code, LocaleSource::Explicit))
        } else {
            None
        }),
        explicit is None ==> resolved(explicit, system) is Some,
        explicit is None && is_supported_code(system) ==> resolved(explicit, system) == Some(
            (system, LocaleSource::System),
        ),
        explicit is None && !is_supported_code(system) ==> resolved(explicit, system) == Some(
            (default_code(), LocaleSource::Fallback),
        ),
        resolved(explicit, system) matches Some(picked) ==> is_supported_code(picked.0),
{
    lemma_default_is_supported();
}

/// The names of the supported languages, in the order of the listing.
pub proof fn law_supported_names()
    ensures
        supported_listing().len() == 13,
        supported_listing()[0].label == "Chinese (China)"@,
        supported_listing()[1].label == "Chinese (Cantonese)"@,
        supported_listing()[2].label == "Chinese (Mandarin)"@,
        supported_listing()[3].label == "English (US)"@,
        supported_listing()[4].label == "Arabic"@,
        supported_listing()[5].label == "German"@,
        supported_listing()[6].label == "Spanish (European)"@,
        supported_listing()[7].label == "Spanish (Latin America)"@,
        supported_listing()[8].label == "French"@,
        supported_listing()[9].label == "Italian"@,
        supported_listing()[10].label == "Portuguese (Brazil)"@,
        supported_listing()[11].label == "Portuguese (Europe)"@,
        supported_listing()[12].label == "Russian"@,
{
    lemma_supported_codes_distinct();
}

} // verus!
