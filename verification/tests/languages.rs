use crunchy_cli_core::locale::{
    is_supported, resolve_locale, supported_languages, supported_locales,
    unsupported_language_message, LanguageEntry, LocaleSource, ResolvedLocale,
};

const LISTING: &str = "Via `--lang` specified language is not supported. Supported languages: \
`zh-CN` (Chinese (China)), `zh_HK` (Chinese (Cantonese)), `zh-TW` (Chinese (Mandarin)), \
`en-US` (English (US)), `ar-ME` (Arabic), `de-DE` (German), `es-ES` (Spanish (European)), \
`es-419` (Spanish (Latin America)), `fr-FR` (French), `it-IT` (Italian), \
`pt-BR` (Portuguese (Brazil)), `pt-PT` (Portuguese (Europe)), `ru-RU` (Russian)";

#[test]
fn thirteen_languages_are_supported() {
    assert_eq!(
        supported_locales(),
        vec![
            "zh-CN", "zh_HK", "zh-TW", "en-US", "ar-ME", "de-DE", "es-ES", "es-419", "fr-FR",
            "it-IT", "pt-BR", "pt-PT", "ru-RU"
        ]
    );
}

#[test]
fn supported_codes_are_those_of_the_service_client() {
    let expected = vec![
        crunchyroll_rs::Locale::zh_CN,
        crunchyroll_rs::Locale::zh_HK,
        crunchyroll_rs::Locale::zh_TW,
        crunchyroll_rs::Locale::en_US,
        crunchyroll_rs::Locale::ar_ME,
        crunchyroll_rs::Locale::de_DE,
        crunchyroll_rs::Locale::es_ES,
        crunchyroll_rs::Locale::es_419,
        crunchyroll_rs::Locale::fr_FR,
        crunchyroll_rs::Locale::it_IT,
        crunchyroll_rs::Locale::pt_BR,
        crunchyroll_rs::Locale::pt_PT,
        crunchyroll_rs::Locale::ru_RU,
    ];
    let codes = supported_locales();
    assert_eq!(codes.len(), expected.len());
    for (code, locale) in codes.iter().zip(expected.iter()) {
        assert_eq!(*code, locale.to_string());
        assert_eq!(&crunchyroll_rs::Locale::from(code.to_string()), locale);
    }
}

#[test]
fn membership_is_by_exact_code() {
    assert!(is_supported("en-US"));
    assert!(is_supported("es-419"));
    assert!(is_supported("zh_HK"));
    assert!(!is_supported("zh-HK"));
    assert!(!is_supported("ja-JP"));
    assert!(!is_supported("en-us"));
    assert!(!is_supported(""));
}

#[test]
fn no_code_is_supported_twice() {
    let codes = supported_locales();
    for i in 0..codes.len() {
        for j in (i + 1)..codes.len() {
            assert_ne!(codes[i], codes[j]);
        }
    }
}

#[test]
fn every_language_is_listed_with_its_name() {
    let listed = supported_languages();
    let codes = supported_locales();
    assert_eq!(listed.len(), 13);
    for (entry, code) in listed.iter().zip(codes.iter()) {
        assert_eq!(entry.code, *code);
        assert_eq!(
            entry.label,
            crunchyroll_rs::Locale::from(code.to_string()).to_human_readable()
        );
    }
    assert_eq!(
        listed[3],
        LanguageEntry { code: "en-US".to_string(), label: "English (US)".to_string() }
    );
    assert_eq!(
        listed[5],
        LanguageEntry { code: "de-DE".to_string(), label: "German".to_string() }
    );
}

#[test]
fn message_lists_every_language_once() {
    let message = unsupported_language_message(&supported_languages());
    assert_eq!(message, LISTING);
    for code in supported_locales() {
        let quoted = format!("`{}`", code);
        assert_eq!(message.matches(quoted.as_str()).count(), 1);
    }
}

#[test]
fn message_of_no_language_is_the_header() {
    assert_eq!(
        unsupported_language_message(&vec![]),
        "Via `--lang` specified language is not supported. Supported languages: "
    );
}

#[test]
fn message_of_one_language_has_no_comma() {
    let entries = vec![LanguageEntry { code: "xx".to_string(), label: "Test".to_string() }];
    assert_eq!(
        unsupported_language_message(&entries),
        "Via `--lang` specified language is not supported. Supported languages: `xx` (Test)"
    );
}

#[test]
fn named_language_wins_over_the_system() {
    assert_eq!(
        resolve_locale(Some("de-DE"), "fr-FR"),
        Ok(ResolvedLocale { code: "de-DE".to_string(), source: LocaleSource::Explicit })
    );
}

#[test]
fn system_language_is_used_where_none_is_named() {
    assert_eq!(
        resolve_locale(None, "fr-FR"),
        Ok(ResolvedLocale { code: "fr-FR".to_string(), source: LocaleSource::System })
    );
}

#[test]
fn unsupported_system_language_falls_back_to_the_default() {
    assert_eq!(
        resolve_locale(None, "ja-JP"),
        Ok(ResolvedLocale { code: "en-US".to_string(), source: LocaleSource::Fallback })
    );
}

#[test]
fn unsupported_named_language_is_refused() {
    let refusal = resolve_locale(Some("ja-JP"), "en-US").unwrap_err();
    assert_eq!(refusal.requested, "ja-JP");
    assert_eq!(refusal.supported, supported_languages());
    assert_eq!(unsupported_language_message(&refusal.supported), LISTING);
}
