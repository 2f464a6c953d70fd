use crunchy_cli_core::cli::{Cli, Command, Verbosity};
use crunchy_cli_core::context::{
    plan_context, plan_session, client_settings, Channel, ClientSettings, TrustSource,
};
use crunchy_cli_core::locale::{supported_languages, LocaleSource, ResolvedLocale};
use crunchy_cli_core::proxy::{parse_proxies, ProxySpec};
use crunchy_cli_core::session::{AuthState, LoginMethod, SessionError};

fn cli(credentials: Option<&str>, anonymous: bool, lang: Option<&str>) -> Cli {
    Cli {
        verbosity: Verbosity { verbose: false, quiet: false },
        lang: lang.map(|s| s.to_string()),
        experimental_fixes: false,
        login_method: LoginMethod { credentials: credentials.map(|s| s.to_string()), anonymous },
        proxy: None,
        user_agent: None,
        speed_limit: None,
        command: Command::Search,
    }
}

#[test]
fn client_settings_hold_what_was_given() {
    assert_eq!(
        client_settings(Some("proxy.example.com".to_string()), None, TrustSource::Native),
        ClientSettings {
            proxy: Some("proxy.example.com".to_string()),
            user_agent: None,
            trust: TrustSource::Native
        }
    );
    assert_eq!(
        client_settings(None, Some("agent/1.0".to_string()), TrustSource::Bundled),
        ClientSettings {
            proxy: None,
            user_agent: Some("agent/1.0".to_string()),
            trust: TrustSource::Bundled
        }
    );
}

#[test]
fn two_methods_fail_whatever_else_is_set() {
    for lang in [None, Some("de-DE"), Some("ja-JP")] {
        for system in ["en-US", "tlh"] {
            let config = cli(Some("user@example.com:secret"), true, lang);
            assert_eq!(
                plan_session(&config, system),
                Err(SessionError::MultipleLoginMethods)
            );
            assert_eq!(
                plan_context(&config, system, TrustSource::Bundled),
                Err(SessionError::MultipleLoginMethods)
            );
        }
    }
    let config = cli(Some("malformed"), true, None);
    assert_eq!(plan_session(&config, "en-US"), Err(SessionError::MultipleLoginMethods));
}

#[test]
fn unsupported_language_is_refused_with_the_listing() {
    let config = cli(None, true, Some("ja-JP"));
    assert_eq!(
        plan_session(&config, "en-US"),
        Err(SessionError::UnsupportedLanguage {
            requested: "ja-JP".to_string(),
            supported: supported_languages()
        })
    );
}

#[test]
fn unsupported_language_is_refused_before_malformed_credentials() {
    let config = cli(Some("malformed"), false, Some("ja-JP"));
    assert!(matches!(
        plan_session(&config, "en-US"),
        Err(SessionError::UnsupportedLanguage { .. })
    ));
}

#[test]
fn malformed_credentials_are_refused() {
    let config = cli(Some("malformed"), false, Some("de-DE"));
    assert_eq!(plan_session(&config, "en-US"), Err(SessionError::InvalidCredentialsFormat));
}

#[test]
fn session_without_method_waits_for_the_stored_session() {
    let config = cli(None, false, None);
    let plan = plan_session(&config, "pt-BR").unwrap();
    assert_eq!(plan.login, AuthState::NoMethodSupplied);
    assert_eq!(
        plan.settings.locale,
        ResolvedLocale { code: "pt-BR".to_string(), source: LocaleSource::System }
    );
    assert!(!plan.settings.stabilization_locales);
    assert!(!plan.settings.stabilization_season_number);
    assert_eq!(plan.settings.preferred_audio_locale, None);
}

#[test]
fn experimental_fixes_switch_on_both_stabilizations() {
    let mut config = cli(None, true, Some("it-IT"));
    config.experimental_fixes = true;
    let plan = plan_session(&config, "xx").unwrap();
    assert!(plan.settings.stabilization_locales);
    assert!(plan.settings.stabilization_season_number);
    assert_eq!(
        plan.settings.locale,
        ResolvedLocale { code: "it-IT".to_string(), source: LocaleSource::Explicit }
    );
    assert_eq!(plan.login, AuthState::AnonymousAttempt);
}

#[test]
fn download_hints_at_its_audio_language() {
    let mut config = cli(Some("user@example.com:secret"), false, None);
    config.command = Command::Download { yes: false, audio: "ja-JP".to_string() };
    let plan = plan_session(&config, "xx").unwrap();
    assert_eq!(plan.settings.preferred_audio_locale, Some("ja-JP".to_string()));
    assert_eq!(
        plan.settings.locale,
        ResolvedLocale { code: "en-US".to_string(), source: LocaleSource::Fallback }
    );
    assert_eq!(
        plan.login,
        AuthState::CredentialsAttempt {
            email: "user@example.com".to_string(),
            password: "secret".to_string()
        }
    );
    config.command = Command::Archive { yes: false };
    let plan = plan_session(&config, "xx").unwrap();
    assert_eq!(plan.settings.preferred_audio_locale, None);
}

#[test]
fn each_traffic_class_gets_its_own_client_and_limit() {
    let mut config = cli(None, true, None);
    config.proxy = Some(parse_proxies("api.example.com:transfer.example.com").unwrap());
    config.user_agent = Some("agent/1.0".to_string());
    config.speed_limit = Some(512_000);
    let plan = plan_context(&config, "en-US", TrustSource::Native).unwrap();
    assert_eq!(
        plan.api,
        Channel {
            client: ClientSettings {
                proxy: Some("api.example.com".to_string()),
                user_agent: Some("agent/1.0".to_string()),
                trust: TrustSource::Native
            },
            rate_limit: Some(512_000)
        }
    );
    assert_eq!(
        plan.transfer,
        Channel {
            client: ClientSettings {
                proxy: Some("transfer.example.com".to_string()),
                user_agent: Some("agent/1.0".to_string()),
                trust: TrustSource::Native
            },
            rate_limit: Some(512_000)
        }
    );
    assert_eq!(plan.session, plan_session(&config, "en-US").unwrap());
}

#[test]
fn proxy_of_one_traffic_class_leaves_the_other_direct() {
    let mut config = cli(None, true, None);
    config.proxy =
        Some(ProxySpec { api_proxy: None, transfer_proxy: Some("transfer.example.com".to_string()) });
    let plan = plan_context(&config, "en-US", TrustSource::Bundled).unwrap();
    assert_eq!(plan.api.client.proxy, None);
    assert_eq!(plan.transfer.client.proxy, Some("transfer.example.com".to_string()));
    assert_eq!(plan.api.rate_limit, None);
    assert_eq!(plan.transfer.rate_limit, None);
    assert_eq!(plan.api.client.user_agent, None);
    assert_eq!(plan.api.client.trust, TrustSource::Bundled);
}

#[test]
fn context_without_session_is_refused() {
    let config = cli(None, false, Some("tlh"));
    assert!(matches!(
        plan_context(&config, "en-US", TrustSource::Bundled),
        Err(SessionError::UnsupportedLanguage { .. })
    ));
}

#[test]
fn addresses_with_schemes_reach_their_own_clients() {
    let mut config = cli(None, true, None);
    config.proxy = Some(parse_proxies("http://a.example:8080:https://b.example").unwrap());
    let plan = plan_context(&config, "en-US", TrustSource::Bundled).unwrap();
    assert_eq!(plan.api.client.proxy, Some("http://a.example:8080".to_string()));
    assert_eq!(plan.transfer.client.proxy, Some("https://b.example".to_string()));

    config.proxy = Some(parse_proxies("http://a.example:").unwrap());
    let plan = plan_context(&config, "en-US", TrustSource::Bundled).unwrap();
    assert_eq!(plan.api.client.proxy, Some("http://a.example".to_string()));
    assert_eq!(plan.transfer.client.proxy, None);

    config.proxy = Some(parse_proxies(":http://b.example").unwrap());
    let plan = plan_context(&config, "en-US", TrustSource::Bundled).unwrap();
    assert_eq!(plan.api.client.proxy, None);
    assert_eq!(plan.transfer.client.proxy, Some("http://b.example".to_string()));
}
