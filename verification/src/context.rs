//! What a command runs with: a session of the service, and one HTTP client
//! for each traffic class, API calls and bulk transfer, each with a limit of
//! its own on what it moves per second.

use crate::cli::{Cli, Command};
use crate::locale::{
    is_supported_code, resolve_locale, resolved, supported_listing, ResolvedLocale,
};
use crate::proxy::ProxySpec;
use crate::session::{
    initial_state, method_count, optional_string, AuthState, AuthStateModel, SessionError,
    SessionErrorModel,
};
use vstd::prelude::*;

verus! {

/// Where an HTTP client takes the certificates that it trusts from.
#[derive(Clone, Copy, Debug, PartialEq, Eq, Structural)]
pub enum TrustSource {
    /// The root certificates of the operating system, loaded one by one.
    Native,
    /// The root certificates that come with the HTTP client.
    Bundled,
}

/// How an HTTP client is made. Redirects, timeouts and default headers are
/// those that the service's client asks for and are not chosen here.
#[derive(Clone, Debug, PartialEq, Eq)]
pub struct ClientSettings {
    /// The address of the proxy that all traffic goes through, if any.
    pub proxy: Option<String>,
    /// The user agent that replaces the default one, if any.
    pub user_agent: Option<String>,
    pub trust: TrustSource,
}

/// The client of one traffic class and the limit on what it moves.
#[derive(Clone, Debug, PartialEq, Eq)]
pub struct Channel {
    pub client: ClientSettings,
    /// The most bytes per second over all requests of this client; `None`
    /// leaves the client without a limiter. The limiter belongs to this
    /// client alone.
    pub rate_limit: Option<u32>,
}

/// How the session of the service is set up.
#[derive(Clone, Debug, PartialEq, Eq)]
pub struct SessionSettings {
    pub locale: ResolvedLocale,
    /// Correct the languages that the service names wrongly.
    pub stabilization_locales: bool,
    /// Correct the season numbers that the service gives wrongly.
    pub stabilization_season_number: bool,
    /// The code of the language the audio is wanted in; set for a download
    /// only.
    pub preferred_audio_locale: Option<String>,
}

/// A session that is set up and about to sign in.
#[derive(Clone, Debug, PartialEq, Eq)]
pub struct SessionPlan {
    pub settings: SessionSettings,
    /// Where signing in begins: never `Failed`.
    pub login: AuthState,
}

/// All that a command runs with, before anything was asked of the network.
#[derive(Clone, Debug, PartialEq, Eq)]
pub struct ContextPlan {
    /// The client that the session talks to the service with.
    pub api: Channel,
    /// The client that moves content.
    pub transfer: Channel,
    pub session: SessionPlan,
}

/// A copy of an optional string.
fn copy_optional(s: &Option<String>) -> (r: Option<String>)
    ensures
        optional_string(r) == optional_string(*s),
{
    match s {
        Some(text) => Some(text.clone()),
        None => None,
    }
}

/// The settings of an HTTP client: the proxy and the user agent are used
/// where they are given.
pub fn client_settings(
    proxy: Option<String>,
    user_agent: Option<String>,
    trust: TrustSource,
) -> (r: ClientSettings)
    ensures
        r.proxy == proxy,
        r.user_agent == user_agent,
        r.trust == trust,
{
    ClientSettings { proxy, user_agent, trust }
}

/// The address of the API proxy of an optional specification.
pub open spec fn api_proxy_of(proxy: Option<ProxySpec>) -> Option<Seq<char>> {
    match proxy {
        Some(spec) => optional_string(spec.api_proxy),
        None => None,
    }
}

/// The address of the transfer proxy of an optional specification.
pub open spec fn transfer_proxy_of(proxy: Option<ProxySpec>) -> Option<Seq<char>> {
    match proxy {
        Some(spec) => optional_string(spec.transfer_proxy),
        None => None,
    }
}

/// The language the audio is wanted in: that of a download, and none for
/// any other command.
pub open spec fn audio_hint(command: Command) -> Option<Seq<char>> {
    match command {
        Command::Download { audio, .. } => Some(audio@),
        _ => None,
    }
}

/// Why no session is set up, if it is not. More than one way of signing in
/// is refused before anything else is looked at; then a language that is not
/// supported; then credentials of the wrong form.
pub open spec fn session_refusal(
    credentials: Option<Seq<char>>,
    anonymous: bool,
    lang: Option<Seq<char>>,
    system_locale: Seq<char>,
) -> Option<SessionErrorModel> {
    if method_count(credentials, anonymous) > 1 {
        Some(SessionErrorModel::MultipleLoginMethods)
    } else if resolved(lang, system_locale) is None {
        Some(
            SessionErrorModel::UnsupportedLanguage {
                requested: lang->0,
                supported: supported_listing(),
            },
        )
    } else {
        match initial_state(credentials, anonymous) {
            AuthStateModel::Failed { error } => Some(error),
            _ => None,
        }
    }
}

/// Sets up the session of the service and decides how signing in begins.
/// `system_locale` is the code of the language of the system.
pub fn plan_session(cli: &Cli, system_locale: &str) -> (r: Result<SessionPlan, SessionError>)
    ensures
        match r {
            Ok(plan) => {
                &&& session_refusal(
                    optional_string(cli.login_method.credentials),
                    cli.login_method.anonymous,
                    optional_string(cli.lang),
                    system_locale@,
                ) is None
                &&& resolved(optional_string(cli.lang), system_locale@) == Some(
                    (plan.settings.locale.code@, plan.settings.locale.source),
                )
                &&& plan.settings.stabilization_locales == cli.experimental_fixes
                &&& plan.settings.stabilization_season_number == cli.experimental_fixes
                &&& optional_string(plan.settings.preferred_audio_locale) == audio_hint(cli.command)
                &&& plan.login@ == initial_state(
                    optional_string(cli.login_method.credentials),
                    cli.login_method.anonymous,
                )
                &&& !(plan.login is Failed)
            },
            Err(error) => session_refusal(
                optional_string(cli.login_method.credentials),
                cli.login_method.anonymous,
                optional_string(cli.lang),
                system_locale@,
            ) == Some(error@),
        },
{
    let login = cli.login_method.start();
    if cli.login_method.credentials.is_some() && cli.login_method.anonymous {
        return Err(SessionError::MultipleLoginMethods);
    }
    let lang: Option<&str> = match &cli.lang {
        Some(code) => Some(code.as_str()),
        None => None,
    };
    let locale = match resolve_locale(lang, system_locale) {
        Ok(locale) => locale,
        Err(refusal) => {
            return Err(
                SessionError::UnsupportedLanguage {
                    requested: refusal.requested,
                    supported: refusal.supported,
                },
            );
        },
    };
    let preferred_audio_locale = match &cli.command {
        Command::Download { yes: _, audio } => Some(audio.clone()),
        _ => None,
    };
    match login {
        AuthState::Failed { error } => Err(error),
        login => Ok(
            SessionPlan {
                settings: SessionSettings {
                    locale,
                    stabilization_locales: cli.experimental_fixes,
                    stabilization_season_number: cli.experimental_fixes,
                    preferred_audio_locale,
                },
                login,
            },
        ),
    }
}

/// Plans all that a command runs with. Each traffic class gets a client of
/// its own, with its own proxy and its own limiter; the user agent, the
/// source of trust and the limit are the same for both.
pub fn plan_context(cli: &Cli, system_locale: &str, trust: TrustSource) -> (r: Result<
    ContextPlan,
    SessionError,
>)
    ensures
        match r {
            Ok(plan) => {
                &&& optional_string(plan.api.client.proxy) == api_proxy_of(cli.proxy)
                &&& optional_string(plan.transfer.client.proxy) == transfer_proxy_of(cli.proxy)
                &&& optional_string(plan.api.client.user_agent) == optional_string(cli.user_agent)
                &&& optional_string(plan.transfer.client.user_agent) == optional_string(
                    cli.user_agent,
                )
                &&& plan.api.client.trust == trust
                &&& plan.transfer.client.trust == trust
                &&& plan.api.rate_limit == cli.speed_limit
                &&& plan.transfer.rate_limit == cli.speed_limit
                &&& session_refusal(
                    optional_string(cli.login_method.credentials),
                    cli.login_method.anonymous,
                    optional_string(cli.lang),
                    system_locale@,
                ) is None
                &&& resolved(optional_string(cli.lang), system_locale@) == Some(
                    (plan.session.settings.locale.code@, plan.session.settings.locale.source),
                )
                &&& plan.session.settings.stabilization_locales == cli.experimental_fixes
                &&& plan.session.settings.stabilization_season_number == cli.experimental_fixes
                &&& optional_string(plan.session.settings.preferred_audio_locale) == audio_hint(
                    cli.command,
                )
                &&& plan.session.login@ == initial_state(
                    optional_string(cli.login_method.credentials),
                    cli.login_method.anonymous,
                )
                &&& !(plan.session.login is Failed)
            },
            Err(error) => session_refusal(
                optional_string(cli.login_method.credentials),
                cli.login_method.anonymous,
                optional_string(cli.lang),
                system_locale@,
            ) == Some(error@),
        },
{
    let (api_proxy, transfer_proxy) = match &cli.proxy {
        Some(spec) => (copy_optional(&spec.api_proxy), copy_optional(&spec.transfer_proxy)),
        None => (None, None),
    };
    let api_client = client_settings(api_proxy, copy_optional(&cli.user_agent), trust);
    let transfer_client = client_settings(transfer_proxy, copy_optional(&cli.user_agent), trust);
    let session = match plan_session(cli, system_locale) {
        Ok(session) => session,
        Err(error) => {
            return Err(error);
        },
    };
    Ok(
        ContextPlan {
            api: Channel { client: api_client, rate_limit: cli.speed_limit },
            transfer: Channel { client: transfer_client, rate_limit: cli.speed_limit },
            session,
        },
    )
}

/// Credentials together with the anonymous flag are refused as more than
/// one way of signing in, whatever the credentials, the language and the
/// system's language are.
pub proof fn law_one_login_method(
    credentials: Seq<char>,
    lang: Option<Seq<char>>,
    system_locale: Seq<char>,
)
    ensures
        session_refusal(Some(credentials), true, lang, system_locale) == Some(
            SessionErrorModel::MultipleLoginMethods,
        ),
{
}

/// A language that the user names and that is not supported is refused with
/// every supported language listed, unless two ways of signing in were
/// given.
pub proof fn law_unsupported_language(
    credentials: Option<Seq<char>>,
    anonymous: bool,
    lang: Seq<char>,
    system_locale: Seq<char>,
)
    requires
        !is_supported_code(lang),
        method_count(credentials, anonymous) <= 1,
    ensures
        session_refusal(credentials, anonymous, Some(lang), system_locale) == Some(
            SessionErrorModel::UnsupportedLanguage {
                requested: lang,
                supported: supported_listing(),
            },
        ),
{
}

} // verus!
