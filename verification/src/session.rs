//! Signing in to the service: which way of signing in is taken, what a
//! stored session allows, and what becomes of the service's answer.

use crate::error::{display_remote, rendered, FailureModel, RemoteFailure};
use crate::locale::{
    entry_models, listing_text, unsupported_language_header, unsupported_language_message,
    LanguageEntry, LanguageEntryModel,
};
use crate::text::{lemma_position_joined, occurrences, position, same_text, split_once, split_single, starts_with};
use vstd::prelude::*;
use vstd::string::*;

verus! {

/// How the user asked to sign in. At most one of the two may be given.
#[derive(Clone, Debug, PartialEq, Eq)]
pub struct LoginMethod {
    /// An email address and a password with a colon between them.
    pub credentials: Option<String>,
    /// Sign in without an account.
    pub anonymous: bool,
}

/// Why no session could be had.
#[derive(Clone, Debug, PartialEq, Eq)]
pub enum SessionError {
    /// The user named a language that is not supported.
    UnsupportedLanguage { requested: String, supported: Vec<LanguageEntry> },
    /// No way of signing in was given and no session is stored.
    NoLoginMethod,
    /// Credentials and the anonymous flag were given together.
    MultipleLoginMethods,
    /// The service no longer takes the stored token.
    StoredLoginExpired,
    /// The stored session is of a kind that is no longer supported.
    LegacyStoredLogin,
    /// The stored session is of no known form.
    UnreadableStoredSession { content: String },
    /// The credentials are not an email address, one colon and a password.
    InvalidCredentialsFormat,
    /// The service refused, or could not be reached.
    Remote { failure: RemoteFailure },
}

/// A `SessionError` as plain text values.
pub enum SessionErrorModel {
    UnsupportedLanguage { requested: Seq<char>, supported: Seq<LanguageEntryModel> },
    NoLoginMethod,
    MultipleLoginMethods,
    StoredLoginExpired,
    LegacyStoredLogin,
    UnreadableStoredSession { content: Seq<char> },
    InvalidCredentialsFormat,
    Remote { failure: FailureModel },
}

impl View for SessionError {
    type V = SessionErrorModel;

    open spec fn view(&self) -> SessionErrorModel {
        match *self {
            SessionError::UnsupportedLanguage { requested, supported } => {
                SessionErrorModel::UnsupportedLanguage {
                    requested: requested@,
                    supported: entry_models(supported@),
                }
            },
            SessionError::NoLoginMethod => SessionErrorModel::NoLoginMethod,
            SessionError::MultipleLoginMethods => SessionErrorModel::MultipleLoginMethods,
            SessionError::StoredLoginExpired => SessionErrorModel::StoredLoginExpired,
            SessionError::LegacyStoredLogin => SessionErrorModel::LegacyStoredLogin,
            SessionError::UnreadableStoredSession { content } => {
                SessionErrorModel::UnreadableStoredSession { content: content@ }
            },
            SessionError::InvalidCredentialsFormat => SessionErrorModel::InvalidCredentialsFormat,
            SessionError::Remote { failure } => SessionErrorModel::Remote { failure: failure@ },
        }
    }
}

/// What the user is told of a `SessionError`.
pub open spec fn error_text(error: SessionErrorModel) -> Seq<char> {
    match error {
        SessionErrorModel::UnsupportedLanguage { supported, .. } => unsupported_language_header()
            + listing_text(supported),
        SessionErrorModel::NoLoginMethod => "Please use a login method ('--credentials' or '--anonymous')"@,
        SessionErrorModel::MultipleLoginMethods => "Please use only one login method ('--credentials' or '--anonymous')"@,
        SessionErrorModel::StoredLoginExpired => "The stored login is expired, please login again"@,
        SessionErrorModel::LegacyStoredLogin => "The stored login method (etp-rt) isn't supported anymore. Please login again using your credentials"@,
        SessionErrorModel::UnreadableStoredSession { content } => "Could not read stored session ('"@
            + content + "')"@,
        SessionErrorModel::InvalidCredentialsFormat => "Invalid credentials format. Please provide your credentials as email:password"@,
        SessionErrorModel::Remote { failure } => rendered(failure),
    }
}

impl SessionError {
    /// What the user is told of this error.
    pub fn message(&self) -> (r: String)
        ensures
            r@ == error_text(self@),
    {
        match self {
            SessionError::UnsupportedLanguage { requested: _, supported } => {
                unsupported_language_message(supported)
            },
            SessionError::NoLoginMethod => "Please use a login method ('--credentials' or '--anonymous')".to_owned(),
            SessionError::MultipleLoginMethods => "Please use only one login method ('--credentials' or '--anonymous')".to_owned(),
            SessionError::StoredLoginExpired => "The stored login is expired, please login again".to_owned(),
            SessionError::LegacyStoredLogin => "The stored login method (etp-rt) isn't supported anymore. Please login again using your credentials".to_owned(),
            SessionError::UnreadableStoredSession { content } => {
                let mut line = "Could not read stored session ('".to_owned();
                line.append(content.as_str());
                line.append("')");
                line
            },
            SessionError::InvalidCredentialsFormat => "Invalid credentials format. Please provide your credentials as email:password".to_owned(),
            SessionError::Remote { failure } => display_remote(failure),
        }
    }
}

/// Where signing in stands.
#[derive(Clone, Debug, PartialEq, Eq)]
pub enum AuthState {
    /// The user gave no way of signing in: the stored session is wanted.
    NoMethodSupplied,
    /// The service is asked to take the stored token.
    StoredSessionAttempt { token: String },
    /// The service is asked to take an email address and a password.
    CredentialsAttempt { email: String, password: String },
    /// The service is asked for a session without an account.
    AnonymousAttempt,
    /// The service gave a session.
    Authenticated,
    /// There will be no session.
    Failed { error: SessionError },
}

/// An `AuthState` as plain text values.
pub enum AuthStateModel {
    NoMethodSupplied,
    StoredSessionAttempt { token: Seq<char> },
    CredentialsAttempt { email: Seq<char>, password: Seq<char> },
    AnonymousAttempt,
    Authenticated,
    Failed { error: SessionErrorModel },
}

impl View for AuthState {
    type V = AuthStateModel;

    open spec fn view(&self) -> AuthStateModel {
        match *self {
            AuthState::NoMethodSupplied => AuthStateModel::NoMethodSupplied,
            AuthState::StoredSessionAttempt { token } => AuthStateModel::StoredSessionAttempt {
                token: token@,
            },
            AuthState::CredentialsAttempt { email, password } => {
                AuthStateModel::CredentialsAttempt { email: email@, password: password@ }
            },
            AuthState::AnonymousAttempt => AuthStateModel::AnonymousAttempt,
            AuthState::Authenticated => AuthStateModel::Authenticated,
            AuthState::Failed { error } => AuthStateModel::Failed { error: error@ },
        }
    }
}

/// What happened outside while signing in.
#[derive(Clone, Debug, PartialEq, Eq)]
pub enum AuthEvent {
    /// The stored session was looked for: its content, or `None` where
    /// there is none.
    StoredSession { content: Option<String> },
    /// The service gave a session.
    LoginSucceeded,
    /// The service gave none.
    LoginFailed { failure: RemoteFailure },
}

/// An `AuthEvent` as plain text values.
pub enum AuthEventModel {
    StoredSession { content: Option<Seq<char>> },
    LoginSucceeded,
    LoginFailed { failure: FailureModel },
}

/// The text of an optional string.
pub open spec fn optional_string(s: Option<String>) -> Option<Seq<char>> {
    match s {
        Some(s) => Some(s@),
        None => None,
    }
}

impl View for AuthEvent {
    type V = AuthEventModel;

    open spec fn view(&self) -> AuthEventModel {
        match *self {
            AuthEvent::StoredSession { content } => AuthEventModel::StoredSession {
                content: optional_string(content),
            },
            AuthEvent::LoginSucceeded => AuthEventModel::LoginSucceeded,
            AuthEvent::LoginFailed { failure } => AuthEventModel::LoginFailed { failure: failure@ },
        }
    }
}

/// What is to be done outside in a state.
#[derive(Clone, Copy, Debug, PartialEq, Eq, Structural)]
pub enum AuthAction {
    /// Look for the stored session and report its content.
    ReadStoredSession,
    /// Sign in with the token of the state.
    LoginWithRefreshToken,
    /// Sign in with the email address and password of the state.
    LoginWithCredentials,
    /// Sign in without an account.
    LoginAnonymously,
    /// Nothing: signing in has ended.
    Nothing,
}

/// The character between the two halves of credentials and of a stored
/// session.
pub open spec fn separator() -> char {
    ':'
}

/// The kind of a stored session that holds a token the service still takes.
pub open spec fn refresh_token_kind() -> Seq<char> {
    "refresh_token"@
}

/// The kind of a stored session that is no longer supported.
pub open spec fn legacy_kind() -> Seq<char> {
    "etp_rt"@
}

/// What a failure of the service begins with when it no longer takes a
/// token.
pub open spec fn expired_grant_mark() -> Seq<char> {
    "invalid_grant"@
}

/// How many ways of signing in the user gave.
pub open spec fn method_count(credentials: Option<Seq<char>>, anonymous: bool) -> nat {
    (if credentials is Some { 1nat } else { 0nat }) + (if anonymous { 1nat } else { 0nat })
}

/// The state that signing in begins with. Two ways at once are refused;
/// credentials must hold exactly one separator, between email address and
/// password; with no way given the stored session is wanted.
pub open spec fn initial_state(credentials: Option<Seq<char>>, anonymous: bool) -> AuthStateModel {
    if method_count(credentials, anonymous) > 1 {
        AuthStateModel::Failed { error: SessionErrorModel::MultipleLoginMethods }
    } else {
        match credentials {
            Some(text) => if occurrences(text, separator()) == 1 {
                AuthStateModel::CredentialsAttempt {
                    email: text.subrange(0, position(text, separator())),
                    password: text.subrange(position(text, separator()) + 1, text.len() as int),
                }
            } else {
                AuthStateModel::Failed { error: SessionErrorModel::InvalidCredentialsFormat }
            },
            None => if anonymous {
                AuthStateModel::AnonymousAttempt
            } else {
                AuthStateModel::NoMethodSupplied
            },
        }
    }
}

/// What a stored session allows. Its content is a kind, a separator and a
/// token. A refresh token is tried; the legacy kind is refused at once; no
/// stored session, another kind or no separator is a failure too.
pub open spec fn stored_session_state(content: Option<Seq<char>>) -> AuthStateModel {
    match content {
        None => AuthStateModel::Failed { error: SessionErrorModel::NoLoginMethod },
        Some(text) => {
            let kind = text.subrange(0, position(text, separator()));
            let token = text.subrange(position(text, separator()) + 1, text.len() as int);
            if text.contains(separator()) && kind == refresh_token_kind() {
                AuthStateModel::StoredSessionAttempt { token }
            } else if text.contains(separator()) && kind == legacy_kind() {
                AuthStateModel::Failed { error: SessionErrorModel::LegacyStoredLogin }
            } else {
                AuthStateModel::Failed {
                    error: SessionErrorModel::UnreadableStoredSession { content: text },
                }
            }
        },
    }
}

/// Whether a failure says that the service no longer takes a token: it is
/// the failure of a request, and its message begins with the mark.
pub open spec fn is_expired_grant(failure: FailureModel) -> bool {
    failure matches FailureModel::Request { message, .. } && expired_grant_mark().is_prefix_of(
        message,
    )
}

/// The state after `event` in `state`. An event that the state does not
/// wait for leaves it as it is.
pub open spec fn next_state(state: AuthStateModel, event: AuthEventModel) -> AuthStateModel {
    match state {
        AuthStateModel::NoMethodSupplied => match event {
            AuthEventModel::StoredSession { content } => stored_session_state(content),
            _ => state,
        },
        AuthStateModel::StoredSessionAttempt { .. } => match event {
            AuthEventModel::LoginSucceeded => AuthStateModel::Authenticated,
            AuthEventModel::LoginFailed { failure } => if is_expired_grant(failure) {
                AuthStateModel::Failed { error: SessionErrorModel::StoredLoginExpired }
            } else {
                AuthStateModel::Failed { error: SessionErrorModel::Remote { failure } }
            },
            _ => state,
        },
        AuthStateModel::CredentialsAttempt { .. } | AuthStateModel::AnonymousAttempt => match event {
            AuthEventModel::LoginSucceeded => AuthStateModel::Authenticated,
            AuthEventModel::LoginFailed { failure } => AuthStateModel::Failed {
                error: SessionErrorModel::Remote { failure },
            },
            _ => state,
        },
        AuthStateModel::Authenticated | AuthStateModel::Failed { .. } => state,
    }
}

/// What is to be done outside in `state`.
pub open spec fn awaited(state: AuthStateModel) -> AuthAction {
    match state {
        AuthStateModel::NoMethodSupplied => AuthAction::ReadStoredSession,
        AuthStateModel::StoredSessionAttempt { .. } => AuthAction::LoginWithRefreshToken,
        AuthStateModel::CredentialsAttempt { .. } => AuthAction::LoginWithCredentials,
        AuthStateModel::AnonymousAttempt => AuthAction::LoginAnonymously,
        AuthStateModel::Authenticated | AuthStateModel::Failed { .. } => AuthAction::Nothing,
    }
}

impl LoginMethod {
    /// The state that signing in begins with.
    pub fn start(&self) -> (r: AuthState)
        ensures
            r@ == initial_state(optional_string(self.credentials), self.anonymous),
    {
        match &self.credentials {
            Some(text) => {
                if self.anonymous {
                    AuthState::Failed { error: SessionError::MultipleLoginMethods }
                } else {
                    match split_single(text.as_str(), ':') {
                        Some((email, password)) => AuthState::CredentialsAttempt {
                            email: email.to_owned(),
                            password: password.to_owned(),
                        },
                        None => AuthState::Failed { error: SessionError::InvalidCredentialsFormat },
                    }
                }
            },
            None => {
                if self.anonymous {
                    AuthState::AnonymousAttempt
                } else {
                    AuthState::NoMethodSupplied
                }
            },
        }
    }
}

/// What a stored session allows: the state after the stored session was
/// looked for with no way of signing in given.
pub fn read_stored_session(content: Option<String>) -> (r: AuthState)
    ensures
        r@ == stored_session_state(optional_string(content)),
{
    match content {
        None => AuthState::Failed { error: SessionError::NoLoginMethod },
        Some(text) => {
            match split_once(text.as_str(), ':') {
                Some((kind, token)) => {
                    if same_text(kind, "refresh_token") {
                        return AuthState::StoredSessionAttempt { token: token.to_owned() };
                    }
                    if same_text(kind, "etp_rt") {
                        return AuthState::Failed { error: SessionError::LegacyStoredLogin };
                    }
                },
                None => {},
            }
            AuthState::Failed { error: SessionError::UnreadableStoredSession { content: text } }
        },
    }
}

/// Whether a failure says that the service no longer takes a token.
pub fn expired_grant(failure: &RemoteFailure) -> (r: bool)
    ensures
        r == is_expired_grant(failure@),
{
    match failure {
        RemoteFailure::Request { message, url: _ } => starts_with(message.as_str(), "invalid_grant"),
        _ => false,
    }
}

impl AuthState {
    /// What is to be done outside in this state.
    pub fn action(&self) -> (r: AuthAction)
        ensures
            r == awaited(self@),
    {
        match self {
            AuthState::NoMethodSupplied => AuthAction::ReadStoredSession,
            AuthState::StoredSessionAttempt { .. } => AuthAction::LoginWithRefreshToken,
            AuthState::CredentialsAttempt { .. } => AuthAction::LoginWithCredentials,
            AuthState::AnonymousAttempt => AuthAction::LoginAnonymously,
            AuthState::Authenticated => AuthAction::Nothing,
            AuthState::Failed { .. } => AuthAction::Nothing,
        }
    }

    /// The state after `event`.
    pub fn step(self, event: AuthEvent) -> (r: AuthState)
        ensures
            r@ == next_state(self@, event@),
    {
        match self {
            AuthState::NoMethodSupplied => match event {
                AuthEvent::StoredSession { content } => read_stored_session(content),
                _ => AuthState::NoMethodSupplied,
            },
            AuthState::StoredSessionAttempt { token } => match event {
                AuthEvent::LoginSucceeded => AuthState::Authenticated,
                AuthEvent::LoginFailed { failure } => {
                    if expired_grant(&failure) {
                        AuthState::Failed { error: SessionError::StoredLoginExpired }
                    } else {
                        AuthState::Failed { error: SessionError::Remote { failure } }
                    }
                },
                _ => AuthState::StoredSessionAttempt { token },
            },
            AuthState::CredentialsAttempt { email, password } => match event {
                AuthEvent::LoginSucceeded => AuthState::Authenticated,
                AuthEvent::LoginFailed { failure } => AuthState::Failed {
                    error: SessionError::Remote { failure },
                },
                _ => AuthState::CredentialsAttempt { email, password },
            },
            AuthState::AnonymousAttempt => match event {
                AuthEvent::LoginSucceeded => AuthState::Authenticated,
                AuthEvent::LoginFailed { failure } => AuthState::Failed {
                    error: SessionError::Remote { failure },
                },
                _ => AuthState::AnonymousAttempt,
            },
            AuthState::Authenticated => AuthState::Authenticated,
            AuthState::Failed { error } => AuthState::Failed { error },
        }
    }
}

/// Neither kind of stored session holds a separator, and the two differ.
pub proof fn lemma_kinds()
    ensures
        !refresh_token_kind().contains(separator()),
        !legacy_kind().contains(separator()),
        refresh_token_kind() != legacy_kind(),
{
    reveal_strlit("refresh_token");
    reveal_strlit("etp_rt");
    assert(refresh_token_kind().len() == 13);
    assert(legacy_kind().len() == 6);
    assert forall|i: int| 0 <= i < 13 implies refresh_token_kind()[i] != ':' by {}
    assert forall|i: int| 0 <= i < 6 implies legacy_kind()[i] != ':' by {}
}

/// Credentials together with the anonymous flag are refused as more than
/// one way of signing in, whatever the credentials hold.
pub proof fn law_two_methods_refused(credentials: Seq<char>)
    ensures
        initial_state(Some(credentials), true) == (AuthStateModel::Failed {
            error: SessionErrorModel::MultipleLoginMethods,
        }),
        awaited(initial_state(Some(credentials), true)) == AuthAction::Nothing,
{
}

/// With no way of signing in given and no session stored, signing in fails
/// by asking for a login method.
pub proof fn law_nothing_given_nothing_stored()
    ensures
        initial_state(None, false) == AuthStateModel::NoMethodSupplied,
        next_state(initial_state(None, false), AuthEventModel::StoredSession { content: None })
            == (AuthStateModel::Failed { error: SessionErrorModel::NoLoginMethod }),
{
}

/// A stored refresh token is tried; where the service answers that it no
/// longer takes the token, the failure is that the stored login is expired,
/// and the service's own failure is not passed on.
pub proof fn law_expired_refresh_token(token: Seq<char>, failure: FailureModel)
    requires
        is_expired_grant(failure),
    ensures
        ({
            let content = refresh_token_kind() + seq![separator()] + token;
            let tried = next_state(
                AuthStateModel::NoMethodSupplied,
                AuthEventModel::StoredSession { content: Some(content) },
            );
            &&& tried == AuthStateModel::StoredSessionAttempt { token }
            &&& next_state(tried, AuthEventModel::LoginFailed { failure })
                == (AuthStateModel::Failed { error: SessionErrorModel::StoredLoginExpired })
        }),
{
    lemma_kinds();
    lemma_position_joined(refresh_token_kind(), separator(), token);
}

/// A stored session of the legacy kind fails as no longer supported,
/// whatever its token is, and leaves nothing to be done: the service is
/// never asked.
pub proof fn law_legacy_session_refused(token: Seq<char>)
    ensures
        ({
            let content = legacy_kind() + seq![separator()] + token;
            let after = next_state(
                AuthStateModel::NoMethodSupplied,
                AuthEventModel::StoredSession { content: Some(content) },
            );
            &&& after == AuthStateModel::Failed { error: SessionErrorModel::LegacyStoredLogin }
            &&& awaited(after) == AuthAction::Nothing
            &&& forall|event: AuthEventModel| next_state(after, event) == after
        }),
{
    lemma_kinds();
    lemma_position_joined(legacy_kind(), separator(), token);
}

/// A session is had only by the service's consent: a step ends in
/// `Authenticated` only from there or from a state that asked the service,
/// on its success. Once signing in has ended, no event changes the state.
pub proof fn law_steps(state: AuthStateModel, event: AuthEventModel)
    ensures
        next_state(state, event) is Authenticated ==> state is Authenticated || (event is LoginSucceeded
            && (state is StoredSessionAttempt || state is CredentialsAttempt
            || state is AnonymousAttempt)),
        awaited(state) == AuthAction::Nothing ==> next_state(state, event) == state,
        awaited(state) == AuthAction::Nothing <==> state is Authenticated || state is Failed,
{
}

/// The service is asked only where exactly one way of signing in is in
/// force: credentials without the anonymous flag, the flag without
/// credentials, or, with neither, a stored session. None at all and more
/// than one are failures before anything is asked.
pub proof fn law_one_active_method(credentials: Option<Seq<char>>, anonymous: bool)
    ensures
        ({
            let begun = initial_state(credentials, anonymous);
            &&& begun is CredentialsAttempt ==> credentials is Some && !anonymous
            &&& begun is AnonymousAttempt ==> credentials is None && anonymous
            &&& begun is NoMethodSupplied <==> method_count(credentials, anonymous) == 0
            &&& method_count(credentials, anonymous) > 1 ==> begun is Failed
            &&& !(begun is StoredSessionAttempt) && !(begun is Authenticated)
        }),
        forall|content: Option<Seq<char>>|
            #![trigger stored_session_state(content)]
            stored_session_state(content) is StoredSessionAttempt || stored_session_state(
                content,
            ) is Failed,
        stored_session_state(None) is Failed,
{
}

} // verus!
