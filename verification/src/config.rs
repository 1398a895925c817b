//! Startup: where the credentials come from, and what becomes of the
//! sign-in.

use crate::data::SignInResponse;
use crate::external;
use crate::external::{
    outcome_of, received, Exchange, OutboundRequest, OutboundRequestView, UpstreamFailure,
};
use vstd::prelude::*;

verus! {

/// The credentials as the environment gives them. Either may be empty.
#[derive(Debug)]
pub struct Config {
    pub api_key: String,
    pub api_secret: String,
}

/// What a configuration is.
pub ghost struct ConfigView {
    pub api_key: Seq<char>,
    pub api_secret: Seq<char>,
}

impl View for Config {
    type V = ConfigView;

    open spec fn view(&self) -> ConfigView {
        ConfigView { api_key: self.api_key@, api_secret: self.api_secret@ }
    }
}

impl Default for Config {
    /// The configuration of an environment that sets neither value.
    fn default() -> (config: Self)
        ensures
            config@ == (ConfigView { api_key: Seq::<char>::empty(), api_secret: Seq::<char>::empty() }),
    {
        Config { api_key: String::new(), api_secret: String::new() }
    }
}

/// The secrets file as it was read: its lines in order, `None` for a line
/// that could not be read as text.
#[derive(Debug)]
pub struct SecretsFile {
    pub lines: Vec<Option<String>>,
}

impl View for SecretsFile {
    type V = Seq<Option<Seq<char>>>;

    open spec fn view(&self) -> Seq<Option<Seq<char>>> {
        self.lines.deep_view()
    }
}

/// Why no credentials could be resolved.
#[derive(Debug, Clone, Copy, PartialEq, Eq, Structural)]
pub enum CredentialsError {
    /// The configuration is incomplete and there is no secrets file.
    SecretsFileMissing,
    /// The secrets file has fewer than the two lines it needs.
    SecretsFileTooShort,
    /// The first line must be the key and the second the secret; one of
    /// them is empty.
    EmptySecret,
}

/// Why the gateway cannot start.
#[derive(Debug, Clone, Copy, PartialEq, Eq, Structural)]
pub enum StartupError {
    /// No credentials could be resolved.
    Credentials(CredentialsError),
    /// The sign-in exchange failed.
    SignIn,
}

/// A pair of key and secret is usable when neither is empty.
pub open spec fn valid_credentials(api_key: Seq<char>, api_secret: Seq<char>) -> bool {
    api_key.len() > 0 && api_secret.len() > 0
}

/// The text of a line of the secrets file; a line that could not be read
/// counts as empty.
pub open spec fn line_text(line: Option<Seq<char>>) -> Seq<char> {
    match line {
        Some(text) => text,
        None => Seq::<char>::empty(),
    }
}

/// The credentials in a secrets file: its first two lines, both of them
/// non-empty. Further lines are ignored.
pub open spec fn file_credentials(lines: Seq<Option<Seq<char>>>) -> Result<
    (Seq<char>, Seq<char>),
    CredentialsError,
> {
    if lines.len() == 0 {
        Err(CredentialsError::SecretsFileTooShort)
    } else if line_text(lines[0]).len() == 0 {
        Err(CredentialsError::EmptySecret)
    } else if lines.len() == 1 {
        Err(CredentialsError::SecretsFileTooShort)
    } else if line_text(lines[1]).len() == 0 {
        Err(CredentialsError::EmptySecret)
    } else {
        Ok((line_text(lines[0]), line_text(lines[1])))
    }
}

/// The credentials that the gateway starts with: those of the
/// configuration when it has both, else those of the secrets file.
pub open spec fn resolved_credentials(
    config: ConfigView,
    secrets: Option<Seq<Option<Seq<char>>>>,
) -> Result<(Seq<char>, Seq<char>), CredentialsError> {
    if valid_credentials(config.api_key, config.api_secret) {
        Ok((config.api_key, config.api_secret))
    } else {
        match secrets {
            Some(lines) => file_credentials(lines),
            None => Err(CredentialsError::SecretsFileMissing),
        }
    }
}

/// The secrets file as mathematics sees it, if there is one.
pub open spec fn secrets_view(secrets: Option<&SecretsFile>) -> Option<Seq<Option<Seq<char>>>> {
    match secrets {
        Some(file) => Some(file@),
        None => None,
    }
}

impl Config {
    /// Whether the configuration has both key and secret, so that no
    /// secrets file is needed.
    pub fn is_complete(&self) -> (complete: bool)
        ensures
            complete == valid_credentials(self.api_key@, self.api_secret@),
    {
        !self.api_key.as_str().is_empty() && !self.api_secret.as_str().is_empty()
    }
}

/// The text of line `i` of the secrets file, empty where the line could
/// not be read.
fn line_at(file: &SecretsFile, i: usize) -> (text: String)
    requires
        i < file.lines.len(),
    ensures
        text@ == line_text(file@[i as int]),
{
    match &file.lines[i] {
        Some(text) => text.clone(),
        None => String::new(),
    }
}

/// Resolves key and secret.
///
/// The configuration wins when it has both. Otherwise the secrets file
/// decides: it must be there and hold a non-empty key on its first line and
/// a non-empty secret on its second.
pub fn get_credentials(config: &Config, secrets: Option<&SecretsFile>) -> (credentials: Result<
    (String, String),
    CredentialsError,
>)
    ensures
        match credentials {
            Ok(pair) => resolved_credentials(config@, secrets_view(secrets)) == Ok::<
                (Seq<char>, Seq<char>),
                CredentialsError,
            >((pair.0@, pair.1@)),
            Err(error) => resolved_credentials(config@, secrets_view(secrets)) == Err::<
                (Seq<char>, Seq<char>),
                CredentialsError,
            >(error),
        },
{
    if config.is_complete() {
        return Ok((config.api_key.clone(), config.api_secret.clone()));
    }
    let file = match secrets {
        Some(file) => file,
        None => {
            return Err(CredentialsError::SecretsFileMissing);
        },
    };
    if file.lines.len() == 0 {
        return Err(CredentialsError::SecretsFileTooShort);
    }
    let api_key = line_at(file, 0);
    if api_key.as_str().is_empty() {
        return Err(CredentialsError::EmptySecret);
    }
    if file.lines.len() == 1 {
        return Err(CredentialsError::SecretsFileTooShort);
    }
    let api_secret = line_at(file, 1);
    if api_secret.as_str().is_empty() {
        return Err(CredentialsError::EmptySecret);
    }
    Ok((api_key, api_secret))
}

/// What every request handler shares: the session token. It is set once,
/// when the gateway starts, and there is no way to change it afterwards.
#[derive(Debug)]
pub struct AppState {
    jwt: String,
}

impl View for AppState {
    type V = Seq<char>;

    closed spec fn view(&self) -> Seq<char> {
        self.jwt@
    }
}

impl AppState {
    /// The state of a gateway whose session token is `jwt`.
    pub fn new(jwt: String) -> (state: Self)
        ensures
            state@ == jwt@,
    {
        AppState { jwt }
    }

    /// The session token.
    pub fn jwt(&self) -> (jwt: &str)
        ensures
            jwt@ == self@,
    {
        self.jwt.as_str()
    }
}

/// What the first step of startup comes to: the sign-in request that
/// presents the resolved credentials, or the reason why there are none.
pub open spec fn sign_in_step(
    config: ConfigView,
    secrets: Option<Seq<Option<Seq<char>>>>,
) -> Result<OutboundRequestView, StartupError> {
    match resolved_credentials(config, secrets) {
        Ok(pair) => Ok(
            OutboundRequestView {
                method: external::Method::Post,
                url: external::sign_in_url(),
                headers: external::bearer(Seq::<char>::empty()),
                body: Some(external::sign_in_body(pair.0, pair.1)),
            },
        ),
        Err(error) => Err(StartupError::Credentials(error)),
    }
}

/// What the last step of startup comes to: the token that the sign-in
/// exchange brought, or the finding that it failed.
pub open spec fn session(exchange: Result<Seq<char>, UpstreamFailure>) -> Result<
    Seq<char>,
    StartupError,
> {
    match exchange {
        Ok(token) => Ok(token),
        Err(_) => Err(StartupError::SignIn),
    }
}

/// What startup comes to, given how the sign-in exchange goes once it is
/// tried: the session token, or the reason why the gateway cannot start.
pub open spec fn startup(
    config: ConfigView,
    secrets: Option<Seq<Option<Seq<char>>>>,
    exchange: Result<Seq<char>, UpstreamFailure>,
) -> Result<Seq<char>, StartupError> {
    match sign_in_step(config, secrets) {
        Ok(_) => session(exchange),
        Err(error) => Err(error),
    }
}

/// What the sign-in exchange brought, as mathematics sees it.
pub open spec fn sign_in_view(exchange: Result<SignInResponse, UpstreamFailure>) -> Result<
    Seq<char>,
    UpstreamFailure,
> {
    match exchange {
        Ok(response) => Ok(response@),
        Err(failure) => Err(failure),
    }
}

/// There is a usable pair of key and secret: in the configuration, or on
/// the first two lines of the secrets file.
pub open spec fn credentials_available(
    config: ConfigView,
    secrets: Option<Seq<Option<Seq<char>>>>,
) -> bool {
    valid_credentials(config.api_key, config.api_secret) || (secrets matches Some(lines)
        && lines.len() >= 2 && valid_credentials(line_text(lines[0]), line_text(lines[1])))
}

/// The first step of startup: resolves the credentials and says which
/// sign-in request to send, or why the gateway cannot start.
pub fn begin_startup(config: &Config, secrets: Option<&SecretsFile>) -> (step: Result<
    OutboundRequest,
    StartupError,
>)
    ensures
        match step {
            Ok(request) => sign_in_step(config@, secrets_view(secrets)) == Ok::<
                OutboundRequestView,
                StartupError,
            >(request@),
            Err(error) => sign_in_step(config@, secrets_view(secrets)) == Err::<
                OutboundRequestView,
                StartupError,
            >(error),
        },
{
    match get_credentials(config, secrets) {
        Ok(pair) => Ok(external::get_jwt(pair.0.as_str(), pair.1.as_str())),
        Err(error) => Err(StartupError::Credentials(error)),
    }
}

/// The last step of startup: the state that the handlers will share,
/// holding the token that the sign-in brought, or the finding that the
/// sign-in failed.
pub fn finish_startup(exchange: Exchange<SignInResponse>) -> (state: Result<
    AppState,
    StartupError,
>)
    ensures
        match state {
            Ok(state) => session(sign_in_view(outcome_of(exchange))) == Ok::<
                Seq<char>,
                StartupError,
            >(state@),
            Err(error) => session(sign_in_view(outcome_of(exchange))) == Err::<
                Seq<char>,
                StartupError,
            >(error),
        },
{
    match received(exchange) {
        Ok(response) => Ok(AppState::new(response.token)),
        Err(_) => Err(StartupError::SignIn),
    }
}

/// With a usable pair of key and secret, startup succeeds exactly when the
/// sign-in exchange succeeds, and the session token is the one that the
/// exchange brought. Without such a pair startup fails, however the
/// exchange would have gone. Credentials that are resolved are usable.
pub proof fn law_startup(
    config: ConfigView,
    secrets: Option<Seq<Option<Seq<char>>>>,
    exchange: Exchange<SignInResponse>,
)
    ensures
        credentials_available(config, secrets) ==> (startup(
            config,
            secrets,
            sign_in_view(outcome_of(exchange)),
        ) is Ok <==> outcome_of(exchange) is Ok),
        credentials_available(config, secrets) && outcome_of(exchange) is Ok ==> startup(
            config,
            secrets,
            sign_in_view(outcome_of(exchange)),
        ) == Ok::<Seq<char>, StartupError>(outcome_of(exchange)->Ok_0@),
        !credentials_available(config, secrets) ==> startup(
            config,
            secrets,
            sign_in_view(outcome_of(exchange)),
        ) matches Err(StartupError::Credentials(_)),
        credentials_available(config, secrets) <==> resolved_credentials(config, secrets) is Ok,
        resolved_credentials(config, secrets) matches Ok(pair) ==> valid_credentials(pair.0, pair.1),
{
}

/// The credentials of a complete configuration win over any secrets file.
pub proof fn law_configuration_first(config: ConfigView, secrets: Option<Seq<Option<Seq<char>>>>)
    requires
        valid_credentials(config.api_key, config.api_secret),
    ensures
        resolved_credentials(config, secrets) == Ok::<(Seq<char>, Seq<char>), CredentialsError>(
            (config.api_key, config.api_secret),
        ),
{
}

} // verus!
