use analyzer::config::{
    begin_startup, finish_startup, get_credentials, AppState, Config, CredentialsError,
    SecretsFile, StartupError,
};
use analyzer::data::SignInResponse;
use analyzer::external::{Exchange, Method};

fn config(api_key: &str, api_secret: &str) -> Config {
    Config { api_key: api_key.to_string(), api_secret: api_secret.to_string() }
}

fn file(lines: &[Option<&str>]) -> SecretsFile {
    SecretsFile { lines: lines.iter().map(|line| line.map(|text| text.to_string())).collect() }
}

fn pair(key: &str, secret: &str) -> Result<(String, String), CredentialsError> {
    Ok((key.to_string(), secret.to_string()))
}

#[test]
fn the_default_configuration_is_empty() {
    let config = Config::default();
    assert_eq!(config.api_key, "");
    assert_eq!(config.api_secret, "");
    assert!(!config.is_complete());
}

#[test]
fn a_configuration_is_complete_with_both_values() {
    assert!(config("k", "s").is_complete());
    assert!(!config("k", "").is_complete());
    assert!(!config("", "s").is_complete());
    assert!(!config("", "").is_complete());
}

#[test]
fn the_configuration_wins_over_the_file() {
    let secrets = file(&[Some("file-key"), Some("file-secret")]);
    assert_eq!(get_credentials(&config("k", "s"), Some(&secrets)), pair("k", "s"));
    assert_eq!(get_credentials(&config("k", "s"), None), pair("k", "s"));
}

#[test]
fn an_incomplete_configuration_falls_back_to_the_file() {
    let secrets = file(&[Some("file-key"), Some("file-secret")]);
    assert_eq!(get_credentials(&config("", ""), Some(&secrets)), pair("file-key", "file-secret"));
    assert_eq!(get_credentials(&config("k", ""), Some(&secrets)), pair("file-key", "file-secret"));
    assert_eq!(get_credentials(&config("", "s"), Some(&secrets)), pair("file-key", "file-secret"));
}

#[test]
fn lines_after_the_second_are_ignored() {
    let secrets = file(&[Some("file-key"), Some("file-secret"), Some("more"), None, Some("")]);
    assert_eq!(get_credentials(&config("", ""), Some(&secrets)), pair("file-key", "file-secret"));
}

#[test]
fn a_missing_file_is_an_error() {
    assert_eq!(
        get_credentials(&config("", ""), None),
        Err(CredentialsError::SecretsFileMissing)
    );
    assert_eq!(
        get_credentials(&config("k", ""), None),
        Err(CredentialsError::SecretsFileMissing)
    );
}

#[test]
fn a_file_with_fewer_than_two_lines_is_an_error() {
    assert_eq!(
        get_credentials(&config("", ""), Some(&file(&[]))),
        Err(CredentialsError::SecretsFileTooShort)
    );
    assert_eq!(
        get_credentials(&config("", ""), Some(&file(&[Some("file-key")]))),
        Err(CredentialsError::SecretsFileTooShort)
    );
}

#[test]
fn an_empty_line_is_an_error() {
    assert_eq!(
        get_credentials(&config("", ""), Some(&file(&[Some(""), Some("file-secret")]))),
        Err(CredentialsError::EmptySecret)
    );
    assert_eq!(
        get_credentials(&config("", ""), Some(&file(&[Some("file-key"), Some("")]))),
        Err(CredentialsError::EmptySecret)
    );
    assert_eq!(
        get_credentials(&config("", ""), Some(&file(&[Some("")]))),
        Err(CredentialsError::EmptySecret)
    );
}

#[test]
fn an_unreadable_line_counts_as_empty() {
    assert_eq!(
        get_credentials(&config("", ""), Some(&file(&[None, Some("file-secret")]))),
        Err(CredentialsError::EmptySecret)
    );
    assert_eq!(
        get_credentials(&config("", ""), Some(&file(&[Some("file-key"), None]))),
        Err(CredentialsError::EmptySecret)
    );
}

#[test]
fn startup_signs_in_with_the_resolved_credentials() {
    let request = begin_startup(&config("k", "s"), None).unwrap();
    assert_eq!(request.method, Method::Post);
    assert_eq!(request.url, "https://testing.timeular.com/api/v2/developer/sign-in");
    assert_eq!(request.headers, vec![("Authorization".to_string(), "Bearer ".to_string())]);
    let body = request.body.unwrap();
    assert_eq!(body.get("apiKey"), Some(&"k".to_string()));
    assert_eq!(body.get("apiSecret"), Some(&"s".to_string()));
    assert_eq!(body.len(), 2);
}

#[test]
fn startup_signs_in_with_the_credentials_of_the_file() {
    let secrets = file(&[Some("file-key"), Some("file-secret")]);
    let request = begin_startup(&config("", ""), Some(&secrets)).unwrap();
    let body = request.body.unwrap();
    assert_eq!(body.get("apiKey"), Some(&"file-key".to_string()));
    assert_eq!(body.get("apiSecret"), Some(&"file-secret".to_string()));
}

#[test]
fn startup_without_credentials_is_fatal() {
    assert_eq!(
        begin_startup(&config("", ""), None).err(),
        Some(StartupError::Credentials(CredentialsError::SecretsFileMissing))
    );
    assert_eq!(
        begin_startup(&config("", ""), Some(&file(&[Some("only")]))).err(),
        Some(StartupError::Credentials(CredentialsError::SecretsFileTooShort))
    );
    assert_eq!(
        begin_startup(&config("", ""), Some(&file(&[Some("key"), Some("")]))).err(),
        Some(StartupError::Credentials(CredentialsError::EmptySecret))
    );
}

#[test]
fn startup_succeeds_when_the_sign_in_succeeds() {
    let signed_in = SignInResponse { token: "session".to_string() };
    let state = finish_startup(Exchange::Response { status: 200, body: Some(signed_in) }).unwrap();
    assert_eq!(state.jwt(), "session");
}

#[test]
fn startup_is_fatal_when_the_sign_in_fails() {
    assert_eq!(finish_startup(Exchange::NoResponse).err(), Some(StartupError::SignIn));
    let refused = SignInResponse { token: "session".to_string() };
    assert_eq!(
        finish_startup(Exchange::Response { status: 401, body: Some(refused) }).err(),
        Some(StartupError::SignIn)
    );
    assert_eq!(
        finish_startup(Exchange::Response { status: 200, body: None }).err(),
        Some(StartupError::SignIn)
    );
}

#[test]
fn the_state_holds_the_token() {
    let state = AppState::new("abc.def.ghi".to_string());
    assert_eq!(state.jwt(), "abc.def.ghi");
}
