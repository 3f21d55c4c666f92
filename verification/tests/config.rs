use usage_mcp_server::config::{
    codex_auth_path, codex_config_from_json, custom_secrets_path, extract_access_token,
    load_codex_config, load_custom_config, parse_env_u16, parse_env_u64, usage_request,
    usage_source_kind, AuthFile, AuthPath, EnvValue, RequestPart, Secrets, SecretsFile,
    UsageConfig, UsageSourceKind, DEFAULT_CODEX_USAGE_URL,
};
use usage_mcp_server::json::Json;

fn text(s: &str) -> Option<String> {
    Some(s.to_owned())
}

fn holds(s: &str) -> EnvValue {
    EnvValue::Holds(s.to_owned())
}

fn error_of(outcome: Result<UsageConfig, String>) -> String {
    match outcome {
        Ok(_) => panic!("a configuration"),
        Err(error) => error,
    }
}

fn config_of(outcome: Result<UsageConfig, String>) -> UsageConfig {
    match outcome {
        Ok(config) => config,
        Err(error) => panic!("{}", error),
    }
}

fn secrets(bearer_token: Option<&str>, api_key: Option<&str>) -> Secrets {
    Secrets {
        url: "https://usage.example.test/v1/usage".to_owned(),
        bearer_token: bearer_token.map(str::to_owned),
        api_key: api_key.map(str::to_owned),
        headers: vec![
            ("X-Team".to_owned(), "a".to_owned()),
            ("X-Workspace".to_owned(), "example".to_owned()),
        ],
    }
}

fn bearer(token: &str) -> RequestPart {
    RequestPart::Bearer(token.to_owned())
}

fn header(name: &str, value: &str) -> RequestPart {
    RequestPart::Header(name.to_owned(), value.to_owned())
}

#[test]
fn extracts_current_codex_access_token() {
    let auth = Json::object1("tokens", Json::object1("access_token", Json::text("example")));
    assert_eq!(extract_access_token(&auth), Some("example"));
}

#[test]
fn extracts_legacy_codex_access_token() {
    let auth = Json::object1("access_token", Json::text("example"));
    assert_eq!(extract_access_token(&auth), Some("example"));
}

#[test]
fn rejects_missing_or_empty_access_token() {
    assert_eq!(extract_access_token(&Json::empty_object()), None);
    assert_eq!(
        extract_access_token(&Json::object1(
            "tokens",
            Json::object1("access_token", Json::text(""))
        )),
        None
    );
}

#[test]
fn the_fallback_token_counts_only_where_the_current_field_is_missing() {
    let json = |s: &str| Json::parse(s).unwrap();
    let both = json("{\"tokens\":{\"access_token\":\"new\"},\"access_token\":\"old\"}");
    assert_eq!(extract_access_token(&both), Some("new"));
    let empty = json("{\"tokens\":{\"access_token\":\"\"},\"access_token\":\"old\"}");
    assert_eq!(extract_access_token(&empty), None);
    let wrong = json("{\"tokens\":{\"access_token\":5},\"access_token\":\"old\"}");
    assert_eq!(extract_access_token(&wrong), None);
    let other = json("{\"tokens\":\"none\",\"access_token\":\"old\"}");
    assert_eq!(extract_access_token(&other), Some("old"));
}

#[test]
fn uses_codex_auth_by_default_and_custom_file_when_selected() {
    assert_eq!(usage_source_kind(None), UsageSourceKind::Codex);
    assert_eq!(
        usage_source_kind(Some("/run/secrets/usage.json")),
        UsageSourceKind::Custom
    );
}

#[test]
fn the_custom_file_is_selected_by_its_variable() {
    assert_eq!(custom_secrets_path(EnvValue::Absent), Ok(None));
    assert_eq!(custom_secrets_path(holds("/a")), Ok(text("/a")));
    assert_eq!(
        custom_secrets_path(EnvValue::NotUnicode),
        Err("USAGE_SECRETS_FILE is not valid UTF-8".to_owned())
    );
}

#[test]
fn numbers_come_from_variables() {
    assert_eq!(parse_env_u64("N", &EnvValue::Absent, 30), Ok(30));
    assert_eq!(parse_env_u64("N", &holds("18446744073709551615"), 30), Ok(u64::MAX));
    assert_eq!(
        parse_env_u64("N", &holds("-1"), 30),
        Err("N must be an unsigned integer".to_owned())
    );
    assert_eq!(
        parse_env_u64("N", &EnvValue::NotUnicode, 30),
        Err("N is not valid UTF-8".to_owned())
    );
    assert_eq!(parse_env_u16("PORT", &EnvValue::Absent, 8000), Ok(8000));
    assert_eq!(parse_env_u16("PORT", &holds("65535"), 8000), Ok(65535));
    assert_eq!(
        parse_env_u16("PORT", &holds("65536"), 8000),
        Err("PORT must be an unsigned 16-bit integer".to_owned())
    );
    assert_eq!(
        parse_env_u16("PORT", &EnvValue::NotUnicode, 8000),
        Err("PORT is not valid UTF-8".to_owned())
    );
}

#[test]
fn custom_files_need_an_endpoint_and_a_credential() {
    assert_eq!(
        error_of(load_custom_config(SecretsFile::Unreadable("gone".to_owned()))),
        "could not read usage secrets file: gone"
    );
    assert_eq!(
        error_of(load_custom_config(SecretsFile::Unparsable("odd".to_owned()))),
        "could not parse usage secrets file: odd"
    );
    let mut no_url = secrets(Some("t"), None);
    no_url.url = String::new();
    assert_eq!(
        error_of(load_custom_config(SecretsFile::Read(no_url))),
        "usage endpoint URL is empty"
    );
    assert_eq!(
        error_of(load_custom_config(SecretsFile::Read(secrets(None, None)))),
        "usage secrets must contain bearer_token or api_key"
    );
    let config = config_of(load_custom_config(SecretsFile::Read(secrets(None, Some("k")))));
    assert!(matches!(config, UsageConfig::Custom(s) if s.api_key == text("k")));
}

#[test]
fn the_codex_login_is_looked_for_in_order() {
    assert_eq!(
        codex_auth_path(text("/f"), text("/c"), text("/h")),
        AuthPath { directory: None, file: "/f".to_owned() }
    );
    let within = |directory: &str| AuthPath {
        directory: text(directory),
        file: "auth.json".to_owned(),
    };
    assert_eq!(codex_auth_path(None, text("/c"), text("/h")), within("/c"));
    assert_eq!(codex_auth_path(None, None, text("/h")), within("/h/.codex"));
    assert_eq!(codex_auth_path(None, None, None), within("/home/nonroot/.codex"));
}

#[test]
fn the_codex_login_gives_a_configuration() {
    let auth = "{\"tokens\":{\"access_token\":\"example\"}}";
    let config = config_of(load_codex_config(AuthFile::Read(auth.to_owned()), None));
    assert_eq!(
        usage_request(&config).url,
        "https://chatgpt.com/backend-api/wham/usage"
    );
    assert_eq!(
        usage_request(&config).parts,
        vec![bearer("example"), header("User-Agent", "usage-mcp-server")]
    );
    let config = config_of(load_codex_config(AuthFile::Read(auth.to_owned()), text("http://u")));
    assert!(matches!(
        config,
        UsageConfig::Codex { url, bearer_token } if url == "http://u" && bearer_token == "example"
    ));
    assert_eq!(DEFAULT_CODEX_USAGE_URL, "https://chatgpt.com/backend-api/wham/usage");
}

#[test]
fn codex_logins_without_use_are_refused() {
    let unreadable = AuthFile::Unreadable {
        path: "/c/auth.json".to_owned(),
        error: "gone".to_owned(),
    };
    assert_eq!(
        error_of(load_codex_config(unreadable, None)),
        "could not read Codex auth file /c/auth.json: gone; mount auth.json read-only or set CODEX_AUTH_FILE"
    );
    let reason = Json::parse("{").unwrap_err();
    assert_eq!(
        error_of(load_codex_config(AuthFile::Read("{".to_owned()), None)),
        format!("could not parse Codex auth file: {reason}")
    );
    assert_eq!(
        error_of(codex_config_from_json(Err("odd".to_owned()), None)),
        "could not parse Codex auth file: odd"
    );
    assert_eq!(
        error_of(load_codex_config(AuthFile::Read("{}".to_owned()), text(""))),
        "Codex auth file does not contain tokens.access_token or access_token; OS keyring and ephemeral credentials are unavailable in this container"
    );
    let auth = Json::object1("access_token", Json::text("example"));
    assert_eq!(
        error_of(codex_config_from_json(Ok(auth), text(""))),
        "CODEX_USAGE_URL is empty"
    );
}

#[test]
fn refusals_do_not_hold_credentials() {
    let login = |token: &str| Ok(Json::object1("access_token", Json::text(token)));
    assert_eq!(
        error_of(codex_config_from_json(login("one"), text(""))),
        error_of(codex_config_from_json(login("two"), text("")))
    );
    let custom = |token: &str| {
        let mut unfit = secrets(Some(token), None);
        unfit.url = String::new();
        error_of(load_custom_config(SecretsFile::Read(unfit)))
    };
    assert_eq!(custom("one"), custom("two"));
}

#[test]
fn custom_requests_carry_one_credential_and_the_headers() {
    let request = usage_request(&UsageConfig::Custom(secrets(Some("t"), Some("k"))));
    assert_eq!(request.url, "https://usage.example.test/v1/usage");
    assert_eq!(
        request.parts,
        vec![bearer("t"), header("X-Team", "a"), header("X-Workspace", "example")]
    );
    let request = usage_request(&UsageConfig::Custom(secrets(None, Some("k"))));
    assert_eq!(
        request.parts,
        vec![header("X-API-Key", "k"), header("X-Team", "a"), header("X-Workspace", "example")]
    );
}
