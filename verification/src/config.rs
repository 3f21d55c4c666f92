//! Where usage comes from: credentials, endpoint and the request for them.
#[allow(unused_imports)]
use crate::codec::parse_outcome;
use crate::json::Json;
#[allow(unused_imports)]
use crate::json::{spelled, text_before, JsonView};
#[allow(unused_imports)]
use crate::text::bounded_value;
use crate::text::{joined, parse_unsigned};
use vstd::prelude::*;
use vstd::string::*;

verus! {

/// A result whose error is taken as its characters.
pub open spec fn told<T>(outcome: Result<T, String>) -> Result<T, Seq<char>> {
    match outcome {
        Ok(value) => Ok(value),
        Err(error) => Err(error@),
    }
}

/// The characters of a text that may be there.
pub open spec fn held(text: Option<String>) -> Option<Seq<char>> {
    match text {
        Some(s) => Some(s@),
        None => None,
    }
}

/// What an environment variable holds, as mathematics.
pub enum EnvView {
    Absent,
    NotUnicode,
    Holds(Seq<char>),
}

/// What an environment variable holds.
#[derive(Debug, Clone, PartialEq)]
pub enum EnvValue {
    Absent,
    NotUnicode,
    Holds(String),
}

impl View for EnvValue {
    type V = EnvView;

    open spec fn view(&self) -> EnvView {
        match *self {
            EnvValue::Absent => EnvView::Absent,
            EnvValue::NotUnicode => EnvView::NotUnicode,
            EnvValue::Holds(value) => EnvView::Holds(value@),
        }
    }
}

/// The number that the variable `name` gives: its value, which is at most
/// `max`, or `default` where it is absent. `complaint` says what the value
/// should have been.
pub open spec fn env_number(
    name: Seq<char>,
    var: EnvView,
    default: u64,
    max: u64,
    complaint: Seq<char>,
) -> Result<u64, Seq<char>> {
    match var {
        EnvView::Holds(value) => match bounded_value(value, max) {
            Some(n) => Ok(n),
            None => Err(name + complaint),
        },
        EnvView::Absent => Ok(default),
        EnvView::NotUnicode => Err(name + " is not valid UTF-8"@),
    }
}

/// The number that the variable `name`, which holds `var`, gives.
pub fn parse_env_u64(name: &str, var: &EnvValue, default: u64) -> (number: Result<u64, String>)
    ensures
        told(number) == env_number(
            name@,
            var@,
            default,
            u64::MAX,
            " must be an unsigned integer"@,
        ),
{
    match var {
        EnvValue::Holds(value) => match parse_unsigned(value, u64::MAX) {
            Some(n) => Ok(n),
            None => Err(joined(name, " must be an unsigned integer")),
        },
        EnvValue::Absent => Ok(default),
        EnvValue::NotUnicode => Err(joined(name, " is not valid UTF-8")),
    }
}

/// The 16-bit number that the variable `name`, which holds `var`, gives.
pub fn parse_env_u16(name: &str, var: &EnvValue, default: u16) -> (number: Result<u16, String>)
    ensures
        match number {
            Ok(n) => Ok(n as u64),
            Err(error) => Err(error@),
        } == env_number(
            name@,
            var@,
            default as u64,
            65535,
            " must be an unsigned 16-bit integer"@,
        ),
{
    match var {
        EnvValue::Holds(value) => match parse_unsigned(value, 65535) {
            Some(n) => Ok(n as u16),
            None => Err(joined(name, " must be an unsigned 16-bit integer")),
        },
        EnvValue::Absent => Ok(default),
        EnvValue::NotUnicode => Err(joined(name, " is not valid UTF-8")),
    }
}

/// Where the configuration comes from.
#[derive(Debug, PartialEq, Eq, Structural)]
pub enum UsageSourceKind {
    Codex,
    Custom,
}

/// The custom file is used where one is selected, else the Codex login.
pub fn usage_source_kind(custom_path: Option<&str>) -> (kind: UsageSourceKind)
    ensures
        kind == if custom_path is Some {
            UsageSourceKind::Custom
        } else {
            UsageSourceKind::Codex
        },
{
    if custom_path.is_some() {
        UsageSourceKind::Custom
    } else {
        UsageSourceKind::Codex
    }
}

/// The custom file that the variable `USAGE_SECRETS_FILE`, which holds `var`,
/// selects.
pub fn custom_secrets_path(var: EnvValue) -> (path: Result<Option<String>, String>)
    ensures
        match path {
            Ok(selected) => match var@ {
                EnvView::Holds(value) => held(selected) == Some(value),
                EnvView::Absent => selected is None,
                EnvView::NotUnicode => false,
            },
            Err(error) => var@ is NotUnicode && error@ == "USAGE_SECRETS_FILE is not valid UTF-8"@,
        },
{
    match var {
        EnvValue::Holds(value) => Ok(Some(value)),
        EnvValue::Absent => Ok(None),
        EnvValue::NotUnicode => Err("USAGE_SECRETS_FILE is not valid UTF-8".to_owned()),
    }
}

/// A custom configuration as mathematics.
pub struct SecretsView {
    pub url: Seq<char>,
    pub bearer_token: Option<Seq<char>>,
    pub api_key: Option<Seq<char>>,
    pub headers: Seq<(Seq<char>, Seq<char>)>,
}

/// A custom configuration: an endpoint with its credentials. The headers stand
/// in ascending order of their names, and no name occurs twice.
#[derive(Debug)]
pub struct Secrets {
    pub url: String,
    pub bearer_token: Option<String>,
    pub api_key: Option<String>,
    pub headers: Vec<(String, String)>,
}

impl View for Secrets {
    type V = SecretsView;

    open spec fn view(&self) -> SecretsView {
        SecretsView {
            url: self.url@,
            bearer_token: held(self.bearer_token),
            api_key: held(self.api_key),
            headers: self.headers@.map_values(|header: (String, String)| (header.0@, header.1@)),
        }
    }
}

impl SecretsView {
    /// The names of the headers ascend.
    pub open spec fn wf(self) -> bool {
        forall|i: int, j: int|
            0 <= i < j < self.headers.len() ==> text_before(
                (#[trigger] self.headers[i]).0,
                (#[trigger] self.headers[j]).0,
            )
    }
}

/// The source of usage as mathematics.
pub enum ConfigView {
    Codex { url: Seq<char>, bearer_token: Seq<char> },
    Custom(SecretsView),
}

/// The source of usage.
pub enum UsageConfig {
    Codex { url: String, bearer_token: String },
    Custom(Secrets),
}

impl View for UsageConfig {
    type V = ConfigView;

    open spec fn view(&self) -> ConfigView {
        match *self {
            UsageConfig::Codex { url, bearer_token } => ConfigView::Codex {
                url: url@,
                bearer_token: bearer_token@,
            },
            UsageConfig::Custom(secrets) => ConfigView::Custom(secrets@),
        }
    }
}

impl ConfigView {
    pub open spec fn url(self) -> Seq<char> {
        match self {
            ConfigView::Codex { url, .. } => url,
            ConfigView::Custom(secrets) => secrets.url,
        }
    }

    /// There is an endpoint and a credential for it.
    pub open spec fn usable(self) -> bool {
        &&& self.url().len() > 0
        &&& match self {
            ConfigView::Codex { bearer_token, .. } => bearer_token.len() > 0,
            ConfigView::Custom(secrets) => secrets.bearer_token is Some || secrets.api_key is Some,
        }
    }
}

/// What came of reading a file with a custom configuration, as mathematics.
pub enum SecretsFileView {
    Unreadable(Seq<char>),
    Unparsable(Seq<char>),
    Read(SecretsView),
}

/// What came of reading a file with a custom configuration.
#[derive(Debug)]
pub enum SecretsFile {
    /// The file could not be read; the text says why.
    Unreadable(String),
    /// The file holds no custom configuration; the text says why.
    Unparsable(String),
    /// The file holds this configuration.
    Read(Secrets),
}

impl View for SecretsFile {
    type V = SecretsFileView;

    open spec fn view(&self) -> SecretsFileView {
        match *self {
            SecretsFile::Unreadable(error) => SecretsFileView::Unreadable(error@),
            SecretsFile::Unparsable(error) => SecretsFileView::Unparsable(error@),
            SecretsFile::Read(secrets) => SecretsFileView::Read(secrets@),
        }
    }
}

/// The configuration that a custom file gives, or what is wrong with it.
pub open spec fn custom_config(file: SecretsFileView) -> Result<ConfigView, Seq<char>> {
    match file {
        SecretsFileView::Unreadable(error) => Err("could not read usage secrets file: "@ + error),
        SecretsFileView::Unparsable(error) => Err("could not parse usage secrets file: "@ + error),
        SecretsFileView::Read(secrets) => if secrets.url.len() == 0 {
            Err("usage endpoint URL is empty"@)
        } else if secrets.bearer_token is None && secrets.api_key is None {
            Err("usage secrets must contain bearer_token or api_key"@)
        } else {
            Ok(ConfigView::Custom(secrets))
        },
    }
}

/// A loaded configuration, or what is wrong, as mathematics.
pub open spec fn loaded(outcome: Result<UsageConfig, String>) -> Result<ConfigView, Seq<char>> {
    match outcome {
        Ok(config) => Ok(config@),
        Err(error) => Err(error@),
    }
}

/// The configuration that a custom file gives.
pub fn load_custom_config(file: SecretsFile) -> (outcome: Result<UsageConfig, String>)
    ensures
        loaded(outcome) == custom_config(file@),
        outcome is Ok ==> outcome->Ok_0@.usable(),
{
    match file {
        SecretsFile::Unreadable(error) => Err(
            joined("could not read usage secrets file: ", &error),
        ),
        SecretsFile::Unparsable(error) => Err(
            joined("could not parse usage secrets file: ", &error),
        ),
        SecretsFile::Read(secrets) => {
            if secrets.url.as_str().is_empty() {
                return Err("usage endpoint URL is empty".to_owned());
            }
            if secrets.bearer_token.is_none() && secrets.api_key.is_none() {
                return Err("usage secrets must contain bearer_token or api_key".to_owned());
            }
            Ok(UsageConfig::Custom(secrets))
        },
    }
}

/// The endpoint of Codex usage where no other is set.
pub const DEFAULT_CODEX_USAGE_URL: &'static str = "https://chatgpt.com/backend-api/wham/usage";

/// The directory of the Codex login where the environment names none.
pub const DEFAULT_CODEX_HOME: &'static str = "/home/nonroot/.codex";

/// The file of the Codex login, and the directory it stands in where that is
/// not part of its name.
#[derive(Debug, PartialEq)]
pub struct AuthPath {
    pub directory: Option<String>,
    pub file: String,
}

/// The file of the Codex login, from the variables `CODEX_AUTH_FILE`,
/// `CODEX_HOME` and `HOME`.
pub fn codex_auth_path(
    auth_file: Option<String>,
    codex_home: Option<String>,
    home: Option<String>,
) -> (path: AuthPath)
    ensures
        match auth_file {
            Some(file) => path.directory is None && path.file@ == file@,
            None => path.file@ == "auth.json"@ && held(path.directory) == Some(
                match (codex_home, home) {
                    (Some(directory), _) => directory@,
                    (None, Some(user)) => user@ + "/.codex"@,
                    (None, None) => DEFAULT_CODEX_HOME@,
                },
            ),
        },
{
    if let Some(file) = auth_file {
        return AuthPath { directory: None, file };
    }
    let directory: String = match codex_home {
        Some(directory) => directory,
        None => match home {
            Some(user) => joined(&user, "/.codex"),
            None => DEFAULT_CODEX_HOME.to_owned(),
        },
    };
    AuthPath { directory: Some(directory), file: "auth.json".to_owned() }
}

/// The access token of a Codex login: `tokens.access_token`, or `access_token`
/// where there is no such field. An empty one does not count.
pub open spec fn access_token(auth: JsonView) -> Option<Seq<char>> {
    let nested = match auth.get("tokens"@) {
        Some(tokens) => tokens.get("access_token"@),
        None => None,
    };
    let field = if nested is Some {
        nested
    } else {
        auth.get("access_token"@)
    };
    match field {
        Some(JsonView::Text(token)) => if token.len() > 0 {
            Some(token)
        } else {
            None
        },
        _ => None,
    }
}

/// The access token of a Codex login.
pub fn extract_access_token(auth: &Json) -> (token: Option<&str>)
    ensures
        spelled(token) == access_token(auth@),
{
    let nested: Option<&Json> = match auth.get("tokens") {
        Some(tokens) => tokens.get("access_token"),
        None => None,
    };
    let field: Option<&Json> = match nested {
        Some(token) => Some(token),
        None => auth.get("access_token"),
    };
    let token: &str = match field {
        Some(value) => match value.as_str() {
            Some(token) => token,
            None => {
                return None;
            },
        },
        None => {
            return None;
        },
    };
    if token.is_empty() {
        None
    } else {
        Some(token)
    }
}

/// What came of reading the file of the Codex login, as mathematics.
pub enum AuthFileView {
    Unreadable { path: Seq<char>, error: Seq<char> },
    Read(Seq<char>),
}

/// What came of reading the file of the Codex login.
pub enum AuthFile {
    /// The file at `path` could not be read; `error` says why.
    Unreadable { path: String, error: String },
    /// The file holds this text.
    Read(String),
}

impl View for AuthFile {
    type V = AuthFileView;

    open spec fn view(&self) -> AuthFileView {
        match *self {
            AuthFile::Unreadable { path, error } => AuthFileView::Unreadable {
                path: path@,
                error: error@,
            },
            AuthFile::Read(text) => AuthFileView::Read(text@),
        }
    }
}

/// The endpoint of Codex usage: `url_var` where it is set.
pub open spec fn codex_url(url_var: Option<Seq<char>>) -> Seq<char> {
    match url_var {
        Some(url) => url,
        None => DEFAULT_CODEX_USAGE_URL@,
    }
}

/// The configuration that a Codex login gives, or what is wrong with it.
/// `parsed` is what came of reading the login as JSON.
pub open spec fn codex_config_of(
    parsed: Result<JsonView, Seq<char>>,
    url_var: Option<Seq<char>>,
) -> Result<ConfigView, Seq<char>> {
    match parsed {
        Err(error) => Err("could not parse Codex auth file: "@ + error),
        Ok(auth) => match access_token(auth) {
            None => Err(
                "Codex auth file does not contain tokens.access_token or access_token; OS keyring and ephemeral credentials are unavailable in this container"@,
            ),
            Some(bearer_token) => if codex_url(url_var).len() == 0 {
                Err("CODEX_USAGE_URL is empty"@)
            } else {
                Ok(ConfigView::Codex { url: codex_url(url_var), bearer_token })
            },
        },
    }
}

/// The configuration that the file of the Codex login gives, or what is wrong.
pub open spec fn codex_config(file: AuthFileView, url_var: Option<Seq<char>>) -> Result<
    ConfigView,
    Seq<char>,
> {
    match file {
        AuthFileView::Unreadable { path, error } => Err(
            "could not read Codex auth file "@ + path + ": "@ + error
                + "; mount auth.json read-only or set CODEX_AUTH_FILE"@,
        ),
        AuthFileView::Read(text) => codex_config_of(parse_outcome(text), url_var),
    }
}

/// What came of reading a JSON text, as mathematics.
pub open spec fn json_read(parsed: Result<Json, String>) -> Result<JsonView, Seq<char>> {
    match parsed {
        Ok(json) => Ok(json@),
        Err(error) => Err(error@),
    }
}

/// The configuration that a Codex login gives, where the variable
/// `CODEX_USAGE_URL` holds `url_var`. `parsed` is what came of reading the login
/// as JSON.
pub fn codex_config_from_json(parsed: Result<Json, String>, url_var: Option<String>) -> (outcome:
    Result<UsageConfig, String>)
    ensures
        loaded(outcome) == codex_config_of(json_read(parsed), held(url_var)),
        outcome is Ok ==> outcome->Ok_0@.usable(),
{
    let auth: Json = match parsed {
        Ok(auth) => auth,
        Err(error) => {
            return Err(joined("could not parse Codex auth file: ", &error));
        },
    };
    let bearer_token: &str = match extract_access_token(&auth) {
        Some(token) => token,
        None => {
            return Err(
                "Codex auth file does not contain tokens.access_token or access_token; OS keyring and ephemeral credentials are unavailable in this container".to_owned(),
            );
        },
    };
    let url: String = match url_var {
        Some(url) => url,
        None => DEFAULT_CODEX_USAGE_URL.to_owned(),
    };
    if url.as_str().is_empty() {
        return Err("CODEX_USAGE_URL is empty".to_owned());
    }
    Ok(UsageConfig::Codex { url, bearer_token: bearer_token.to_owned() })
}

/// The configuration that the file of the Codex login gives, where the variable
/// `CODEX_USAGE_URL` holds `url_var`.
pub fn load_codex_config(file: AuthFile, url_var: Option<String>) -> (outcome: Result<
    UsageConfig,
    String,
>)
    ensures
        loaded(outcome) == codex_config(file@, held(url_var)),
        outcome is Ok ==> outcome->Ok_0@.usable(),
{
    match file {
        AuthFile::Unreadable { path, error } => {
            let mut message: String = joined("could not read Codex auth file ", &path);
            message.append(": ");
            message.append(&error);
            message.append("; mount auth.json read-only or set CODEX_AUTH_FILE");
            Err(message)
        },
        AuthFile::Read(text) => codex_config_from_json(Json::parse(&text), url_var),
    }
}

/// A part of a request as mathematics.
pub enum PartView {
    Bearer(Seq<char>),
    Header(Seq<char>, Seq<char>),
}

/// A part of a request: the bearer token, or a header with its value.
#[derive(Debug, PartialEq)]
pub enum RequestPart {
    Bearer(String),
    Header(String, String),
}

impl View for RequestPart {
    type V = PartView;

    open spec fn view(&self) -> PartView {
        match *self {
            RequestPart::Bearer(token) => PartView::Bearer(token@),
            RequestPart::Header(name, value) => PartView::Header(name@, value@),
        }
    }
}

/// A GET request as mathematics.
pub struct RequestView {
    pub url: Seq<char>,
    pub parts: Seq<PartView>,
}

/// A GET request: its address, and its parts in the order in which they are
/// added.
#[derive(Debug, PartialEq)]
pub struct UsageRequest {
    pub url: String,
    pub parts: Vec<RequestPart>,
}

impl View for UsageRequest {
    type V = RequestView;

    open spec fn view(&self) -> RequestView {
        RequestView { url: self.url@, parts: self.parts@.map_values(|part: RequestPart| part@) }
    }
}

/// The credential that a custom configuration sends: the bearer token, or else
/// the API key.
pub open spec fn credential_parts(secrets: SecretsView) -> Seq<PartView> {
    match (secrets.bearer_token, secrets.api_key) {
        (Some(token), _) => seq![PartView::Bearer(token)],
        (None, Some(key)) => seq![PartView::Header("X-API-Key"@, key)],
        (None, None) => Seq::empty(),
    }
}

/// The headers that a custom configuration adds.
pub open spec fn header_parts(secrets: SecretsView) -> Seq<PartView> {
    secrets.headers.map_values(
        |header: (Seq<char>, Seq<char>)| PartView::Header(header.0, header.1),
    )
}

/// The request for the usage that a configuration describes.
pub open spec fn request_for(config: ConfigView) -> RequestView {
    match config {
        ConfigView::Codex { url, bearer_token } => RequestView {
            url,
            parts: seq![
                PartView::Bearer(bearer_token),
                PartView::Header("User-Agent"@, "usage-mcp-server"@),
            ],
        },
        ConfigView::Custom(secrets) => RequestView {
            url: secrets.url,
            parts: credential_parts(secrets) + header_parts(secrets),
        },
    }
}

/// The request for the usage that `config` describes.
pub fn usage_request(config: &UsageConfig) -> (request: UsageRequest)
    ensures
        request@ == request_for(config@),
{
    match config {
        UsageConfig::Codex { url, bearer_token } => {
            let parts: Vec<RequestPart> = vec![
                RequestPart::Bearer(bearer_token.clone()),
                RequestPart::Header("User-Agent".to_owned(), "usage-mcp-server".to_owned()),
            ];
            let request: UsageRequest = UsageRequest { url: url.clone(), parts };
            assert(request@.parts =~= request_for(config@).parts);
            request
        },
        UsageConfig::Custom(secrets) => {
            let mut parts: Vec<RequestPart> = Vec::new();
            if let Some(token) = &secrets.bearer_token {
                parts.push(RequestPart::Bearer(token.clone()));
            } else if let Some(key) = &secrets.api_key {
                parts.push(RequestPart::Header("X-API-Key".to_owned(), key.clone()));
            }
            let ghost first = parts@.map_values(|part: RequestPart| part@);
            assert(first =~= credential_parts(secrets@));
            let ghost more = header_parts(secrets@);
            for i in 0..secrets.headers.len()
                invariant
                    more == header_parts(secrets@),
                    parts@.map_values(|part: RequestPart| part@) == first + more.take(i as int),
            {
                let ghost before = parts@.map_values(|part: RequestPart| part@);
                let (name, value) = &secrets.headers[i];
                parts.push(RequestPart::Header(name.clone(), value.clone()));
                assert(parts@.map_values(|part: RequestPart| part@) =~= before.push(
                    more[i as int],
                ));
                assert(before.push(more[i as int]) =~= first + more.take(i + 1));
            }
            assert(more.take(more.len() as int) =~= more);
            UsageRequest { url: secrets.url.clone(), parts }
        },
    }
}

/// The request for usage that a usable configuration describes goes to the
/// configured endpoint and starts with a credential of the configuration.
pub proof fn law_requests_carry_a_credential(config: ConfigView)
    requires
        config.usable(),
    ensures
        request_for(config).url == config.url(),
        request_for(config).url.len() > 0,
        request_for(config).parts.len() > 0,
        request_for(config).parts[0] == match config {
            ConfigView::Codex { bearer_token, .. } => PartView::Bearer(bearer_token),
            ConfigView::Custom(secrets) => match secrets.bearer_token {
                Some(token) => PartView::Bearer(token),
                None => PartView::Header("X-API-Key"@, secrets.api_key->0),
            },
        },
{
}

/// A custom configuration sends its own headers after the credential, in
/// ascending order of their names.
pub proof fn law_custom_headers_ascend(secrets: SecretsView, i: int, j: int)
    requires
        secrets.wf(),
        credential_parts(secrets).len() <= i < j < request_for(
            ConfigView::Custom(secrets),
        ).parts.len(),
    ensures
        ({
            let parts = request_for(ConfigView::Custom(secrets)).parts;
            &&& parts[i] is Header
            &&& parts[j] is Header
            &&& text_before(parts[i]->Header_0, parts[j]->Header_0)
        }),
{
    let first = credential_parts(secrets).len();
    let parts = request_for(ConfigView::Custom(secrets)).parts;
    assert(parts[i] == PartView::Header(secrets.headers[i - first].0, secrets.headers[i - first].1));
    assert(parts[j] == PartView::Header(secrets.headers[j - first].0, secrets.headers[j - first].1));
}

/// What is said of a Codex login that is refused does not depend on its token:
/// another login is refused in the same words, if it has a token exactly where
/// the first has one.
pub proof fn law_login_refusals_do_not_depend_on_the_token(
    login: JsonView,
    other: JsonView,
    url_var: Option<Seq<char>>,
)
    requires
        access_token(login) is Some <==> access_token(other) is Some,
    ensures
        match (codex_config_of(Ok(login), url_var), codex_config_of(Ok(other), url_var)) {
            (Ok(_), Ok(_)) => true,
            (a, b) => a == b,
        },
{
}

/// What is said of a custom configuration that is refused does not depend on
/// its credentials and headers: another one for the same endpoint, with the same
/// kinds of credentials, is refused in the same words.
pub proof fn law_custom_refusals_do_not_depend_on_credentials(
    secrets: SecretsView,
    other: SecretsView,
)
    requires
        secrets.url == other.url,
        secrets.bearer_token is Some <==> other.bearer_token is Some,
        secrets.api_key is Some <==> other.api_key is Some,
    ensures
        match (
            custom_config(SecretsFileView::Read(secrets)),
            custom_config(SecretsFileView::Read(other)),
        ) {
            (Ok(_), Ok(_)) => true,
            (a, b) => a == b,
        },
{
}

/// A variable that holds the numeral of a number gives that number.
pub proof fn law_numerals_configure(n: u64, name: Seq<char>, default: u64, complaint: Seq<char>)
    ensures
        env_number(
            name,
            EnvView::Holds(crate::text::decimal(n as nat)),
            default,
            u64::MAX,
            complaint,
        ) == Ok::<u64, Seq<char>>(n),
{
    crate::text::law_numeral_reads_back(n as nat);
}

} // verus!
