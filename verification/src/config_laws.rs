//! What holds of every setting, login and request for usage.
#![allow(unused_imports)]
use crate::codec::parse_outcome;
use crate::config::{
    access_token, codex_auth_path, codex_config_from_json, custom_secrets_path,
    extract_access_token, load_codex_config, load_custom_config, parse_env_u16, parse_env_u64,
    usage_request, usage_source_kind, AuthFile, AuthPath, EnvValue, RequestPart, Secrets,
    SecretsFile, UsageConfig, UsageRequest, UsageSourceKind,
};
use crate::json::{Json, JsonView};
use crate::text::{decimal, law_numeral_reads_back, unsigned_value};
use vstd::prelude::*;

verus! {

/// A variable gives the number that it denotes, in whatever way it is written,
/// and the default where it is absent. Anything else is refused by name.
pub proof fn law_settings_are_read(
    name: &str,
    var: EnvValue,
    default: u64,
    n: nat,
    number: Result<u64, String>,
)
    requires
        call_ensures(parse_env_u64, (name, &var, default), number),
    ensures
        var is Absent ==> number == Ok::<u64, String>(default),
        var is NotUnicode ==> number is Err && number->Err_0@ == name@ + " is not valid UTF-8"@,
        var matches EnvValue::Holds(value) ==> {
            &&& value@ == decimal(n) || unsigned_value(value@) == Some(n) ==> if n <= u64::MAX {
                number is Ok && number->Ok_0 == n
            } else {
                number is Err
            }
            &&& unsigned_value(value@) is None ==> number is Err
            &&& number is Err ==> number->Err_0@ == name@ + " must be an unsigned integer"@
        },
{
    law_numeral_reads_back(n);
}

/// A variable gives the number up to 65535 that it denotes, in whatever way it is
/// written, and the default where it is absent. Anything else is refused by name.
pub proof fn law_ports_are_read(
    name: &str,
    var: EnvValue,
    default: u16,
    n: nat,
    number: Result<u16, String>,
)
    requires
        call_ensures(parse_env_u16, (name, &var, default), number),
    ensures
        var is Absent ==> number is Ok && number->Ok_0 == default,
        var is NotUnicode ==> number is Err && number->Err_0@ == name@ + " is not valid UTF-8"@,
        var matches EnvValue::Holds(value) ==> {
            &&& value@ == decimal(n) || unsigned_value(value@) == Some(n) ==> if n <= 65535 {
                number is Ok && number->Ok_0 == n
            } else {
                number is Err
            }
            &&& unsigned_value(value@) is None ==> number is Err
            &&& number is Err ==> number->Err_0@ == name@ + " must be an unsigned 16-bit integer"@
        },
{
    law_numeral_reads_back(n);
}

/// A custom file is used exactly if the variable names one, whatever its name.
pub proof fn law_the_source_is_selected(
    var: EnvValue,
    path: Result<Option<String>, String>,
    selected: Option<&str>,
    kind: UsageSourceKind,
)
    requires
        call_ensures(custom_secrets_path, (var,), path),
        call_ensures(usage_source_kind, (selected,), kind),
        selected is Some <==> path is Ok && path->Ok_0 is Some,
    ensures
        var matches EnvValue::Holds(value) ==> path is Ok && path->Ok_0 is Some
            && path->Ok_0->0@ == value@ && kind == UsageSourceKind::Custom,
        var is Absent ==> path is Ok && path->Ok_0 is None && kind == UsageSourceKind::Codex,
        var is NotUnicode ==> path is Err && path->Err_0@
            == "USAGE_SECRETS_FILE is not valid UTF-8"@,
{
}

/// The file of the login is the one that is named; else `auth.json` in the
/// directory that is named, in `.codex` of the user's home, or in the default
/// directory.
pub proof fn law_the_login_is_looked_for_in_order(
    auth_file: Option<String>,
    codex_home: Option<String>,
    home: Option<String>,
    path: AuthPath,
)
    requires
        call_ensures(codex_auth_path, (auth_file, codex_home, home), path),
    ensures
        auth_file matches Some(file) ==> path.directory is None && path.file@ == file@,
        auth_file is None ==> path.file@ == "auth.json"@ && path.directory is Some,
        auth_file is None && codex_home is Some ==> path.directory->0@ == codex_home->0@,
        auth_file is None && codex_home is None && home is Some ==> path.directory->0@
            == home->0@ + "/.codex"@,
        auth_file is None && codex_home is None && home is None ==> path.directory->0@
            == "/home/nonroot/.codex"@,
{
}

/// The field of a login that holds the access token.
pub open spec fn token_field(login: JsonView) -> Option<JsonView> {
    match login.get("tokens"@) {
        Some(tokens) if tokens.get("access_token"@) is Some => tokens.get("access_token"@),
        _ => login.get("access_token"@),
    }
}

/// Every text but the empty one, of whatever length, is an access token, whatever
/// else the login holds: in `tokens.access_token`, or in `access_token` of a login
/// without that field. Nothing else is.
pub proof fn law_every_token_counts(login: Json, t: Seq<char>, token: Option<&str>)
    requires
        call_ensures(extract_access_token, (&login,), token),
    ensures
        login@.get("tokens"@) is Some && login@.get("tokens"@)->0.get("access_token"@) == Some(
            JsonView::Text(t),
        ) && t.len() > 0 ==> token is Some && token->0@ == t,
        (login@.get("tokens"@) is None || login@.get("tokens"@)->0.get("access_token"@) is None)
            && login@.get("access_token"@) == Some(JsonView::Text(t)) && t.len() > 0
            ==> token is Some && token->0@ == t,
        token is Some ==> token->0@.len() > 0 && token_field(login@) == Some(
            JsonView::Text(token->0@),
        ),
{
}

/// What comes of a login that reads as JSON. With a token it gives a
/// configuration with that token and the endpoint that is set, or the default
/// one. It is refused only where it has no token or the endpoint that is set is
/// empty.
pub open spec fn is_outcome_of_login(
    outcome: Result<UsageConfig, String>,
    login: JsonView,
    url_var: Option<String>,
) -> bool {
    let has_token = token_field(login) matches Some(JsonView::Text(text)) && text.len() > 0;
    let empty_url = url_var is Some && url_var->0@.len() == 0;
    &&& outcome is Ok <==> has_token && !empty_url
    &&& outcome matches Ok(config) ==> {
        &&& config is Codex
        &&& token_field(login) == Some(JsonView::Text(config->bearer_token@))
        &&& url_var is Some ==> config->url@ == url_var->0@
        &&& url_var is None ==> config->url@ == "https://chatgpt.com/backend-api/wham/usage"@
    }
    &&& !has_token ==> outcome->Err_0@
        == "Codex auth file does not contain tokens.access_token or access_token; OS keyring and ephemeral credentials are unavailable in this container"@
    &&& has_token && empty_url ==> outcome->Err_0@ == "CODEX_USAGE_URL is empty"@
}

/// Every login with a token is used, and what is wrong with another one is told.
pub proof fn law_every_login_with_a_token_is_used(
    parsed: Result<Json, String>,
    url_var: Option<String>,
    outcome: Result<UsageConfig, String>,
)
    requires
        call_ensures(codex_config_from_json, (parsed, url_var), outcome),
    ensures
        parsed matches Ok(login) ==> is_outcome_of_login(outcome, login@, url_var),
        parsed matches Err(error) ==> outcome is Err && outcome->Err_0@
            == "could not parse Codex auth file: "@ + error@,
{
    reveal_strlit("https://chatgpt.com/backend-api/wham/usage");
}

/// What is read from the file of the login counts, and what is wrong with the
/// file is told.
pub proof fn law_login_files_are_read(
    file: AuthFile,
    url_var: Option<String>,
    outcome: Result<UsageConfig, String>,
)
    requires
        call_ensures(load_codex_config, (file, url_var), outcome),
    ensures
        file matches AuthFile::Unreadable { path, error } ==> outcome is Err && outcome->Err_0@
            == "could not read Codex auth file "@ + path@ + ": "@ + error@
            + "; mount auth.json read-only or set CODEX_AUTH_FILE"@,
        file matches AuthFile::Read(text) ==> match parse_outcome(text@) {
            Ok(login) => is_outcome_of_login(outcome, login, url_var),
            Err(error) => outcome is Err && outcome->Err_0@ == "could not parse Codex auth file: "@
                + error,
        },
{
    reveal_strlit("https://chatgpt.com/backend-api/wham/usage");
}

/// A custom configuration is used as it is, with all of its parts, exactly if it
/// has an endpoint and a credential.
pub proof fn law_custom_files_are_used_as_they_are(
    file: SecretsFile,
    outcome: Result<UsageConfig, String>,
    k: int,
)
    requires
        call_ensures(load_custom_config, (file,), outcome),
    ensures
        file matches SecretsFile::Unreadable(error) ==> outcome is Err && outcome->Err_0@
            == "could not read usage secrets file: "@ + error@,
        file matches SecretsFile::Unparsable(error) ==> outcome is Err && outcome->Err_0@
            == "could not parse usage secrets file: "@ + error@,
        file matches SecretsFile::Read(secrets) ==> {
            let credential = secrets.bearer_token is Some || secrets.api_key is Some;
            &&& outcome is Ok <==> secrets.url@.len() > 0 && credential
            &&& secrets.url@.len() == 0 ==> outcome->Err_0@ == "usage endpoint URL is empty"@
            &&& secrets.url@.len() > 0 && !credential ==> outcome->Err_0@
                == "usage secrets must contain bearer_token or api_key"@
            &&& outcome is Ok ==> outcome->Ok_0 is Custom && same_secrets(
                outcome->Ok_0->Custom_0,
                secrets,
                k,
            )
        },
{
    if let SecretsFile::Read(secrets) = file {
        if outcome is Ok {
            let used = outcome->Ok_0->Custom_0;
            assert(used@.headers == secrets@.headers);
            assert(used@.headers.len() == used.headers@.len());
            if 0 <= k < used.headers@.len() {
                assert(used@.headers[k] == (used.headers@[k].0@, used.headers@[k].1@));
                assert(secrets@.headers[k] == (secrets.headers@[k].0@, secrets.headers@[k].1@));
            }
        }
    }
}

/// The two hold the same endpoint, credentials and number of headers, and the
/// same header number `k`.
pub open spec fn same_secrets(a: Secrets, b: Secrets, k: int) -> bool {
    &&& a.url@ == b.url@
    &&& a.bearer_token is Some <==> b.bearer_token is Some
    &&& a.bearer_token is Some ==> a.bearer_token->0@ == b.bearer_token->0@
    &&& a.api_key is Some <==> b.api_key is Some
    &&& a.api_key is Some ==> a.api_key->0@ == b.api_key->0@
    &&& a.headers@.len() == b.headers@.len()
    &&& 0 <= k < a.headers@.len() ==> a.headers@[k].0@ == b.headers@[k].0@ && a.headers@[k].1@
        == b.headers@[k].1@
}

/// A custom configuration sends one credential, the bearer token before the API
/// key, and then every header with its own value, in order, and nothing else.
pub proof fn law_every_header_is_sent(secrets: Secrets, request: UsageRequest, k: int)
    requires
        call_ensures(usage_request, (&UsageConfig::Custom(secrets),), request),
    ensures
        ({
            let first: int = if secrets.bearer_token is Some || secrets.api_key is Some {
                1
            } else {
                0
            };
            &&& request.url@ == secrets.url@
            &&& request.parts@.len() == first + secrets.headers@.len()
            &&& secrets.bearer_token is Some ==> request.parts@[0] is Bearer
                && request.parts@[0]->Bearer_0@ == secrets.bearer_token->0@
            &&& secrets.bearer_token is None && secrets.api_key is Some ==> request.parts@[0]
                is Header && request.parts@[0]->Header_0@ == "X-API-Key"@
                && request.parts@[0]->Header_1@ == secrets.api_key->0@
            &&& 0 <= k < secrets.headers@.len() ==> request.parts@[first + k] is Header
                && request.parts@[first + k]->Header_0@ == secrets.headers@[k].0@
                && request.parts@[first + k]->Header_1@ == secrets.headers@[k].1@
        }),
{
    let first: int = if secrets.bearer_token is Some || secrets.api_key is Some {
        1
    } else {
        0
    };
    let parts = request@.parts;
    assert(parts.len() == request.parts@.len());
    assert(secrets@.headers.len() == secrets.headers@.len());
    if first == 1 {
        assert(parts[0] == request.parts@[0]@);
    }
    if 0 <= k < secrets.headers@.len() {
        assert(parts[first + k] == request.parts@[first + k]@);
        assert(secrets@.headers[k] == (secrets.headers@[k].0@, secrets.headers@[k].1@));
    }
}

/// A Codex login sends its token to its endpoint, and the name of the server,
/// and nothing else.
pub proof fn law_codex_requests_carry_the_token(
    url: String,
    bearer_token: String,
    request: UsageRequest,
)
    requires
        call_ensures(usage_request, (&(UsageConfig::Codex { url, bearer_token }),), request),
    ensures
        request.url@ == url@,
        request.parts@.len() == 2,
        request.parts@[0] is Bearer,
        request.parts@[0]->Bearer_0@ == bearer_token@,
        request.parts@[1] is Header,
        request.parts@[1]->Header_0@ == "User-Agent"@,
        request.parts@[1]->Header_1@ == "usage-mcp-server"@,
{
    let parts = request@.parts;
    assert(parts.len() == request.parts@.len());
    assert(parts[0] == request.parts@[0]@);
    assert(parts[1] == request.parts@[1]@);
}

} // verus!
