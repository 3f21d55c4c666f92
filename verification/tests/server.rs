use usage_mcp_server::config::{EnvValue, UsageConfig};
use usage_mcp_server::http::{is_success, refusal, refusal_of};
use usage_mcp_server::json::Json;
use usage_mcp_server::server::{
    usage_result, CallStep, FetchEvent, FetchStep, Server, NANOSECONDS,
};

fn config() -> UsageConfig {
    UsageConfig::Codex {
        url: "http://u".to_owned(),
        bearer_token: "secret-token".to_owned(),
    }
}

fn server(cache_ttl_seconds: u64) -> Server {
    Server {
        config: config(),
        cache_ttl_seconds,
        cache: None,
    }
}

fn report() -> Json {
    Json::object1("tokens_used", Json::integer(12))
}

fn message_of(outcome: Result<(Server, u64), String>) -> String {
    match outcome {
        Ok(_) => panic!("a server"),
        Err(error) => error,
    }
}

#[test]
fn settings_come_from_the_environment() {
    let (server, timeout) =
        Server::from_environment(config(), &EnvValue::Absent, &EnvValue::Absent)
            .unwrap_or_else(|error| panic!("{}", error));
    assert_eq!(server.cache_ttl_seconds, 30);
    assert_eq!(timeout, 10);
    assert!(server.cache.is_none());
    let five = EnvValue::Holds("5".to_owned());
    let zero = EnvValue::Holds("0".to_owned());
    let (server, timeout) = Server::from_environment(config(), &five, &zero)
        .unwrap_or_else(|error| panic!("{}", error));
    assert_eq!(server.cache_ttl_seconds, 0);
    assert_eq!(timeout, 5);
    let odd = EnvValue::Holds("x".to_owned());
    assert_eq!(
        message_of(Server::from_environment(config(), &odd, &EnvValue::NotUnicode)),
        "USAGE_REQUEST_TIMEOUT_SECONDS must be an unsigned integer"
    );
    assert_eq!(
        message_of(Server::from_environment(config(), &five, &EnvValue::NotUnicode)),
        "USAGE_CACHE_TTL_SECONDS is not valid UTF-8"
    );
}

#[test]
fn unknown_tools_fail() {
    assert_eq!(
        server(30).handle_call("other", 0),
        CallStep::Fail("unknown tool: other".to_owned())
    );
}

#[test]
fn received_reports_are_cached_for_the_time_to_live() {
    let mut server = server(30);
    assert!(matches!(server.handle_call("get_usage", 5), CallStep::Fetch(_)));
    assert_eq!(
        server.fetch_usage(FetchEvent::Body(report()), 7),
        FetchStep::Received(report())
    );
    let cached = CallStep::Done(usage_result(report(), true));
    assert_eq!(server.handle_call("get_usage", 7), cached);
    assert_eq!(server.handle_call("get_usage", 30 * NANOSECONDS + 6), cached);
    assert_eq!(server.handle_call("get_usage", 3), cached);
    assert!(matches!(
        server.handle_call("get_usage", 30 * NANOSECONDS + 7),
        CallStep::Fetch(_)
    ));
}

#[test]
fn without_a_time_to_live_every_call_fetches() {
    let mut server = server(0);
    server.fetch_usage(FetchEvent::Body(report()), 7);
    assert!(matches!(server.handle_call("get_usage", 7), CallStep::Fetch(_)));
    assert!(matches!(server.handle_call("get_usage", 3), CallStep::Fetch(_)));
}

#[test]
fn failures_are_told_and_leave_the_cache() {
    let mut server = server(30);
    server.fetch_usage(FetchEvent::Body(report()), 0);
    assert_eq!(
        server.fetch_usage(FetchEvent::SendFailed("timeout".to_owned()), 1),
        FetchStep::Fail("usage endpoint request failed: timeout".to_owned())
    );
    assert_eq!(
        server.fetch_usage(FetchEvent::Status(404), 1),
        FetchStep::Fail("usage endpoint returned HTTP 404 Not Found".to_owned())
    );
    assert_eq!(
        server.fetch_usage(FetchEvent::BodyFailed("odd".to_owned()), 1),
        FetchStep::Fail("usage endpoint returned invalid JSON: odd".to_owned())
    );
    assert_eq!(server.fetch_usage(FetchEvent::Status(204), 1), FetchStep::ReadBody);
    assert_eq!(
        server.handle_call("get_usage", 2),
        CallStep::Done(usage_result(report(), true))
    );
}

#[test]
fn exchanges_deliver_a_report_or_change_nothing() {
    let body = || FetchEvent::Body(report());
    let odd = || FetchEvent::BodyFailed("odd".to_owned());
    let exchanges = [
        (vec![FetchEvent::SendFailed("timeout".to_owned())], false),
        (vec![FetchEvent::Status(200), body()], true),
        (vec![FetchEvent::Status(200), odd()], false),
        (vec![FetchEvent::Status(500), body()], false),
        (vec![FetchEvent::Status(302), odd()], false),
    ];
    for (events, delivers) in exchanges {
        let mut server = server(30);
        let mut last = FetchStep::ReadBody;
        for (event, now) in events.into_iter().zip(1..) {
            last = server.fetch_usage(event, now);
            if last != FetchStep::ReadBody {
                break;
            }
        }
        if delivers {
            assert_eq!(last, FetchStep::Received(report()));
            let entry = server.cache.unwrap();
            assert!(entry.fetched_at == 2 && entry.data == report());
        } else {
            assert!(matches!(last, FetchStep::Fail(_)));
            assert!(server.cache.is_none());
        }
    }
}

#[test]
fn results_hold_the_report_and_its_summary() {
    let result = usage_result(report(), false);
    assert_eq!(
        result.to_text(),
        "{\"cached\":false,\"data\":{\"tokens_used\":12},\"summary\":{\"other\":\
          [{\"metric\":\"tokens_used\",\"path\":\"tokens_used\",\"value\":12}]}}"
    );
    assert_eq!(result.get("data"), Some(&report()));
}

#[test]
fn statuses_between_200_and_299_are_successes() {
    for code in [200, 204, 299] {
        assert!(is_success(code));
    }
    for code in [100, 199, 300, 404, 500, 999] {
        assert!(!is_success(code));
    }
    for code in 100..1000 {
        let status = reqwest::StatusCode::from_u16(code).unwrap();
        assert_eq!(is_success(code), status.is_success());
        assert_eq!(
            refusal_of("usage endpoint", code),
            format!("usage endpoint returned HTTP {status}")
        );
    }
    assert_eq!(refusal("a", "b"), "a returned HTTP b");
    assert_eq!(
        refusal_of("healthcheck", 999),
        "healthcheck returned HTTP 999 <unknown status code>"
    );
}
