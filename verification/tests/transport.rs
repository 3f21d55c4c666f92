use usage_mcp_server::config::{EnvValue, UsageConfig};
use usage_mcp_server::json::Json;
use usage_mcp_server::rpc::{handle_request, RpcRequest, Step};
use usage_mcp_server::server::{FetchEvent, Server};
use usage_mcp_server::transport::{
    answer_line, handle_line, health_report, healthcheck_url, http_response, line_of, listen_address,
    response_line, run_healthcheck, state_unavailable, transport_from_environment_and_args,
    transport_kind, wants_healthcheck, HealthStep, HttpResponse, TransportKind,
};

fn args(words: &[&str]) -> Vec<String> {
    words.iter().map(|word| word.to_string()).collect()
}

fn transport(var: Option<&str>, words: &[&str]) -> String {
    transport_from_environment_and_args(var.map(str::to_owned), &args(words))
}

fn server() -> Server {
    Server {
        config: UsageConfig::Codex {
            url: "http://u".to_owned(),
            bearer_token: "t".to_owned(),
        },
        cache_ttl_seconds: 30,
        cache: None,
    }
}

fn ping() -> RpcRequest {
    RpcRequest {
        id: Some(Json::integer(1)),
        method: "ping".to_owned(),
        params: None,
    }
}

#[test]
fn arguments_override_the_environment() {
    assert_eq!(transport(None, &[]), "stdio");
    assert_eq!(transport(Some("http"), &[]), "http");
    assert_eq!(transport(Some("http"), &["--verbose"]), "http");
    assert_eq!(transport(Some("http"), &["x", "--transport", "stdio", "y"]), "stdio");
    assert_eq!(transport(None, &["--transport", "a", "--transport", "b"]), "b");
    assert_eq!(transport(None, &["--transport"]), "stdio");
    assert_eq!(transport(None, &["--transport", "a", "--transport"]), "a");
    assert_eq!(transport(None, &["--transport", "--transport", "b"]), "--transport");
}

#[test]
fn transports_have_names() {
    assert_eq!(transport_kind("stdio"), Ok(TransportKind::Stdio));
    assert_eq!(transport_kind("streamable-http"), Ok(TransportKind::Http));
    assert_eq!(transport_kind("http"), Ok(TransportKind::Http));
    assert_eq!(
        transport_kind("sse"),
        Err("unsupported MCP transport: sse".to_owned())
    );
}

#[test]
fn health_checks_are_asked_for_by_an_argument() {
    assert!(wants_healthcheck(&args(&["a", "--healthcheck"])));
    assert!(!wants_healthcheck(&args(&["a", "healthcheck"])));
    assert!(!wants_healthcheck(&args(&[])));
}

#[test]
fn addresses_come_from_the_environment() {
    let port = EnvValue::Holds("8001".to_owned());
    let odd = EnvValue::Holds("x".to_owned());
    let refused = Err("PORT must be an unsigned 16-bit integer".to_owned());
    assert_eq!(listen_address(None, &EnvValue::Absent), Ok("127.0.0.1:8000".to_owned()));
    assert_eq!(
        listen_address(Some("0.0.0.0".to_owned()), &port),
        Ok("0.0.0.0:8001".to_owned())
    );
    assert_eq!(listen_address(None, &odd), refused);
    assert_eq!(
        healthcheck_url(&port, None),
        Ok("http://127.0.0.1:8001/mcp/healthz".to_owned())
    );
    assert_eq!(
        healthcheck_url(&EnvValue::Absent, Some("http://h".to_owned())),
        Ok("http://h".to_owned())
    );
    assert_eq!(healthcheck_url(&odd, Some("http://h".to_owned())), refused);
}

#[test]
fn health_checks_read_the_report() {
    let unhealthy = |text: &str| HealthStep::Unhealthy(text.to_owned());
    assert_eq!(
        run_healthcheck(FetchEvent::SendFailed("refused".to_owned())),
        unhealthy("healthcheck request failed: refused")
    );
    assert_eq!(
        run_healthcheck(FetchEvent::Status(503)),
        unhealthy("healthcheck returned HTTP 503 Service Unavailable")
    );
    assert_eq!(run_healthcheck(FetchEvent::Status(200)), HealthStep::ReadBody);
    assert_eq!(
        run_healthcheck(FetchEvent::BodyFailed("odd".to_owned())),
        unhealthy("healthcheck returned invalid JSON: odd")
    );
    for report in ["{}", "{\"ok\":false}", "{\"ok\":\"true\"}", "true"] {
        assert_eq!(
            run_healthcheck(FetchEvent::Body(Json::parse(report).unwrap())),
            unhealthy("healthcheck report is not ok")
        );
    }
}

#[test]
fn the_own_health_report_is_healthy() {
    assert_eq!(
        health_report().to_text(),
        "{\"native\":true,\"ok\":true,\"server\":\"usage-mcp-server\",\"status\":\"ok\",\"version\":\"0.1.0\"}"
    );
    assert_eq!(run_healthcheck(FetchEvent::Body(health_report())), HealthStep::Healthy);
}

#[test]
fn lines_are_answered_like_requests() {
    let server = server();
    assert_eq!(
        handle_line(&server, Ok(ping()), 0),
        handle_request(&server, ping(), 0)
    );
    match handle_line(&server, Err("expected value".to_owned()), 0) {
        Step::Reply(reply) => assert_eq!(
            reply.to_text(),
            "{\"error\":{\"code\":-32700,\"message\":\"expected value\"},\"id\":null,\"jsonrpc\":\"2.0\"}"
        ),
        other => panic!("no reply: {:?}", other),
    }
}

#[test]
fn blank_lines_get_no_reply() {
    let server = server();
    let odd = || Err("expected value".to_owned());
    for line in ["", " ", "\t\r", "\u{3000}\u{a0}"] {
        assert_eq!(answer_line(&server, line, odd(), 0), Step::NoReply);
    }
    for line in ["x", " { ", "\u{200b}"] {
        assert_eq!(answer_line(&server, line, odd(), 0), handle_line(&server, odd(), 0));
    }
    assert_eq!(
        answer_line(&server, "{\"id\":1,\"method\":\"ping\"}", Ok(ping()), 0),
        handle_request(&server, ping(), 0)
    );
    let notification = RpcRequest { id: None, ..ping() };
    assert_eq!(
        answer_line(&server, "{\"method\":\"ping\"}", Ok(notification), 0),
        Step::NoReply
    );
}

#[test]
fn only_unreadable_lines_report_a_parse_error() {
    let server = server();
    let code = |step: Step| match step {
        Step::Reply(reply) => reply.get("error").and_then(|error| error.get("code")).cloned(),
        _ => None,
    };
    let odd = || Err("expected value".to_owned());
    assert_eq!(code(answer_line(&server, "x", odd(), 0)), Some(Json::integer(-32700)));
    assert_eq!(code(answer_line(&server, " ", odd(), 0)), None);
    assert_eq!(code(answer_line(&server, "x", Ok(ping()), 0)), None);
    let other = RpcRequest { method: "other".to_owned(), ..ping() };
    assert_eq!(code(answer_line(&server, "x", Ok(other), 0)), Some(Json::integer(-32601)));
}

#[test]
fn replies_are_written_as_lines() {
    let reply = Json::object1("text", Json::text("a\nb"));
    assert_eq!(response_line(&reply), "{\"text\":\"a\\nb\"}\n");
    assert_eq!(line_of("a"), "a\n");
}

#[test]
fn replies_are_sent_over_http() {
    assert_eq!(
        http_response(Some(Json::Bool(true))),
        HttpResponse { status: 200, body: Some("true".to_owned()) }
    );
    assert_eq!(http_response(None), HttpResponse { status: 202, body: None });
    assert_eq!(
        http_response(Some(Json::Bool(true))).content_type(),
        Some("application/json")
    );
    assert_eq!(http_response(None).content_type(), None);
    assert_eq!(
        state_unavailable().to_text(),
        "{\"error\":{\"code\":-32603,\"message\":\"MCP server state is unavailable\"},\"id\":null,\"jsonrpc\":\"2.0\"}"
    );
}
