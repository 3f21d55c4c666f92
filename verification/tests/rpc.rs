use usage_mcp_server::config::UsageConfig;
use usage_mcp_server::json::Json;
use usage_mcp_server::rpc::{
    continue_tool_call, handle_request, handle_tool_call, json_rpc_error, json_rpc_result,
    tool_failure, tool_success, tool_text, PendingCall, Progress, RpcRequest, Step,
};
use usage_mcp_server::server::{FetchEvent, Server};

fn server(bearer_token: &str) -> Server {
    Server {
        config: UsageConfig::Codex {
            url: "http://u".to_owned(),
            bearer_token: bearer_token.to_owned(),
        },
        cache_ttl_seconds: 30,
        cache: None,
    }
}

fn request(id: Option<Json>, method: &str, params: &str) -> RpcRequest {
    RpcRequest {
        id,
        method: method.to_owned(),
        params: Json::parse(params).ok(),
    }
}

fn reply_text(step: Step) -> String {
    match step {
        Step::Reply(reply) => reply.to_text(),
        other => panic!("no reply: {:?}", other),
    }
}

fn ask(method: &str, params: &str) -> String {
    let server = server("t");
    reply_text(handle_request(&server, request(Some(Json::integer(1)), method, params), 0))
}

#[test]
fn initialize_introduces_the_server() {
    assert_eq!(
        ask("initialize", ""),
        "{\"id\":1,\"jsonrpc\":\"2.0\",\"result\":{\"capabilities\":{\"tools\":{}},\
          \"protocolVersion\":\"2024-11-05\",\
          \"serverInfo\":{\"name\":\"usage-mcp-server\",\"version\":\"0.1.0\"}}}"
    );
}

#[test]
fn one_tool_is_listed() {
    assert_eq!(
        ask("tools/list", "{}"),
        "{\"id\":1,\"jsonrpc\":\"2.0\",\"result\":{\"tools\":[{\
          \"description\":\"Fetch weekly, monthly, and other usage/token statistics.\",\
          \"inputSchema\":{\"additionalProperties\":false,\"properties\":{},\"type\":\"object\"},\
          \"name\":\"get_usage\"}]}}"
    );
}

#[test]
fn pings_are_answered() {
    assert_eq!(ask("ping", ""), "{\"id\":1,\"jsonrpc\":\"2.0\",\"result\":{}}");
}

#[test]
fn unknown_methods_are_refused() {
    assert_eq!(
        ask("tools/other", ""),
        "{\"error\":{\"code\":-32601,\"message\":\"method not found\"},\"id\":1,\"jsonrpc\":\"2.0\"}"
    );
}

#[test]
fn only_unknown_methods_are_not_found() {
    for method in ["initialize", "tools/list", "tools/call", "ping"] {
        for params in ["", "{}", "{\"name\":\"other\"}"] {
            assert!(!ask(method, params).contains("-32601"), "{method}");
        }
    }
    for method in ["", "Ping", "tools", "initialize "] {
        assert!(ask(method, "").contains("\"code\":-32601"), "{method}");
    }
}

#[test]
fn different_integers_are_different_numbers() {
    for (a, b) in [(-32601, -32602), (1, -1), (0, i64::MIN), (i64::MAX, -1)] {
        assert_ne!(Json::integer(a), Json::integer(b));
    }
    assert_eq!(Json::integer(-32601), Json::parse("-32601").unwrap());
}

#[test]
fn tool_calls_need_a_name() {
    let refusal = "{\"error\":{\"code\":-32602,\"message\":\"tools/call requires a tool name\"},\
                    \"id\":1,\"jsonrpc\":\"2.0\"}";
    for params in ["", "{}", "[]", "{\"name\":3}"] {
        assert_eq!(ask("tools/call", params), refusal);
    }
}

#[test]
fn unknown_tools_are_answered_with_a_failure() {
    assert_eq!(
        ask("tools/call", "{\"name\":\"other\"}"),
        "{\"id\":1,\"jsonrpc\":\"2.0\",\"result\":{\"content\":[{\"text\":\"unknown tool: other\",\
          \"type\":\"text\"}],\"isError\":true}}"
    );
}

#[test]
fn notifications_get_no_reply() {
    let server = server("t");
    for method in ["initialize", "tools/call", "ping", "other"] {
        let step = handle_request(&server, request(None, method, ""), 0);
        assert_eq!(step, Step::NoReply);
    }
}

#[test]
fn usage_is_fetched_and_then_served_from_the_cache() {
    let mut server = server("t");
    let id = Json::text("call");
    let params = "{\"name\":\"get_usage\"}";
    let call = match handle_request(&server, request(Some(id.clone()), "tools/call", params), 0) {
        Step::Fetch(call, plan) => {
            assert_eq!(plan.url, "http://u");
            call
        }
        other => panic!("no request: {:?}", other),
    };
    assert_eq!(call, PendingCall { id: id.clone() });
    let call = match continue_tool_call(&mut server, call, FetchEvent::Status(200), 1) {
        Progress::ReadBody(call) => call,
        other => panic!("the body is not read: {:?}", other),
    };
    let data = Json::object1("plan", Json::text("pro"));
    let progress = continue_tool_call(&mut server, call, FetchEvent::Body(data), 2);
    let told = "{\"id\":\"call\",\"jsonrpc\":\"2.0\",\"result\":{\"content\":[{\"text\":\
                 \"{\\\"cached\\\":false,\\\"data\\\":{\\\"plan\\\":\\\"pro\\\"},\\\"summary\\\":{}}\",\
                 \"type\":\"text\"}]}}";
    match progress {
        Progress::Reply(reply) => assert_eq!(reply.to_text(), told),
        other => panic!("no reply: {:?}", other),
    }
    let again = handle_request(&server, request(Some(id), "tools/call", params), 3);
    assert_eq!(reply_text(again), told.replace("false", "true"));
}

#[test]
fn failed_requests_are_answered_with_a_failure() {
    let mut server = server("t");
    let call = PendingCall { id: Json::integer(4) };
    let progress = continue_tool_call(&mut server, call, FetchEvent::Status(500), 1);
    assert_eq!(
        progress,
        Progress::Reply(json_rpc_result(
            Json::integer(4),
            tool_failure("usage endpoint returned HTTP 500 Internal Server Error")
        ))
    );
    assert!(server.cache.is_none());
}

#[test]
fn replies_do_not_hold_the_token() {
    for method in ["initialize", "tools/list", "tools/call", "ping", "other"] {
        let a = handle_request(
            &server("secret-one"),
            request(Some(Json::Null), method, "{\"name\":\"x\"}"),
            0,
        );
        let b = handle_request(
            &server("secret-two"),
            request(Some(Json::Null), method, "{\"name\":\"x\"}"),
            0,
        );
        assert_eq!(a, b);
    }
}

#[test]
fn results_are_framed_as_text() {
    assert_eq!(tool_text("a").to_text(), "{\"content\":[{\"text\":\"a\",\"type\":\"text\"}]}");
    assert_eq!(tool_success(&Json::Bool(true)), tool_text("true"));
    assert_eq!(
        json_rpc_error(Json::Null, -32700, "odd").to_text(),
        "{\"error\":{\"code\":-32700,\"message\":\"odd\"},\"id\":null,\"jsonrpc\":\"2.0\"}"
    );
    let step = handle_tool_call(&server("t"), Json::integer(2), None, 0);
    assert!(matches!(step, Step::Reply(_)));
}
