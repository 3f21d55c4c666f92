//! What holds of every exchange with the server.
#![allow(unused_imports)]
use crate::codec::integer_number;
use crate::config::ConfigView;
use crate::json::{member_of, JsonView};
use crate::rpc::{
    call_progress, error_code, failure_result, initialize_json, known_method,
    lemma_error_members, lemma_method_names_differ, lemma_result_members, request_error,
    request_step, rpc_error, rpc_result, step_reports, success_result, tool_name, tools_json,
    ProgressView, RpcRequestView, StepView, INVALID_PARAMS, METHOD_NOT_FOUND,
};
use crate::server::{
    server_after, usage_json, ExchangeView, FetchEventView, ServerView, NANOSECONDS,
};
use crate::summary::{summary_json, summary_of};
use vstd::prelude::*;

verus! {

/// `reply` is a JSON-RPC reply to the request `id`: it carries the id and
/// either a result or an error.
pub open spec fn replies_to(reply: JsonView, id: JsonView) -> bool {
    &&& reply.get("jsonrpc"@) == Some(JsonView::Text("2.0"@))
    &&& reply.get("id"@) == Some(id)
    &&& (reply.get("result"@) is Some) != (reply.get("error"@) is Some)
}

/// The request is a call of the usage tool.
pub open spec fn calls_get_usage(request: RpcRequestView) -> bool {
    &&& request.id is Some
    &&& request.method == "tools/call"@
    &&& tool_name(request.params) == Some("get_usage"@)
}

/// A request is left without a reply exactly if it has no id.
pub proof fn law_only_notifications_get_no_reply(
    server: ServerView,
    request: RpcRequestView,
    now: int,
)
    ensures
        request_step(server, request, now) is NoReply <==> request.id is None,
{
}

/// Every reply is a JSON-RPC reply to the request, whether it comes at once or
/// after usage was fetched.
pub proof fn law_replies_answer_their_request(
    server: ServerView,
    request: RpcRequestView,
    now: int,
    event: FetchEventView,
)
    requires
        request.id is Some,
    ensures
        match request_step(server, request, now) {
            StepView::NoReply => false,
            StepView::Reply(reply) => replies_to(reply, request.id->0),
            StepView::Fetch(id, _) => id == request.id->0 && match call_progress(id, event) {
                ProgressView::ReadBody(same) => same == id,
                ProgressView::Reply(reply) => replies_to(reply, id),
            },
        },
{
    let id = request.id->0;
    match request_step(server, request, now) {
        StepView::Reply(reply) => {
            if reply == rpc_error(id, METHOD_NOT_FOUND, "method not found"@) {
                lemma_error_members(id, METHOD_NOT_FOUND, "method not found"@);
            } else if reply == rpc_error(
                id,
                INVALID_PARAMS,
                "tools/call requires a tool name"@,
            ) {
                lemma_error_members(id, INVALID_PARAMS, "tools/call requires a tool name"@);
            } else {
                lemma_result_members(id, reply->Object_0[2].1);
            }
        },
        StepView::Fetch(_, _) => {
            match call_progress(id, event) {
                ProgressView::Reply(reply) => {
                    lemma_result_members(id, reply->Object_0[2].1);
                },
                _ => {},
            }
        },
        _ => {},
    }
}

/// `initialize`, `tools/list` and `ping` are answered whatever the parameters,
/// the time and the state of the server are.
pub proof fn law_simple_methods_are_answered(
    server: ServerView,
    request: RpcRequestView,
    now: int,
)
    requires
        request.id is Some,
    ensures
        request.method == "initialize"@ ==> request_step(server, request, now) == StepView::Reply(
            rpc_result(request.id->0, initialize_json()),
        ),
        request.method == "tools/list"@ ==> request_step(server, request, now) == StepView::Reply(
            rpc_result(request.id->0, tools_json()),
        ),
        request.method == "ping"@ ==> request_step(server, request, now) == StepView::Reply(
            rpc_result(request.id->0, JsonView::Object(Seq::empty())),
        ),
{
    lemma_method_names_differ();
}

/// A method that the server does not know is refused.
pub proof fn law_unknown_methods_are_refused(
    server: ServerView,
    request: RpcRequestView,
    now: int,
)
    requires
        request.id is Some,
        !known_method(request.method),
    ensures
        request_step(server, request, now) == StepView::Reply(
            rpc_error(request.id->0, METHOD_NOT_FOUND, "method not found"@),
        ),
{
}

/// A reply reports the error that the request is refused with, and none where
/// the request is not refused, whether it comes at once or after usage was
/// fetched. As different integers are different numbers, which
/// [`handle_request`](crate::rpc::handle_request) has from the numbers that it
/// makes, the code of an unknown method is reported of no other request.
pub proof fn law_error_codes_tell_what_is_wrong(
    server: ServerView,
    request: RpcRequestView,
    now: int,
    event: FetchEventView,
)
    requires
        request.id is Some,
    ensures
        match request_step(server, request, now) {
            StepView::NoReply => false,
            StepView::Reply(reply) => error_code(reply) == match request_error(request) {
                Some(code) => Some(JsonView::Num(integer_number(code))),
                None => None,
            },
            StepView::Fetch(id, _) => request_error(request) is None && (call_progress(
                id,
                event,
            ) matches ProgressView::Reply(reply) ==> error_code(reply) is None),
        },
        integer_number(INVALID_PARAMS) != integer_number(METHOD_NOT_FOUND) ==> (step_reports(
            request_step(server, request, now),
            METHOD_NOT_FOUND,
        ) <==> !known_method(request.method)),
{
    lemma_method_names_differ();
    let id = request.id->0;
    lemma_error_members(id, METHOD_NOT_FOUND, "method not found"@);
    lemma_error_members(id, INVALID_PARAMS, "tools/call requires a tool name"@);
    match request_step(server, request, now) {
        StepView::Reply(reply) => {
            if request_error(request) is None {
                lemma_result_members(id, reply->Object_0[2].1);
            }
        },
        StepView::Fetch(_, _) => {
            match call_progress(id, event) {
                ProgressView::Reply(reply) => {
                    lemma_result_members(id, reply->Object_0[2].1);
                },
                _ => {},
            }
        },
        _ => {},
    }
}

/// A tool call that names no tool is refused, and one that names another tool
/// than the usage tool is answered with a failure.
pub proof fn law_calls_of_no_or_unknown_tools_are_refused(
    server: ServerView,
    request: RpcRequestView,
    now: int,
)
    requires
        request.id is Some,
        request.method == "tools/call"@,
        tool_name(request.params) != Some("get_usage"@),
    ensures
        request_step(server, request, now) == StepView::Reply(
            match tool_name(request.params) {
                None => rpc_error(
                    request.id->0,
                    INVALID_PARAMS,
                    "tools/call requires a tool name"@,
                ),
                Some(name) => rpc_result(
                    request.id->0,
                    failure_result("unknown tool: "@ + name),
                ),
            },
        ),
{
    lemma_method_names_differ();
}

/// What a request leads to depends on the configuration only through the
/// request for usage that is sent: no reply is made from a credential. What
/// follows once usage was asked for depends on no configuration at all.
pub proof fn law_credentials_stay_out_of_replies(
    server: ServerView,
    config: ConfigView,
    request: RpcRequestView,
    now: int,
)
    ensures
        match (
            request_step(server, request, now),
            request_step(ServerView { config, ..server }, request, now),
        ) {
            (StepView::Fetch(id, _), StepView::Fetch(other, _)) => id == other,
            (a, b) => a == b,
        },
{
}

/// Once usage was received, calls of the usage tool return it from the cache
/// until the time to live has passed.
pub proof fn law_usage_is_served_from_the_cache(
    server: ServerView,
    data: JsonView,
    then: int,
    request: RpcRequestView,
    now: int,
)
    requires
        calls_get_usage(request),
        then <= now,
        now - then < server.cache_ttl_seconds * NANOSECONDS,
    ensures
        request_step(
            server_after(server, FetchEventView::Body(data), then),
            request,
            now,
        ) == StepView::Reply(
            rpc_result(request.id->0, success_result(usage_json(data, true))),
        ),
{
    lemma_method_names_differ();
}

/// The server, and how the pending call `id` stands, after events that happen
/// one after the other, each at its time. No event follows one that brings the
/// reply.
pub open spec fn call_after_events(
    server: ServerView,
    id: JsonView,
    events: Seq<FetchEventView>,
    times: Seq<int>,
) -> (ServerView, ProgressView)
    decreases events.len(),
{
    if events.len() == 0 {
        (server, ProgressView::ReadBody(id))
    } else {
        let next = server_after(server, events[0], times[0]);
        match call_progress(id, events[0]) {
            ProgressView::ReadBody(same) => call_after_events(
                next,
                same,
                events.drop_first(),
                times.drop_first(),
            ),
            reply => (next, reply),
        }
    }
}

/// A pending call is answered once the exchange with the endpoint is over. If
/// the endpoint answers with success and the body reads as JSON, the reply holds
/// the report, which is cached; otherwise it is a failure that says what is
/// wrong, and the server is as it was.
pub proof fn law_exchanges_are_answered(
    server: ServerView,
    id: JsonView,
    exchange: ExchangeView,
    times: Seq<int>,
)
    requires
        times.len() == exchange.events().len(),
    ensures
        call_after_events(server, id, exchange.events(), times) == match exchange.report() {
            Some(data) => (
                server.having_received(data, times[1]),
                ProgressView::Reply(rpc_result(id, success_result(usage_json(data, false)))),
            ),
            None => (
                server,
                ProgressView::Reply(rpc_result(id, failure_result(exchange.complaint()))),
            ),
        },
{
    reveal_with_fuel(call_after_events, 3);
    let events = exchange.events();
    if exchange is Answered {
        assert(events.drop_first()[0] == events[1]);
    }
}

/// What the usage tool returns holds the complete report, its summary and
/// whether it comes from the cache.
pub proof fn law_results_hold_the_complete_report(data: JsonView, cached: bool)
    ensures
        usage_json(data, cached).get("data"@) == Some(data),
        usage_json(data, cached).get("summary"@) == Some(summary_json(summary_of(data))),
        usage_json(data, cached).get("cached"@) == Some(JsonView::Bool(cached)),
{
    reveal_strlit("cached");
    reveal_strlit("data");
    reveal_strlit("summary");
    reveal_with_fuel(member_of, 4);
    let members = usage_json(data, cached)->Object_0;
    assert(members.drop_first()[0] == members[1]);
    assert(members.drop_first().drop_first()[0] == members[2]);
    assert("cached"@.len() == 6 && "data"@.len() == 4 && "summary"@.len() == 7);
}

} // verus!
