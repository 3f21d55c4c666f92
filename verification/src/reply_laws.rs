//! What every reply holds, member by member.
#![allow(unused_imports)]
use crate::codec::{integer_number, json_text};
use crate::config::request_for;
use crate::http::status_reason;
use crate::json::{member_of, Json, JsonView};
use crate::rpc::{
    call_progress, continue_tool_call, failure_result, handle_request, handle_tool_call, initialize_json,
    initialize_result, json_rpc_error, json_rpc_result, lemma_error_members,
    lemma_method_names_differ, lemma_result_members, rpc_error, rpc_result, success_result,
    text_content, text_result, tool_failure, tool_json, tool_success, tool_text, tools_json,
    tools_result, PendingCall, Progress, ProgressView, RpcRequest, Step, StepView,
};
use crate::server::{usage_json, FetchEvent, FetchEventView, Server, ServerView};
use crate::server_laws::{is_usage_result, law_results_hold_the_whole_report};
use crate::text::decimal;
use vstd::prelude::*;

verus! {

/// `json` is an object with `n` members.
pub open spec fn has_members(json: JsonView, n: nat) -> bool {
    json is Object && json->Object_0.len() == n
}

/// `reply` returns `result` for the request `id`, and nothing else.
pub open spec fn gives(reply: JsonView, id: JsonView, result: JsonView) -> bool {
    &&& has_members(reply, 3)
    &&& reply.get("jsonrpc"@) == Some(JsonView::Text("2.0"@))
    &&& reply.get("id"@) == Some(id)
    &&& reply.get("result"@) == Some(result)
}

/// `reply` refuses the request `id` with a code and a message, and holds nothing
/// else.
pub open spec fn refuses(reply: JsonView, id: JsonView, code: i64, message: Seq<char>) -> bool {
    &&& has_members(reply, 3)
    &&& reply.get("jsonrpc"@) == Some(JsonView::Text("2.0"@))
    &&& reply.get("id"@) == Some(id)
    &&& reply.get("error"@) is Some
    &&& has_members(reply.get("error"@)->0, 2)
    &&& reply.get("error"@)->0.get("code"@) == Some(JsonView::Num(integer_number(code)))
    &&& reply.get("error"@)->0.get("message"@) == Some(JsonView::Text(message))
}

/// The content of `result` is exactly one item, a text, and the text is all of
/// `text`.
pub open spec fn carries(result: JsonView, text: Seq<char>) -> bool {
    &&& result.get("content"@) is Some
    &&& result.get("content"@)->0 is Array
    &&& result.get("content"@)->0->Array_0.len() == 1
    &&& has_members(result.get("content"@)->0->Array_0[0], 2)
    &&& result.get("content"@)->0->Array_0[0].get("type"@) == Some(JsonView::Text("text"@))
    &&& result.get("content"@)->0->Array_0[0].get("text"@) == Some(JsonView::Text(text))
}

/// `result` is the result of a tool call that returned all of `text`.
pub open spec fn returned(result: JsonView, text: Seq<char>) -> bool {
    has_members(result, 1) && carries(result, text)
}

/// `result` is the result of a tool call that failed, and says all of `error`.
pub open spec fn failed(result: JsonView, error: Seq<char>) -> bool {
    &&& has_members(result, 2)
    &&& carries(result, error)
    &&& result.get("isError"@) == Some(JsonView::Bool(true))
}

proof fn lemma_gives(id: JsonView, result: JsonView)
    ensures
        gives(rpc_result(id, result), id, result),
{
    lemma_result_members(id, result);
}

/// A refusal holds its code and the whole of its message.
pub proof fn law_refusals_hold_code_and_message(id: JsonView, code: i64, message: Seq<char>)
    ensures
        refuses(rpc_error(id, code, message), id, code, message),
{
    lemma_error_members(id, code, message);
    reveal_strlit("code");
    reveal_strlit("message");
    reveal_with_fuel(member_of, 3);
    let error = rpc_error(id, code, message).get("error"@)->0;
    assert(rpc_error(id, code, message)->Object_0[0].0 == "error"@);
    assert(error == rpc_error(id, code, message)->Object_0[0].1);
    let members = error->Object_0;
    assert(members.drop_first()[0] == members[1]);
    assert("code"@.len() == 4 && "message"@.len() == 7);
}

/// The result of a tool call carries its text whole, of whatever length, and is
/// marked as an error exactly if the call failed.
pub proof fn law_tool_results_carry_their_text(text: Seq<char>)
    ensures
        returned(text_result(text), text),
        failed(failure_result(text), text),
        text_result(text).get("isError"@) is None,
{
    reveal_strlit("content");
    reveal_strlit("isError");
    reveal_strlit("text");
    reveal_strlit("type");
    reveal_with_fuel(member_of, 3);
    assert("content"@[0] == 'c' && "isError"@[0] == 'i');
    assert("text"@[1] == 'e' && "type"@[1] == 'y');
    let item = text_content(text)->Array_0[0]->Object_0;
    assert(item.drop_first()[0] == item[1]);
    let members = failure_result(text)->Object_0;
    assert(members.drop_first()[0] == members[1]);
}

/// What the makers of results and replies make holds what it is made from.
pub proof fn law_replies_hold_what_they_are_made_from(
    id: Json,
    result: Json,
    code: i64,
    message: &str,
    value: Json,
    good: Json,
    bad: Json,
    plain: Json,
    success: Json,
    failure: Json,
)
    requires
        call_ensures(json_rpc_result, (id, result), good),
        call_ensures(json_rpc_error, (id, code, message), bad),
        call_ensures(tool_text, (message,), plain),
        call_ensures(tool_success, (&value,), success),
        call_ensures(tool_failure, (message,), failure),
    ensures
        gives(good@, id@, result@),
        refuses(bad@, id@, code, message@),
        returned(plain@, message@),
        returned(success@, json_text(value@)),
        failed(failure@, message@),
{
    lemma_gives(id@, result@);
    law_refusals_hold_code_and_message(id@, code, message@);
    law_tool_results_carry_their_text(message@);
    law_tool_results_carry_their_text(json_text(value@));
}

/// `result` introduces the server: the version of the protocol, tools as its only
/// capability, and its name and version.
pub open spec fn introduces_the_server(result: JsonView) -> bool {
    &&& has_members(result, 3)
    &&& result.get("protocolVersion"@) == Some(JsonView::Text("2024-11-05"@))
    &&& result.get("capabilities"@) is Some
    &&& has_members(result.get("capabilities"@)->0, 1)
    &&& result.get("capabilities"@)->0.get("tools"@) is Some
    &&& has_members(result.get("capabilities"@)->0.get("tools"@)->0, 0)
    &&& result.get("serverInfo"@) is Some
    &&& has_members(result.get("serverInfo"@)->0, 2)
    &&& result.get("serverInfo"@)->0.get("name"@) == Some(JsonView::Text("usage-mcp-server"@))
    &&& result.get("serverInfo"@)->0.get("version"@) == Some(JsonView::Text("0.1.0"@))
}

/// `result` lists one tool, the usage tool, which takes no parameters.
pub open spec fn lists_the_tool(result: JsonView) -> bool {
    &&& has_members(result, 1)
    &&& result.get("tools"@) is Some
    &&& result.get("tools"@)->0 is Array
    &&& result.get("tools"@)->0->Array_0.len() == 1
    &&& describes_the_tool(result.get("tools"@)->0->Array_0[0])
}

/// `tool` describes the usage tool.
pub open spec fn describes_the_tool(tool: JsonView) -> bool {
    &&& has_members(tool, 3)
    &&& tool.get("name"@) == Some(JsonView::Text("get_usage"@))
    &&& tool.get("description"@) == Some(
        JsonView::Text("Fetch weekly, monthly, and other usage/token statistics."@),
    )
    &&& tool.get("inputSchema"@) is Some
    &&& has_members(tool.get("inputSchema"@)->0, 3)
    &&& tool.get("inputSchema"@)->0.get("type"@) == Some(JsonView::Text("object"@))
    &&& tool.get("inputSchema"@)->0.get("properties"@) is Some
    &&& has_members(tool.get("inputSchema"@)->0.get("properties"@)->0, 0)
    &&& tool.get("inputSchema"@)->0.get("additionalProperties"@) == Some(JsonView::Bool(false))
}

proof fn lemma_introduction()
    ensures
        introduces_the_server(initialize_json()),
{
    reveal_strlit("capabilities");
    reveal_strlit("protocolVersion");
    reveal_strlit("serverInfo");
    reveal_strlit("tools");
    reveal_strlit("name");
    reveal_strlit("version");
    reveal_with_fuel(member_of, 4);
    assert("capabilities"@[0] == 'c' && "protocolVersion"@[0] == 'p' && "serverInfo"@[0] == 's');
    assert("name"@[0] == 'n' && "version"@[0] == 'v');
    let members = initialize_json()->Object_0;
    assert(members.drop_first()[0] == members[1]);
    assert(members.drop_first().drop_first()[0] == members[2]);
    let info = members[2].1->Object_0;
    assert(info.drop_first()[0] == info[1]);
}

proof fn lemma_tool()
    ensures
        lists_the_tool(tools_json()),
{
    reveal_strlit("tools");
    reveal_strlit("name");
    reveal_strlit("description");
    reveal_strlit("inputSchema");
    reveal_strlit("type");
    reveal_strlit("properties");
    reveal_strlit("additionalProperties");
    reveal_with_fuel(member_of, 4);
    assert("description"@[0] == 'd' && "inputSchema"@[0] == 'i' && "name"@[0] == 'n');
    assert("additionalProperties"@[0] == 'a' && "properties"@[0] == 'p' && "type"@[0] == 't');
    let tool = tool_json()->Object_0;
    assert(tool.drop_first()[0] == tool[1]);
    assert(tool.drop_first().drop_first()[0] == tool[2]);
    let schema = tool[1].1->Object_0;
    assert(schema.drop_first()[0] == schema[1]);
    assert(schema.drop_first().drop_first()[0] == schema[2]);
    assert(tools_json()->Object_0[0].1->Array_0[0] == tool_json());
}

/// The server introduces itself and lists its tool.
pub proof fn law_introductions(initialized: Json, listed: Json)
    requires
        call_ensures(initialize_result, (), initialized),
        call_ensures(tools_result, (), listed),
    ensures
        introduces_the_server(initialized@),
        lists_the_tool(listed@),
{
    lemma_introduction();
    lemma_tool();
}

/// A request without an id is left without a reply. Every other request is
/// answered under its own id: the three simple methods with their results, a tool
/// call as the tool says, and any other method with a refusal.
pub proof fn law_requests_are_answered(
    server: Server,
    request: RpcRequest,
    now: u128,
    step: Step,
)
    requires
        call_ensures(handle_request, (&server, request, now), step),
    ensures
        request.id is None ==> step is NoReply,
        request.id matches Some(id) ==> {
            let method = request.method@;
            &&& method == "initialize"@ ==> step is Reply && exists|result: JsonView|
                #[trigger] gives(step->Reply_0@, id@, result) && introduces_the_server(result)
            &&& method == "tools/list"@ ==> step is Reply && exists|result: JsonView|
                #[trigger] gives(step->Reply_0@, id@, result) && lists_the_tool(result)
            &&& method == "ping"@ ==> step is Reply && exists|result: JsonView|
                #[trigger] gives(step->Reply_0@, id@, result) && has_members(result, 0)
            &&& method != "initialize"@ && method != "tools/list"@ && method != "tools/call"@
                && method != "ping"@ ==> step is Reply && refuses(
                step->Reply_0@,
                id@,
                -32601i64,
                "method not found"@,
            )
        },
{
    lemma_method_names_differ();
    if let Some(id) = request.id {
        lemma_introduction();
        lemma_tool();
        lemma_gives(id@, initialize_json());
        lemma_gives(id@, tools_json());
        lemma_gives(id@, JsonView::Object(Seq::empty()));
        law_refusals_hold_code_and_message(id@, -32601i64, "method not found"@);
    }
}

/// The tool that the parameters of a call name.
pub open spec fn names_tool(params: Option<Json>, name: Seq<char>) -> bool {
    params matches Some(value) && value@.get("name"@) == Some(JsonView::Text(name))
}

/// A tool call, made directly or in a request, is answered under its id. Without
/// the name of a tool it is refused, and with the name of another tool it fails
/// by that name. With the name of the usage tool it returns the whole JSON text
/// of the cached report, its summary and the mark that it is cached, as long as
/// the report is younger than the time to live; otherwise it waits, under its id,
/// for the reply to the request for usage.
pub proof fn law_tool_calls_are_answered(
    server: Server,
    id: Json,
    params: Option<Json>,
    now: u128,
    step: Step,
    name: Seq<char>,
)
    requires
        call_ensures(handle_tool_call, (&server, id, params, now), step) || exists|
            request: RpcRequest,
        |
            request.id == Some(id) && request.method@ == "tools/call"@ && request.params == params
                && #[trigger] call_ensures(handle_request, (&server, request, now), step),
    ensures
        (forall|other: Seq<char>| !#[trigger] names_tool(params, other)) ==> step is Reply
            && refuses(step->Reply_0@, id@, -32602i64, "tools/call requires a tool name"@),
        names_tool(params, name) && name != "get_usage"@ ==> step is Reply && exists|
            result: JsonView,
        |
            #[trigger] gives(step->Reply_0@, id@, result) && failed(
                result,
                "unknown tool: "@ + name,
            ),
        names_tool(params, name) && name == "get_usage"@ ==> if server.cache is Some
            && server.cache_ttl_seconds > 0 && now < server.cache->0.fetched_at
            + server.cache_ttl_seconds * 1_000_000_000 {
            step is Reply && exists|result: JsonView, value: JsonView|
                {
                    &&& #[trigger] gives(step->Reply_0@, id@, result)
                    &&& returned(result, #[trigger] json_text(value))
                    &&& is_usage_result(value, server.cache->0.data@, true)
                }
        } else {
            step is Fetch && step->Fetch_0.id@ == id@ && step->Fetch_1@ == request_for(
                server.config@,
            )
        },
{
    lemma_method_names_differ();
    law_refusals_hold_code_and_message(id@, -32602i64, "tools/call requires a tool name"@);
    let tool = crate::rpc::tool_name(crate::rpc::given(params));
    assert(tool is Some ==> names_tool(params, tool->0));
    assert(names_tool(params, name) ==> tool == Some(name));
    assert(step@ == crate::rpc::tool_step(server@, id@, crate::rpc::given(params), now as int));
    law_tool_results_carry_their_text("unknown tool: "@ + name);
    lemma_gives(id@, failure_result("unknown tool: "@ + name));
    if server.cache is Some {
        let value = usage_json(server.cache->0.data@, true);
        law_results_hold_the_whole_report(server.cache->0.data@, true);
        law_tool_results_carry_their_text(json_text(value));
        lemma_gives(id@, success_result(value));
    }
}

/// A call that waits for usage is answered under its id. The report that comes is
/// returned whole, as JSON text with its summary and the mark that it is not
/// cached, and every failure is told whole.
pub proof fn law_waiting_calls_are_answered(id: JsonView, event: FetchEventView)
    ensures
        match event {
            FetchEventView::SendFailed(error) => tells_failure(
                call_progress(id, event),
                id,
                "usage endpoint request failed: "@ + error,
            ),
            FetchEventView::Status(code) => if 200 <= code <= 299 {
                call_progress(id, event) == ProgressView::ReadBody(id)
            } else {
                tells_failure(
                    call_progress(id, event),
                    id,
                    "usage endpoint"@ + " returned HTTP "@ + (decimal(code as nat) + " "@
                        + status_reason(code)),
                )
            },
            FetchEventView::BodyFailed(error) => tells_failure(
                call_progress(id, event),
                id,
                "usage endpoint returned invalid JSON: "@ + error,
            ),
            FetchEventView::Body(data) => tells_report(call_progress(id, event), id, data),
        },
{
    match event {
        FetchEventView::SendFailed(error) => {
            lemma_tells_failure(id, "usage endpoint request failed: "@ + error);
        },
        FetchEventView::Status(code) => {
            lemma_tells_failure(
                id,
                "usage endpoint"@ + " returned HTTP "@ + (decimal(code as nat) + " "@
                    + status_reason(code)),
            );
        },
        FetchEventView::BodyFailed(error) => {
            lemma_tells_failure(id, "usage endpoint returned invalid JSON: "@ + error);
        },
        FetchEventView::Body(data) => {
            let value = usage_json(data, false);
            law_results_hold_the_whole_report(data, false);
            law_tool_results_carry_their_text(json_text(value));
            lemma_gives(id, success_result(value));
        },
    }
}

/// A call that waits is answered as the event says, and the server after it is
/// the server that has seen the event.
pub proof fn law_waiting_calls_go_on(
    server: &mut Server,
    call: PendingCall,
    event: FetchEvent,
    now: u128,
    progress: Progress,
)
    requires
        call_ensures(continue_tool_call, (server, call, event, now), progress),
    ensures
        final(server).config@ == old(server).config@,
        final(server).cache_ttl_seconds == old(server).cache_ttl_seconds,
        !(event is Body) ==> final(server)@.cache == old(server)@.cache,
        match event {
            FetchEvent::SendFailed(error) => tells_failure(
                progress@,
                call.id@,
                "usage endpoint request failed: "@ + error@,
            ),
            FetchEvent::Status(code) => if 200 <= code <= 299 {
                progress is ReadBody && progress->ReadBody_0.id@ == call.id@
            } else {
                tells_failure(
                    progress@,
                    call.id@,
                    "usage endpoint"@ + " returned HTTP "@ + (decimal(code as nat) + " "@
                        + status_reason(code)),
                )
            },
            FetchEvent::BodyFailed(error) => tells_failure(
                progress@,
                call.id@,
                "usage endpoint returned invalid JSON: "@ + error@,
            ),
            FetchEvent::Body(data) => {
                &&& tells_report(progress@, call.id@, data@)
                &&& final(server).cache is Some
                &&& final(server).cache->0.fetched_at == now
                &&& final(server).cache->0.data@ == data@
            },
        },
{
    law_waiting_calls_are_answered(call.id@, event@);
    assert(final(server)@.cache_ttl_seconds == old(server)@.cache_ttl_seconds);
    assert(event is Body ==> final(server)@.cache is Some);
}

/// The call `id` is answered with a failure that says all of `error`.
pub open spec fn tells_failure(progress: ProgressView, id: JsonView, error: Seq<char>) -> bool {
    progress is Reply && exists|result: JsonView|
        #[trigger] gives(progress->Reply_0, id, result) && failed(result, error)
}

/// The call `id` is answered with the whole JSON text of the report `data`, its
/// summary and the mark that it is not cached.
pub open spec fn tells_report(progress: ProgressView, id: JsonView, data: JsonView) -> bool {
    progress is Reply && exists|result: JsonView, value: JsonView|
        {
            &&& #[trigger] gives(progress->Reply_0, id, result)
            &&& returned(result, #[trigger] json_text(value))
            &&& is_usage_result(value, data, false)
        }
}

proof fn lemma_tells_failure(id: JsonView, error: Seq<char>)
    ensures
        tells_failure(ProgressView::Reply(rpc_result(id, failure_result(error))), id, error),
{
    law_tool_results_carry_their_text(error);
    lemma_gives(id, failure_result(error));
}

} // verus!
