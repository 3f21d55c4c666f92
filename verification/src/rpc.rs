//! JSON-RPC: what the server replies to each request.
#[allow(unused_imports)]
use crate::codec::{integer_number, json_text};
use crate::config::UsageRequest;
#[allow(unused_imports)]
use crate::config::RequestView;
use crate::json::Json;
#[allow(unused_imports)]
use crate::json::{
    lemma_array1_wf, lemma_before_by_first, lemma_before_by_second, lemma_object1_wf,
    lemma_object2_wf, lemma_object3_wf, lemma_scalar_wf, member_of, JsonView,
};
#[allow(unused_imports)]
use crate::server::{
    call_step, fetch_step, server_after, usage_json, CallView, FetchEventView, FetchView, ServerView,
};
use crate::server::{usage_result, CallStep, FetchEvent, FetchStep, Server};
use crate::text::same_text;
use vstd::prelude::*;
use vstd::string::*;

verus! {

/// The name of the server.
pub const SERVER_NAME: &'static str = "usage-mcp-server";

/// The version of the server.
pub const VERSION: &'static str = "0.1.0";

/// A JSON text could not be read.
pub const PARSE_ERROR: i64 = -32700;

/// The server does not know the method.
pub const METHOD_NOT_FOUND: i64 = -32601;

/// The parameters do not fit the method.
pub const INVALID_PARAMS: i64 = -32602;

/// The server cannot answer.
pub const INTERNAL_ERROR: i64 = -32603;

/// The reply that returns `result`.
pub open spec fn rpc_result(id: JsonView, result: JsonView) -> JsonView {
    JsonView::Object(
        seq![("id"@, id), ("jsonrpc"@, JsonView::Text("2.0"@)), ("result"@, result)],
    )
}

/// The reply that reports an error.
pub open spec fn rpc_error(id: JsonView, code: i64, message: Seq<char>) -> JsonView {
    JsonView::Object(
        seq![
            (
                "error"@,
                JsonView::Object(
                    seq![
                        ("code"@, JsonView::Num(integer_number(code))),
                        ("message"@, JsonView::Text(message)),
                    ],
                ),
            ),
            ("id"@, id),
            ("jsonrpc"@, JsonView::Text("2.0"@)),
        ],
    )
}

/// The code of the error that a reply reports, where it reports one.
pub open spec fn error_code(reply: JsonView) -> Option<JsonView> {
    match reply.get("error"@) {
        Some(error) => error.get("code"@),
        None => None,
    }
}

/// The reply reports the error `code`.
pub open spec fn reports_error(reply: JsonView, code: i64) -> bool {
    error_code(reply) == Some(JsonView::Num(integer_number(code)))
}

/// What a reply with a result holds. It reports no error.
pub proof fn lemma_result_members(id: JsonView, result: JsonView)
    ensures
        rpc_result(id, result).get("id"@) == Some(id),
        rpc_result(id, result).get("jsonrpc"@) == Some(JsonView::Text("2.0"@)),
        rpc_result(id, result).get("result"@) == Some(result),
        rpc_result(id, result).get("error"@) is None,
        error_code(rpc_result(id, result)) is None,
{
    lemma_member_names_differ();
    reveal_with_fuel(member_of, 4);
    let members = rpc_result(id, result)->Object_0;
    assert(members.drop_first()[0] == members[1]);
    assert(members.drop_first().drop_first()[0] == members[2]);
}

/// What a reply with an error holds. It reports its code.
pub proof fn lemma_error_members(id: JsonView, code: i64, message: Seq<char>)
    ensures
        rpc_error(id, code, message).get("id"@) == Some(id),
        rpc_error(id, code, message).get("jsonrpc"@) == Some(JsonView::Text("2.0"@)),
        rpc_error(id, code, message).get("result"@) is None,
        rpc_error(id, code, message).get("error"@) is Some,
        error_code(rpc_error(id, code, message)) == Some(JsonView::Num(integer_number(code))),
{
    lemma_member_names_differ();
    reveal_with_fuel(member_of, 4);
    let members = rpc_error(id, code, message)->Object_0;
    assert(members.drop_first()[0] == members[1]);
    assert(members.drop_first().drop_first()[0] == members[2]);
}

/// The names of the members of a reply differ.
proof fn lemma_member_names_differ()
    ensures
        "id"@ != "jsonrpc"@,
        "id"@ != "result"@,
        "id"@ != "error"@,
        "jsonrpc"@ != "result"@,
        "jsonrpc"@ != "error"@,
        "result"@ != "error"@,
{
    reveal_strlit("id");
    reveal_strlit("jsonrpc");
    reveal_strlit("result");
    reveal_strlit("error");
    assert("id"@.len() == 2 && "jsonrpc"@.len() == 7 && "result"@.len() == 6 && "error"@.len()
        == 5);
}

/// A reply with a result is well-formed if its parts are.
pub proof fn lemma_rpc_result_wf(id: JsonView, result: JsonView)
    requires
        id.wf(),
        result.wf(),
    ensures
        rpc_result(id, result).wf(),
{
    reveal_strlit("id");
    reveal_strlit("jsonrpc");
    reveal_strlit("result");
    lemma_before_by_first("id"@, "jsonrpc"@);
    lemma_before_by_first("id"@, "result"@);
    lemma_before_by_first("jsonrpc"@, "result"@);
    lemma_scalar_wf(JsonView::Text("2.0"@));
    lemma_object3_wf("id"@, id, "jsonrpc"@, JsonView::Text("2.0"@), "result"@, result);
}

/// A reply with an error is well-formed if the id is.
pub proof fn lemma_rpc_error_wf(id: JsonView, code: i64, message: Seq<char>)
    requires
        id.wf(),
    ensures
        rpc_error(id, code, message).wf(),
{
    reveal_strlit("error");
    reveal_strlit("id");
    reveal_strlit("jsonrpc");
    reveal_strlit("code");
    reveal_strlit("message");
    lemma_before_by_first("code"@, "message"@);
    lemma_before_by_first("error"@, "id"@);
    lemma_before_by_first("error"@, "jsonrpc"@);
    lemma_before_by_first("id"@, "jsonrpc"@);
    let number = JsonView::Num(integer_number(code));
    let text = JsonView::Text(message);
    lemma_scalar_wf(number);
    lemma_scalar_wf(text);
    lemma_scalar_wf(JsonView::Text("2.0"@));
    lemma_object2_wf("code"@, number, "message"@, text);
    let error = JsonView::Object(seq![("code"@, number), ("message"@, text)]);
    lemma_object3_wf("error"@, error, "id"@, id, "jsonrpc"@, JsonView::Text("2.0"@));
}

/// The reply that returns `result`.
pub fn json_rpc_result(id: Json, result: Json) -> (reply: Json)
    ensures
        reply@ == rpc_result(id@, result@),
        error_code(reply@) is None,
        id@.wf() && result@.wf() ==> reply@.wf(),
{
    proof {
        lemma_result_members(id@, result@);
        if id@.wf() && result@.wf() {
            lemma_rpc_result_wf(id@, result@);
        }
    }
    Json::object3("id", id, "jsonrpc", Json::text("2.0"), "result", result)
}

/// The reply that reports an error.
pub fn json_rpc_error(id: Json, code: i64, message: &str) -> (reply: Json)
    ensures
        reply@ == rpc_error(id@, code, message@),
        forall|other: i64| #[trigger] reports_error(reply@, other) <==> other == code,
        id@.wf() ==> reply@.wf(),
{
    proof {
        lemma_error_members(id@, code, message@);
        if id@.wf() {
            lemma_rpc_error_wf(id@, code, message@);
        }
    }
    let error: Json = Json::object2("code", Json::integer(code), "message", Json::text(message));
    Json::object3("error", error, "id", id, "jsonrpc", Json::text("2.0"))
}

/// A text as the content of a tool's result.
pub open spec fn text_content(text: Seq<char>) -> JsonView {
    JsonView::Array(
        seq![
            JsonView::Object(
                seq![("text"@, JsonView::Text(text)), ("type"@, JsonView::Text("text"@))],
            ),
        ],
    )
}

/// The result of a tool call that returned a text.
pub open spec fn text_result(text: Seq<char>) -> JsonView {
    JsonView::Object(seq![("content"@, text_content(text))])
}

/// The result of a tool call that returned `value`: its JSON text.
pub open spec fn success_result(value: JsonView) -> JsonView {
    text_result(json_text(value))
}

/// The result of a tool call that failed.
pub open spec fn failure_result(error: Seq<char>) -> JsonView {
    JsonView::Object(
        seq![("content"@, text_content(error)), ("isError"@, JsonView::Bool(true))],
    )
}

proof fn lemma_text_content_wf(text: Seq<char>)
    ensures
        text_content(text).wf(),
{
    reveal_strlit("text");
    reveal_strlit("type");
    lemma_before_by_second("text"@, "type"@);
    lemma_scalar_wf(JsonView::Text(text));
    lemma_scalar_wf(JsonView::Text("text"@));
    lemma_object2_wf("text"@, JsonView::Text(text), "type"@, JsonView::Text("text"@));
    lemma_array1_wf(text_content(text)->Array_0[0]);
}

/// A text as the content of a tool's result.
fn content_of(text: &str) -> (content: Json)
    ensures
        content@ == text_content(text@),
{
    Json::array1(Json::object2("text", Json::text(text), "type", Json::text("text")))
}

/// The result of a tool call that returned a text.
pub fn tool_text(text: &str) -> (result: Json)
    ensures
        result@ == text_result(text@),
        result@.wf(),
{
    proof {
        lemma_text_content_wf(text@);
        lemma_object1_wf("content"@, text_content(text@));
    }
    Json::object1("content", content_of(text))
}

/// The result of a tool call that returned `value`: its JSON text.
pub fn tool_success(value: &Json) -> (result: Json)
    requires
        value@.wf(),
    ensures
        result@ == success_result(value@),
        result@.wf(),
{
    tool_text(&value.to_text())
}

/// The result of a tool call that failed.
pub fn tool_failure(error: &str) -> (result: Json)
    ensures
        result@ == failure_result(error@),
        result@.wf(),
{
    proof {
        reveal_strlit("content");
        reveal_strlit("isError");
        lemma_before_by_first("content"@, "isError"@);
        lemma_text_content_wf(error@);
        lemma_scalar_wf(JsonView::Bool(true));
        lemma_object2_wf("content"@, text_content(error@), "isError"@, JsonView::Bool(true));
    }
    Json::object2("content", content_of(error), "isError", Json::Bool(true))
}

/// What `initialize` returns.
pub open spec fn initialize_json() -> JsonView {
    JsonView::Object(
        seq![
            (
                "capabilities"@,
                JsonView::Object(seq![("tools"@, JsonView::Object(Seq::empty()))]),
            ),
            ("protocolVersion"@, JsonView::Text("2024-11-05"@)),
            (
                "serverInfo"@,
                JsonView::Object(
                    seq![
                        ("name"@, JsonView::Text(SERVER_NAME@)),
                        ("version"@, JsonView::Text(VERSION@)),
                    ],
                ),
            ),
        ],
    )
}

proof fn lemma_empty_object_wf()
    ensures
        JsonView::Object(Seq::empty()).wf(),
{
}

/// What `initialize` returns.
pub fn initialize_result() -> (result: Json)
    ensures
        result@ == initialize_json(),
        result@.wf(),
{
    let tools: Json = Json::object1("tools", Json::empty_object());
    let info: Json = Json::object2(
        "name",
        Json::text(SERVER_NAME),
        "version",
        Json::text(VERSION),
    );
    proof {
        reveal_strlit("capabilities");
        reveal_strlit("protocolVersion");
        reveal_strlit("serverInfo");
        reveal_strlit("name");
        reveal_strlit("version");
        lemma_before_by_first("capabilities"@, "protocolVersion"@);
        lemma_before_by_first("capabilities"@, "serverInfo"@);
        lemma_before_by_first("protocolVersion"@, "serverInfo"@);
        lemma_before_by_first("name"@, "version"@);
        lemma_empty_object_wf();
        lemma_object1_wf("tools"@, JsonView::Object(Seq::empty()));
        lemma_scalar_wf(JsonView::Text(SERVER_NAME@));
        lemma_scalar_wf(JsonView::Text(VERSION@));
        lemma_scalar_wf(JsonView::Text("2024-11-05"@));
        lemma_object2_wf(
            "name"@,
            JsonView::Text(SERVER_NAME@),
            "version"@,
            JsonView::Text(VERSION@),
        );
        lemma_object3_wf(
            "capabilities"@,
            tools@,
            "protocolVersion"@,
            JsonView::Text("2024-11-05"@),
            "serverInfo"@,
            info@,
        );
    }
    Json::object3(
        "capabilities",
        tools,
        "protocolVersion",
        Json::text("2024-11-05"),
        "serverInfo",
        info,
    )
}

/// The schema of the tool's parameters: an object without properties.
pub open spec fn schema_json() -> JsonView {
    JsonView::Object(
        seq![
            ("additionalProperties"@, JsonView::Bool(false)),
            ("properties"@, JsonView::Object(Seq::empty())),
            ("type"@, JsonView::Text("object"@)),
        ],
    )
}

/// The description of the usage tool.
pub open spec fn tool_json() -> JsonView {
    JsonView::Object(
        seq![
            (
                "description"@,
                JsonView::Text("Fetch weekly, monthly, and other usage/token statistics."@),
            ),
            ("inputSchema"@, schema_json()),
            ("name"@, JsonView::Text("get_usage"@)),
        ],
    )
}

/// What `tools/list` returns.
pub open spec fn tools_json() -> JsonView {
    JsonView::Object(seq![("tools"@, JsonView::Array(seq![tool_json()]))])
}

proof fn lemma_tools_json_wf()
    ensures
        tools_json().wf(),
{
    let description = JsonView::Text("Fetch weekly, monthly, and other usage/token statistics."@);
    reveal_strlit("additionalProperties");
    reveal_strlit("properties");
    reveal_strlit("type");
    reveal_strlit("description");
    reveal_strlit("inputSchema");
    reveal_strlit("name");
    lemma_before_by_first("additionalProperties"@, "properties"@);
    lemma_before_by_first("additionalProperties"@, "type"@);
    lemma_before_by_first("properties"@, "type"@);
    lemma_before_by_first("description"@, "inputSchema"@);
    lemma_before_by_first("description"@, "name"@);
    lemma_before_by_first("inputSchema"@, "name"@);
    lemma_empty_object_wf();
    lemma_scalar_wf(JsonView::Bool(false));
    lemma_scalar_wf(JsonView::Text("object"@));
    lemma_scalar_wf(JsonView::Text("get_usage"@));
    lemma_scalar_wf(description);
    lemma_object3_wf(
        "additionalProperties"@,
        JsonView::Bool(false),
        "properties"@,
        JsonView::Object(Seq::empty()),
        "type"@,
        JsonView::Text("object"@),
    );
    lemma_object3_wf(
        "description"@,
        description,
        "inputSchema"@,
        schema_json(),
        "name"@,
        JsonView::Text("get_usage"@),
    );
    lemma_array1_wf(tool_json());
    lemma_object1_wf("tools"@, JsonView::Array(seq![tool_json()]));
}

/// What `tools/list` returns.
pub fn tools_result() -> (result: Json)
    ensures
        result@ == tools_json(),
        result@.wf(),
{
    proof {
        lemma_tools_json_wf();
    }
    let schema: Json = Json::object3(
        "additionalProperties",
        Json::Bool(false),
        "properties",
        Json::empty_object(),
        "type",
        Json::text("object"),
    );
    let tool: Json = Json::object3(
        "description",
        Json::text("Fetch weekly, monthly, and other usage/token statistics."),
        "inputSchema",
        schema,
        "name",
        Json::text("get_usage"),
    );
    Json::object1("tools", Json::array1(tool))
}

/// A request as mathematics.
pub struct RpcRequestView {
    pub id: Option<JsonView>,
    pub method: Seq<char>,
    pub params: Option<JsonView>,
}

impl RpcRequestView {
    /// The parts of the request are well-formed.
    pub open spec fn wf(self) -> bool {
        &&& self.id is Some ==> self.id->0.wf()
        &&& self.params is Some ==> self.params->0.wf()
    }
}

/// A request.
#[derive(Debug)]
pub struct RpcRequest {
    pub id: Option<Json>,
    pub method: String,
    pub params: Option<Json>,
}

/// The model of a value that may be there.
pub open spec fn given(value: Option<Json>) -> Option<JsonView> {
    match value {
        Some(json) => Some(json@),
        None => None,
    }
}

impl View for RpcRequest {
    type V = RpcRequestView;

    open spec fn view(&self) -> RpcRequestView {
        RpcRequestView {
            id: given(self.id),
            method: self.method@,
            params: given(self.params),
        }
    }
}

/// What a request leads to, as mathematics.
pub enum StepView {
    NoReply,
    Reply(JsonView),
    Fetch(JsonView, RequestView),
}

/// A tool call that waits for usage to be fetched.
#[derive(Debug, PartialEq)]
pub struct PendingCall {
    /// The id of the request.
    pub id: Json,
}

/// What a request leads to.
#[derive(Debug, PartialEq)]
pub enum Step {
    /// The request is not replied to.
    NoReply,
    /// This is the reply.
    Reply(Json),
    /// The call needs the reply to this request for usage.
    Fetch(PendingCall, UsageRequest),
}

impl View for Step {
    type V = StepView;

    open spec fn view(&self) -> StepView {
        match *self {
            Step::NoReply => StepView::NoReply,
            Step::Reply(reply) => StepView::Reply(reply@),
            Step::Fetch(call, request) => StepView::Fetch(call.id@, request@),
        }
    }
}

impl StepView {
    /// The reply, or the id of the pending call, is well-formed.
    pub open spec fn wf(self) -> bool {
        match self {
            StepView::NoReply => true,
            StepView::Reply(reply) => reply.wf(),
            StepView::Fetch(id, _) => id.wf(),
        }
    }
}

/// The request is replied to at once, with the error `code`.
pub open spec fn step_reports(step: StepView, code: i64) -> bool {
    step matches StepView::Reply(reply) && reports_error(reply, code)
}

/// The tool that the parameters name.
pub open spec fn tool_name(params: Option<JsonView>) -> Option<Seq<char>> {
    match params {
        Some(value) => match value.get("name"@) {
            Some(name) => name.as_text(),
            None => None,
        },
        None => None,
    }
}

/// What a tool call at the time `now` leads to.
pub open spec fn tool_step(
    server: ServerView,
    id: JsonView,
    params: Option<JsonView>,
    now: int,
) -> StepView {
    match tool_name(params) {
        None => StepView::Reply(
            rpc_error(id, INVALID_PARAMS, "tools/call requires a tool name"@),
        ),
        Some(name) => match call_step(server, name, now) {
            CallView::Fail(error) => StepView::Reply(rpc_result(id, failure_result(error))),
            CallView::Done(result) => StepView::Reply(rpc_result(id, success_result(result))),
            CallView::Fetch(request) => StepView::Fetch(id, request),
        },
    }
}

/// What a request at the time `now` leads to.
pub open spec fn request_step(server: ServerView, request: RpcRequestView, now: int) -> StepView {
    match request.id {
        None => StepView::NoReply,
        Some(id) => if request.method == "initialize"@ {
            StepView::Reply(rpc_result(id, initialize_json()))
        } else if request.method == "tools/list"@ {
            StepView::Reply(rpc_result(id, tools_json()))
        } else if request.method == "tools/call"@ {
            tool_step(server, id, request.params, now)
        } else if request.method == "ping"@ {
            StepView::Reply(rpc_result(id, JsonView::Object(Seq::empty())))
        } else {
            StepView::Reply(rpc_error(id, METHOD_NOT_FOUND, "method not found"@))
        },
    }
}

/// The names of the methods differ.
pub proof fn lemma_method_names_differ()
    ensures
        "tools/call"@ != "initialize"@,
        "tools/call"@ != "tools/list"@,
        "tools/call"@ != "ping"@,
        "tools/list"@ != "initialize"@,
        "tools/list"@ != "ping"@,
        "initialize"@ != "ping"@,
{
    reveal_strlit("tools/call");
    reveal_strlit("initialize");
    reveal_strlit("tools/list");
    reveal_strlit("ping");
    assert("tools/call"@[0] == 't' && "initialize"@[0] == 'i');
    assert("tools/call"@[6] == 'c' && "tools/list"@[6] == 'l');
    assert("tools/list"@[0] == 't' && "ping"@[0] == 'p');
}

/// The server knows the method.
pub open spec fn known_method(method: Seq<char>) -> bool {
    ||| method == "initialize"@
    ||| method == "tools/list"@
    ||| method == "tools/call"@
    ||| method == "ping"@
}

/// The code of the error that a request is refused with, where it is refused.
pub open spec fn request_error(request: RpcRequestView) -> Option<i64> {
    if !known_method(request.method) {
        Some(METHOD_NOT_FOUND)
    } else if request.method == "tools/call"@ && tool_name(request.params) is None {
        Some(INVALID_PARAMS)
    } else {
        None
    }
}

/// What a tool call at the time `now`, in nanoseconds, leads to.
pub fn handle_tool_call(server: &Server, id: Json, params: Option<Json>, now: u128) -> (step: Step)
    requires
        server@.wf(),
        id@.wf(),
    ensures
        step@ == tool_step(server@, id@, given(params), now as int),
        forall|code: i64| #[trigger]
            step_reports(step@, code) <==> code == INVALID_PARAMS && tool_name(
                given(params),
            ) is None,
        step@.wf(),
{
    let field: Option<&Json> = match &params {
        Some(value) => value.get("name"),
        None => None,
    };
    let name: Option<&str> = match field {
        Some(value) => value.as_str(),
        None => None,
    };
    let name: &str = match name {
        Some(name) => name,
        None => {
            return Step::Reply(
                json_rpc_error(id, INVALID_PARAMS, "tools/call requires a tool name"),
            );
        },
    };
    match server.handle_call(name, now) {
        CallStep::Done(result) => Step::Reply(json_rpc_result(id, tool_success(&result))),
        CallStep::Fail(error) => Step::Reply(json_rpc_result(id, tool_failure(&error))),
        CallStep::Fetch(request) => Step::Fetch(PendingCall { id }, request),
    }
}

/// What a request at the time `now`, in nanoseconds, leads to.
pub fn handle_request(server: &Server, request: RpcRequest, now: u128) -> (step: Step)
    requires
        server@.wf(),
        request@.wf(),
    ensures
        step@ == request_step(server@, request@, now as int),
        forall|code: i64| #[trigger]
            step_reports(step@, code) <==> request@.id is Some && request_error(request@) == Some(
                code,
            ),
        step@.wf(),
{
    proof {
        lemma_method_names_differ();
    }
    let id: Json = match request.id {
        Some(id) => id,
        None => {
            return Step::NoReply;
        },
    };
    let method: &str = request.method.as_str();
    if same_text(method, "initialize") {
        Step::Reply(json_rpc_result(id, initialize_result()))
    } else if same_text(method, "tools/list") {
        Step::Reply(json_rpc_result(id, tools_result()))
    } else if same_text(method, "tools/call") {
        handle_tool_call(server, id, request.params, now)
    } else if same_text(method, "ping") {
        proof {
            lemma_empty_object_wf();
        }
        Step::Reply(json_rpc_result(id, Json::empty_object()))
    } else {
        Step::Reply(json_rpc_error(id, METHOD_NOT_FOUND, "method not found"))
    }
}

/// How a pending call goes on, as mathematics.
pub enum ProgressView {
    ReadBody(JsonView),
    Reply(JsonView),
}

/// How a pending call goes on.
#[derive(Debug, PartialEq)]
pub enum Progress {
    /// The call still needs the body of the reply.
    ReadBody(PendingCall),
    /// This is the reply to the call.
    Reply(Json),
}

impl View for Progress {
    type V = ProgressView;

    open spec fn view(&self) -> ProgressView {
        match *self {
            Progress::ReadBody(call) => ProgressView::ReadBody(call.id@),
            Progress::Reply(reply) => ProgressView::Reply(reply@),
        }
    }
}

impl ProgressView {
    /// The reply, or the id of the pending call, is well-formed.
    pub open spec fn wf(self) -> bool {
        match self {
            ProgressView::ReadBody(id) => id.wf(),
            ProgressView::Reply(reply) => reply.wf(),
        }
    }
}

/// How the pending call `id` goes on after an event.
pub open spec fn call_progress(id: JsonView, event: FetchEventView) -> ProgressView {
    match fetch_step(event) {
        FetchView::ReadBody => ProgressView::ReadBody(id),
        FetchView::Fail(error) => ProgressView::Reply(rpc_result(id, failure_result(error))),
        FetchView::Received(data) => ProgressView::Reply(
            rpc_result(id, success_result(usage_json(data, false))),
        ),
    }
}

/// How a pending call goes on after an event at the time `now`, in nanoseconds.
pub fn continue_tool_call(
    server: &mut Server,
    call: PendingCall,
    event: FetchEvent,
    now: u128,
) -> (progress: Progress)
    requires
        old(server)@.wf(),
        call.id@.wf(),
        event@.wf(),
    ensures
        progress@ == call_progress(call.id@, event@),
        progress@ matches ProgressView::Reply(reply) ==> error_code(reply) is None,
        progress@.wf(),
        final(server)@ == server_after(old(server)@, event@, now as int),
        final(server)@.wf(),
{
    match server.fetch_usage(event, now) {
        FetchStep::ReadBody => Progress::ReadBody(call),
        FetchStep::Fail(error) => Progress::Reply(json_rpc_result(call.id, tool_failure(&error))),
        FetchStep::Received(data) => Progress::Reply(
            json_rpc_result(call.id, tool_success(&usage_result(data, false))),
        ),
    }
}

} // verus!
