//! How requests reach the server, and how it is checked and started.
#[allow(unused_imports)]
use crate::codec::json_text;
#[allow(unused_imports)]
use crate::config::{env_number, held, told, EnvView};
use crate::config::{parse_env_u16, EnvValue};
use crate::http::{is_success, refusal_of};
#[allow(unused_imports)]
use crate::http::{refusal_text, status_display, success_status};
use crate::json::Json;
#[allow(unused_imports)]
use crate::json::{
    lemma_before_by_first, lemma_before_by_second, lemma_object_view, lemma_scalar_wf, member_of,
    members_view, names_ascend, JsonView,
};
use crate::rpc::{
    handle_request, json_rpc_error, RpcRequest, Step, INTERNAL_ERROR, PARSE_ERROR, SERVER_NAME,
    VERSION,
};
#[allow(unused_imports)]
use crate::rpc::{
    reports_error, request_error, request_step, rpc_error, step_reports, RpcRequestView, StepView,
};
#[allow(unused_imports)]
use crate::rpc_laws::law_only_notifications_get_no_reply;
#[allow(unused_imports)]
use crate::server::{ExchangeView, FetchEventView, ServerView};
use crate::server::{FetchEvent, Server};
#[allow(unused_imports)]
use crate::text::{decimal, is_blank_text};
use crate::text::{decimal_text, is_blank, joined, same_text};
use vstd::prelude::*;
use vstd::string::*;

verus! {

/// The host to listen on where no other is set.
pub const DEFAULT_HTTP_HOST: &'static str = "127.0.0.1";

/// The port to listen on where no other is set.
pub const DEFAULT_HTTP_PORT: u16 = 8000;

/// The arguments as mathematics.
pub open spec fn words(args: Seq<String>) -> Seq<Seq<char>> {
    args.map_values(|arg: String| arg@)
}

/// Whether the arguments, without the name of the program, ask for a health
/// check.
pub fn wants_healthcheck(args: &Vec<String>) -> (wanted: bool)
    ensures
        wanted == words(args@).contains("--healthcheck"@),
{
    for i in 0..args.len()
        invariant
            forall|j: int| 0 <= j < i ==> words(args@)[j] != "--healthcheck"@,
    {
        if same_text(&args[i], "--healthcheck") {
            assert(words(args@)[i as int] == "--healthcheck"@);
            return true;
        }
    }
    false
}

/// The transport that the arguments ask for: what follows the last
/// `--transport`, or `current` where there is none.
pub open spec fn transport_asked(args: Seq<Seq<char>>, current: Seq<char>) -> Seq<char>
    decreases args.len(),
{
    if args.len() == 0 {
        current
    } else if args[0] != "--transport"@ {
        transport_asked(args.skip(1), current)
    } else if args.len() == 1 {
        current
    } else {
        transport_asked(args.skip(2), args[1])
    }
}

/// The transport that the variable `MCP_TRANSPORT`, which holds `var`, and the
/// arguments, without the name of the program, ask for.
pub fn transport_from_environment_and_args(var: Option<String>, args: &Vec<String>) -> (transport:
    String)
    ensures
        transport@ == transport_asked(
            words(args@),
            match var {
                Some(value) => value@,
                None => "stdio"@,
            },
        ),
{
    let mut transport: String = match var {
        Some(value) => value,
        None => "stdio".to_owned(),
    };
    let ghost all = words(args@);
    let ghost first = transport@;
    let mut i: usize = 0;
    assert(all.skip(0) =~= all);
    while i < args.len()
        invariant
            all == words(args@),
            i <= args.len(),
            transport_asked(all, first) == transport_asked(all.skip(i as int), transport@),
        decreases args.len() - i,
    {
        let ghost rest = all.skip(i as int);
        assert(rest[0] == all[i as int]);
        assert(rest.skip(1) =~= all.skip(i + 1));
        if same_text(&args[i], "--transport") && i + 1 < args.len() {
            assert(rest[1] == all[i + 1]);
            assert(rest.skip(2) =~= all.skip(i + 2));
            transport = args[i + 1].clone();
            i = i + 2;
        } else {
            assert(all.skip(args.len() as int).len() == 0);
            i = i + 1;
        }
    }
    transport
}

/// Arguments without `--transport` leave the transport as it is.
pub proof fn law_other_arguments_keep_the_transport(args: Seq<Seq<char>>, current: Seq<char>)
    requires
        !args.contains("--transport"@),
    ensures
        transport_asked(args, current) == current,
    decreases args.len(),
{
    if args.len() > 0 {
        assert(args.contains(args[0]));
        assert forall|i: int| 0 <= i < args.skip(1).len() implies args.skip(1)[i]
            != "--transport"@ by {
            assert(args.contains(args[i + 1]));
        }
        law_other_arguments_keep_the_transport(args.skip(1), current);
    }
}

/// `--transport` and a name, after any other arguments, select the transport of
/// that name, whatever the environment says.
pub proof fn law_the_transport_argument_decides(
    before: Seq<Seq<char>>,
    name: Seq<char>,
    after: Seq<Seq<char>>,
    current: Seq<char>,
)
    requires
        !before.contains("--transport"@),
        !after.contains("--transport"@),
    ensures
        transport_asked(before + seq!["--transport"@, name] + after, current) == name,
    decreases before.len(),
{
    let args = before + seq!["--transport"@, name] + after;
    if before.len() > 0 {
        assert(before.contains(before[0]));
        assert(args[0] == before[0]);
        assert(args.skip(1) =~= before.skip(1) + seq!["--transport"@, name] + after);
        assert forall|i: int| 0 <= i < before.skip(1).len() implies before.skip(1)[i]
            != "--transport"@ by {
            assert(before.contains(before[i + 1]));
        }
        law_the_transport_argument_decides(before.skip(1), name, after, current);
    } else {
        assert(args[0] == "--transport"@);
        assert(args[1] == name);
        assert(args.skip(2) =~= after);
        law_other_arguments_keep_the_transport(after, name);
    }
}

/// The transports that the server has.
#[derive(Debug, PartialEq, Eq, Structural)]
pub enum TransportKind {
    Stdio,
    Http,
}

/// The transport called `name`.
pub open spec fn transport_called(name: Seq<char>) -> Result<TransportKind, Seq<char>> {
    if name == "stdio"@ {
        Ok(TransportKind::Stdio)
    } else if name == "streamable-http"@ || name == "http"@ {
        Ok(TransportKind::Http)
    } else {
        Err("unsupported MCP transport: "@ + name)
    }
}

/// The transport called `name`.
pub fn transport_kind(name: &str) -> (kind: Result<TransportKind, String>)
    ensures
        told(kind) == transport_called(name@),
{
    if same_text(name, "stdio") {
        Ok(TransportKind::Stdio)
    } else if same_text(name, "streamable-http") || same_text(name, "http") {
        Ok(TransportKind::Http)
    } else {
        Err(joined("unsupported MCP transport: ", name))
    }
}

/// The port that the variable `PORT` gives.
pub open spec fn port_number(var: EnvView) -> Result<u64, Seq<char>> {
    env_number(
        "PORT"@,
        var,
        DEFAULT_HTTP_PORT as u64,
        65535,
        " must be an unsigned 16-bit integer"@,
    )
}

/// The address to listen on, from the variables `HOST` and `PORT`.
pub fn listen_address(host: Option<String>, port: &EnvValue) -> (address: Result<String, String>)
    ensures
        match address {
            Ok(text) => port_number(port@) matches Ok(number) && text@ == (match host {
                Some(name) => name@,
                None => DEFAULT_HTTP_HOST@,
            }) + ":"@ + decimal(number as nat),
            Err(error) => port_number(port@) == Err::<u64, Seq<char>>(error@),
        },
{
    let host: String = match host {
        Some(name) => name,
        None => DEFAULT_HTTP_HOST.to_owned(),
    };
    match parse_env_u16("PORT", port, DEFAULT_HTTP_PORT) {
        Ok(number) => Ok(joined(&joined(&host, ":"), &decimal_text(number as u64))),
        Err(error) => Err(error),
    }
}

/// The address that a health check asks, from the variables `PORT` and
/// `MCP_HEALTHCHECK_URL`.
pub fn healthcheck_url(port: &EnvValue, url: Option<String>) -> (address: Result<String, String>)
    ensures
        match address {
            Ok(text) => port_number(port@) matches Ok(number) && text@ == match url {
                Some(given) => given@,
                None => "http://127.0.0.1:"@ + decimal(number as nat) + "/mcp/healthz"@,
            },
            Err(error) => port_number(port@) == Err::<u64, Seq<char>>(error@),
        },
{
    match parse_env_u16("PORT", port, DEFAULT_HTTP_PORT) {
        Ok(number) => match url {
            Some(given) => Ok(given),
            None => Ok(
                joined(
                    &joined("http://127.0.0.1:", &decimal_text(number as u64)),
                    "/mcp/healthz",
                ),
            ),
        },
        Err(error) => Err(error),
    }
}

/// How a health check goes on, as mathematics.
pub enum HealthView {
    ReadBody,
    Healthy,
    Unhealthy(Seq<char>),
}

/// How a health check goes on.
#[derive(Debug, PartialEq)]
pub enum HealthStep {
    /// The body of the reply is to be read.
    ReadBody,
    /// The server is healthy.
    Healthy,
    /// The server is not healthy, for this reason.
    Unhealthy(String),
}

impl View for HealthStep {
    type V = HealthView;

    open spec fn view(&self) -> HealthView {
        match *self {
            HealthStep::ReadBody => HealthView::ReadBody,
            HealthStep::Healthy => HealthView::Healthy,
            HealthStep::Unhealthy(error) => HealthView::Unhealthy(error@),
        }
    }
}

/// How a health check goes on after an event.
pub open spec fn health_step(event: FetchEventView) -> HealthView {
    match event {
        FetchEventView::SendFailed(error) => HealthView::Unhealthy(
            "healthcheck request failed: "@ + error,
        ),
        FetchEventView::Status(code) => if success_status(code) {
            HealthView::ReadBody
        } else {
            HealthView::Unhealthy(refusal_text("healthcheck"@, status_display(code)))
        },
        FetchEventView::BodyFailed(error) => HealthView::Unhealthy(
            "healthcheck returned invalid JSON: "@ + error,
        ),
        FetchEventView::Body(report) => if report.get("ok"@) == Some(JsonView::Bool(true)) {
            HealthView::Healthy
        } else {
            HealthView::Unhealthy("healthcheck report is not ok"@)
        },
    }
}

/// How a health check goes on after an event.
pub fn run_healthcheck(event: FetchEvent) -> (step: HealthStep)
    requires
        event@.wf(),
    ensures
        step@ == health_step(event@),
{
    match event {
        FetchEvent::SendFailed(error) => HealthStep::Unhealthy(
            joined("healthcheck request failed: ", &error),
        ),
        FetchEvent::Status(code) => if is_success(code) {
            HealthStep::ReadBody
        } else {
            HealthStep::Unhealthy(refusal_of("healthcheck", code))
        },
        FetchEvent::BodyFailed(error) => HealthStep::Unhealthy(
            joined("healthcheck returned invalid JSON: ", &error),
        ),
        FetchEvent::Body(report) => {
            let ok: Option<bool> = match report.get("ok") {
                Some(value) => value.as_bool(),
                None => None,
            };
            match ok {
                Some(true) => HealthStep::Healthy,
                _ => HealthStep::Unhealthy("healthcheck report is not ok".to_owned()),
            }
        },
    }
}

/// How a health check stands after events that happen one after the other. No
/// event follows one that decides.
pub open spec fn health_after(events: Seq<FetchEventView>) -> HealthView
    decreases events.len(),
{
    if events.len() == 0 {
        HealthView::ReadBody
    } else {
        match health_step(events[0]) {
            HealthView::ReadBody => health_after(events.drop_first()),
            verdict => verdict,
        }
    }
}

/// A whole exchange decides a health check. The server is healthy exactly if it
/// answers with success and with a report whose `ok` is `true`.
pub proof fn law_health_needs_success_and_an_ok_report(exchange: ExchangeView)
    ensures
        health_after(exchange.events()) !is ReadBody,
        health_after(exchange.events()) is Healthy <==> exchange.report() is Some
            && exchange.report()->0.get("ok"@) == Some(JsonView::Bool(true)),
{
    reveal_with_fuel(health_after, 3);
    let events = exchange.events();
    if exchange is Answered {
        assert(events.drop_first()[0] == events[1]);
    }
}

/// What the server reports of its health.
pub open spec fn health_json() -> JsonView {
    JsonView::Object(
        seq![
            ("native"@, JsonView::Bool(true)),
            ("ok"@, JsonView::Bool(true)),
            ("server"@, JsonView::Text(SERVER_NAME@)),
            ("status"@, JsonView::Text("ok"@)),
            ("version"@, JsonView::Text(VERSION@)),
        ],
    )
}

proof fn lemma_health_json_wf()
    ensures
        health_json().wf(),
{
    reveal_strlit("native");
    reveal_strlit("ok");
    reveal_strlit("server");
    reveal_strlit("status");
    reveal_strlit("version");
    lemma_before_by_first("native"@, "ok"@);
    lemma_before_by_first("native"@, "server"@);
    lemma_before_by_first("native"@, "status"@);
    lemma_before_by_first("native"@, "version"@);
    lemma_before_by_first("ok"@, "server"@);
    lemma_before_by_first("ok"@, "status"@);
    lemma_before_by_first("ok"@, "version"@);
    lemma_before_by_second("server"@, "status"@);
    lemma_before_by_first("server"@, "version"@);
    lemma_before_by_first("status"@, "version"@);
    lemma_scalar_wf(JsonView::Bool(true));
    lemma_scalar_wf(JsonView::Text(SERVER_NAME@));
    lemma_scalar_wf(JsonView::Text("ok"@));
    lemma_scalar_wf(JsonView::Text(VERSION@));
    assert(names_ascend(health_json()->Object_0));
}

/// What the server reports of its health.
pub fn health_report() -> (report: Json)
    ensures
        report@ == health_json(),
        report@.wf(),
{
    broadcast use lemma_object_view;

    let members: Vec<(String, Json)> = vec![
        ("native".to_owned(), Json::Bool(true)),
        ("ok".to_owned(), Json::Bool(true)),
        ("server".to_owned(), Json::text(SERVER_NAME)),
        ("status".to_owned(), Json::text("ok")),
        ("version".to_owned(), Json::text(VERSION)),
    ];
    proof {
        lemma_health_json_wf();
        assert(members_view(members@) =~= health_json()->Object_0);
    }
    Json::Object(members)
}

/// The health check accepts what the server reports of its health.
pub proof fn law_own_health_report_is_accepted()
    ensures
        health_step(FetchEventView::Body(health_json())) is Healthy,
{
    reveal_strlit("native");
    reveal_strlit("ok");
    reveal_with_fuel(member_of, 3);
    let members = health_json()->Object_0;
    assert("native"@.len() == 6 && "ok"@.len() == 2);
    assert(members.drop_first()[0] == members[1]);
}

/// What a line of input leads to: the request that it holds, or what is wrong
/// with it.
pub open spec fn line_step(
    server: ServerView,
    parsed: Result<RpcRequestView, Seq<char>>,
    now: int,
) -> StepView {
    match parsed {
        Ok(request) => request_step(server, request, now),
        Err(error) => StepView::Reply(rpc_error(JsonView::Null, PARSE_ERROR, error)),
    }
}

/// What any line of input leads to: nothing, where it is blank.
pub open spec fn input_step(
    server: ServerView,
    line: Seq<char>,
    parsed: Result<RpcRequestView, Seq<char>>,
    now: int,
) -> StepView {
    if is_blank_text(line) {
        StepView::NoReply
    } else {
        line_step(server, parsed, now)
    }
}

/// A line of input is left without a reply exactly if it is blank or holds a
/// request without an id. A request on a line leads to what the same request
/// leads to over HTTP.
pub proof fn law_lines_are_answered_like_requests(
    server: ServerView,
    line: Seq<char>,
    parsed: Result<RpcRequestView, Seq<char>>,
    now: int,
)
    ensures
        input_step(server, line, parsed, now) is NoReply <==> is_blank_text(line) || (parsed is Ok
            && parsed->Ok_0.id is None),
        !is_blank_text(line) && parsed is Ok ==> input_step(server, line, parsed, now)
            == request_step(server, parsed->Ok_0, now),
{
    if parsed is Ok {
        law_only_notifications_get_no_reply(server, parsed->Ok_0, now);
    }
}

/// What came of reading a request, as mathematics.
pub open spec fn request_read(parsed: Result<RpcRequest, String>) -> Result<
    RpcRequestView,
    Seq<char>,
> {
    match parsed {
        Ok(request) => Ok(request@),
        Err(error) => Err(error@),
    }
}

/// What a line of input that is not blank leads to, at the time `now`, in
/// nanoseconds.
pub fn handle_line(server: &Server, parsed: Result<RpcRequest, String>, now: u128) -> (step: Step)
    requires
        server@.wf(),
        parsed is Ok ==> parsed->Ok_0@.wf(),
    ensures
        step@ == line_step(server@, request_read(parsed), now as int),
        forall|code: i64| #[trigger]
            step_reports(step@, code) <==> match parsed {
                Ok(request) => request@.id is Some && request_error(request@) == Some(code),
                Err(_) => code == PARSE_ERROR,
            },
        step@.wf(),
{
    match parsed {
        Ok(request) => handle_request(server, request, now),
        Err(error) => {
            proof {
                lemma_scalar_wf(JsonView::Null);
            }
            Step::Reply(json_rpc_error(Json::Null, PARSE_ERROR, &error))
        },
    }
}

/// What a line of input leads to, at the time `now`, in nanoseconds. `parsed` is
/// what came of reading it as a request.
pub fn answer_line(
    server: &Server,
    line: &str,
    parsed: Result<RpcRequest, String>,
    now: u128,
) -> (step: Step)
    requires
        server@.wf(),
        parsed is Ok ==> parsed->Ok_0@.wf(),
    ensures
        step@ == input_step(server@, line@, request_read(parsed), now as int),
        forall|code: i64| #[trigger]
            step_reports(step@, code) <==> !is_blank_text(line@) && match parsed {
                Ok(request) => request@.id is Some && request_error(request@) == Some(code),
                Err(_) => code == PARSE_ERROR,
            },
        step@.wf(),
{
    if is_blank(line) {
        Step::NoReply
    } else {
        handle_line(server, parsed, now)
    }
}

/// A text as a line of output.
pub fn line_of(text: &str) -> (line: String)
    ensures
        line@ == text@.push('\n'),
{
    let mut line: String = text.to_owned();
    line.push('\n');
    line
}

/// The line of output that holds a reply. A line break ends it and stands
/// nowhere else in it.
pub fn response_line(reply: &Json) -> (line: String)
    requires
        reply@.wf(),
    ensures
        line@ == json_text(reply@).push('\n'),
        forall|i: int| 0 <= i < line@.len() - 1 ==> line@[i] != '\n',
{
    let text: String = reply.to_text();
    assert forall|i: int| 0 <= i < text@.len() implies text@[i] != '\n' by {
        assert(text@.contains(text@[i]));
    }
    line_of(&text)
}

/// The reply where the state of the server cannot be used.
pub fn state_unavailable() -> (reply: Json)
    ensures
        reply@ == rpc_error(JsonView::Null, INTERNAL_ERROR, "MCP server state is unavailable"@),
        forall|code: i64| #[trigger] reports_error(reply@, code) <==> code == INTERNAL_ERROR,
        reply@.wf(),
{
    proof {
        lemma_scalar_wf(JsonView::Null);
    }
    json_rpc_error(Json::Null, INTERNAL_ERROR, "MCP server state is unavailable")
}

/// An HTTP response: its status code and, where it has one, its JSON body.
#[derive(Debug, PartialEq)]
pub struct HttpResponse {
    pub status: u16,
    pub body: Option<String>,
}

impl HttpResponse {
    /// The content type of the body, where there is one.
    pub fn content_type(&self) -> (content_type: Option<&'static str>)
        ensures
            content_type is Some <==> self.body is Some,
            content_type is Some ==> content_type->0@ == "application/json"@,
    {
        match self.body {
            Some(_) => Some("application/json"),
            None => None,
        }
    }
}

/// The HTTP response that carries a reply, or acknowledges that there is none.
pub fn http_response(reply: Option<Json>) -> (response: HttpResponse)
    requires
        reply is Some ==> reply->0@.wf(),
    ensures
        match reply {
            Some(json) => response.status == 200 && held(response.body) == Some(json_text(json@)),
            None => response.status == 202 && response.body is None,
        },
{
    match reply {
        Some(json) => HttpResponse { status: 200, body: Some(json.to_text()) },
        None => HttpResponse { status: 202, body: None },
    }
}

} // verus!
