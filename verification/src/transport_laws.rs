//! What holds of arguments, addresses, lines and responses.
#![allow(unused_imports)]
use crate::codec::json_text;
use crate::config::EnvValue;
use crate::http::status_reason;
use crate::json::{member_of, Json, JsonView};
use crate::reply_laws::{has_members, law_refusals_hold_code_and_message, refuses};
use crate::rpc::{handle_request, lemma_error_members, rpc_error, RpcRequest, Step};
use crate::server::{FetchEvent, Server};
use crate::text::{decimal, is_blank_text, law_numeral_reads_back, unsigned_value};
use crate::transport::{
    answer_line, handle_line, health_json, health_report, healthcheck_url, http_response, line_of,
    listen_address, response_line, run_healthcheck, state_unavailable, transport_asked,
    transport_from_environment_and_args, transport_kind, wants_healthcheck, words, HealthStep,
    HttpResponse, TransportKind,
};
use vstd::prelude::*;

verus! {

/// A health check is asked for exactly if one of the arguments is
/// `--healthcheck`.
pub proof fn law_health_checks_are_asked_for(args: Vec<String>, wanted: bool)
    requires
        call_ensures(wants_healthcheck, (&args,), wanted),
    ensures
        wanted <==> exists|i: int|
            0 <= i < args@.len() && (#[trigger] args@[i])@ == "--healthcheck"@,
{
    if wanted {
        let i = choose|i: int| 0 <= i < words(args@).len() && words(args@)[i] == "--healthcheck"@;
        assert(args@[i]@ == "--healthcheck"@);
    }
    if exists|i: int| 0 <= i < args@.len() && (#[trigger] args@[i])@ == "--healthcheck"@ {
        let i = choose|i: int| 0 <= i < args@.len() && (#[trigger] args@[i])@ == "--healthcheck"@;
        assert(words(args@)[i] == "--healthcheck"@);
    }
}

/// `--transport` and a name replace the transport, a last `--transport` without a
/// name does nothing, and every other argument is passed over.
pub proof fn law_arguments_are_taken_in_order(
    name: Seq<char>,
    other: Seq<char>,
    rest: Seq<Seq<char>>,
    current: Seq<char>,
)
    ensures
        transport_asked(Seq::empty(), current) == current,
        transport_asked(seq!["--transport"@], current) == current,
        transport_asked(seq!["--transport"@, name] + rest, current) == transport_asked(rest, name),
        other != "--transport"@ ==> transport_asked(seq![other] + rest, current)
            == transport_asked(rest, current),
{
    assert((seq!["--transport"@, name] + rest).skip(2) =~= rest);
    assert((seq![other] + rest).skip(1) =~= rest);
}

/// The transport is what the arguments ask for, starting from the environment, or
/// from standard input and output where it is silent.
pub proof fn law_the_transport_is_chosen(var: Option<String>, args: Vec<String>, transport: String)
    requires
        call_ensures(transport_from_environment_and_args, (var, &args), transport),
    ensures
        ({
            let asked = Seq::new(args@.len(), |i: int| args@[i]@);
            &&& var matches Some(value) ==> transport@ == transport_asked(asked, value@)
            &&& var is None ==> transport@ == transport_asked(asked, "stdio"@)
            &&& (forall|i: int|
                0 <= i < args@.len() ==> (#[trigger] args@[i])@ != "--transport"@) ==> transport@
                == match var {
                Some(value) => value@,
                None => "stdio"@,
            }
        }),
{
    let asked = Seq::new(args@.len(), |i: int| args@[i]@);
    assert(words(args@) =~= asked);
    if forall|i: int| 0 <= i < args@.len() ==> (#[trigger] args@[i])@ != "--transport"@ {
        assert(!asked.contains("--transport"@)) by {
            if asked.contains("--transport"@) {
                let i = choose|i: int| 0 <= i < asked.len() && asked[i] == "--transport"@;
                assert(args@[i]@ == "--transport"@);
            }
        }
        crate::transport::law_other_arguments_keep_the_transport(
            asked,
            match var {
                Some(value) => value@,
                None => "stdio"@,
            },
        );
    }
}

/// Three names are known; every other one is refused by itself.
pub proof fn law_transports_are_known_by_name(name: &str, kind: Result<TransportKind, String>)
    requires
        call_ensures(transport_kind, (name,), kind),
    ensures
        name@ == "stdio"@ ==> kind is Ok && kind->Ok_0 == TransportKind::Stdio,
        name@ == "http"@ || name@ == "streamable-http"@ ==> kind is Ok && kind->Ok_0
            == TransportKind::Http,
        name@ != "stdio"@ && name@ != "http"@ && name@ != "streamable-http"@ ==> kind is Err
            && kind->Err_0@ == "unsupported MCP transport: "@ + name@,
{
    reveal_strlit("stdio");
    reveal_strlit("http");
    reveal_strlit("streamable-http");
    assert("stdio"@.len() == 5 && "http"@.len() == 4 && "streamable-http"@.len() == 15);
}

/// The port that the variable `PORT` denotes is `n`.
pub open spec fn denotes_port(port: EnvValue, n: nat) -> bool {
    &&& n <= 65535
    &&& match port {
        EnvValue::Holds(text) => text@ == decimal(n) || unsigned_value(text@) == Some(n),
        EnvValue::Absent => n == 8000,
        EnvValue::NotUnicode => false,
    }
}

/// The server listens on the host and the port that are set, or on port 8000 of
/// the machine itself, and a health check asks the address that is set, or the
/// machine itself at that port. Either is refused where the port is no number of
/// 16 bits.
pub proof fn law_addresses(
    host: Option<String>,
    port: EnvValue,
    url: Option<String>,
    n: nat,
    address: Result<String, String>,
    check: Result<String, String>,
)
    requires
        call_ensures(listen_address, (host, &port), address),
        call_ensures(healthcheck_url, (&port, url), check),
    ensures
        denotes_port(port, n) ==> address is Ok && address->Ok_0@ == (if host is Some {
            host->0@
        } else {
            "127.0.0.1"@
        }) + ":"@ + decimal(n),
        denotes_port(port, n) ==> check is Ok && check->Ok_0@ == if url is Some {
            url->0@
        } else {
            "http://127.0.0.1:"@ + decimal(n) + "/mcp/healthz"@
        },
        port is NotUnicode ==> address is Err && check is Err && address->Err_0@
            == "PORT"@ + " is not valid UTF-8"@ && check->Err_0@ == address->Err_0@,
        port is Holds && (match unsigned_value(port->Holds_0@) {
            Some(number) => number > 65535,
            None => true,
        }) ==> address is Err && check is Err && address->Err_0@
            == "PORT"@ + " must be an unsigned 16-bit integer"@ && check->Err_0@
            == address->Err_0@,
{
    law_numeral_reads_back(n);
}

/// A health check goes on only after a status from 200 to 299, is passed only by
/// a report whose `ok` is `true`, and says otherwise what is wrong.
pub proof fn law_health_checks_follow_the_events(event: FetchEvent, step: HealthStep)
    requires
        call_ensures(run_healthcheck, (event,), step),
    ensures
        match event {
            FetchEvent::SendFailed(error) => step is Unhealthy && step->Unhealthy_0@
                == "healthcheck request failed: "@ + error@,
            FetchEvent::Status(code) => if 200 <= code <= 299 {
                step is ReadBody
            } else {
                step is Unhealthy && step->Unhealthy_0@ == "healthcheck"@ + " returned HTTP "@ + (
                decimal(code as nat) + " "@ + status_reason(code))
            },
            FetchEvent::BodyFailed(error) => step is Unhealthy && step->Unhealthy_0@
                == "healthcheck returned invalid JSON: "@ + error@,
            FetchEvent::Body(report) => if report@.get("ok"@) == Some(JsonView::Bool(true)) {
                step is Healthy
            } else {
                step is Unhealthy && step->Unhealthy_0@ == "healthcheck report is not ok"@
            },
        },
{
}

/// The server reports that it is well, and its name and version.
pub proof fn law_the_health_report_is_whole(report: Json)
    requires
        call_ensures(health_report, (), report),
    ensures
        has_members(report@, 5),
        report@.get("ok"@) == Some(JsonView::Bool(true)),
        report@.get("native"@) == Some(JsonView::Bool(true)),
        report@.get("status"@) == Some(JsonView::Text("ok"@)),
        report@.get("server"@) == Some(JsonView::Text("usage-mcp-server"@)),
        report@.get("version"@) == Some(JsonView::Text("0.1.0"@)),
{
    reveal_strlit("native");
    reveal_strlit("ok");
    reveal_strlit("server");
    reveal_strlit("status");
    reveal_strlit("version");
    reveal_with_fuel(member_of, 6);
    assert("native"@[0] == 'n' && "ok"@[0] == 'o' && "server"@[1] == 'e' && "status"@[1] == 't');
    assert("server"@[0] == 's' && "status"@[0] == 's' && "version"@[0] == 'v');
    let members = health_json()->Object_0;
    assert(members.drop_first()[0] == members[1]);
    assert(members.drop_first().drop_first()[0] == members[2]);
    assert(members.drop_first().drop_first().drop_first()[0] == members[3]);
    assert(members.drop_first().drop_first().drop_first().drop_first()[0] == members[4]);
}

/// A blank line leads to nothing. Any other line leads to what the request on it
/// leads to, or is refused in the words of the reader where it holds none.
pub proof fn law_lines_are_answered(
    server: Server,
    line: &str,
    parsed: Result<RpcRequest, String>,
    now: u128,
    step: Step,
    direct: Step,
)
    requires
        call_ensures(answer_line, (&server, line, parsed, now), step),
        parsed is Ok ==> call_ensures(handle_request, (&server, parsed->Ok_0, now), direct),
    ensures
        is_blank_text(line@) ==> step is NoReply,
        !is_blank_text(line@) && parsed is Ok ==> step@ == direct@,
        !is_blank_text(line@) && parsed is Err ==> step is Reply && refuses(
            step->Reply_0@,
            JsonView::Null,
            -32700i64,
            parsed->Err_0@,
        ),
{
    if parsed is Err {
        law_refusals_hold_code_and_message(JsonView::Null, -32700i64, parsed->Err_0@);
    }
}

/// A line that is no request is refused in the words of the reader, and one that
/// is leads to what the request leads to.
pub proof fn law_read_lines_are_answered(
    server: Server,
    parsed: Result<RpcRequest, String>,
    now: u128,
    step: Step,
    direct: Step,
)
    requires
        call_ensures(handle_line, (&server, parsed, now), step),
        parsed is Ok ==> call_ensures(handle_request, (&server, parsed->Ok_0, now), direct),
    ensures
        parsed is Ok ==> step@ == direct@,
        parsed is Err ==> step is Reply && refuses(
            step->Reply_0@,
            JsonView::Null,
            -32700i64,
            parsed->Err_0@,
        ),
{
    if parsed is Err {
        law_refusals_hold_code_and_message(JsonView::Null, -32700i64, parsed->Err_0@);
    }
}

/// A reply is written as the whole of its JSON text and a line break, which is
/// the only one.
pub proof fn law_replies_are_lines(reply: Json, line: String, text: &str, other: String)
    requires
        call_ensures(response_line, (&reply,), line),
        call_ensures(line_of, (text,), other),
    ensures
        line@ == json_text(reply@) + seq!['\n'],
        forall|i: int| 0 <= i < line@.len() - 1 ==> line@[i] != '\n',
        other@ == text@ + seq!['\n'],
{
    assert(line@ =~= json_text(reply@) + seq!['\n']);
    assert(other@ =~= text@ + seq!['\n']);
}

/// A reply is sent with status 200 and the whole of its JSON text, as JSON; where
/// there is none, status 202 is sent and no body.
pub proof fn law_responses_carry_the_reply(
    reply: Option<Json>,
    response: HttpResponse,
    content_type: Option<&'static str>,
)
    requires
        call_ensures(http_response, (reply,), response),
        call_ensures(HttpResponse::content_type, (&response,), content_type),
    ensures
        reply matches Some(json) ==> {
            &&& response.status == 200
            &&& response.body is Some
            &&& response.body->0@ == json_text(json@)
            &&& content_type is Some
            &&& content_type->0@ == "application/json"@
        },
        reply is None ==> response.status == 202 && response.body is None && content_type is None,
{
}

/// Where the state of the server cannot be used, the reply says so.
pub proof fn law_unusable_state_is_told(reply: Json)
    requires
        call_ensures(state_unavailable, (), reply),
    ensures
        refuses(reply@, JsonView::Null, -32603i64, "MCP server state is unavailable"@),
{
    law_refusals_hold_code_and_message(
        JsonView::Null,
        -32603i64,
        "MCP server state is unavailable"@,
    );
}

} // verus!
