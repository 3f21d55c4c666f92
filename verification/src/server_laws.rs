//! What holds of the cache and of every call of the tool.
#![allow(unused_imports)]
use crate::config::{request_for, ConfigView, EnvValue, UsageConfig};
use crate::http::{is_success, refusal_of, status_reason, success_status};
use crate::json::{member_of, Json, JsonView};
use crate::server::{
    call_step, fetch_step, server_after, usage_json, usage_result, CallStep, CallView,
    FetchEvent, FetchEventView, FetchStep, FetchView, Server, ServerView,
};
use crate::summary::{summary_json, summary_of};
use crate::text::{decimal, law_numeral_reads_back, unsigned_value};
use vstd::prelude::*;

verus! {

/// A server has the time to live and the timeout that the variables denote, and
/// 30 and 10 seconds where they are absent. It has the configuration that it is
/// given and starts with an empty cache.
pub proof fn law_settings_take_effect(
    config: UsageConfig,
    timeout: EnvValue,
    ttl: EnvValue,
    m: nat,
    n: nat,
    outcome: Result<(Server, u64), String>,
)
    requires
        call_ensures(Server::from_environment, (config, &timeout, &ttl), outcome),
        m <= u64::MAX,
        n <= u64::MAX,
        match timeout {
            EnvValue::Holds(text) => text@ == decimal(m) || unsigned_value(text@) == Some(m),
            EnvValue::Absent => m == 10,
            EnvValue::NotUnicode => false,
        },
        match ttl {
            EnvValue::Holds(text) => text@ == decimal(n) || unsigned_value(text@) == Some(n),
            EnvValue::Absent => n == 30,
            EnvValue::NotUnicode => false,
        },
    ensures
        outcome is Ok,
        outcome->Ok_0.0.cache_ttl_seconds == n,
        outcome->Ok_0.1 == m,
        outcome->Ok_0.0.config@ == config@,
        outcome->Ok_0.0.cache is None,
{
    law_numeral_reads_back(m);
    law_numeral_reads_back(n);
    assert(outcome->Ok_0.0@.cache is None);
}

/// A variable that denotes no number of 64 bits is refused by its name, the
/// timeout before the time to live.
pub proof fn law_settings_are_refused_by_name(
    config: UsageConfig,
    timeout: EnvValue,
    ttl: EnvValue,
    outcome: Result<(Server, u64), String>,
)
    requires
        call_ensures(Server::from_environment, (config, &timeout, &ttl), outcome),
    ensures
        ({
            let odd = |var: EnvValue|
                var is Holds && match unsigned_value(var->Holds_0@) {
                    Some(n) => n > u64::MAX,
                    None => true,
                };
            let first = timeout is NotUnicode || odd(timeout);
            &&& outcome is Err <==> first || ttl is NotUnicode || odd(ttl)
            &&& timeout is NotUnicode ==> outcome->Err_0@
                == "USAGE_REQUEST_TIMEOUT_SECONDS"@ + " is not valid UTF-8"@
            &&& odd(timeout) ==> outcome->Err_0@ == "USAGE_REQUEST_TIMEOUT_SECONDS"@
                + " must be an unsigned integer"@
            &&& !first && ttl is NotUnicode ==> outcome->Err_0@ == "USAGE_CACHE_TTL_SECONDS"@
                + " is not valid UTF-8"@
            &&& !first && odd(ttl) ==> outcome->Err_0@ == "USAGE_CACHE_TTL_SECONDS"@
                + " must be an unsigned integer"@
        }),
{
}

/// What a tool call returns for a report holds the whole report, its summary and
/// whether it comes from the cache, and nothing else.
pub open spec fn is_usage_result(result: JsonView, data: JsonView, cached: bool) -> bool {
    &&& result is Object
    &&& result->Object_0.len() == 3
    &&& result.get("data"@) == Some(data)
    &&& result.get("summary"@) == Some(summary_json(summary_of(data)))
    &&& result.get("cached"@) == Some(JsonView::Bool(cached))
}

/// Results hold the whole report.
pub proof fn law_results_hold_the_whole_report(data: JsonView, cached: bool)
    ensures
        is_usage_result(usage_json(data, cached), data, cached),
{
    crate::rpc_laws::law_results_hold_the_complete_report(data, cached);
}

/// Results hold the whole report.
pub proof fn law_made_results_hold_the_whole_report(data: Json, cached: bool, result: Json)
    requires
        call_ensures(usage_result, (data, cached), result),
    ensures
        is_usage_result(result@, data@, cached),
{
    law_results_hold_the_whole_report(data@, cached);
}

/// A call of the usage tool returns the cached report exactly as long as it is
/// younger than the time to live, at the nanosecond, and asks the endpoint for
/// another one otherwise. A clock that runs backwards makes no report older. A
/// call of any other tool fails by its name.
pub proof fn law_calls_follow_the_clock(server: Server, name: &str, now: u128, step: CallStep)
    requires
        call_ensures(Server::handle_call, (&server, name, now), step),
    ensures
        name@ != "get_usage"@ ==> step is Fail && step->Fail_0@ == "unknown tool: "@ + name@,
        name@ == "get_usage"@ ==> match server.cache {
            Some(entry) => if server.cache_ttl_seconds > 0 && now < entry.fetched_at
                + server.cache_ttl_seconds * 1_000_000_000 {
                step is Done && is_usage_result(step->Done_0@, entry.data@, true)
            } else {
                step is Fetch && step->Fetch_0@ == request_for(server.config@)
            },
            None => step is Fetch && step->Fetch_0@ == request_for(server.config@),
        },
{
    if server.cache is Some {
        law_results_hold_the_whole_report(server.cache->0.data@, true);
    }
}

/// A server whose time to live is set to `n` seconds returns a report that it
/// received at the time `then` from the cache at every time before `then` plus
/// `n` seconds, and at no later time.
pub proof fn law_the_time_to_live_is_kept(
    config: UsageConfig,
    timeout: EnvValue,
    text: String,
    n: nat,
    outcome: Result<(Server, u64), String>,
    data: JsonView,
    then: int,
    later: Server,
    now: u128,
    step: CallStep,
)
    requires
        call_ensures(
            Server::from_environment,
            (config, &timeout, &EnvValue::Holds(text)),
            outcome,
        ),
        outcome is Ok,
        text@ == decimal(n),
        later@ == server_after(outcome->Ok_0.0@, FetchEventView::Body(data), then),
        then <= now,
        call_ensures(Server::handle_call, (&later, "get_usage", now), step),
    ensures
        now < then + n * 1_000_000_000 ==> step is Done && is_usage_result(
            step->Done_0@,
            data,
            true,
        ),
        now >= then + n * 1_000_000_000 ==> step is Fetch,
{
    law_numeral_reads_back(n);
    law_results_hold_the_whole_report(data, true);
    assert(later.cache is Some);
}

/// A status reports success exactly if it lies between 200 and 299, and what is
/// said of another one holds the peer, the code and its reason phrase.
pub proof fn law_statuses(code: u16, peer: &str, success: bool, text: String)
    requires
        call_ensures(is_success, (code,), success),
        call_ensures(refusal_of, (peer, code), text),
    ensures
        success <==> 200 <= code <= 299,
        text@ == peer@ + " returned HTTP "@ + (decimal(code as nat) + " "@ + status_reason(code)),
{
}

/// Each event leads to its own outcome: the body of the reply is read exactly
/// after a status from 200 to 299, the report that is received is the body, and
/// every failure says what happened.
pub proof fn law_fetching_follows_the_events(event: FetchEventView)
    ensures
        match event {
            FetchEventView::SendFailed(error) => fetch_step(event) == FetchView::Fail(
                "usage endpoint request failed: "@ + error,
            ),
            FetchEventView::Status(code) => if 200 <= code <= 299 {
                fetch_step(event) is ReadBody
            } else {
                fetch_step(event) == FetchView::Fail(
                    "usage endpoint"@ + " returned HTTP "@ + (decimal(code as nat) + " "@
                        + status_reason(code)),
                )
            },
            FetchEventView::BodyFailed(error) => fetch_step(event) == FetchView::Fail(
                "usage endpoint returned invalid JSON: "@ + error,
            ),
            FetchEventView::Body(data) => fetch_step(event) == FetchView::Received(data),
        },
{
}

/// Fetching tells what each event leads to, caches a body whole with its time,
/// and leaves everything else of the server as it was.
pub proof fn law_fetched_reports_are_cached(
    server: &mut Server,
    event: FetchEvent,
    now: u128,
    step: FetchStep,
)
    requires
        call_ensures(Server::fetch_usage, (server, event, now), step),
    ensures
        final(server).config@ == old(server).config@,
        final(server).cache_ttl_seconds == old(server).cache_ttl_seconds,
        !(event is Body) ==> final(server)@.cache == old(server)@.cache,
        match event {
            FetchEvent::SendFailed(error) => step is Fail && step->Fail_0@
                == "usage endpoint request failed: "@ + error@,
            FetchEvent::Status(code) => if 200 <= code <= 299 {
                step is ReadBody
            } else {
                step is Fail && step->Fail_0@ == "usage endpoint"@ + " returned HTTP "@ + (decimal(
                    code as nat,
                ) + " "@ + status_reason(code))
            },
            FetchEvent::BodyFailed(error) => step is Fail && step->Fail_0@
                == "usage endpoint returned invalid JSON: "@ + error@,
            FetchEvent::Body(data) => {
                &&& step is Received
                &&& step->Received_0@ == data@
                &&& final(server).cache is Some
                &&& final(server).cache->0.fetched_at == now
                &&& final(server).cache->0.data@ == data@
            },
        },
{
    assert(final(server)@.cache_ttl_seconds == old(server)@.cache_ttl_seconds);
    assert(event is Body ==> final(server)@.cache is Some);
}

/// A body that is received is cached whole, with its time; no other event
/// changes the cache, and none changes the configuration or the time to live.
pub proof fn law_only_bodies_change_the_cache(server: ServerView, event: FetchEventView, now: int)
    ensures
        ({
            let after = server_after(server, event, now);
            &&& after.config == server.config
            &&& after.cache_ttl_seconds == server.cache_ttl_seconds
            &&& match event {
                FetchEventView::Body(data) => after.cache is Some && after.cache->0.data == data
                    && after.cache->0.fetched_at == now,
                _ => after.cache == server.cache,
            }
        }),
{
}

} // verus!
