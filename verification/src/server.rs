//! The usage tool: its cache, and what it answers to a call.
#[allow(unused_imports)]
use crate::config::{env_number, request_for, ConfigView, EnvView, RequestView};
use crate::config::{parse_env_u64, usage_request, EnvValue, UsageConfig, UsageRequest};
use crate::http::{is_success, refusal_of};
#[allow(unused_imports)]
use crate::http::{is_status, refusal_text, status_display, success_status};
use crate::json::Json;
#[allow(unused_imports)]
use crate::json::{lemma_before_by_first, lemma_object3_wf, lemma_scalar_wf, JsonView};
use crate::summary::summarize_usage;
#[allow(unused_imports)]
use crate::summary::{summary_json, summary_of};
#[allow(unused_imports)]
use crate::summary_laws::law_summary_is_well_formed_json;
use crate::text::{joined, same_text};
use vstd::prelude::*;
use vstd::string::*;

verus! {

/// How long a request may take, in seconds, where nothing else is set.
pub const DEFAULT_REQUEST_TIMEOUT_SECONDS: u64 = 10;

/// How long a reply stays in the cache, in seconds, where nothing else is set.
pub const DEFAULT_CACHE_TTL_SECONDS: u64 = 30;

/// The number of nanoseconds in a second.
pub const NANOSECONDS: u128 = 1_000_000_000;

/// A cached reply as mathematics.
pub struct CacheView {
    pub fetched_at: int,
    pub data: JsonView,
}

/// A cached reply, and when it came.
pub struct CacheEntry {
    /// In nanoseconds, on the clock that every call is told the time of.
    pub fetched_at: u128,
    pub data: Json,
}

impl View for CacheEntry {
    type V = CacheView;

    open spec fn view(&self) -> CacheView {
        CacheView { fetched_at: self.fetched_at as int, data: self.data@ }
    }
}

/// The server as mathematics.
pub struct ServerView {
    pub config: ConfigView,
    pub cache_ttl_seconds: nat,
    pub cache: Option<CacheView>,
}

impl ServerView {
    /// What is cached is well-formed.
    pub open spec fn wf(self) -> bool {
        self.cache is Some ==> self.cache->0.data.wf()
    }

    /// The cached reply is younger than the time to live at the time `now`. A
    /// clock that runs backwards does not make it older.
    pub open spec fn is_fresh(self, now: int) -> bool {
        match self.cache {
            Some(entry) => {
                let age = if now >= entry.fetched_at {
                    now - entry.fetched_at
                } else {
                    0
                };
                age < self.cache_ttl_seconds * NANOSECONDS
            },
            None => false,
        }
    }

    /// The server after it received `data` at the time `now`.
    pub open spec fn having_received(self, data: JsonView, now: int) -> ServerView {
        ServerView { cache: Some(CacheView { fetched_at: now, data }), ..self }
    }
}

/// The server: its source of usage and its cache.
pub struct Server {
    pub config: UsageConfig,
    pub cache_ttl_seconds: u64,
    pub cache: Option<CacheEntry>,
}

impl View for Server {
    type V = ServerView;

    open spec fn view(&self) -> ServerView {
        ServerView {
            config: self.config@,
            cache_ttl_seconds: self.cache_ttl_seconds as nat,
            cache: match self.cache {
                Some(entry) => Some(entry@),
                None => None,
            },
        }
    }
}

/// What the usage tool returns: the report and its summary.
pub open spec fn usage_json(data: JsonView, cached: bool) -> JsonView {
    JsonView::Object(
        seq![
            ("cached"@, JsonView::Bool(cached)),
            ("data"@, data),
            ("summary"@, summary_json(summary_of(data))),
        ],
    )
}

/// What the usage tool returns for a well-formed report is well-formed.
pub proof fn lemma_usage_json_wf(data: JsonView, cached: bool)
    requires
        data.wf(),
    ensures
        usage_json(data, cached).wf(),
{
    reveal_strlit("cached");
    reveal_strlit("data");
    reveal_strlit("summary");
    lemma_before_by_first("cached"@, "data"@);
    lemma_before_by_first("cached"@, "summary"@);
    lemma_before_by_first("data"@, "summary"@);
    lemma_scalar_wf(JsonView::Bool(cached));
    law_summary_is_well_formed_json(data);
    lemma_object3_wf(
        "cached"@,
        JsonView::Bool(cached),
        "data"@,
        data,
        "summary"@,
        summary_json(summary_of(data)),
    );
}

/// What the usage tool returns for the report `data`.
pub fn usage_result(data: Json, cached: bool) -> (result: Json)
    ensures
        result@ == usage_json(data@, cached),
        data@.wf() ==> result@.wf(),
{
    proof {
        if data@.wf() {
            lemma_usage_json_wf(data@, cached);
        }
    }
    let summary: Json = summarize_usage(&data).to_json();
    Json::object3("cached", Json::Bool(cached), "data", data, "summary", summary)
}

/// How a tool call goes on, as mathematics.
pub enum CallView {
    Fail(Seq<char>),
    Done(JsonView),
    Fetch(RequestView),
}

/// How a tool call goes on.
#[derive(Debug, PartialEq)]
pub enum CallStep {
    /// The call fails for this reason.
    Fail(String),
    /// The call returns this.
    Done(Json),
    /// The call needs the reply to this request.
    Fetch(UsageRequest),
}

impl View for CallStep {
    type V = CallView;

    open spec fn view(&self) -> CallView {
        match *self {
            CallStep::Fail(error) => CallView::Fail(error@),
            CallStep::Done(result) => CallView::Done(result@),
            CallStep::Fetch(request) => CallView::Fetch(request@),
        }
    }
}

/// How a call of the tool `name` at the time `now` goes on.
pub open spec fn call_step(server: ServerView, name: Seq<char>, now: int) -> CallView {
    if name != "get_usage"@ {
        CallView::Fail("unknown tool: "@ + name)
    } else if server.is_fresh(now) {
        CallView::Done(usage_json(server.cache->0.data, true))
    } else {
        CallView::Fetch(request_for(server.config))
    }
}

/// What happens to the request for usage, as mathematics.
pub enum FetchEventView {
    SendFailed(Seq<char>),
    Status(u16),
    BodyFailed(Seq<char>),
    Body(JsonView),
}

/// What happens to the request for usage.
#[derive(Debug)]
pub enum FetchEvent {
    /// The request could not be sent, or was not answered; the text says why.
    SendFailed(String),
    /// The reply has this status code.
    Status(u16),
    /// The body of the reply is no JSON; the text says why.
    BodyFailed(String),
    /// The body of the reply.
    Body(Json),
}

impl View for FetchEvent {
    type V = FetchEventView;

    open spec fn view(&self) -> FetchEventView {
        match *self {
            FetchEvent::SendFailed(error) => FetchEventView::SendFailed(error@),
            FetchEvent::Status(code) => FetchEventView::Status(code),
            FetchEvent::BodyFailed(error) => FetchEventView::BodyFailed(error@),
            FetchEvent::Body(data) => FetchEventView::Body(data@),
        }
    }
}

impl FetchEventView {
    /// A status code has three digits, and a body is well-formed.
    pub open spec fn wf(self) -> bool {
        match self {
            FetchEventView::Status(code) => is_status(code),
            FetchEventView::Body(data) => data.wf(),
            _ => true,
        }
    }
}

/// How fetching usage goes on, as mathematics.
pub enum FetchView {
    ReadBody,
    Fail(Seq<char>),
    Received(JsonView),
}

/// How fetching usage goes on.
#[derive(Debug, PartialEq)]
pub enum FetchStep {
    /// The body of the reply is to be read.
    ReadBody,
    /// Fetching fails for this reason.
    Fail(String),
    /// The usage report.
    Received(Json),
}

impl View for FetchStep {
    type V = FetchView;

    open spec fn view(&self) -> FetchView {
        match *self {
            FetchStep::ReadBody => FetchView::ReadBody,
            FetchStep::Fail(error) => FetchView::Fail(error@),
            FetchStep::Received(data) => FetchView::Received(data@),
        }
    }
}

/// How fetching usage goes on after an event.
pub open spec fn fetch_step(event: FetchEventView) -> FetchView {
    match event {
        FetchEventView::SendFailed(error) => FetchView::Fail(
            "usage endpoint request failed: "@ + error,
        ),
        FetchEventView::Status(code) => if success_status(code) {
            FetchView::ReadBody
        } else {
            FetchView::Fail(refusal_text("usage endpoint"@, status_display(code)))
        },
        FetchEventView::BodyFailed(error) => FetchView::Fail(
            "usage endpoint returned invalid JSON: "@ + error,
        ),
        FetchEventView::Body(data) => FetchView::Received(data),
    }
}

/// The server after an event: a report goes into the cache, and nothing else
/// changes.
pub open spec fn server_after(server: ServerView, event: FetchEventView, now: int) -> ServerView {
    match event {
        FetchEventView::Body(data) => server.having_received(data, now),
        _ => server,
    }
}

/// The server and the request timeout in seconds that the variables
/// `USAGE_REQUEST_TIMEOUT_SECONDS` and `USAGE_CACHE_TTL_SECONDS` give, or what
/// is wrong with them.
pub open spec fn server_from(config: ConfigView, timeout: EnvView, ttl: EnvView) -> Result<
    (ServerView, u64),
    Seq<char>,
> {
    let complaint = " must be an unsigned integer"@;
    match env_number(
        "USAGE_REQUEST_TIMEOUT_SECONDS"@,
        timeout,
        DEFAULT_REQUEST_TIMEOUT_SECONDS,
        u64::MAX,
        complaint,
    ) {
        Err(error) => Err(error),
        Ok(timeout_seconds) => match env_number(
            "USAGE_CACHE_TTL_SECONDS"@,
            ttl,
            DEFAULT_CACHE_TTL_SECONDS,
            u64::MAX,
            complaint,
        ) {
            Err(error) => Err(error),
            Ok(seconds) => Ok(
                (
                    ServerView { config, cache_ttl_seconds: seconds as nat, cache: None },
                    timeout_seconds,
                ),
            ),
        },
    }
}

impl Server {
    /// The server for `config`, and the request timeout in seconds, from the
    /// variables `USAGE_REQUEST_TIMEOUT_SECONDS` and `USAGE_CACHE_TTL_SECONDS`.
    pub fn from_environment(config: UsageConfig, timeout: &EnvValue, ttl: &EnvValue) -> (outcome:
        Result<(Server, u64), String>)
        ensures
            match outcome {
                Ok((server, seconds)) => Ok((server@, seconds)),
                Err(error) => Err(error@),
            } == server_from(config@, timeout@, ttl@),
            outcome is Ok ==> outcome->Ok_0.0@.wf(),
    {
        let timeout_seconds: u64 = match parse_env_u64(
            "USAGE_REQUEST_TIMEOUT_SECONDS",
            timeout,
            DEFAULT_REQUEST_TIMEOUT_SECONDS,
        ) {
            Ok(seconds) => seconds,
            Err(error) => {
                return Err(error);
            },
        };
        let cache_ttl_seconds: u64 = match parse_env_u64(
            "USAGE_CACHE_TTL_SECONDS",
            ttl,
            DEFAULT_CACHE_TTL_SECONDS,
        ) {
            Ok(seconds) => seconds,
            Err(error) => {
                return Err(error);
            },
        };
        Ok((Server { config, cache_ttl_seconds, cache: None }, timeout_seconds))
    }

    /// The cached report, where it is fresh at the time `now`.
    fn cached_data(&self, now: u128) -> (data: Option<&Json>)
        ensures
            match data {
                Some(json) => self@.is_fresh(now as int) && json@ == self@.cache->0.data,
                None => !self@.is_fresh(now as int),
            },
    {
        match &self.cache {
            Some(entry) => {
                let age: u128 = if now >= entry.fetched_at {
                    now - entry.fetched_at
                } else {
                    0
                };
                if age < self.cache_ttl_seconds as u128 * NANOSECONDS {
                    Some(&entry.data)
                } else {
                    None
                }
            },
            None => None,
        }
    }

    /// How a call of the tool `name` at the time `now`, in nanoseconds, goes on.
    pub fn handle_call(&self, name: &str, now: u128) -> (step: CallStep)
        ensures
            step@ == call_step(self@, name@, now as int),
            self@.wf() && step is Done ==> step->Done_0@.wf(),
    {
        if !same_text(name, "get_usage") {
            return CallStep::Fail(joined("unknown tool: ", name));
        }
        match self.cached_data(now) {
            Some(data) => CallStep::Done(usage_result(data.clone(), true)),
            None => CallStep::Fetch(usage_request(&self.config)),
        }
    }

    /// How fetching usage goes on after an event at the time `now`, in
    /// nanoseconds. A report that was received is cached.
    pub fn fetch_usage(&mut self, event: FetchEvent, now: u128) -> (step: FetchStep)
        requires
            event@.wf(),
        ensures
            step@ == fetch_step(event@),
            final(self)@ == server_after(old(self)@, event@, now as int),
            old(self)@.wf() ==> final(self)@.wf(),
    {
        match event {
            FetchEvent::SendFailed(error) => FetchStep::Fail(
                joined("usage endpoint request failed: ", &error),
            ),
            FetchEvent::Status(code) => if is_success(code) {
                FetchStep::ReadBody
            } else {
                FetchStep::Fail(refusal_of("usage endpoint", code))
            },
            FetchEvent::BodyFailed(error) => FetchStep::Fail(
                joined("usage endpoint returned invalid JSON: ", &error),
            ),
            FetchEvent::Body(data) => {
                self.cache = Some(CacheEntry { fetched_at: now, data: data.clone() });
                FetchStep::Received(data)
            },
        }
    }
}

/// An exchange with the usage endpoint, as mathematics: it does not answer, or
/// it answers with a status code and a body, which reads as JSON or does not.
pub enum ExchangeView {
    Unanswered(Seq<char>),
    Answered { status: u16, body: Result<JsonView, Seq<char>> },
}

impl ExchangeView {
    /// The events of the exchange, in order.
    pub open spec fn events(self) -> Seq<FetchEventView> {
        match self {
            ExchangeView::Unanswered(error) => seq![FetchEventView::SendFailed(error)],
            ExchangeView::Answered { status, body } => seq![
                FetchEventView::Status(status),
                match body {
                    Ok(data) => FetchEventView::Body(data),
                    Err(error) => FetchEventView::BodyFailed(error),
                },
            ],
        }
    }

    /// The report that the exchange delivers: the body of a successful answer,
    /// where it reads as JSON.
    pub open spec fn report(self) -> Option<JsonView> {
        match self {
            ExchangeView::Answered { status, body: Ok(data) } => if success_status(status) {
                Some(data)
            } else {
                None
            },
            _ => None,
        }
    }

    /// What is said of an exchange that delivers no report.
    pub open spec fn complaint(self) -> Seq<char> {
        match self {
            ExchangeView::Unanswered(error) => "usage endpoint request failed: "@ + error,
            ExchangeView::Answered { status, body } => if success_status(status) {
                "usage endpoint returned invalid JSON: "@ + body->Err_0
            } else {
                refusal_text("usage endpoint"@, status_display(status))
            },
        }
    }
}

/// The server, and how fetching usage stands, after events that happen one
/// after the other, each at its time. No event follows one that ends fetching.
pub open spec fn after_events(
    server: ServerView,
    events: Seq<FetchEventView>,
    times: Seq<int>,
) -> (ServerView, FetchView)
    decreases events.len(),
{
    if events.len() == 0 {
        (server, FetchView::ReadBody)
    } else {
        let next = server_after(server, events[0], times[0]);
        match fetch_step(events[0]) {
            FetchView::ReadBody => after_events(next, events.drop_first(), times.drop_first()),
            end => (next, end),
        }
    }
}

/// A whole exchange ends fetching. The report is received and cached exactly if
/// the endpoint answers with success and the body reads as JSON; otherwise
/// fetching fails with the reason, and the server is as it was.
pub proof fn law_exchanges_deliver_or_change_nothing(
    server: ServerView,
    exchange: ExchangeView,
    times: Seq<int>,
)
    requires
        times.len() == exchange.events().len(),
    ensures
        after_events(server, exchange.events(), times) == match exchange.report() {
            Some(data) => (server.having_received(data, times[1]), FetchView::Received(data)),
            None => (server, FetchView::Fail(exchange.complaint())),
        },
{
    reveal_with_fuel(after_events, 3);
    let events = exchange.events();
    if exchange is Answered {
        assert(events.drop_first()[0] == events[1]);
    }
}

/// A report that was received is returned again, as cached and without another
/// request, until the time to live has passed, and is fetched anew after that.
pub proof fn law_replies_are_cached(server: ServerView, data: JsonView, then: int, now: int)
    requires
        then <= now,
    ensures
        call_step(
            server_after(server, FetchEventView::Body(data), then),
            "get_usage"@,
            now,
        ) == if now - then < server.cache_ttl_seconds * NANOSECONDS {
            CallView::Done(usage_json(data, true))
        } else {
            CallView::Fetch(request_for(server.config))
        },
{
}

/// Only a report that was received changes the server: after a failure it
/// answers every call as before.
pub proof fn law_failures_leave_the_server_as_it_was(
    server: ServerView,
    event: FetchEventView,
    then: int,
)
    requires
        fetch_step(event) !is Received,
    ensures
        server_after(server, event, then) == server,
{
}

/// Without a time to live nothing is returned from the cache.
pub proof fn law_no_time_to_live_means_no_cache(server: ServerView, name: Seq<char>, now: int)
    requires
        server.cache_ttl_seconds == 0,
    ensures
        call_step(server, name, now) !is Done,
{
}

/// A server that has received nothing has nothing to return.
pub proof fn law_an_empty_cache_fetches(server: ServerView, now: int)
    requires
        server.cache is None,
    ensures
        call_step(server, "get_usage"@, now) == CallView::Fetch(request_for(server.config)),
{
}

/// Apart from the request that it sends, what a call does depends on the
/// configuration in no way: no result and no error is made from a credential.
pub proof fn law_results_do_not_depend_on_credentials(
    server: ServerView,
    config: ConfigView,
    name: Seq<char>,
    now: int,
)
    ensures
        ({
            let other = ServerView { config, ..server };
            let a = call_step(server, name, now);
            let b = call_step(other, name, now);
            if a is Fetch {
                b is Fetch
            } else {
                a == b
            }
        }),
{
}

} // verus!
