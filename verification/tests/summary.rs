use serde_json::Number;
use usage_mcp_server::json::Json;
use usage_mcp_server::summary::{summarize_usage, Metric, UsageSummary};

fn number(n: u64) -> Json {
    Json::Num(Number::from(n))
}

fn object(members: Vec<(&str, Json)>) -> Json {
    Json::Object(
        members
            .into_iter()
            .map(|(name, value)| (name.to_owned(), value))
            .collect(),
    )
}

fn metrics<'a>(summary: &'a UsageSummary, period: &str) -> &'a Vec<Metric> {
    summary.get(period).unwrap()
}

fn metric(name: &str, value: Json, path: &str) -> Metric {
    Metric {
        metric: name.to_owned(),
        value,
        path: path.to_owned(),
    }
}

#[test]
fn summarizes_nested_weekly_and_monthly_values() {
    let data = object(vec![
        ("account", object(vec![("requests", number(3))])),
        (
            "usage",
            object(vec![
                ("monthly", object(vec![("token_limit", number(1000))])),
                (
                    "weekly",
                    object(vec![
                        ("credits_remaining", number(8)),
                        ("tokens_used", number(12)),
                    ]),
                ),
            ]),
        ),
    ]);

    let summary = summarize_usage(&data);
    assert_eq!(metrics(&summary, "weekly").len(), 2);
    assert_eq!(metrics(&summary, "monthly")[0].metric, "tokens_limit");
    assert_eq!(metrics(&summary, "other")[0].metric, "requests_value");
}

#[test]
fn ignores_non_usage_values() {
    let summary = summarize_usage(&object(vec![(
        "week",
        object(vec![("status", Json::text("ok"))]),
    )]));
    assert!(summary.is_empty());
}

#[test]
fn summarizes_codex_primary_rate_limit_window() {
    let summary = summarize_usage(&object(vec![(
        "rate_limit",
        object(vec![(
            "primary_window",
            object(vec![
                ("limit_reached", Json::Bool(false)),
                ("limit_window_seconds", number(604800)),
                ("reset_after_seconds", number(123)),
                ("reset_at", number(1790443131)),
                ("used_percent", number(7)),
            ]),
        )]),
    )]));

    let weekly = metrics(&summary, "weekly");
    assert_eq!(weekly.len(), 5);
    for metric in [
        "used_percent",
        "limit_window_seconds",
        "reset_after_seconds",
        "reset_at",
        "limit_reached",
    ] {
        assert!(weekly.iter().any(|entry| entry.metric == metric));
    }
}

#[test]
fn metrics_keep_their_value_path_and_order() {
    let data = Json::parse(
        "{\"items\":[{\"tokens\":1},[{\"week\":{\"credits_used\":\"two\"}}]],\
          \"tokens\":{\"used\":3,\"tokens_used\":null},\"z_requests_left\":4,\"requests\":false}",
    )
    .unwrap();
    let summary = summarize_usage(&data);
    assert_eq!(
        summary,
        UsageSummary {
            periods: vec![
                (
                    "other".to_owned(),
                    vec![
                        metric("tokens_value", number(1), "items[0].tokens"),
                        metric("requests_value", Json::Bool(false), "requests"),
                        metric("tokens_used", Json::Null, "tokens.tokens_used"),
                    ]
                ),
                (
                    "weekly".to_owned(),
                    vec![metric(
                        "credits_used",
                        Json::text("two"),
                        "items[1][0].week.credits_used"
                    )]
                ),
            ]
        }
    );
    assert_eq!(summary.get("monthly"), None);
}

#[test]
fn usage_metrics_below_a_primary_window_keep_their_own_period() {
    let data = Json::parse(
        "{\"primary_window\":{\"tokens_used\":1,\"used_percent\":[2],\"reset_at\":3}}",
    )
    .unwrap();
    let summary = summarize_usage(&data);
    assert_eq!(
        metrics(&summary, "other"),
        &vec![metric("tokens_used", number(1), "primary_window.tokens_used")]
    );
    assert_eq!(
        metrics(&summary, "weekly"),
        &vec![metric("reset_at", number(3), "primary_window.reset_at")]
    );
}

#[test]
fn everything_below_a_weekly_path_is_weekly() {
    let data = Json::parse(
        "{\"Weekly\":{\"month\":{\"tokens\":1},\"list\":[{\"credits\":2}],\"requests\":3}}",
    )
    .unwrap();
    let summary = summarize_usage(&data);
    assert_eq!(summary.periods.len(), 1);
    assert_eq!(metrics(&summary, "weekly").len(), 3);
}

#[test]
fn a_weekly_wrapper_keeps_the_metrics() {
    for text in [
        "{\"month\":{\"tokens\":1},\"list\":[{\"credits\":2}],\"requests\":3}",
        "{\"\":{\"tokens\":1},\"primary_window\":{\"reset_at\":2,\"tokens_used\":3}}",
        "[{\"primary\":{\"window\":{\"reset_at\":2}}},{\"reset_at\":4}]",
        "5",
    ] {
        let data = Json::parse(text).unwrap();
        let plain: usize = summarize_usage(&data).periods.iter().map(|entry| entry.1.len()).sum();
        let wrapped = summarize_usage(&Json::object1("weekly", data));
        assert_eq!(wrapped.get("weekly").map_or(0, Vec::len), plain);
        assert!(wrapped.get("monthly").is_none() && wrapped.get("other").is_none());
    }
}

#[test]
fn an_empty_key_at_the_top_keeps_the_path_empty() {
    let data = Json::parse("{\"\":{\"tokens\":1}}").unwrap();
    let summary = summarize_usage(&data);
    assert_eq!(metrics(&summary, "other")[0].path, "tokens");
}

#[test]
fn scalar_reports_have_no_metrics() {
    for text in ["null", "true", "5", "\"tokens_used\"", "[]", "{}"] {
        assert!(summarize_usage(&Json::parse(text).unwrap()).is_empty());
    }
}

#[test]
fn summaries_are_json_objects_of_the_periods() {
    let data = Json::parse("{\"week\":{\"tokens\":1},\"month\":{\"credits\":[],\"requests\":2}}")
        .unwrap();
    assert_eq!(
        summarize_usage(&data).to_json().to_text(),
        "{\"monthly\":[{\"metric\":\"requests_value\",\"path\":\"month.requests\",\"value\":2}],\
          \"weekly\":[{\"metric\":\"tokens_value\",\"path\":\"week.tokens\",\"value\":1}]}"
    );
}
