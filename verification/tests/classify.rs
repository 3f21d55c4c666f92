use usage_mcp_server::classify::{
    is_rate_limit_metric, is_usage_metric, metric_name, normalized, period_for_path,
};

#[test]
fn normal_forms_keep_letters_and_digits_in_lower_case() {
    assert_eq!(normalized("Tokens_Used-7 Day\u{e9}"), "tokensused7day");
    assert_eq!(normalized(""), "");
    assert_eq!(normalized("AZaz09@[`{/:"), "azaz09");
    for c in '\0'..=char::MAX {
        let expected: String = c
            .to_string()
            .chars()
            .filter(char::is_ascii_alphanumeric)
            .flat_map(char::to_lowercase)
            .collect();
        assert_eq!(normalized(&c.to_string()), expected);
    }
}

#[test]
fn normal_forms_are_stable_and_split() {
    let form = normalized("Primary_Window.Used%");
    assert_eq!(normalized(&form), form);
    assert_eq!(
        normalized("Primary_Window.Used%"),
        format!("{}{}", normalized("Primary_Window"), normalized(".Used%"))
    );
    assert_eq!(normalized("used_percent"), normalized("USED-percent"));
}

#[test]
fn usage_keys_name_a_unit_and_an_amount() {
    for key in [
        "tokens_used",
        "credits-remaining",
        "availableRequests",
        "TOKEN LIMIT",
        "request_quota",
        "tokens",
        "Credits",
        "requests",
    ] {
        assert!(is_usage_metric(key), "{key}");
    }
    for key in ["token", "my_tokens", "used", "limit_reached", "status", ""] {
        assert!(!is_usage_metric(key), "{key}");
    }
}

#[test]
fn rate_limit_keys_stand_below_a_primary_window() {
    for key in [
        "used_percent",
        "limit_window_seconds",
        "reset_after_seconds",
        "reset_at",
        "limit_reached",
    ] {
        assert!(is_rate_limit_metric(key, "rate_limit.primary_window"), "{key}");
        assert!(!is_rate_limit_metric(key, "rate_limit.secondary_window"), "{key}");
    }
    assert!(!is_rate_limit_metric("allowed", "rate_limit.primary_window"));
}

#[test]
fn metrics_are_named_by_unit_and_qualifier() {
    assert_eq!(metric_name("tokens_used"), "tokens_used");
    assert_eq!(metric_name("credit_available"), "credits_remaining");
    assert_eq!(metric_name("requestsRemainingLimit"), "requests_remaining");
    assert_eq!(metric_name("token_quota"), "tokens_limit");
    assert_eq!(metric_name("requests"), "requests_value");
    assert_eq!(metric_name("request_credits"), "credits_value");
    assert_eq!(metric_name("a"), "tokens_value");
}

#[test]
fn names_of_metrics_are_stable() {
    for unit in ["credits", "requests", "tokens"] {
        for qualifier in ["remaining", "limit", "used", "value"] {
            let name = format!("{unit}_{qualifier}");
            assert_eq!(metric_name(&name), name);
        }
    }
    for key in ["request_credits", "availableRequests", "a"] {
        assert_eq!(metric_name(&metric_name(key)), metric_name(key));
    }
}

#[test]
fn plain_keys_are_values() {
    for key in ["tokens", "Credits", "re-quests"] {
        assert!(is_usage_metric(key) && metric_name(key).ends_with("_value"), "{key}");
    }
    for key in ["tokens_used", "credit_quota", "requests available"] {
        assert!(is_usage_metric(key) && !metric_name(key).ends_with("_value"), "{key}");
    }
}

#[test]
fn no_key_is_a_usage_and_a_rate_limit_metric() {
    for key in [
        "used_percent",
        "limit_window_seconds",
        "reset_after_seconds",
        "reset_at",
        "limit_reached",
    ] {
        assert!(!is_usage_metric(key), "{key}");
    }
    for key in ["tokens_used", "credit_limit", "requests"] {
        assert!(!is_rate_limit_metric(key, "primary_window"), "{key}");
    }
}

#[test]
fn periods_are_inherited() {
    for path in ["week", "a.week", "week.b", "a.week.b", "month.week.b"] {
        assert_eq!(period_for_path(path), "weekly");
    }
    for path in ["a.month", "month.b", "a.month.b"] {
        assert_eq!(period_for_path(path), "monthly");
    }
}

#[test]
fn periods_follow_from_the_path() {
    assert_eq!(period_for_path("usage.weekly.tokens"), "weekly");
    assert_eq!(period_for_path("usage.7_days"), "weekly");
    assert_eq!(period_for_path("usage.seven-day"), "weekly");
    assert_eq!(period_for_path("usage.Month"), "monthly");
    assert_eq!(period_for_path("usage.30 days"), "monthly");
    assert_eq!(period_for_path("usage.thirty_day"), "monthly");
    assert_eq!(period_for_path("month.week"), "weekly");
    assert_eq!(period_for_path("account"), "other");
    assert_eq!(period_for_path("month.of.tokens"), "monthly");
    assert_eq!(period_for_path("week.of.tokens"), "weekly");
}
