use serde_json::{Number, Value};
use usage_mcp_server::json::{is_scalar, Json};

#[test]
fn json_texts_are_read_with_members_in_order() {
    let json = Json::parse("{\"b\": [null, true, -3], \"a\": \"x\\ny\"}").unwrap();
    assert_eq!(
        json,
        Json::Object(vec![
            ("a".to_owned(), Json::text("x\ny")),
            (
                "b".to_owned(),
                Json::Array(vec![Json::Null, Json::Bool(true), Json::integer(-3)])
            ),
        ])
    );
}

#[test]
fn json_texts_are_written_on_one_line() {
    let json = Json::object2("n", Json::Num(Number::from(604800)), "s", Json::text("a\n\"b\""));
    assert_eq!(json.to_text(), "{\"n\":604800,\"s\":\"a\\n\\\"b\\\"\"}");
    assert_eq!(Json::array1(Json::empty_object()).to_text(), "[{}]");
    assert_eq!(Json::integer(-32601).to_text(), "-32601");
}

#[test]
fn invalid_json_texts_are_refused_with_a_reason() {
    let error = Json::parse("{").unwrap_err();
    let expected = serde_json::from_str::<Value>("{").unwrap_err().to_string();
    assert_eq!(error, expected);
    assert!(Json::parse("").is_err());
}

#[test]
fn values_are_taken_over_as_they_are() {
    let value: Value = serde_json::from_str("{\"k\":[1.5,18446744073709551615,\"t\"]}").unwrap();
    let json = Json::from_value(value);
    assert_eq!(json.to_text(), "{\"k\":[1.5,18446744073709551615,\"t\"]}");
    assert_eq!(json.clone(), json);
}

#[test]
fn members_are_found_by_name() {
    let json = Json::object2("a", Json::Bool(true), "b", Json::text("t"));
    assert_eq!(json.get("a"), Some(&Json::Bool(true)));
    assert_eq!(json.get("b").unwrap().as_str(), Some("t"));
    assert_eq!(json.get("a").unwrap().as_bool(), Some(true));
    assert_eq!(json.get("a").unwrap().as_str(), None);
    assert_eq!(json.get("b").unwrap().as_bool(), None);
    assert_eq!(json.get("c"), None);
    assert_eq!(Json::text("a").get("a"), None);
    assert!(is_scalar(&Json::Null));
    assert!(is_scalar(&Json::integer(1)));
    assert!(!is_scalar(&json));
    assert!(!is_scalar(&Json::Array(Vec::new())));
}
