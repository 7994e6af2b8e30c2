use acpx_rs::json::{compact, parse, pretty, Json};

fn read(text: &str) -> Json {
    match parse(text) {
        Some(json) => json,
        None => panic!("not JSON: {text}"),
    }
}

#[test]
fn reads_the_parts_of_a_document() {
    let json = read(r#"{"a": null, "b": true, "c": 7, "d": -7, "e": "x\n", "f": [1, "y"], "g": 1.5}"#);
    assert!(matches!(json.get("a"), Some(Json::Null)));
    assert!(matches!(json.get("b"), Some(Json::Bool(true))));
    assert!(matches!(json.get("c"), Some(Json::Unsigned(7))));
    assert!(matches!(json.get("d"), Some(Json::Negative(-7))));
    assert!(matches!(json.get("g"), Some(Json::Real)));
    assert_eq!(json.get_str("e"), Some("x\n"));
    assert_eq!(json.get_str("c"), None);
    assert!(json.get("z").is_none());
    let items = json.get("f").and_then(|f| f.as_array()).unwrap();
    assert_eq!(items.len(), 2);
    assert_eq!(items[0].as_u64(), Some(1));
    assert_eq!(items[1].as_str(), Some("y"));
    assert!(items[1].get("a").is_none());
}

#[test]
fn integers_keep_their_value() {
    assert_eq!(read("18446744073709551615").as_u64(), Some(u64::MAX));
    assert_eq!(read("18446744073709551615").as_i64(), None);
    assert_eq!(read("-9223372036854775808").as_i64(), Some(i64::MIN));
    assert_eq!(read("-1").as_u64(), None);
    assert_eq!(read("1").as_i64(), Some(1));
    assert_eq!(read("18446744073709551616").as_u64(), None);
    assert_eq!(read("1.0").as_u64(), None);
    assert_eq!(read("1e3").as_i64(), None);
    assert_eq!(Json::Negative(5).as_u64(), Some(5));
}

#[test]
fn the_last_of_two_members_counts() {
    assert_eq!(read(r#"{"a": 1, "a": 2}"#).get("a").and_then(|a| a.as_u64()), Some(2));
    let json = Json::object().with("a", Json::Unsigned(1)).with("a", Json::Unsigned(2));
    assert_eq!(json.get("a").and_then(|a| a.as_u64()), Some(2));
    assert_eq!(compact(&json), r#"{"a":2}"#);
}

#[test]
fn refuses_what_is_not_json() {
    for text in ["", "{", "nul", "{'a': 1}", "1 2", "[1,]", "\"\n\""] {
        assert!(parse(text).is_none(), "{text}");
    }
}

#[test]
fn follows_nested_arrays_up_to_a_limit() {
    let nested = |n: usize| format!("{}{}", "[".repeat(n), "]".repeat(n));
    assert!(parse(&nested(127)).is_some());
    assert!(parse(&nested(128)).is_none());
    assert_eq!(compact(&read(&nested(127))), nested(127));
}

#[test]
fn writes_one_line_and_reads_it_back() {
    let json = Json::object()
        .with("text", Json::string("a\n\u{2028}\"b\""))
        .with("list", Json::array(vec![Json::Null, Json::Bool(false), Json::Negative(-3)]));
    let text = compact(&json);
    assert_eq!(text, "{\"list\":[null,false,-3],\"text\":\"a\\n\u{2028}\\\"b\\\"\"}");
    assert!(!text.contains('\n'));
    assert_eq!(compact(&read(&text)), text);
    assert_eq!(compact(&json.copy()), text);
    assert_eq!(read(&text).get_str("text"), Some("a\n\u{2028}\"b\""));
}

#[test]
fn writes_indented() {
    let json = Json::array(vec![Json::object().with("a", Json::Unsigned(1))]);
    assert_eq!(pretty(&json), "[\n  {\n    \"a\": 1\n  }\n]");
    assert_eq!(compact(&read(&pretty(&json))), "[{\"a\":1}]");
    assert_eq!(pretty(&Json::array(Vec::new())), "[]");
}

#[test]
fn members_are_added_to_objects_only() {
    assert_eq!(compact(&Json::Null.with("a", Json::Null)), "null");
}
