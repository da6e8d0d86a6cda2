use bybit_notifier::json::Json;

fn text(s: &str) -> Json {
    Json::Text(s.to_string())
}

#[test]
fn parse_reads_scalars() {
    assert_eq!(Json::parse("null"), Ok(Json::Null));
    assert_eq!(Json::parse("true"), Ok(Json::Bool(true)));
    assert_eq!(Json::parse("false"), Ok(Json::Bool(false)));
    assert_eq!(Json::parse("\"hi\""), Ok(text("hi")));
    assert_eq!(Json::parse("\"a\\nb\""), Ok(text("a\nb")));
}

#[test]
fn parse_reads_integers_with_their_value() {
    assert_eq!(Json::parse("0"), Ok(Json::Number(Some(0), "0".to_string())));
    assert_eq!(Json::parse("10001"), Ok(Json::Number(Some(10001), "10001".to_string())));
    assert_eq!(Json::parse("-7"), Ok(Json::Number(Some(-7), "-7".to_string())));
    assert_eq!(
        Json::parse("9223372036854775807"),
        Ok(Json::Number(Some(i64::MAX), "9223372036854775807".to_string()))
    );
}

#[test]
fn parse_reads_other_numbers_without_an_integer() {
    assert_eq!(Json::parse("1.5"), Ok(Json::Number(None, "1.5".to_string())));
    assert_eq!(
        Json::parse("18446744073709551615"),
        Ok(Json::Number(None, "18446744073709551615".to_string()))
    );
    assert_eq!(Json::parse("1.0").unwrap().as_i64(), None);
}

#[test]
fn parse_reads_arrays_and_objects() {
    let doc = Json::parse("{\"b\":[1,\"x\",null],\"a\":{\"c\":true}}").unwrap();
    assert_eq!(
        doc.get("b"),
        Some(&Json::Array(vec![Json::Number(Some(1), "1".to_string()), text("x"), Json::Null]))
    );
    assert_eq!(doc.get("a").unwrap().get("c"), Some(&Json::Bool(true)));
    assert_eq!(doc.get("c"), None);
}

#[test]
fn parse_keeps_the_last_of_two_members_with_one_name() {
    let doc = Json::parse("{\"a\":1,\"a\":2}").unwrap();
    assert_eq!(doc.get("a").unwrap().as_i64(), Some(2));
}

#[test]
fn parse_refuses_what_is_no_json() {
    assert!(Json::parse("").is_err());
    assert!(Json::parse("{").is_err());
    assert!(Json::parse("<html>").is_err());
    assert!(Json::parse("{} x").is_err());
}

#[test]
fn parse_says_where_the_text_broke() {
    let message = Json::parse("not json").unwrap_err();
    assert_eq!(message, "expected ident at line 1 column 2");
}

#[test]
fn get_finds_the_first_member_with_the_name() {
    let doc = Json::Object(vec![
        ("a".to_string(), text("first")),
        ("b".to_string(), text("other")),
        ("a".to_string(), text("second")),
    ]);
    assert_eq!(doc.get("a"), Some(&text("first")));
    assert_eq!(doc.get("b"), Some(&text("other")));
    assert_eq!(doc.get("A"), None);
    assert_eq!(doc.get(""), None);
}

#[test]
fn get_finds_nothing_outside_objects() {
    assert_eq!(Json::Null.get("a"), None);
    assert_eq!(text("a").get("a"), None);
    assert_eq!(Json::Array(vec![text("a")]).get("a"), None);
}

#[test]
fn accessors_answer_for_their_own_kind_only() {
    let number = Json::Number(Some(5), "5".to_string());
    assert_eq!(number.as_i64(), Some(5));
    assert_eq!(number.as_str(), None);
    assert_eq!(number.as_bool(), None);
    assert_eq!(number.as_array(), None);
    assert_eq!(text("5").as_i64(), None);
    assert_eq!(text("5").as_str(), Some("5"));
    assert_eq!(Json::Bool(false).as_bool(), Some(false));
    assert_eq!(Json::Bool(true).as_str(), None);
    assert_eq!(Json::Null.as_bool(), None);
    let items = vec![Json::Null, text("x")];
    assert_eq!(Json::Array(vec![Json::Null, text("x")]).as_array(), Some(&items));
}

#[test]
fn into_member_takes_the_member_or_null() {
    let doc = Json::parse("{\"result\":{\"list\":[1]},\"retCode\":0}").unwrap();
    let list = doc.into_member("result").into_member("list");
    assert_eq!(list, Json::Array(vec![Json::Number(Some(1), "1".to_string())]));
    let doc = Json::parse("{\"retCode\":0}").unwrap();
    assert_eq!(doc.into_member("result"), Json::Null);
    assert_eq!(Json::Null.into_member("result").into_member("list"), Json::Null);
    assert_eq!(text("x").into_member("x"), Json::Null);
}

#[test]
fn into_array_takes_the_items() {
    assert_eq!(Json::Array(vec![]).into_array(), Some(vec![]));
    assert_eq!(Json::Array(vec![Json::Null]).into_array(), Some(vec![Json::Null]));
    assert_eq!(Json::Null.into_array(), None);
    assert_eq!(Json::Object(vec![]).into_array(), None);
}

#[test]
fn object_text_writes_an_object_of_strings() {
    let members = vec![
        ("chat_id".to_string(), "-100123".to_string()),
        ("text".to_string(), "hello".to_string()),
        ("parse_mode".to_string(), "HTML".to_string()),
    ];
    assert_eq!(
        Json::object_text(&members),
        "{\"chat_id\":\"-100123\",\"parse_mode\":\"HTML\",\"text\":\"hello\"}"
    );
}

#[test]
fn object_text_escapes_what_json_escapes() {
    let members = vec![("text".to_string(), "a \"b\"\n<b>c</b> \\".to_string())];
    assert_eq!(Json::object_text(&members), "{\"text\":\"a \\\"b\\\"\\n<b>c</b> \\\\\"}");
}

#[test]
fn object_text_of_no_members() {
    assert_eq!(Json::object_text(&vec![]), "{}");
}

#[test]
fn object_text_parses_back() {
    let members = vec![
        ("chat_id".to_string(), "42".to_string()),
        ("text".to_string(), "✨ 50% \"up\"".to_string()),
    ];
    let doc = Json::parse(&Json::object_text(&members)).unwrap();
    assert_eq!(doc.get("chat_id").unwrap().as_str(), Some("42"));
    assert_eq!(doc.get("text").unwrap().as_str(), Some("✨ 50% \"up\""));
}
