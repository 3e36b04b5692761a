use pillar_consul::codec::parse_json;
use pillar_consul::codec::serialize_json;
use pillar_consul::json::Json;

fn number(literal: &str) -> Json {
    Json::Number(literal.to_string())
}

fn text(value: &str) -> Json {
    Json::String(value.to_string())
}

#[test]
fn scalars_are_written_as_json_words() {
    assert_eq!(serialize_json(&Json::Bool(true)), "true");
    assert_eq!(serialize_json(&Json::Bool(false)), "false");
    assert_eq!(serialize_json(&Json::Null), "null");
}

#[test]
fn numbers_are_written_by_their_literal() {
    assert_eq!(serialize_json(&number("5")), "5");
    assert_eq!(serialize_json(&number("-3")), "-3");
    assert_eq!(serialize_json(&number("2.5")), "2.5");
    assert_eq!(serialize_json(&number("18446744073709551615")), "18446744073709551615");
}

#[test]
fn a_literal_that_is_no_number_is_written_as_null() {
    assert_eq!(serialize_json(&number("abc")), "null");
    assert_eq!(serialize_json(&number("")), "null");
    assert_eq!(serialize_json(&number("true")), "null");
}

#[test]
fn strings_are_quoted_and_escaped() {
    assert_eq!(serialize_json(&text("v")), "\"v\"");
    assert_eq!(serialize_json(&text("true")), "\"true\"");
    assert_eq!(serialize_json(&text("a\"b\\c\nd")), "\"a\\\"b\\\\c\\nd\"");
    assert_eq!(serialize_json(&text("")), "\"\"");
}

#[test]
fn arrays_and_objects_are_written_compactly_and_in_order() {
    let value = Json::Array(vec![
        number("1"),
        text("x"),
        Json::Null,
        Json::Object(vec![
            ("z".to_string(), Json::Bool(true)),
            ("a".to_string(), Json::Array(vec![])),
        ]),
    ]);
    assert_eq!(serialize_json(&value), r#"[1,"x",null,{"z":true,"a":[]}]"#);
    assert_eq!(serialize_json(&Json::Object(vec![])), "{}");
}

#[test]
fn every_kind_of_value_is_read() {
    assert_eq!(parse_json("null").unwrap(), Json::Null);
    assert_eq!(parse_json("true").unwrap(), Json::Bool(true));
    assert_eq!(parse_json("false").unwrap(), Json::Bool(false));
    assert_eq!(parse_json("42").unwrap(), number("42"));
    assert_eq!(parse_json("-7").unwrap(), number("-7"));
    assert_eq!(parse_json("1.5").unwrap(), number("1.5"));
    assert_eq!(parse_json("\"a\\u0041\"").unwrap(), text("aA"));
    assert_eq!(
        parse_json("[1, [2], {}]").unwrap(),
        Json::Array(vec![number("1"), Json::Array(vec![number("2")]), Json::Object(vec![])])
    );
}

#[test]
fn object_members_are_read_in_document_order() {
    let document = parse_json(r#" { "b" : 1, "a" : { "d" : 2, "c" : 3 } } "#).unwrap();
    assert_eq!(
        document,
        Json::Object(vec![
            ("b".to_string(), number("1")),
            (
                "a".to_string(),
                Json::Object(vec![("d".to_string(), number("2")), ("c".to_string(), number("3"))])
            ),
        ])
    );
}

#[test]
fn reading_reports_where_it_stopped() {
    let error = parse_json("[1, 2").unwrap_err();
    assert_eq!(error.message, "EOF while parsing a list at line 1 column 5");
    let error = parse_json("@").unwrap_err();
    assert_eq!(error.message, "expected value at line 1 column 1");
    assert!(parse_json("").is_err());
    assert!(parse_json("1 2").is_err());
}

#[test]
fn written_text_is_read_back_as_the_same_value() {
    let value = Json::Object(vec![
        ("k".to_string(), Json::Array(vec![number("1"), text("two"), Json::Bool(false)])),
        ("n".to_string(), Json::Null),
        ("f".to_string(), number("0.25")),
    ]);
    let written = serialize_json(&value);
    assert_eq!(written, r#"{"k":[1,"two",false],"n":null,"f":0.25}"#);
    assert_eq!(parse_json(&written).unwrap(), value);
}

#[test]
fn cloning_copies_the_whole_tree() {
    let value = Json::Object(vec![(
        "k".to_string(),
        Json::Array(vec![number("1"), Json::Object(vec![("x".to_string(), text("y"))])]),
    )]);
    let copy = value.clone();
    assert_eq!(copy, value);
    assert!(value.is_object());
    assert!(!Json::Array(vec![]).is_object());
    assert!(!Json::Null.is_object());
}

#[test]
fn long_float_literals_are_written_as_they_were_read() {
    let literals = [
        "1.0000000000000007",
        "0.30000000000000004",
        "1.7976931348623157e+308",
        "2.2250738585072014e-308",
        "5e-324",
    ];
    for literal in literals {
        let value = parse_json(literal).unwrap();
        assert_eq!(value, number(literal));
        assert_eq!(serialize_json(&value), literal);
        assert_eq!(serialize_json(&number(literal)), literal);
    }
}

#[test]
fn a_float_of_the_document_is_written_as_the_float_that_was_read() {
    assert_eq!(parse_json("1.0000000000000006").unwrap(), number("1.0000000000000007"));
    assert_eq!(serialize_json(&parse_json("1.0000000000000006").unwrap()), "1.0000000000000007");
    assert_eq!(serialize_json(&parse_json("0.1e1").unwrap()), "1.0");
    assert_eq!(serialize_json(&parse_json("-0.0").unwrap()), "-0.0");
    assert_eq!(serialize_json(&parse_json("100").unwrap()), "100");
}

#[test]
fn writing_and_reading_a_number_again_changes_nothing() {
    let literals = [
        "0.1",
        "4.35",
        "2.675",
        "1e21",
        "1.1e-7",
        "8.41e21",
        "0.000001",
        "1.0000000000000002",
        "1.0000000000000004",
        "1.0000000000000009",
        "9007199254740993",
        "9007199254740993.0",
        "123456789012345680000",
        "0.12345678901234567",
        "12345678.901234567",
        "-98765.432109876543",
        "3.141592653589793",
        "2.718281828459045",
        "6.02214076e23",
        "-1.7976931348623157e308",
    ];
    for literal in literals {
        let read = parse_json(literal).unwrap();
        let written = serialize_json(&read);
        assert_eq!(Json::Number(written.clone()), read);
        assert_eq!(parse_json(&written).unwrap(), read);
        assert_eq!(serialize_json(&parse_json(&written).unwrap()), written);
    }
}

#[test]
fn a_repeated_key_is_written_once_with_its_last_value() {
    let value = Json::Object(vec![
        ("a".to_string(), number("1")),
        ("b".to_string(), number("2")),
        ("a".to_string(), number("3")),
    ]);
    assert_eq!(serialize_json(&value), r#"{"a":3,"b":2}"#);
    assert_eq!(
        parse_json(r#"{"a": 1, "b": 2, "a": 3}"#).unwrap(),
        Json::Object(vec![("a".to_string(), number("3")), ("b".to_string(), number("2"))])
    );
}

#[test]
fn the_message_depends_on_the_text_alone() {
    let first = parse_json("{\"a\": [1, }").unwrap_err();
    let second = parse_json("{\"a\": [1, }").unwrap_err();
    assert_eq!(first, second);
    assert_eq!(first.message, "expected value at line 1 column 11");
}
