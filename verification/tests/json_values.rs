use rs_es::error::EncodingFailure;
use rs_es::error::EsError;
use rs_es::json::array;
use rs_es::json::encode;
use rs_es::json::object;
use rs_es::json::parse;
use rs_es::json::push_field;
use rs_es::json::push_optional;
use rs_es::json::single_field;
use rs_es::json::JsonValue;
use rs_es::text::decimal_string;
use rs_es::text::join_strings;
use rustc_serialize::json::Json;

fn text(s: &str) -> JsonValue {
    JsonValue::String(s.to_string())
}

fn sample() -> JsonValue {
    JsonValue::Object(vec![
        ("name".to_string(), text("n")),
        (
            "inner".to_string(),
            JsonValue::Object(vec![
                ("count".to_string(), JsonValue::U64(3)),
                ("flag".to_string(), JsonValue::Boolean(true)),
                ("list".to_string(), JsonValue::Array(vec![JsonValue::Null, JsonValue::I64(-1)])),
            ]),
        ),
    ])
}

#[test]
fn parse_reads_an_object_with_fields_in_name_order() {
    let v = parse(b"{\"b\": 1, \"a\": [true, null, \"x\", -3]}").unwrap();
    let expected = JsonValue::Object(vec![
        (
            "a".to_string(),
            JsonValue::Array(vec![
                JsonValue::Boolean(true),
                JsonValue::Null,
                text("x"),
                JsonValue::I64(-3),
            ]),
        ),
        ("b".to_string(), JsonValue::U64(1)),
    ]);
    assert_eq!(v, expected);
}

#[test]
fn parse_rejects_what_is_not_one_json_value() {
    for bytes in [&b""[..], &b"{"[..], &b"[1,]"[..], &b"\xc3\x28"[..], &b"1 2"[..]] {
        match parse(bytes) {
            Err(EsError::EncodingError(EncodingFailure::Response(_))) => {}
            other => panic!("unexpected outcome: {:?}", other),
        }
    }
}

#[test]
fn encode_writes_compact_text() {
    let v = JsonValue::Object(vec![
        ("query".to_string(), text("a\nb")),
        ("n".to_string(), JsonValue::U64(7)),
    ]);
    assert_eq!(encode(&v).unwrap(), "{\"n\":7,\"query\":\"a\\nb\"}");
}

#[test]
fn encode_never_writes_a_line_feed() {
    let v = JsonValue::Array(vec![
        text("line one\nline two\r\n"),
        JsonValue::Object(vec![("k\n".to_string(), text("\n\n"))]),
    ]);
    let encoded = encode(&v).unwrap();
    assert!(!encoded.contains('\n'));
    assert_eq!(encoded, "[\"line one\\nline two\\r\\n\",{\"k\\n\":\"\\n\\n\"}]");
}

#[test]
fn encode_writes_every_kind_of_value() {
    let v = JsonValue::Array(vec![
        JsonValue::Null,
        JsonValue::Boolean(false),
        JsonValue::I64(-9223372036854775808),
        JsonValue::U64(18446744073709551615),
        JsonValue::Float(Json::F64(1.5)),
        text("\"q\""),
        JsonValue::Array(vec![]),
        JsonValue::Object(vec![]),
    ]);
    assert_eq!(
        encode(&v).unwrap(),
        "[null,false,-9223372036854775808,18446744073709551615,1.5,\"\\\"q\\\"\",[],{}]"
    );
}

#[test]
fn a_number_with_a_fraction_survives_parsing_and_encoding() {
    let v = parse(b"{\"score\": 0.25, \"n\": 2}").unwrap();
    assert_eq!(v.find("score"), Some(&JsonValue::Float(Json::F64(0.25))));
    assert_eq!(v.find("score").unwrap().as_u64(), None);
    assert_eq!(encode(&v).unwrap(), "{\"n\":2,\"score\":0.25}");
}

#[test]
fn find_returns_the_first_field_of_that_name() {
    let v = JsonValue::Object(vec![
        ("a".to_string(), JsonValue::U64(1)),
        ("b".to_string(), JsonValue::U64(2)),
        ("a".to_string(), JsonValue::U64(3)),
    ]);
    assert_eq!(v.find("a"), Some(&JsonValue::U64(1)));
    assert_eq!(v.find("b"), Some(&JsonValue::U64(2)));
    assert_eq!(v.find("c"), None);
    assert_eq!(JsonValue::Array(vec![]).find("a"), None);
    assert_eq!(text("a").find("a"), None);
}

#[test]
fn find_path_follows_nested_objects() {
    let v = sample();
    assert_eq!(v.find_path(&["inner", "count"]), Some(&JsonValue::U64(3)));
    assert_eq!(v.find_path(&["name"]), Some(&text("n")));
    assert_eq!(v.find_path(&[]), Some(&v));
    assert_eq!(v.find_path(&["inner", "missing"]), None);
    assert_eq!(v.find_path(&["name", "count"]), None);
    assert_eq!(v.find_path(&["missing", "count"]), None);
}

#[test]
fn typed_views_accept_only_their_kind() {
    assert_eq!(text("x").as_string(), Some("x"));
    assert_eq!(JsonValue::U64(1).as_string(), None);
    assert_eq!(JsonValue::Boolean(true).as_boolean(), Some(true));
    assert_eq!(JsonValue::Null.as_boolean(), None);
    assert_eq!(JsonValue::Array(vec![JsonValue::Null]).as_array(), Some(&vec![JsonValue::Null]));
    assert_eq!(JsonValue::Object(vec![]).as_array(), None);
    assert_eq!(JsonValue::Object(vec![]).as_object(), Some(&vec![]));
    assert_eq!(JsonValue::Array(vec![]).as_object(), None);
}

#[test]
fn integers_convert_where_they_fit() {
    assert_eq!(JsonValue::U64(7).as_u64(), Some(7));
    assert_eq!(JsonValue::I64(7).as_u64(), Some(7));
    assert_eq!(JsonValue::I64(0).as_u64(), Some(0));
    assert_eq!(JsonValue::I64(-1).as_u64(), None);
    assert_eq!(JsonValue::I64(-7).as_i64(), Some(-7));
    assert_eq!(JsonValue::U64(7).as_i64(), Some(7));
    assert_eq!(JsonValue::U64(9223372036854775806).as_i64(), Some(9223372036854775806));
    assert_eq!(JsonValue::U64(9223372036854775807).as_i64(), None);
    assert_eq!(JsonValue::U64(18446744073709551615).as_i64(), None);
    assert_eq!(text("7").as_u64(), None);
}

#[test]
fn readers_name_the_field_that_is_missing_or_mistyped() {
    let v = sample();
    let inner = v.find("inner").unwrap();
    assert_eq!(v.read_string("name"), Ok("n".to_string()));
    assert_eq!(inner.read_u64("count"), Ok(3));
    assert_eq!(inner.read_boolean("flag"), Ok(true));
    assert_eq!(inner.read_array("list").unwrap().len(), 2);
    assert_eq!(v.read_member("inner"), Ok(inner));
    assert_eq!(v.read_string("inner"), Err(EsError::DecodeShapeError("inner".to_string())));
    assert_eq!(v.read_u64("name"), Err(EsError::DecodeShapeError("name".to_string())));
    assert_eq!(v.read_boolean("nope"), Err(EsError::DecodeShapeError("nope".to_string())));
    assert_eq!(v.read_array("name"), Err(EsError::DecodeShapeError("name".to_string())));
    assert_eq!(v.read_member("nope"), Err(EsError::DecodeShapeError("nope".to_string())));
    assert_eq!(inner.read_optional_u64("count"), Some(3));
    assert_eq!(inner.read_optional_u64("flag"), None);
    assert_eq!(v.read_optional_string("name"), Some("n".to_string()));
    assert_eq!(v.read_optional_string("nope"), None);
}

#[test]
fn clone_copies_the_whole_tree() {
    let v = sample();
    let copy = v.clone();
    assert_eq!(copy, v);
    assert_eq!(v.deep_copy(), v);
    let float = JsonValue::Array(vec![JsonValue::Float(Json::F64(2.5))]);
    assert_eq!(float.clone(), float);
}

#[test]
fn builders_append_fields_in_order() {
    let mut fields = Vec::new();
    push_field(&mut fields, "a", JsonValue::U64(1));
    push_optional(&mut fields, "b", None);
    push_optional(&mut fields, "c", Some(JsonValue::Boolean(true)));
    assert_eq!(
        object(fields),
        JsonValue::Object(vec![
            ("a".to_string(), JsonValue::U64(1)),
            ("c".to_string(), JsonValue::Boolean(true)),
        ])
    );
    assert_eq!(
        single_field("k", JsonValue::Null),
        JsonValue::Object(vec![("k".to_string(), JsonValue::Null)])
    );
    assert_eq!(array(vec![JsonValue::Null]), JsonValue::Array(vec![JsonValue::Null]));
    assert_eq!(JsonValue::string("abc"), text("abc"));
}

#[test]
fn decimal_string_writes_numbers_without_leading_zeros() {
    assert_eq!(decimal_string(0), "0");
    assert_eq!(decimal_string(7), "7");
    assert_eq!(decimal_string(10), "10");
    assert_eq!(decimal_string(927500), "927500");
    assert_eq!(decimal_string(18446744073709551615), "18446744073709551615");
}

#[test]
fn join_strings_puts_the_separator_between_neighbours() {
    let none: Vec<String> = vec![];
    assert_eq!(join_strings(&none, ","), "");
    assert_eq!(join_strings(&vec!["a".to_string()], ","), "a");
    assert_eq!(join_strings(&vec!["a".to_string(), "".to_string(), "c".to_string()], ", "), "a, , c");
}
