use rs_es::do_req;
use rs_es::error::EncodingFailure;
use rs_es::error::EsError;
use rs_es::json::encode;
use rs_es::json::parse;
use rs_es::json::JsonValue;
use rs_es::limits::check_limits;
use rs_es::operations::bulk::Action;
use rs_es::operations::bulk::BulkOperation;
use rs_es::operations::index::IndexOperation;
use rs_es::operations::search::SearchURIOperation;

fn beyond() -> EsError {
    EsError::EncodingError(EncodingFailure::BeyondLimits)
}

fn repeated() -> EsError {
    EsError::EncodingError(EncodingFailure::RepeatedName)
}

fn nested(open: &str, depth: usize, close: &str) -> Vec<u8> {
    let mut body = String::new();
    for _ in 0..depth {
        body.push_str(open);
    }
    body.push('1');
    for _ in 0..depth {
        body.push_str(close);
    }
    body.into_bytes()
}

fn named(name_bytes: usize, depth: usize) -> Vec<u8> {
    let open = format!("{{\"{}\":", "k".repeat(name_bytes));
    nested(&open, depth, "}")
}

#[test]
fn nested_long_names_are_refused_before_the_parser_sees_them() {
    let body = named(40000, 2);
    assert!(!check_limits(&body));
    assert_eq!(parse(&body), Err(beyond()));
    assert_eq!(do_req(200, &body), Err(beyond()));
}

#[test]
fn a_long_name_that_is_not_ascii_is_refused() {
    let body = format!("{{\"{}\":1}}", "\u{e9}".repeat(40000)).into_bytes();
    assert_eq!(parse(&body), Err(beyond()));
}

#[test]
fn a_name_may_take_511_bytes_and_no_more() {
    assert!(check_limits(&named(511, 1)));
    assert!(parse(&named(511, 1)).is_ok());
    assert!(!check_limits(&named(512, 1)));
    assert_eq!(parse(&named(512, 1)), Err(beyond()));
    let escaped = format!("{{\"{}\":1}}", "\\\"".repeat(255));
    assert!(parse(escaped.as_bytes()).is_ok());
    let longer = format!("{{\"{}\":1}}", "\\\"".repeat(256));
    assert_eq!(parse(longer.as_bytes()), Err(beyond()));
}

#[test]
fn the_longest_names_at_the_greatest_depth_are_parsed() {
    let body = named(511, 128);
    assert!(check_limits(&body));
    let mut value = &parse(&body).unwrap();
    let name = "k".repeat(511);
    for _ in 0..128 {
        value = value.find(&name).unwrap();
    }
    assert_eq!(value, &JsonValue::U64(1));
}

#[test]
fn a_long_text_that_is_no_name_is_parsed() {
    let text = "x".repeat(200000);
    let body = format!("{{\"a\":\"{}\",\"b\":[\"{}\"]}}", text, text).into_bytes();
    assert!(check_limits(&body));
    let value = parse(&body).unwrap();
    assert_eq!(value.find("a").unwrap().as_string().unwrap().len(), 200000);
}

#[test]
fn nesting_may_be_128_deep_and_no_more() {
    assert!(parse(&nested("[", 128, "]")).is_ok());
    assert_eq!(parse(&nested("[", 129, "]")), Err(beyond()));
    assert!(parse(&nested("{\"a\":", 128, "}")).is_ok());
    assert_eq!(parse(&nested("{\"a\":", 129, "}")), Err(beyond()));
    let wide = format!("[{}[]]", "[[]],".repeat(5000));
    assert!(parse(wide.as_bytes()).is_ok());
    assert!(check_limits(b"\"[[[[{{{{\""));
}

#[test]
fn an_exponent_may_have_nine_digits_and_no_more() {
    assert!(parse(b"[1e000000002, 2E+000000001, 5e-000000001, 1.5e3]").is_ok());
    assert_eq!(parse(b"1e0000000002"), Err(beyond()));
    assert_eq!(parse(b"1e100000000000000000000"), Err(beyond()));
    assert_eq!(parse(b"[1E-1234567890]"), Err(beyond()));
    assert!(parse(b"\"1e100000000000000000000\"").is_ok());
    assert!(parse(b"[18446744073709551615, 0.12345678901234567890123]").is_ok());
}

#[test]
fn a_comma_before_a_closing_brace_is_refused() {
    assert_eq!(parse(b"[{\"b\":{\"a\":1,},5]"), Err(beyond()));
    assert_eq!(parse(b"{\"a\":1,}"), Err(beyond()));
    assert_eq!(parse(b"{\"x\":[{\"a\":1 , \n\t }, 2]}"), Err(beyond()));
    assert!(parse(b"{\"a\":\",}\",\"b\":\"x\\\",}\"}").is_ok());
    match parse(b"[1,]") {
        Err(EsError::EncodingError(EncodingFailure::Response(_))) => {}
        other => panic!("unexpected outcome: {:?}", other),
    }
}

#[test]
fn a_large_reply_within_the_bounds_is_read() {
    let mut body = String::from(
        "{\"took\":4,\"timed_out\":false,\"_shards\":{\"total\":5,\"successful\":5,\"failed\":0},\"hits\":{\"total\":3000,\"hits\":[",
    );
    for i in 0..3000 {
        if i > 0 {
            body.push(',');
        }
        body.push_str(&format!(
            "{{\"_index\":\"idx\",\"_type\":\"t\",\"_id\":\"{}\",\"_score\":1.25e-3,\"_source\":{{\"text\":\"some text, with {{braces}} and \\\"quotes\\\"\",\"n\":{}}}}}",
            i, i
        ));
    }
    body.push_str("]}}");
    assert!(body.len() > 65535);
    let result = SearchURIOperation::new().response(200, body.as_bytes()).unwrap();
    assert_eq!(result.hits.total, 3000);
    assert_eq!(result.hits.hits.len(), 3000);
    assert_eq!(result.hits.hits[2999].id, "2999");
}

#[test]
fn a_reply_beyond_the_bounds_is_an_encoding_error_for_every_operation() {
    let body = nested("[", 200, "]");
    assert_eq!(SearchURIOperation::new().response(200, &body), Err(beyond()));
    assert_eq!(IndexOperation::new("i", "t").response(201, &body), Err(beyond()));
    assert_eq!(
        do_req(500, &body),
        Err(EsError::EngineError { status: 500, body: body.clone() })
    );
    assert_eq!(beyond().describe(), "response body is beyond the parser's limits");
}

fn twice() -> JsonValue {
    JsonValue::Object(vec![
        ("a".to_string(), JsonValue::U64(1)),
        ("b".to_string(), JsonValue::U64(2)),
        ("a".to_string(), JsonValue::U64(3)),
    ])
}

#[test]
fn a_value_that_names_a_field_twice_is_not_encoded() {
    assert!(!twice().has_distinct_names());
    assert_eq!(encode(&twice()), Err(repeated()));
    let inside = JsonValue::Array(vec![
        JsonValue::Null,
        JsonValue::Object(vec![("x".to_string(), twice())]),
    ]);
    assert!(!inside.has_distinct_names());
    assert_eq!(encode(&inside), Err(repeated()));
    assert_eq!(repeated().describe(), "request body names a field twice");
}

#[test]
fn a_value_with_distinct_names_is_always_encoded() {
    let same_name_in_two_objects = JsonValue::Array(vec![
        JsonValue::Object(vec![("a".to_string(), JsonValue::U64(1))]),
        JsonValue::Object(vec![
            ("a".to_string(), JsonValue::Object(vec![("a".to_string(), JsonValue::Null)])),
            ("A".to_string(), JsonValue::Boolean(true)),
            ("".to_string(), JsonValue::String("a".to_string())),
        ]),
    ]);
    assert!(same_name_in_two_objects.has_distinct_names());
    assert_eq!(
        encode(&same_name_in_two_objects).unwrap(),
        "[{\"a\":1},{\"\":\"a\",\"A\":true,\"a\":{\"a\":null}}]"
    );
    for scalar in [JsonValue::Null, JsonValue::I64(-1), JsonValue::String("x".to_string())] {
        assert!(scalar.has_distinct_names());
        assert!(encode(&scalar).is_ok());
    }
    assert!(JsonValue::Array(vec![]).has_distinct_names());
    assert!(JsonValue::Object(vec![]).has_distinct_names());
}

#[test]
fn what_the_parser_returns_can_be_encoded_again() {
    let value = parse(b"{\"a\":1,\"b\":{\"a\":2},\"a\":[{\"b\":3,\"b\":4}]}").unwrap();
    assert!(value.has_distinct_names());
    assert_eq!(encode(&value).unwrap(), "{\"a\":[{\"b\":4}],\"b\":{\"a\":2}}");
}

#[test]
fn an_operation_whose_document_names_a_field_twice_is_refused() {
    assert_eq!(IndexOperation::new("i", "t").with_doc(twice()).request(), Err(repeated()));
    assert!(IndexOperation::new("i", "t").request().is_ok());
    let actions = vec![
        Action::index(JsonValue::Object(vec![])),
        Action::create(twice()),
        Action::delete("1"),
    ];
    assert_eq!(actions[1].lines(), Err(repeated()));
    assert!(actions[0].lines().is_ok());
    assert!(actions[2].lines().is_ok());
    assert_eq!(BulkOperation::new(&actions).lines(), Err(repeated()));
    assert_eq!(BulkOperation::new(&actions).request(), Err(repeated()));
    let none: Vec<Action> = vec![];
    assert_eq!(BulkOperation::new(&none).request().unwrap().body, Some(String::new()));
}
