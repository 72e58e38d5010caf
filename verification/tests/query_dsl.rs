use rs_es::json::JsonValue;
use rs_es::query::Filter;
use rs_es::query::JsonVal;
use rs_es::query::Query;

fn text(s: &str) -> JsonValue {
    JsonValue::String(s.to_string())
}

fn object(fields: Vec<(&str, JsonValue)>) -> JsonValue {
    JsonValue::Object(fields.into_iter().map(|(k, v)| (k.to_string(), v)).collect())
}

#[test]
fn match_all_is_an_empty_object_under_its_name() {
    let query = Query::build_match_all().build();
    assert_eq!(query.to_json(), object(vec![("match_all", object(vec![]))]));
    assert_eq!(query.serialize().unwrap(), "{\"match_all\":{}}");
}

#[test]
fn building_the_same_query_twice_gives_the_same_text() {
    let build = || {
        Query::build_filtered(
            Filter::build_range("age")
                .with_gte(JsonVal::from(18))
                .with_lt(JsonVal::from(65))
                .build(),
        )
        .with_query(
            Query::build_match("name", JsonVal::from("smith"))
                .with_operator("and")
                .build(),
        )
        .build()
    };
    let first = build();
    let second = build();
    assert_eq!(first, second);
    assert_eq!(first.to_json(), second.to_json());
    assert_eq!(first.serialize().unwrap(), second.serialize().unwrap());
    assert_eq!(
        first.serialize().unwrap(),
        "{\"filtered\":{\"filter\":{\"range\":{\"age\":{\"gte\":18,\"lt\":65}}},\"query\":{\"match\":{\"name\":{\"operator\":\"and\",\"query\":\"smith\"}}}}}"
    );
}

#[test]
fn match_holds_the_query_and_only_the_modifiers_that_are_set() {
    let plain = Query::build_match("title", JsonVal::from("rust")).build();
    assert_eq!(
        plain.to_json(),
        object(vec![("match", object(vec![("title", object(vec![("query", text("rust"))]))]))])
    );
    assert_eq!(plain.serialize().unwrap(), "{\"match\":{\"title\":{\"query\":\"rust\"}}}");

    let lenient = Query::build_match("int_field", JsonVal::from(200))
        .with_lenient(false)
        .build();
    assert_eq!(
        lenient.to_json(),
        object(vec![(
            "match",
            object(vec![(
                "int_field",
                object(vec![("query", JsonValue::I64(200)), ("lenient", JsonValue::Boolean(false))])
            )])
        )])
    );

    let both = Query::build_match("title", JsonVal::from("a b"))
        .with_operator("or")
        .with_lenient(true)
        .build();
    assert_eq!(
        both.to_json(),
        object(vec![(
            "match",
            object(vec![(
                "title",
                object(vec![
                    ("query", text("a b")),
                    ("lenient", JsonValue::Boolean(true)),
                    ("operator", text("or")),
                ])
            )])
        )])
    );
}

#[test]
fn a_modifier_set_twice_keeps_the_last_value() {
    let query = Query::build_match("f", JsonVal::from(true))
        .with_lenient(true)
        .with_lenient(false)
        .build();
    assert_eq!(query.serialize().unwrap(), "{\"match\":{\"f\":{\"lenient\":false,\"query\":true}}}");
}

#[test]
fn range_holds_only_the_bounds_that_are_set() {
    let none = Filter::build_range("n").build();
    assert_eq!(none.to_json(), object(vec![("range", object(vec![("n", object(vec![]))]))]));
    assert_eq!(none.serialize().unwrap(), "{\"range\":{\"n\":{}}}");

    let closed = Filter::build_range("int_field")
        .with_gte(JsonVal::from(2))
        .with_lte(JsonVal::from(3))
        .build();
    assert_eq!(
        closed.to_json(),
        object(vec![(
            "range",
            object(vec![(
                "int_field",
                object(vec![("gte", JsonValue::I64(2)), ("lte", JsonValue::I64(3))])
            )])
        )])
    );

    let open = Filter::build_range("when")
        .with_lt(JsonVal::from("2015-06-01"))
        .with_gt(JsonVal::from(7u64))
        .build();
    assert_eq!(
        open.to_json(),
        object(vec![(
            "range",
            object(vec![("when", object(vec![("gt", JsonValue::U64(7)), ("lt", text("2015-06-01"))]))])
        )])
    );
}

#[test]
fn term_holds_the_value_under_the_field() {
    let filter = Filter::build_term("user", JsonVal::from("kimchy".to_string())).build();
    assert_eq!(filter.to_json(), object(vec![("term", object(vec![("user", text("kimchy"))]))]));
    assert_eq!(filter.serialize().unwrap(), "{\"term\":{\"user\":\"kimchy\"}}");
}

#[test]
fn filtered_wraps_one_filter_and_an_optional_query() {
    let bare = Query::build_filtered(Filter::build_term("a", JsonVal::from(1i64)).build()).build();
    assert_eq!(
        bare.to_json(),
        object(vec![(
            "filtered",
            object(vec![("filter", object(vec![("term", object(vec![("a", JsonValue::I64(1))]))]))])
        )])
    );

    let nested = Query::build_filtered(Filter::build_term("a", JsonVal::from(1i64)).build())
        .with_query(
            Query::build_filtered(Filter::build_range("b").build())
                .with_query(Query::build_match_all().build())
                .build(),
        )
        .build();
    assert_eq!(
        nested.serialize().unwrap(),
        "{\"filtered\":{\"filter\":{\"term\":{\"a\":1}},\"query\":{\"filtered\":{\"filter\":{\"range\":{\"b\":{}}},\"query\":{\"match_all\":{}}}}}}"
    );
}

#[test]
fn scalars_come_from_plain_values() {
    assert_eq!(JsonVal::from("a"), JsonVal::String("a".to_string()));
    assert_eq!(JsonVal::from("a".to_string()), JsonVal::String("a".to_string()));
    assert_eq!(JsonVal::from(-5), JsonVal::I64(-5));
    assert_eq!(JsonVal::from(-5i64), JsonVal::I64(-5));
    assert_eq!(JsonVal::from(5u64), JsonVal::U64(5));
    assert_eq!(JsonVal::from(true), JsonVal::Boolean(true));
    assert_eq!(JsonVal::from("a").to_json(), text("a"));
    assert_eq!(JsonVal::from(5u64).to_json(), JsonValue::U64(5));
    assert_eq!(JsonVal::from(-5).to_json(), JsonValue::I64(-5));
    assert_eq!(JsonVal::from(false).to_json(), JsonValue::Boolean(false));
}
