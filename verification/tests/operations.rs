use rs_es::error::EncodingFailure;
use rs_es::error::EsError;
use rs_es::json::JsonValue;
use rs_es::operations::analyze::AnalyzeOperation;
use rs_es::operations::analyze::AnalyzeResult;
use rs_es::operations::analyze::Token;
use rs_es::operations::copy_names;
use rs_es::operations::delete::DeleteByQueryIndexResult;
use rs_es::operations::delete::DeleteByQueryOperation;
use rs_es::operations::delete::DeleteByQueryResult;
use rs_es::operations::delete::DeleteOperation;
use rs_es::operations::delete::DeleteResult;
use rs_es::operations::format_indexes_and_types;
use rs_es::operations::format_multi;
use rs_es::operations::get::GetOperation;
use rs_es::operations::get::GetResult;
use rs_es::operations::index::IndexOperation;
use rs_es::operations::index::IndexResult;
use rs_es::operations::index::OpType;
use rs_es::operations::search::SearchHitsHitsResult;
use rs_es::operations::search::SearchQueryOperation;
use rs_es::operations::search::SearchResult;
use rs_es::operations::search::SearchURIOperation;
use rs_es::operations::within;
use rs_es::operations::RefreshOperation;
use rs_es::operations::RefreshResult;
use rs_es::operations::ShardCountResult;
use rs_es::query::Query;
use rs_es::request::format_query_string;
use rs_es::request::Method;
use rs_es::request::Request;
use rs_es::Client;

fn param(key: &str, value: &str) -> (String, String) {
    (key.to_string(), value.to_string())
}

fn shape(path: &str) -> EsError {
    EsError::DecodeShapeError(path.to_string())
}

fn names(list: &[&str]) -> Vec<String> {
    list.iter().map(|s| s.to_string()).collect()
}

fn has_param(request: &Request, key: &str) -> bool {
    request.params.iter().any(|p| p.0 == key)
}

#[test]
fn query_string_is_empty_or_question_mark_and_pairs() {
    assert_eq!(format_query_string(&vec![]), "");
    assert_eq!(format_query_string(&vec![param("a", "1")]), "?a=1");
    assert_eq!(
        format_query_string(&vec![param("a", "1"), param("b", ""), param("c", "x y&z")]),
        "?a=1&b=&c=x y&z"
    );
}

#[test]
fn request_target_and_url_concatenate_without_escaping() {
    let request = Request {
        method: Method::Get,
        path: "/i/t/an id".to_string(),
        params: vec![param("fields", "a,b"), param("q", "x:1")],
        body: None,
    };
    assert_eq!(request.target(), "/i/t/an id?fields=a,b&q=x:1");
    assert_eq!(
        Client::new("h", 80).request_url(&request),
        "http://h:80/i/t/an id?fields=a,b&q=x:1"
    );
}

#[test]
fn index_lists_are_joined_or_stand_for_all() {
    assert_eq!(format_multi(&names(&[])), "_all");
    assert_eq!(format_multi(&names(&["a"])), "a");
    assert_eq!(format_multi(&names(&["a", "b", "c"])), "a,b,c");
    assert_eq!(format_indexes_and_types(&names(&[]), &names(&[])), "/_all");
    assert_eq!(format_indexes_and_types(&names(&["a", "b"]), &names(&[])), "/a,b");
    assert_eq!(format_indexes_and_types(&names(&["a"]), &names(&["t", "u"])), "/a/t,u");
    assert_eq!(format_indexes_and_types(&names(&[]), &names(&["t"])), "/_all/t");
    assert_eq!(copy_names(&["x", "y"]), names(&["x", "y"]));
}

#[test]
fn index_without_options_has_no_parameters_and_no_body() {
    let request = IndexOperation::new("idx", "doc").request().unwrap();
    assert_eq!(
        request,
        Request { method: Method::Post, path: "/idx/doc".to_string(), params: vec![], body: None }
    );
    assert!(!has_param(&request, "ttl"));
    assert!(!has_param(&request, "op_type"));
}

#[test]
fn index_writes_each_option_that_is_set() {
    let request = IndexOperation::new("idx", "doc")
        .with_op_type(OpType::Index)
        .with_ttl(0)
        .with_id("7")
        .with_doc(JsonValue::Object(vec![]))
        .request()
        .unwrap();
    assert_eq!(
        request,
        Request {
            method: Method::Put,
            path: "/idx/doc/7".to_string(),
            params: vec![param("ttl", "0"), param("op_type", "index")],
            body: Some("{}".to_string()),
        }
    );
    let only_ttl = IndexOperation::new("idx", "doc").with_ttl(18446744073709551615).request().unwrap();
    assert_eq!(only_ttl.params, vec![param("ttl", "18446744073709551615")]);
    assert!(!has_param(&only_ttl, "op_type"));
    assert_eq!(OpType::Create.as_str(), "create");
    assert_eq!(OpType::Index.as_str(), "index");
}

#[test]
fn index_request_of_takes_the_body_as_given() {
    let operation = || IndexOperation::new("idx", "doc").with_id("1");
    let request = operation().request_of(Some("{\"a\":1}".to_string()));
    assert_eq!(request.method, Method::Put);
    assert_eq!(request.body, Some("{\"a\":1}".to_string()));
    assert_eq!(operation().request_of(None).body, None);
}

#[test]
fn index_result_names_the_first_missing_field() {
    let operation = || IndexOperation::new("idx", "doc");
    assert_eq!(
        operation().response(200, b"{\"_index\":\"idx\",\"_type\":\"doc\",\"_id\":\"1\",\"_version\":3,\"created\":false}"),
        Ok(IndexResult {
            created: false,
            index: "idx".to_string(),
            doc_type: "doc".to_string(),
            id: "1".to_string(),
            version: 3,
        })
    );
    assert_eq!(operation().response(200, b"{}"), Err(shape("created")));
    assert_eq!(operation().response(200, b"{\"created\":true}"), Err(shape("_index")));
    assert_eq!(operation().response(200, b"{\"created\":true,\"_index\":\"i\"}"), Err(shape("_type")));
    assert_eq!(
        operation().response(200, b"{\"created\":true,\"_index\":\"i\",\"_type\":\"t\"}"),
        Err(shape("_id"))
    );
    assert_eq!(
        operation().response(200, b"{\"created\":true,\"_index\":\"i\",\"_type\":\"t\",\"_id\":\"1\",\"_version\":-1}"),
        Err(shape("_version"))
    );
    assert_eq!(operation().response(201, b""), Err(shape("body")));
    assert_eq!(
        operation().response(409, b"{\"error\":\"DocumentAlreadyExistsException\",\"status\":409}"),
        Err(EsError::EngineError {
            status: 409,
            body: b"{\"error\":\"DocumentAlreadyExistsException\",\"status\":409}".to_vec(),
        })
    );
    match operation().response(200, b"<html>") {
        Err(EsError::EncodingError(EncodingFailure::Response(_))) => {}
        other => panic!("unexpected outcome: {:?}", other),
    }
}

#[test]
fn get_request_uses_all_types_unless_one_is_set() {
    assert_eq!(
        GetOperation::new("idx", "1").request(),
        Request { method: Method::Get, path: "/idx/_all/1".to_string(), params: vec![], body: None }
    );
    let request = GetOperation::new("idx", "1")
        .with_fields(&["a", "b"])
        .with_doc_type("doc")
        .request();
    assert_eq!(request.path, "/idx/doc/1");
    assert_eq!(request.params, vec![param("fields", "a,b")]);
    assert_eq!(request.target(), "/idx/doc/1?fields=a,b");
}

#[test]
fn get_of_a_missing_document_is_a_result() {
    let operation = || GetOperation::new("idx", "nope").with_doc_type("doc");
    let result = operation()
        .response(404, b"{\"_index\":\"idx\",\"_type\":\"doc\",\"_id\":\"nope\",\"found\":false}")
        .unwrap();
    assert_eq!(
        result,
        GetResult {
            index: "idx".to_string(),
            doc_type: "doc".to_string(),
            id: "nope".to_string(),
            version: None,
            found: false,
            source: None,
        }
    );
}

#[test]
fn get_result_names_the_first_missing_field() {
    let operation = || GetOperation::new("idx", "1");
    assert_eq!(
        operation().response(404, b"{\"error\":\"IndexMissingException[[idx] missing]\",\"status\":404}"),
        Err(shape("_index"))
    );
    assert_eq!(operation().response(200, b"{\"_index\":\"i\"}"), Err(shape("_type")));
    assert_eq!(operation().response(200, b"{\"_index\":\"i\",\"_type\":\"t\"}"), Err(shape("_id")));
    assert_eq!(
        operation().response(200, b"{\"_index\":\"i\",\"_type\":\"t\",\"_id\":\"1\",\"found\":\"yes\"}"),
        Err(shape("found"))
    );
    assert_eq!(operation().response(404, b""), Err(shape("body")));
    assert_eq!(
        operation().response(500, b"boom"),
        Err(EsError::EngineError { status: 500, body: b"boom".to_vec() })
    );
}

#[test]
fn delete_request_addresses_one_document() {
    assert_eq!(
        DeleteOperation::new("idx", "doc", "1").request(),
        Request { method: Method::Delete, path: "/idx/doc/1".to_string(), params: vec![], body: None }
    );
}

#[test]
fn deleting_a_missing_document_twice_is_not_found_both_times() {
    let operation = || DeleteOperation::new("idx", "doc", "gone");
    let body = b"{\"found\":false,\"_index\":\"idx\",\"_type\":\"doc\",\"_id\":\"gone\",\"_version\":1}";
    let expected = DeleteResult {
        found: false,
        index: "idx".to_string(),
        doc_type: "doc".to_string(),
        id: "gone".to_string(),
        version: 1,
    };
    assert_eq!(operation().response(404, body), Ok(expected));
    let again = b"{\"found\":false,\"_index\":\"idx\",\"_type\":\"doc\",\"_id\":\"gone\",\"_version\":2}";
    let second = operation().response(404, again).unwrap();
    assert_eq!(second.found, false);
    assert_eq!(second.version, 2);
}

#[test]
fn delete_result_reports_what_was_found() {
    let operation = || DeleteOperation::new("idx", "doc", "1");
    let result = operation()
        .response(200, b"{\"found\":true,\"_index\":\"idx\",\"_type\":\"doc\",\"_id\":\"1\",\"_version\":4}")
        .unwrap();
    assert!(result.found);
    assert_eq!(result.version, 4);
    assert_eq!(operation().response(404, b"{\"status\":404}"), Err(shape("found")));
    assert_eq!(operation().response(200, b"{\"found\":true}"), Err(shape("_index")));
    assert_eq!(
        operation().response(200, b"{\"found\":true,\"_index\":\"i\",\"_type\":\"t\",\"_id\":\"1\"}"),
        Err(shape("_version"))
    );
    assert_eq!(
        operation().response(503, b""),
        Err(EsError::EngineError { status: 503, body: vec![] })
    );
}

#[test]
fn delete_by_query_sends_the_query_as_the_body() {
    let operation = || DeleteByQueryOperation::new().with_query(Query::build_match_all().build());
    assert_eq!(
        operation().request().unwrap(),
        Request {
            method: Method::Delete,
            path: "/_all/_query".to_string(),
            params: vec![],
            body: Some("{\"query\":{\"match_all\":{}}}".to_string()),
        }
    );
    assert_eq!(
        operation().document(),
        Some(JsonValue::Object(vec![(
            "query".to_string(),
            JsonValue::Object(vec![("match_all".to_string(), JsonValue::Object(vec![]))])
        )]))
    );
    let unset = DeleteByQueryOperation::new().with_indexes(&["a", "b"]);
    assert_eq!(unset.document(), None);
    let request = unset.request().unwrap();
    assert_eq!(request.path, "/a,b/_query");
    assert_eq!(request.body, None);
}

#[test]
fn delete_by_query_on_a_missing_index_has_no_result() {
    let operation = || DeleteByQueryOperation::new();
    assert_eq!(operation().response(404, b"{\"error\":\"IndexMissingException\",\"status\":404}"), Ok(None));
    assert_eq!(operation().response(404, b""), Ok(None));
    assert_eq!(operation().decode(404, None), Ok(None));
}

#[test]
fn delete_by_query_result_lists_the_shards_of_each_index() {
    let operation = || DeleteByQueryOperation::new();
    let result = operation()
        .response(
            200,
            b"{\"_indices\":{\"b\":{\"_shards\":{\"total\":2,\"successful\":1,\"failed\":1}},\"a\":{\"_shards\":{\"total\":5,\"successful\":5,\"failed\":0}}}}",
        )
        .unwrap()
        .unwrap();
    assert_eq!(
        result,
        DeleteByQueryResult {
            indices: vec![
                (
                    "a".to_string(),
                    DeleteByQueryIndexResult {
                        shards: ShardCountResult { total: 5, successful: 5, failed: 0 }
                    }
                ),
                (
                    "b".to_string(),
                    DeleteByQueryIndexResult {
                        shards: ShardCountResult { total: 2, successful: 1, failed: 1 }
                    }
                ),
            ]
        }
    );
    assert!(!result.successful());
}

#[test]
fn delete_by_query_is_successful_only_if_every_shard_is() {
    let shards = |total, successful, failed| DeleteByQueryIndexResult {
        shards: ShardCountResult { total, successful, failed },
    };
    let of = |list: Vec<DeleteByQueryIndexResult>| DeleteByQueryResult {
        indices: list.into_iter().map(|r| ("i".to_string(), r)).collect(),
    };
    assert!(of(vec![]).successful());
    assert!(of(vec![shards(0, 0, 0)]).successful());
    assert!(of(vec![shards(5, 5, 0), shards(1, 1, 0)]).successful());
    assert!(!of(vec![shards(5, 5, 0), shards(5, 4, 1)]).successful());
    assert!(!of(vec![shards(5, 4, 0)]).successful());
    assert!(!of(vec![shards(5, 5, 1)]).successful());
    assert!(ShardCountResult { total: 3, successful: 3, failed: 0 }.succeeded());
    assert!(!ShardCountResult { total: 3, successful: 2, failed: 0 }.succeeded());
}

#[test]
fn delete_by_query_result_names_the_path_that_is_missing() {
    let operation = || DeleteByQueryOperation::new();
    assert_eq!(operation().response(200, b"{}"), Err(shape("_indices")));
    assert_eq!(operation().response(200, b"{\"_indices\":[]}"), Err(shape("_indices")));
    assert_eq!(operation().response(200, b"{\"_indices\":{\"a\":{}}}"), Err(shape("_indices.a._shards")));
    assert_eq!(
        operation().response(200, b"{\"_indices\":{\"a\":{\"_shards\":{\"total\":1,\"successful\":1}}}}"),
        Err(shape("_indices.a._shards.failed"))
    );
    assert_eq!(operation().response(200, b""), Err(shape("body")));
    assert_eq!(
        operation().response(400, b"bad"),
        Err(EsError::EngineError { status: 400, body: b"bad".to_vec() })
    );
    match operation().response(404, b"oops") {
        Err(EsError::EncodingError(EncodingFailure::Response(_))) => {}
        other => panic!("unexpected outcome: {:?}", other),
    }
}

#[test]
fn search_uri_without_options_has_no_parameters() {
    let request = SearchURIOperation::new().request();
    assert_eq!(
        request,
        Request { method: Method::Get, path: "/_all/_search".to_string(), params: vec![], body: None }
    );
    let typed = SearchURIOperation::new()
        .with_doc_types(&["t"])
        .with_indexes(&["a", "b"])
        .with_fields(&[])
        .request();
    assert_eq!(typed.path, "/a,b/t/_search");
    assert_eq!(typed.params, vec![param("fields", "")]);
    assert!(!has_param(&typed, "q"));
}

#[test]
fn search_query_body_holds_only_what_is_set() {
    assert_eq!(SearchQueryOperation::new().request().unwrap().body, Some("{}".to_string()));
    assert_eq!(SearchQueryOperation::new().document(), JsonValue::Object(vec![]));
    let paged = SearchQueryOperation::new().with_size(10).with_from(20);
    assert_eq!(
        paged.document(),
        JsonValue::Object(vec![
            ("from".to_string(), JsonValue::U64(20)),
            ("size".to_string(), JsonValue::U64(10)),
        ])
    );
    assert_eq!(paged.document().find("query"), None);
    let request = SearchQueryOperation::new()
        .with_doc_types(&["t"])
        .with_query(Query::build_match_all().build())
        .with_size(1)
        .request()
        .unwrap();
    assert_eq!(request.method, Method::Post);
    assert_eq!(request.path, "/_all/t/_search");
    assert!(request.params.is_empty());
    assert_eq!(request.body, Some("{\"query\":{\"match_all\":{}},\"size\":1}".to_string()));
    assert_eq!(
        SearchQueryOperation::new().request_of("{}".to_string()).body,
        Some("{}".to_string())
    );
}

#[test]
fn search_result_lists_the_hits_in_order() {
    let body = b"{\"took\":4,\"timed_out\":true,\"_shards\":{\"total\":2,\"successful\":2,\"failed\":0},\"hits\":{\"total\":12,\"max_score\":0.5,\"hits\":[{\"_index\":\"a\",\"_type\":\"t\",\"_id\":\"2\",\"_score\":0.5,\"_source\":{\"n\":2}},{\"_index\":\"b\",\"_type\":\"t\",\"_id\":\"1\",\"fields\":{\"n\":[1]}}]}}";
    let result: SearchResult = SearchURIOperation::new().response(200, body).unwrap();
    assert_eq!(result.took, 4);
    assert_eq!(result.timed_out, true);
    assert_eq!(result.shards, ShardCountResult { total: 2, successful: 2, failed: 0 });
    assert_eq!(result.hits.total, 12);
    assert_eq!(
        result.hits.hits,
        vec![
            SearchHitsHitsResult {
                index: "a".to_string(),
                doc_type: "t".to_string(),
                id: "2".to_string(),
                source: Some(JsonValue::Object(vec![("n".to_string(), JsonValue::U64(2))])),
                fields: None,
            },
            SearchHitsHitsResult {
                index: "b".to_string(),
                doc_type: "t".to_string(),
                id: "1".to_string(),
                source: None,
                fields: Some(JsonValue::Object(vec![(
                    "n".to_string(),
                    JsonValue::Array(vec![JsonValue::U64(1)])
                )])),
            },
        ]
    );
    assert_eq!(SearchQueryOperation::new().response(200, body).unwrap().hits.total, 12);
}

#[test]
fn search_result_names_the_path_that_is_missing() {
    let operation = || SearchURIOperation::new();
    assert_eq!(operation().response(200, b"{}"), Err(shape("took")));
    assert_eq!(operation().response(200, b"{\"took\":1}"), Err(shape("timed_out")));
    assert_eq!(operation().response(200, b"{\"took\":1,\"timed_out\":false}"), Err(shape("_shards")));
    assert_eq!(
        operation().response(200, b"{\"took\":1,\"timed_out\":false,\"_shards\":{}}"),
        Err(shape("_shards.total"))
    );
    let shards = "\"_shards\":{\"total\":1,\"successful\":1,\"failed\":0}";
    let with = |rest: &str| format!("{{\"took\":1,\"timed_out\":false,{}{}}}", shards, rest).into_bytes();
    assert_eq!(operation().response(200, &with("")), Err(shape("hits")));
    assert_eq!(operation().response(200, &with(",\"hits\":{}")), Err(shape("hits.total")));
    assert_eq!(operation().response(200, &with(",\"hits\":{\"total\":1}")), Err(shape("hits.hits")));
    assert_eq!(
        operation().response(200, &with(",\"hits\":{\"total\":1,\"hits\":[{\"_index\":\"a\",\"_type\":\"t\",\"_id\":\"1\"},{\"_index\":\"a\"}]}")),
        Err(shape("hits.hits._type"))
    );
    assert_eq!(operation().response(404, &with(",\"hits\":{\"total\":0,\"hits\":[]}")).unwrap().hits.total, 0);
    assert_eq!(
        operation().response(400, b"SearchParseException"),
        Err(EsError::EngineError { status: 400, body: b"SearchParseException".to_vec() })
    );
}

#[test]
fn analyze_sends_the_text_as_it_is() {
    assert_eq!(
        AnalyzeOperation::new("Some \"text\"\nhere").request(),
        Request {
            method: Method::Post,
            path: "/_analyze".to_string(),
            params: vec![],
            body: Some("Some \"text\"\nhere".to_string()),
        }
    );
    let request = AnalyzeOperation::new("t").with_analyzer("standard").with_index("idx").request();
    assert_eq!(request.path, "/idx/_analyze");
    assert_eq!(request.params, vec![param("analyzer", "standard")]);
}

#[test]
fn analyze_result_lists_the_tokens_in_order() {
    let operation = || AnalyzeOperation::new("a b");
    let result = operation()
        .response(
            200,
            b"{\"tokens\":[{\"token\":\"a\",\"start_offset\":0,\"end_offset\":1,\"type\":\"<ALPHANUM>\",\"position\":1},{\"token\":\"b\",\"start_offset\":2,\"end_offset\":3,\"type\":\"<ALPHANUM>\",\"position\":2}]}",
        )
        .unwrap();
    assert_eq!(
        result,
        AnalyzeResult {
            tokens: vec![
                Token {
                    token: "a".to_string(),
                    token_type: "<ALPHANUM>".to_string(),
                    position: 1,
                    start_offset: 0,
                    end_offset: 1,
                },
                Token {
                    token: "b".to_string(),
                    token_type: "<ALPHANUM>".to_string(),
                    position: 2,
                    start_offset: 2,
                    end_offset: 3,
                },
            ]
        }
    );
    assert_eq!(operation().response(200, b"{\"tokens\":[]}"), Ok(AnalyzeResult { tokens: vec![] }));
    assert_eq!(operation().response(200, b"{}"), Err(shape("tokens")));
    assert_eq!(operation().response(200, b"{\"tokens\":[{}]}"), Err(shape("tokens.token")));
    assert_eq!(
        operation().response(200, b"{\"tokens\":[{\"token\":\"a\",\"type\":\"w\",\"position\":1,\"start_offset\":0}]}"),
        Err(shape("tokens.end_offset"))
    );
}

#[test]
fn refresh_addresses_the_given_indexes_or_all() {
    assert_eq!(
        RefreshOperation::new().request(),
        Request { method: Method::Post, path: "/_all/_refresh".to_string(), params: vec![], body: None }
    );
    let operation = || RefreshOperation::new().with_indexes(&["a", "b"]);
    assert_eq!(operation().request().path, "/a,b/_refresh");
    assert_eq!(
        operation().response(200, b"{\"_shards\":{\"total\":4,\"successful\":2,\"failed\":0}}"),
        Ok(RefreshResult { shards: ShardCountResult { total: 4, successful: 2, failed: 0 } })
    );
    assert_eq!(operation().response(200, b"{}"), Err(shape("_shards")));
    assert_eq!(
        operation().response(200, b"{\"_shards\":{\"total\":4}}"),
        Err(shape("_shards.successful"))
    );
}

#[test]
fn within_prefixes_only_shape_errors() {
    assert_eq!(within("hits", shape("total")), shape("hits.total"));
    assert_eq!(
        within("hits", EsError::TransportError("refused".to_string())),
        EsError::TransportError("refused".to_string())
    );
    assert_eq!(
        within("hits", EsError::EngineError { status: 500, body: vec![1] }),
        EsError::EngineError { status: 500, body: vec![1] }
    );
}

#[test]
fn errors_describe_themselves() {
    assert_eq!(EsError::TransportError("connection refused".to_string()).describe(), "transport error: connection refused");
    assert_eq!(
        EsError::EngineError { status: 503, body: b"x".to_vec() }.describe(),
        "engine answered with status 503"
    );
    assert_eq!(shape("version.number").describe(), "response lacks version.number");
    assert_eq!(EsError::shape("a"), shape("a"));
    match rs_es::json::parse(b"{") {
        Err(e) => assert_eq!(e.describe(), "response body is not JSON"),
        Ok(v) => panic!("unexpected value: {:?}", v),
    }
}
