//! The search operations: by a query string in the URL, and by a query
//! expression in the body.

use crate::error::EsError;
use crate::json::encode;
use crate::json::items_model;
use crate::json::fits;
use crate::json::lemma_names_of_concat;
use crate::json::lemma_names_of_optional;
use crate::json::lemma_sound_concat;
use crate::json::lemma_sound_optional;
use crate::json::json_text;
use crate::json::lemma_has_key;
use crate::json::lemma_names_key_concat;
use crate::json::lemma_names_optional_field;
use crate::json::object;
use crate::json::optional_field;
use crate::json::push_optional;
use crate::json::JsonModel;
use crate::json::JsonValue;
use crate::operations::copy_names;
use crate::operations::delete::query_model;
use crate::operations::format_indexes_and_types;
use crate::operations::get::format_list;
use crate::operations::get::list_model;
use crate::operations::get::list_text;
use crate::operations::name_text;
use crate::operations::read_shards;
use crate::operations::scope_path;
use crate::operations::shards_fault;
use crate::operations::shards_of;
use crate::operations::source_model;
use crate::operations::within;
use crate::operations::ShardCountResult;
use crate::query::wire_model;
use crate::query::Query;
use crate::query::QueryModel;
use crate::receive;
use crate::received;
use crate::reception_error;
use crate::request::has_param;
use crate::request::lemma_has_optional_param;
use crate::request::lemma_has_param_concat;
use crate::request::optional_param;
use crate::request::push_param;
use crate::request::Method;
use crate::request::Request;
use crate::request::RequestModel;
use crate::text::slices;
use crate::text::texts;
use crate::Received;
use vstd::prelude::*;

verus! {

/// The mathematical value of a search by query string.
pub ghost struct SearchURIModel {
    pub indexes: Seq<Seq<char>>,
    pub doc_types: Seq<Seq<char>>,
    pub query: Option<Seq<char>>,
    pub fields: Option<Seq<Seq<char>>>,
}

impl SearchURIModel {
    /// `/{indexes}/_search`, or `/{indexes}/{types}/_search` where types are set.
    pub open spec fn path(self) -> Seq<char> {
        scope_path(self.indexes, self.doc_types) + "/_search"@
    }

    /// The parameters `q` and `fields`, each only where it is set.
    pub open spec fn params(self) -> Seq<(Seq<char>, Seq<char>)> {
        optional_param("q"@, self.query) + optional_param("fields"@, list_text(self.fields))
    }

    /// The request of the operation.
    pub open spec fn request(self) -> RequestModel {
        RequestModel { method: Method::Get, path: self.path(), params: self.params(), body: None }
    }
}

/// A search by query string under construction.
pub struct SearchURIOperation {
    indexes: Vec<String>,
    doc_types: Vec<String>,
    query: Option<String>,
    fields: Option<Vec<String>>,
}

impl View for SearchURIOperation {
    type V = SearchURIModel;

    closed spec fn view(&self) -> SearchURIModel {
        SearchURIModel {
            indexes: texts(self.indexes@),
            doc_types: texts(self.doc_types@),
            query: name_text(self.query),
            fields: list_model(self.fields),
        }
    }
}

impl SearchURIOperation {
    /// A search of all indexes and types for all documents.
    pub fn new() -> (r: SearchURIOperation)
        ensures
            r@ == (SearchURIModel {
                indexes: Seq::empty(),
                doc_types: Seq::empty(),
                query: None,
                fields: None,
            }),
    {
        let r = SearchURIOperation { indexes: Vec::new(), doc_types: Vec::new(), query: None, fields: None };
        assert(texts(r.doc_types@) =~= Seq::empty());
        r
    }

    /// Restricts the search to the given indexes.
    pub fn with_indexes(self, indexes: &[&str]) -> (r: SearchURIOperation)
        ensures
            r@ == (SearchURIModel { indexes: slices(indexes@), ..self@ }),
    {
        SearchURIOperation { indexes: copy_names(indexes), ..self }
    }

    /// Restricts the search to the given document types.
    pub fn with_doc_types(self, doc_types: &[&str]) -> (r: SearchURIOperation)
        ensures
            r@ == (SearchURIModel { doc_types: slices(doc_types@), ..self@ }),
    {
        SearchURIOperation { doc_types: copy_names(doc_types), ..self }
    }

    /// Sets the query, in the engine's query-string syntax.
    pub fn with_query(self, query: &str) -> (r: SearchURIOperation)
        ensures
            r@ == (SearchURIModel { query: Some(query@), ..self@ }),
    {
        SearchURIOperation { query: Some(String::from_str(query)), ..self }
    }

    /// Sets the fields to return.
    pub fn with_fields(self, fields: &[&str]) -> (r: SearchURIOperation)
        ensures
            r@ == (SearchURIModel { fields: Some(slices(fields@)), ..self@ }),
    {
        SearchURIOperation { fields: Some(copy_names(fields)), ..self }
    }

    /// The request of the operation.
    pub fn request(&self) -> (r: Request)
        ensures
            r@ == self@.request(),
    {
        let mut path = format_indexes_and_types(&self.indexes, &self.doc_types);
        path.append("/_search");
        let mut params: Vec<(String, String)> = Vec::new();
        push_param(&mut params, "q", self.query.clone());
        push_param(&mut params, "fields", format_list(&self.fields));
        Request { method: Method::Get, path, params, body: None }
    }

    /// Ends the operation: reads its result out of the response.
    pub fn response(self, status: u16, body: &[u8]) -> (r: Result<SearchResult, EsError>)
        ensures
            SearchResult::answers(status, body@, r),
    {
        let d = receive(status, body)?;
        SearchResult::from_json(&d)
    }
}

/// A parameter of a search by query string is present exactly if the option
/// of its name was set: `q` for the query, `fields` for the fields to return.
pub proof fn lemma_search_uri_params_follow_options(op: SearchURIModel, key: Seq<char>)
    ensures
        has_param(op.request().params, key) <==> (op.query is Some && key == "q"@) || (op.fields is Some
            && key == "fields"@),
        op.request().body is None,
{
    lemma_has_param_concat(
        optional_param("q"@, op.query),
        optional_param("fields"@, list_text(op.fields)),
        key,
    );
    lemma_has_optional_param("q"@, op.query, key);
    lemma_has_optional_param("fields"@, list_text(op.fields), key);
}

/// The mathematical value of a search by query expression.
pub ghost struct SearchQueryModel {
    pub indexes: Seq<Seq<char>>,
    pub doc_types: Seq<Seq<char>>,
    pub query: Option<QueryModel>,
    pub from: Option<u64>,
    pub size: Option<u64>,
}

/// An optional number as a JSON value.
pub open spec fn number_model(value: Option<u64>) -> Option<JsonModel> {
    match value {
        Some(n) => Some(JsonModel::U64(n)),
        None => None,
    }
}

impl SearchQueryModel {
    /// `/{indexes}/_search`, or `/{indexes}/{types}/_search` where types are set.
    pub open spec fn path(self) -> Seq<char> {
        scope_path(self.indexes, self.doc_types) + "/_search"@
    }

    /// The members of the body: `query`, `from` and `size`, each only where
    /// it is set.
    pub open spec fn members(self) -> Seq<(Seq<char>, JsonModel)> {
        optional_field("query"@, wire_model(self.query)) + optional_field(
            "from"@,
            number_model(self.from),
        ) + optional_field("size"@, number_model(self.size))
    }

    /// The body's document.
    pub open spec fn document(self) -> JsonModel {
        JsonModel::Object(self.members())
    }

    /// The request with a given body.
    pub open spec fn request_with(self, body: Seq<char>) -> RequestModel {
        RequestModel { method: Method::Post, path: self.path(), params: Seq::empty(), body: Some(body) }
    }

    /// The request of the operation.
    pub open spec fn request(self) -> RequestModel {
        self.request_with(json_text(self.document()))
    }
}

/// The names of the members of a search body differ from one another.
proof fn lemma_member_names()
    ensures
        "query"@ != "from"@,
        "query"@ != "size"@,
        "from"@ != "size"@,
{
    reveal_strlit("query");
    reveal_strlit("from");
    reveal_strlit("size");
    assert("query"@.len() == 5 && "from"@.len() == 4 && "size"@.len() == 4);
    assert("from"@[0] != "size"@[0]);
}

/// The body of a search names no field twice, if the wire form of its
/// query does not.
pub proof fn lemma_search_document_distinct(op: SearchQueryModel)
    requires
        fits(wire_model(op.query)),
    ensures
        op.document().distinct_names(),
{
    lemma_member_names();
    let a = optional_field("query"@, wire_model(op.query));
    let b = optional_field("from"@, number_model(op.from));
    let c = optional_field("size"@, number_model(op.size));
    lemma_names_of_optional("query"@, wire_model(op.query));
    lemma_names_of_optional("from"@, number_model(op.from));
    lemma_names_of_optional("size"@, number_model(op.size));
    lemma_sound_optional("query"@, wire_model(op.query));
    lemma_sound_optional("from"@, number_model(op.from));
    lemma_sound_optional("size"@, number_model(op.size));
    lemma_names_of_concat(a, b);
    lemma_sound_concat(a, b);
    lemma_sound_concat(a + b, c);
}

/// A search by query expression under construction.
pub struct SearchQueryOperation {
    indexes: Vec<String>,
    doc_types: Vec<String>,
    query: Option<Query>,
    from: Option<u64>,
    size: Option<u64>,
}

impl View for SearchQueryOperation {
    type V = SearchQueryModel;

    closed spec fn view(&self) -> SearchQueryModel {
        SearchQueryModel {
            indexes: texts(self.indexes@),
            doc_types: texts(self.doc_types@),
            query: query_model(self.query),
            from: self.from,
            size: self.size,
        }
    }
}

impl SearchQueryOperation {
    /// A search of all indexes and types, with nothing optional set.
    pub fn new() -> (r: SearchQueryOperation)
        ensures
            r@ == (SearchQueryModel {
                indexes: Seq::empty(),
                doc_types: Seq::empty(),
                query: None,
                from: None,
                size: None,
            }),
    {
        let r = SearchQueryOperation {
            indexes: Vec::new(),
            doc_types: Vec::new(),
            query: None,
            from: None,
            size: None,
        };
        assert(texts(r.doc_types@) =~= Seq::empty());
        r
    }

    /// Restricts the search to the given indexes.
    pub fn with_indexes(self, indexes: &[&str]) -> (r: SearchQueryOperation)
        ensures
            r@ == (SearchQueryModel { indexes: slices(indexes@), ..self@ }),
    {
        SearchQueryOperation { indexes: copy_names(indexes), ..self }
    }

    /// Restricts the search to the given document types.
    pub fn with_doc_types(self, doc_types: &[&str]) -> (r: SearchQueryOperation)
        ensures
            r@ == (SearchQueryModel { doc_types: slices(doc_types@), ..self@ }),
    {
        SearchQueryOperation { doc_types: copy_names(doc_types), ..self }
    }

    /// Sets the query.
    pub fn with_query(self, query: Query) -> (r: SearchQueryOperation)
        ensures
            r@ == (SearchQueryModel { query: Some(query@), ..self@ }),
    {
        SearchQueryOperation { query: Some(query), ..self }
    }

    /// Sets how many hits to skip.
    pub fn with_from(self, from: u64) -> (r: SearchQueryOperation)
        ensures
            r@ == (SearchQueryModel { from: Some(from), ..self@ }),
    {
        SearchQueryOperation { from: Some(from), ..self }
    }

    /// Sets how many hits to return.
    pub fn with_size(self, size: u64) -> (r: SearchQueryOperation)
        ensures
            r@ == (SearchQueryModel { size: Some(size), ..self@ }),
    {
        SearchQueryOperation { size: Some(size), ..self }
    }

    /// The document of the body.
    pub fn document(&self) -> (r: JsonValue)
        ensures
            r@ == self@.document(),
            r@.distinct_names(),
    {
        let mut members: Vec<(String, JsonValue)> = Vec::new();
        match &self.query {
            Some(q) => {
                let wire = q.to_json();
                push_optional(&mut members, "query", Some(wire));
            },
            None => {
                push_optional(&mut members, "query", None);
            },
        }
        proof {
            lemma_search_document_distinct(self@);
        }
        push_optional(
            &mut members,
            "from",
            match self.from {
                Some(n) => Some(JsonValue::U64(n)),
                None => None,
            },
        );
        push_optional(
            &mut members,
            "size",
            match self.size {
                Some(n) => Some(JsonValue::U64(n)),
                None => None,
            },
        );
        object(members)
    }

    /// The request with a given body.
    pub fn request_of(&self, body: String) -> (r: Request)
        ensures
            r@ == self@.request_with(body@),
    {
        let mut path = format_indexes_and_types(&self.indexes, &self.doc_types);
        path.append("/_search");
        let r = Request { method: Method::Post, path, params: Vec::new(), body: Some(body) };
        assert(r@.params =~= Seq::empty());
        r
    }

    /// The request of the operation. Every operation has one.
    pub fn request(&self) -> (r: Result<Request, EsError>)
        ensures
            match r {
                Ok(request) => request@ == self@.request(),
                Err(_) => false,
            },
    {
        let document = self.document();
        let body = encode(&document)?;
        Ok(self.request_of(body))
    }

    /// Ends the operation: reads its result out of the response.
    pub fn response(self, status: u16, body: &[u8]) -> (r: Result<SearchResult, EsError>)
        ensures
            SearchResult::answers(status, body@, r),
    {
        let d = receive(status, body)?;
        SearchResult::from_json(&d)
    }
}

/// A member of the body of a search by query expression is present exactly
/// if the option of its name was set.
pub proof fn lemma_search_query_members_follow_options(op: SearchQueryModel, key: Seq<char>)
    ensures
        op.document().has_key(key) <==> (op.query is Some && key == "query"@) || (op.from is Some
            && key == "from"@) || (op.size is Some && key == "size"@),
{
    let a = optional_field("query"@, wire_model(op.query));
    let b = optional_field("from"@, number_model(op.from));
    let c = optional_field("size"@, number_model(op.size));
    lemma_has_key(op.members(), key);
    lemma_names_key_concat(a + b, c, key);
    lemma_names_key_concat(a, b, key);
    lemma_names_optional_field("query"@, wire_model(op.query), key);
    lemma_names_optional_field("from"@, number_model(op.from), key);
    lemma_names_optional_field("size"@, number_model(op.size), key);
}

/// One document that a search found.
#[derive(Debug, PartialEq)]
pub struct SearchHitsHitsResult {
    pub index: String,
    pub doc_type: String,
    pub id: String,
    /// The document, where the engine returned it.
    pub source: Option<JsonValue>,
    /// The requested fields, where the engine returned them.
    pub fields: Option<JsonValue>,
}

impl SearchHitsHitsResult {
    /// The first field that a document lacks to be a hit.
    pub open spec fn shape_fault(d: JsonModel) -> Option<Seq<char>> {
        if d.string_at("_index"@) is None {
            Some("_index"@)
        } else if d.string_at("_type"@) is None {
            Some("_type"@)
        } else if d.string_at("_id"@) is None {
            Some("_id"@)
        } else {
            None
        }
    }

    /// Whether the hit says what the document holds.
    pub open spec fn describes(&self, d: JsonModel) -> bool {
        &&& d.string_at("_index"@) == Some(self.index@)
        &&& d.string_at("_type"@) == Some(self.doc_type@)
        &&& d.string_at("_id"@) == Some(self.id@)
        &&& d.get("_source"@) == source_model(self.source)
        &&& d.get("fields"@) == source_model(self.fields)
    }

    /// Reads a hit.
    pub fn from_json(d: &JsonValue) -> (r: Result<SearchHitsHitsResult, EsError>)
        ensures
            match r {
                Ok(hit) => Self::shape_fault(d@) is None && hit.describes(d@),
                Err(e) => Self::shape_fault(d@) matches Some(path) && e.is_shape_error(path),
            },
    {
        let index = d.read_string("_index")?;
        let doc_type = d.read_string("_type")?;
        let id = d.read_string("_id")?;
        let source = match d.find("_source") {
            Some(v) => Some(v.clone()),
            None => None,
        };
        let fields = match d.find("fields") {
            Some(v) => Some(v.clone()),
            None => None,
        };
        Ok(SearchHitsHitsResult { index, doc_type, id, source, fields })
    }
}

/// The fault of the first document, at or after `from`, that is no hit.
pub open spec fn first_hit_fault(items: Seq<JsonModel>, from: int) -> Option<Seq<char>>
    decreases items.len() - from,
{
    if from < 0 || from >= items.len() {
        None
    } else {
        match SearchHitsHitsResult::shape_fault(items[from]) {
            Some(path) => Some(path),
            None => first_hit_fault(items, from + 1),
        }
    }
}

/// The documents that a search found.
#[derive(Debug, PartialEq)]
pub struct SearchHitsResult {
    /// How many documents match, whether returned or not.
    pub total: u64,
    /// The returned documents, best first.
    pub hits: Vec<SearchHitsHitsResult>,
}

impl SearchHitsResult {
    /// The path that a document lacks to be the hits of a search.
    pub open spec fn shape_fault(d: JsonModel) -> Option<Seq<char>> {
        if d.u64_at("total"@) is None {
            Some("total"@)
        } else if d.array_at("hits"@) is None {
            Some("hits"@)
        } else if first_hit_fault(d.array_at("hits"@)->0, 0) is Some {
            Some("hits"@ + "."@ + first_hit_fault(d.array_at("hits"@)->0, 0)->0)
        } else {
            None
        }
    }

    /// Whether the hits say what the document holds: the total, and for
    /// every listed document, at its position, its hit.
    pub open spec fn describes(&self, d: JsonModel) -> bool {
        &&& d.u64_at("total"@) == Some(self.total)
        &&& d.array_at("hits"@) matches Some(items)
        &&& items.len() == self.hits@.len()
        &&& forall|i: int| 0 <= i < items.len() ==> (#[trigger] self.hits@[i]).describes(items[i])
    }

    /// Reads the hits of a search.
    pub fn from_json(d: &JsonValue) -> (r: Result<SearchHitsResult, EsError>)
        ensures
            match r {
                Ok(hits) => Self::shape_fault(d@) is None && hits.describes(d@),
                Err(e) => Self::shape_fault(d@) matches Some(path) && e.is_shape_error(path),
            },
    {
        let total = d.read_u64("total")?;
        let items = d.read_array("hits")?;
        let mut hits: Vec<SearchHitsHitsResult> = Vec::new();
        let mut i: usize = 0;
        while i < items.len()
            invariant
                i <= items.len(),
                hits@.len() == i,
                d@.u64_at("total"@) == Some(total),
                d@.array_at("hits"@) == Some(items_model(items@)),
                first_hit_fault(items_model(items@), 0) == first_hit_fault(items_model(items@), i as int),
                forall|k: int| 0 <= k < i ==> (#[trigger] hits@[k]).describes(items_model(items@)[k]),
            decreases items.len() - i,
        {
            match SearchHitsHitsResult::from_json(&items[i]) {
                Ok(hit) => {
                    hits.push(hit);
                },
                Err(e) => {
                    return Err(within("hits", e));
                },
            }
            i += 1;
        }
        Ok(SearchHitsResult { total, hits })
    }
}

/// What the engine reports of a search.
#[derive(Debug, PartialEq)]
pub struct SearchResult {
    /// The milliseconds that the search took.
    pub took: u64,
    pub timed_out: bool,
    pub shards: ShardCountResult,
    pub hits: SearchHitsResult,
}

impl SearchResult {
    /// The path that a document lacks to be a search result.
    pub open spec fn shape_fault(d: JsonModel) -> Option<Seq<char>> {
        if d.u64_at("took"@) is None {
            Some("took"@)
        } else if d.boolean_at("timed_out"@) is None {
            Some("timed_out"@)
        } else if shards_fault(d) is Some {
            shards_fault(d)
        } else {
            match d.get("hits"@) {
                None => Some("hits"@),
                Some(hits) => match SearchHitsResult::shape_fault(hits) {
                    Some(path) => Some("hits"@ + "."@ + path),
                    None => None,
                },
            }
        }
    }

    /// Whether the result says what the document holds.
    pub open spec fn describes(&self, d: JsonModel) -> bool {
        &&& d.u64_at("took"@) == Some(self.took)
        &&& d.boolean_at("timed_out"@) == Some(self.timed_out)
        &&& self.shards == shards_of(d)
        &&& d.get("hits"@) matches Some(hits)
        &&& self.hits.describes(hits)
    }

    /// Whether `r` is what a response with this status and body comes to.
    pub open spec fn answers(status: u16, body: Seq<u8>, r: Result<SearchResult, EsError>) -> bool {
        match r {
            Ok(result) => {
                &&& received(status, body) matches Received::Document(d)
                &&& Self::shape_fault(d) is None
                &&& result.describes(d)
            },
            Err(e) => match received(status, body) {
                Received::Document(d) => Self::shape_fault(d) matches Some(path) && e.is_shape_error(
                    path,
                ),
                _ => reception_error(status, body, e),
            },
        }
    }

    /// Reads a search result.
    pub fn from_json(d: &JsonValue) -> (r: Result<SearchResult, EsError>)
        ensures
            match r {
                Ok(result) => Self::shape_fault(d@) is None && result.describes(d@),
                Err(e) => Self::shape_fault(d@) matches Some(path) && e.is_shape_error(path),
            },
    {
        let took = d.read_u64("took")?;
        let timed_out = d.read_boolean("timed_out")?;
        let shards = read_shards(d)?;
        let member = d.read_member("hits")?;
        let hits = match SearchHitsResult::from_json(member) {
            Ok(hits) => hits,
            Err(e) => {
                return Err(within("hits", e));
            },
        };
        Ok(SearchResult { took, timed_out, shards, hits })
    }
}

} // verus!
