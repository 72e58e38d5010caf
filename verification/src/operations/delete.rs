//! The delete operations: by id, and by query.

use crate::do_req;
use crate::error::EncodingFailure;
use crate::error::EsError;
use crate::json::encode;
use crate::json::fields_model;
use crate::json::json_text;
use crate::json::lemma_single_distinct;
use crate::json::single;
use crate::json::single_field;
use crate::json::JsonModel;
use crate::json::JsonValue;
use crate::operations::copy_names;
use crate::operations::format_indexes_and_types;
use crate::operations::name_text;
use crate::operations::read_shards;
use crate::operations::scope_path;
use crate::operations::shards_fault;
use crate::operations::shards_of;
use crate::operations::within;
use crate::operations::ShardCountResult;
use crate::query::Query;
use crate::query::QueryModel;
use crate::receive;
use crate::received;
use crate::reception_error;
use crate::request::Method;
use crate::request::Request;
use crate::request::RequestModel;
use crate::require_document;
use crate::status_class;
use crate::text::slices;
use crate::text::texts;
use crate::Received;
use crate::StatusClass;
use vstd::prelude::*;

verus! {

/// The mathematical value of a delete operation.
pub ghost struct DeleteModel {
    pub index: Seq<char>,
    pub doc_type: Seq<char>,
    pub id: Seq<char>,
}

impl DeleteModel {
    /// The request of the operation: `DELETE /{index}/{type}/{id}`.
    pub open spec fn request(self) -> RequestModel {
        RequestModel {
            method: Method::Delete,
            path: "/"@ + self.index + "/"@ + self.doc_type + "/"@ + self.id,
            params: Seq::empty(),
            body: None,
        }
    }
}

/// A delete operation under construction.
pub struct DeleteOperation {
    index: String,
    doc_type: String,
    id: String,
}

impl View for DeleteOperation {
    type V = DeleteModel;

    closed spec fn view(&self) -> DeleteModel {
        DeleteModel { index: self.index@, doc_type: self.doc_type@, id: self.id@ }
    }
}

impl DeleteOperation {
    /// An operation that deletes the document `id` of `doc_type` in `index`.
    pub fn new(index: &str, doc_type: &str, id: &str) -> (r: DeleteOperation)
        ensures
            r@ == (DeleteModel { index: index@, doc_type: doc_type@, id: id@ }),
    {
        DeleteOperation {
            index: String::from_str(index),
            doc_type: String::from_str(doc_type),
            id: String::from_str(id),
        }
    }

    /// The request of the operation.
    pub fn request(&self) -> (r: Request)
        ensures
            r@ == self@.request(),
    {
        let mut path = String::from_str("/");
        path.append(self.index.as_str());
        path.append("/");
        path.append(self.doc_type.as_str());
        path.append("/");
        path.append(self.id.as_str());
        let r = Request { method: Method::Delete, path, params: Vec::new(), body: None };
        assert(r@.params =~= Seq::empty());
        r
    }

    /// Ends the operation: reads its result out of the response. A 404 whose
    /// document reports `found` is a result, not an error.
    pub fn response(self, status: u16, body: &[u8]) -> (r: Result<DeleteResult, EsError>)
        ensures
            DeleteResult::answers(status, body@, r),
    {
        let d = receive(status, body)?;
        DeleteResult::from_json(&d)
    }
}

/// What the engine reports of a deleted document.
#[derive(Debug, PartialEq)]
pub struct DeleteResult {
    /// Whether the document existed.
    pub found: bool,
    pub index: String,
    pub doc_type: String,
    pub id: String,
    pub version: u64,
}

impl DeleteResult {
    /// The first field that a document lacks to be a delete result.
    pub open spec fn shape_fault(d: JsonModel) -> Option<Seq<char>> {
        if d.boolean_at("found"@) is None {
            Some("found"@)
        } else if d.string_at("_index"@) is None {
            Some("_index"@)
        } else if d.string_at("_type"@) is None {
            Some("_type"@)
        } else if d.string_at("_id"@) is None {
            Some("_id"@)
        } else if d.u64_at("_version"@) is None {
            Some("_version"@)
        } else {
            None
        }
    }

    /// Whether the result says what the document holds.
    pub open spec fn describes(&self, d: JsonModel) -> bool {
        &&& d.boolean_at("found"@) == Some(self.found)
        &&& d.string_at("_index"@) == Some(self.index@)
        &&& d.string_at("_type"@) == Some(self.doc_type@)
        &&& d.string_at("_id"@) == Some(self.id@)
        &&& d.u64_at("_version"@) == Some(self.version)
    }

    /// Whether `r` is what a response with this status and body comes to.
    pub open spec fn answers(status: u16, body: Seq<u8>, r: Result<DeleteResult, EsError>) -> bool {
        match r {
            Ok(result) => {
                &&& received(status, body) matches Received::Document(d)
                &&& Self::shape_fault(d) is None
                &&& result.describes(d)
            },
            Err(e) => match received(status, body) {
                Received::Document(d) => Self::shape_fault(d) matches Some(path) && e.is_shape_error(
                    path,
                ),
                _ => reception_error(status, body, e),
            },
        }
    }

    /// Reads a delete result.
    pub fn from_json(d: &JsonValue) -> (r: Result<DeleteResult, EsError>)
        ensures
            match r {
                Ok(result) => Self::shape_fault(d@) is None && result.describes(d@),
                Err(e) => Self::shape_fault(d@) matches Some(path) && e.is_shape_error(path),
            },
    {
        let found = d.read_boolean("found")?;
        let index = d.read_string("_index")?;
        let doc_type = d.read_string("_type")?;
        let id = d.read_string("_id")?;
        let version = d.read_u64("_version")?;
        Ok(DeleteResult { found, index, doc_type, id, version })
    }
}

/// A response to a delete with status 200, 201 or 404 whose document holds
/// the fields of a delete result is never an error, and the result's `found`
/// is the document's.
pub proof fn lemma_delete_not_found_is_a_result(
    status: u16,
    body: Seq<u8>,
    d: JsonModel,
    r: Result<DeleteResult, EsError>,
)
    requires
        DeleteResult::answers(status, body, r),
        status_class(status) != StatusClass::Failure,
        received(status, body) == Received::Document(d),
        DeleteResult::shape_fault(d) is None,
    ensures
        r matches Ok(result) && d.boolean_at("found"@) == Some(result.found),
{
}

/// Deleting an id that does not exist is not an error, however often it is
/// done: two responses with status 404 whose documents report `found: false`
/// both come to the result "not found".
pub proof fn lemma_delete_twice_not_found(
    first_body: Seq<u8>,
    first: Result<DeleteResult, EsError>,
    second_body: Seq<u8>,
    second: Result<DeleteResult, EsError>,
)
    requires
        DeleteResult::answers(404, first_body, first),
        DeleteResult::answers(404, second_body, second),
        received(404, first_body) matches Received::Document(d) && DeleteResult::shape_fault(d) is None
            && d.boolean_at("found"@) == Some(false),
        received(404, second_body) matches Received::Document(d) && DeleteResult::shape_fault(d) is None
            && d.boolean_at("found"@) == Some(false),
    ensures
        first matches Ok(result) && !result.found,
        second matches Ok(result) && !result.found,
{
}

/// The mathematical value of a delete-by-query operation.
pub ghost struct DeleteByQueryModel {
    pub indexes: Seq<Seq<char>>,
    pub doc_types: Seq<Seq<char>>,
    pub query: Option<QueryModel>,
}

/// The view of an optional query.
pub open spec fn query_model(query: Option<Query>) -> Option<QueryModel> {
    match query {
        Some(q) => Some(q@),
        None => None,
    }
}

impl DeleteByQueryModel {
    /// `/{indexes}/_query`, or `/{indexes}/{types}/_query` where types are set.
    pub open spec fn path(self) -> Seq<char> {
        scope_path(self.indexes, self.doc_types) + "/_query"@
    }

    /// The body's document: the query under the name `query`.
    pub open spec fn document(self) -> Option<JsonModel> {
        match self.query {
            Some(q) => Some(single("query"@, q.wire())),
            None => None,
        }
    }

    /// The request with a given body.
    pub open spec fn request_with(self, body: Option<Seq<char>>) -> RequestModel {
        RequestModel { method: Method::Delete, path: self.path(), params: Seq::empty(), body }
    }

    /// The request of the operation.
    pub open spec fn request(self) -> RequestModel {
        self.request_with(
            match self.document() {
                Some(d) => Some(json_text(d)),
                None => None,
            },
        )
    }
}

/// A delete-by-query request has a body exactly if a query was set, and
/// never a parameter.
pub proof fn lemma_delete_by_query_body_follows_query(op: DeleteByQueryModel)
    ensures
        op.request().body is Some <==> op.query is Some,
        op.request().params.len() == 0,
{
}

/// A delete-by-query operation under construction.
pub struct DeleteByQueryOperation {
    indexes: Vec<String>,
    doc_types: Vec<String>,
    query: Option<Query>,
}

impl View for DeleteByQueryOperation {
    type V = DeleteByQueryModel;

    closed spec fn view(&self) -> DeleteByQueryModel {
        DeleteByQueryModel {
            indexes: texts(self.indexes@),
            doc_types: texts(self.doc_types@),
            query: query_model(self.query),
        }
    }
}

impl DeleteByQueryOperation {
    /// An operation on all indexes and types, with no query set yet.
    pub fn new() -> (r: DeleteByQueryOperation)
        ensures
            r@ == (DeleteByQueryModel { indexes: Seq::empty(), doc_types: Seq::empty(), query: None }),
    {
        let r = DeleteByQueryOperation { indexes: Vec::new(), doc_types: Vec::new(), query: None };
        assert(texts(r.doc_types@) =~= Seq::empty());
        r
    }

    /// Restricts the operation to the given indexes.
    pub fn with_indexes(self, indexes: &[&str]) -> (r: DeleteByQueryOperation)
        ensures
            r@ == (DeleteByQueryModel { indexes: slices(indexes@), ..self@ }),
    {
        DeleteByQueryOperation { indexes: copy_names(indexes), ..self }
    }

    /// Restricts the operation to the given document types.
    pub fn with_doc_types(self, doc_types: &[&str]) -> (r: DeleteByQueryOperation)
        ensures
            r@ == (DeleteByQueryModel { doc_types: slices(doc_types@), ..self@ }),
    {
        DeleteByQueryOperation { doc_types: copy_names(doc_types), ..self }
    }

    /// Sets the query whose documents are deleted.
    pub fn with_query(self, query: Query) -> (r: DeleteByQueryOperation)
        ensures
            r@ == (DeleteByQueryModel { query: Some(query@), ..self@ }),
    {
        DeleteByQueryOperation { query: Some(query), ..self }
    }

    /// The document of the body, where a query is set.
    pub fn document(&self) -> (r: Option<JsonValue>)
        ensures
            match r {
                Some(v) => self@.document() == Some(v@) && v@.distinct_names(),
                None => self@.document() is None,
            },
    {
        match &self.query {
            Some(q) => {
                let wire = q.to_json();
                proof {
                    lemma_single_distinct("query"@, wire@);
                }
                Some(single_field("query", wire))
            },
            None => None,
        }
    }

    /// The request with a given body.
    pub fn request_of(&self, body: Option<String>) -> (r: Request)
        ensures
            r@ == self@.request_with(name_text(body)),
    {
        let mut path = format_indexes_and_types(&self.indexes, &self.doc_types);
        path.append("/_query");
        let r = Request { method: Method::Delete, path, params: Vec::new(), body };
        assert(r@.params =~= Seq::empty());
        r
    }

    /// The request of the operation. Every operation has one.
    pub fn request(&self) -> (r: Result<Request, EsError>)
        ensures
            match r {
                Ok(request) => request@ == self@.request(),
                Err(_) => false,
            },
    {
        match self.document() {
            Some(document) => {
                let body = encode(&document)?;
                Ok(self.request_of(Some(body)))
            },
            None => Ok(self.request_of(None)),
        }
    }

    /// Reads the result of the operation out of the status and document of a
    /// response: nothing for a 404, else the shard counts of each index.
    pub fn decode(&self, status: u16, document: Option<JsonValue>) -> (r: Result<
        Option<DeleteByQueryResult>,
        EsError,
    >)
        ensures
            DeleteByQueryResult::decodes(status, source_of(document), r),
    {
        if status == 404 {
            return Ok(None);
        }
        let d = require_document(document)?;
        let result = DeleteByQueryResult::from_json(&d)?;
        Ok(Some(result))
    }

    /// Ends the operation: reads its result out of the response.
    pub fn response(self, status: u16, body: &[u8]) -> (r: Result<
        Option<DeleteByQueryResult>,
        EsError,
    >)
        ensures
            match received(status, body@) {
                Received::Refused => r matches Err(e) && e.is_engine_error(status, body@),
                Received::BeyondLimits => r matches Err(e) && e matches EsError::EncodingError(
                    EncodingFailure::BeyondLimits,
                ),
                Received::Malformed => r matches Err(e) && e matches EsError::EncodingError(
                    EncodingFailure::Response(_),
                ),
                Received::Empty => DeleteByQueryResult::decodes(status, None, r),
                Received::Document(d) => DeleteByQueryResult::decodes(status, Some(d), r),
            },
    {
        let (code, document) = do_req(status, body)?;
        self.decode(code, document)
    }
}

/// The view of an optional document.
pub open spec fn source_of(document: Option<JsonValue>) -> Option<JsonModel> {
    match document {
        Some(v) => Some(v@),
        None => None,
    }
}

/// What the engine reports of one index after a delete by query.
#[derive(Debug, PartialEq)]
pub struct DeleteByQueryIndexResult {
    pub shards: ShardCountResult,
}

/// What the engine reports of a delete by query: for each index that the
/// operation addressed, its name and its shard counts.
#[derive(Debug, PartialEq)]
pub struct DeleteByQueryResult {
    pub indices: Vec<(String, DeleteByQueryIndexResult)>,
}

/// The path that an entry of `_indices` lacks to hold shard counts: the
/// index's name, a dot, and the path that its report lacks.
pub open spec fn entry_fault(entry: (Seq<char>, JsonModel)) -> Option<Seq<char>> {
    match shards_fault(entry.1) {
        Some(path) => Some(entry.0 + "."@ + path),
        None => None,
    }
}

/// The fault of the first entry, at or after `from`, that has one.
pub open spec fn first_entry_fault(entries: Seq<(Seq<char>, JsonModel)>, from: int) -> Option<Seq<char>>
    decreases entries.len() - from,
{
    if from < 0 || from >= entries.len() {
        None
    } else {
        match entry_fault(entries[from]) {
            Some(path) => Some(path),
            None => first_entry_fault(entries, from + 1),
        }
    }
}

/// The entries of `_indices`, where the document holds that object.
pub open spec fn index_entries(d: JsonModel) -> Option<Seq<(Seq<char>, JsonModel)>> {
    match d.get("_indices"@) {
        Some(v) => v.as_object(),
        None => None,
    }
}

impl DeleteByQueryResult {
    /// The path that a document lacks to be a delete-by-query result.
    pub open spec fn shape_fault(d: JsonModel) -> Option<Seq<char>> {
        match index_entries(d) {
            None => Some("_indices"@),
            Some(entries) => match first_entry_fault(entries, 0) {
                Some(path) => Some("_indices"@ + "."@ + path),
                None => None,
            },
        }
    }

    /// Whether the result says what the document holds: for every entry of
    /// `_indices`, at its position, the index's name and shard counts.
    pub open spec fn describes(&self, d: JsonModel) -> bool {
        &&& index_entries(d) matches Some(entries)
        &&& entries.len() == self.indices@.len()
        &&& forall|i: int|
            0 <= i < entries.len() ==> (#[trigger] self.indices@[i]).0@ == entries[i].0
                && self.indices@[i].1.shards == shards_of(entries[i].1)
    }

    /// Whether `r` is what a response with this status and document comes
    /// to: nothing for a 404; else the decoded document, or the path it lacks.
    pub open spec fn decodes(
        status: u16,
        document: Option<JsonModel>,
        r: Result<Option<DeleteByQueryResult>, EsError>,
    ) -> bool {
        if status == 404 {
            r == Ok::<Option<DeleteByQueryResult>, EsError>(None)
        } else {
            match document {
                None => r matches Err(e) && e.is_shape_error("body"@),
                Some(d) => match Self::shape_fault(d) {
                    Some(path) => r matches Err(e) && e.is_shape_error(path),
                    None => r matches Ok(Some(result)) && result.describes(d),
                },
            }
        }
    }

    /// Reads a delete-by-query result.
    pub fn from_json(d: &JsonValue) -> (r: Result<DeleteByQueryResult, EsError>)
        ensures
            match r {
                Ok(result) => Self::shape_fault(d@) is None && result.describes(d@),
                Err(e) => Self::shape_fault(d@) matches Some(path) && e.is_shape_error(path),
            },
    {
        let entries = match d.find("_indices") {
            Some(v) => match v.as_object() {
                Some(fields) => fields,
                None => {
                    return Err(EsError::shape("_indices"));
                },
            },
            None => {
                return Err(EsError::shape("_indices"));
            },
        };
        let mut indices: Vec<(String, DeleteByQueryIndexResult)> = Vec::new();
        let mut i: usize = 0;
        while i < entries.len()
            invariant
                i <= entries.len(),
                indices@.len() == i,
                index_entries(d@) == Some(fields_model(entries@)),
                first_entry_fault(fields_model(entries@), 0) == first_entry_fault(
                    fields_model(entries@),
                    i as int,
                ),
                forall|k: int|
                    0 <= k < i ==> (#[trigger] indices@[k]).0@ == fields_model(entries@)[k].0
                        && indices@[k].1.shards == shards_of(fields_model(entries@)[k].1),
            decreases entries.len() - i,
        {
            match read_shards(&entries[i].1) {
                Ok(shards) => {
                    indices.push((entries[i].0.clone(), DeleteByQueryIndexResult { shards }));
                },
                Err(e) => {
                    return Err(within("_indices", within(entries[i].0.as_str(), e)));
                },
            }
            i += 1;
        }
        Ok(DeleteByQueryResult { indices })
    }

    /// Whether on every index every addressed shard succeeded and none
    /// failed. A result without indexes counts as successful.
    pub open spec fn all_successful(&self) -> bool {
        forall|i: int| 0 <= i < self.indices@.len() ==> (#[trigger] self.indices@[i]).1.shards.all_succeeded()
    }

    /// Whether on every index every addressed shard succeeded and none failed.
    pub fn successful(&self) -> (r: bool)
        ensures
            r == self.all_successful(),
    {
        let mut i: usize = 0;
        while i < self.indices.len()
            invariant
                i <= self.indices.len(),
                forall|k: int| 0 <= k < i ==> (#[trigger] self.indices@[k]).1.shards.all_succeeded(),
            decreases self.indices.len() - i,
        {
            if !self.indices[i].1.shards.succeeded() {
                return false;
            }
            i += 1;
        }
        true
    }
}

} // verus!
