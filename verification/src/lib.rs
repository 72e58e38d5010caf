//! A typed client core for a document search engine's HTTP/JSON interface.
//!
//! The crate builds requests (method, path, parameters, body) from operation
//! builders, classifies responses by status code, and decodes response bodies
//! into typed results. Performing the HTTP round trip is left to the caller.

pub mod error;
pub mod json;
pub mod limits;
pub mod operations;
pub mod query;
pub mod request;
pub mod text;

use crate::error::EncodingFailure;
use crate::error::EsError;
use crate::json::json_parse;
use crate::json::parse;
use crate::json::JsonModel;
use crate::json::JsonValue;
use crate::limits::within_limits;
use crate::operations::analyze::AnalyzeModel;
use crate::operations::analyze::AnalyzeOperation;
use crate::operations::bulk::action_models;
use crate::operations::bulk::Action;
use crate::operations::bulk::BulkModel;
use crate::operations::bulk::BulkOperation;
use crate::operations::delete::DeleteByQueryModel;
use crate::operations::delete::DeleteByQueryOperation;
use crate::operations::delete::DeleteModel;
use crate::operations::delete::DeleteOperation;
use crate::operations::get::GetModel;
use crate::operations::get::GetOperation;
use crate::operations::index::IndexModel;
use crate::operations::index::IndexOperation;
use crate::operations::search::SearchQueryModel;
use crate::operations::search::SearchQueryOperation;
use crate::operations::search::SearchURIModel;
use crate::operations::search::SearchURIOperation;
use crate::operations::RefreshModel;
use crate::operations::RefreshOperation;
use crate::request::Method;
use crate::request::Request;
use crate::request::RequestModel;
use crate::text::decimal;
use crate::text::decimal_string;
use crate::text::slices;
use vstd::prelude::*;
use vstd::slice::slice_to_vec;

verus! {

/// What a status code means for the caller.
#[derive(Clone, Copy, Debug, PartialEq, Eq, Structural)]
pub enum StatusClass {
    /// 200 or 201: the call succeeded.
    Success,
    /// 404: the addressed document does not exist; not an error.
    NotFound,
    /// Any other code: the engine reports a failure.
    Failure,
}

/// The meaning of every status code.
pub open spec fn status_class(status: u16) -> StatusClass {
    if status == 200 || status == 201 {
        StatusClass::Success
    } else if status == 404 {
        StatusClass::NotFound
    } else {
        StatusClass::Failure
    }
}

/// Classifies a status code.
pub fn classify_status(status: u16) -> (r: StatusClass)
    ensures
        r == status_class(status),
{
    if status == 200 || status == 201 {
        StatusClass::Success
    } else if status == 404 {
        StatusClass::NotFound
    } else {
        StatusClass::Failure
    }
}

/// Every status code has a meaning: 200 and 201 are a success, 404 is "not
/// found", and any other code is a failure, which is reported as an
/// `EngineError` with that code and the raw body and as nothing else.
pub proof fn lemma_status_mapping_is_total(status: u16, body: Seq<u8>, e: EsError)
    ensures
        status == 200 || status == 201 <==> status_class(status) == StatusClass::Success,
        status == 404 <==> status_class(status) == StatusClass::NotFound,
        status != 200 && status != 201 && status != 404 <==> status_class(status) == StatusClass::Failure,
        status_class(status) == StatusClass::Failure <==> received(status, body) is Refused,
        received(status, body) is Refused ==> (reception_error(status, body, e) <==> e.is_engine_error(
            status,
            body,
        )),
        !(received(status, body) is Refused) && reception_error(status, body, e) ==> !(e is EngineError),
{
}

/// Turns the status and raw body of a response into the status and the JSON
/// document of the body.
///
/// A status other than 200, 201 and 404 is an `EngineError` with that status
/// and the raw body. Otherwise an empty body gives no document, and a body
/// that is beyond the parser's bounds or is not JSON is an `EncodingError`.
pub fn do_req(status: u16, body: &[u8]) -> (r: Result<(u16, Option<JsonValue>), EsError>)
    ensures
        match r {
            Ok((code, document)) => {
                &&& code == status
                &&& status_class(status) != StatusClass::Failure
                &&& match document {
                    Some(v) => body@.len() > 0 && within_limits(body@) && json_parse(body@) == Some(
                        v@,
                    ),
                    None => body@.len() == 0,
                }
            },
            Err(e) => if status_class(status) == StatusClass::Failure {
                e.is_engine_error(status, body@)
            } else if !within_limits(body@) {
                body@.len() > 0 && e matches EsError::EncodingError(EncodingFailure::BeyondLimits)
            } else {
                &&& body@.len() > 0
                &&& json_parse(body@) is None
                &&& e matches EsError::EncodingError(EncodingFailure::Response(_))
            },
        },
{
    match classify_status(status) {
        StatusClass::Failure => Err(EsError::EngineError { status: status, body: slice_to_vec(body) }),
        _ => {
            if body.len() == 0 {
                Ok((status, None))
            } else {
                match parse(body) {
                    Ok(v) => Ok((status, Some(v))),
                    Err(e) => Err(e),
                }
            }
        },
    }
}

/// The document of a response, which the operation cannot do without.
pub fn require_document(document: Option<JsonValue>) -> (r: Result<JsonValue, EsError>)
    ensures
        match r {
            Ok(v) => document == Some(v),
            Err(e) => document is None && e.is_shape_error("body"@),
        },
{
    match document {
        Some(v) => Ok(v),
        None => Err(EsError::shape("body")),
    }
}

/// What a response amounts to before an operation decodes it.
pub ghost enum Received {
    /// The status is a failure.
    Refused,
    /// The status is accepted and the body is empty.
    Empty,
    /// The status is accepted and the body is beyond the parser's bounds.
    BeyondLimits,
    /// The status is accepted and the body is not JSON.
    Malformed,
    /// The status is accepted and the body is this document.
    Document(JsonModel),
}

/// What a response with this status and body amounts to.
pub open spec fn received(status: u16, body: Seq<u8>) -> Received {
    if status_class(status) == StatusClass::Failure {
        Received::Refused
    } else if body.len() == 0 {
        Received::Empty
    } else if !within_limits(body) {
        Received::BeyondLimits
    } else {
        match json_parse(body) {
            Some(document) => Received::Document(document),
            None => Received::Malformed,
        }
    }
}

/// The error that a response without a document is reported with.
pub open spec fn reception_error(status: u16, body: Seq<u8>, e: EsError) -> bool {
    match received(status, body) {
        Received::Refused => e.is_engine_error(status, body),
        Received::Empty => e.is_shape_error("body"@),
        Received::BeyondLimits => e matches EsError::EncodingError(EncodingFailure::BeyondLimits),
        Received::Malformed => e matches EsError::EncodingError(EncodingFailure::Response(_)),
        Received::Document(_) => false,
    }
}

/// The document of a response, for an operation that cannot do without one.
pub fn receive(status: u16, body: &[u8]) -> (r: Result<JsonValue, EsError>)
    ensures
        match r {
            Ok(v) => received(status, body@) == Received::Document(v@),
            Err(e) => reception_error(status, body@, e),
        },
{
    match do_req(status, body) {
        Ok((_, document)) => require_document(document),
        Err(e) => Err(e),
    }
}

/// The connection settings of one engine.
pub struct Client {
    base_url: String,
}

impl Client {
    /// The URL of the engine's root, without a trailing slash.
    pub closed spec fn base(&self) -> Seq<char> {
        self.base_url@
    }

    /// A client for the engine at `host` and `port`.
    pub fn new(host: &str, port: u32) -> (r: Client)
        ensures
            r.base() == "http://"@ + host@ + ":"@ + decimal(port as nat),
    {
        let mut base_url = String::from_str("http://");
        base_url.append(host);
        base_url.append(":");
        let number = decimal_string(port as u64);
        base_url.append(number.as_str());
        Client { base_url }
    }

    /// The URL of the engine's root.
    pub fn base_url(&self) -> (r: &str)
        ensures
            r@ == self.base(),
    {
        self.base_url.as_str()
    }

    /// Puts the base URL in front of `suffix`, a path that begins with a
    /// slash. Nothing is escaped.
    pub fn full_url(&self, suffix: &str) -> (r: String)
        ensures
            r@ == self.base() + suffix@,
    {
        let mut out = self.base_url.clone();
        out.append(suffix);
        out
    }

    /// The absolute URL of a request: the base URL, the request's path and
    /// its query string.
    pub fn request_url(&self, request: &Request) -> (r: String)
        ensures
            r@ == self.base() + request@.target(),
    {
        let target = request.target();
        self.full_url(target.as_str())
    }

    /// Starts a refresh, which makes what was indexed searchable.
    pub fn refresh(&self) -> (r: RefreshOperation)
        ensures
            r@ == (RefreshModel { indexes: Seq::empty() }),
    {
        RefreshOperation::new()
    }

    /// Starts an operation that stores a document in `index` under `doc_type`.
    pub fn index(&self, index: &str, doc_type: &str) -> (r: IndexOperation)
        ensures
            r@ == (IndexModel {
                index: index@,
                doc_type: doc_type@,
                id: None,
                ttl: None,
                op_type: None,
                document: None,
            }),
    {
        IndexOperation::new(index, doc_type)
    }

    /// Starts an operation that fetches the document `id` of `index`.
    pub fn get(&self, index: &str, id: &str) -> (r: GetOperation)
        ensures
            r@ == (GetModel { index: index@, doc_type: None, id: id@, fields: None }),
    {
        GetOperation::new(index, id)
    }

    /// Starts an operation that deletes the document `id` of `doc_type` in
    /// `index`.
    pub fn delete(&self, index: &str, doc_type: &str, id: &str) -> (r: DeleteOperation)
        ensures
            r@ == (DeleteModel { index: index@, doc_type: doc_type@, id: id@ }),
    {
        DeleteOperation::new(index, doc_type, id)
    }

    /// Starts an operation that deletes the documents of a query.
    pub fn delete_by_query(&self) -> (r: DeleteByQueryOperation)
        ensures
            r@ == (DeleteByQueryModel { indexes: Seq::empty(), doc_types: Seq::empty(), query: None }),
    {
        DeleteByQueryOperation::new()
    }

    /// Starts a bulk call for the actions, in their order.
    pub fn bulk<'b>(&self, actions: &'b [Action]) -> (r: BulkOperation<'b>)
        ensures
            r@ == (BulkModel { actions: action_models(actions@), index: None, doc_type: None }),
    {
        BulkOperation::new(actions)
    }

    /// Starts an operation that analyzes the text `body`.
    pub fn analyze(&self, body: &str) -> (r: AnalyzeOperation)
        ensures
            r@ == (AnalyzeModel { body: body@, index: None, analyzer: None }),
    {
        AnalyzeOperation::new(body)
    }

    /// Starts a search by a query string in the URL.
    pub fn search_uri(&self) -> (r: SearchURIOperation)
        ensures
            r@ == (SearchURIModel {
                indexes: Seq::empty(),
                doc_types: Seq::empty(),
                query: None,
                fields: None,
            }),
    {
        SearchURIOperation::new()
    }

    /// Starts a search by a query expression in the body.
    pub fn search_query(&self) -> (r: SearchQueryOperation)
        ensures
            r@ == (SearchQueryModel {
                indexes: Seq::empty(),
                doc_types: Seq::empty(),
                query: None,
                from: None,
                size: None,
            }),
    {
        SearchQueryOperation::new()
    }

    /// The request that asks the engine for its version.
    pub fn version_request(&self) -> (r: Request)
        ensures
            r@ == version_request_model(),
    {
        let r = Request { method: Method::Get, path: String::from_str("/"), params: Vec::new(), body: None };
        assert(r@.params =~= Seq::empty());
        r
    }

    /// Reads the version number out of the response to `version_request`.
    pub fn version(&self, status: u16, body: &[u8]) -> (r: Result<String, EsError>)
        ensures
            match r {
                Ok(number) => received(status, body@) matches Received::Document(document)
                    && version_number(document) == Some(number@),
                Err(e) => match received(status, body@) {
                    Received::Document(document) => version_number(document) is None
                        && e.is_shape_error("version.number"@),
                    _ => reception_error(status, body@, e),
                },
            },
    {
        match receive(status, body) {
            Ok(v) => read_version(&v),
            Err(e) => Err(e),
        }
    }
}

/// The request for the engine's version: `GET /`.
pub open spec fn version_request_model() -> RequestModel {
    RequestModel { method: Method::Get, path: "/"@, params: Seq::empty(), body: None }
}

/// The string at `version.number` of a document.
pub open spec fn version_number(document: JsonModel) -> Option<Seq<char>> {
    match document.find_path(seq!["version"@, "number"@]) {
        Some(v) => v.as_string(),
        None => None,
    }
}

/// Reads the string at `version.number`; a document without it is a
/// `DecodeShapeError` that names the path.
pub fn read_version(document: &JsonValue) -> (r: Result<String, EsError>)
    ensures
        match r {
            Ok(number) => version_number(document@) == Some(number@),
            Err(e) => version_number(document@) is None && e.is_shape_error("version.number"@),
        },
{
    let keys = ["version", "number"];
    assert(slices(keys@) =~= seq!["version"@, "number"@]);
    match document.find_path(keys.as_slice()) {
        Some(v) => match v.as_string() {
            Some(s) => Ok(String::from_str(s)),
            None => Err(EsError::shape("version.number")),
        },
        None => Err(EsError::shape("version.number")),
    }
}

} // verus!
