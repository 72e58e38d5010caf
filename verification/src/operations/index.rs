//! The index operation: stores one document.

use crate::error::EncodingFailure;
use crate::error::EsError;
use crate::json::encode;
use crate::json::fits;
use crate::json::json_text;
use crate::json::JsonModel;
use crate::json::JsonValue;
use crate::operations::name_text;
use crate::operations::push_segment;
use crate::operations::segment;
use crate::operations::source_model;
use crate::receive;
use crate::received;
use crate::reception_error;
use crate::request::has_param;
use crate::request::lemma_has_optional_param;
use crate::request::lemma_has_param_concat;
use crate::request::optional_param;
use crate::request::push_param;
use crate::request::Method;
use crate::request::Request;
use crate::request::RequestModel;
use crate::text::decimal;
use crate::text::decimal_string;
use crate::Received;
use vstd::prelude::*;

verus! {

/// What indexing does where the id exists already.
#[derive(Clone, Copy, Debug, PartialEq, Eq, Structural)]
pub enum OpType {
    /// Overwrite the document, or create it.
    Index,
    /// Fail if the document exists.
    Create,
}

impl OpType {
    /// The name of the mode on the wire.
    pub open spec fn name(self) -> Seq<char> {
        match self {
            OpType::Index => "index"@,
            OpType::Create => "create"@,
        }
    }

    /// The name of the mode on the wire.
    pub fn as_str(&self) -> (r: &'static str)
        ensures
            r@ == self.name(),
    {
        match self {
            OpType::Index => "index",
            OpType::Create => "create",
        }
    }
}

/// The mathematical value of an index operation.
pub ghost struct IndexModel {
    pub index: Seq<char>,
    pub doc_type: Seq<char>,
    pub id: Option<Seq<char>>,
    pub ttl: Option<u64>,
    pub op_type: Option<OpType>,
    pub document: Option<JsonModel>,
}

/// The decimal text of an optional number.
pub open spec fn number_text(value: Option<u64>) -> Option<Seq<char>> {
    match value {
        Some(n) => Some(decimal(n as nat)),
        None => None,
    }
}

/// The wire name of an optional mode.
pub open spec fn op_type_text(value: Option<OpType>) -> Option<Seq<char>> {
    match value {
        Some(mode) => Some(mode.name()),
        None => None,
    }
}

/// The compact JSON text of an optional document.
pub open spec fn document_text(document: Option<JsonModel>) -> Option<Seq<char>> {
    match document {
        Some(d) => Some(json_text(d)),
        None => None,
    }
}

impl IndexModel {
    /// `PUT` where the id is given, `POST` where the engine is to assign one.
    pub open spec fn method(self) -> Method {
        if self.id is Some {
            Method::Put
        } else {
            Method::Post
        }
    }

    /// `/{index}/{type}`, and `/{id}` where the id is given.
    pub open spec fn path(self) -> Seq<char> {
        "/"@ + self.index + "/"@ + self.doc_type + segment(self.id)
    }

    /// The parameters `ttl` and `op_type`, each only where it is set.
    pub open spec fn params(self) -> Seq<(Seq<char>, Seq<char>)> {
        optional_param("ttl"@, number_text(self.ttl)) + optional_param(
            "op_type"@,
            op_type_text(self.op_type),
        )
    }

    /// Whether the operation can be sent: its document, where one is set,
    /// names no field of an object twice.
    pub open spec fn sendable(self) -> bool {
        fits(self.document)
    }

    /// The request with a given body.
    pub open spec fn request_with(self, body: Option<Seq<char>>) -> RequestModel {
        RequestModel { method: self.method(), path: self.path(), params: self.params(), body }
    }

    /// The request of the operation: the document, where one is set, is the body.
    pub open spec fn request(self) -> RequestModel {
        self.request_with(document_text(self.document))
    }
}

/// An index operation under construction.
pub struct IndexOperation {
    index: String,
    doc_type: String,
    id: Option<String>,
    ttl: Option<u64>,
    op_type: Option<OpType>,
    document: Option<JsonValue>,
}

impl View for IndexOperation {
    type V = IndexModel;

    closed spec fn view(&self) -> IndexModel {
        IndexModel {
            index: self.index@,
            doc_type: self.doc_type@,
            id: name_text(self.id),
            ttl: self.ttl,
            op_type: self.op_type,
            document: source_model(self.document),
        }
    }
}

impl IndexOperation {
    /// An operation that indexes into `index` under `doc_type`, with nothing
    /// optional set.
    pub fn new(index: &str, doc_type: &str) -> (r: IndexOperation)
        ensures
            r@ == (IndexModel {
                index: index@,
                doc_type: doc_type@,
                id: None,
                ttl: None,
                op_type: None,
                document: None,
            }),
    {
        IndexOperation {
            index: String::from_str(index),
            doc_type: String::from_str(doc_type),
            id: None,
            ttl: None,
            op_type: None,
            document: None,
        }
    }

    /// Sets the document to store.
    pub fn with_doc(self, document: JsonValue) -> (r: IndexOperation)
        ensures
            r@ == (IndexModel { document: Some(document@), ..self@ }),
    {
        IndexOperation { document: Some(document), ..self }
    }

    /// Sets the id to store the document under.
    pub fn with_id(self, id: &str) -> (r: IndexOperation)
        ensures
            r@ == (IndexModel { id: Some(id@), ..self@ }),
    {
        IndexOperation { id: Some(String::from_str(id)), ..self }
    }

    /// Sets the time, in milliseconds, after which the document expires.
    pub fn with_ttl(self, ttl: u64) -> (r: IndexOperation)
        ensures
            r@ == (IndexModel { ttl: Some(ttl), ..self@ }),
    {
        IndexOperation { ttl: Some(ttl), ..self }
    }

    /// Sets what happens where the id exists already.
    pub fn with_op_type(self, op_type: OpType) -> (r: IndexOperation)
        ensures
            r@ == (IndexModel { op_type: Some(op_type), ..self@ }),
    {
        IndexOperation { op_type: Some(op_type), ..self }
    }

    /// The request with a given body.
    pub fn request_of(&self, body: Option<String>) -> (r: Request)
        ensures
            r@ == self@.request_with(name_text(body)),
    {
        let mut path = String::from_str("/");
        path.append(self.index.as_str());
        path.append("/");
        path.append(self.doc_type.as_str());
        push_segment(&mut path, &self.id);
        let mut params: Vec<(String, String)> = Vec::new();
        push_param(
            &mut params,
            "ttl",
            match self.ttl {
                Some(n) => Some(decimal_string(n)),
                None => None,
            },
        );
        push_param(
            &mut params,
            "op_type",
            match self.op_type {
                Some(mode) => Some(String::from_str(mode.as_str())),
                None => None,
            },
        );
        let method = if self.id.is_some() {
            Method::Put
        } else {
            Method::Post
        };
        Request { method, path, params, body }
    }

    /// The request of the operation. An operation whose document names a
    /// field twice is refused.
    pub fn request(&self) -> (r: Result<Request, EsError>)
        ensures
            match r {
                Ok(request) => self@.sendable() && request@ == self@.request(),
                Err(e) => !self@.sendable() && e matches EsError::EncodingError(
                    EncodingFailure::RepeatedName,
                ),
            },
    {
        match &self.document {
            Some(document) => {
                let body = encode(document)?;
                Ok(self.request_of(Some(body)))
            },
            None => Ok(self.request_of(None)),
        }
    }

    /// Ends the operation: reads its result out of the response.
    pub fn response(self, status: u16, body: &[u8]) -> (r: Result<IndexResult, EsError>)
        ensures
            match r {
                Ok(result) => {
                    &&& received(status, body@) matches Received::Document(d)
                    &&& IndexResult::shape_fault(d) is None
                    &&& result.describes(d)
                },
                Err(e) => match received(status, body@) {
                    Received::Document(d) => IndexResult::shape_fault(d) matches Some(path)
                        && e.is_shape_error(path),
                    _ => reception_error(status, body@, e),
                },
            },
    {
        let d = receive(status, body)?;
        IndexResult::from_json(&d)
    }
}

/// A parameter of an index request is present exactly if the option of its
/// name was set: `ttl` for the time to live, `op_type` for the mode, and no
/// other name.
pub proof fn lemma_index_params_follow_options(op: IndexModel, key: Seq<char>)
    ensures
        has_param(op.request().params, key) <==> (op.ttl is Some && key == "ttl"@) || (op.op_type is Some
            && key == "op_type"@),
{
    lemma_has_param_concat(
        optional_param("ttl"@, number_text(op.ttl)),
        optional_param("op_type"@, op_type_text(op.op_type)),
        key,
    );
    lemma_has_optional_param("ttl"@, number_text(op.ttl), key);
    lemma_has_optional_param("op_type"@, op_type_text(op.op_type), key);
}

/// An index request has a body exactly if a document was set, and carries
/// its id in the path exactly if an id was set.
pub proof fn lemma_index_body_and_method(op: IndexModel)
    ensures
        op.request().body is Some <==> op.document is Some,
        op.request().method == Method::Put <==> op.id is Some,
        op.id is None ==> op.request().path == "/"@ + op.index + "/"@ + op.doc_type,
{
}

/// What the engine reports of an indexed document.
#[derive(Debug, PartialEq)]
pub struct IndexResult {
    /// Whether the document is new.
    pub created: bool,
    pub index: String,
    pub doc_type: String,
    pub id: String,
    pub version: u64,
}

impl IndexResult {
    /// The first field that a document lacks to be an index result.
    pub open spec fn shape_fault(d: JsonModel) -> Option<Seq<char>> {
        if d.boolean_at("created"@) is None {
            Some("created"@)
        } else if d.string_at("_index"@) is None {
            Some("_index"@)
        } else if d.string_at("_type"@) is None {
            Some("_type"@)
        } else if d.string_at("_id"@) is None {
            Some("_id"@)
        } else if d.u64_at("_version"@) is None {
            Some("_version"@)
        } else {
            None
        }
    }

    /// Whether the result says what the document holds.
    pub open spec fn describes(&self, d: JsonModel) -> bool {
        &&& d.boolean_at("created"@) == Some(self.created)
        &&& d.string_at("_index"@) == Some(self.index@)
        &&& d.string_at("_type"@) == Some(self.doc_type@)
        &&& d.string_at("_id"@) == Some(self.id@)
        &&& d.u64_at("_version"@) == Some(self.version)
    }

    /// Reads an index result.
    pub fn from_json(d: &JsonValue) -> (r: Result<IndexResult, EsError>)
        ensures
            match r {
                Ok(result) => Self::shape_fault(d@) is None && result.describes(d@),
                Err(e) => Self::shape_fault(d@) matches Some(path) && e.is_shape_error(path),
            },
    {
        let created = d.read_boolean("created")?;
        let index = d.read_string("_index")?;
        let doc_type = d.read_string("_type")?;
        let id = d.read_string("_id")?;
        let version = d.read_u64("_version")?;
        Ok(IndexResult { created, index, doc_type, id, version })
    }
}

} // verus!
