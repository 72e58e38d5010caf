//! The get operation: fetches one document by id.

use crate::error::EsError;
use crate::json::JsonModel;
use crate::json::JsonValue;
use crate::operations::copy_names;
use crate::operations::name_text;
use crate::operations::source_model;
use crate::receive;
use crate::received;
use crate::reception_error;
use crate::request::has_param;
use crate::request::lemma_has_optional_param;
use crate::request::optional_param;
use crate::request::push_param;
use crate::request::Method;
use crate::request::Request;
use crate::request::RequestModel;
use crate::status_class;
use crate::text::join;
use crate::text::join_strings;
use crate::text::slices;
use crate::text::texts;
use crate::Received;
use crate::StatusClass;
use vstd::prelude::*;

verus! {

/// The mathematical value of a get operation.
pub ghost struct GetModel {
    pub index: Seq<char>,
    pub doc_type: Option<Seq<char>>,
    pub id: Seq<char>,
    pub fields: Option<Seq<Seq<char>>>,
}

/// The names with commas between them, where a list is given.
pub open spec fn list_text(names: Option<Seq<Seq<char>>>) -> Option<Seq<char>> {
    match names {
        Some(list) => Some(join(list, ","@)),
        None => None,
    }
}

/// The character sequences of an optional list of strings.
pub open spec fn list_model(names: Option<Vec<String>>) -> Option<Seq<Seq<char>>> {
    match names {
        Some(list) => Some(texts(list@)),
        None => None,
    }
}

/// Writes the names with commas between them, where a list is given.
pub fn format_list(names: &Option<Vec<String>>) -> (r: Option<String>)
    ensures
        name_text(r) == list_text(list_model(*names)),
{
    match names {
        Some(list) => Some(join_strings(list, ",")),
        None => None,
    }
}

impl GetModel {
    /// `/{index}/{type}/{id}`, with `_all` for a type that is not set.
    pub open spec fn path(self) -> Seq<char> {
        "/"@ + self.index + "/"@ + match self.doc_type {
            Some(t) => t,
            None => "_all"@,
        } + "/"@ + self.id
    }

    /// The parameter `fields`, only where the fields to return are set.
    pub open spec fn params(self) -> Seq<(Seq<char>, Seq<char>)> {
        optional_param("fields"@, list_text(self.fields))
    }

    /// The request of the operation.
    pub open spec fn request(self) -> RequestModel {
        RequestModel { method: Method::Get, path: self.path(), params: self.params(), body: None }
    }
}

/// A get operation under construction.
pub struct GetOperation {
    index: String,
    doc_type: Option<String>,
    id: String,
    fields: Option<Vec<String>>,
}

impl View for GetOperation {
    type V = GetModel;

    closed spec fn view(&self) -> GetModel {
        GetModel {
            index: self.index@,
            doc_type: name_text(self.doc_type),
            id: self.id@,
            fields: list_model(self.fields),
        }
    }
}

impl GetOperation {
    /// An operation that fetches the document `id` of `index`, of any type
    /// and with all its fields.
    pub fn new(index: &str, id: &str) -> (r: GetOperation)
        ensures
            r@ == (GetModel { index: index@, doc_type: None, id: id@, fields: None }),
    {
        GetOperation {
            index: String::from_str(index),
            doc_type: None,
            id: String::from_str(id),
            fields: None,
        }
    }

    /// Sets the type of the document.
    pub fn with_doc_type(self, doc_type: &str) -> (r: GetOperation)
        ensures
            r@ == (GetModel { doc_type: Some(doc_type@), ..self@ }),
    {
        GetOperation { doc_type: Some(String::from_str(doc_type)), ..self }
    }

    /// Sets the fields to return.
    pub fn with_fields(self, fields: &[&str]) -> (r: GetOperation)
        ensures
            r@ == (GetModel { fields: Some(slices(fields@)), ..self@ }),
    {
        GetOperation { fields: Some(copy_names(fields)), ..self }
    }

    /// The request of the operation.
    pub fn request(&self) -> (r: Request)
        ensures
            r@ == self@.request(),
    {
        let mut path = String::from_str("/");
        path.append(self.index.as_str());
        path.append("/");
        match &self.doc_type {
            Some(t) => path.append(t.as_str()),
            None => path.append("_all"),
        }
        path.append("/");
        path.append(self.id.as_str());
        let mut params: Vec<(String, String)> = Vec::new();
        push_param(&mut params, "fields", format_list(&self.fields));
        Request { method: Method::Get, path, params, body: None }
    }

    /// Ends the operation: reads its result out of the response. A 404 whose
    /// document reports `found` is a result, not an error.
    pub fn response(self, status: u16, body: &[u8]) -> (r: Result<GetResult, EsError>)
        ensures
            GetResult::answers(status, body@, r),
    {
        let d = receive(status, body)?;
        GetResult::from_json(&d)
    }
}

/// A get request carries the parameter `fields` exactly if the fields to
/// return were set, and never another parameter or a body.
pub proof fn lemma_get_params_follow_options(op: GetModel, key: Seq<char>)
    ensures
        has_param(op.request().params, key) <==> op.fields is Some && key == "fields"@,
        op.request().body is None,
{
    lemma_has_optional_param("fields"@, list_text(op.fields), key);
}

/// What the engine reports of a fetched document.
#[derive(Debug, PartialEq)]
pub struct GetResult {
    pub index: String,
    pub doc_type: String,
    pub id: String,
    pub version: Option<u64>,
    /// Whether the document exists.
    pub found: bool,
    /// The document, where the engine returned it.
    pub source: Option<JsonValue>,
}

impl GetResult {
    /// The first field that a document lacks to be a get result.
    pub open spec fn shape_fault(d: JsonModel) -> Option<Seq<char>> {
        if d.string_at("_index"@) is None {
            Some("_index"@)
        } else if d.string_at("_type"@) is None {
            Some("_type"@)
        } else if d.string_at("_id"@) is None {
            Some("_id"@)
        } else if d.boolean_at("found"@) is None {
            Some("found"@)
        } else {
            None
        }
    }

    /// Whether the result says what the document holds.
    pub open spec fn describes(&self, d: JsonModel) -> bool {
        &&& d.string_at("_index"@) == Some(self.index@)
        &&& d.string_at("_type"@) == Some(self.doc_type@)
        &&& d.string_at("_id"@) == Some(self.id@)
        &&& d.u64_at("_version"@) == self.version
        &&& d.boolean_at("found"@) == Some(self.found)
        &&& d.get("_source"@) == source_model(self.source)
    }

    /// Whether `r` is what a response with this status and body comes to.
    pub open spec fn answers(status: u16, body: Seq<u8>, r: Result<GetResult, EsError>) -> bool {
        match r {
            Ok(result) => {
                &&& received(status, body) matches Received::Document(d)
                &&& Self::shape_fault(d) is None
                &&& result.describes(d)
            },
            Err(e) => match received(status, body) {
                Received::Document(d) => Self::shape_fault(d) matches Some(path) && e.is_shape_error(
                    path,
                ),
                _ => reception_error(status, body, e),
            },
        }
    }

    /// Reads a get result.
    pub fn from_json(d: &JsonValue) -> (r: Result<GetResult, EsError>)
        ensures
            match r {
                Ok(result) => Self::shape_fault(d@) is None && result.describes(d@),
                Err(e) => Self::shape_fault(d@) matches Some(path) && e.is_shape_error(path),
            },
    {
        let index = d.read_string("_index")?;
        let doc_type = d.read_string("_type")?;
        let id = d.read_string("_id")?;
        let version = d.read_optional_u64("_version");
        let found = d.read_boolean("found")?;
        let source = match d.find("_source") {
            Some(v) => Some(v.clone()),
            None => None,
        };
        Ok(GetResult { index, doc_type, id, version, found, source })
    }
}

/// A response to a get with status 200, 201 or 404 whose document holds the
/// fields of a get result is never an error, and the result's `found` is the
/// document's: a 404 that reports `found: false` is the result "not found".
pub proof fn lemma_get_not_found_is_a_result(
    status: u16,
    body: Seq<u8>,
    d: JsonModel,
    r: Result<GetResult, EsError>,
)
    requires
        GetResult::answers(status, body, r),
        status_class(status) != StatusClass::Failure,
        received(status, body) == Received::Document(d),
        GetResult::shape_fault(d) is None,
    ensures
        r matches Ok(result) && d.boolean_at("found"@) == Some(result.found),
{
}

} // verus!
