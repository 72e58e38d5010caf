//! The operations of the engine's interface, one builder for each.
//!
//! A builder is made from the required arguments, takes optional ones through
//! chained calls, gives the request to perform, and decodes the response.

pub mod analyze;
pub mod bulk;
pub mod delete;
pub mod get;
pub mod index;
pub mod search;

use crate::error::EsError;
use crate::json::JsonModel;
use crate::json::JsonValue;
use crate::receive;
use crate::received;
use crate::reception_error;
use crate::request::Method;
use crate::request::Request;
use crate::request::RequestModel;
use crate::text::join;
use crate::text::join_strings;
use crate::text::slices;
use crate::text::texts;
use crate::Received;
use vstd::prelude::*;

verus! {

/// The names with commas between them; `_all` where there is none.
pub open spec fn multi(names: Seq<Seq<char>>) -> Seq<char> {
    if names.len() == 0 {
        "_all"@
    } else {
        join(names, ","@)
    }
}

/// The part of a path that selects indexes and document types: `/`, the
/// indexes, and where types are given `/` and the types.
pub open spec fn scope_path(indexes: Seq<Seq<char>>, doc_types: Seq<Seq<char>>) -> Seq<char> {
    "/"@ + multi(indexes) + if doc_types.len() == 0 {
        Seq::empty()
    } else {
        "/"@ + join(doc_types, ","@)
    }
}

/// Copies a list of names.
pub fn copy_names(names: &[&str]) -> (r: Vec<String>)
    ensures
        texts(r@) == slices(names@),
{
    let mut out: Vec<String> = Vec::new();
    let mut i: usize = 0;
    while i < names.len()
        invariant
            i <= names.len(),
            out@.len() == i,
            forall|k: int| 0 <= k < i ==> (#[trigger] out@[k])@ == names@[k]@,
        decreases names.len() - i,
    {
        out.push(String::from_str(names[i]));
        i += 1;
    }
    out
}

/// Writes the names with commas between them, or `_all`.
pub fn format_multi(names: &Vec<String>) -> (r: String)
    ensures
        r@ == multi(texts(names@)),
{
    if names.len() == 0 {
        String::from_str("_all")
    } else {
        join_strings(names, ",")
    }
}

/// Writes the part of a path that selects indexes and document types.
pub fn format_indexes_and_types(indexes: &Vec<String>, doc_types: &Vec<String>) -> (r: String)
    ensures
        r@ == scope_path(texts(indexes@), texts(doc_types@)),
{
    let mut out = String::from_str("/");
    let names = format_multi(indexes);
    out.append(names.as_str());
    if doc_types.len() > 0 {
        out.append("/");
        let types = join_strings(doc_types, ",");
        out.append(types.as_str());
    }
    out
}

/// The text of an optional name as a JSON value.
pub open spec fn name_model(name: Option<String>) -> Option<JsonModel> {
    match name {
        Some(s) => Some(JsonModel::String(s@)),
        None => None,
    }
}

/// The view of an optional document.
pub open spec fn source_model(source: Option<JsonValue>) -> Option<JsonModel> {
    match source {
        Some(v) => Some(v@),
        None => None,
    }
}

/// The text of an optional name.
pub open spec fn name_text(name: Option<String>) -> Option<Seq<char>> {
    match name {
        Some(s) => Some(s@),
        None => None,
    }
}

/// A path segment for a name that is set: `/` and the name.
pub open spec fn segment(name: Option<Seq<char>>) -> Seq<char> {
    match name {
        Some(s) => "/"@ + s,
        None => Seq::empty(),
    }
}

/// Appends `/` and the name to a path where the name is set.
pub fn push_segment(path: &mut String, name: &Option<String>)
    ensures
        final(path)@ == old(path)@ + segment(name_text(*name)),
{
    match name {
        Some(s) => {
            path.append("/");
            path.append(s.as_str());
        },
        None => {
        },
    }
}

/// Puts the name of the enclosing field in front of the path of a
/// `DecodeShapeError`; any other error stays as it is.
pub fn within(prefix: &str, e: EsError) -> (r: EsError)
    ensures
        match e {
            EsError::DecodeShapeError(path) => r.is_shape_error(prefix@ + "."@ + path@),
            _ => r == e,
        },
{
    match e {
        EsError::DecodeShapeError(path) => {
            let mut full = String::from_str(prefix);
            full.append(".");
            full.append(path.as_str());
            EsError::DecodeShapeError(full)
        },
        other => other,
    }
}

/// How many shards an operation addressed, and how they fared.
#[derive(Clone, Copy, Debug, PartialEq, Eq, Structural)]
pub struct ShardCountResult {
    pub total: u64,
    pub successful: u64,
    pub failed: u64,
}

impl ShardCountResult {
    /// The first field that a document lacks to be a shard count.
    pub open spec fn shape_fault(d: JsonModel) -> Option<Seq<char>> {
        if d.u64_at("total"@) is None {
            Some("total"@)
        } else if d.u64_at("successful"@) is None {
            Some("successful"@)
        } else if d.u64_at("failed"@) is None {
            Some("failed"@)
        } else {
            None
        }
    }

    /// The shard count that a document holds.
    pub open spec fn of(d: JsonModel) -> ShardCountResult
        recommends
            Self::shape_fault(d) is None,
    {
        ShardCountResult {
            total: d.u64_at("total"@)->0,
            successful: d.u64_at("successful"@)->0,
            failed: d.u64_at("failed"@)->0,
        }
    }

    /// Reads a shard count: the fields `total`, `successful` and `failed`.
    pub fn from_json(d: &JsonValue) -> (r: Result<ShardCountResult, EsError>)
        ensures
            match r {
                Ok(count) => Self::shape_fault(d@) is None && count == Self::of(d@),
                Err(e) => Self::shape_fault(d@) matches Some(path) && e.is_shape_error(path),
            },
    {
        let total = d.read_u64("total")?;
        let successful = d.read_u64("successful")?;
        let failed = d.read_u64("failed")?;
        Ok(ShardCountResult { total, successful, failed })
    }

    /// Whether every addressed shard succeeded and none failed.
    pub open spec fn all_succeeded(self) -> bool {
        self.failed == 0 && self.successful == self.total
    }

    /// Whether every addressed shard succeeded and none failed.
    pub fn succeeded(&self) -> (r: bool)
        ensures
            r == self.all_succeeded(),
    {
        self.failed == 0 && self.successful == self.total
    }
}

/// The mathematical value of a refresh operation.
pub ghost struct RefreshModel {
    pub indexes: Seq<Seq<char>>,
}

impl RefreshModel {
    /// The request of the operation: `POST /{indexes}/_refresh`.
    pub open spec fn request(self) -> RequestModel {
        RequestModel {
            method: Method::Post,
            path: "/"@ + multi(self.indexes) + "/_refresh"@,
            params: Seq::empty(),
            body: None,
        }
    }
}

/// A refresh operation under construction: makes what was indexed searchable.
pub struct RefreshOperation {
    indexes: Vec<String>,
}

impl View for RefreshOperation {
    type V = RefreshModel;

    closed spec fn view(&self) -> RefreshModel {
        RefreshModel { indexes: texts(self.indexes@) }
    }
}

impl RefreshOperation {
    /// A refresh of all indexes.
    pub fn new() -> (r: RefreshOperation)
        ensures
            r@ == (RefreshModel { indexes: Seq::empty() }),
    {
        let r = RefreshOperation { indexes: Vec::new() };
        assert(texts(r.indexes@) =~= Seq::empty());
        r
    }

    /// Restricts the refresh to the given indexes.
    pub fn with_indexes(self, indexes: &[&str]) -> (r: RefreshOperation)
        ensures
            r@ == (RefreshModel { indexes: slices(indexes@) }),
    {
        RefreshOperation { indexes: copy_names(indexes) }
    }

    /// The request of the operation.
    pub fn request(&self) -> (r: Request)
        ensures
            r@ == self@.request(),
    {
        let mut path = String::from_str("/");
        let names = format_multi(&self.indexes);
        path.append(names.as_str());
        path.append("/_refresh");
        let r = Request { method: Method::Post, path, params: Vec::new(), body: None };
        assert(r@.params =~= Seq::empty());
        r
    }

    /// Ends the operation: reads its result out of the response.
    pub fn response(self, status: u16, body: &[u8]) -> (r: Result<RefreshResult, EsError>)
        ensures
            match r {
                Ok(result) => {
                    &&& received(status, body@) matches Received::Document(d)
                    &&& RefreshResult::shape_fault(d) is None
                    &&& result.describes(d)
                },
                Err(e) => match received(status, body@) {
                    Received::Document(d) => RefreshResult::shape_fault(d) matches Some(path)
                        && e.is_shape_error(path),
                    _ => reception_error(status, body@, e),
                },
            },
    {
        let d = receive(status, body)?;
        RefreshResult::from_json(&d)
    }
}

/// The path that a document lacks to hold a shard count in `_shards`.
pub open spec fn shards_fault(d: JsonModel) -> Option<Seq<char>> {
    match d.get("_shards"@) {
        None => Some("_shards"@),
        Some(shards) => match ShardCountResult::shape_fault(shards) {
            Some(path) => Some("_shards"@ + "."@ + path),
            None => None,
        },
    }
}

/// The shard count in `_shards` of a document.
pub open spec fn shards_of(d: JsonModel) -> ShardCountResult
    recommends
        shards_fault(d) is None,
{
    ShardCountResult::of(d.get("_shards"@)->0)
}

/// Reads the shard count in `_shards`.
pub fn read_shards(d: &JsonValue) -> (r: Result<ShardCountResult, EsError>)
    ensures
        match r {
            Ok(count) => shards_fault(d@) is None && count == shards_of(d@),
            Err(e) => shards_fault(d@) matches Some(path) && e.is_shape_error(path),
        },
{
    let shards = d.read_member("_shards")?;
    match ShardCountResult::from_json(shards) {
        Ok(count) => Ok(count),
        Err(e) => Err(within("_shards", e)),
    }
}

/// What the engine reports of a refresh.
#[derive(Debug, PartialEq)]
pub struct RefreshResult {
    pub shards: ShardCountResult,
}

impl RefreshResult {
    /// The path that a document lacks to be a refresh result.
    pub open spec fn shape_fault(d: JsonModel) -> Option<Seq<char>> {
        shards_fault(d)
    }

    /// Whether the result says what the document holds.
    pub open spec fn describes(&self, d: JsonModel) -> bool {
        self.shards == shards_of(d)
    }

    /// Reads a refresh result.
    pub fn from_json(d: &JsonValue) -> (r: Result<RefreshResult, EsError>)
        ensures
            match r {
                Ok(result) => Self::shape_fault(d@) is None && result.describes(d@),
                Err(e) => Self::shape_fault(d@) matches Some(path) && e.is_shape_error(path),
            },
    {
        let shards = read_shards(d)?;
        Ok(RefreshResult { shards })
    }
}

} // verus!
