//! The analyze operation: shows how the engine splits a text into tokens.

use crate::error::EsError;
use crate::json::items_model;
use crate::json::JsonModel;
use crate::json::JsonValue;
use crate::operations::name_text;
use crate::operations::push_segment;
use crate::operations::segment;
use crate::operations::within;
use crate::receive;
use crate::received;
use crate::reception_error;
use crate::request::has_param;
use crate::request::lemma_has_optional_param;
use crate::request::optional_param;
use crate::request::push_param;
use crate::request::Method;
use crate::request::Request;
use crate::request::RequestModel;
use crate::Received;
use vstd::prelude::*;

verus! {

/// The mathematical value of an analyze operation.
pub ghost struct AnalyzeModel {
    pub body: Seq<char>,
    pub index: Option<Seq<char>>,
    pub analyzer: Option<Seq<char>>,
}

impl AnalyzeModel {
    /// The request of the operation: `POST /_analyze`, or
    /// `POST /{index}/_analyze` where an index is set, with the text as the
    /// body and the parameter `analyzer` only where one is set.
    pub open spec fn request(self) -> RequestModel {
        RequestModel {
            method: Method::Post,
            path: segment(self.index) + "/_analyze"@,
            params: optional_param("analyzer"@, self.analyzer),
            body: Some(self.body),
        }
    }
}

/// An analyze operation under construction.
pub struct AnalyzeOperation {
    body: String,
    index: Option<String>,
    analyzer: Option<String>,
}

impl View for AnalyzeOperation {
    type V = AnalyzeModel;

    closed spec fn view(&self) -> AnalyzeModel {
        AnalyzeModel {
            body: self.body@,
            index: name_text(self.index),
            analyzer: name_text(self.analyzer),
        }
    }
}

impl AnalyzeOperation {
    /// An operation that analyzes `body` with the engine's default analyzer.
    pub fn new(body: &str) -> (r: AnalyzeOperation)
        ensures
            r@ == (AnalyzeModel { body: body@, index: None, analyzer: None }),
    {
        AnalyzeOperation { body: String::from_str(body), index: None, analyzer: None }
    }

    /// Sets the index whose analyzers are used.
    pub fn with_index(self, index: &str) -> (r: AnalyzeOperation)
        ensures
            r@ == (AnalyzeModel { index: Some(index@), ..self@ }),
    {
        AnalyzeOperation { index: Some(String::from_str(index)), ..self }
    }

    /// Sets the analyzer.
    pub fn with_analyzer(self, analyzer: &str) -> (r: AnalyzeOperation)
        ensures
            r@ == (AnalyzeModel { analyzer: Some(analyzer@), ..self@ }),
    {
        AnalyzeOperation { analyzer: Some(String::from_str(analyzer)), ..self }
    }

    /// The request of the operation.
    pub fn request(&self) -> (r: Request)
        ensures
            r@ == self@.request(),
    {
        let mut path = String::new();
        push_segment(&mut path, &self.index);
        path.append("/_analyze");
        let mut params: Vec<(String, String)> = Vec::new();
        push_param(&mut params, "analyzer", self.analyzer.clone());
        Request { method: Method::Post, path, params, body: Some(self.body.clone()) }
    }

    /// Ends the operation: reads its result out of the response.
    pub fn response(self, status: u16, body: &[u8]) -> (r: Result<AnalyzeResult, EsError>)
        ensures
            match r {
                Ok(result) => {
                    &&& received(status, body@) matches Received::Document(d)
                    &&& AnalyzeResult::shape_fault(d) is None
                    &&& result.describes(d)
                },
                Err(e) => match received(status, body@) {
                    Received::Document(d) => AnalyzeResult::shape_fault(d) matches Some(path)
                        && e.is_shape_error(path),
                    _ => reception_error(status, body@, e),
                },
            },
    {
        let d = receive(status, body)?;
        AnalyzeResult::from_json(&d)
    }
}

/// An analyze request carries the parameter `analyzer` exactly if an
/// analyzer was set, and never another parameter.
pub proof fn lemma_analyze_params_follow_options(op: AnalyzeModel, key: Seq<char>)
    ensures
        has_param(op.request().params, key) <==> op.analyzer is Some && key == "analyzer"@,
{
    lemma_has_optional_param("analyzer"@, op.analyzer, key);
}

/// One token of an analyzed text.
#[derive(Debug, PartialEq)]
pub struct Token {
    pub token: String,
    pub token_type: String,
    pub position: u64,
    pub start_offset: u64,
    pub end_offset: u64,
}

impl Token {
    /// The first field that a document lacks to be a token.
    pub open spec fn shape_fault(d: JsonModel) -> Option<Seq<char>> {
        if d.string_at("token"@) is None {
            Some("token"@)
        } else if d.string_at("type"@) is None {
            Some("type"@)
        } else if d.u64_at("position"@) is None {
            Some("position"@)
        } else if d.u64_at("start_offset"@) is None {
            Some("start_offset"@)
        } else if d.u64_at("end_offset"@) is None {
            Some("end_offset"@)
        } else {
            None
        }
    }

    /// Whether the token says what the document holds.
    pub open spec fn describes(&self, d: JsonModel) -> bool {
        &&& d.string_at("token"@) == Some(self.token@)
        &&& d.string_at("type"@) == Some(self.token_type@)
        &&& d.u64_at("position"@) == Some(self.position)
        &&& d.u64_at("start_offset"@) == Some(self.start_offset)
        &&& d.u64_at("end_offset"@) == Some(self.end_offset)
    }

    /// Reads a token.
    pub fn from_json(d: &JsonValue) -> (r: Result<Token, EsError>)
        ensures
            match r {
                Ok(token) => Self::shape_fault(d@) is None && token.describes(d@),
                Err(e) => Self::shape_fault(d@) matches Some(path) && e.is_shape_error(path),
            },
    {
        let token = d.read_string("token")?;
        let token_type = d.read_string("type")?;
        let position = d.read_u64("position")?;
        let start_offset = d.read_u64("start_offset")?;
        let end_offset = d.read_u64("end_offset")?;
        Ok(Token { token, token_type, position, start_offset, end_offset })
    }
}

/// The fault of the first document, at or after `from`, that is no token.
pub open spec fn first_token_fault(items: Seq<JsonModel>, from: int) -> Option<Seq<char>>
    decreases items.len() - from,
{
    if from < 0 || from >= items.len() {
        None
    } else {
        match Token::shape_fault(items[from]) {
            Some(path) => Some(path),
            None => first_token_fault(items, from + 1),
        }
    }
}

/// What the engine reports of an analyzed text.
#[derive(Debug, PartialEq)]
pub struct AnalyzeResult {
    /// The tokens, in the order of the text.
    pub tokens: Vec<Token>,
}

impl AnalyzeResult {
    /// The path that a document lacks to be an analyze result.
    pub open spec fn shape_fault(d: JsonModel) -> Option<Seq<char>> {
        if d.array_at("tokens"@) is None {
            Some("tokens"@)
        } else if first_token_fault(d.array_at("tokens"@)->0, 0) is Some {
            Some("tokens"@ + "."@ + first_token_fault(d.array_at("tokens"@)->0, 0)->0)
        } else {
            None
        }
    }

    /// Whether the result says what the document holds: for every listed
    /// document, at its position, its token.
    pub open spec fn describes(&self, d: JsonModel) -> bool {
        &&& d.array_at("tokens"@) matches Some(items)
        &&& items.len() == self.tokens@.len()
        &&& forall|i: int| 0 <= i < items.len() ==> (#[trigger] self.tokens@[i]).describes(items[i])
    }

    /// Reads an analyze result.
    pub fn from_json(d: &JsonValue) -> (r: Result<AnalyzeResult, EsError>)
        ensures
            match r {
                Ok(result) => Self::shape_fault(d@) is None && result.describes(d@),
                Err(e) => Self::shape_fault(d@) matches Some(path) && e.is_shape_error(path),
            },
    {
        let items = d.read_array("tokens")?;
        let mut tokens: Vec<Token> = Vec::new();
        let mut i: usize = 0;
        while i < items.len()
            invariant
                i <= items.len(),
                tokens@.len() == i,
                d@.array_at("tokens"@) == Some(items_model(items@)),
                first_token_fault(items_model(items@), 0) == first_token_fault(
                    items_model(items@),
                    i as int,
                ),
                forall|k: int| 0 <= k < i ==> (#[trigger] tokens@[k]).describes(items_model(items@)[k]),
            decreases items.len() - i,
        {
            match Token::from_json(&items[i]) {
                Ok(token) => {
                    tokens.push(token);
                },
                Err(e) => {
                    return Err(within("tokens", e));
                },
            }
            i += 1;
        }
        Ok(AnalyzeResult { tokens })
    }
}

} // verus!
