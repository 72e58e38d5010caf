//! The single error type that every operation reports.

use crate::text::decimal;
use crate::text::decimal_string;
use rustc_serialize::json::EncoderError;
use rustc_serialize::json::ParserError;
use vstd::prelude::*;

verus! {

/// `rustc_serialize::json::ParserError`: why a text is not JSON. Carried, never
/// inspected.
#[verifier::external_type_specification]
#[verifier::external_body]
pub struct ExParserError(ParserError);

/// `rustc_serialize::json::EncoderError`: why a value could not be written as
/// JSON. Carried, never inspected.
#[verifier::external_type_specification]
#[verifier::external_body]
pub struct ExEncoderError(EncoderError);

/// Why a body could not be turned into JSON text, or JSON text into a value.
#[derive(Debug, PartialEq)]
pub enum EncodingFailure {
    /// A request body could not be serialized.
    Request(EncoderError),
    /// A response body is not well-formed JSON.
    Response(ParserError),
    /// A request body names a field of one object twice.
    RepeatedName,
    /// A response body is beyond what the parser is given: it nests too
    /// deep, or holds too long a name or exponent, or a comma before a
    /// closing brace.
    BeyondLimits,
}

/// Everything that can go wrong with one call.
#[derive(Debug, PartialEq)]
pub enum EsError {
    /// The HTTP round trip did not complete. Only the transport creates it.
    TransportError(String),
    /// A body failed to serialize or to parse.
    EncodingError(EncodingFailure),
    /// The engine answered with a status that is neither success nor "not found".
    EngineError { status: u16, body: Vec<u8> },
    /// The response was JSON but lacked the named path, or held another type there.
    DecodeShapeError(String),
}

impl EsError {
    /// The path that a `DecodeShapeError` names.
    pub open spec fn is_shape_error(self, path: Seq<char>) -> bool {
        self matches EsError::DecodeShapeError(p) && p@ == path
    }

    /// An `EngineError` with the given status and raw body.
    pub open spec fn is_engine_error(self, status: u16, body: Seq<u8>) -> bool {
        self matches EsError::EngineError { status: s, body: b } && s == status && b@ == body
    }

    /// A one-line description of the error.
    pub open spec fn description(self) -> Seq<char> {
        match self {
            EsError::TransportError(reason) => "transport error: "@ + reason@,
            EsError::EncodingError(EncodingFailure::Request(_)) => "request body could not be serialized"@,
            EsError::EncodingError(EncodingFailure::Response(_)) => "response body is not JSON"@,
            EsError::EncodingError(EncodingFailure::RepeatedName) => "request body names a field twice"@,
            EsError::EncodingError(EncodingFailure::BeyondLimits) => "response body is beyond the parser's limits"@,
            EsError::EngineError { status, body } => "engine answered with status "@ + decimal(
                status as nat,
            ),
            EsError::DecodeShapeError(path) => "response lacks "@ + path@,
        }
    }

    /// A one-line description of the error.
    pub fn describe(&self) -> (r: String)
        ensures
            r@ == self.description(),
    {
        match self {
            EsError::TransportError(reason) => {
                let mut out = String::from_str("transport error: ");
                out.append(reason.as_str());
                out
            },
            EsError::EncodingError(EncodingFailure::Request(_)) => String::from_str(
                "request body could not be serialized",
            ),
            EsError::EncodingError(EncodingFailure::Response(_)) => String::from_str(
                "response body is not JSON",
            ),
            EsError::EncodingError(EncodingFailure::RepeatedName) => String::from_str(
                "request body names a field twice",
            ),
            EsError::EncodingError(EncodingFailure::BeyondLimits) => String::from_str(
                "response body is beyond the parser's limits",
            ),
            EsError::EngineError { status, body } => {
                let mut out = String::from_str("engine answered with status ");
                let code = decimal_string(*status as u64);
                out.append(code.as_str());
                out
            },
            EsError::DecodeShapeError(path) => {
                let mut out = String::from_str("response lacks ");
                out.append(path.as_str());
                out
            },
        }
    }

    /// Builds the error for a missing or mistyped path.
    pub fn shape(path: &str) -> (e: EsError)
        ensures
            e.is_shape_error(path@),
    {
        EsError::DecodeShapeError(String::from_str(path))
    }
}

} // verus!
