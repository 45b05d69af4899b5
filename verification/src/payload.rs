//! The payload-failure taxonomy and its disambiguation rule.
//!
//! A structured-body deserializer reports "no body was sent" and "a body was
//! sent but is syntactically broken" as the same kind of failure. The
//! construction of a [`PayloadError`] from such a failure inspects the
//! deserializer's diagnostic — its category and the position at which it gave
//! up — to tell the two apart, so that each ends up under a code of its own.

use vstd::prelude::*;
use crate::code::Code;
use crate::leaf::{Category, DeserializeError, JsonError, QueryError, TransportError};

verus! {

/// Something went wrong while reading or parsing the request body or the
/// query string.
///
/// The first three variants wrap a leaf failure unchanged. The last two are
/// derived, never reported directly: a structured-body deserialization
/// failure is refined into `MissingPayload` or `MalformedPayload` when its
/// diagnostic shows the true cause (see [`PayloadError::classify_json`]).
#[derive(Clone, Debug, PartialEq, Eq)]
pub enum PayloadError {
    /// A transport-layer body failure, owned unchanged.
    Payload(TransportError),
    /// A structured-body failure that needed no refinement, owned unchanged.
    Json(JsonError),
    /// A query-string failure, owned unchanged.
    Query(QueryError),
    /// A body was sent but is syntactically invalid; the deserializer's
    /// diagnostic is kept for message rendering.
    MalformedPayload(DeserializeError),
    /// A body was required and none was sent.
    MissingPayload,
}

/// The code owed to each transport-layer sub-case: the caller is at fault
/// for an incomplete body, an undeterminable length or a framing fault; an
/// oversized body has its own code; corrupted encoding and I/O faults are
/// the server's to explain.
pub open spec fn transport_code(e: TransportError) -> Code {
    match e {
        TransportError::Incomplete(_) => Code::BadRequest,
        TransportError::EncodingCorrupted => Code::Internal,
        TransportError::Overflow => Code::PayloadTooLarge,
        TransportError::UnknownLength => Code::BadRequest,
        TransportError::Framing(_) => Code::BadRequest,
        TransportError::Io(_) => Code::Internal,
    }
}

/// The code owed to each structured-body sub-case. A size overflow keeps its
/// own code whether the extractor or the transport layer noticed it; any
/// other transport or parse fault is the caller's; a serialization-side
/// fault is the server's.
pub open spec fn json_code(e: JsonError) -> Code {
    match e {
        JsonError::Overflow => Code::PayloadTooLarge,
        JsonError::ContentType => Code::UnsupportedMediaType,
        JsonError::Payload(TransportError::Overflow) => Code::PayloadTooLarge,
        JsonError::Payload(_) => Code::BadRequest,
        JsonError::Deserialize(_) => Code::BadRequest,
        JsonError::Serialize(_) => Code::Internal,
    }
}

/// The code owed to each query-string sub-case.
pub open spec fn query_code(e: QueryError) -> Code {
    match e {
        QueryError::Deserialize(_) => Code::BadRequest,
        QueryError::Other => Code::Internal,
    }
}

impl PayloadError {
    /// The code this payload failure maps to, as a value for contracts.
    pub open spec fn spec_error_code(&self) -> Code {
        match *self {
            PayloadError::Payload(e) => transport_code(e),
            PayloadError::Json(e) => json_code(e),
            PayloadError::Query(e) => query_code(e),
            PayloadError::MalformedPayload(_) => Code::MalformedPayload,
            PayloadError::MissingPayload => Code::MissingPayload,
        }
    }

    /// Maps this payload failure to its code: a pure, total function of the
    /// failure's structure.
    #[verifier::when_used_as_spec(spec_error_code)]
    pub fn error_code(&self) -> (r: Code)
        ensures
            r == self.spec_error_code(),
    {
        match self {
            PayloadError::Payload(e) => match e {
                TransportError::Incomplete(_) => Code::BadRequest,
                TransportError::EncodingCorrupted => Code::Internal,
                TransportError::Overflow => Code::PayloadTooLarge,
                TransportError::UnknownLength => Code::BadRequest,
                TransportError::Framing(_) => Code::BadRequest,
                TransportError::Io(_) => Code::Internal,
            },
            PayloadError::Json(e) => match e {
                JsonError::Overflow => Code::PayloadTooLarge,
                JsonError::ContentType => Code::UnsupportedMediaType,
                JsonError::Payload(TransportError::Overflow) => Code::PayloadTooLarge,
                JsonError::Payload(_) => Code::BadRequest,
                JsonError::Deserialize(_) => Code::BadRequest,
                JsonError::Serialize(_) => Code::Internal,
            },
            PayloadError::Query(e) => match e {
                QueryError::Deserialize(_) => Code::BadRequest,
                QueryError::Other => Code::Internal,
            },
            PayloadError::MalformedPayload(_) => Code::MalformedPayload,
            PayloadError::MissingPayload => Code::MissingPayload,
        }
    }

    /// The disambiguation rule, as a value for contracts. First match wins:
    ///
    /// 1. A deserialization failure of category [`Category::Eof`] whose
    ///    position is line 1, column 0 means the parser consumed nothing
    ///    before failing — the unambiguous signature of an empty body — and
    ///    becomes `MissingPayload`.
    /// 2. Any other deserialization failure whose category is not
    ///    [`Category::Data`] is a syntactically broken body and becomes
    ///    `MalformedPayload`, keeping the diagnostic.
    /// 3. Everything else — a data-shape failure over valid syntax, a
    ///    content-type mismatch, a size overflow, a serialization-side or
    ///    transport fault — is owned unchanged as `Json`.
    pub open spec fn classify_json(e: JsonError) -> PayloadError {
        match e {
            JsonError::Deserialize(d) => {
                if d.category is Eof && d.line == 1 && d.column == 0 {
                    PayloadError::MissingPayload
                } else if !(d.category is Data) {
                    PayloadError::MalformedPayload(d)
                } else {
                    PayloadError::Json(JsonError::Deserialize(d))
                }
            },
            _ => PayloadError::Json(e),
        }
    }
}

impl From<JsonError> for PayloadError {
    /// Wraps a structured-body failure, refining a deserialization failure
    /// into `MissingPayload` or `MalformedPayload` exactly as
    /// [`PayloadError::classify_json`] says.
    fn from(e: JsonError) -> Self {
        match e {
            JsonError::Deserialize(d) => {
                if d.category == Category::Eof && d.line == 1 && d.column == 0 {
                    PayloadError::MissingPayload
                } else if d.category != Category::Data {
                    PayloadError::MalformedPayload(d)
                } else {
                    PayloadError::Json(JsonError::Deserialize(d))
                }
            },
            _ => PayloadError::Json(e),
        }
    }
}

impl vstd::std_specs::convert::FromSpecImpl<JsonError> for PayloadError {
    open spec fn obeys_from_spec() -> bool {
        true
    }

    open spec fn from_spec(e: JsonError) -> Self {
        PayloadError::classify_json(e)
    }
}

impl From<QueryError> for PayloadError {
    /// Wraps a query-string failure unchanged: no refinement applies.
    fn from(e: QueryError) -> Self {
        PayloadError::Query(e)
    }
}

impl vstd::std_specs::convert::FromSpecImpl<QueryError> for PayloadError {
    open spec fn obeys_from_spec() -> bool {
        true
    }

    open spec fn from_spec(e: QueryError) -> Self {
        PayloadError::Query(e)
    }
}

} // verus!
