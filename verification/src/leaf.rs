//! Models of the failure values that the leaf error sources report.
//!
//! The leaf sources (transport layer, structured-body deserializer,
//! query-string deserializer, task scheduler, blob store, document-format
//! parser, asynchronous task execution) each report a failure value of their
//! own. Classification never parses a request itself: it only reads a few
//! plain attributes of those values. The types here hold exactly those
//! attributes, so that the classification rules can be stated and checked
//! over them.

use vstd::prelude::*;
use crate::code::Code;

verus! {

/// A transport-layer body failure, one of six known sub-cases.
///
/// The payload of a sub-case is the diagnostic kept for message rendering:
/// classification never reads it.
#[derive(Clone, Debug, PartialEq, Eq)]
pub enum TransportError {
    /// The body ended before its declared extent, possibly with an
    /// underlying I/O diagnostic.
    Incomplete(Option<String>),
    /// The body's content encoding could not be decoded.
    EncodingCorrupted,
    /// The body exceeded the configured size limit.
    Overflow,
    /// The body's length could not be determined.
    UnknownLength,
    /// A protocol-framing fault, with its diagnostic.
    Framing(String),
    /// An I/O fault while reading the body, with its diagnostic.
    Io(String),
}

/// How a structured-body deserializer classified its own failure.
#[derive(Clone, Copy, Debug, PartialEq, Eq, Structural)]
pub enum Category {
    /// The input ended where more was expected.
    Eof,
    /// The input is not syntactically valid.
    Syntax,
    /// The input is valid syntax but has the wrong shape for the target.
    Data,
}

/// The diagnostic a structured-body deserializer attaches to a failure:
/// its own classification and the position (1-based line, 0-based column
/// within that line) at which parsing failed.
#[derive(Clone, Copy, Debug, PartialEq, Eq, Structural)]
pub struct DeserializeError {
    pub category: Category,
    pub line: usize,
    pub column: usize,
}

/// A structured-body (JSON) payload failure as the deserializing extractor
/// reports it.
#[derive(Clone, Debug, PartialEq, Eq)]
pub enum JsonError {
    /// The declared or accumulated body size exceeded the configured limit.
    Overflow,
    /// The body's media type is not acceptable for a structured body.
    ContentType,
    /// Reading the body itself failed at the transport layer.
    Payload(TransportError),
    /// Deserialization failed; the deserializer's diagnostic is kept.
    Deserialize(DeserializeError),
    /// Re-serialization on the response side failed, with its diagnostic.
    Serialize(String),
}

/// A query-string deserialization failure.
#[derive(Clone, Debug, PartialEq, Eq)]
pub enum QueryError {
    /// The query string could not be deserialized, with its diagnostic.
    Deserialize(String),
    /// Any other query-string fault.
    Other,
}

/// A task-scheduler failure. The scheduler owns its error taxonomy: it
/// exposes the code it computed for the failure, and classification forwards
/// that code unchanged.
#[derive(Clone, Debug, PartialEq, Eq)]
pub struct SchedulerError {
    /// The code the scheduler's own mapping produced.
    pub code: Code,
    /// The scheduler's diagnostic, kept for message rendering.
    pub message: String,
}

/// A document-format parsing failure. Like the scheduler, the parser owns
/// its error taxonomy and exposes the code it computed.
#[derive(Clone, Debug, PartialEq, Eq)]
pub struct DocumentFormatError {
    /// The code the parser's own mapping produced.
    pub code: Code,
    /// The parser's diagnostic, kept for message rendering.
    pub message: String,
}

/// A blob-store failure. Store failures are never caller-attributable, so
/// classification reads nothing of the diagnostic.
#[derive(Clone, Debug, PartialEq, Eq)]
pub struct FileStoreError {
    /// The store's diagnostic, kept for message rendering.
    pub message: String,
}

/// A failure to join a unit of work executed on another worker.
#[derive(Clone, Debug, PartialEq, Eq)]
pub struct JoinError {
    /// The join diagnostic, kept for message rendering.
    pub message: String,
}

impl SchedulerError {
    /// The code this failure carries, as a value for contracts.
    pub open spec fn spec_error_code(&self) -> Code {
        self.code
    }

    /// The scheduler's own code for this failure.
    #[verifier::when_used_as_spec(spec_error_code)]
    pub fn error_code(&self) -> (r: Code)
        ensures
            r == self.spec_error_code(),
    {
        self.code
    }
}

impl DocumentFormatError {
    /// The code this failure carries, as a value for contracts.
    pub open spec fn spec_error_code(&self) -> Code {
        self.code
    }

    /// The parser's own code for this failure.
    #[verifier::when_used_as_spec(spec_error_code)]
    pub fn error_code(&self) -> (r: Code)
        ensures
            r == self.spec_error_code(),
    {
        self.code
    }
}

} // verus!
