//! The unifying error wrapper and its code mapping.
//!
//! One constructor per leaf error source, each owning the original failure
//! value unchanged, plus the two content-type variants native to this layer.
//! Mapping a wrapped failure to its [`Code`] is a pure, total function of
//! the value's structure; where a leaf source owns its taxonomy (the
//! scheduler, the document-format parser), the code it computed is forwarded
//! unchanged, never re-derived.

use vstd::prelude::*;
use crate::code::Code;
use crate::leaf::{
    DocumentFormatError, FileStoreError, JoinError, SchedulerError, TransportError,
};
use crate::payload::PayloadError;

verus! {

/// Every failure the request-handling layer can surface, under one roof.
#[derive(Clone, Debug, PartialEq, Eq)]
pub enum MeilisearchHttpError {
    /// No `Content-Type` header was present; carries the acceptable media
    /// types, for message construction.
    MissingContentType(Vec<String>),
    /// A `Content-Type` header was present but not acceptable; carries the
    /// header's literal value and the acceptable media types.
    InvalidContentType(String, Vec<String>),
    /// A task-scheduler failure, owned unchanged.
    IndexScheduler(SchedulerError),
    /// A payload failure, owned unchanged.
    Payload(PayloadError),
    /// A blob-store failure, owned unchanged.
    FileStore(FileStoreError),
    /// A document-format parsing failure, owned unchanged.
    DocumentFormat(DocumentFormatError),
    /// A failure to join a concurrently executed unit of work, owned
    /// unchanged.
    Join(JoinError),
}

impl MeilisearchHttpError {
    /// The code this failure maps to, as a value for contracts. The
    /// scheduler and the document-format parser own their taxonomies: their
    /// codes pass through untouched. Blob-store and join failures are never
    /// the caller's fault.
    pub open spec fn spec_error_code(&self) -> Code {
        match *self {
            MeilisearchHttpError::MissingContentType(_) => Code::MissingContentType,
            MeilisearchHttpError::InvalidContentType(_, _) => Code::InvalidContentType,
            MeilisearchHttpError::IndexScheduler(e) => e.spec_error_code(),
            MeilisearchHttpError::Payload(e) => e.spec_error_code(),
            MeilisearchHttpError::FileStore(_) => Code::Internal,
            MeilisearchHttpError::DocumentFormat(e) => e.spec_error_code(),
            MeilisearchHttpError::Join(_) => Code::Internal,
        }
    }

    /// Maps this failure to its code: a pure, total function of the
    /// failure's structure.
    #[verifier::when_used_as_spec(spec_error_code)]
    pub fn error_code(&self) -> (r: Code)
        ensures
            r == self.spec_error_code(),
    {
        match self {
            MeilisearchHttpError::MissingContentType(_) => Code::MissingContentType,
            MeilisearchHttpError::InvalidContentType(_, _) => Code::InvalidContentType,
            MeilisearchHttpError::IndexScheduler(e) => e.error_code(),
            MeilisearchHttpError::Payload(e) => e.error_code(),
            MeilisearchHttpError::FileStore(_) => Code::Internal,
            MeilisearchHttpError::DocumentFormat(e) => e.error_code(),
            MeilisearchHttpError::Join(_) => Code::Internal,
        }
    }

    /// The error owed to a content-type check failure, as a value for
    /// contracts: a missing header yields the missing-content-type variant,
    /// whatever the acceptable set holds; a header outside the acceptable
    /// set yields the invalid-content-type variant with the header's value.
    pub open spec fn content_type_failure(
        header: Option<String>,
        accepted: Vec<String>,
    ) -> MeilisearchHttpError {
        match header {
            None => MeilisearchHttpError::MissingContentType(accepted),
            Some(h) => MeilisearchHttpError::InvalidContentType(h, accepted),
        }
    }

    /// Wraps the outcome of a failed content-type check. `header` is the
    /// literal header value if one was present; `accepted` is the list of
    /// acceptable media types, kept for message construction.
    pub fn from_content_type(header: Option<String>, accepted: Vec<String>) -> (r: Self)
        ensures
            r == Self::content_type_failure(header, accepted),
    {
        match header {
            None => MeilisearchHttpError::MissingContentType(accepted),
            Some(h) => MeilisearchHttpError::InvalidContentType(h, accepted),
        }
    }
}

impl From<PayloadError> for MeilisearchHttpError {
    /// Wraps a payload failure unchanged.
    fn from(e: PayloadError) -> Self {
        MeilisearchHttpError::Payload(e)
    }
}

impl vstd::std_specs::convert::FromSpecImpl<PayloadError> for MeilisearchHttpError {
    open spec fn obeys_from_spec() -> bool {
        true
    }

    open spec fn from_spec(e: PayloadError) -> Self {
        MeilisearchHttpError::Payload(e)
    }
}

impl From<TransportError> for MeilisearchHttpError {
    /// Wraps a transport-layer body failure unchanged, as a payload failure.
    fn from(e: TransportError) -> Self {
        MeilisearchHttpError::Payload(PayloadError::Payload(e))
    }
}

impl vstd::std_specs::convert::FromSpecImpl<TransportError> for MeilisearchHttpError {
    open spec fn obeys_from_spec() -> bool {
        true
    }

    open spec fn from_spec(e: TransportError) -> Self {
        MeilisearchHttpError::Payload(PayloadError::Payload(e))
    }
}

impl From<SchedulerError> for MeilisearchHttpError {
    /// Wraps a scheduler failure unchanged.
    fn from(e: SchedulerError) -> Self {
        MeilisearchHttpError::IndexScheduler(e)
    }
}

impl vstd::std_specs::convert::FromSpecImpl<SchedulerError> for MeilisearchHttpError {
    open spec fn obeys_from_spec() -> bool {
        true
    }

    open spec fn from_spec(e: SchedulerError) -> Self {
        MeilisearchHttpError::IndexScheduler(e)
    }
}

impl From<FileStoreError> for MeilisearchHttpError {
    /// Wraps a blob-store failure unchanged.
    fn from(e: FileStoreError) -> Self {
        MeilisearchHttpError::FileStore(e)
    }
}

impl vstd::std_specs::convert::FromSpecImpl<FileStoreError> for MeilisearchHttpError {
    open spec fn obeys_from_spec() -> bool {
        true
    }

    open spec fn from_spec(e: FileStoreError) -> Self {
        MeilisearchHttpError::FileStore(e)
    }
}

impl From<DocumentFormatError> for MeilisearchHttpError {
    /// Wraps a document-format failure unchanged.
    fn from(e: DocumentFormatError) -> Self {
        MeilisearchHttpError::DocumentFormat(e)
    }
}

impl vstd::std_specs::convert::FromSpecImpl<DocumentFormatError> for MeilisearchHttpError {
    open spec fn obeys_from_spec() -> bool {
        true
    }

    open spec fn from_spec(e: DocumentFormatError) -> Self {
        MeilisearchHttpError::DocumentFormat(e)
    }
}

impl From<JoinError> for MeilisearchHttpError {
    /// Wraps a join failure unchanged.
    fn from(e: JoinError) -> Self {
        MeilisearchHttpError::Join(e)
    }
}

impl vstd::std_specs::convert::FromSpecImpl<JoinError> for MeilisearchHttpError {
    open spec fn obeys_from_spec() -> bool {
        true
    }

    open spec fn from_spec(e: JoinError) -> Self {
        MeilisearchHttpError::Join(e)
    }
}

} // verus!
