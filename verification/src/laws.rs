//! The guarantees the classification layer gives, stated and proved once
//! over all inputs.

use vstd::prelude::*;
use crate::code::Code;
use crate::error::MeilisearchHttpError;
use crate::leaf::{DeserializeError, DocumentFormatError, JsonError, SchedulerError};
use crate::payload::PayloadError;

verus! {

/// Totality: every constructible failure maps to exactly one code of the
/// closed enumeration — no shape is left unclassified.
pub proof fn lemma_code_total(e: MeilisearchHttpError)
    ensures
        e.spec_error_code() is MissingContentType
            || e.spec_error_code() is InvalidContentType
            || e.spec_error_code() is BadRequest
            || e.spec_error_code() is PayloadTooLarge
            || e.spec_error_code() is UnsupportedMediaType
            || e.spec_error_code() is MissingPayload
            || e.spec_error_code() is MalformedPayload
            || e.spec_error_code() is Internal,
{
}

/// Determinism: mapping is a pure function of the failure's structure, so
/// structurally identical failures always map to identical codes.
pub proof fn lemma_code_deterministic(a: MeilisearchHttpError, b: MeilisearchHttpError)
    requires
        a == b,
    ensures
        a.spec_error_code() == b.spec_error_code(),
{
}

/// Disambiguation correctness: a structured-body deserialization failure of
/// category end-of-input at line 1, column 0 always classifies as a missing
/// payload; at any other position or category it classifies as a malformed
/// payload unless the category is data-shape, in which case it stays a
/// plain structured-body failure.
pub proof fn lemma_disambiguation(d: DeserializeError)
    ensures
        (d.category is Eof && d.line == 1 && d.column == 0)
            ==> PayloadError::classify_json(JsonError::Deserialize(d))
                == PayloadError::MissingPayload,
        (!(d.category is Eof && d.line == 1 && d.column == 0) && !(d.category is Data))
            ==> PayloadError::classify_json(JsonError::Deserialize(d))
                == PayloadError::MalformedPayload(d),
        (!(d.category is Eof && d.line == 1 && d.column == 0) && d.category is Data)
            ==> PayloadError::classify_json(JsonError::Deserialize(d))
                == PayloadError::Json(JsonError::Deserialize(d)),
{
}

/// Disambiguation totality: every structured-body failure reaches exactly
/// one of the three outcomes, and anything but a deserialization failure is
/// owned unchanged.
pub proof fn lemma_disambiguation_total(e: JsonError)
    ensures
        PayloadError::classify_json(e) is MissingPayload
            || PayloadError::classify_json(e) is MalformedPayload
            || PayloadError::classify_json(e) is Json,
        !(e is Deserialize) ==> PayloadError::classify_json(e) == PayloadError::Json(e),
{
}

/// Content-type precedence: the absence of a `Content-Type` header always
/// yields the missing-content-type variant and its code, never the
/// invalid-content-type one, even when the acceptable set is empty.
pub proof fn lemma_missing_content_type_precedence(accepted: Vec<String>)
    ensures
        MeilisearchHttpError::content_type_failure(None, accepted)
            == MeilisearchHttpError::MissingContentType(accepted),
        MeilisearchHttpError::content_type_failure(None, accepted).spec_error_code()
            == Code::MissingContentType,
        !(MeilisearchHttpError::content_type_failure(None, accepted) is InvalidContentType),
{
}

/// Delegation transparency, scheduler side: wrapping a scheduler failure and
/// mapping it yields exactly the code the scheduler's own mapping computed —
/// never overridden.
pub proof fn lemma_scheduler_delegation(e: SchedulerError)
    ensures
        MeilisearchHttpError::IndexScheduler(e).spec_error_code() == e.spec_error_code(),
{
}

/// Delegation transparency, document-format side: wrapping a document-format
/// failure and mapping it yields exactly the code the parser's own mapping
/// computed — never overridden.
pub proof fn lemma_document_format_delegation(e: DocumentFormatError)
    ensures
        MeilisearchHttpError::DocumentFormat(e).spec_error_code() == e.spec_error_code(),
{
}

} // verus!
