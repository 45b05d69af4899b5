//! Refining a structured-body deserialization failure into a missing or a
//! malformed payload, and the content-type variants.

use meilisearch_http::code::Code;
use meilisearch_http::error::MeilisearchHttpError;
use meilisearch_http::leaf::{
    Category, DeserializeError, DocumentFormatError, JsonError, SchedulerError, TransportError,
};
use meilisearch_http::payload::PayloadError;

#[test]
fn empty_body_becomes_missing_payload() {
    // An empty body where a JSON body is expected: the deserializer fails
    // with end-of-input having consumed nothing, at line 1, column 0.
    let d = DeserializeError { category: Category::Eof, line: 1, column: 0 };
    let p = PayloadError::from(JsonError::Deserialize(d));
    assert_eq!(p, PayloadError::MissingPayload);
    assert_eq!(p.error_code(), Code::MissingPayload);
}

#[test]
fn truncated_body_becomes_malformed_payload() {
    // End-of-input after some of the body was consumed is a truncated body,
    // not a missing one.
    let d = DeserializeError { category: Category::Eof, line: 1, column: 5 };
    let p = PayloadError::from(JsonError::Deserialize(d));
    assert_eq!(p, PayloadError::MalformedPayload(d));
    assert_eq!(p.error_code(), Code::MalformedPayload);
}

#[test]
fn syntax_error_becomes_malformed_payload() {
    // A body like `{"a": }`: syntactically invalid, rejected at line 1,
    // column 7, with the position kept for message rendering.
    let d = DeserializeError { category: Category::Syntax, line: 1, column: 7 };
    let p = PayloadError::from(JsonError::Deserialize(d));
    assert_eq!(p, PayloadError::MalformedPayload(d));
    assert_eq!(p.error_code(), Code::MalformedPayload);
}

#[test]
fn data_shape_error_stays_structured_body_error() {
    // Valid JSON of the wrong shape is neither missing nor malformed.
    let d = DeserializeError { category: Category::Data, line: 1, column: 9 };
    let p = PayloadError::from(JsonError::Deserialize(d));
    assert_eq!(p, PayloadError::Json(JsonError::Deserialize(d)));
    assert_eq!(p.error_code(), Code::BadRequest);
}

#[test]
fn data_shape_error_at_origin_stays_structured_body_error() {
    // The empty-body signature rescues only end-of-input failures: a
    // data-shape failure at line 1, column 0 is not a missing payload.
    let d = DeserializeError { category: Category::Data, line: 1, column: 0 };
    let p = PayloadError::from(JsonError::Deserialize(d));
    assert_eq!(p, PayloadError::Json(JsonError::Deserialize(d)));
}

#[test]
fn non_deserialize_shapes_pass_through_unrefined() {
    let shapes = [
        JsonError::Overflow,
        JsonError::ContentType,
        JsonError::Payload(TransportError::Overflow),
        JsonError::Serialize(String::from("key must be a string")),
    ];
    for e in shapes {
        let p = PayloadError::from(e.clone());
        assert_eq!(p, PayloadError::Json(e));
    }
}

#[test]
fn oversized_body_is_payload_too_large() {
    // A body over the configured size limit, as the extractor reports it.
    let p = PayloadError::from(JsonError::Overflow);
    assert_eq!(p.error_code(), Code::PayloadTooLarge);
    // The same limit hit at the transport layer.
    let e = MeilisearchHttpError::from(TransportError::Overflow);
    assert_eq!(e.error_code(), Code::PayloadTooLarge);
}

#[test]
fn classification_is_deterministic() {
    let d = DeserializeError { category: Category::Syntax, line: 4, column: 2 };
    let a = PayloadError::from(JsonError::Deserialize(d));
    let b = PayloadError::from(JsonError::Deserialize(d));
    assert_eq!(a, b);
    assert_eq!(a.error_code(), b.error_code());
}

#[test]
fn absent_header_yields_missing_content_type() {
    let accepted = vec![String::from("application/json")];
    let e = MeilisearchHttpError::from_content_type(None, accepted.clone());
    assert_eq!(e, MeilisearchHttpError::MissingContentType(accepted));
    assert_eq!(e.error_code(), Code::MissingContentType);
}

#[test]
fn absent_header_with_empty_accepted_set_still_missing() {
    // Even with nothing acceptable, an absent header is "missing", never
    // "invalid".
    let e = MeilisearchHttpError::from_content_type(None, Vec::new());
    assert_eq!(e, MeilisearchHttpError::MissingContentType(Vec::new()));
    assert_eq!(e.error_code(), Code::MissingContentType);
}

#[test]
fn unacceptable_header_yields_invalid_content_type() {
    // `Content-Type: text/plain` on an endpoint accepting only JSON: the
    // header's value and the acceptable set are both echoed back.
    let accepted = vec![String::from("application/json")];
    let e = MeilisearchHttpError::from_content_type(
        Some(String::from("text/plain")),
        accepted.clone(),
    );
    assert_eq!(
        e,
        MeilisearchHttpError::InvalidContentType(String::from("text/plain"), accepted)
    );
    assert_eq!(e.error_code(), Code::InvalidContentType);
}

#[test]
fn wrapping_preserves_delegated_codes() {
    let s = SchedulerError { code: Code::BadRequest, message: String::from("invalid task uid") };
    assert_eq!(MeilisearchHttpError::from(s.clone()).error_code(), s.error_code());
    let f = DocumentFormatError {
        code: Code::UnsupportedMediaType,
        message: String::from("unsupported format"),
    };
    assert_eq!(MeilisearchHttpError::from(f.clone()).error_code(), f.error_code());
}

#[test]
fn wrapping_a_payload_failure_is_lossless() {
    let d = DeserializeError { category: Category::Syntax, line: 1, column: 7 };
    let p = PayloadError::MalformedPayload(d);
    let e = MeilisearchHttpError::from(p.clone());
    assert_eq!(e, MeilisearchHttpError::Payload(p));
    assert_eq!(e.error_code(), Code::MalformedPayload);
}

#[test]
fn wrapping_a_transport_failure_lands_under_payload() {
    let t = TransportError::Io(String::from("broken pipe"));
    let e = MeilisearchHttpError::from(t.clone());
    assert_eq!(e, MeilisearchHttpError::Payload(PayloadError::Payload(t)));
    assert_eq!(e.error_code(), Code::Internal);
}
