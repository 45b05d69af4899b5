//! The protocol-stable error codes that classification produces.

use vstd::prelude::*;

verus! {

/// A symbolic, protocol-stable error code.
///
/// This is the closed enumeration that the outer protocol layer turns into an
/// HTTP status and a structured body. Classification of any concrete error
/// value is a pure function of its structure and yields exactly one of these
/// codes; no error shape is left without one.
#[derive(Clone, Copy, Debug, PartialEq, Eq, Structural)]
pub enum Code {
    /// The request carried no `Content-Type` header where one was required.
    MissingContentType,
    /// The request carried a `Content-Type` header outside the accepted set.
    InvalidContentType,
    /// The caller sent a request the server cannot honour as phrased.
    BadRequest,
    /// The request body exceeded the configured size limit.
    PayloadTooLarge,
    /// The request body's media type is not acceptable for the endpoint.
    UnsupportedMediaType,
    /// A body was required and none was sent.
    MissingPayload,
    /// A body was sent but is syntactically invalid.
    MalformedPayload,
    /// A server-side fault the caller cannot be blamed for.
    Internal,
}

} // verus!
