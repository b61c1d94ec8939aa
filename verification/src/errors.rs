//! The closed set of reasons a request can fail token validation.

use vstd::prelude::*;

verus! {

/// Every way the validation pipeline can reject a request.
///
/// The set is closed: the outcome mapper gives each variant exactly one
/// HTTP action and one log severity, checked exhaustively.
#[derive(Debug)]
pub enum FilterError {
    /// An internal or environmental fault: no usable clock reading was
    /// obtained.
    Unexpected,
    /// No bearer token could be extracted from the inbound request.
    NoToken,
    /// The introspection endpoint marked the token inactive, either with an
    /// explicit `active: false` answer or with a non-200 status.
    InactiveToken,
    /// The token's `exp` claim lies strictly before the current time.
    ExpiredToken,
    /// The token's `nbf` claim lies strictly after the current time.
    NotYetActive,
    /// The transport failed before any introspection answer was obtained;
    /// the payload describes the failure.
    ClientError(String),
    /// The introspection endpoint answered 200 with a body that does not
    /// decode to an introspection document; the payload describes why.
    NonParsableIntrospectionBody(String),
}

} // verus!
