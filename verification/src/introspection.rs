//! Decoding the introspection endpoint's answer.

use vstd::prelude::*;

use crate::errors::FilterError;

verus! {

/// The structured answer of the introspection endpoint: whether the token
/// is active, and its optional `exp` / `nbf` claims in seconds since the
/// UNIX epoch. An absent claim means "no constraint of that kind".
pub struct IntrospectionResponse {
    pub active: bool,
    pub exp: Option<u64>,
    pub nbf: Option<u64>,
}

/// What the external transport handed back for one introspection call:
/// either a transport-level failure with its description, or an HTTP answer
/// as status code and raw body bytes.
pub enum TransportResult {
    Failure(String),
    Response { status: u32, body: Vec<u8> },
}

/// What a 200 body decodes to: the `(active, exp, nbf)` fields of the JSON
/// object the bytes spell, or an error message where they spell none with a
/// boolean `active` field. The outcome is a function of the bytes alone, as
/// serde_json computes it.
pub uninterp spec fn introspection_of(body: Seq<u8>) -> Result<
    (bool, Option<u64>, Option<u64>),
    String,
>;

/// Relies on serde_json::from_slice and serde_json::Value's accessors
/// (`get`, `is_null`, `as_bool`, `as_u64`): decodes the body's required
/// boolean `active` field and optional unsigned `exp` and `nbf` fields, or
/// reports why it could not. An absent or null claim is no constraint; a
/// present claim that is not an unsigned 64-bit integer is a decode error,
/// as is a missing or non-boolean `active`. The outcome is a function of
/// the bytes alone.
#[verifier::external_body]
fn decode_introspection(body: &[u8]) -> (r: Result<IntrospectionResponse, String>)
    ensures
        (match introspection_of(body@) {
            Ok(t) => r == Ok::<IntrospectionResponse, String>(
                IntrospectionResponse { active: t.0, exp: t.1, nbf: t.2 },
            ),
            Err(m) => r == Err::<IntrospectionResponse, String>(m),
        }),
{
    let v: serde_json::Value = serde_json::from_slice(body).map_err(|e| e.to_string())?;
    let active = v.get("active").and_then(serde_json::Value::as_bool)
        .ok_or_else(|| "missing or non-boolean `active` field".to_owned())?;
    let exp = match v.get("exp") {
        Some(x) if !x.is_null() => Some(x.as_u64().ok_or_else(|| "non-integer `exp` claim".to_owned())?),
        _ => None,
    };
    let nbf = match v.get("nbf") {
        Some(x) if !x.is_null() => Some(x.as_u64().ok_or_else(|| "non-integer `nbf` claim".to_owned())?),
        _ => None,
    };
    Ok(IntrospectionResponse { active, exp, nbf })
}

/// How one transport result reads as an introspection answer:
/// a transport failure is a `ClientError` carrying its description; any
/// non-200 status is the endpoint saying the token is not usable, so
/// `InactiveToken` without the body ever being decoded; a 200 body decodes
/// to its fields, or to `NonParsableIntrospectionBody` carrying the decode
/// error.
pub open spec fn spec_interpret(tr: TransportResult) -> Result<IntrospectionResponse, FilterError> {
    match tr {
        TransportResult::Failure(detail) => Err(FilterError::ClientError(detail)),
        TransportResult::Response { status, body } => if status != 200 {
            Err(FilterError::InactiveToken)
        } else {
            match introspection_of(body@) {
                Ok(t) => Ok(IntrospectionResponse { active: t.0, exp: t.1, nbf: t.2 }),
                Err(m) => Err(FilterError::NonParsableIntrospectionBody(m)),
            }
        },
    }
}

/// Turns the transport's result into an introspection answer, exactly as
/// `spec_interpret` reads it.
pub fn interpret_introspection(tr: TransportResult) -> (r: Result<IntrospectionResponse, FilterError>)
    ensures
        r == spec_interpret(tr),
{
    match tr {
        TransportResult::Failure(detail) => Err(FilterError::ClientError(detail)),
        TransportResult::Response { status, body } => {
            if status != 200 {
                Err(FilterError::InactiveToken)
            } else {
                match decode_introspection(body.as_slice()) {
                    Ok(resp) => Ok(resp),
                    Err(detail) => Err(FilterError::NonParsableIntrospectionBody(detail)),
                }
            }
        },
    }
}

} // verus!
