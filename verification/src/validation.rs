//! The validation decision engine: active flag, expiry and not-before
//! checks against one clock reading, and the composition of the whole
//! per-request decision.

use vstd::prelude::*;

use crate::errors::FilterError;
use crate::introspection::IntrospectionResponse;
use crate::introspection::TransportResult;
use crate::introspection::spec_interpret;

verus! {

/// The time-based validity rules, applied to one introspection answer and
/// one clock reading (`clock` is the seconds since the UNIX epoch, or
/// `None` where no usable reading was obtained, an environmental fault).
/// In order, short-circuiting on the first failure: unusable clock is
/// `Unexpected`; `active == false` is `InactiveToken`; a present `exp` with
/// `now > exp` is `ExpiredToken` (a token expiring exactly at `now` is
/// still valid); a present `nbf` with `now < nbf` is `NotYetActive` (a
/// token becoming valid exactly at `now` already is); otherwise the token
/// is accepted.
pub open spec fn spec_validate(resp: IntrospectionResponse, clock: Option<u64>) -> Result<
    (),
    FilterError,
> {
    match clock {
        None => Err(FilterError::Unexpected),
        Some(now) => if !resp.active {
            Err(FilterError::InactiveToken)
        } else if resp.exp matches Some(exp) && now > exp {
            Err(FilterError::ExpiredToken)
        } else if resp.nbf matches Some(nbf) && now < nbf {
            Err(FilterError::NotYetActive)
        } else {
            Ok(())
        },
    }
}

/// Applies the time-based validity rules, exactly as `spec_validate` states
/// them.
pub fn validate_response(resp: &IntrospectionResponse, clock: Option<u64>) -> (r: Result<
    (),
    FilterError,
>)
    ensures
        r == spec_validate(*resp, clock),
{
    let now = match clock {
        Some(now) => now,
        None => {
            return Err(FilterError::Unexpected);
        },
    };
    if !resp.active {
        return Err(FilterError::InactiveToken);
    }
    if let Some(exp) = resp.exp {
        if now > exp {
            return Err(FilterError::ExpiredToken);
        }
    }
    if let Some(nbf) = resp.nbf {
        if now < nbf {
            return Err(FilterError::NotYetActive);
        }
    }
    Ok(())
}

/// The first step of the engine: a request whose extractor produced no
/// token string is rejected as `NoToken`; otherwise the token is passed on
/// unchanged.
pub fn resolve_token(extracted: Option<String>) -> (r: Result<String, FilterError>)
    ensures
        (match extracted {
            Some(token) => r == Ok::<String, FilterError>(token),
            None => r == Err::<String, FilterError>(FilterError::NoToken),
        }),
{
    match extracted {
        Some(token) => Ok(token),
        None => Err(FilterError::NoToken),
    }
}

/// The decision taken once the introspection call has come back: how the
/// transport result reads as an answer, then the time-based rules against
/// the one clock reading. Interpretation failures propagate unchanged and
/// are never masked by the clock or the claims.
pub open spec fn spec_decide_introspection(tr: TransportResult, clock: Option<u64>) -> Result<
    (),
    FilterError,
> {
    match spec_interpret(tr) {
        Ok(resp) => spec_validate(resp, clock),
        Err(e) => Err(e),
    }
}

/// Decides the request from the transport's answer and the clock reading,
/// exactly as `spec_decide_introspection` states.
pub fn decide_introspection(tr: TransportResult, clock: Option<u64>) -> (r: Result<
    (),
    FilterError,
>)
    ensures
        r == spec_decide_introspection(tr, clock),
{
    match crate::introspection::interpret_introspection(tr) {
        Ok(resp) => validate_response(&resp, clock),
        Err(e) => Err(e),
    }
}

/// The whole per-request decision as a function of the three inputs it is
/// allowed to depend on: the extractor's token, the transport's answer for
/// that token, and the one clock reading. A missing token is rejected
/// before anything else; otherwise the decision is
/// `spec_decide_introspection`.
pub open spec fn spec_engine(
    extracted: Option<String>,
    tr: TransportResult,
    clock: Option<u64>,
) -> Result<(), FilterError> {
    match extracted {
        None => Err(FilterError::NoToken),
        Some(_) => spec_decide_introspection(tr, clock),
    }
}

} // verus!
