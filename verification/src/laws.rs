//! The guarantees of the decision engine, stated across its components and
//! proved from what they ensure.

use vstd::prelude::*;

use crate::errors::FilterError;
use crate::introspection::IntrospectionResponse;
use crate::introspection::TransportResult;
use crate::introspection::introspection_of;
use crate::outcome::spec_status_of;
use crate::outcome::spec_log_level_of;
use crate::validation::spec_engine;
use crate::validation::spec_validate;

verus! {

/// A request without an extractable token is rejected as `NoToken`,
/// whatever the transport or the clock would have said, and `NoToken`
/// answers 401 at debug severity — never 500.
pub proof fn lemma_missing_token_rejected(tr: TransportResult, clock: Option<u64>)
    ensures
        spec_engine(None, tr, clock) == Err::<(), FilterError>(FilterError::NoToken),
        spec_status_of(FilterError::NoToken) == 401,
        spec_log_level_of(FilterError::NoToken) is Debug,
{
}

/// An answer with `active == false` is rejected as `InactiveToken`,
/// whatever its `exp` and `nbf` claims hold.
pub proof fn lemma_inactive_rejected(resp: IntrospectionResponse, now: u64)
    requires
        !resp.active,
    ensures
        spec_validate(resp, Some(now)) == Err::<(), FilterError>(FilterError::InactiveToken),
{
}

/// An active answer without `exp` and without `nbf` is accepted at every
/// time.
pub proof fn lemma_unconstrained_token_allowed(resp: IntrospectionResponse, now: u64)
    requires
        resp.active,
        resp.exp is None,
        resp.nbf is None,
    ensures
        spec_validate(resp, Some(now)) == Ok::<(), FilterError>(()),
{
}

/// An active answer whose `exp` lies strictly before the current time is
/// rejected as `ExpiredToken`.
pub proof fn lemma_expired_rejected(resp: IntrospectionResponse, now: u64)
    requires
        resp.active,
        resp.exp matches Some(exp) && now > exp,
    ensures
        spec_validate(resp, Some(now)) == Err::<(), FilterError>(FilterError::ExpiredToken),
{
}

/// The expiry boundary is inclusive of validity: a token expiring exactly
/// at the current time is still valid this instant, so — unless its `nbf`
/// claim blocks it — it is accepted.
pub proof fn lemma_expiry_boundary_allowed(resp: IntrospectionResponse, now: u64)
    requires
        resp.active,
        resp.exp == Some(now),
        !(resp.nbf matches Some(nbf) && now < nbf),
    ensures
        spec_validate(resp, Some(now)) == Ok::<(), FilterError>(()),
{
}

/// An active, unexpired answer whose `nbf` lies strictly after the
/// current time is rejected as `NotYetActive`.
pub proof fn lemma_not_yet_active_rejected(resp: IntrospectionResponse, now: u64)
    requires
        resp.active,
        !(resp.exp matches Some(exp) && now > exp),
        resp.nbf matches Some(nbf) && now < nbf,
    ensures
        spec_validate(resp, Some(now)) == Err::<(), FilterError>(FilterError::NotYetActive),
{
}

/// The not-before boundary is inclusive of validity: a token becoming
/// valid exactly at the current time already is valid, so — unless its
/// `exp` claim blocks it — it is accepted.
pub proof fn lemma_not_before_boundary_allowed(resp: IntrospectionResponse, now: u64)
    requires
        resp.active,
        resp.nbf == Some(now),
        !(resp.exp matches Some(exp) && now > exp),
    ensures
        spec_validate(resp, Some(now)) == Ok::<(), FilterError>(()),
{
}

/// Any non-200 introspection status — whatever the body holds, so the body
/// is never decoded — rejects the request as `InactiveToken`, which
/// answers 401, never 500.
pub proof fn lemma_non_success_status_inactive(
    token: String,
    status: u32,
    body: Vec<u8>,
    clock: Option<u64>,
)
    requires
        status != 200,
    ensures
        spec_engine(Some(token), TransportResult::Response { status, body }, clock)
            == Err::<(), FilterError>(FilterError::InactiveToken),
        spec_status_of(FilterError::InactiveToken) == 401,
{
}

/// A 200 answer whose body does not decode to an introspection document
/// rejects the request as `NonParsableIntrospectionBody` carrying the
/// decode error, and that reason answers 500 at warn severity.
pub proof fn lemma_unparsable_body_server_error(token: String, body: Vec<u8>, clock: Option<u64>)
    ensures
        (match introspection_of(body@) {
            Err(m) => spec_engine(
                Some(token),
                TransportResult::Response { status: 200, body },
                clock,
            ) == Err::<(), FilterError>(FilterError::NonParsableIntrospectionBody(m)),
            Ok(_) => true,
        }),
        forall|m: String|
            #[trigger] spec_status_of(FilterError::NonParsableIntrospectionBody(m)) == 500
                && spec_log_level_of(FilterError::NonParsableIntrospectionBody(m)) is Warn,
{
}

/// A transport-level failure rejects the request as `ClientError` carrying
/// the failure's description, and that reason answers 500 at warn
/// severity.
pub proof fn lemma_transport_failure_server_error(
    token: String,
    detail: String,
    clock: Option<u64>,
)
    ensures
        spec_engine(Some(token), TransportResult::Failure(detail), clock)
            == Err::<(), FilterError>(FilterError::ClientError(detail)),
        spec_status_of(FilterError::ClientError(detail)) == 500,
        spec_log_level_of(FilterError::ClientError(detail)) is Warn,
{
}

} // verus!
