//! Mapping every validation outcome to exactly one HTTP action and one log
//! statement.

use vstd::prelude::*;

use crate::errors::FilterError;

verus! {

/// An early terminal HTTP response emitted instead of letting the request
/// continue: a status code and the headers to set. No rejection response
/// carries a body.
pub struct EarlyResponse {
    pub status: u32,
    pub headers: Vec<(String, String)>,
}

/// What happens to the inbound request: it continues to the upstream
/// unmodified, or processing breaks off with an early response.
pub enum FlowDecision {
    Continue,
    Break(EarlyResponse),
}

/// The two log severities the filter uses: `Debug` for expected client-side
/// rejections, `Warn` for unexpected or environmental failures.
pub enum LogLevel {
    Debug,
    Warn,
}

/// The one HTTP status each rejection reason maps to: 401 for everything
/// the client can mend by presenting a usable token, 500 for internal and
/// environmental faults. No other status is ever produced.
pub open spec fn spec_status_of(e: FilterError) -> u32 {
    match e {
        FilterError::Unexpected => 500,
        FilterError::NoToken => 401,
        FilterError::InactiveToken => 401,
        FilterError::ExpiredToken => 401,
        FilterError::NotYetActive => 401,
        FilterError::ClientError(_) => 500,
        FilterError::NonParsableIntrospectionBody(_) => 500,
    }
}

/// The log severity each rejection reason is reported with: `Debug`
/// exactly for the 401 rejections, `Warn` exactly for the 500 faults.
pub open spec fn spec_log_level_of(e: FilterError) -> LogLevel {
    if spec_status_of(e) == 401 {
        LogLevel::Debug
    } else {
        LogLevel::Warn
    }
}

/// The fixed text of the one log line each rejection reason produces (the
/// host may append the payload of `ClientError` or
/// `NonParsableIntrospectionBody` as detail).
pub open spec fn spec_log_text_of(e: FilterError) -> Seq<char> {
    match e {
        FilterError::Unexpected => "Unexpected error occurred while processing the request."@,
        FilterError::NoToken => "No authorization token was provided."@,
        FilterError::InactiveToken => "Token is marked as inactive by the introspection endpoint."@,
        FilterError::ExpiredToken => "Expiration time on the token has been exceeded."@,
        FilterError::NotYetActive => "Token is not yet valid, since time set in the nbf claim has not been reached."@,
        FilterError::ClientError(_) => "Error sending the request to the introspection endpoint."@,
        FilterError::NonParsableIntrospectionBody(_) => "Error parsing the response from the introspection endpoint."@,
    }
}

/// The exact header set of a 401 rejection: the single bearer challenge
/// pair `WWW-Authenticate: Bearer realm="oauth2"`, identical for every 401.
pub open spec fn bearer_challenge(headers: Seq<(String, String)>) -> bool {
    &&& headers.len() == 1
    &&& headers[0].0@ == "WWW-Authenticate"@
    &&& headers[0].1@ == "Bearer realm=\"oauth2\""@
}

/// Whether `r` is exactly the early response owed for the rejection `e`:
/// the status of `spec_status_of`, with the bearer challenge as the only
/// header on a 401 and no header at all on a 500.
pub open spec fn response_matches_error(r: EarlyResponse, e: FilterError) -> bool {
    &&& r.status == spec_status_of(e)
    &&& if spec_status_of(e) == 401 {
        bearer_challenge(r.headers@)
    } else {
        r.headers@.len() == 0
    }
}

/// The standard early response for a failed token validation: 401 with the
/// bearer challenge as its only header.
pub fn unauthorized_response() -> (r: EarlyResponse)
    ensures
        r.status == 401,
        bearer_challenge(r.headers@),
{
    let mut headers: Vec<(String, String)> = Vec::new();
    headers.push(("WWW-Authenticate".to_owned(), "Bearer realm=\"oauth2\"".to_owned()));
    EarlyResponse { status: 401, headers }
}

/// The standard early response for an unexpected error: a bare 500.
pub fn server_error_response() -> (r: EarlyResponse)
    ensures
        r.status == 500,
        r.headers@.len() == 0,
{
    EarlyResponse { status: 500, headers: Vec::new() }
}

/// Maps a validation outcome to what happens to the request: an accepted
/// token lets it continue, and every rejection breaks off with exactly the
/// early response that `response_matches_error` owes its reason.
pub fn map_outcome(outcome: &Result<(), FilterError>) -> (r: FlowDecision)
    ensures
        (match *outcome {
            Ok(()) => r is Continue,
            Err(e) => r matches FlowDecision::Break(resp) && response_matches_error(resp, e),
        }),
{
    match outcome {
        Ok(()) => FlowDecision::Continue,
        Err(e) => {
            let resp = match e {
                FilterError::Unexpected => server_error_response(),
                FilterError::NoToken => unauthorized_response(),
                FilterError::InactiveToken => unauthorized_response(),
                FilterError::ExpiredToken => unauthorized_response(),
                FilterError::NotYetActive => unauthorized_response(),
                FilterError::ClientError(_) => server_error_response(),
                FilterError::NonParsableIntrospectionBody(_) => server_error_response(),
            };
            FlowDecision::Break(resp)
        },
    }
}

/// The log statement a rejection produces: its severity and fixed text, as
/// `spec_log_level_of` and `spec_log_text_of` state them.
pub fn log_line(e: &FilterError) -> (r: (LogLevel, &'static str))
    ensures
        r.0 == spec_log_level_of(*e),
        r.1@ == spec_log_text_of(*e),
{
    match e {
        FilterError::Unexpected => (
            LogLevel::Warn,
            "Unexpected error occurred while processing the request.",
        ),
        FilterError::NoToken => (LogLevel::Debug, "No authorization token was provided."),
        FilterError::InactiveToken => (
            LogLevel::Debug,
            "Token is marked as inactive by the introspection endpoint.",
        ),
        FilterError::ExpiredToken => (
            LogLevel::Debug,
            "Expiration time on the token has been exceeded.",
        ),
        FilterError::NotYetActive => (
            LogLevel::Debug,
            "Token is not yet valid, since time set in the nbf claim has not been reached.",
        ),
        FilterError::ClientError(_) => (
            LogLevel::Warn,
            "Error sending the request to the introspection endpoint.",
        ),
        FilterError::NonParsableIntrospectionBody(_) => (
            LogLevel::Warn,
            "Error parsing the response from the introspection endpoint.",
        ),
    }
}

} // verus!
