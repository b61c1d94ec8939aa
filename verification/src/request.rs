//! Building the form-encoded POST request for the introspection endpoint.

use vstd::prelude::*;

use crate::config::Config;

verus! {

/// The `application/x-www-form-urlencoded` body carrying the single field
/// `token=<token>`, as serde_urlencoded produces it for the given token
/// characters. The encoding is a function of the token alone.
pub uninterp spec fn form_token_body(token: Seq<char>) -> Seq<char>;

/// Relies on serde_urlencoded::to_string: percent-encodes the one pair
/// `("token", token)` into a form body, a function of the token characters
/// alone. For a single pair of string slices the serializer only ever
/// appends to the infallible form encoder, so the call always succeeds.
#[verifier::external_body]
fn encode_token_form(token: &str) -> (r: Option<String>)
    ensures
        r is Some,
        r matches Some(s) ==> s@ == form_token_body(token@),
{
    serde_urlencoded::to_string([("token", token)]).ok()
}

/// An ephemeral introspection call: method POST, `upstream` as network
/// destination, `host` as virtual host, `path` as endpoint path, exactly the
/// two headers of `introspection_headers`, and a form-encoded body.
pub struct IntrospectionRequest {
    pub upstream: String,
    pub host: String,
    pub path: String,
    pub headers: Vec<(String, String)>,
    pub body: String,
}

/// The exact header set of an introspection call: a `content-type` pair for
/// the form encoding, then the configured static credential as the
/// `Authorization` value, and nothing else.
pub open spec fn introspection_headers(headers: Seq<(String, String)>, authorization: Seq<char>) -> bool {
    &&& headers.len() == 2
    &&& headers[0].0@ == "content-type"@
    &&& headers[0].1@ == "application/x-www-form-urlencoded"@
    &&& headers[1].0@ == "Authorization"@
    &&& headers[1].1@ == authorization
}

/// Whether `req` is exactly the introspection call for `token` under
/// `config`: target taken verbatim from the configuration, the two fixed
/// headers, and the form-encoded token as body.
pub open spec fn request_for(req: IntrospectionRequest, token: Seq<char>, config: Config) -> bool {
    &&& req.upstream@ == config.upstream@
    &&& req.host@ == config.host@
    &&& req.path@ == config.path@
    &&& introspection_headers(req.headers@, config.authorization@)
    &&& req.body@ == form_token_body(token)
}

/// Builds exactly the introspection call that `request_for` describes for
/// `token` under `config`.
///
/// Building always succeeds: a token held in a string slice never contains
/// data that could not be form-encoded.
pub fn build_introspection_request(token: &str, config: &Config) -> (r: IntrospectionRequest)
    ensures
        request_for(r, token@, *config),
{
    let body = encode_token_form(token).unwrap();
    let mut headers: Vec<(String, String)> = Vec::new();
    headers.push(("content-type".to_owned(), "application/x-www-form-urlencoded".to_owned()));
    headers.push(("Authorization".to_owned(), config.authorization.clone()));
    IntrospectionRequest {
        upstream: config.upstream.clone(),
        host: config.host.clone(),
        path: config.path.clone(),
        headers,
        body,
    }
}

} // verus!
