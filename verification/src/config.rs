//! The immutable per-process configuration of the filter.

use vstd::prelude::*;

verus! {

/// Configuration loaded once at startup and shared, read-only, by every
/// request evaluation.
///
/// `upstream` selects the network destination of the introspection call,
/// `host` its virtual host, `path` the endpoint path, and `authorization`
/// the static credential sent verbatim as the `Authorization` header value
/// (it authenticates this filter to the introspection endpoint, not the
/// end user).
pub struct Config {
    pub upstream: String,
    pub host: String,
    pub path: String,
    pub authorization: String,
}

} // verus!
