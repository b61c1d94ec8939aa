//! An inbound-request gatekeeper: for each request it takes the extracted
//! bearer token, the introspection endpoint's answer for that token, and one
//! clock reading, applies the OAuth2 token-introspection validity rules, and
//! maps every outcome to exactly one HTTP action and log severity.
//!
//! The decision pipeline is pure and fully verified; the host runtime that
//! extracts the token, sends the introspection call and emits the log lines
//! hands plain values in and takes plain values back.

pub mod config;
pub mod errors;
pub mod introspection;
pub mod laws;
pub mod outcome;
pub mod request;
pub mod validation;

pub use config::Config;
pub use errors::FilterError;
pub use introspection::IntrospectionResponse;
pub use introspection::TransportResult;
pub use introspection::interpret_introspection;
pub use outcome::EarlyResponse;
pub use outcome::FlowDecision;
pub use outcome::LogLevel;
pub use outcome::log_line;
pub use outcome::map_outcome;
pub use outcome::server_error_response;
pub use outcome::unauthorized_response;
pub use request::IntrospectionRequest;
pub use request::build_introspection_request;
pub use validation::decide_introspection;
pub use validation::resolve_token;
pub use validation::validate_response;
