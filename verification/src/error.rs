//! Failures of the proxy and of its configuration.

use axum::http::StatusCode;
use std::path::PathBuf;
use vstd::prelude::*;
use vstd::string::StringExecFns;

use crate::message::{is_success_code, status_code};

verus! {

/// A failure of the proxy. All but the last say what kind of failure it was; `Other` holds the
/// text that any further failure displays.
#[derive(Debug)]
pub enum ProxyError {
    ConfigError(String),
    AuthError(String),
    RequestFailed(String),
    TransformError(String),
    ForwardFailed(String),
    BindFailed(String),
    StopFailed(String),
    ProviderUnhealthy(String),
    DatabaseError(String),
    InvalidRequest(String),
    Timeout(String),
    Internal(String),
    Other(String),
}

/// A failure to read or write a configuration file.
#[derive(Debug)]
#[allow(inconsistent_fields)]
pub enum AppError {
    Io { path: PathBuf, source: std::io::Error },
    Json { path: PathBuf, source: serde_json::Error },
    JsonSerialize { source: serde_json::Error },
}

/// The message that a failure carries, without the kind of failure.
pub open spec fn error_text(error: ProxyError) -> Seq<char> {
    match error {
        ProxyError::ConfigError(message) => message@,
        ProxyError::AuthError(message) => message@,
        ProxyError::RequestFailed(message) => message@,
        ProxyError::TransformError(message) => message@,
        ProxyError::ForwardFailed(message) => message@,
        ProxyError::BindFailed(message) => message@,
        ProxyError::StopFailed(message) => message@,
        ProxyError::ProviderUnhealthy(message) => message@,
        ProxyError::DatabaseError(message) => message@,
        ProxyError::InvalidRequest(message) => message@,
        ProxyError::Timeout(message) => message@,
        ProxyError::Internal(message) => message@,
        ProxyError::Other(message) => message@,
    }
}

/// The failure is a failed request with that message.
pub open spec fn is_request_failed(error: ProxyError, message: Seq<char>) -> bool {
    error is RequestFailed && error_text(error) == message
}

/// The message that a failure carries.
pub fn proxy_error_message(error: ProxyError) -> (message: String)
    ensures
        message@ == error_text(error),
{
    match error {
        ProxyError::ConfigError(message) => message,
        ProxyError::AuthError(message) => message,
        ProxyError::RequestFailed(message) => message,
        ProxyError::TransformError(message) => message,
        ProxyError::ForwardFailed(message) => message,
        ProxyError::BindFailed(message) => message,
        ProxyError::StopFailed(message) => message,
        ProxyError::ProviderUnhealthy(message) => message,
        ProxyError::DatabaseError(message) => message,
        ProxyError::InvalidRequest(message) => message,
        ProxyError::Timeout(message) => message,
        ProxyError::Internal(message) => message,
        ProxyError::Other(message) => message,
    }
}

/// Whether a transformation that failed leaves the upstream response to be handed on as it is:
/// only where upstream reported an error, and only if that error could not be transformed.
pub fn should_passthrough_transform_failure(status: StatusCode, error: &ProxyError) -> (yes: bool)
    ensures
        yes == (!is_success_code(status_code(status)) && *error is TransformError),
{
    !status.is_success() && matches!(error, ProxyError::TransformError(_))
}

/// A failed request whose message is `what` followed by `detail`.
pub(crate) fn request_failed(what: &str, detail: &str) -> (error: ProxyError)
    ensures
        is_request_failed(error, what@ + detail@),
{
    let mut message = what.to_owned();
    message.append(detail);
    ProxyError::RequestFailed(message)
}

} // verus!
