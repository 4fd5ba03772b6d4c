//! The error taxonomy, which errors are worth retrying, and the HTTP status
//! each one is answered with.
use vstd::prelude::*;
use crate::text::{seq_contains, str_contains};

verus! {

/// The `error` object of an upstream error body.
pub struct AzureInnerError {
    pub code: String,
    pub message: String,
}

/// Everything that can go wrong while answering a request.
#[derive(Clone, Debug)]
pub enum AksError {
    /// The upstream answered with a non-success HTTP status.
    AzureHttp { status: u16, message: String, url: String },
    /// The request to the upstream failed in transport (connection, DNS, timeout).
    AzureClient { message: String },
    /// The upstream payload, or a version in it, could not be parsed.
    Parse(String),
    /// The location was empty.
    Validation,
    /// The location is malformed, or the upstream does not know it.
    InvalidLocation { location: String, details: String },
    /// No usable token was in the credential slot when an attempt began.
    CredentialUnavailable,
    /// The configuration could not be read.
    Config(String),
    /// The HTTP client could not be built.
    ClientBuild(String),
}

/// Throttling and server-side failures: statuses worth another attempt.
pub open spec fn retryable_status(status: u16) -> bool {
    status == 429 || (500 <= status && status <= 599)
}

/// Which errors are transient and worth another attempt.
pub open spec fn retryable(e: AksError) -> bool {
    match e {
        AksError::AzureHttp { status, .. } => retryable_status(status),
        AksError::AzureClient { message } => seq_contains(message@, "timeout"@),
        AksError::CredentialUnavailable => true,
        _ => false,
    }
}

/// The HTTP status a caller is answered with for `e`.
pub open spec fn status_for(e: AksError) -> u16 {
    match e {
        AksError::Validation => 400,
        AksError::InvalidLocation { .. } => 400,
        AksError::AzureHttp { status, .. } => if retryable_status(status) {
            503
        } else if 100 <= status && status <= 999 {
            status
        } else {
            503
        },
        AksError::AzureClient { .. } => 503,
        AksError::CredentialUnavailable => 503,
        _ => 500,
    }
}

/// Decides which errors are worth retrying: throttling (429), server errors
/// (5xx), transport timeouts and a missing token. Bad input, unknown
/// locations, parse failures and other statuses are not.
pub fn is_retryable_error(err: &AksError) -> (r: bool)
    ensures
        r == retryable(*err),
{
    match err {
        AksError::AzureHttp { status, .. } => *status == 429 || (*status >= 500 && *status <= 599),
        AksError::AzureClient { message } => str_contains(message.as_str(), "timeout"),
        AksError::CredentialUnavailable => true,
        _ => false,
    }
}

impl AksError {
    /// The HTTP status this error is answered with.
    pub fn http_status(&self) -> (r: u16)
        ensures
            r == status_for(*self),
    {
        match self {
            AksError::Validation => 400,
            AksError::InvalidLocation { .. } => 400,
            AksError::AzureHttp { status, .. } => {
                if *status == 429 || (*status >= 500 && *status <= 599) {
                    503
                } else if *status >= 100 && *status <= 999 {
                    *status
                } else {
                    503
                }
            },
            AksError::AzureClient { .. } => 503,
            AksError::CredentialUnavailable => 503,
            _ => 500,
        }
    }

    /// Whether this error is the caller's fault (a 4xx answer); such errors
    /// are not worth an error-level log line.
    pub fn is_client_error(&self) -> (r: bool)
        ensures
            r == (400 <= status_for(*self) && status_for(*self) <= 499),
    {
        let s = self.http_status();
        s >= 400 && s <= 499
    }
}

} // verus!
