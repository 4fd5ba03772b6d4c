//! How a non-success answer of the upstream API becomes an error: an unknown
//! location is told apart from other failures, and the upstream's own
//! explanation is carried back to the caller.
use vstd::prelude::*;
use crate::errors::{AksError, AzureInnerError};
use crate::text::{seq_contains, str_contains, str_eq};

verus! {

/// Error codes by which the upstream says that a location does not exist or
/// is not supported.
pub const CODE_NO_PROVIDER: &'static str = "NoRegisteredProviderFound";
pub const CODE_INVALID_LOCATION: &'static str = "InvalidLocation";

/// Phrases by which a raw upstream body says the same.
pub const BODY_NO_PROVIDER: &'static str = "No registered resource provider";
pub const BODY_LOCATION_NOT_FOUND: &'static str = "location not found";

/// Whether `status` is a success status (2xx).
pub open spec fn is_success(status: u16) -> bool {
    200 <= status && status <= 299
}

/// Whether a parsed upstream error names an unknown location.
pub open spec fn names_unknown_location(e: Option<AzureInnerError>) -> bool {
    e matches Some(inner) && (inner.code@ == CODE_NO_PROVIDER@ || inner.code@
        == CODE_INVALID_LOCATION@)
}

/// Whether a raw 400 or 404 body says the location is unknown.
pub open spec fn body_says_unknown_location(status: u16, body: Seq<char>) -> bool {
    (status == 400 || status == 404) && (seq_contains(body, BODY_NO_PROVIDER@) || seq_contains(
        body,
        BODY_LOCATION_NOT_FOUND@,
    ))
}

/// The upstream's explanation: the parsed error's message, or else the raw body.
pub open spec fn upstream_detail(body: Seq<char>, e: Option<AzureInnerError>) -> Seq<char> {
    match e {
        Some(inner) => inner.message@,
        None => body,
    }
}

fn detail_of(body: &str, error: &Option<AzureInnerError>) -> (r: String)
    ensures
        r@ == upstream_detail(body@, *error),
{
    match error {
        Some(inner) => inner.message.clone(),
        None => String::from_str(body),
    }
}

/// Maps the upstream's answer to the outcome of the call. `status` and `body`
/// are what came back, `error` the body's `error` object where the body held
/// one, `url` the address that was called. A success status is `Ok`. An
/// unknown location, by error code or, on a 400 or 404, by the raw body, is
/// `InvalidLocation` with the upstream's explanation. Anything else is
/// `AzureHttp` with that explanation.
pub fn handle_azure_response(
    status: u16,
    body: &str,
    error: &Option<AzureInnerError>,
    location: &str,
    url: &str,
) -> (r: Result<(), AksError>)
    ensures
        is_success(status) ==> r is Ok,
        !is_success(status) && (names_unknown_location(*error) || body_says_unknown_location(
            status,
            body@,
        )) ==> (r matches Err(AksError::InvalidLocation { location: l, details })
            && l@ == location@ && details@ == upstream_detail(body@, *error)),
        !is_success(status) && !names_unknown_location(*error) && !body_says_unknown_location(
            status,
            body@,
        ) ==> (r matches Err(AksError::AzureHttp { status: s, message, url: u }) && s == status
            && message@ == upstream_detail(body@, *error) && u@ == url@),
{
    if status >= 200 && status <= 299 {
        return Ok(());
    }
    let by_code = match error {
        Some(inner) => str_eq(inner.code.as_str(), CODE_NO_PROVIDER) || str_eq(
            inner.code.as_str(),
            CODE_INVALID_LOCATION,
        ),
        None => false,
    };
    let by_body = (status == 400 || status == 404) && (str_contains(body, BODY_NO_PROVIDER)
        || str_contains(body, BODY_LOCATION_NOT_FOUND));
    if by_code || by_body {
        return Err(
            AksError::InvalidLocation {
                location: String::from_str(location),
                details: detail_of(body, error),
            },
        );
    }
    Err(
        AksError::AzureHttp {
            status,
            message: detail_of(body, error),
            url: String::from_str(url),
        },
    )
}

} // verus!
