//! What the request handler decides before any cache or network activity:
//! the location check, the cache key, and the upstream URL.
use vstd::prelude::*;
use crate::errors::AksError;

verus! {

/// What `str::trim` returns for a string: the string without its leading and
/// trailing whitespace.
pub uninterp spec fn trimmed(s: Seq<char>) -> Seq<char>;

/// Relies on `str::trim`: the string without its leading and trailing
/// whitespace (Unicode `White_Space`).
#[verifier::external_body]
fn trim_whitespace(s: &str) -> (r: &str)
    ensures
        r@ == trimmed(s@),
{
    s.trim()
}

/// The query of a versions request.
pub struct LocationQuery {
    pub location: String,
}

/// An ASCII letter or digit.
pub open spec fn is_ascii_alnum(c: char) -> bool {
    ('a' <= c && c <= 'z') || ('A' <= c && c <= 'Z') || ('0' <= c && c <= '9')
}

/// Whether every character of `s` is an ASCII letter or digit.
pub open spec fn all_ascii_alnum(s: Seq<char>) -> bool {
    forall|i: int| 0 <= i < s.len() ==> is_ascii_alnum(#[trigger] s[i])
}

/// The detail given for a location with characters other than letters and digits.
pub const INVALID_CHARS_DETAIL: &'static str = "Location contains invalid characters (alphanumeric only).";

fn ascii_alnum(c: char) -> (r: bool)
    ensures
        r == is_ascii_alnum(c),
{
    ('a' <= c && c <= 'z') || ('A' <= c && c <= 'Z') || ('0' <= c && c <= '9')
}

fn check_all_ascii_alnum(s: &str) -> (r: bool)
    ensures
        r == all_ascii_alnum(s@),
{
    let n = s.unicode_len();
    let mut i: usize = 0;
    while i < n
        invariant
            n == s@.len(),
            i <= n,
            forall|j: int| 0 <= j < i ==> is_ascii_alnum(#[trigger] s@[j]),
        decreases n - i,
    {
        if !ascii_alnum(s.get_char(i)) {
            return false;
        }
        i = i + 1;
    }
    true
}

/// Checks a requested location: surrounding whitespace is dropped; an empty
/// location is `Validation`; one with anything but ASCII letters and digits
/// is `InvalidLocation`, decided here without contacting the upstream;
/// otherwise the trimmed location is returned.
pub fn validate_location(raw: &str) -> (r: Result<String, AksError>)
    ensures
        trimmed(raw@).len() == 0 ==> r matches Err(AksError::Validation),
        trimmed(raw@).len() > 0 && !all_ascii_alnum(trimmed(raw@)) ==> (r matches Err(
            AksError::InvalidLocation { location, details },
        ) && location@ == trimmed(raw@) && details@ == INVALID_CHARS_DETAIL@),
        trimmed(raw@).len() > 0 && all_ascii_alnum(trimmed(raw@)) ==> (r matches Ok(s) && s@
            == trimmed(raw@)),
{
    let location = trim_whitespace(raw);
    if location.unicode_len() == 0 {
        return Err(AksError::Validation);
    }
    if !check_all_ascii_alnum(location) {
        return Err(
            AksError::InvalidLocation {
                location: String::from_str(location),
                details: String::from_str(INVALID_CHARS_DETAIL),
            },
        );
    }
    Ok(String::from_str(location))
}

/// The text of a flag.
pub open spec fn bool_text(b: bool) -> Seq<char> {
    if b {
        "true"@
    } else {
        "false"@
    }
}

/// The response-cache key of a request: subscription, location and the
/// preview flag, separated by colons.
pub open spec fn cache_key_spec(subscription_id: Seq<char>, location: Seq<char>, show_preview: bool) -> Seq<char> {
    subscription_id + ":"@ + location + ":"@ + bool_text(show_preview)
}

/// Builds the response-cache key.
pub fn cache_key(subscription_id: &str, location: &str, show_preview: bool) -> (r: String)
    ensures
        r@ == cache_key_spec(subscription_id@, location@, show_preview),
{
    let mut k = String::from_str(subscription_id);
    k.append(":");
    k.append(location);
    k.append(":");
    if show_preview {
        k.append("true");
    } else {
        k.append("false");
    }
    k
}

/// Base of the cloud management API.
pub const AZURE_MGMT_BASE: &'static str = "https://management.azure.com";

/// API version of the orchestrators endpoint.
pub const ORCHESTRATORS_API_VERSION: &'static str = "2020-11-01";

/// API version of the Kubernetes versions endpoint.
pub const AKS_API_VERSION: &'static str = "2025-10-01";

/// The path from the subscription to the location's resource.
pub open spec fn location_path(subscription_id: Seq<char>, location: Seq<char>) -> Seq<char> {
    AZURE_MGMT_BASE@ + "/subscriptions/"@ + subscription_id
        + "/providers/Microsoft.ContainerService/locations/"@ + location
}

fn append_location_path(url: &mut String, subscription_id: &str, location: &str)
    ensures
        final(url)@ == old(url)@ + location_path(subscription_id@, location@),
{
    url.append(AZURE_MGMT_BASE);
    url.append("/subscriptions/");
    url.append(subscription_id);
    url.append("/providers/Microsoft.ContainerService/locations/");
    url.append(location);
    assert(final(url)@ =~= old(url)@ + location_path(subscription_id@, location@));
}

/// The URL of the orchestrators list of a location.
pub fn build_orchestrators_url(subscription_id: &str, location: &str) -> (r: String)
    ensures
        r@ == location_path(subscription_id@, location@) + "/orchestrators?api-version="@
            + ORCHESTRATORS_API_VERSION@,
{
    let mut url = String::new();
    append_location_path(&mut url, subscription_id, location);
    url.append("/orchestrators?api-version=");
    url.append(ORCHESTRATORS_API_VERSION);
    url
}

/// The URL of the Kubernetes versions list of a location.
pub fn build_kubernetes_versions_url(subscription_id: &str, location: &str) -> (r: String)
    ensures
        r@ == location_path(subscription_id@, location@) + "/kubernetesVersions?api-version="@
            + AKS_API_VERSION@,
{
    let mut url = String::new();
    append_location_path(&mut url, subscription_id, location);
    url.append("/kubernetesVersions?api-version=");
    url.append(AKS_API_VERSION);
    url
}

} // verus!
