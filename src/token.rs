//! The credential slot: the current bearer token and when it expires.
//!
//! Times are whole seconds since the Unix epoch. The slot is an immutable
//! snapshot: a refresh builds a new `TokenCache` and swaps it in whole.
use vstd::prelude::*;

verus! {

/// A token is usable on an outbound call only while it has more than this
/// many seconds left, so that it cannot expire mid-flight.
pub const TOKEN_REFRESH_LEEWAY_SECS: i64 = 65;

/// The refresher renews a token once it has less than this many seconds left.
pub const REFRESH_TRIGGER_OFFSET_SECS: i64 = 130;

/// Seconds between two wake-ups of the refresher.
pub const TOKEN_REFRESH_INTERVAL_SECS: i64 = 55;

/// Whether a token that expires at `expires_at` may be used at `now`.
pub open spec fn valid_for_http(expires_at: int, now: int) -> bool {
    expires_at > now + TOKEN_REFRESH_LEEWAY_SECS
}

/// Whether a token that expires at `expires_at` is due for renewal at `now`.
pub open spec fn due_for_refresh(expires_at: int, now: int) -> bool {
    expires_at < now + REFRESH_TRIGGER_OFFSET_SECS
}

/// A bearer token and the second at which it expires.
pub struct InternalCachedToken {
    pub token: String,
    pub expires_at: i64,
}

impl InternalCachedToken {
    pub fn new(token: String, expires_at: i64) -> (r: Self)
        ensures
            r.token@ == token@,
            r.expires_at == expires_at,
    {
        InternalCachedToken { token, expires_at }
    }

    /// Whether the token has less life left than the refresh trigger.
    pub fn needs_background_refresh(&self, now: i64) -> (r: bool)
        ensures
            r == due_for_refresh(self.expires_at as int, now as int),
    {
        (self.expires_at as i128) < (now as i128) + (REFRESH_TRIGGER_OFFSET_SECS as i128)
    }

    /// Whether the token has more life left than the safety leeway.
    pub fn is_valid_for_http(&self, now: i64) -> (r: bool)
        ensures
            r == valid_for_http(self.expires_at as int, now as int),
    {
        (self.expires_at as i128) > (now as i128) + (TOKEN_REFRESH_LEEWAY_SECS as i128)
    }
}

/// The credential slot: empty until the first token is stored.
pub struct TokenCache {
    pub current: Option<InternalCachedToken>,
}

impl TokenCache {
    /// An empty slot.
    pub fn new() -> (r: Self)
        ensures
            r.current is None,
    {
        TokenCache { current: None }
    }

    /// A slot that holds `token`.
    pub fn holding(token: InternalCachedToken) -> (r: Self)
        ensures
            r.current == Some(token),
    {
        TokenCache { current: Some(token) }
    }
}

/// Relies on time's `OffsetDateTime::now_utc` and `unix_timestamp`: the
/// current time in whole seconds. Nothing is known of its value.
#[verifier::external_body]
pub(crate) fn unix_now() -> (r: i64) {
    time::OffsetDateTime::now_utc().unix_timestamp()
}

/// What a read of the slot at `now` hands out: the secret of the held token,
/// but only while that token is usable on an outbound call.
pub open spec fn token_read(cache: TokenCache, now: int) -> Option<Seq<char>> {
    match cache.current {
        Some(t) => if valid_for_http(t.expires_at as int, now) {
            Some(t.token@)
        } else {
            None
        },
        None => None,
    }
}

/// The view of an optional string.
pub open spec fn opt_view(r: Option<String>) -> Option<Seq<char>> {
    match r {
        Some(s) => Some(s@),
        None => None,
    }
}

/// Reads the slot at `now`.
pub fn get_token_from_cache_at(cache: &TokenCache, now: i64) -> (r: Option<String>)
    ensures
        opt_view(r) == token_read(*cache, now as int),
{
    match &cache.current {
        Some(cached) => {
            if cached.is_valid_for_http(now) {
                Some(cached.token.clone())
            } else {
                None
            }
        },
        None => None,
    }
}

/// The token for one upstream attempt at `now`: a usable token, or
/// `CredentialUnavailable`, which is transient and retried.
pub fn token_for_attempt(cache: &TokenCache, now: i64) -> (r: Result<String, crate::errors::AksError>)
    ensures
        r matches Ok(s) ==> token_read(*cache, now as int) == Some(s@),
        r is Err ==> token_read(*cache, now as int) is None,
        r matches Err(e) ==> e is CredentialUnavailable,
{
    match get_token_from_cache_at(cache, now) {
        Some(t) => Ok(t),
        None => Err(crate::errors::AksError::CredentialUnavailable),
    }
}

/// Reads the slot at the current time.
pub fn get_token_from_cache(cache: &TokenCache) -> (r: Option<String>)
    ensures
        exists|now: int| opt_view(r) == token_read(*cache, now),
{
    get_token_from_cache_at(cache, unix_now())
}

/// Whether the slot holds a usable token, and when the held token expires.
pub struct TokenStatus {
    pub is_valid: bool,
    pub expires_at_utc: Option<i64>,
}

/// The status of the slot at `now`.
pub fn get_token_status(cache: &TokenCache, now: i64) -> (r: TokenStatus)
    ensures
        r.is_valid == (cache.current matches Some(t) && valid_for_http(
            t.expires_at as int,
            now as int,
        )),
        r.expires_at_utc == (match cache.current {
            Some(t) => Some(t.expires_at),
            None => None::<i64>,
        }),
{
    match &cache.current {
        Some(cached) => TokenStatus {
            is_valid: cached.is_valid_for_http(now),
            expires_at_utc: Some(cached.expires_at),
        },
        None => TokenStatus { is_valid: false, expires_at_utc: None },
    }
}

/// A read of the slot, at any time, hands out a token only if that token
/// outlives the time of the read by more than the safety leeway; otherwise it
/// hands out nothing.
pub proof fn lemma_read_token_outlives_leeway(cache: TokenCache, now: int)
    ensures
        token_read(cache, now) is Some ==> (cache.current matches Some(t) && t.expires_at > now
            + TOKEN_REFRESH_LEEWAY_SECS),
{
}

} // verus!
