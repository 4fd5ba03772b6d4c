//! The service's settings, the first steps of a versions request, and the
//! health report: ready when the credential is usable and the refresher has
//! stamped its heartbeat recently enough.
use vstd::prelude::*;
use crate::cache::{begin_next, begin_step, CacheStep, ResponseCache};
use crate::config::Config;
use crate::errors::AksError;
use crate::handler::{all_ascii_alnum, cache_key, cache_key_spec, trimmed, validate_location};
use crate::token::{valid_for_http, TokenCache, REFRESH_TRIGGER_OFFSET_SECS};

verus! {

/// A heartbeat older than this many seconds (about two and a half refresher
/// ticks) means the refresher has stalled.
pub const WORKER_LIVENESS_THRESHOLD: i64 = 140;

/// `x` held to the range of `i64`.
pub open spec fn clamp_i64(x: int) -> int {
    if x < i64::MIN {
        i64::MIN as int
    } else if x > i64::MAX {
        i64::MAX as int
    } else {
        x
    }
}

/// `a - b`, held to the range of `i64`.
pub fn clamped_sub(a: i64, b: i64) -> (r: i64)
    ensures
        r == clamp_i64(a - b),
{
    let d = (a as i128) - (b as i128);
    if d < (i64::MIN as i128) {
        i64::MIN
    } else if d > (i64::MAX as i128) {
        i64::MAX
    } else {
        d as i64
    }
}

/// Whether the service is healthy: the token is usable and the refresher is alive.
pub open spec fn healthy(token_valid: bool, heartbeat_age: int) -> bool {
    token_valid && heartbeat_age < WORKER_LIVENESS_THRESHOLD
}

/// The word the report gives for a health state.
pub open spec fn status_text(is_healthy: bool) -> Seq<char> {
    if is_healthy {
        "healthy"@
    } else {
        "unhealthy"@
    }
}

/// The two conditions of readiness.
pub struct Checks {
    pub token_valid: bool,
    pub worker_alive: bool,
}

/// The health report. Times are seconds since the Unix epoch.
pub struct HealthReport {
    pub status: String,
    pub checks: Checks,
    pub uptime_seconds: i64,
    pub heartbeat_age: i64,
    pub token_expires_at: Option<i64>,
    pub next_token_refresh_at: Option<i64>,
}

/// The settings of the service that the request path reads.
pub struct AppState {
    pub show_preview: bool,
    pub subscription_id: String,
    /// When the service started.
    pub start_time: i64,
}

impl AppState {
    /// The settings taken from `config`, for a service started at `start_time`.
    pub fn new(config: Config, start_time: i64) -> (r: Self)
        ensures
            r.subscription_id@ == config.subscription_id@,
            r.show_preview == config.show_preview,
            r.start_time == start_time,
    {
        AppState { show_preview: config.show_preview, subscription_id: config.subscription_id, start_time }
    }

    /// The response-cache key of a request for `location`.
    pub fn cache_key(&self, location: &str) -> (r: String)
        ensures
            r@ == cache_key_spec(self.subscription_id@, location@, self.show_preview),
    {
        cache_key(self.subscription_id.as_str(), location, self.show_preview)
    }

    /// The first steps of a request for `raw_location` at `now`: the location
    /// is checked, and only a well-formed one reaches the cache, which says
    /// whether to use a stored value, wait for a fetch in flight, or fetch.
    /// Returns the location, its cache key and that step. A rejected location
    /// leaves the cache as it was, so nothing is fetched for it.
    pub fn begin_request<V>(&self, cache: &mut ResponseCache<V>, raw_location: &str, now: i64) -> (r: Result<
        (String, String, CacheStep),
        AksError,
    >)
        requires
            old(cache).wf(),
        ensures
            final(cache).wf(),
            final(cache).ttl() == old(cache).ttl(),
            final(cache).capacity() == old(cache).capacity(),
            (r is Err) == (trimmed(raw_location@).len() == 0 || !all_ascii_alnum(
                trimmed(raw_location@),
            )),
            r matches Err(e) ==> (e is Validation || e is InvalidLocation) && final(cache)@ == old(
                cache,
            )@,
            r matches Ok(t) ==> t.0@ == trimmed(raw_location@) && t.1@ == cache_key_spec(
                self.subscription_id@,
                t.0@,
                self.show_preview,
            ) && t.2 == begin_step(old(cache)@, t.1@, now as int, old(cache).ttl()) && final(cache)@
                == begin_next(old(cache)@, t.1@, now as int, old(cache).ttl()),
    {
        let location = validate_location(raw_location)?;
        let key = self.cache_key(location.as_str());
        let step = cache.begin(key.as_str(), now);
        Ok((location, key, step))
    }

    /// The health report at `now`, given the refresher's last heartbeat and
    /// the credential slot.
    pub fn get_health(&self, now: i64, last_heartbeat: i64, cache: &TokenCache) -> (r: HealthReport)
        ensures
            r.heartbeat_age == clamp_i64(now - last_heartbeat),
            r.uptime_seconds == clamp_i64(now - self.start_time),
            r.checks.token_valid == (cache.current matches Some(t) && valid_for_http(
                t.expires_at as int,
                now as int,
            )),
            r.checks.worker_alive == (r.heartbeat_age < WORKER_LIVENESS_THRESHOLD),
            r.status@ == status_text(healthy(r.checks.token_valid, r.heartbeat_age as int)),
            r.token_expires_at == (match cache.current {
                Some(t) => Some(t.expires_at),
                None => None::<i64>,
            }),
            r.next_token_refresh_at == (match cache.current {
                Some(t) => Some(clamp_i64(t.expires_at - REFRESH_TRIGGER_OFFSET_SECS) as i64),
                None => None::<i64>,
            }),
    {
        let heartbeat_age = clamped_sub(now, last_heartbeat);
        let status = crate::token::get_token_status(cache, now);
        let token_valid = status.is_valid;
        let worker_alive = heartbeat_age < WORKER_LIVENESS_THRESHOLD;
        let refresh_at = match status.expires_at_utc {
            Some(t) => Some(clamped_sub(t, REFRESH_TRIGGER_OFFSET_SECS)),
            None => None,
        };
        let text = if token_valid && worker_alive {
            String::from_str("healthy")
        } else {
            String::from_str("unhealthy")
        };
        HealthReport {
            status: text,
            checks: Checks { token_valid, worker_alive },
            uptime_seconds: clamped_sub(now, self.start_time),
            heartbeat_age,
            token_expires_at: status.expires_at_utc,
            next_token_refresh_at: refresh_at,
        }
    }
}

/// A stale heartbeat makes the service unhealthy even with a usable token,
/// and an unusable token does so even with a fresh heartbeat; with both in
/// order the service is healthy.
pub proof fn lemma_health_needs_both(token_valid: bool, heartbeat_age: int)
    ensures
        heartbeat_age >= WORKER_LIVENESS_THRESHOLD ==> !healthy(token_valid, heartbeat_age),
        !token_valid ==> !healthy(token_valid, heartbeat_age),
        token_valid && heartbeat_age < WORKER_LIVENESS_THRESHOLD ==> healthy(token_valid, heartbeat_age),
{
}

} // verus!
