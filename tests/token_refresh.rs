use aksver::refresher::{
    refresher_tick, supervisor_step, SupervisorAction, SupervisorEvent, SupervisorState,
    RESTART_DELAY_SECS,
};
use aksver::token::{
    get_token_from_cache, get_token_from_cache_at, get_token_status, token_for_attempt,
    InternalCachedToken, TokenCache, REFRESH_TRIGGER_OFFSET_SECS, TOKEN_REFRESH_INTERVAL_SECS,
    TOKEN_REFRESH_LEEWAY_SECS,
};
use aksver::errors::AksError;

fn slot(secret: &str, expires_at: i64) -> TokenCache {
    TokenCache::holding(InternalCachedToken::new(secret.to_string(), expires_at))
}

#[test]
fn token_valid_only_beyond_leeway() {
    let t = InternalCachedToken::new("abc".to_string(), 1_000);
    assert!(t.is_valid_for_http(1_000 - 66));
    assert!(!t.is_valid_for_http(1_000 - 65));
    assert!(!t.is_valid_for_http(2_000));
}

#[test]
fn token_due_for_refresh_below_trigger() {
    let t = InternalCachedToken::new("abc".to_string(), 1_000);
    assert!(!t.needs_background_refresh(1_000 - 130));
    assert!(t.needs_background_refresh(1_000 - 129));
}

#[test]
fn read_after_write_returns_token_or_nothing() {
    let cache = slot("secret-1", 10_000);
    assert_eq!(get_token_from_cache_at(&cache, 10_000 - 100), Some("secret-1".to_string()));
    assert_eq!(get_token_from_cache_at(&cache, 10_000 - 65), None);
    assert_eq!(get_token_from_cache_at(&TokenCache::new(), 0), None);
}

#[test]
fn read_at_current_time_uses_the_clock() {
    // A token that expired in 1970 is never handed out; one that expires in
    // the year 3000 is.
    assert_eq!(get_token_from_cache(&slot("old", 100)), None);
    assert_eq!(get_token_from_cache(&slot("new", 32_503_680_000)), Some("new".to_string()));
}

#[test]
fn attempt_without_token_is_credential_unavailable() {
    assert!(matches!(token_for_attempt(&TokenCache::new(), 5), Err(AksError::CredentialUnavailable)));
    assert_eq!(token_for_attempt(&slot("s", 1_000), 0).unwrap(), "s");
}

#[test]
fn token_status_reports_expiry() {
    let st = get_token_status(&slot("s", 500), 0);
    assert!(st.is_valid);
    assert_eq!(st.expires_at_utc, Some(500));
    let st = get_token_status(&TokenCache::new(), 0);
    assert!(!st.is_valid);
    assert_eq!(st.expires_at_utc, None);
}

#[test]
fn tick_refreshes_empty_or_due_slot() {
    let d = refresher_tick(&TokenCache::new(), 42);
    assert_eq!(d.heartbeat, 42);
    assert!(d.refresh);
    assert!(refresher_tick(&slot("s", 100), 0).refresh);
    assert!(!refresher_tick(&slot("s", 1_000), 0).refresh);
}

#[test]
fn token_not_due_stays_valid_at_next_tick() {
    assert!(REFRESH_TRIGGER_OFFSET_SECS > TOKEN_REFRESH_LEEWAY_SECS + TOKEN_REFRESH_INTERVAL_SECS);
    let now = 1_000_000;
    for remaining in [REFRESH_TRIGGER_OFFSET_SECS, REFRESH_TRIGGER_OFFSET_SECS + 1, 3_600] {
        let t = InternalCachedToken::new("s".to_string(), now + remaining);
        assert!(!t.needs_background_refresh(now));
        assert!(t.is_valid_for_http(now + TOKEN_REFRESH_INTERVAL_SECS));
    }
}

#[test]
fn supervisor_restarts_worker_after_fixed_delay() {
    let (s, a) = supervisor_step(SupervisorState::Starting, SupervisorEvent::Start);
    assert_eq!((s, a), (SupervisorState::Running, SupervisorAction::SpawnWorker));
    for exit in [SupervisorEvent::WorkerPanicked, SupervisorEvent::WorkerExited] {
        let (s2, a2) = supervisor_step(SupervisorState::Running, exit);
        assert_eq!(s2, SupervisorState::Restarting);
        assert_eq!(a2, SupervisorAction::SleepSecs(RESTART_DELAY_SECS));
        let (s3, a3) = supervisor_step(s2, SupervisorEvent::DelayElapsed);
        assert_eq!((s3, a3), (SupervisorState::Running, SupervisorAction::SpawnWorker));
    }
    let (s4, a4) = supervisor_step(SupervisorState::Running, SupervisorEvent::DelayElapsed);
    assert_eq!((s4, a4), (SupervisorState::Running, SupervisorAction::Nothing));
}
