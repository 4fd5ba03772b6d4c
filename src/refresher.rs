//! The decisions of the background credential refresher and of the
//! supervisor that keeps it running. The caller runs the timers, performs the
//! credential exchange and spawns the worker.
use vstd::prelude::*;
use crate::token::{
    due_for_refresh, valid_for_http, TokenCache, REFRESH_TRIGGER_OFFSET_SECS,
    TOKEN_REFRESH_INTERVAL_SECS, TOKEN_REFRESH_LEEWAY_SECS,
};

verus! {

/// Seconds the supervisor waits before it respawns a worker that stopped.
pub const RESTART_DELAY_SECS: u64 = 5;

/// Whether the refresher must renew the token held in `cache` at `now`: when
/// the slot is empty, or when its token is due for renewal.
pub open spec fn refresh_due(cache: TokenCache, now: int) -> bool {
    match cache.current {
        Some(t) => due_for_refresh(t.expires_at as int, now),
        None => true,
    }
}

/// What the worker does on one wake-up.
pub struct TickDecision {
    /// The heartbeat to publish.
    pub heartbeat: i64,
    /// Whether to run the credential exchange now.
    pub refresh: bool,
}

/// One wake-up of the worker at `now`: stamp the heartbeat, then decide
/// whether the token needs renewing.
pub fn refresher_tick(cache: &TokenCache, now: i64) -> (r: TickDecision)
    ensures
        r.heartbeat == now,
        r.refresh == refresh_due(*cache, now as int),
{
    let refresh = match &cache.current {
        Some(token) => token.needs_background_refresh(now),
        None => true,
    };
    TickDecision { heartbeat: now, refresh }
}

/// Where the supervisor stands.
#[derive(PartialEq, Eq, Structural, Clone, Copy, Debug)]
pub enum SupervisorState {
    Starting,
    Running,
    Restarting,
}

/// What the supervisor learns.
#[derive(PartialEq, Eq, Structural, Clone, Copy, Debug)]
pub enum SupervisorEvent {
    /// The process has begun.
    Start,
    /// The worker returned.
    WorkerExited,
    /// The worker crashed.
    WorkerPanicked,
    /// The restart delay has passed.
    DelayElapsed,
}

/// What the supervisor asks its caller to do.
#[derive(PartialEq, Eq, Structural, Clone, Copy, Debug)]
pub enum SupervisorAction {
    SpawnWorker,
    SleepSecs(u64),
    Nothing,
}

/// The supervisor's transition: it spawns the worker, and whenever the worker
/// stops, for whatever reason, it waits a fixed delay and spawns it again.
pub open spec fn supervisor_spec(state: SupervisorState, event: SupervisorEvent) -> (
    SupervisorState,
    SupervisorAction,
) {
    match (state, event) {
        (SupervisorState::Starting, SupervisorEvent::Start) => (
            SupervisorState::Running,
            SupervisorAction::SpawnWorker,
        ),
        (SupervisorState::Running, SupervisorEvent::WorkerExited)
        | (SupervisorState::Running, SupervisorEvent::WorkerPanicked) => (
            SupervisorState::Restarting,
            SupervisorAction::SleepSecs(RESTART_DELAY_SECS),
        ),
        (SupervisorState::Restarting, SupervisorEvent::DelayElapsed) => (
            SupervisorState::Running,
            SupervisorAction::SpawnWorker,
        ),
        _ => (state, SupervisorAction::Nothing),
    }
}

pub fn supervisor_step(state: SupervisorState, event: SupervisorEvent) -> (r: (
    SupervisorState,
    SupervisorAction,
))
    ensures
        r == supervisor_spec(state, event),
{
    match (state, event) {
        (SupervisorState::Starting, SupervisorEvent::Start) => (
            SupervisorState::Running,
            SupervisorAction::SpawnWorker,
        ),
        (SupervisorState::Running, SupervisorEvent::WorkerExited)
        | (SupervisorState::Running, SupervisorEvent::WorkerPanicked) => (
            SupervisorState::Restarting,
            SupervisorAction::SleepSecs(RESTART_DELAY_SECS),
        ),
        (SupervisorState::Restarting, SupervisorEvent::DelayElapsed) => (
            SupervisorState::Running,
            SupervisorAction::SpawnWorker,
        ),
        _ => (state, SupervisorAction::Nothing),
    }
}

/// With a refresh trigger larger than the leeway plus one tick, a token that
/// is not due for renewal at one wake-up is still usable at the next one, as
/// long as that comes no later than one tick after.
pub proof fn lemma_not_due_stays_valid(
    expires_at: int,
    now: int,
    next: int,
    trigger: int,
    leeway: int,
    tick: int,
)
    requires
        trigger > leeway + tick,
        expires_at >= now + trigger,
        now <= next <= now + tick,
    ensures
        expires_at > next + leeway,
{
}

/// The library's own constants satisfy that inequality, so a token that the
/// refresher leaves alone at `now` stays usable until its next wake-up.
pub proof fn lemma_refresh_schedule_keeps_token_valid(expires_at: int, now: int, next: int)
    requires
        !due_for_refresh(expires_at, now),
        now <= next <= now + TOKEN_REFRESH_INTERVAL_SECS,
    ensures
        REFRESH_TRIGGER_OFFSET_SECS > TOKEN_REFRESH_LEEWAY_SECS + TOKEN_REFRESH_INTERVAL_SECS,
        valid_for_http(expires_at, next),
{
    lemma_not_due_stays_valid(
        expires_at,
        now,
        next,
        REFRESH_TRIGGER_OFFSET_SECS as int,
        TOKEN_REFRESH_LEEWAY_SECS as int,
        TOKEN_REFRESH_INTERVAL_SECS as int,
    );
}

} // verus!
