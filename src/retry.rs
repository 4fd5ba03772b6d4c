//! The retry policy around one upstream fetch: bounded exponential backoff
//! with jitter, and only for transient failures. The caller performs each
//! attempt, re-reading the credential slot first, and sleeps as told.
use vstd::prelude::*;
use crate::errors::{is_retryable_error, retryable, AksError};

verus! {

/// Delay before the first retry, in milliseconds.
pub const RETRY_BASE_DELAY_MS: u64 = 50;

/// Upper bound on the random jitter added to each delay, in milliseconds.
pub const RETRY_JITTER_MS: u64 = 30;

/// How many times a failed fetch is retried after its first attempt.
pub const MAX_RETRY_ATTEMPTS: u32 = 5;

/// The backoff before retry number `n` (counting from 0): `base` doubled `n` times.
pub open spec fn backoff_ms(base: nat, n: nat) -> nat
    decreases n,
{
    if n == 0 {
        base
    } else {
        2 * backoff_ms(base, (n - 1) as nat)
    }
}

/// The backoff never shrinks from one retry to a later one.
pub proof fn lemma_backoff_monotonic(base: nat, n: nat, m: nat)
    requires
        n <= m,
    ensures
        backoff_ms(base, n) <= backoff_ms(base, m),
    decreases m - n,
{
    if n < m {
        lemma_backoff_monotonic(base, n, (m - 1) as nat);
    }
}

/// What to do after a failed attempt.
#[derive(PartialEq, Eq, Structural, Clone, Copy, Debug)]
pub enum RetryAction {
    /// Give up and hand the error to the caller.
    Finish,
    /// Sleep this many milliseconds, then attempt again.
    Wait(u64),
}

/// The state of one retry sequence.
#[derive(Clone, Copy, Debug)]
pub struct RetryPolicy {
    pub base_delay_ms: u64,
    pub jitter_ms: u64,
    pub max_retries: u32,
    /// Retries granted so far.
    pub retries_done: u32,
    /// The backoff before the next retry, without jitter.
    pub next_delay_ms: u64,
}

impl RetryPolicy {
    /// The policy's fields agree, and its largest delay fits in a `u64`.
    pub open spec fn wf(&self) -> bool {
        &&& self.retries_done <= self.max_retries
        &&& self.next_delay_ms == backoff_ms(self.base_delay_ms as nat, self.retries_done as nat)
        &&& backoff_ms(self.base_delay_ms as nat, self.max_retries as nat) + self.jitter_ms
            <= u64::MAX
    }

    /// A fresh retry sequence.
    pub fn new(base_delay_ms: u64, jitter_ms: u64, max_retries: u32) -> (r: Self)
        requires
            backoff_ms(base_delay_ms as nat, max_retries as nat) + jitter_ms <= u64::MAX,
        ensures
            r.wf(),
            r.base_delay_ms == base_delay_ms,
            r.jitter_ms == jitter_ms,
            r.max_retries == max_retries,
            r.retries_done == 0,
    {
        RetryPolicy { base_delay_ms, jitter_ms, max_retries, retries_done: 0, next_delay_ms: base_delay_ms }
    }

    /// A fresh retry sequence with the library's constants.
    pub fn standard() -> (r: Self)
        ensures
            r.wf(),
            r.base_delay_ms == RETRY_BASE_DELAY_MS,
            r.jitter_ms == RETRY_JITTER_MS,
            r.max_retries == MAX_RETRY_ATTEMPTS,
            r.retries_done == 0,
            r.jitter_ms < r.base_delay_ms,
    {
        assert(backoff_ms(50, 0) == 50);
        assert(backoff_ms(50, 1) == 100);
        assert(backoff_ms(50, 2) == 200);
        assert(backoff_ms(50, 3) == 400);
        assert(backoff_ms(50, 4) == 800);
        assert(backoff_ms(50, 5) == 1600);
        Self::new(RETRY_BASE_DELAY_MS, RETRY_JITTER_MS, MAX_RETRY_ATTEMPTS)
    }

    /// A jitter to hand to `on_failure`, drawn at random.
    pub fn draw_jitter(&self) -> (r: u64)
        ensures
            r <= self.jitter_ms,
    {
        if self.jitter_ms == 0 {
            0
        } else {
            random_below(self.jitter_ms)
        }
    }

    /// The decision after a failed attempt whose error is `err`: a transient
    /// error is retried while retries remain, after the current backoff plus
    /// `jitter`; anything else ends the sequence.
    pub fn on_failure(&mut self, err: &AksError, jitter: u64) -> (r: RetryAction)
        requires
            old(self).wf(),
            jitter <= old(self).jitter_ms,
        ensures
            final(self).wf(),
            (r, *final(self)) == retry_spec(*old(self), *err, jitter),
    {
        if !is_retryable_error(err) || self.retries_done >= self.max_retries {
            return RetryAction::Finish;
        }
        proof {
            lemma_backoff_monotonic(
                self.base_delay_ms as nat,
                self.retries_done as nat,
                self.max_retries as nat,
            );
            lemma_backoff_monotonic(
                self.base_delay_ms as nat,
                (self.retries_done + 1) as nat,
                self.max_retries as nat,
            );
        }
        let delay = self.next_delay_ms + jitter;
        self.retries_done = self.retries_done + 1;
        self.next_delay_ms = self.next_delay_ms * 2;
        RetryAction::Wait(delay)
    }
}

/// The retry transition: the action after a failure, and the next state.
pub open spec fn retry_spec(p: RetryPolicy, err: AksError, jitter: u64) -> (RetryAction, RetryPolicy) {
    if retryable(err) && p.retries_done < p.max_retries {
        (
            RetryAction::Wait((p.next_delay_ms + jitter) as u64),
            RetryPolicy {
                retries_done: (p.retries_done + 1) as u32,
                next_delay_ms: (2 * p.next_delay_ms) as u64,
                ..p
            },
        )
    } else {
        (RetryAction::Finish, p)
    }
}

/// Relies on `rand::random_range`: a value drawn uniformly from `0..bound`,
/// which panics on an empty range. Only the range is known of the result.
#[verifier::external_body]
fn random_below(bound: u64) -> (r: u64)
    requires
        bound > 0,
    ensures
        r < bound,
{
    rand::random_range(0..bound)
}

/// An empty location or one the upstream rejects is never retried: the
/// first failed attempt is the last.
pub proof fn lemma_bad_input_not_retried(p: RetryPolicy, err: AksError, jitter: u64)
    requires
        err is Validation || err is InvalidLocation,
    ensures
        retry_spec(p, err, jitter).0 == RetryAction::Finish,
        retry_spec(p, err, jitter).1 == p,
{
}

/// A throttling or server error is retried while retries remain, after a
/// delay of the base doubled once per earlier retry plus at most the jitter
/// bound; once the retries are spent, the sequence ends.
pub proof fn lemma_transient_retried_with_backoff(
    p: RetryPolicy,
    status: u16,
    message: String,
    url: String,
    jitter: u64,
)
    requires
        p.wf(),
        status == 429 || (500 <= status <= 599),
        jitter <= p.jitter_ms,
    ensures
        ({
            let (action, next) = retry_spec(
                p,
                AksError::AzureHttp { status, message, url },
                jitter,
            );
            if p.retries_done < p.max_retries {
                &&& action matches RetryAction::Wait(d)
                &&& backoff_ms(p.base_delay_ms as nat, p.retries_done as nat) <= d
                &&& d <= backoff_ms(p.base_delay_ms as nat, p.retries_done as nat) + p.jitter_ms
                &&& next.retries_done == p.retries_done + 1
                &&& next.wf()
            } else {
                action == RetryAction::Finish
            }
        }),
{
    if p.retries_done < p.max_retries {
        lemma_backoff_monotonic(
            p.base_delay_ms as nat,
            (p.retries_done + 1) as nat,
            p.max_retries as nat,
        );
    }
}

/// With a jitter bound below the base delay, each delay is strictly longer
/// than the one before, whatever jitter either drew.
pub proof fn lemma_delays_strictly_increase(base: nat, jitter_bound: nat, n: nat, j1: nat, j2: nat)
    requires
        jitter_bound < base,
        j1 <= jitter_bound,
    ensures
        backoff_ms(base, n) + j1 < backoff_ms(base, n + 1) + j2,
{
    lemma_backoff_monotonic(base, 0, n);
}

} // verus!
