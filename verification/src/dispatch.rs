//! The dispatcher's decision logic: which timeout an outbound call gets,
//! and when a failed attempt is resent. The outbound call itself is I/O and
//! lives with the caller; every decision around it is decided here.

use vstd::prelude::*;

verus! {

/// How failed outbound attempts are retried.
#[derive(Clone, Copy, Debug, PartialEq, Eq, Structural)]
pub enum RetryPolicy {
    /// Never resend; the first failure surfaces at once.
    NoRetry,
    /// Resend up to `max_retries` more times, pausing `delay_ms`
    /// milliseconds between attempts.
    FixedRetry { max_retries: u32, delay_ms: u32 },
}

/// The policy of a new-session creation: such a POST is never resent, lest
/// a retried creation allocate a second session on the hub.
pub open spec fn create_policy() -> RetryPolicy {
    RetryPolicy::NoRetry
}

/// The policy of every other request: up to three more tries, 100
/// milliseconds apart.
pub open spec fn default_policy() -> RetryPolicy {
    RetryPolicy::FixedRetry { max_retries: 3, delay_ms: 100 }
}

/// Whether one more try follows after `failures` transport failures.
pub open spec fn retry_allowed(p: RetryPolicy, failures: nat) -> bool {
    match p {
        RetryPolicy::NoRetry => false,
        RetryPolicy::FixedRetry { max_retries, .. } => failures <= max_retries,
    }
}

/// Picks the retry policy from the request's classification.
pub fn policy_for_request(is_create: bool) -> (p: RetryPolicy)
    ensures
        p == (if is_create {
            create_policy()
        } else {
            default_policy()
        }),
{
    if is_create {
        RetryPolicy::NoRetry
    } else {
        RetryPolicy::FixedRetry { max_retries: 3, delay_ms: 100 }
    }
}

/// Picks the outbound timeout: session creation may queue on the hub
/// longer than any command would, so it gets no timeout at all; every
/// other request gets the configured one.
pub fn timeout_for_request(is_create: bool, configured_secs: u64) -> (t: Option<u64>)
    ensures
        is_create ==> t is None,
        !is_create ==> t == Some(configured_secs),
{
    if is_create {
        None
    } else {
        Some(configured_secs)
    }
}

/// What one attempt came to: passed through on success, resent after a
/// retryable failure, surfaced once the budget is spent.
#[derive(Debug, PartialEq, Eq)]
pub enum RetryOutcome<R, E> {
    Success(R),
    Retry(E),
    GiveUp(E),
}

/// The dispatcher's state for one request: its retry policy and how many
/// transport failures the attempts so far have suffered.
#[derive(Debug, Clone, Copy, PartialEq, Eq, Structural)]
pub struct Dispatcher {
    pub policy: RetryPolicy,
    pub failures: u32,
}

impl Dispatcher {
    /// A dispatcher that has not tried yet.
    pub fn new(policy: RetryPolicy) -> (d: Dispatcher)
        ensures
            d.policy == policy,
            d.failures == 0,
    {
        Dispatcher { policy, failures: 0 }
    }

    /// Whether one more try is allowed in the current state.
    pub fn should_retry(&self) -> (b: bool)
        ensures
            b == retry_allowed(self.policy, self.failures as nat),
    {
        match self.policy {
            RetryPolicy::NoRetry => false,
            RetryPolicy::FixedRetry { max_retries, .. } => self.failures <= max_retries,
        }
    }

    /// The pause before the next try, in milliseconds.
    pub fn delay_ms(&self) -> (d: u32)
        ensures
            d == (match self.policy {
                RetryPolicy::NoRetry => 0u32,
                RetryPolicy::FixedRetry { delay_ms, .. } => delay_ms,
            }),
    {
        match self.policy {
            RetryPolicy::NoRetry => 0,
            RetryPolicy::FixedRetry { delay_ms, .. } => delay_ms,
        }
    }

    /// Judges one attempt: success passes through untouched, and a failure
    /// is resent exactly while the policy's budget is not yet spent.
    pub fn classify_attempt<R, E>(&mut self, attempt: Result<R, E>) -> (o: RetryOutcome<R, E>)
        requires
            old(self).failures < u32::MAX,
        ensures
            final(self).policy == old(self).policy,
            attempt is Ok ==> final(self).failures == old(self).failures,
            attempt is Err ==> final(self).failures == old(self).failures + 1,
            (match o {
                RetryOutcome::Success(r) => attempt matches Ok(rr) && rr == r,
                RetryOutcome::Retry(e) => attempt matches Err(ee) && ee == e && retry_allowed(
                    old(self).policy,
                    (old(self).failures + 1) as nat,
                ),
                RetryOutcome::GiveUp(e) => attempt matches Err(ee) && ee == e && !retry_allowed(
                    old(self).policy,
                    (old(self).failures + 1) as nat,
                ),
            }),
    {
        match attempt {
            Ok(r) => RetryOutcome::Success(r),
            Err(e) => {
                self.failures = self.failures + 1;
                if self.should_retry() {
                    RetryOutcome::Retry(e)
                } else {
                    RetryOutcome::GiveUp(e)
                }
            },
        }
    }
}

/// A transport failure of a session creation is never retried; any other
/// request's k-th consecutive failure is retried exactly while k is at
/// most three, so its client sees an error only after four failed tries.
pub proof fn lemma_retry_budget(k: nat)
    ensures
        !retry_allowed(create_policy(), k),
        retry_allowed(default_policy(), k) <==> k <= 3,
{
}

} // verus!
