//! Retry policy and the decisions of the retry loop around a failing request.
//!
//! The loop itself awaits requests and sleeps, so it runs outside the library; each time
//! an attempt fails it asks [`RetrySchedule::on_failure`] whether to wait and try again
//! or to give up and return that attempt's error.
use std::time::Duration;
use vstd::arithmetic::power2::pow2;
use vstd::bits::{lemma_u32_pow2_no_overflow, lemma_u32_shl_is_mul};
use vstd::prelude::*;

use crate::time::{checked_scale, duration_nanos, max_duration_nanos, milliseconds};

verus! {

/// Controls how a failed request is retried.  The delay before retry `n` (counting from
/// 0) is `base_delay × 2ⁿ`; with `jitter` a random fraction of that step is added.
#[derive(Debug)]
pub struct RetryPolicy {
    /// Maximum total attempts, including the first.  Clamped to at least 1.
    pub max_attempts: u32,
    /// Delay before the first retry.  Each subsequent retry doubles it.
    pub base_delay: Duration,
    /// When `true`, add a random sub-delay no longer than the current step.
    pub jitter: bool,
}

impl Clone for RetryPolicy {
    /// An independent copy with the same values.
    fn clone(&self) -> (c: Self)
        ensures
            c == *self,
    {
        RetryPolicy { max_attempts: self.max_attempts, base_delay: self.base_delay, jitter: self.jitter }
    }
}

impl Default for RetryPolicy {
    /// 3 attempts, 500 ms base delay, jitter on.
    fn default() -> (p: Self)
        ensures
            p.max_attempts == 3,
            duration_nanos(p.base_delay) == 500_000_000,
            p.jitter,
    {
        RetryPolicy { max_attempts: 3, base_delay: milliseconds(500), jitter: true }
    }
}

/// The number of attempts a policy allows: `max_attempts`, but at least 1.
pub open spec fn attempt_budget(max_attempts: u32) -> nat {
    if max_attempts == 0 {
        1
    } else {
        max_attempts as nat
    }
}

impl RetryPolicy {
    /// The number of attempts this policy allows: `max_attempts`, but at least 1.
    pub fn attempts(&self) -> (n: u32)
        ensures
            n == attempt_budget(self.max_attempts),
    {
        if self.max_attempts == 0 {
            1
        } else {
            self.max_attempts
        }
    }

    /// The delay before a retry whose step is `Wait { backoff_factor }`, before jitter:
    /// `base_delay × backoff_factor`, or `None` where that exceeds the longest `Duration`.
    pub fn backoff_delay(&self, backoff_factor: u32) -> (d: Option<Duration>)
        ensures
            d is Some <==> duration_nanos(self.base_delay) * backoff_factor <= max_duration_nanos(),
            d matches Some(delay) ==> duration_nanos(delay) == duration_nanos(self.base_delay)
                * backoff_factor,
    {
        checked_scale(self.base_delay, backoff_factor)
    }
}

/// What the retry loop does after a failed attempt.
#[derive(Debug, PartialEq, Eq, Structural)]
pub enum RetryStep {
    /// Sleep for `base_delay × backoff_factor` (plus jitter), then try again.
    Wait { backoff_factor: u32 },
    /// The last allowed attempt failed: return its error.
    GiveUp,
}

/// The state of a retry loop: attempts made so far, out of the policy's budget.
pub struct RetrySchedule {
    made: u32,
    budget: u32,
}

/// The mathematical state of a [`RetrySchedule`].
pub struct RetryScheduleView {
    pub made: nat,
    pub budget: nat,
}

impl View for RetrySchedule {
    type V = RetryScheduleView;

    closed spec fn view(&self) -> RetryScheduleView {
        RetryScheduleView { made: self.made as nat, budget: self.budget as nat }
    }
}

/// The step after `made` attempts have failed out of `budget`.
pub open spec fn step_after(made: nat, budget: nat) -> RetryStep {
    if made >= budget {
        RetryStep::GiveUp
    } else {
        RetryStep::Wait { backoff_factor: pow2((made - 1) as nat) as u32 }
    }
}

impl RetrySchedule {
    /// The budget is at least one attempt, and no more attempts are made than it allows.
    #[verifier::type_invariant]
    spec fn within_budget(self) -> bool {
        1 <= self.budget && self.made <= self.budget
    }

    /// A loop about to make its first attempt under `policy`.
    pub fn new(policy: &RetryPolicy) -> (s: Self)
        ensures
            s@.made == 0,
            s@.budget == attempt_budget(policy.max_attempts),
    {
        RetrySchedule { made: 0, budget: policy.attempts() }
    }

    /// Whether another attempt is allowed.
    pub fn may_attempt(&self) -> (r: bool)
        ensures
            r == (self@.made < self@.budget),
    {
        self.made < self.budget
    }

    /// Record that the current attempt failed, and decide what follows: wait
    /// `base_delay × 2^(attempts made before)` and try again while the budget allows,
    /// otherwise give up.  A wait after 32 or more failed attempts would overflow the
    /// backoff factor, so such a step is not asked for.
    pub fn on_failure(&mut self) -> (step: RetryStep)
        requires
            old(self)@.made < old(self)@.budget,
            old(self)@.made + 1 < old(self)@.budget ==> old(self)@.made < 32,
        ensures
            final(self)@.made == old(self)@.made + 1,
            final(self)@.budget == old(self)@.budget,
            step == step_after(final(self)@.made, final(self)@.budget),
    {
        proof {
            use_type_invariant(&*self);
        }
        let attempt = self.made;
        self.made = attempt + 1;
        if self.made >= self.budget {
            RetryStep::GiveUp
        } else {
            proof {
                lemma_u32_pow2_no_overflow(attempt as nat);
                lemma_u32_shl_is_mul(1, attempt);
            }
            RetryStep::Wait { backoff_factor: 1u32 << attempt }
        }
    }
}

} // verus!
