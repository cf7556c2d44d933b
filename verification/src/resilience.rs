//! Resilience primitives: retry with exponential backoff, and a circuit
//! breaker. Both are decision machines over plain state; running the
//! protected operation, sleeping and reading the clock happen outside the
//! library, which is handed the outcomes and timestamps.

use vstd::prelude::*;
use vstd::math::min;
use crate::error::ExtensionError;
use crate::text::{spec_dec, u64_to_string};

verus! {

/// Immutable retry configuration. Delays are in milliseconds; after each
/// failed attempt the tracked delay is multiplied by `exponential_base` and
/// capped at `max_delay_millis`. Jitter, when enabled, applies only to the
/// sleep actually performed, never to the tracked delay.
#[derive(Debug, Clone)]
pub struct RetryPolicy {
    pub max_attempts: u32,
    pub initial_delay_millis: u64,
    pub max_delay_millis: u64,
    pub exponential_base: u32,
    pub jitter: bool,
}

impl Default for RetryPolicy {
    /// Three attempts, starting at a tenth of a second, doubling up to
    /// thirty seconds, with jitter.
    fn default() -> (p: Self)
        ensures
            p == (RetryPolicy {
                max_attempts: 3,
                initial_delay_millis: 100,
                max_delay_millis: 30000,
                exponential_base: 2,
                jitter: true,
            }),
    {
        RetryPolicy {
            max_attempts: 3,
            initial_delay_millis: 100,
            max_delay_millis: 30000,
            exponential_base: 2,
            jitter: true,
        }
    }
}

/// What to do after a failed attempt: wait and try again, or give up with
/// the wrapped error naming the attempt count and the last failure.
#[derive(Debug)]
pub enum RetryDecision {
    Backoff { base_delay_millis: u64, apply_jitter: bool },
    GiveUp(ExtensionError),
}

/// The mutable state of one retry run: how many attempts have started and
/// the current un-jittered delay.
#[derive(Debug, Clone)]
pub struct RetryState {
    pub attempt: u32,
    pub delay_millis: u64,
}

/// The wrapped message reported when every attempt has failed.
pub open spec fn spec_exhausted_message(max_attempts: u32, last: ExtensionError) -> Seq<char> {
    "Operation failed after "@ + spec_dec(max_attempts as nat) + " attempts: "@
        + last.spec_message()
}

impl RetryState {
    /// The state before the first attempt.
    pub fn start(policy: &RetryPolicy) -> (s: Self)
        ensures
            s.attempt == 0,
            s.delay_millis == policy.initial_delay_millis,
    {
        RetryState { attempt: 0, delay_millis: policy.initial_delay_millis }
    }

    /// Counts the attempt that is about to run.
    pub fn begin_attempt(&mut self)
        requires
            old(self).attempt < u32::MAX,
        ensures
            final(self).attempt == old(self).attempt + 1,
            final(self).delay_millis == old(self).delay_millis,
    {
        self.attempt = self.attempt + 1;
    }

    /// Decides after a failed attempt: once `max_attempts` have run, gives
    /// up with the wrapped error; otherwise orders a backoff of the current
    /// delay (jittered by the sleeper if the policy says so) and multiplies
    /// the tracked delay by the base, capped at the maximum.
    pub fn on_failure(&mut self, policy: &RetryPolicy, last_error: &ExtensionError) -> (d:
        RetryDecision)
        ensures
            old(self).attempt >= policy.max_attempts ==> {
                &&& d matches RetryDecision::GiveUp(e)
                &&& (d matches RetryDecision::GiveUp(e) ==> e matches ExtensionError::Unknown(m)
                    && m@ == spec_exhausted_message(policy.max_attempts, *last_error))
                &&& *final(self) == *old(self)
            },
            old(self).attempt < policy.max_attempts ==> {
                &&& d matches RetryDecision::Backoff { base_delay_millis, apply_jitter }
                    && base_delay_millis == old(self).delay_millis && apply_jitter == policy.jitter
                &&& final(self).attempt == old(self).attempt
                &&& final(self).delay_millis == min(
                    old(self).delay_millis * policy.exponential_base,
                    policy.max_delay_millis as int,
                )
            },
    {
        if self.attempt >= policy.max_attempts {
            let text = String::from_str("Operation failed after ").concat(
                u64_to_string(policy.max_attempts as u64).as_str(),
            ).concat(" attempts: ").concat(last_error.message().as_str());
            RetryDecision::GiveUp(ExtensionError::Unknown(text))
        } else {
            let base_delay_millis = self.delay_millis;
            let grown = match self.delay_millis.checked_mul(policy.exponential_base as u64) {
                Some(v) => v,
                None => u64::MAX,
            };
            self.delay_millis = if grown <= policy.max_delay_millis {
                grown
            } else {
                policy.max_delay_millis
            };
            RetryDecision::Backoff { base_delay_millis, apply_jitter: policy.jitter }
        }
    }
}

/// The observable states of a circuit breaker.
#[derive(Debug, Clone, Copy, PartialEq, Eq, Structural)]
pub enum CircuitState {
    Closed,
    Open,
    HalfOpen,
}

/// A fault-isolation primitive: after `failure_threshold` consecutive
/// failures it opens and rejects calls until `timeout_millis` have passed
/// since the last failure; it then admits trial calls (half-open) and
/// closes again after `success_threshold` consecutive successes.
///
/// The breaker is a decision machine over timestamps handed in by the
/// caller: the clock, the lock around the state and the protected
/// operation itself live outside the library.
#[derive(Debug, Clone)]
pub struct CircuitBreaker {
    pub failure_threshold: u32,
    pub success_threshold: u32,
    pub timeout_millis: u64,
    pub state: CircuitState,
    pub failure_count: u32,
    pub success_count: u32,
    pub last_failure_time_millis: Option<u64>,
}

impl CircuitBreaker {
    /// A closed breaker with zeroed counters.
    pub fn new(failure_threshold: u32, success_threshold: u32, timeout_millis: u64) -> (b: Self)
        ensures
            b == (CircuitBreaker {
                failure_threshold,
                success_threshold,
                timeout_millis,
                state: CircuitState::Closed,
                failure_count: 0,
                success_count: 0,
                last_failure_time_millis: None,
            }),
    {
        CircuitBreaker {
            failure_threshold,
            success_threshold,
            timeout_millis,
            state: CircuitState::Closed,
            failure_count: 0,
            success_count: 0,
            last_failure_time_millis: None,
        }
    }

    pub fn get_state(&self) -> (s: CircuitState)
        ensures
            s == self.state,
    {
        self.state
    }

    /// The admission check run before the protected operation. A closed or
    /// half-open breaker admits the call unchanged. An open breaker admits it only
    /// once `timeout_millis` have passed since the recorded failure, moving
    /// to half-open with both counters reset; otherwise it rejects the call.
    pub fn before_call(&mut self, now_millis: u64) -> (r: Result<(), ExtensionError>)
        requires
            old(self).last_failure_time_millis matches Some(t) ==> t <= now_millis,
        ensures
            old(self).state != CircuitState::Open ==> r is Ok && *final(self) == *old(self),
            old(self).state == CircuitState::Open ==> {
                if old(self).last_failure_time_millis matches Some(t) && now_millis - t
                    >= old(self).timeout_millis {
                    &&& r is Ok
                    &&& *final(self) == (CircuitBreaker {
                        state: CircuitState::HalfOpen,
                        failure_count: 0,
                        success_count: 0,
                        ..*old(self)
                    })
                } else {
                    &&& r matches Err(e) && e matches ExtensionError::Unknown(m) && m@
                        == "Circuit breaker is open"@
                    &&& *final(self) == *old(self)
                }
            },
    {
        match self.state {
            CircuitState::Open => {
                match self.last_failure_time_millis {
                    Some(last_failure) => {
                        if now_millis - last_failure >= self.timeout_millis {
                            self.state = CircuitState::HalfOpen;
                            self.failure_count = 0;
                            self.success_count = 0;
                            Ok(())
                        } else {
                            Err(ExtensionError::unknown("Circuit breaker is open"))
                        }
                    },
                    None => Err(ExtensionError::unknown("Circuit breaker is open")),
                }
            },
            _ => Ok(()),
        }
    }

    /// Records a successful call. Closed: the failure counter resets.
    /// Half-open: the success counter grows and, once it reaches the
    /// threshold, the breaker closes with the failure counter reset.
    pub fn on_success(&mut self)
        requires
            old(self).success_count < u32::MAX,
        ensures
            old(self).state == CircuitState::Closed ==> *final(self) == (CircuitBreaker {
                failure_count: 0,
                ..*old(self)
            }),
            old(self).state == CircuitState::Open ==> *final(self) == *old(self),
            old(self).state == CircuitState::HalfOpen ==> {
                if old(self).success_count + 1 >= old(self).success_threshold {
                    *final(self) == (CircuitBreaker {
                        state: CircuitState::Closed,
                        failure_count: 0,
                        success_count: (old(self).success_count + 1) as u32,
                        ..*old(self)
                    })
                } else {
                    *final(self) == (CircuitBreaker {
                        success_count: (old(self).success_count + 1) as u32,
                        ..*old(self)
                    })
                }
            },
    {
        match self.state {
            CircuitState::HalfOpen => {
                self.success_count = self.success_count + 1;
                if self.success_count >= self.success_threshold {
                    self.state = CircuitState::Closed;
                    self.failure_count = 0;
                }
            },
            CircuitState::Closed => {
                self.failure_count = 0;
            },
            _ => {},
        }
    }

    /// Records a failed call at `now_millis`. The failure counter grows and
    /// the failure time is recorded; a closed breaker opens once the counter
    /// reaches the threshold, and a half-open breaker reopens at once.
    pub fn on_failure(&mut self, now_millis: u64)
        requires
            old(self).failure_count < u32::MAX,
        ensures
            final(self).failure_count == old(self).failure_count + 1,
            final(self).last_failure_time_millis == Some(now_millis),
            final(self).success_count == old(self).success_count,
            final(self).failure_threshold == old(self).failure_threshold,
            final(self).success_threshold == old(self).success_threshold,
            final(self).timeout_millis == old(self).timeout_millis,
            old(self).state == CircuitState::Closed ==> final(self).state == (if old(
                self,
            ).failure_count + 1 >= old(self).failure_threshold {
                CircuitState::Open
            } else {
                CircuitState::Closed
            }),
            old(self).state == CircuitState::HalfOpen ==> final(self).state == CircuitState::Open,
            old(self).state == CircuitState::Open ==> final(self).state == CircuitState::Open,
    {
        self.failure_count = self.failure_count + 1;
        self.last_failure_time_millis = Some(now_millis);
        match self.state {
            CircuitState::Closed => {
                if self.failure_count >= self.failure_threshold {
                    self.state = CircuitState::Open;
                }
            },
            CircuitState::HalfOpen => {
                self.state = CircuitState::Open;
            },
            _ => {},
        }
    }
}

} // verus!
