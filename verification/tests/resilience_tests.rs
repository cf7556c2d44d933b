use opensearch_sdk_rs::error::ExtensionError;
use opensearch_sdk_rs::resilience::{
    CircuitBreaker, CircuitState, RetryDecision, RetryPolicy, RetryState,
};

fn test_policy() -> RetryPolicy {
    RetryPolicy {
        max_attempts: 3,
        initial_delay_millis: 10,
        max_delay_millis: 1000,
        exponential_base: 2,
        jitter: false,
    }
}

// Drives the retry machine over a scripted operation: each entry is one
// attempt's outcome. Reports the successful attempt count, or the wrapped
// give-up error.
fn run_retry(policy: &RetryPolicy, outcomes: &[bool]) -> Result<u32, ExtensionError> {
    let mut state = RetryState::start(policy);
    let mut invocations: u32 = 0;
    loop {
        state.begin_attempt();
        invocations += 1;
        let ok = outcomes[(invocations - 1) as usize];
        if ok {
            return Ok(invocations);
        }
        match state.on_failure(policy, &ExtensionError::unknown("temporary failure")) {
            RetryDecision::Backoff { .. } => {}
            RetryDecision::GiveUp(e) => return Err(e),
        }
    }
}

#[test]
fn test_retry_success() {
    // fails twice, then succeeds: the success is returned on the third
    // invocation, exactly
    let result = run_retry(&test_policy(), &[false, false, true]);
    assert_eq!(result.unwrap(), 3);
}

#[test]
fn test_retry_exhaustion_wraps_the_last_error() {
    let result = run_retry(&test_policy(), &[false, false, false]);
    let err = result.unwrap_err();
    assert_eq!(
        err.message(),
        "Unknown error: Operation failed after 3 attempts: Unknown error: temporary failure"
    );
}

#[test]
fn test_backoff_doubles_and_caps() {
    let policy = RetryPolicy {
        max_attempts: 10,
        initial_delay_millis: 10,
        max_delay_millis: 50,
        exponential_base: 2,
        jitter: false,
    };
    let mut state = RetryState::start(&policy);
    let boom = ExtensionError::unknown("boom");
    let mut slept = Vec::new();
    for _ in 0..4 {
        state.begin_attempt();
        match state.on_failure(&policy, &boom) {
            RetryDecision::Backoff { base_delay_millis, apply_jitter } => {
                assert!(!apply_jitter);
                slept.push(base_delay_millis);
            }
            RetryDecision::GiveUp(_) => panic!("gave up too early"),
        }
    }
    // slept delays are the un-jittered tracked delays, capped at the max
    assert_eq!(slept, vec![10, 20, 40, 50]);
}

#[test]
fn test_default_retry_policy() {
    let policy = RetryPolicy::default();
    assert_eq!(policy.max_attempts, 3);
    assert_eq!(policy.initial_delay_millis, 100);
    assert_eq!(policy.max_delay_millis, 30000);
    assert_eq!(policy.exponential_base, 2);
    assert!(policy.jitter);
}

#[test]
fn test_circuit_breaker() {
    let mut cb = CircuitBreaker::new(2, 2, 100);

    assert_eq!(cb.get_state(), CircuitState::Closed);

    // two consecutive failing calls open the breaker
    cb.before_call(0).unwrap();
    cb.on_failure(0);
    cb.before_call(5).unwrap();
    cb.on_failure(5);
    assert_eq!(cb.get_state(), CircuitState::Open);

    // before the timeout has elapsed a call is rejected without running
    let err = cb.before_call(50).unwrap_err();
    assert_eq!(err.message(), "Unknown error: Circuit breaker is open");
    assert_eq!(cb.get_state(), CircuitState::Open);

    // once the timeout has elapsed the next call is permitted half-open
    cb.before_call(150).unwrap();
    assert_eq!(cb.get_state(), CircuitState::HalfOpen);

    // two consecutive successes close it again
    cb.on_success();
    assert_eq!(cb.get_state(), CircuitState::HalfOpen);
    cb.before_call(151).unwrap();
    cb.on_success();
    assert_eq!(cb.get_state(), CircuitState::Closed);
}

#[test]
fn test_half_open_failure_reopens() {
    let mut cb = CircuitBreaker::new(1, 1, 100);
    cb.before_call(0).unwrap();
    cb.on_failure(0);
    assert_eq!(cb.get_state(), CircuitState::Open);
    cb.before_call(200).unwrap();
    assert_eq!(cb.get_state(), CircuitState::HalfOpen);
    cb.on_failure(201);
    assert_eq!(cb.get_state(), CircuitState::Open);
}

#[test]
fn test_closed_success_resets_failures() {
    let mut cb = CircuitBreaker::new(2, 1, 100);
    cb.before_call(0).unwrap();
    cb.on_failure(0);
    assert_eq!(cb.get_state(), CircuitState::Closed);
    cb.before_call(1).unwrap();
    cb.on_success();
    assert_eq!(cb.failure_count, 0);
    // the counter starts over: one more failure does not open it
    cb.before_call(2).unwrap();
    cb.on_failure(2);
    assert_eq!(cb.get_state(), CircuitState::Closed);
}
