use codex_retry::duration::Duration;
use codex_retry::error::TransportError;
use codex_retry::network_availability::{NetworkAvailability, NetworkAvailabilityWait};
use codex_retry::retry::{
    backoff, jittered_delay, run_with_retry, wrapping_backoff, Backoff, RetryAction, RetryEvent,
    RetryLoop, RetryOn, RetryPolicy,
};

fn retry_policy(base_delay: Duration) -> RetryPolicy {
    RetryPolicy {
        max_attempts: 1,
        base_delay,
        retry_on: RetryOn {
            retry_429: false,
            retry_5xx: false,
            retry_transport: true,
        },
    }
}

fn available_wait(waited: bool) -> NetworkAvailabilityWait {
    NetworkAvailabilityWait {
        availability: NetworkAvailability::Available,
        waited,
    }
}

fn http(status: u16) -> TransportError {
    TransportError::Http { status, body: None }
}

/// Runs a request whose attempts end as `op` says and whose waits all end with `wait`. Gives
/// back what the request returned and every action before that.
fn run<T>(
    policy: RetryPolicy,
    mut op: impl FnMut(u64) -> Result<T, TransportError>,
    wait: NetworkAvailabilityWait,
) -> (Result<T, TransportError>, Vec<RetryAction<T>>) {
    let (mut request, mut action): (RetryLoop, RetryAction<T>) = run_with_retry(policy);
    let mut actions: Vec<RetryAction<T>> = Vec::new();
    loop {
        let event = match &action {
            RetryAction::Attempt(attempt) => RetryEvent::AttemptEnded(op(*attempt)),
            RetryAction::WaitForNetwork => RetryEvent::NetworkWaited(wait),
            RetryAction::SleepBackoff { .. } => RetryEvent::Slept,
            RetryAction::Return(_) => break,
        };
        actions.push(action);
        action = request.step(event);
    }
    match action {
        RetryAction::Return(result) => (result, actions),
        _ => panic!("the loop ends with a result"),
    }
}

#[test]
fn retry_waits_for_network_before_next_attempt() {
    let (mut request, action): (RetryLoop, RetryAction<&str>) =
        run_with_retry(retry_policy(Duration::zero()));
    let mut attempts: usize = 0;

    assert_eq!(action, RetryAction::Attempt(0));
    attempts += 1;
    let action = request.step::<&str>(RetryEvent::AttemptEnded(Err(TransportError::Network(
        "offline".to_string(),
    ))));
    assert_eq!(action, RetryAction::WaitForNetwork);
    assert_eq!(attempts, 1);

    let action = request.step::<&str>(RetryEvent::NetworkWaited(available_wait(/*waited*/ true)));
    assert_eq!(action, RetryAction::SleepBackoff { base: Duration::zero(), attempt: 1 });
    let action = request.step::<&str>(RetryEvent::Slept);
    assert_eq!(action, RetryAction::Attempt(1));
    attempts += 1;
    let action = request.step(RetryEvent::AttemptEnded(Ok("ok")));
    assert_eq!(action, RetryAction::Return(Ok("ok")));
    assert_eq!(attempts, 2);
}

#[test]
fn retry_treats_unknown_network_availability_as_non_blocking() {
    let mut attempts: usize = 0;
    let (result, _) = run(
        retry_policy(Duration::zero()),
        |_| {
            attempts += 1;
            if attempts == 1 {
                Err(TransportError::Network("offline".to_string()))
            } else {
                Ok("ok")
            }
        },
        NetworkAvailabilityWait {
            availability: NetworkAvailability::Unknown,
            waited: false,
        },
    );

    assert_eq!(result.expect("retry should succeed"), "ok");
    assert_eq!(attempts, 2);
}

#[test]
fn retry_applies_backoff_after_network_returns() {
    let mut attempts: usize = 0;
    let (result, actions) = run(
        retry_policy(Duration::from_millis(40)),
        |_| {
            attempts += 1;
            if attempts == 1 {
                Err(TransportError::Timeout)
            } else {
                Ok("ok")
            }
        },
        available_wait(/*waited*/ true),
    );

    assert_eq!(
        actions,
        vec![
            RetryAction::Attempt(0),
            RetryAction::WaitForNetwork,
            RetryAction::SleepBackoff { base: Duration::from_millis(40), attempt: 1 },
            RetryAction::Attempt(1),
        ]
    );
    assert_eq!(
        backoff(Duration::from_millis(40), 1),
        Backoff::Jittered { nominal_millis: 40 }
    );
    assert_eq!(result.expect("retry should succeed"), "ok");
    assert_eq!(attempts, 2);
}

#[test]
fn last_failure_is_returned_when_the_attempts_are_used_up() {
    let mut policy = retry_policy(Duration::from_millis(40));
    policy.max_attempts = 2;
    let (result, actions) = run::<()>(
        policy,
        |attempt| Err(TransportError::Network(format!("offline {attempt}"))),
        available_wait(/*waited*/ false),
    );
    assert_eq!(result, Err(TransportError::Network("offline 2".to_string())));
    assert_eq!(
        actions,
        vec![
            RetryAction::Attempt(0),
            RetryAction::WaitForNetwork,
            RetryAction::SleepBackoff { base: Duration::from_millis(40), attempt: 1 },
            RetryAction::Attempt(1),
            RetryAction::WaitForNetwork,
            RetryAction::SleepBackoff { base: Duration::from_millis(40), attempt: 2 },
            RetryAction::Attempt(2),
        ]
    );
}

#[test]
fn failure_that_is_not_covered_is_returned_at_once() {
    let (result, actions) = run::<()>(
        retry_policy(Duration::zero()),
        |_| Err(http(500)),
        available_wait(/*waited*/ false),
    );
    assert_eq!(result, Err(http(500)));
    assert_eq!(actions, vec![RetryAction::Attempt(0)]);
}

#[test]
fn no_retry_without_attempts_left() {
    let mut policy = retry_policy(Duration::zero());
    policy.max_attempts = 0;
    let (result, actions) =
        run::<()>(policy, |_| Err(TransportError::Timeout), available_wait(/*waited*/ false));
    assert_eq!(result, Err(TransportError::Timeout));
    assert_eq!(actions.len(), 1);
}

#[test]
fn should_retry_goes_by_status() {
    let both = RetryOn { retry_429: true, retry_5xx: true, retry_transport: false };
    let neither = RetryOn { retry_429: false, retry_5xx: false, retry_transport: true };
    for status in [429, 500, 503, 599] {
        assert!(both.should_retry(&http(status), 0, 1));
        assert!(!neither.should_retry(&http(status), 0, 1));
    }
    for status in [400, 428, 430, 499, 600] {
        assert!(!both.should_retry(&http(status), 0, 1));
    }
    let only_429 = RetryOn { retry_429: true, retry_5xx: false, retry_transport: false };
    assert!(only_429.should_retry(&http(429), 0, 1));
    assert!(!only_429.should_retry(&http(500), 0, 1));
    let only_5xx = RetryOn { retry_429: false, retry_5xx: true, retry_transport: false };
    assert!(!only_5xx.should_retry(&http(429), 0, 1));
    assert!(only_5xx.should_retry(&http(500), 0, 1));
}

#[test]
fn should_retry_goes_by_kind_of_failure() {
    let transport = RetryOn { retry_429: false, retry_5xx: false, retry_transport: true };
    assert!(transport.should_retry(&TransportError::Timeout, 0, 1));
    assert!(transport.should_retry(&TransportError::Network("offline".to_string()), 0, 1));
    assert!(!transport.should_retry(&TransportError::RetryLimit, 0, 1));
    assert!(!transport.should_retry(&TransportError::Build("no url".to_string()), 0, 1));
    let none = RetryOn { retry_429: true, retry_5xx: true, retry_transport: false };
    assert!(!none.should_retry(&TransportError::Timeout, 0, 1));
    assert!(!none.should_retry(&TransportError::Network("offline".to_string()), 0, 1));
}

#[test]
fn should_retry_stops_at_the_limit() {
    let transport = RetryOn { retry_429: false, retry_5xx: false, retry_transport: true };
    assert!(transport.should_retry(&TransportError::Timeout, 2, 3));
    assert!(!transport.should_retry(&TransportError::Timeout, 3, 3));
    assert!(!transport.should_retry(&TransportError::Timeout, 4, 3));
    assert!(!transport.should_retry(&TransportError::Timeout, 0, 0));
}

#[test]
fn backoff_of_no_retry_is_the_base_delay() {
    assert_eq!(
        backoff(Duration::from_millis(40), 0),
        Backoff::Exact(Duration::from_millis(40))
    );
}

#[test]
fn backoff_doubles_from_retry_to_retry() {
    let base = Duration::from_millis(200);
    for (attempt, nominal_millis) in [(1, 200), (2, 400), (3, 800), (10, 102_400)] {
        assert_eq!(backoff(base, attempt), Backoff::Jittered { nominal_millis });
    }
}

#[test]
fn backoff_counts_whole_milliseconds_only() {
    assert_eq!(
        backoff(Duration::new(1, 999_999), 2),
        Backoff::Jittered { nominal_millis: 2_000 }
    );
    assert_eq!(backoff(Duration::new(0, 999_999), 9), Backoff::Jittered { nominal_millis: 0 });
}

#[test]
fn backoff_saturates() {
    let base = Duration::from_millis(1);
    assert_eq!(backoff(base, 64), Backoff::Jittered { nominal_millis: 1 << 63 });
    assert_eq!(backoff(base, 65), Backoff::Jittered { nominal_millis: u64::MAX });
    assert_eq!(backoff(base, 1_000_000), Backoff::Jittered { nominal_millis: u64::MAX });
    assert_eq!(
        backoff(Duration::from_millis(3), 64),
        Backoff::Jittered { nominal_millis: u64::MAX }
    );
    assert_eq!(backoff(Duration::zero(), 65), Backoff::Jittered { nominal_millis: 0 });
}

#[test]
fn backoff_takes_the_lower_half_of_the_attempt_number() {
    let base = Duration::from_millis(7);
    assert_eq!(backoff(base, 0x1_0000_0002), Backoff::Jittered { nominal_millis: 14 });
}

#[test]
fn backoff_takes_the_lower_bits_of_a_very_long_base_delay() {
    // 2^64 milliseconds are 18_446_744_073_709_551 seconds and 616 milliseconds.
    let base = Duration::new(18_446_744_073_709_551, 621_000_000);
    assert_eq!(backoff(base, 1), Backoff::Jittered { nominal_millis: 5 });
}

#[test]
fn jittered_delay_is_in_milliseconds() {
    assert_eq!(jittered_delay(1_234), Duration::new(1, 234_000_000));
}

#[test]
fn wrapping_backoff_is_saturated_where_the_count_wraps() {
    let base = Duration::from_millis(7);
    assert_eq!(
        wrapping_backoff(base, 0x1_0000_0000),
        Backoff::Jittered { nominal_millis: u64::MAX }
    );
    assert_eq!(
        wrapping_backoff(Duration::zero(), 0x1_0000_0000),
        Backoff::Jittered { nominal_millis: 0 }
    );
    assert_eq!(wrapping_backoff(base, 0), Backoff::Exact(base));
    assert_eq!(wrapping_backoff(base, 3), backoff(base, 3));
    assert_eq!(wrapping_backoff(base, 0x1_0000_0002), backoff(base, 2));
}

#[test]
fn jitter_keeps_the_order_of_two_retries() {
    for base_millis in [0, 1, 2, 3, 40, 1_000_003] {
        let base = Duration::from_millis(base_millis);
        for attempt in 1..40 {
            let (earlier, later) = match (backoff(base, attempt), backoff(base, attempt + 1)) {
                (
                    Backoff::Jittered { nominal_millis: earlier },
                    Backoff::Jittered { nominal_millis: later },
                ) => (earlier, later),
                _ => panic!("a retry is jittered"),
            };
            let longest_earlier = (earlier as f64 * 1.1) as u64;
            let shortest_later = (later as f64 * 0.9) as u64;
            assert!(longest_earlier <= shortest_later);
        }
    }
}
