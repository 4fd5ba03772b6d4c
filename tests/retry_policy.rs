use aksver::errors::{is_retryable_error, AksError};
use aksver::retry::{RetryAction, RetryPolicy, MAX_RETRY_ATTEMPTS, RETRY_BASE_DELAY_MS, RETRY_JITTER_MS};

fn http(status: u16) -> AksError {
    AksError::AzureHttp { status, message: "m".to_string(), url: "u".to_string() }
}

#[test]
fn retryable_errors_are_transient_ones() {
    assert!(is_retryable_error(&http(429)));
    assert!(is_retryable_error(&http(500)));
    assert!(is_retryable_error(&http(503)));
    assert!(is_retryable_error(&http(599)));
    assert!(!is_retryable_error(&http(404)));
    assert!(!is_retryable_error(&http(401)));
    assert!(!is_retryable_error(&http(600)));
    assert!(is_retryable_error(&AksError::AzureClient { message: "request timeout".to_string() }));
    assert!(!is_retryable_error(&AksError::AzureClient { message: "connection refused".to_string() }));
    assert!(is_retryable_error(&AksError::CredentialUnavailable));
    assert!(!is_retryable_error(&AksError::Validation));
    assert!(!is_retryable_error(&AksError::Parse("x".to_string())));
}

#[test]
fn invalid_location_and_empty_input_are_not_retried() {
    for err in [
        AksError::Validation,
        AksError::InvalidLocation { location: "x".to_string(), details: "d".to_string() },
    ] {
        let mut p = RetryPolicy::standard();
        assert_eq!(p.on_failure(&err, 0), RetryAction::Finish);
        assert_eq!(p.retries_done, 0);
    }
}

#[test]
fn transient_errors_retried_up_to_max_with_growing_delays() {
    let mut p = RetryPolicy::standard();
    let mut delays = Vec::new();
    loop {
        let j = p.draw_jitter();
        assert!(j <= RETRY_JITTER_MS);
        match p.on_failure(&http(429), j) {
            RetryAction::Wait(d) => delays.push(d),
            RetryAction::Finish => break,
        }
    }
    assert_eq!(delays.len(), MAX_RETRY_ATTEMPTS as usize);
    for w in delays.windows(2) {
        assert!(w[0] < w[1]);
    }
}

#[test]
fn three_unavailable_then_success_waits_three_times() {
    let mut p = RetryPolicy::standard();
    let mut waits = Vec::new();
    let answers = [503u16, 503, 503, 200];
    let mut final_status = 0;
    for (n, status) in answers.iter().enumerate() {
        if *status == 200 {
            final_status = 200;
            break;
        }
        let jitter = (n as u64 * 7) % RETRY_JITTER_MS;
        match p.on_failure(&http(*status), jitter) {
            RetryAction::Wait(d) => {
                let base = RETRY_BASE_DELAY_MS << n;
                assert!(d >= base && d <= base + RETRY_JITTER_MS);
                waits.push(d);
            }
            RetryAction::Finish => panic!("gave up too early"),
        }
    }
    assert_eq!(final_status, 200);
    assert_eq!(waits.len(), 3);
    assert_eq!(waits, vec![50, 100 + 7, 200 + 14]);
}

#[test]
fn exhausted_retries_finish() {
    let mut p = RetryPolicy::new(10, 0, 2);
    assert_eq!(p.on_failure(&http(500), 0), RetryAction::Wait(10));
    assert_eq!(p.on_failure(&http(500), 0), RetryAction::Wait(20));
    assert_eq!(p.on_failure(&http(500), 0), RetryAction::Finish);
    assert_eq!(p.draw_jitter(), 0);
}
