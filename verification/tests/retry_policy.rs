use d365_odata::error::ODataError;
use d365_odata::retry::{
    classify, retry_after_seconds, Failure, Pause, RetryPolicy, StatusClass, Decision,
};

#[test]
fn statuses_are_classified() {
    assert_eq!(classify(200), StatusClass::Success);
    assert_eq!(classify(201), StatusClass::Success);
    assert_eq!(classify(204), StatusClass::Success);
    assert_eq!(classify(202), StatusClass::Other);
    assert_eq!(classify(429), StatusClass::RateLimited);
    assert_eq!(classify(404), StatusClass::NotFound);
    assert_eq!(classify(500), StatusClass::ServerFault);
    assert_eq!(classify(503), StatusClass::ServerFault);
    assert_eq!(classify(599), StatusClass::ServerFault);
    assert_eq!(classify(600), StatusClass::Other);
    assert_eq!(classify(400), StatusClass::Other);
    assert_eq!(classify(401), StatusClass::Other);
    assert_eq!(classify(302), StatusClass::Other);
}

#[test]
fn rate_limit_then_success_is_one_retry() {
    let policy = RetryPolicy { max_retries: 3, retry_delay_ms: 1000 };
    let mut state = policy.start();
    assert_eq!(state.attempt, 0);
    assert_eq!(state.delay_ms, 1000);
    let first = state.on_response(&policy, 429, Some("2"));
    assert_eq!(first, Decision::Retry(Pause::Seconds(2)));
    assert_eq!(state.attempt, 1);
    assert_eq!(state.delay_ms, 2000);
    let second = state.on_response(&policy, 200, None);
    assert_eq!(second, Decision::Success);
    assert_eq!(state.attempt, 2);
    assert_eq!(state.delay_ms, 2000);
}

#[test]
fn rate_limit_without_header_waits_the_delay_in_seconds() {
    let policy = RetryPolicy { max_retries: 5, retry_delay_ms: 2500 };
    let mut state = policy.start();
    assert_eq!(state.on_response(&policy, 429, None), Decision::Retry(Pause::Seconds(2)));
    assert_eq!(state.on_response(&policy, 429, Some("soon")), Decision::Retry(Pause::Seconds(5)));
    assert_eq!(state.on_response(&policy, 429, Some("")), Decision::Retry(Pause::Seconds(10)));
    assert_eq!(state.delay_ms, 20000);
}

#[test]
fn rate_limit_exhausted_reports_the_wait() {
    let policy = RetryPolicy { max_retries: 2, retry_delay_ms: 1000 };
    let mut state = policy.start();
    assert_eq!(state.on_response(&policy, 429, Some("7")), Decision::Retry(Pause::Seconds(7)));
    let last = state.on_response(&policy, 429, Some("9"));
    assert_eq!(last, Decision::Fail(Failure::RateLimited(9)));
    assert_eq!(state.delay_ms, 2000);
    match last {
        Decision::Fail(failure) => {
            assert!(!failure.wants_body());
            assert!(matches!(failure.into_error(String::new()), ODataError::RateLimited(9)));
        }
        other => panic!("unexpected decision: {:?}", other),
    }
}

#[test]
fn server_errors_back_off_exponentially() {
    let policy = RetryPolicy { max_retries: 4, retry_delay_ms: 100 };
    let mut state = policy.start();
    assert_eq!(state.on_response(&policy, 500, None), Decision::Retry(Pause::Millis(100)));
    assert_eq!(state.on_response(&policy, 502, None), Decision::Retry(Pause::Millis(200)));
    assert_eq!(state.on_response(&policy, 503, None), Decision::Retry(Pause::Millis(400)));
    let last = state.on_response(&policy, 503, None);
    assert_eq!(last, Decision::Fail(Failure::ServerError(503)));
    assert_eq!(state.attempt, 4);
    match last {
        Decision::Fail(failure) => {
            assert!(failure.wants_body());
            match failure.into_error("down".to_string()) {
                ODataError::ServerError(status, body) => {
                    assert_eq!(status, 503);
                    assert_eq!(body, "down");
                }
                other => panic!("unexpected error: {:?}", other),
            }
        }
        other => panic!("unexpected decision: {:?}", other),
    }
}

#[test]
fn not_found_is_never_retried() {
    let policy = RetryPolicy { max_retries: 10, retry_delay_ms: 100 };
    let mut state = policy.start();
    let decision = state.on_response(&policy, 404, None);
    assert_eq!(decision, Decision::Fail(Failure::NotFound));
    assert_eq!(state.delay_ms, 100);
    match Failure::NotFound.into_error("no such entity".to_string()) {
        ODataError::NotFound(body) => assert_eq!(body, "no such entity"),
        other => panic!("unexpected error: {:?}", other),
    }
}

#[test]
fn other_client_errors_fail_at_once() {
    let policy = RetryPolicy { max_retries: 10, retry_delay_ms: 100 };
    let mut state = policy.start();
    assert_eq!(state.on_response(&policy, 400, None), Decision::Fail(Failure::ServerError(400)));
    let mut state = policy.start();
    assert_eq!(state.on_response(&policy, 401, Some("3")), Decision::Fail(Failure::ServerError(401)));
    let mut state = policy.start();
    assert_eq!(state.on_response(&policy, 202, None), Decision::Fail(Failure::ServerError(202)));
}

#[test]
fn a_budget_of_zero_still_makes_one_attempt() {
    let policy = RetryPolicy { max_retries: 0, retry_delay_ms: 3000 };
    let mut state = policy.start();
    assert_eq!(state.on_response(&policy, 429, None), Decision::Fail(Failure::RateLimited(3)));
    let mut state = policy.start();
    assert_eq!(state.on_response(&policy, 500, None), Decision::Fail(Failure::ServerError(500)));
    let mut state = policy.start();
    assert_eq!(state.on_response(&policy, 204, None), Decision::Success);
}

#[test]
fn retry_after_header_is_an_unsigned_decimal() {
    assert_eq!(retry_after_seconds(Some("2"), 9000), 2);
    assert_eq!(retry_after_seconds(Some("+15"), 9000), 15);
    assert_eq!(retry_after_seconds(Some("007"), 9000), 7);
    assert_eq!(retry_after_seconds(Some("18446744073709551615"), 9000), u64::MAX);
    assert_eq!(retry_after_seconds(Some("18446744073709551616"), 9000), 9);
    assert_eq!(retry_after_seconds(Some("-1"), 9000), 9);
    assert_eq!(retry_after_seconds(Some(" 2"), 9000), 9);
    assert_eq!(retry_after_seconds(Some("2s"), 9000), 9);
    assert_eq!(retry_after_seconds(Some("+"), 9000), 9);
    assert_eq!(retry_after_seconds(Some("Wed, 21 Oct 2015 07:28:00 GMT"), 999), 0);
    assert_eq!(retry_after_seconds(None, 1999), 1);
}
