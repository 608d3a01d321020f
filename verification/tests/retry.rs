use scraper_service::retry::{execute, RetryDecision, RetryPolicy, RetryState};
use scraper_service::ScraperError;

fn grpc(text: &str) -> Result<u32, ScraperError> {
    Err(ScraperError::Grpc(text.to_string()))
}

#[test]
fn backoff_doubles_and_the_fourth_failure_exhausts_three_retries() {
    let policy = RetryPolicy::new(3, 1000).unwrap();
    let report = execute(&policy, vec![grpc("a"), grpc("b"), grpc("c"), grpc("d")]);
    assert_eq!(report.delays, vec![1000, 2000, 4000]);
    assert!(matches!(
        report.result,
        Some(Err(ScraperError::GrpcConnectionFailed { retries: 3, ref message })) if message == "d"
    ));
}

#[test]
fn results_after_the_deciding_attempt_are_not_looked_at() {
    let policy = RetryPolicy::new(3, 1000).unwrap();
    let report = execute(&policy, vec![grpc("a"), grpc("b"), grpc("c"), grpc("d"), Ok(1)]);
    assert_eq!(report.delays, vec![1000, 2000, 4000]);
    assert!(matches!(report.result, Some(Err(ScraperError::GrpcConnectionFailed { .. }))));
}

#[test]
fn a_success_ends_the_retries() {
    let policy = RetryPolicy::forwarding();
    assert_eq!(policy.max_retries, 3);
    assert_eq!(policy.initial_backoff_ms, 1000);
    let report = execute(
        &policy,
        vec![
            Err(ScraperError::Timeout("slow".to_string())),
            Err(ScraperError::Navigation("lost".to_string())),
            Ok(7u32),
            grpc("never"),
        ],
    );
    assert_eq!(report.delays, vec![1000, 2000]);
    assert!(matches!(report.result, Some(Ok(7))));

    let report = execute(&policy, vec![Ok(1u32)]);
    assert!(report.delays.is_empty());
    assert!(matches!(report.result, Some(Ok(1))));
}

#[test]
fn an_error_beyond_cure_is_returned_at_once() {
    let policy = RetryPolicy::forwarding();
    let report = execute(
        &policy,
        vec![grpc("a"), Err(ScraperError::Login("bad password".to_string())), Ok(1)],
    );
    assert_eq!(report.delays, vec![1000]);
    assert!(matches!(report.result, Some(Err(ScraperError::Login(ref m))) if m == "bad password"));

    let report: scraper_service::retry::RetryReport<u32> =
        execute(&policy, vec![Err(ScraperError::NoUsageData("none".to_string()))]);
    assert!(report.delays.is_empty());
    assert!(matches!(report.result, Some(Err(ScraperError::NoUsageData(_)))));
}

#[test]
fn results_that_run_out_leave_the_execution_undecided() {
    let policy = RetryPolicy::forwarding();
    let report = execute(&policy, vec![grpc("a"), grpc("b")]);
    assert_eq!(report.delays, vec![1000, 2000]);
    assert!(report.result.is_none());
    let report: scraper_service::retry::RetryReport<u32> = execute(&policy, vec![]);
    assert!(report.delays.is_empty());
    assert!(report.result.is_none());
}

#[test]
fn without_retries_the_first_failure_is_the_last() {
    let policy = RetryPolicy::new(0, 1000).unwrap();
    let report = execute(&policy, vec![grpc("a"), Ok(1)]);
    assert!(report.delays.is_empty());
    assert!(matches!(
        report.result,
        Some(Err(ScraperError::GrpcConnectionFailed { retries: 0, ref message })) if message == "a"
    ));
}

#[test]
fn a_policy_whose_longest_delay_does_not_fit_is_refused() {
    assert!(RetryPolicy::new(63, 2).is_some());
    assert!(RetryPolicy::new(64, 2).is_none());
    assert!(RetryPolicy::new(1, u64::MAX).is_some());
    assert!(RetryPolicy::new(2, u64::MAX).is_none());
    assert!(RetryPolicy::new(0, u64::MAX).is_some());
    assert!(RetryPolicy::new(u32::MAX, 0).is_some());
    assert!(RetryPolicy::new(65, 1).is_none());
    assert!(RetryPolicy::new(64, 1).is_some());
}

#[test]
fn the_delay_before_each_retry() {
    let policy = RetryPolicy::new(5, 250).unwrap();
    assert_eq!(policy.backoff(0), 250);
    assert_eq!(policy.backoff(1), 500);
    assert_eq!(policy.backoff(2), 1000);
    assert_eq!(policy.backoff(4), 4000);
    let policy = RetryPolicy::new(64, 1).unwrap();
    assert_eq!(policy.backoff(63), 1u64 << 63);
    let policy = RetryPolicy::new(u32::MAX, 0).unwrap();
    assert_eq!(policy.backoff(1000), 0);
}

#[test]
fn an_execution_is_driven_failure_by_failure() {
    let policy = RetryPolicy::forwarding();
    let mut state = RetryState::new();
    assert_eq!(state.attempt, 0);
    assert_eq!(state.last_error, None);
    assert!(matches!(
        state.on_failure(&policy, ScraperError::Grpc("a".to_string())),
        RetryDecision::RetryAfter(1000)
    ));
    assert!(matches!(
        state.on_failure(&policy, ScraperError::BrowserInit("b".to_string())),
        RetryDecision::RetryAfter(2000)
    ));
    assert_eq!(state.attempt, 2);
    assert!(matches!(
        state.on_failure(&policy, ScraperError::Json("c".to_string())),
        RetryDecision::GiveUp(ScraperError::Json(_))
    ));
    assert_eq!(state.attempt, 2);
    assert!(matches!(
        state.on_failure(&policy, ScraperError::Timeout("d".to_string())),
        RetryDecision::RetryAfter(4000)
    ));
    assert!(matches!(
        state.on_failure(&policy, ScraperError::Timeout("e".to_string())),
        RetryDecision::GiveUp(ScraperError::GrpcConnectionFailed { retries: 3, ref message }) if message == "e"
    ));
    assert_eq!(state.attempt, 3);
    assert_eq!(state.last_error, Some("e".to_string()));
}
