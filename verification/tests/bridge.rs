use scraper_service::bridge::{
    read_rendezvous, status_result, AsyncBridge, BridgeStatus, Rendezvous,
};
use scraper_service::ScraperError;

fn answered(arguments: &[&str]) -> Rendezvous {
    Rendezvous {
        completed: true,
        result: Some(arguments.iter().map(|a| a.to_string()).collect()),
        error: None,
    }
}

fn failed(text: &str) -> Rendezvous {
    Rendezvous { completed: true, result: None, error: Some(text.to_string()) }
}

fn silent() -> Rendezvous {
    Rendezvous { completed: false, result: None, error: None }
}

#[test]
fn an_answer_before_the_deadline_is_handed_out_once() {
    let mut bridge = AsyncBridge::new();
    let token = bridge.open(0, 1000);
    assert!(bridge.is_in_flight(token));
    assert!(matches!(bridge.poll(token, 100), BridgeStatus::Pending));
    bridge.deliver(token, silent(), 200);
    assert!(matches!(bridge.poll(token, 300), BridgeStatus::Pending));
    bridge.deliver(token, answered(&["[{\"a\":1}]"]), 500);
    match bridge.poll(token, 600) {
        BridgeStatus::Resolved(arguments) => assert_eq!(arguments, vec!["[{\"a\":1}]".to_string()]),
        other => panic!("{:?}", other),
    }
    assert!(matches!(bridge.poll(token, 700), BridgeStatus::Unknown));
    assert!(!bridge.is_in_flight(token));
}

#[test]
fn an_answer_is_handed_out_even_if_it_is_asked_for_late() {
    let mut bridge = AsyncBridge::new();
    let token = bridge.open(0, 1000);
    bridge.deliver(token, answered(&["1"]), 999);
    assert!(matches!(bridge.poll(token, 5000), BridgeStatus::Resolved(_)));
}

#[test]
fn a_late_answer_times_out_and_reaches_no_other_call() {
    let mut bridge = AsyncBridge::new();
    let first = bridge.open(0, 1000);
    assert_eq!(first, 0);
    assert!(matches!(bridge.poll(first, 999), BridgeStatus::Pending));
    assert!(matches!(bridge.poll(first, 1000), BridgeStatus::TimedOut));

    let second = bridge.open(1200, 1000);
    assert_eq!(second, 1);
    bridge.deliver(first, answered(&["\"late\""]), 1500);
    assert!(matches!(bridge.poll(first, 1500), BridgeStatus::Unknown));
    assert!(matches!(bridge.poll(second, 1500), BridgeStatus::Pending));

    bridge.deliver(second, answered(&["\"mine\""]), 1600);
    match bridge.poll(second, 1700) {
        BridgeStatus::Resolved(arguments) => assert_eq!(arguments, vec!["\"mine\"".to_string()]),
        other => panic!("{:?}", other),
    }
}

#[test]
fn an_answer_at_the_deadline_is_taken_in_and_one_after_it_is_not() {
    let mut bridge = AsyncBridge::new();
    let token = bridge.open(100, 1000);
    bridge.deliver(token, answered(&["1"]), 1100);
    assert!(matches!(bridge.poll(token, 1100), BridgeStatus::Resolved(_)));

    let token = bridge.open(100, 1000);
    bridge.deliver(token, answered(&["1"]), 1101);
    assert!(matches!(bridge.poll(token, 1101), BridgeStatus::TimedOut));

    let token = bridge.open(100, 1000);
    bridge.deliver(token, silent(), 1100);
    assert!(matches!(bridge.poll(token, 1100), BridgeStatus::TimedOut));
}

#[test]
fn calls_in_flight_do_not_touch_each_other() {
    let mut bridge = AsyncBridge::new();
    let a = bridge.open(0, 1000);
    let b = bridge.open(0, 2000);
    assert_ne!(a, b);
    bridge.deliver(a, failed("boom"), 10);
    assert!(matches!(bridge.poll(b, 20), BridgeStatus::Pending));
    match bridge.poll(a, 20) {
        BridgeStatus::Failed(text) => assert_eq!(text, "boom"),
        other => panic!("{:?}", other),
    }
    assert!(bridge.is_in_flight(b));
    assert!(matches!(bridge.poll(b, 1999), BridgeStatus::Pending));
    assert!(matches!(bridge.poll(b, 2000), BridgeStatus::TimedOut));
}

#[test]
fn a_record_is_written_once() {
    let mut bridge = AsyncBridge::new();
    let token = bridge.open(0, 1000);
    bridge.deliver(token, answered(&["1", "2", "3", "4", "5"]), 10);
    bridge.deliver(token, failed("too late"), 20);
    match bridge.poll(token, 30) {
        BridgeStatus::Resolved(arguments) => assert_eq!(arguments.len(), 5),
        other => panic!("{:?}", other),
    }
}

#[test]
fn the_failure_text_goes_before_the_result() {
    let mut bridge = AsyncBridge::new();
    let token = bridge.open(0, 1000);
    let both = Rendezvous {
        completed: true,
        result: Some(vec!["1".to_string()]),
        error: Some("bad".to_string()),
    };
    bridge.deliver(token, both, 10);
    assert!(matches!(bridge.poll(token, 30), BridgeStatus::Failed(ref text) if text == "bad"));
}

#[test]
fn a_callback_without_arguments_resolves_with_none() {
    let mut bridge = AsyncBridge::new();
    let token = bridge.open(0, 1000);
    bridge.deliver(token, Rendezvous { completed: true, result: None, error: None }, 10);
    match bridge.poll(token, 30) {
        BridgeStatus::Resolved(arguments) => assert!(arguments.is_empty()),
        other => panic!("{:?}", other),
    }
}

#[test]
fn unknown_tokens_are_passed_over() {
    let mut bridge = AsyncBridge::new();
    bridge.deliver(7, answered(&["1"]), 0);
    assert!(matches!(bridge.poll(7, 0), BridgeStatus::Unknown));
    assert!(!bridge.is_in_flight(7));
    assert_eq!(bridge.open(0, 10), 0);
}

#[test]
fn a_deadline_beyond_the_clock_is_the_end_of_the_clock() {
    let mut bridge = AsyncBridge::new();
    let token = bridge.open(u64::MAX - 5, 10);
    assert!(matches!(bridge.poll(token, u64::MAX - 1), BridgeStatus::Pending));
    assert!(matches!(bridge.poll(token, u64::MAX), BridgeStatus::TimedOut));
}

#[test]
fn a_finished_call_as_a_result() {
    assert!(status_result(BridgeStatus::Pending).is_none());
    assert!(status_result(BridgeStatus::Unknown).is_none());
    assert!(matches!(
        status_result(BridgeStatus::Resolved(vec!["1".to_string()])),
        Some(Ok(ref arguments)) if arguments.len() == 1
    ));
    assert!(matches!(
        status_result(BridgeStatus::Failed("boom".to_string())),
        Some(Err(ScraperError::JavaScript(ref text))) if text == "boom"
    ));
    assert!(matches!(
        status_result(BridgeStatus::TimedOut),
        Some(Err(ScraperError::Timeout(ref text))) if text == "remote call timed out"
    ));
}

fn seen(completed: bool, result: Option<&str>, error: Option<&str>) -> Rendezvous {
    Rendezvous {
        completed,
        result: result.map(|r| vec![r.to_string()]),
        error: error.map(|e| e.to_string()),
    }
}

fn bridged_call(seen: Vec<Rendezvous>, timeout_ms: u64, poll_interval_ms: u64) -> BridgeStatus {
    let mut bridge = AsyncBridge::new();
    let status = bridge.await_call(0, timeout_ms, poll_interval_ms, seen);
    assert!(!bridge.is_in_flight(0));
    assert_eq!(bridge.calls.len(), 1);
    status
}

#[test]
fn a_call_over_known_evaluations() {
    // Evaluations are made at 500, 1000, 1500, ... ms; the deadline is 60000 ms.
    let status = bridged_call(vec![silent(), silent(), seen(true, Some("[1]"), None), failed("x")], 60000, 500);
    assert!(matches!(status, BridgeStatus::Resolved(ref a) if a == &vec!["[1]".to_string()]));

    let status = bridged_call(vec![silent(), failed("boom")], 60000, 500);
    assert!(matches!(status, BridgeStatus::Failed(ref text) if text == "boom"));

    let status = bridged_call(vec![silent(), silent()], 60000, 500);
    assert!(matches!(status, BridgeStatus::Pending));
    assert!(matches!(bridged_call(vec![], 60000, 500), BridgeStatus::Pending));

    // The second evaluation is made at 1000 ms: with a deadline of 1000 ms it
    // is the last that is taken in, with one of 999 ms it is too late.
    let status = bridged_call(vec![silent(), seen(true, Some("[1]"), None)], 1000, 500);
    assert!(matches!(status, BridgeStatus::Resolved(_)));
    let status = bridged_call(vec![silent(), seen(true, Some("[1]"), None)], 999, 500);
    assert!(matches!(status, BridgeStatus::TimedOut));
    let status = bridged_call(vec![silent(), silent(), seen(true, Some("[1]"), None)], 1000, 500);
    assert!(matches!(status, BridgeStatus::TimedOut));
    let status = bridged_call(vec![silent(), silent(), silent()], 1000, 500);
    assert!(matches!(status, BridgeStatus::TimedOut));
    let status = bridged_call(vec![seen(true, Some("[1]"), None)], 0, 500);
    assert!(matches!(status, BridgeStatus::TimedOut));
    let status = bridged_call(vec![silent(), silent()], u64::MAX, u64::MAX);
    assert!(matches!(status, BridgeStatus::TimedOut));
    let status = bridged_call(vec![seen(true, None, None)], 10, 0);
    assert!(matches!(status, BridgeStatus::Resolved(ref a) if a.is_empty()));
}

#[test]
fn the_sixty_second_call_of_the_notifications() {
    // 120 evaluations, 500 ms apart: the last one is made at the deadline,
    // and what it sees still counts.
    let mut evaluations: Vec<Rendezvous> = (0..119).map(|_| silent()).collect();
    evaluations.push(seen(true, Some("[]"), None));
    assert!(matches!(bridged_call(evaluations, 60000, 500), BridgeStatus::Resolved(_)));
    let mut evaluations: Vec<Rendezvous> = (0..120).map(|_| silent()).collect();
    evaluations.push(seen(true, Some("[]"), None));
    assert!(matches!(bridged_call(evaluations, 60000, 500), BridgeStatus::TimedOut));
    let evaluations: Vec<Rendezvous> = (0..119).map(|_| silent()).collect();
    assert!(matches!(bridged_call(evaluations, 60000, 500), BridgeStatus::Pending));
}

#[test]
fn a_late_answer_to_one_call_is_never_the_answer_to_the_next() {
    let mut bridge = AsyncBridge::new();
    // Call A is made at 0 and nobody answers within its 1000 ms.
    let a = bridge.await_call(0, 1000, 500, vec![silent(), silent()]);
    assert!(matches!(a, BridgeStatus::TimedOut));
    // A's callback fires while call B, made at 2000, is polling.
    bridge.deliver(0, answered(&["\"PA\""]), 2100);
    assert!(matches!(bridge.poll(0, 2100), BridgeStatus::Unknown));
    let b = bridge.await_call(2000, 1000, 500, vec![answered(&["\"PB\""])]);
    assert!(matches!(b, BridgeStatus::Resolved(ref args) if args == &vec!["\"PB\"".to_string()]));
    bridge.deliver(0, answered(&["\"PA\""]), 2600);
    // Call C is never answered, whatever comes for A and B.
    let first = bridge.open(3000, 1000);
    assert_eq!(first, 2);
    bridge.deliver(0, answered(&["\"PA\""]), 3100);
    bridge.deliver(1, answered(&["\"PB\""]), 3100);
    assert!(matches!(bridge.poll(first, 3100), BridgeStatus::Pending));
    assert!(matches!(bridge.poll(first, 4000), BridgeStatus::TimedOut));
}

#[test]
fn a_call_is_made_on_the_clock_of_the_bridge() {
    let mut bridge = AsyncBridge::new();
    let status = bridge.await_call(10_000, 999, 500, vec![silent(), answered(&["1"])]);
    assert!(matches!(status, BridgeStatus::TimedOut));
    let status = bridge.await_call(10_000, 1000, 500, vec![silent(), answered(&["1"])]);
    assert!(matches!(status, BridgeStatus::Resolved(_)));
    let status = bridge.await_call(u64::MAX - 100, 1000, 500, vec![silent(), answered(&["1"])]);
    assert!(matches!(status, BridgeStatus::TimedOut));
    let status = bridge.await_call(5, 1000, 500, vec![silent()]);
    assert!(matches!(status, BridgeStatus::Pending));
    assert_eq!(bridge.calls.len(), 4);
    assert!((0..4).all(|t| !bridge.is_in_flight(t)));
}

#[test]
fn a_call_that_is_given_up_takes_nothing_in() {
    let mut bridge = AsyncBridge::new();
    let a = bridge.open(0, 1000);
    let b = bridge.open(0, 1000);
    bridge.abandon(a);
    bridge.abandon(7);
    assert!(!bridge.is_in_flight(a));
    assert!(bridge.is_in_flight(b));
    bridge.deliver(a, answered(&["1"]), 10);
    assert!(matches!(bridge.poll(a, 10), BridgeStatus::Unknown));
    assert!(matches!(bridge.poll(b, 10), BridgeStatus::Pending));
}

#[test]
fn what_the_text_of_a_slot_says() {
    let seen = read_rendezvous(r#"{"completed":false,"result":null,"error":null}"#);
    assert!(!seen.completed);
    assert_eq!(seen.result, None);
    assert_eq!(seen.error, None);

    let seen = read_rendezvous(r#"{"completed":true,"result":[["2","[]"], 5, {"a":1}],"error":null}"#);
    assert!(seen.completed);
    assert_eq!(
        seen.result,
        Some(vec![r#"["2","[]"]"#.to_string(), "5".to_string(), r#"{"a":1}"#.to_string()])
    );
    assert_eq!(seen.error, None);

    let seen = read_rendezvous(r#"{"completed":true,"result":null,"error":"boom"}"#);
    assert!(seen.completed);
    assert_eq!(seen.result, None);
    assert_eq!(seen.error, Some("boom".to_string()));

    let seen = read_rendezvous(r#"{"completed":true,"result":[],"error":""}"#);
    assert!(seen.completed);
    assert_eq!(seen.result, Some(vec![]));
    assert_eq!(seen.error, None);

    let seen = read_rendezvous(r#"{"completed":"yes","result":"x","error":7}"#);
    assert!(!seen.completed);
    assert_eq!(seen.result, None);
    assert_eq!(seen.error, None);

    for text in ["garbage", "[]", "null", "", r#"{"result":[1]"#] {
        let seen = read_rendezvous(text);
        assert!(!seen.completed);
        assert_eq!(seen.result, None);
        assert_eq!(seen.error, None);
    }
    let seen = read_rendezvous(r#"{"result":[1]}"#);
    assert!(!seen.completed);
    assert_eq!(seen.result, Some(vec!["1".to_string()]));
}
