use doi::crossref::retry::{
    classify_status, parse_retry_after, parse_retry_after_at, parse_seconds, reconcile,
    ResponseHead, RetryAfterPolicy, RetryAfterState, RetryAfterStrategy, RetryDecision, Retryable,
};
use doi::time::{TimeSpan, Timestamp};
use std::time::{SystemTime, UNIX_EPOCH};

fn at(secs: u64) -> Timestamp {
    Timestamp { secs, nanos: 0 }
}

fn head(status: u16, retry_after: Option<&str>) -> ResponseHead {
    ResponseHead { status, retry_after: retry_after.map(|text| text.to_string()) }
}

fn policy(max_retries: u32) -> RetryAfterPolicy {
    RetryAfterPolicy::new(TimeSpan::from_secs(1), TimeSpan::from_secs(60), false, max_retries)
        .unwrap()
}

fn unix_now() -> u64 {
    SystemTime::now().duration_since(UNIX_EPOCH).unwrap().as_secs()
}

#[test]
fn the_slot_holds_one_value_and_hands_it_out_once() {
    let mut state = RetryAfterState::new();
    assert_eq!(state.take_retry_after(), None);
    state.set_retry_after(at(10));
    state.set_retry_after(at(5));
    assert_eq!(state.take_retry_after(), Some(at(5)));
    assert_eq!(state.take_retry_after(), None);
}

#[test]
fn only_429_and_server_errors_are_worth_a_retry() {
    assert_eq!(classify_status(429), Some(Retryable::Transient));
    assert_eq!(classify_status(500), Some(Retryable::Transient));
    assert_eq!(classify_status(503), Some(Retryable::Transient));
    assert_eq!(classify_status(599), Some(Retryable::Transient));
    for status in [100, 200, 204, 301, 400, 404, 408, 428, 430, 499, 600, 999] {
        assert_eq!(classify_status(status), None);
    }
}

#[test]
fn seconds_are_digits_behind_at_most_one_plus() {
    assert_eq!(parse_seconds("0"), Some(0));
    assert_eq!(parse_seconds("2"), Some(2));
    assert_eq!(parse_seconds("+120"), Some(120));
    assert_eq!(parse_seconds("007"), Some(7));
    assert_eq!(parse_seconds("18446744073709551615"), Some(u64::MAX));
    assert_eq!(parse_seconds("000000000000000000000000000001"), Some(1));
    for text in ["", "+", "++1", "-1", "1 ", " 1", "1.5", "12a", "18446744073709551616", "٣"] {
        assert_eq!(parse_seconds(text), None, "{:?}", text);
    }
    for text in ["0", "+5", "", "+", "99999999999999999999", "18446744073709551615", "1e3"] {
        assert_eq!(parse_seconds(text), text.parse::<u64>().ok());
    }
}

#[test]
fn a_number_of_seconds_counts_from_now() {
    let now = Timestamp { secs: 1_000, nanos: 7 };
    assert_eq!(parse_retry_after_at("2", now), Some(Timestamp { secs: 1_002, nanos: 7 }));
    assert_eq!(parse_retry_after_at("0", now), Some(now));
    assert_eq!(parse_retry_after_at("18446744073709551615", now), None);
}

#[test]
fn an_http_date_names_its_instant() {
    let now = at(1_000);
    assert_eq!(parse_retry_after_at("Sun, 06 Nov 1994 08:49:37 GMT", now), Some(at(784_111_777)));
    assert_eq!(parse_retry_after_at("Sunday, 06-Nov-94 08:49:37 GMT", now), Some(at(784_111_777)));
    assert_eq!(parse_retry_after_at("Thu, 01 Jan 1970 00:00:00 GMT", now), Some(at(0)));
    assert_eq!(parse_retry_after_at("soon", now), None);
    assert_eq!(parse_retry_after_at("", now), None);
}

#[test]
fn seconds_are_read_at_the_present_instant() {
    let before = unix_now();
    let instant = parse_retry_after("2").unwrap();
    let after = unix_now();
    assert!(before + 2 <= instant.secs && instant.secs <= after + 2);
    assert!(instant.nanos < 1_000_000_000);
    assert_eq!(parse_retry_after("never"), None);
}

#[test]
fn a_retry_waits_for_the_later_instant() {
    let mut state = RetryAfterState::new();
    state.set_retry_after(at(50));
    let decision = reconcile(RetryDecision::Retry { execute_after: at(20) }, &mut state);
    assert_eq!(decision, RetryDecision::Retry { execute_after: at(50) });
    assert_eq!(state.take_retry_after(), None);

    state.set_retry_after(at(10));
    let decision = reconcile(RetryDecision::Retry { execute_after: at(20) }, &mut state);
    assert_eq!(decision, RetryDecision::Retry { execute_after: at(20) });
    assert_eq!(state.take_retry_after(), None);

    state.set_retry_after(Timestamp { secs: 20, nanos: 1 });
    let decision = reconcile(RetryDecision::Retry { execute_after: at(20) }, &mut state);
    assert_eq!(decision, RetryDecision::Retry { execute_after: Timestamp { secs: 20, nanos: 1 } });
}

#[test]
fn a_hint_is_not_applied_twice() {
    let mut state = RetryAfterState::new();
    state.set_retry_after(at(50));
    reconcile(RetryDecision::Retry { execute_after: at(20) }, &mut state);
    let decision = reconcile(RetryDecision::Retry { execute_after: at(30) }, &mut state);
    assert_eq!(decision, RetryDecision::Retry { execute_after: at(30) });
}

#[test]
fn giving_up_leaves_the_hint() {
    let mut state = RetryAfterState::new();
    state.set_retry_after(at(50));
    assert_eq!(reconcile(RetryDecision::DoNotRetry, &mut state), RetryDecision::DoNotRetry);
    assert_eq!(state.take_retry_after(), Some(at(50)));
}

#[test]
fn unusable_bounds_make_no_policy() {
    let second = TimeSpan::from_secs(1);
    let minute = TimeSpan::from_secs(60);
    assert!(RetryAfterPolicy::new(minute, second, true, 5).is_none());
    assert!(RetryAfterPolicy::new(second, TimeSpan { secs: 60, nanos: 1_000_000_000 }, true, 5)
        .is_none());
    assert!(RetryAfterPolicy::new(second, TimeSpan::from_secs(1 << 32), true, 5).is_none());
    assert!(RetryAfterPolicy::new(second, second, true, 5).is_some());
    assert_eq!(
        RetryAfterPolicy::new(second, minute, true, 5),
        Some(RetryAfterPolicy { min_backoff: second, max_backoff: minute, jitter: true, max_retries: 5 })
    );
}

#[test]
fn the_policy_gives_up_after_the_last_retry() {
    let mut state = RetryAfterState::new();
    state.set_retry_after(at(50));
    let started = at(unix_now());
    assert_eq!(policy(3).should_retry(&mut state, started, 3), RetryDecision::DoNotRetry);
    assert_eq!(policy(3).should_retry(&mut state, started, 4), RetryDecision::DoNotRetry);
    assert_eq!(policy(0).should_retry(&mut state, started, 0), RetryDecision::DoNotRetry);
    assert_eq!(state.take_retry_after(), Some(at(50)));
}

#[test]
fn the_backoff_waits_within_its_bounds() {
    let mut state = RetryAfterState::new();
    let before = unix_now();
    let decision = policy(5).should_retry(&mut state, at(before), 1);
    let after = unix_now();
    match decision {
        RetryDecision::Retry { execute_after } => {
            assert!(before + 2 <= execute_after.secs && execute_after.secs <= after + 2);
        }
        RetryDecision::DoNotRetry => panic!("gave up"),
    }
    let jittered = RetryAfterPolicy::new(TimeSpan::from_secs(1), TimeSpan::from_secs(60), true, 40)
        .unwrap();
    match jittered.should_retry(&mut state, at(before), 30) {
        RetryDecision::Retry { execute_after } => {
            assert!(before <= execute_after.secs && execute_after.secs <= unix_now() + 60);
        }
        RetryDecision::DoNotRetry => panic!("gave up"),
    }
}

#[test]
fn too_many_requests_then_success_is_one_retry_after_the_hint() {
    let strategy = RetryAfterStrategy::new();
    let mut state = RetryAfterState::new();
    let first_sent = at(unix_now());

    let class = strategy.on_response(&mut state, &head(429, Some("2")), first_sent);
    assert_eq!(class, Some(Retryable::Transient));
    let decision = policy(5).should_retry(&mut state, first_sent, 0);
    match decision {
        RetryDecision::Retry { execute_after } => assert!(execute_after.secs >= first_sent.secs + 2),
        RetryDecision::DoNotRetry => panic!("gave up"),
    }

    let class = strategy.on_response(&mut state, &head(200, None), at(first_sent.secs + 2));
    assert_eq!(class, None);
    assert_eq!(state.take_retry_after(), None);
}

#[test]
fn a_longer_backoff_is_not_shortened_by_the_hint() {
    let strategy = RetryAfterStrategy::new();
    let mut state = RetryAfterState::new();
    let now = at(unix_now());
    strategy.on_response(&mut state, &head(429, Some("0")), now);
    let slow = RetryAfterPolicy::new(TimeSpan::from_secs(30), TimeSpan::from_secs(60), false, 5)
        .unwrap();
    match slow.should_retry(&mut state, now, 0) {
        RetryDecision::Retry { execute_after } => assert!(execute_after.secs >= now.secs + 30),
        RetryDecision::DoNotRetry => panic!("gave up"),
    }
}

#[test]
fn not_found_is_not_repeated() {
    let strategy = RetryAfterStrategy::new();
    let mut state = RetryAfterState::new();
    let class = strategy.on_response(&mut state, &head(404, Some("2")), at(100));
    assert_eq!(class, None);
    assert_eq!(state.take_retry_after(), None);
}

#[test]
fn only_a_429_records_its_retry_after() {
    let strategy = RetryAfterStrategy::new();
    let mut state = RetryAfterState::new();
    assert_eq!(
        strategy.on_response(&mut state, &head(503, Some("2")), at(100)),
        Some(Retryable::Transient)
    );
    assert_eq!(state.take_retry_after(), None);

    strategy.on_response(&mut state, &head(429, Some("7")), at(100));
    strategy.on_response(&mut state, &head(429, Some("later")), at(200));
    strategy.on_response(&mut state, &head(429, None), at(300));
    assert_eq!(state.take_retry_after(), Some(at(107)));

    strategy.on_response(&mut state, &head(429, Some("7")), at(100));
    strategy.on_response(&mut state, &head(429, Some("1")), at(400));
    assert_eq!(state.take_retry_after(), Some(at(401)));
}

#[test]
fn handle_reads_responses_at_the_present_instant() {
    let strategy = RetryAfterStrategy::new();
    let mut state = RetryAfterState::new();
    let before = unix_now();
    let response = head(429, Some("3"));
    assert_eq!(strategy.handle(&mut state, Ok(&response)), Some(Retryable::Transient));
    let pending = state.take_retry_after().unwrap();
    assert!(before + 3 <= pending.secs && pending.secs <= unix_now() + 3);
    assert_eq!(strategy.handle(&mut state, Ok(&head(404, None))), None);
}

#[test]
fn a_failure_inside_the_middleware_is_fatal() {
    let strategy = RetryAfterStrategy::new();
    let mut state = RetryAfterState::new();
    state.set_retry_after(at(5));
    let error = reqwest_middleware::Error::middleware(std::fmt::Error);
    assert_eq!(strategy.handle(&mut state, Err(&error)), Some(Retryable::Fatal));
    assert_eq!(state.take_retry_after(), Some(at(5)));
}

#[test]
fn instants_order_by_seconds_then_nanoseconds() {
    let early = Timestamp { secs: 5, nanos: 999_999_999 };
    let late = Timestamp { secs: 6, nanos: 0 };
    assert!(late.is_after(&early));
    assert!(!early.is_after(&late));
    assert!(!early.is_after(&early));
    assert!(Timestamp { secs: 5, nanos: 2 }.is_after(&Timestamp { secs: 5, nanos: 1 }));
    assert_eq!(late.checked_add_secs(4), Some(at(10)));
    assert_eq!(late.checked_add_secs(u64::MAX - 5), None);
    assert!(TimeSpan::from_secs(1).at_most(&TimeSpan::from_secs(1)));
    assert!(!TimeSpan { secs: 1, nanos: 1 }.at_most(&TimeSpan::from_secs(1)));
}
