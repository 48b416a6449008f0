use eth_archive::retry::{Retry, RetryConfig, RetryDecision};

#[test]
fn new_copies_config() {
    let r = Retry::new(RetryConfig { num_tries: Some(3), secs_between_tries: 7 });
    assert_eq!(r.num_tries, Some(3));
    assert_eq!(r.secs_between_tries, 7);
}

#[test]
fn unbounded_policy_always_retries() {
    let r = Retry::new(RetryConfig { num_tries: None, secs_between_tries: 2 });
    assert_eq!(r.decide(0), RetryDecision::RetryAfter(2));
    assert_eq!(r.decide(1), RetryDecision::RetryAfter(2));
    assert_eq!(r.decide(1_000_000), RetryDecision::RetryAfter(2));
}

#[test]
fn bounded_policy_stops_at_budget() {
    let r = Retry::new(RetryConfig { num_tries: Some(3), secs_between_tries: 5 });
    assert_eq!(r.decide(1), RetryDecision::RetryAfter(5));
    assert_eq!(r.decide(2), RetryDecision::RetryAfter(5));
    assert_eq!(r.decide(3), RetryDecision::GiveUp);
    assert_eq!(r.decide(4), RetryDecision::GiveUp);
}
