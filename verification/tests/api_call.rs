use big_brother::call::{ApiCall, CallAction, CallEvent, CallPhase};
use big_brother::github::{GithubError, PrCompare};
use big_brother::ratelimit::{quota_wait_secs, reserve_slot, RateLimitData};

fn step(call: &mut ApiCall, event: CallEvent<PrCompare>) -> CallAction<PrCompare> {
    assert!(call.accepts(&event));
    call.step(event)
}

fn unauthenticated() -> ApiCall {
    ApiCall::new("https://api.github.com/repos/nixos/nixpkgs/pulls/1".to_string(), None)
}

fn authenticated(key: &str) -> ApiCall {
    ApiCall::new("https://api.github.com/repos/nixos/nixpkgs/pulls/1".to_string(), Some(key.to_string()))
}

#[test]
fn quota_wait_until_one_second_after_reset() {
    let q = RateLimitData { limit: 5000, remaining: 5, reset: 100 };
    assert_eq!(quota_wait_secs(&q, 90), Some(11));
    let q = RateLimitData { limit: 5000, remaining: 0, reset: 100 };
    assert_eq!(quota_wait_secs(&q, 99), Some(2));
    assert_eq!(quota_wait_secs(&q, 100), None);
    assert_eq!(quota_wait_secs(&q, 150), None);
    let q = RateLimitData { limit: 5000, remaining: 6, reset: 100 };
    assert_eq!(quota_wait_secs(&q, 90), None);
}

#[test]
fn reservations_keep_one_second_between_requests() {
    assert_eq!(reserve_slot(None, 5), (0, 5));
    assert_eq!(reserve_slot(Some(0), 0), (1_000_000_000, 1_000_000_000));
    assert_eq!(reserve_slot(Some(0), 400_000_000), (600_000_000, 1_000_000_000));
    assert_eq!(reserve_slot(Some(0), 999_999_999), (1, 1_000_000_000));
    assert_eq!(reserve_slot(Some(0), 1_000_000_000), (0, 1_000_000_000));
    assert_eq!(reserve_slot(Some(0), 5_000_000_000), (0, 5_000_000_000));
}

#[test]
fn overlapping_requests_are_spread_out() {
    // Six requests asked for at the same moment reserve one second apart.
    let mut last = None;
    let mut slots = Vec::new();
    for _ in 0..6 {
        let (wait, slot) = reserve_slot(last, 10);
        assert_eq!(wait, slot - 10);
        last = Some(slot);
        slots.push(slot);
    }
    assert_eq!(slots, vec![10, 1_000_000_010, 2_000_000_010, 3_000_000_010, 4_000_000_010, 5_000_000_010]);
    // A reservation ahead of now makes the next one wait longer than a second.
    assert_eq!(reserve_slot(Some(3_000_000_000), 1_000_000_000), (3_000_000_000, 4_000_000_000));
}

#[test]
fn unauthenticated_call_paces_then_fetches() {
    let mut c = unauthenticated();
    assert!(matches!(step(&mut c, CallEvent::Begin), CallAction::ReadClock));
    assert!(matches!(
        step(&mut c, CallEvent::Clock { last: Some(0), now: 250_000_000 }),
        CallAction::Pace { wait: 750_000_000, slot: 1_000_000_000 }
    ));
    match step(&mut c, CallEvent::Waited) {
        CallAction::Get { url, authorization } => {
            assert_eq!(url, "https://api.github.com/repos/nixos/nixpkgs/pulls/1");
            assert_eq!(authorization, None);
        }
        other => panic!("unexpected {:?}", other),
    }
    assert!(matches!(step(&mut c, CallEvent::Responded(Ok(200))), CallAction::ParseBody));
    let done = step(&mut c, CallEvent::BodyParsed(Ok(PrCompare { status: "behind".to_string() })));
    match done {
        CallAction::Finish(Ok(p)) => assert_eq!(p.status, "behind"),
        other => panic!("unexpected {:?}", other),
    }
    assert!(c.is_finished());
    assert!(!c.accepts(&CallEvent::<PrCompare>::Waited));
}

#[test]
fn first_unauthenticated_call_does_not_wait() {
    let mut c = unauthenticated();
    step(&mut c, CallEvent::Begin);
    assert!(matches!(step(&mut c, CallEvent::Clock { last: None, now: 77 }), CallAction::Pace { wait: 0, slot: 77 }));
}

#[test]
fn authenticated_call_checks_quota_first() {
    let mut c = authenticated("secret");
    match step(&mut c, CallEvent::Begin) {
        CallAction::Get { url, authorization } => {
            assert_eq!(url, "https://api.github.com/rate_limit");
            assert_eq!(authorization, Some("Bearer secret".to_string()));
        }
        other => panic!("unexpected {:?}", other),
    }
    assert!(matches!(step(&mut c, CallEvent::Responded(Ok(200))), CallAction::ParseQuota));
    let q = RateLimitData { limit: 5000, remaining: 3, reset: 1_000 };
    assert!(matches!(step(&mut c, CallEvent::QuotaParsed(Ok(q), 990)), CallAction::SleepSecs(11)));
    match step(&mut c, CallEvent::Waited) {
        CallAction::Get { url, authorization } => {
            assert_eq!(url, "https://api.github.com/repos/nixos/nixpkgs/pulls/1");
            assert_eq!(authorization, Some("Bearer secret".to_string()));
        }
        other => panic!("unexpected {:?}", other),
    }
    assert_eq!(c.phase, CallPhase::AwaitResponse);
}

#[test]
fn authenticated_call_with_ample_quota_goes_straight_on() {
    let mut c = authenticated("secret");
    step(&mut c, CallEvent::Begin);
    step(&mut c, CallEvent::Responded(Ok(200)));
    let q = RateLimitData { limit: 5000, remaining: 4999, reset: 1_000 };
    assert!(matches!(step(&mut c, CallEvent::QuotaParsed(Ok(q), 990)), CallAction::Get { .. }));
}

#[test]
fn empty_key_counts_as_authenticated_without_header() {
    let mut c = authenticated("");
    match step(&mut c, CallEvent::Begin) {
        CallAction::Get { url, authorization } => {
            assert_eq!(url, "https://api.github.com/rate_limit");
            assert_eq!(authorization, None);
        }
        other => panic!("unexpected {:?}", other),
    }
}

#[test]
fn quota_answer_other_than_ok_is_ignored() {
    let mut c = authenticated("k");
    step(&mut c, CallEvent::Begin);
    assert!(matches!(step(&mut c, CallEvent::Responded(Ok(500))), CallAction::Get { .. }));
    assert_eq!(c.phase, CallPhase::AwaitResponse);
}

#[test]
fn quota_failures_end_the_call() {
    let mut c = authenticated("k");
    step(&mut c, CallEvent::Begin);
    let a = step(&mut c, CallEvent::Responded(Err("connection refused".to_string())));
    assert!(matches!(a, CallAction::Finish(Err(GithubError::RequestFailed(ref m))) if m == "connection refused"));
    let mut c = authenticated("k");
    step(&mut c, CallEvent::Begin);
    step(&mut c, CallEvent::Responded(Ok(200)));
    let a = step(&mut c, CallEvent::QuotaParsed(Err("bad json".to_string()), 0));
    assert!(matches!(a, CallAction::Finish(Err(GithubError::RequestFailed(ref m))) if m == "bad json"));
}

fn at_response() -> ApiCall {
    let mut c = unauthenticated();
    step(&mut c, CallEvent::Begin);
    step(&mut c, CallEvent::Clock { last: None, now: 0 });
    step(&mut c, CallEvent::Waited);
    c
}

#[test]
fn forbidden_and_too_many_requests_are_rate_limits() {
    for status in [403u16, 429] {
        let mut c = at_response();
        let a = step(&mut c, CallEvent::Responded(Ok(status)));
        assert!(matches!(a, CallAction::Finish(Err(GithubError::RateLimitExceeded))));
        assert!(c.is_finished());
    }
}

#[test]
fn other_statuses_become_api_errors() {
    let mut c = at_response();
    assert!(matches!(step(&mut c, CallEvent::Responded(Ok(404))), CallAction::ReadErrorText));
    assert_eq!(c.phase, CallPhase::AwaitErrorText { status: 404 });
    let a = step(&mut c, CallEvent::ErrorText(Some("Not Found".to_string())));
    assert!(matches!(a, CallAction::Finish(Err(GithubError::ApiError { status: 404, ref message })) if message == "Not Found"));

    let mut c = at_response();
    step(&mut c, CallEvent::Responded(Ok(502)));
    let a = step(&mut c, CallEvent::ErrorText(None));
    assert!(matches!(a, CallAction::Finish(Err(GithubError::ApiError { status: 502, ref message })) if message == "No error message"));
}

#[test]
fn transport_and_decoding_failures() {
    let mut c = at_response();
    let a = step(&mut c, CallEvent::Responded(Err("dns".to_string())));
    assert!(matches!(a, CallAction::Finish(Err(GithubError::RequestFailed(ref m))) if m == "dns"));
    let mut c = at_response();
    step(&mut c, CallEvent::Responded(Ok(200)));
    let a = step(&mut c, CallEvent::BodyParsed(Err("missing field".to_string())));
    assert!(matches!(a, CallAction::Finish(Err(GithubError::RequestFailed(ref m))) if m == "missing field"));
}

#[test]
fn unexpected_events_are_refused() {
    let c = unauthenticated();
    assert!(!c.accepts(&CallEvent::<PrCompare>::Waited));
    assert!(c.accepts(&CallEvent::<PrCompare>::Begin));
    let c = at_response();
    assert!(!c.accepts(&CallEvent::<PrCompare>::Responded(Ok(42))));
    assert!(c.accepts(&CallEvent::<PrCompare>::Responded(Ok(200))));
}

#[test]
fn quota_renewal_too_far_ahead_is_refused() {
    let mut c = authenticated("k");
    step(&mut c, CallEvent::Begin);
    step(&mut c, CallEvent::Responded(Ok(200)));
    let q = RateLimitData { limit: 1, remaining: 0, reset: u64::MAX };
    assert!(!c.accepts(&CallEvent::<PrCompare>::QuotaParsed(Ok(q), 0)));
    assert!(c.accepts(&CallEvent::<PrCompare>::QuotaParsed(Ok(q), 1)));
    // With quota to spare no wait is computed, so any renewal time is fine.
    let ample = RateLimitData { limit: 5000, remaining: 6, reset: u64::MAX };
    assert!(c.accepts(&CallEvent::<PrCompare>::QuotaParsed(Ok(ample), 0)));
    assert!(matches!(step(&mut c, CallEvent::QuotaParsed(Ok(ample), 0)), CallAction::Get { .. }));
    assert_eq!(quota_wait_secs(&ample, 0), None);
}

#[test]
fn pacing_record_near_the_end_of_time_is_refused() {
    let mut c = unauthenticated();
    step(&mut c, CallEvent::Begin);
    assert!(!c.accepts(&CallEvent::<PrCompare>::Clock { last: Some(u128::MAX), now: 0 }));
    assert!(c.accepts(&CallEvent::<PrCompare>::Clock { last: Some(u128::MAX - 1_000_000_000), now: 0 }));
}

#[test]
fn every_call_ends_within_six_events() {
    // Answer each action as a well-behaved transport would, counting events.
    for key in [None, Some("k".to_string())] {
        for status in [200u16, 403, 404] {
            let mut c = ApiCall::new("https://api.github.com/x".to_string(), key.clone());
            let mut event: CallEvent<PrCompare> = CallEvent::Begin;
            let mut events = 0;
            let mut quota_asked = false;
            loop {
                events += 1;
                assert!(events <= 6);
                match step(&mut c, event) {
                    CallAction::Get { url, .. } => {
                        let s = if url.ends_with("rate_limit") { quota_asked = true; 200 } else { status };
                        event = CallEvent::Responded(Ok(s));
                    }
                    CallAction::ParseQuota => {
                        event = CallEvent::QuotaParsed(Ok(RateLimitData { limit: 60, remaining: 1, reset: 20 }), 10)
                    }
                    CallAction::ReadClock => event = CallEvent::Clock { last: Some(1), now: 2 },
                    CallAction::SleepSecs(s) => {
                        assert_eq!(s, 11);
                        event = CallEvent::Waited
                    }
                    CallAction::Pace { wait, slot } => {
                        assert_eq!((wait, slot), (999_999_999, 1_000_000_001));
                        event = CallEvent::Waited
                    }
                    CallAction::ParseBody => event = CallEvent::BodyParsed(Ok(PrCompare { status: "ahead".to_string() })),
                    CallAction::ReadErrorText => event = CallEvent::ErrorText(None),
                    CallAction::Finish(r) => {
                        match status {
                            200 => assert!(r.is_ok()),
                            403 => assert!(matches!(r, Err(GithubError::RateLimitExceeded))),
                            _ => assert!(matches!(r, Err(GithubError::ApiError { status: 404, .. }))),
                        }
                        break;
                    }
                }
            }
            assert_eq!(quota_asked, key.is_some());
            assert!(c.is_finished());
        }
    }
}
