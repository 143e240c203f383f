use web_tools::readiness::{
    content_selectors, heuristic_ready, poll_verdict, timeout_text, FlexibleWaiter, PollProbe,
    PollVerdict, BROWSER_WAIT_TIMEOUT_MS, DEFAULT_WAIT_TIMEOUT_MS, MIN_BODY_TEXT_LEN,
    POLL_INTERVAL_MS,
};

#[test]
fn selector_list_is_fixed_and_ordered() {
    let selectors = content_selectors();
    assert_eq!(
        selectors,
        vec![
            "main",
            "article",
            "[role='main']",
            ".content",
            ".main-content",
            "#content",
            "[data-testid]",
            "[data-component]",
        ]
    );
}

#[test]
fn constants() {
    assert_eq!(DEFAULT_WAIT_TIMEOUT_MS, 30000);
    assert_eq!(BROWSER_WAIT_TIMEOUT_MS, 15000);
    assert_eq!(POLL_INTERVAL_MS, 50);
    assert_eq!(MIN_BODY_TEXT_LEN, 100);
}

#[test]
fn heuristic_needs_text_and_structure() {
    assert!(heuristic_ready(101, 1));
    assert!(!heuristic_ready(100, 1));
    assert!(!heuristic_ready(101, 0));
    assert!(!heuristic_ready(0, 0));
}

#[test]
fn selector_match_is_ready_immediately() {
    let probe = PollProbe { selector_matched: true, body_text_len: 0, body_child_count: 0 };
    assert!(matches!(poll_verdict(&probe), PollVerdict::ReadyBySelector));
}

#[test]
fn heuristic_fires_only_without_selector() {
    let probe = PollProbe { selector_matched: false, body_text_len: 250, body_child_count: 3 };
    assert!(matches!(poll_verdict(&probe), PollVerdict::ReadyByHeuristic));
    let probe = PollProbe { selector_matched: true, body_text_len: 250, body_child_count: 3 };
    assert!(matches!(poll_verdict(&probe), PollVerdict::ReadyBySelector));
}

#[test]
fn no_signal_sleeps_one_interval() {
    let probe = PollProbe { selector_matched: false, body_text_len: 40, body_child_count: 1 };
    match poll_verdict(&probe) {
        PollVerdict::Sleep { interval_ms } => assert_eq!(interval_ms, POLL_INTERVAL_MS),
        _ => panic!("expected a sleep verdict"),
    }
}

#[test]
fn waiter_default_then_override() {
    let waiter = FlexibleWaiter::new();
    assert_eq!(waiter.timeout_ms, DEFAULT_WAIT_TIMEOUT_MS);
    let waiter = waiter.with_timeout(BROWSER_WAIT_TIMEOUT_MS);
    assert_eq!(waiter.timeout_ms, BROWSER_WAIT_TIMEOUT_MS);
}

#[test]
fn timeout_report_text() {
    assert_eq!(timeout_text(), "Timeout: No suitable element found");
}

#[test]
fn timeout_fires_at_the_bound_and_never_before() {
    let waiter = FlexibleWaiter::new().with_timeout(15000);
    assert!(waiter.should_poll(0));
    assert!(waiter.should_poll(14999));
    assert!(!waiter.should_poll(15000));
    assert!(!waiter.should_poll(15001));
}
