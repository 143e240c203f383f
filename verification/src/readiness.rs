//! Readiness detection for browser-rendered pages.
//!
//! A rendered page is polled until enough content has loaded to justify
//! extraction, bounded by a timeout. Each poll round probes a fixed,
//! ordered list of content-bearing CSS selectors and, if none match, a
//! heuristic on the page body (visible text longer than a floor, at least
//! one child element). The probing itself is DOM I/O and is done by the
//! embedding application; the decisions — which selectors to probe, what
//! the heuristic says, when to sleep and when to give up — are verified
//! here.

use vstd::prelude::*;

verus! {

/// Default bound on one readiness wait, in milliseconds.
pub const DEFAULT_WAIT_TIMEOUT_MS: u64 = 30000;

/// Bound used for the orchestrated browser path, in milliseconds.
pub const BROWSER_WAIT_TIMEOUT_MS: u64 = 15000;

/// How long to sleep between poll rounds, in milliseconds.
pub const POLL_INTERVAL_MS: u64 = 50;

/// The body's visible text must be strictly longer than this for the
/// heuristic probe to fire.
pub const MIN_BODY_TEXT_LEN: u64 = 100;

/// The fixed, ordered list of CSS selectors considered content-bearing.
pub open spec fn selector_list() -> Seq<Seq<char>> {
    seq![
        "main"@,
        "article"@,
        "[role='main']"@,
        ".content"@,
        ".main-content"@,
        "#content"@,
        "[data-testid]"@,
        "[data-component]"@,
    ]
}

/// The content-bearing selectors, to be probed in order; the first that
/// matches any element makes the page ready.
pub fn content_selectors() -> (r: Vec<&'static str>)
    ensures
        r@.len() == selector_list().len(),
        forall|i: int| 0 <= i < r@.len() ==> r@[i]@ == selector_list()[i],
{
    let r: Vec<&'static str> = vec![
        "main",
        "article",
        "[role='main']",
        ".content",
        ".main-content",
        "#content",
        "[data-testid]",
        "[data-component]",
    ];
    r
}

/// What one poll round observed of the page.
pub struct PollProbe {
    /// some selector of `content_selectors()` matched an element
    pub selector_matched: bool,
    /// length of the body's visible text, as reported by the page
    pub body_text_len: u64,
    /// number of the body's child elements
    pub body_child_count: u64,
}

/// Whether an observation counts as a readiness signal: a structural
/// probe matched, or the in-page heuristic fired.
pub open spec fn probe_ready(p: PollProbe) -> bool {
    ||| p.selector_matched
    ||| (p.body_text_len > MIN_BODY_TEXT_LEN && p.body_child_count > 0)
}

/// The in-page heuristic: the body's visible text is long enough and the
/// body has at least one child element.
pub fn heuristic_ready(body_text_len: u64, body_child_count: u64) -> (r: bool)
    ensures
        r == (body_text_len > MIN_BODY_TEXT_LEN && body_child_count > 0),
{
    body_text_len > MIN_BODY_TEXT_LEN && body_child_count > 0
}

/// The decision one poll round ends in.
pub enum PollVerdict {
    /// one of the fixed selectors matched: ready, stop polling
    ReadyBySelector,
    /// the heuristic probe fired: ready, stop polling
    ReadyByHeuristic,
    /// no signal yet: sleep this long, then poll again
    Sleep { interval_ms: u64 },
}

/// Decide what one poll round's observation means. Structural probes are
/// consulted before the heuristic; a round without any signal sleeps for
/// `POLL_INTERVAL_MS`.
pub fn poll_verdict(p: &PollProbe) -> (v: PollVerdict)
    ensures
        p.selector_matched ==> v is ReadyBySelector,
        (!p.selector_matched && p.body_text_len > MIN_BODY_TEXT_LEN && p.body_child_count > 0)
            ==> v is ReadyByHeuristic,
        !probe_ready(*p) ==> (v matches PollVerdict::Sleep { interval_ms }
            && interval_ms == POLL_INTERVAL_MS),
        probe_ready(*p) <==> !(v matches PollVerdict::Sleep { .. }),
{
    if p.selector_matched {
        PollVerdict::ReadyBySelector
    } else if heuristic_ready(p.body_text_len, p.body_child_count) {
        PollVerdict::ReadyByHeuristic
    } else {
        PollVerdict::Sleep { interval_ms: POLL_INTERVAL_MS }
    }
}

/// One readiness wait: polls until a signal fires or `timeout_ms` elapses.
/// Holds the decision logic only; the embedding application owns the page
/// handle and the clock.
pub struct FlexibleWaiter {
    pub timeout_ms: u64,
}

impl FlexibleWaiter {
    /// A waiter with the default timeout.
    pub fn new() -> (r: Self)
        ensures
            r.timeout_ms == DEFAULT_WAIT_TIMEOUT_MS,
    {
        FlexibleWaiter { timeout_ms: DEFAULT_WAIT_TIMEOUT_MS }
    }

    /// The same waiter with the timeout replaced.
    pub fn with_timeout(self, timeout_ms: u64) -> (r: Self)
        ensures
            r.timeout_ms == timeout_ms,
    {
        FlexibleWaiter { timeout_ms }
    }

    /// Whether another poll round may run. Law: the wait reports a timeout
    /// exactly when this returns false, i.e. at or after the configured
    /// bound and never before.
    pub fn should_poll(&self, elapsed_ms: u64) -> (r: bool)
        ensures
            r == (elapsed_ms < self.timeout_ms),
    {
        elapsed_ms < self.timeout_ms
    }
}

/// The error a wait reports when no readiness signal fires within the
/// bound; the URL's browser attempt is then over, not retried here.
pub fn timeout_text() -> (r: &'static str)
    ensures
        r@ == "Timeout: No suitable element found"@,
{
    "Timeout: No suitable element found"
}

} // verus!
