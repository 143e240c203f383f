//! The content-fetch fallback pipeline.
//!
//! For a batch of URLs the orchestrator decides, per URL, whether a cheap
//! plain-HTTP fetch sufficed or the page must be rendered in the shared
//! headless browser, initializes that browser lazily and at most once, and
//! collects one outcome per URL in input order — a single URL's failure
//! never fails the batch. All I/O (the HTTP GET, launching the browser,
//! driving a tab) is done by the embedding application, which asks
//! [`BatchFetch::next_action`] what to do and reports what happened through
//! the event handlers; every decision in between is verified here.

use vstd::prelude::*;

use crate::convert::{markdown_of, sufficient_html};

verus! {

/// Bound on one plain-HTTP fetch, in seconds.
pub const LIGHT_FETCH_TIMEOUT_SECS: u64 = 10;

/// A fetch invocation as the tool caller states it.
pub struct Input {
    /// The list of URLs to fetch; output order follows this order.
    pub urls: Vec<String>,
}

/// The browser-like user agent the plain HTTP client sends; some servers
/// reject non-browser agents.
pub fn user_agent() -> (r: &'static str)
    ensures
        r@ == "Mozilla/5.0 (Windows NT 10.0; Win64; x64) AppleWebKit/537.36"@,
{
    "Mozilla/5.0 (Windows NT 10.0; Win64; x64) AppleWebKit/537.36"
}

/// One URL's outcome. The batch never fails as a whole: each input URL
/// gets exactly one of these.
pub enum FetchOutcome {
    /// the URL's readable content
    Content { url: String, markdown: String },
    /// why this URL failed
    Error { url: String, message: String },
}

/// Which URL an outcome belongs to.
pub open spec fn outcome_url(o: FetchOutcome) -> Seq<char> {
    match o {
        FetchOutcome::Content { url, .. } => url@,
        FetchOutcome::Error { url, .. } => url@,
    }
}

/// The outcome records this URL's content as this Markdown.
pub open spec fn is_content_for(o: FetchOutcome, url: Seq<char>, markdown: Seq<char>) -> bool {
    o matches FetchOutcome::Content { url: u, markdown: m } && u@ == url && m@ == markdown
}

/// The outcome records this URL as failed with this message.
pub open spec fn is_error_for(o: FetchOutcome, url: Seq<char>, message: Seq<char>) -> bool {
    o matches FetchOutcome::Error { url: u, message: m } && u@ == url && m@ == message
}

/// A successful outcome rendered for the tool caller: the source URL in
/// angle brackets, a blank line, then the Markdown.
pub open spec fn framed_content(url: Seq<char>, markdown: Seq<char>) -> Seq<char> {
    "<"@ + url + ">\n\n"@ + markdown
}

/// A failed outcome rendered for the tool caller.
pub open spec fn error_text(url: Seq<char>, message: Seq<char>) -> Seq<char> {
    "Error fetching "@ + url + ": "@ + message
}

impl FetchOutcome {
    /// Render the outcome as the single string the tool caller receives.
    pub fn render(&self) -> (r: String)
        ensures
            r@ == (match self {
                FetchOutcome::Content { url, markdown } => framed_content(url@, markdown@),
                FetchOutcome::Error { url, message } => error_text(url@, message@),
            }),
    {
        match self {
            FetchOutcome::Content { url, markdown } => {
                let mut s = String::from_str("<");
                s.append(url.as_str());
                s.append(">\n\n");
                s.append(markdown.as_str());
                s
            },
            FetchOutcome::Error { url, message } => {
                let mut s = String::from_str("Error fetching ");
                s.append(url.as_str());
                s.append(": ");
                s.append(message.as_str());
                s
            },
        }
    }
}

/// What the plain-HTTP attempt on one URL produced.
pub enum LightEvent {
    /// the GET succeeded; the response body as received
    Response { html: String },
    /// the GET failed (DNS, connect, timeout, TLS, read)
    Failed { message: String },
}

/// What one browser-backed attempt on one URL produced.
pub enum BrowserEvent {
    /// the rendered document's HTML, extracted once the page was ready
    Rendered { html: String },
    /// which stage failed and how (see [`BrowserStage`])
    Failed { message: String },
}

/// The stage of a browser-backed attempt that failed; every per-URL
/// browser error names its failing stage.
pub enum BrowserStage {
    /// opening the isolated tab
    Tab,
    /// loading the URL in the tab
    Navigation,
    /// waiting for the page's content to be ready
    Readiness,
    /// reading the rendered document out of a ready page
    Extraction,
}

/// The label each failing stage carries in its error message.
pub open spec fn stage_label(stage: BrowserStage) -> Seq<char> {
    match stage {
        BrowserStage::Tab => "tab creation failed"@,
        BrowserStage::Navigation => "navigation failed"@,
        BrowserStage::Readiness => "readiness wait failed"@,
        BrowserStage::Extraction => "extraction failed"@,
    }
}

/// The message recorded when a browser stage fails with a cause.
pub open spec fn stage_message(stage: BrowserStage, err: Seq<char>) -> Seq<char> {
    stage_label(stage) + ": "@ + err
}

/// Compose one browser failure's message from its stage and cause.
pub fn browser_failure_text(stage: BrowserStage, err: &str) -> (r: String)
    ensures
        r@ == stage_message(stage, err@),
{
    let label = match stage {
        BrowserStage::Tab => "tab creation failed",
        BrowserStage::Navigation => "navigation failed",
        BrowserStage::Readiness => "readiness wait failed",
        BrowserStage::Extraction => "extraction failed",
    };
    let mut s = String::from_str(label);
    s.append(": ");
    s.append(err);
    s
}

/// The shared headless-browser resource, as the pipeline sees it.
pub enum BrowserStatus {
    /// not launched yet; launched on first need
    Uninitialized,
    /// running; shared by every following browser-backed fetch
    Ready,
    /// the launch failed once; every later browser need fails fast with
    /// this message, with no further launch attempt
    Failed { message: String },
}

/// The error message recorded when the shared browser could not launch.
pub open spec fn init_failure_message(err: Seq<char>) -> Seq<char> {
    "Browser initialization failed: "@ + err
}

/// Build the browser-launch failure message for one URL's error slot.
pub fn init_failure_text(err: &str) -> (r: String)
    ensures
        r@ == init_failure_message(err@),
{
    let mut s = String::from_str("Browser initialization failed: ");
    s.append(err);
    s
}

/// Where the pipeline stands on the URL it is currently working.
pub enum Phase {
    /// attempt the plain-HTTP path first
    Light,
    /// the plain-HTTP path was skipped or did not suffice; render
    Browser,
    /// every slot is filled
    Finished,
}

/// What the embedding application must do next.
pub enum NextAction {
    /// GET this URL with the plain HTTP client
    FetchLight { url: String },
    /// launch the shared headless browser
    InitBrowser,
    /// render this URL in a fresh, isolated tab of the shared browser
    FetchBrowser { url: String },
    /// every slot is filled; hand the results back
    Finished,
}

/// The per-batch orchestrator: one state machine driven URL by URL.
pub struct BatchFetch {
    /// skip the plain-HTTP path entirely and render every URL
    pub browser_only: bool,
    /// the input batch, in caller order
    pub urls: Vec<String>,
    /// one outcome per already-resolved URL, in input order
    pub results: Vec<FetchOutcome>,
    /// the shared browser resource
    pub browser: BrowserStatus,
    /// where the machine stands on the current URL
    pub phase: Phase,
}

impl BatchFetch {
    /// How many URLs are resolved; the next one worked is `urls[idx()]`.
    pub open spec fn idx(self) -> int {
        self.results@.len() as int
    }

    /// The URL the machine currently works on.
    pub open spec fn current_url(self) -> Seq<char> {
        self.urls@[self.idx()]@
    }

    /// The machine's invariant: results are a prefix of the batch, each
    /// outcome belongs to its slot's URL, the phase agrees with how much
    /// is resolved, and a failed browser is never waited on.
    pub open spec fn wf(self) -> bool {
        &&& self.results@.len() <= self.urls@.len()
        &&& (self.phase is Finished <==> self.results@.len() == self.urls@.len())
        &&& (self.browser_only ==> !(self.phase is Light))
        &&& (self.phase is Browser ==> !(self.browser is Failed))
        &&& (forall|i: int|
            0 <= i < self.results@.len() ==> outcome_url(
                #[trigger] self.results@[i],
            ) == self.urls@[i]@)
    }

    /// Start a batch. `browser_ready` says whether the process-wide shared
    /// browser is already running from an earlier batch; a machine started
    /// over a running browser never asks to launch another.
    pub fn new(browser_only: bool, urls: Vec<String>, browser_ready: bool) -> (r: Self)
        ensures
            r.wf(),
            r.browser_only == browser_only,
            r.urls == urls,
            r.results@.len() == 0,
            r.browser == (if browser_ready {
                BrowserStatus::Ready
            } else {
                BrowserStatus::Uninitialized
            }),
            r.phase == (if urls@.len() == 0 {
                Phase::Finished
            } else if browser_only {
                Phase::Browser
            } else {
                Phase::Light
            }),
    {
        let phase = if urls.len() == 0 {
            Phase::Finished
        } else if browser_only {
            Phase::Browser
        } else {
            Phase::Light
        };
        let browser = if browser_ready {
            BrowserStatus::Ready
        } else {
            BrowserStatus::Uninitialized
        };
        BatchFetch { browser_only, urls, results: Vec::new(), browser, phase }
    }

    /// What to do next. The browser launch is asked for only while the
    /// shared browser is uninitialized, so it is launched at most once.
    pub fn next_action(&self) -> (a: NextAction)
        requires
            self.wf(),
        ensures
            (a is Finished) <==> (self.phase is Finished),
            (a is InitBrowser) ==> (self.browser is Uninitialized),
            (self.phase is Light) ==> (a matches NextAction::FetchLight { url } && url@
                == self.current_url()),
            (self.phase is Browser && self.browser is Uninitialized) ==> (a is InitBrowser),
            (self.phase is Browser && self.browser is Ready) ==> (a
                matches NextAction::FetchBrowser { url } && url@ == self.current_url()),
    {
        match self.phase {
            Phase::Finished => NextAction::Finished,
            Phase::Light => NextAction::FetchLight { url: self.urls[self.results.len()].clone() },
            Phase::Browser => match &self.browser {
                BrowserStatus::Uninitialized => NextAction::InitBrowser,
                _ => NextAction::FetchBrowser { url: self.urls[self.results.len()].clone() },
            },
        }
    }

    /// Move past the just-resolved URL: finish, or start the next URL on
    /// the path the configuration dictates.
    fn advance(&mut self)
        requires
            old(self).results@.len() <= old(self).urls@.len(),
        ensures
            final(self).urls == old(self).urls,
            final(self).results == old(self).results,
            final(self).browser == old(self).browser,
            final(self).browser_only == old(self).browser_only,
            final(self).phase == (if old(self).results@.len() == old(self).urls@.len() {
                Phase::Finished
            } else if old(self).browser_only {
                Phase::Browser
            } else {
                Phase::Light
            }),
    {
        if self.results.len() == self.urls.len() {
            self.phase = Phase::Finished;
        } else if self.browser_only {
            self.phase = Phase::Browser;
        } else {
            self.phase = Phase::Light;
        }
    }

    /// What falling through to the browser path does: with a known launch
    /// failure the URL fails fast with that message; otherwise the machine
    /// waits for a browser action.
    pub open spec fn fallback_post(pre: BatchFetch, post: BatchFetch) -> bool {
        match pre.browser {
            BrowserStatus::Failed { message } => {
                &&& post.results@.len() == pre.results@.len() + 1
                &&& is_error_for(
                    post.results@.last(),
                    pre.current_url(),
                    init_failure_message(message@),
                )
                &&& post.phase == (if post.results@.len() == pre.urls@.len() {
                    Phase::Finished
                } else {
                    Phase::Light
                })
            },
            _ => {
                &&& post.results == pre.results
                &&& post.phase is Browser
            },
        }
    }

    /// Fall through from the plain-HTTP path to the browser path for the
    /// current URL.
    fn fall_to_browser(&mut self, url: String)
        requires
            old(self).wf(),
            old(self).phase is Light,
            url@ == old(self).current_url(),
        ensures
            final(self).wf(),
            final(self).urls == old(self).urls,
            final(self).browser == old(self).browser,
            final(self).browser_only == old(self).browser_only,
            old(self).results@.is_prefix_of(final(self).results@),
            Self::fallback_post(*old(self), *final(self)),
    {
        match &self.browser {
            BrowserStatus::Failed { message } => {
                let text = init_failure_text(message.as_str());
                self.results.push(FetchOutcome::Error { url, message: text });
                self.advance();
            },
            _ => {
                self.phase = Phase::Browser;
            },
        }
    }

    /// Report what the plain-HTTP attempt on the current URL produced. A
    /// sufficient response resolves the URL with its Markdown; an
    /// insufficient one and a network failure both fall through to the
    /// browser path. Earlier slots are never touched.
    pub fn on_light_event(&mut self, ev: LightEvent)
        requires
            old(self).wf(),
            old(self).phase is Light,
        ensures
            final(self).wf(),
            final(self).urls == old(self).urls,
            final(self).browser == old(self).browser,
            final(self).browser_only == old(self).browser_only,
            old(self).results@.is_prefix_of(final(self).results@),
            ev matches LightEvent::Response { html } ==> (if sufficient_html(html@) {
                &&& final(self).results@.len() == old(self).results@.len() + 1
                &&& is_content_for(
                    final(self).results@.last(),
                    old(self).current_url(),
                    markdown_of(html@),
                )
                &&& final(self).phase == (if final(self).results@.len() == old(self).urls@.len() {
                    Phase::Finished
                } else {
                    Phase::Light
                })
            } else {
                Self::fallback_post(*old(self), *final(self))
            }),
            ev matches LightEvent::Failed { .. } ==> Self::fallback_post(
                *old(self),
                *final(self),
            ),
    {
        let url = self.urls[self.results.len()].clone();
        match ev {
            LightEvent::Response { html } => {
                let (markdown, sufficient) = crate::convert::process_html(html.as_str());
                if sufficient {
                    self.results.push(FetchOutcome::Content { url, markdown });
                    self.advance();
                } else {
                    self.fall_to_browser(url);
                }
            },
            LightEvent::Failed { .. } => {
                self.fall_to_browser(url);
            },
        }
    }

    /// Report that the shared browser launched. Nothing else changes.
    pub fn on_browser_ready(&mut self)
        requires
            old(self).wf(),
            old(self).phase is Browser,
            old(self).browser is Uninitialized,
        ensures
            final(self).wf(),
            final(self).urls == old(self).urls,
            final(self).results == old(self).results,
            final(self).browser_only == old(self).browser_only,
            final(self).phase == old(self).phase,
            final(self).browser is Ready,
    {
        self.browser = BrowserStatus::Ready;
    }

    /// Report that the shared browser failed to launch. The failure is
    /// remembered and never retried within the batch: the current URL —
    /// and, when the plain-HTTP path is disabled, every remaining URL —
    /// fails fast with the launch error.
    pub fn on_browser_init_failure(&mut self, message: String)
        requires
            old(self).wf(),
            old(self).phase is Browser,
            old(self).browser is Uninitialized,
        ensures
            final(self).wf(),
            final(self).urls == old(self).urls,
            final(self).browser_only == old(self).browser_only,
            final(self).browser matches BrowserStatus::Failed { message: m } && m@ == message@,
            old(self).results@.is_prefix_of(final(self).results@),
            final(self).results@.len() > old(self).results@.len(),
            forall|i: int|
                old(self).results@.len() <= i < final(self).results@.len() ==> is_error_for(
                    #[trigger] final(self).results@[i],
                    old(self).urls@[i]@,
                    init_failure_message(message@),
                ),
            !old(self).browser_only ==> final(self).results@.len() == old(self).results@.len()
                + 1,
            !old(self).browser_only ==> final(self).phase == (if final(self).results@.len()
                == old(self).urls@.len() {
                Phase::Finished
            } else {
                Phase::Light
            }),
            old(self).browser_only ==> (final(self).results@.len() == old(self).urls@.len()
                && final(self).phase is Finished),
    {
        let text = init_failure_text(message.as_str());
        self.browser = BrowserStatus::Failed { message };
        let url = self.urls[self.results.len()].clone();
        self.results.push(FetchOutcome::Error { url, message: text.clone() });
        if self.browser_only {
            while self.results.len() < self.urls.len()
                invariant
                    old(self).results@.len() < self.results@.len() <= self.urls@.len(),
                    self.urls == old(self).urls,
                    self.browser_only == old(self).browser_only,
                    self.browser matches BrowserStatus::Failed { message: m } && m@ == message@,
                    self.phase == old(self).phase,
                    text@ == init_failure_message(message@),
                    forall|i: int|
                        0 <= i < old(self).results@.len() ==> #[trigger] self.results@[i]
                            == old(self).results@[i],
                    forall|i: int|
                        old(self).results@.len() <= i < self.results@.len() ==> is_error_for(
                            #[trigger] self.results@[i],
                            self.urls@[i]@,
                            text@,
                        ),
                decreases self.urls@.len() - self.results@.len(),
            {
                let next = self.urls[self.results.len()].clone();
                self.results.push(FetchOutcome::Error { url: next, message: text.clone() });
            }
            self.phase = Phase::Finished;
        } else {
            self.advance();
        }
    }

    /// Report what the browser-backed attempt on the current URL produced.
    /// Rendered HTML is converted and recorded; a failure is recorded as
    /// that URL's error. Either way the batch moves on: per-URL failures
    /// are isolated and the shared browser is kept.
    pub fn on_browser_event(&mut self, ev: BrowserEvent)
        requires
            old(self).wf(),
            old(self).phase is Browser,
            old(self).browser is Ready,
        ensures
            final(self).wf(),
            final(self).urls == old(self).urls,
            final(self).browser == old(self).browser,
            final(self).browser_only == old(self).browser_only,
            old(self).results@.is_prefix_of(final(self).results@),
            final(self).results@.len() == old(self).results@.len() + 1,
            ev matches BrowserEvent::Rendered { html } ==> is_content_for(
                final(self).results@.last(),
                old(self).current_url(),
                markdown_of(html@),
            ),
            ev matches BrowserEvent::Failed { message } ==> is_error_for(
                final(self).results@.last(),
                old(self).current_url(),
                message@,
            ),
            final(self).phase == (if final(self).results@.len() == old(self).urls@.len() {
                Phase::Finished
            } else if old(self).browser_only {
                Phase::Browser
            } else {
                Phase::Light
            }),
    {
        let url = self.urls[self.results.len()].clone();
        match ev {
            BrowserEvent::Rendered { html } => {
                let markdown = crate::convert::convert(html.as_str());
                self.results.push(FetchOutcome::Content { url, markdown });
            },
            BrowserEvent::Failed { message } => {
                self.results.push(FetchOutcome::Error { url, message });
            },
        }
        self.advance();
    }
}

/// Law: a finished batch holds exactly one outcome per input URL, and the
/// i-th outcome belongs to the i-th URL — output order follows input
/// order.
pub proof fn finished_batch_matches_input(b: BatchFetch)
    requires
        b.wf(),
        b.phase is Finished,
    ensures
        b.results@.len() == b.urls@.len(),
        forall|i: int|
            0 <= i < b.urls@.len() ==> outcome_url(#[trigger] b.results@[i]) == b.urls@[i]@,
{
}

/// How one browser event resolves one URL's slot.
pub open spec fn event_outcome_matches(ev: BrowserEvent, url: Seq<char>, o: FetchOutcome) -> bool {
    match ev {
        BrowserEvent::Rendered { html } => is_content_for(o, url, markdown_of(html@)),
        BrowserEvent::Failed { message } => is_error_for(o, url, message@),
    }
}

/// Assemble the outcomes of browser-backed fetches that ran concurrently:
/// the i-th event belongs to the i-th URL, so output order follows input
/// order no matter in what order the fetches finished, and one tab's
/// failure leaves every other slot untouched.
pub fn collect_outcomes(urls: &Vec<String>, events: &Vec<BrowserEvent>) -> (r: Vec<FetchOutcome>)
    requires
        urls@.len() == events@.len(),
    ensures
        r@.len() == urls@.len(),
        forall|i: int|
            0 <= i < r@.len() ==> event_outcome_matches(events@[i], urls@[i]@, #[trigger] r@[i]),
{
    let mut r: Vec<FetchOutcome> = Vec::new();
    let mut i: usize = 0;
    while i < urls.len()
        invariant
            urls@.len() == events@.len(),
            i <= urls@.len(),
            r@.len() == i,
            forall|j: int|
                0 <= j < i ==> event_outcome_matches(events@[j], urls@[j]@, #[trigger] r@[j]),
        decreases urls@.len() - i,
    {
        let url = urls[i].clone();
        match &events[i] {
            BrowserEvent::Rendered { html } => {
                let markdown = crate::convert::convert(html.as_str());
                r.push(FetchOutcome::Content { url, markdown });
            },
            BrowserEvent::Failed { message } => {
                r.push(FetchOutcome::Error { url, message: message.clone() });
            },
        }
        i = i + 1;
    }
    r
}

} // verus!
