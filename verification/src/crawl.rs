//! The crawl of one page: load it once, wait until its content shows, take
//! the rendered document and reduce it to its main content.

use vstd::prelude::*;
use vstd::string::StringExecFns;
use crate::constants::{load_js_script, COMPOSED_HTML_SCRIPT};
use crate::error::{CrawlError, rejects, is_rejected};
use crate::extractor::cascade::{extract_content, is_extraction};
use crate::poller::{Check, CheckView, PollPlan, PollPlanView, Poller, PollerView, Probe, ProbeView,
    probe_views};
use crate::protocol::{Action, ActionView, Event, EventView, NAVIGATION_TIMEOUT_MS};
use crate::text::concat3;

verus! {

/// Milliseconds between two ticks of the content poll.
pub const CONTENT_INTERVAL_MS: u64 = 250;

/// Milliseconds a crawl waits for the content to show.
pub const CONTENT_WAIT_MS: u64 = 10000;

/// Milliseconds of rest once the content shows.
pub const CONTENT_SETTLE_MS: u64 = 300;

/// Expression for the root component of a single-page application.
pub const APP_COMPONENT: &'static str = "document.querySelector('app-post')";

/// Expression for the root of a versioned application.
pub const APP_ROOT: &'static str = "document.querySelector('[ng-version]')";

/// Expression for the usual content areas.
pub const CONTENT_AREA: &'static str =
    "document.querySelector('main, article, .post-content, .article-content')";

/// The script that says whether `indicator` designates anything.
pub open spec fn presence_script(indicator: Seq<char>) -> Seq<char> {
    "!!("@ + indicator + ")"@
}

/// The script that says whether what `indicator` designates holds more than
/// a hundred characters of text.
pub open spec fn richness_script(indicator: Seq<char>) -> Seq<char> {
    "("@ + indicator + ").textContent.trim().length > 100"@
}

/// The probe for content under `indicator`: it is there, and it is rich.
pub open spec fn content_probe(indicator: Seq<char>) -> ProbeView {
    ProbeView {
        presence: CheckView { script: presence_script(indicator), expected: "true"@ },
        richness: Some(CheckView { script: richness_script(indicator), expected: "true"@ }),
    }
}

/// The poll for the content of a page.
pub open spec fn content_plan() -> PollPlanView {
    PollPlanView {
        probes: seq![
            content_probe(APP_COMPONENT@),
            content_probe(APP_ROOT@),
            content_probe(CONTENT_AREA@),
        ],
        max_wait_ms: CONTENT_WAIT_MS as nat,
        interval_ms: CONTENT_INTERVAL_MS as nat,
        settle_ms: CONTENT_SETTLE_MS as nat,
    }
}

/// The probe for content under `indicator`.
pub fn probe_for(indicator: &str) -> (probe: Probe)
    ensures
        probe@ == content_probe(indicator@),
{
    let presence = Check {
        script: concat3("!!(", indicator, ")"),
        expected: String::from_str("true"),
    };
    let richness = Check {
        script: concat3("(", indicator, ").textContent.trim().length > 100"),
        expected: String::from_str("true"),
    };
    Probe { presence, richness: Some(richness) }
}

/// The poll for the content of a page.
pub fn content_poll_plan() -> (plan: PollPlan)
    ensures
        plan@ == content_plan(),
{
    let mut probes: Vec<Probe> = Vec::new();
    probes.push(probe_for(APP_COMPONENT));
    probes.push(probe_for(APP_ROOT));
    probes.push(probe_for(CONTENT_AREA));
    assert(probe_views(probes@) =~= seq![
        content_probe(APP_COMPONENT@),
        content_probe(APP_ROOT@),
        content_probe(CONTENT_AREA@),
    ]);
    PollPlan::new(probes, CONTENT_WAIT_MS, CONTENT_INTERVAL_MS, CONTENT_SETTLE_MS).unwrap()
}

/// Where a crawl stands.
pub enum CrawlPhaseView {
    /// A page is being opened.
    Opening,
    /// The address is being loaded.
    Navigating,
    /// The content is awaited.
    AwaitingContent(PollerView),
    /// The rendered document is being taken.
    Serializing,
    /// The rendered document is here.
    Serialized(Seq<char>),
    /// The crawl has failed.
    Failed(CrawlError),
}

/// Mathematical value of a [`Crawl`].
pub struct CrawlView {
    /// The address of the page.
    pub url: Seq<char>,
    /// Where the crawl stands.
    pub phase: CrawlPhaseView,
}

impl CrawlView {
    /// The state in which a crawl of `url` starts.
    pub open spec fn start(url: Seq<char>) -> CrawlView {
        CrawlView { url, phase: CrawlPhaseView::Opening }
    }

    /// This state in another phase.
    pub open spec fn at(self, phase: CrawlPhaseView) -> CrawlView {
        CrawlView { url: self.url, phase }
    }

    /// The wait for the content stands at `poll`. Whatever its verdict, the
    /// rendered document is taken next: a page that never looked ready is
    /// read as it is.
    pub open spec fn content_poll(self, poll: PollerView) -> CrawlView {
        if poll.verdict() is Some {
            self.at(CrawlPhaseView::Serializing)
        } else {
            self.at(CrawlPhaseView::AwaitingContent(poll))
        }
    }

    /// The state after `event`. An event that does not answer the pending
    /// action changes nothing.
    pub open spec fn next(self, event: EventView) -> CrawlView {
        match (self.phase, event) {
            (CrawlPhaseView::Opening, EventView::PageOpened) => self.at(CrawlPhaseView::Navigating),
            (CrawlPhaseView::Opening, EventView::EngineFailed) => self.at(
                CrawlPhaseView::Failed(CrawlError::EngineUnavailable),
            ),
            (CrawlPhaseView::Navigating, EventView::Navigated { status }) => {
                if rejects(status) {
                    self.at(CrawlPhaseView::Failed(CrawlError::Navigation { status: status->0 }))
                } else {
                    self.content_poll(PollerView::begin(content_plan()))
                }
            },
            (CrawlPhaseView::AwaitingContent(poll), _) => self.content_poll(poll.next(event)),
            (CrawlPhaseView::Serializing, EventView::Evaluated { value }) => {
                match value {
                    Some(html) => self.at(CrawlPhaseView::Serialized(html)),
                    None => self.at(CrawlPhaseView::Failed(CrawlError::EngineUnavailable)),
                }
            },
            _ => self,
        }
    }

    /// The action that the state waits for.
    pub open spec fn pending(self) -> ActionView {
        match self.phase {
            CrawlPhaseView::Opening => ActionView::OpenPage,
            CrawlPhaseView::Navigating => ActionView::Navigate {
                url: self.url,
                timeout_millis: NAVIGATION_TIMEOUT_MS as nat,
            },
            CrawlPhaseView::AwaitingContent(poll) => poll.pending(),
            CrawlPhaseView::Serializing => ActionView::Evaluate { script: COMPOSED_HTML_SCRIPT@ },
            CrawlPhaseView::Serialized(_) => ActionView::Done,
            CrawlPhaseView::Failed(_) => ActionView::Done,
        }
    }

    /// Whether the crawl is over.
    pub open spec fn finished(self) -> bool {
        self.phase is Serialized || self.phase is Failed
    }

    /// What holds of every state of a crawl: a poll that is awaited is a
    /// running poll for the content.
    pub open spec fn coherent(self) -> bool {
        match self.phase {
            CrawlPhaseView::AwaitingContent(poll) => poll.coherent() && poll.plan == content_plan()
                && poll.verdict() is None,
            _ => true,
        }
    }

    /// The state after a sequence of events.
    pub open spec fn run(self, events: Seq<EventView>) -> CrawlView
        decreases events.len(),
    {
        if events.len() == 0 {
            self
        } else {
            self.run(events.drop_last()).next(events.last())
        }
    }

    /// The number of page loads that were reported while `events` came in.
    pub open spec fn loads(self, events: Seq<EventView>) -> nat
        decreases events.len(),
    {
        if events.len() == 0 {
            0
        } else {
            let before = self.run(events.drop_last());
            let earlier = self.loads(events.drop_last());
            if before.phase is Navigating && events.last() is Navigated {
                earlier + 1
            } else {
                earlier
            }
        }
    }
}

/// One event keeps a coherent crawl coherent and on its address; once the
/// crawl is over nothing changes it; and the address is loaded again from no
/// state.
pub proof fn lemma_next_keeps_coherent(state: CrawlView, event: EventView)
    requires
        state.coherent(),
    ensures
        state.next(event).coherent(),
        state.next(event).url == state.url,
        state.finished() ==> state.next(event) == state,
        state.next(event).phase is Navigating ==> state.phase is Opening || state.phase
            is Navigating,
        state.phase is Opening || state.next(event).phase !is Opening,
{
    match (state.phase, event) {
        (CrawlPhaseView::Navigating, EventView::Navigated { status }) => {
            crate::poller::law_tick_bound(content_plan(), Seq::empty());
        },
        (CrawlPhaseView::AwaitingContent(poll), _) => {
            crate::poller::lemma_next_keeps_coherent(poll, event);
        },
        _ => {},
    }
}

/// Once a load was reported, a crawl is past opening and loading.
proof fn lemma_load_is_left_behind(url: Seq<char>, events: Seq<EventView>)
    ensures
        CrawlView::start(url).run(events).coherent(),
        CrawlView::start(url).loads(events) <= 1,
        CrawlView::start(url).loads(events) == 0 || !(CrawlView::start(url).run(events).phase
            is Opening || CrawlView::start(url).run(events).phase is Navigating),
    decreases events.len(),
{
    if events.len() > 0 {
        lemma_load_is_left_behind(url, events.drop_last());
        lemma_next_keeps_coherent(CrawlView::start(url).run(events.drop_last()), events.last());
    }
}

/// A crawl loads its page once: whatever is reported, no second load is
/// made, so a rejected load is never tried again.
pub proof fn law_single_load(url: Seq<char>, events: Seq<EventView>)
    ensures
        CrawlView::start(url).loads(events) <= 1,
{
    lemma_load_is_left_behind(url, events);
}

/// No retry: once the load of a crawl was rejected, the crawl has failed
/// with that status, whatever is reported afterwards.
pub proof fn law_rejected_load_is_final(state: CrawlView, status: u16, events: Seq<EventView>)
    requires
        state.phase is Navigating,
        rejects(Some(status)),
    ensures
        state.next(EventView::Navigated { status: Some(status) }).run(events) == state.at(
            CrawlPhaseView::Failed(CrawlError::Navigation { status }),
        ),
    decreases events.len(),
{
    if events.len() > 0 {
        law_rejected_load_is_final(state, status, events.drop_last());
    }
}

/// Where a crawl stands, with the poll it waits on or the document it took.
enum CrawlPhase {
    Opening,
    Navigating,
    AwaitingContent(Poller),
    Serializing,
    Serialized(String),
    Failed(CrawlError),
}

impl View for CrawlPhase {
    type V = CrawlPhaseView;

    closed spec fn view(&self) -> CrawlPhaseView {
        match self {
            CrawlPhase::Opening => CrawlPhaseView::Opening,
            CrawlPhase::Navigating => CrawlPhaseView::Navigating,
            CrawlPhase::AwaitingContent(poll) => CrawlPhaseView::AwaitingContent(poll@),
            CrawlPhase::Serializing => CrawlPhaseView::Serializing,
            CrawlPhase::Serialized(html) => CrawlPhaseView::Serialized(html@),
            CrawlPhase::Failed(error) => CrawlPhaseView::Failed(*error),
        }
    }
}

/// A crawl in progress. It names the action it waits for and takes in the
/// event that reports on it, until it is over.
pub struct Crawl {
    url: String,
    phase: CrawlPhase,
}

impl View for Crawl {
    type V = CrawlView;

    closed spec fn view(&self) -> CrawlView {
        CrawlView { url: self.url@, phase: self.phase@ }
    }
}

/// The crawl of `url` with its wait for the content at `poll`.
fn content_poll(url: String, poll: Poller) -> (next: Crawl)
    requires
        poll@.coherent(),
        poll@.plan == content_plan(),
    ensures
        next@ == CrawlView::start(url@).content_poll(poll@),
{
    if poll.verdict().is_some() {
        Crawl { url, phase: CrawlPhase::Serializing }
    } else {
        Crawl { url, phase: CrawlPhase::AwaitingContent(poll) }
    }
}

impl Crawl {
    #[verifier::type_invariant]
    spec fn holds(self) -> bool {
        self@.coherent()
    }

    /// A crawl of the page at `url`.
    pub fn start(url: &str) -> (crawl: Crawl)
        ensures
            crawl@ == CrawlView::start(url@),
            crawl@.coherent(),
    {
        Crawl { url: String::from_str(url), phase: CrawlPhase::Opening }
    }

    /// The action that this crawl waits for; `Done` once it is over.
    pub fn pending(&self) -> (action: Action)
        ensures
            action@ == self@.pending(),
            self@.coherent(),
    {
        proof {
            use_type_invariant(self);
        }
        match &self.phase {
            CrawlPhase::Opening => Action::OpenPage,
            CrawlPhase::Navigating => Action::Navigate {
                url: self.url.clone(),
                timeout_millis: NAVIGATION_TIMEOUT_MS,
            },
            CrawlPhase::AwaitingContent(poll) => poll.pending(),
            CrawlPhase::Serializing => Action::Evaluate { script: String::from_str(load_js_script()) },
            CrawlPhase::Serialized(_) => Action::Done,
            CrawlPhase::Failed(_) => Action::Done,
        }
    }

    /// Whether this crawl is over.
    pub fn is_finished(&self) -> (done: bool)
        ensures
            done == self@.finished(),
    {
        match &self.phase {
            CrawlPhase::Serialized(_) => true,
            CrawlPhase::Failed(_) => true,
            _ => false,
        }
    }

    /// Takes in `event` and moves on. An event that does not answer the
    /// pending action changes nothing.
    pub fn step(self, event: Event) -> (next: Crawl)
        ensures
            next@ == self@.next(event@),
            next@.coherent(),
    {
        proof {
            use_type_invariant(&self);
            lemma_next_keeps_coherent(self@, event@);
        }
        let Crawl { url, phase } = self;
        match (phase, event) {
            (CrawlPhase::Opening, Event::PageOpened) => Crawl { url, phase: CrawlPhase::Navigating },
            (CrawlPhase::Opening, Event::EngineFailed) => Crawl {
                url,
                phase: CrawlPhase::Failed(CrawlError::EngineUnavailable),
            },
            (CrawlPhase::Navigating, Event::Navigated { status }) => {
                match status {
                    Some(code) if is_rejected(status) => Crawl {
                        url,
                        phase: CrawlPhase::Failed(CrawlError::Navigation { status: code }),
                    },
                    _ => content_poll(url, Poller::begin(content_poll_plan())),
                }
            },
            (CrawlPhase::AwaitingContent(poll), event) => {
                let poll = poll.advance(&event);
                content_poll(url, poll)
            },
            (CrawlPhase::Serializing, Event::Evaluated { value }) => {
                match value {
                    Some(html) => Crawl { url, phase: CrawlPhase::Serialized(html) },
                    None => Crawl { url, phase: CrawlPhase::Failed(CrawlError::EngineUnavailable) },
                }
            },
            (phase, _) => Crawl { url, phase },
        }
    }

    /// The outcome, once the crawl is over: the main content of the rendered
    /// document, as the extraction cascade finds it, or the failure. `None`
    /// while the crawl is still running.
    pub fn into_outcome(self) -> (outcome: Option<Result<String, CrawlError>>)
        ensures
            match outcome {
                Some(Ok(content)) => self@.phase matches CrawlPhaseView::Serialized(html)
                    && is_extraction(html, content@),
                Some(Err(error)) => self@.phase == CrawlPhaseView::Failed(error),
                None => !self@.finished(),
            },
    {
        let Crawl { url, phase } = self;
        match phase {
            CrawlPhase::Serialized(html) => Some(Ok(extract_content(html.as_str()))),
            CrawlPhase::Failed(error) => Some(Err(error)),
            _ => None,
        }
    }
}

} // verus!
