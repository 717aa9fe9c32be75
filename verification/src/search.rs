//! A search of the documentation site: up to three attempts, each reading the
//! first results page and walking the further pages, with a growing pause
//! between failed attempts.

use vstd::prelude::*;
use vstd::string::StringExecFns;
use vstd::string::StringSliceAdditionalSpecFns;
use crate::error::{CrawlError, rejects, is_rejected};
use crate::links::{SeenSet, absorb, absorb_all, admit_links, well_formed, lemma_absorb_well_formed};
use crate::models::{Link, LinkView, SearchResult, link_views, hrefs};
use crate::poller::{Check, CheckView, PollPlan, PollPlanView, Poller, PollerView, Probe, ProbeView,
    probe_views};
use crate::protocol::{Action, ActionView, Event, EventView, NAVIGATION_TIMEOUT_MS};
use crate::text::{concat3, decimal, decimal_text};
use crate::url::{search_url, percent_encoded, RESULTS_URL_PREFIX};

verus! {

/// The number of attempts a search makes before it gives up.
pub const MAX_ATTEMPTS: u8 = 3;

/// Milliseconds between two ticks of any poll.
pub const POLL_INTERVAL_MS: u64 = 250;

/// Milliseconds a search waits for the results to show.
pub const RESULTS_WAIT_MS: u64 = 10000;

/// Milliseconds of rest once the results show.
pub const RESULTS_SETTLE_MS: u64 = 300;

/// Milliseconds a page change is given to show its loading indicator.
pub const LOAD_START_WAIT_MS: u64 = 2000;

/// Milliseconds a page change is given to finish loading.
pub const LOAD_END_WAIT_MS: u64 = 10000;

/// Milliseconds of rest once a page change is verified.
pub const LOAD_SETTLE_MS: u64 = 500;

/// Script: whether a result title is in the page.
pub const RESULTS_READY_SCRIPT: &'static str = "!!(document.querySelector('.gs-title'))";

/// Script: whether the loading indicator is in the page.
pub const LOADING_SCRIPT: &'static str =
    "!!document.querySelector('.gsc-control-wrapper-cse.gsc-loading-fade')";

/// Script: the result links of the page, as a JSON list of `href` and `text`.
pub const PRIMARY_LINKS_SCRIPT: &'static str =
    r#"JSON.stringify(Array.from(document.querySelectorAll('.gsc-webResult.gsc-result .gs-webResult .gs-title a')).map(a => ({href: a.href, text: a.textContent.trim()})))"#;

/// Script: the links of the article body, for a page without result links.
pub const FALLBACK_LINKS_SCRIPT: &'static str =
    r#"JSON.stringify(Array.from(document.querySelectorAll('.devsite-article a')).filter(a => a.href.startsWith('https://developer.android.com/') && a.textContent.trim()).reduce((acc, a) => { if (!acc.some(item => item.href === a.href)) acc.push({href: a.href, text: a.textContent.trim()}); return acc; }, []))"#;

/// Selector of the control for a results page, up to the page number.
pub const PAGE_CONTROL_HEAD: &'static str = ".gsc-cursor-page:nth-child(";

/// Selector of the control for a results page, after the page number.
pub const PAGE_CONTROL_TAIL: &'static str = ")";

/// Script that reads the label of a page control, up to the page number.
pub const PAGE_LABEL_HEAD: &'static str = "document.querySelector('.gsc-cursor-page:nth-child(";

/// Script that reads the label of a page control, after the page number.
pub const PAGE_LABEL_TAIL: &'static str = ")')?.textContent";

/// Two to the power `n`.
pub open spec fn two_to(n: nat) -> nat
    decreases n,
{
    if n == 0 {
        1
    } else {
        2 * two_to((n - 1) as nat)
    }
}

/// Seconds of pause after the failed attempt number `attempt` (counted from
/// one): two to the power `attempt - 1`.
pub open spec fn backoff_seconds(attempt: nat) -> nat
    recommends
        attempt >= 1,
{
    two_to((attempt - 1) as nat)
}

/// Seconds of pause after the failed attempt number `attempt`.
pub fn backoff_secs(attempt: u8) -> (seconds: u64)
    requires
        1 <= attempt <= MAX_ATTEMPTS,
    ensures
        seconds == backoff_seconds(attempt as nat),
{
    let mut seconds: u64 = 1;
    let mut done: u8 = 1;
    while done < attempt
        invariant
            1 <= done <= attempt <= 3,
            seconds == two_to((done - 1) as nat),
            seconds <= 4,
        decreases attempt - done,
    {
        proof {
            reveal_with_fuel(two_to, 4);
        }
        seconds = seconds * 2;
        done = done + 1;
    }
    seconds
}

/// The selector of the control that leads to results page `page`.
pub open spec fn page_control(page: nat) -> Seq<char> {
    PAGE_CONTROL_HEAD@ + decimal(page) + PAGE_CONTROL_TAIL@
}

/// The script that reads the label of the control for results page `page`.
pub open spec fn page_label_script(page: nat) -> Seq<char> {
    PAGE_LABEL_HEAD@ + decimal(page) + PAGE_LABEL_TAIL@
}

/// The poll for the results of the first page: a result title is there.
pub open spec fn results_plan() -> PollPlanView {
    PollPlanView {
        probes: seq![
            ProbeView {
                presence: CheckView { script: RESULTS_READY_SCRIPT@, expected: "true"@ },
                richness: None,
            },
        ],
        max_wait_ms: RESULTS_WAIT_MS as nat,
        interval_ms: POLL_INTERVAL_MS as nat,
        settle_ms: RESULTS_SETTLE_MS as nat,
    }
}

/// The poll for the start of a page change: the loading indicator shows.
pub open spec fn load_start_plan() -> PollPlanView {
    PollPlanView {
        probes: seq![
            ProbeView {
                presence: CheckView { script: LOADING_SCRIPT@, expected: "true"@ },
                richness: None,
            },
        ],
        max_wait_ms: LOAD_START_WAIT_MS as nat,
        interval_ms: POLL_INTERVAL_MS as nat,
        settle_ms: 0,
    }
}

/// The poll for the end of the change to results page `page`: the loading
/// indicator is gone and the control for `page` is labelled with its number.
pub open spec fn load_end_plan(page: nat) -> PollPlanView {
    PollPlanView {
        probes: seq![
            ProbeView {
                presence: CheckView { script: LOADING_SCRIPT@, expected: "false"@ },
                richness: Some(
                    CheckView { script: page_label_script(page), expected: decimal(page) },
                ),
            },
        ],
        max_wait_ms: LOAD_END_WAIT_MS as nat,
        interval_ms: POLL_INTERVAL_MS as nat,
        settle_ms: LOAD_SETTLE_MS as nat,
    }
}

/// Where a search stands.
pub enum SearchPhaseView {
    /// A page is being opened.
    Opening,
    /// The results address is being loaded.
    Navigating,
    /// The results of the first page are awaited.
    AwaitingResults(PollerView),
    /// The result links of the first page are being read.
    ReadingPrimary,
    /// The first page had no result links; the broader list is being read.
    ReadingFallback,
    /// The control of the next page is being clicked.
    Clicking,
    /// The loading indicator of the page change is awaited.
    AwaitingLoadStart(PollerView),
    /// The end of the page change is awaited.
    AwaitingLoadEnd(PollerView),
    /// The result links of a further page are being read.
    ReadingPage,
    /// A failed attempt is followed by its pause.
    BackingOff,
    /// The search has links to hand back.
    Succeeded,
    /// The search has failed.
    Failed(CrawlError),
}

/// Mathematical value of a [`Search`].
pub struct SearchView {
    /// The address of the results page.
    pub url: Seq<char>,
    /// The number of results pages asked for.
    pub max_page: nat,
    /// The number of the attempt at hand, counted from one.
    pub attempt: nat,
    /// The results page at hand, counted from one.
    pub page: nat,
    /// The links taken up in this attempt, in first-seen order.
    pub links: Seq<LinkView>,
    /// Where the attempt stands.
    pub phase: SearchPhaseView,
}

impl SearchView {
    /// The state in which a search for `query` starts.
    pub open spec fn start(query_bytes: Seq<u8>, max_page: nat) -> SearchView {
        SearchView {
            url: RESULTS_URL_PREFIX@ + percent_encoded(query_bytes),
            max_page,
            attempt: 1,
            page: 1,
            links: Seq::empty(),
            phase: SearchPhaseView::Opening,
        }
    }

    /// This state in another phase.
    pub open spec fn at(self, phase: SearchPhaseView) -> SearchView {
        SearchView {
            url: self.url,
            max_page: self.max_page,
            attempt: self.attempt,
            page: self.page,
            links: self.links,
            phase,
        }
    }

    /// The attempt at hand has failed with `error`: the search fails with it
    /// when this was the last attempt, else the pause before the next begins.
    pub open spec fn fail_attempt(self, error: CrawlError) -> SearchView {
        if self.attempt >= MAX_ATTEMPTS {
            self.at(SearchPhaseView::Failed(error))
        } else {
            self.at(SearchPhaseView::BackingOff)
        }
    }

    /// The next attempt begins: nothing is kept of the last one.
    pub open spec fn retry(self) -> SearchView {
        SearchView {
            url: self.url,
            max_page: self.max_page,
            attempt: self.attempt + 1,
            page: 1,
            links: Seq::empty(),
            phase: SearchPhaseView::Navigating,
        }
    }

    /// The attempt at hand is over: it succeeds when it has any link.
    pub open spec fn conclude(self) -> SearchView {
        if self.links.len() > 0 {
            self.at(SearchPhaseView::Succeeded)
        } else {
            self.fail_attempt(CrawlError::ExtractionEmpty)
        }
    }

    /// Results page `page` is next: its control is clicked when the page was
    /// asked for, else the attempt is over.
    pub open spec fn turn_to(self, page: nat) -> SearchView {
        if page <= self.max_page {
            SearchView {
                url: self.url,
                max_page: self.max_page,
                attempt: self.attempt,
                page,
                links: self.links,
                phase: SearchPhaseView::Clicking,
            }
        } else {
            self.conclude()
        }
    }

    /// This state after the candidates of `batch` went through the filter.
    pub open spec fn taking(self, batch: Seq<LinkView>) -> SearchView {
        SearchView {
            url: self.url,
            max_page: self.max_page,
            attempt: self.attempt,
            page: self.page,
            links: absorb(self.links, batch),
            phase: self.phase,
        }
    }

    /// The wait for the first results stands at `poll`. Whatever its verdict,
    /// the links are read next.
    pub open spec fn results_poll(self, poll: PollerView) -> SearchView {
        if poll.verdict() is Some {
            self.at(SearchPhaseView::ReadingPrimary)
        } else {
            self.at(SearchPhaseView::AwaitingResults(poll))
        }
    }

    /// The wait for the loading indicator stands at `poll`. Whatever its
    /// verdict, the end of the page change is awaited next.
    pub open spec fn load_start_poll(self, poll: PollerView) -> SearchView {
        if poll.verdict() is Some {
            self.load_end_poll(PollerView::begin(load_end_plan(self.page)))
        } else {
            self.at(SearchPhaseView::AwaitingLoadStart(poll))
        }
    }

    /// The wait for the end of the page change stands at `poll`. Once the
    /// page is verified its links are read; if it never is, pagination stops
    /// and the attempt is over with what it has.
    pub open spec fn load_end_poll(self, poll: PollerView) -> SearchView {
        match poll.verdict() {
            Some(true) => self.at(SearchPhaseView::ReadingPage),
            Some(false) => self.conclude(),
            None => self.at(SearchPhaseView::AwaitingLoadEnd(poll)),
        }
    }

    /// The state after `event`. An event that does not answer the pending
    /// action changes nothing.
    pub open spec fn next(self, event: EventView) -> SearchView {
        match (self.phase, event) {
            (SearchPhaseView::Opening, EventView::PageOpened) => self.at(
                SearchPhaseView::Navigating,
            ),
            (SearchPhaseView::Opening, EventView::EngineFailed) => self.at(
                SearchPhaseView::Failed(CrawlError::EngineUnavailable),
            ),
            (SearchPhaseView::Navigating, EventView::Navigated { status }) => {
                if rejects(status) {
                    self.fail_attempt(CrawlError::Navigation { status: status->0 })
                } else {
                    self.results_poll(PollerView::begin(results_plan()))
                }
            },
            (SearchPhaseView::AwaitingResults(poll), _) => self.results_poll(poll.next(event)),
            (SearchPhaseView::ReadingPrimary, EventView::LinksRead { links }) => {
                let taken = self.taking(links);
                if taken.links.len() == 0 {
                    taken.at(SearchPhaseView::ReadingFallback)
                } else {
                    taken.turn_to(2)
                }
            },
            (SearchPhaseView::ReadingFallback, EventView::LinksRead { links }) => self.taking(
                links,
            ).turn_to(2),
            (SearchPhaseView::Clicking, EventView::Clicked { ok }) => {
                if ok {
                    self.load_start_poll(PollerView::begin(load_start_plan()))
                } else {
                    self.conclude()
                }
            },
            (SearchPhaseView::AwaitingLoadStart(poll), _) => self.load_start_poll(
                poll.next(event),
            ),
            (SearchPhaseView::AwaitingLoadEnd(poll), _) => self.load_end_poll(poll.next(event)),
            (SearchPhaseView::ReadingPage, EventView::LinksRead { links }) => self.taking(
                links,
            ).turn_to(self.page + 1),
            (SearchPhaseView::BackingOff, EventView::Slept) => self.retry(),
            _ => self,
        }
    }

    /// The action that the state waits for.
    pub open spec fn pending(self) -> ActionView {
        match self.phase {
            SearchPhaseView::Opening => ActionView::OpenPage,
            SearchPhaseView::Navigating => ActionView::Navigate {
                url: self.url,
                timeout_millis: NAVIGATION_TIMEOUT_MS as nat,
            },
            SearchPhaseView::AwaitingResults(poll) => poll.pending(),
            SearchPhaseView::ReadingPrimary => ActionView::ReadLinks {
                script: PRIMARY_LINKS_SCRIPT@,
            },
            SearchPhaseView::ReadingFallback => ActionView::ReadLinks {
                script: FALLBACK_LINKS_SCRIPT@,
            },
            SearchPhaseView::Clicking => ActionView::Click { selector: page_control(self.page) },
            SearchPhaseView::AwaitingLoadStart(poll) => poll.pending(),
            SearchPhaseView::AwaitingLoadEnd(poll) => poll.pending(),
            SearchPhaseView::ReadingPage => ActionView::ReadLinks { script: PRIMARY_LINKS_SCRIPT@ },
            SearchPhaseView::BackingOff => ActionView::Sleep {
                millis: 1000 * backoff_seconds(self.attempt),
            },
            SearchPhaseView::Succeeded => ActionView::Done,
            SearchPhaseView::Failed(_) => ActionView::Done,
        }
    }

    /// The outcome, once there is one: the links in first-seen order, or the
    /// failure.
    pub open spec fn outcome(self) -> Option<Result<Seq<LinkView>, CrawlError>> {
        match self.phase {
            SearchPhaseView::Succeeded => Some(Ok(self.links)),
            SearchPhaseView::Failed(error) => Some(Err(error)),
            _ => None,
        }
    }

    /// Whether `poll` is a running poll on `plan`.
    pub open spec fn runs(poll: PollerView, plan: PollPlanView) -> bool {
        poll.coherent() && poll.plan == plan && poll.verdict() is None
    }

    /// What holds of every state of a search: the attempt is one of the
    /// first three, the links are a well-formed result, a failed attempt
    /// keeps no link, and only pages that were asked for are turned to.
    pub open spec fn coherent(self) -> bool {
        &&& 1 <= self.attempt <= MAX_ATTEMPTS
        &&& well_formed(self.links)
        &&& match self.phase {
            SearchPhaseView::Opening => self.attempt == 1 && self.links.len() == 0,
            SearchPhaseView::Navigating => self.links.len() == 0,
            SearchPhaseView::AwaitingResults(poll) => self.links.len() == 0 && SearchView::runs(
                poll,
                results_plan(),
            ),
            SearchPhaseView::ReadingPrimary => self.links.len() == 0,
            SearchPhaseView::ReadingFallback => self.links.len() == 0,
            SearchPhaseView::Clicking => 2 <= self.page <= self.max_page,
            SearchPhaseView::AwaitingLoadStart(poll) => 2 <= self.page <= self.max_page
                && SearchView::runs(poll, load_start_plan()),
            SearchPhaseView::AwaitingLoadEnd(poll) => 2 <= self.page <= self.max_page
                && SearchView::runs(poll, load_end_plan(self.page)),
            SearchPhaseView::ReadingPage => 2 <= self.page <= self.max_page,
            SearchPhaseView::BackingOff => self.attempt < MAX_ATTEMPTS && self.links.len() == 0,
            SearchPhaseView::Succeeded => self.links.len() > 0,
            SearchPhaseView::Failed(error) => self.links.len() == 0 && (error
                is EngineUnavailable || self.attempt == MAX_ATTEMPTS),
        }
    }

    /// The state after a sequence of events.
    pub open spec fn run(self, events: Seq<EventView>) -> SearchView
        decreases events.len(),
    {
        if events.len() == 0 {
            self
        } else {
            self.run(events.drop_last()).next(events.last())
        }
    }

    /// The pauses between attempts that were waited out while `events` came
    /// in, in milliseconds and in order.
    pub open spec fn pauses(self, events: Seq<EventView>) -> Seq<nat>
        decreases events.len(),
    {
        if events.len() == 0 {
            Seq::empty()
        } else {
            let before = self.run(events.drop_last());
            let earlier = self.pauses(events.drop_last());
            if before.phase is BackingOff && events.last() is Slept {
                earlier.push(1000 * backoff_seconds(before.attempt))
            } else {
                earlier
            }
        }
    }

    /// The batches of candidates that were read in the attempt at hand while
    /// `events` came in, in order: each attempt starts with none.
    pub open spec fn batches(self, events: Seq<EventView>) -> Seq<Seq<LinkView>>
        decreases events.len(),
    {
        if events.len() == 0 {
            Seq::empty()
        } else {
            let before = self.run(events.drop_last());
            let earlier = self.batches(events.drop_last());
            match (before.phase, events.last()) {
                (SearchPhaseView::ReadingPrimary, EventView::LinksRead { links }) => earlier.push(
                    links,
                ),
                (SearchPhaseView::ReadingFallback, EventView::LinksRead { links }) => earlier.push(
                    links,
                ),
                (SearchPhaseView::ReadingPage, EventView::LinksRead { links }) => earlier.push(
                    links,
                ),
                (SearchPhaseView::BackingOff, EventView::Slept) => Seq::empty(),
                _ => earlier,
            }
        }
    }

    /// The number of page loads that were reported while `events` came in.
    pub open spec fn loads(self, events: Seq<EventView>) -> nat
        decreases events.len(),
    {
        if events.len() == 0 {
            0
        } else {
            let before = self.run(events.drop_last());
            let earlier = self.loads(events.drop_last());
            if before.phase is Navigating && events.last() is Navigated {
                earlier + 1
            } else {
                earlier
            }
        }
    }
}

/// One event keeps a coherent search coherent. Only the end of a pause
/// begins another attempt, and an outcome is final.
pub proof fn lemma_next_keeps_coherent(state: SearchView, event: EventView)
    requires
        state.coherent(),
    ensures
        state.next(event).coherent(),
        state.next(event).url == state.url,
        state.next(event).max_page == state.max_page,
        state.next(event).attempt == if state.phase is BackingOff && event is Slept {
            state.attempt + 1
        } else {
            state.attempt
        },
        state.outcome() is Some ==> state.next(event) == state,
        state.next(event).phase is Navigating ==> (state.phase is Opening || state.phase
            is BackingOff || state.next(event) == state),
{
    match (state.phase, event) {
        (SearchPhaseView::Navigating, EventView::Navigated { status }) => {
            crate::poller::law_tick_bound(results_plan(), Seq::empty());
        },
        (SearchPhaseView::AwaitingResults(poll), _) => {
            crate::poller::lemma_next_keeps_coherent(poll, event);
        },
        (SearchPhaseView::ReadingPrimary, EventView::LinksRead { links }) => {
            lemma_absorb_well_formed(state.links, links);
        },
        (SearchPhaseView::ReadingFallback, EventView::LinksRead { links }) => {
            lemma_absorb_well_formed(state.links, links);
        },
        (SearchPhaseView::Clicking, EventView::Clicked { ok }) => {
            crate::poller::law_tick_bound(load_start_plan(), Seq::empty());
            crate::poller::law_tick_bound(load_end_plan(state.page), Seq::empty());
        },
        (SearchPhaseView::AwaitingLoadStart(poll), _) => {
            crate::poller::lemma_next_keeps_coherent(poll, event);
            crate::poller::law_tick_bound(load_end_plan(state.page), Seq::empty());
        },
        (SearchPhaseView::AwaitingLoadEnd(poll), _) => {
            crate::poller::lemma_next_keeps_coherent(poll, event);
        },
        (SearchPhaseView::ReadingPage, EventView::LinksRead { links }) => {
            lemma_absorb_well_formed(state.links, links);
        },
        _ => {},
    }
}

/// Every state that a search reaches is coherent: in particular its attempt
/// is one of the first three and its links are a well-formed result.
pub proof fn lemma_run_coherent(query_bytes: Seq<u8>, max_page: nat, events: Seq<EventView>)
    ensures
        SearchView::start(query_bytes, max_page).run(events).coherent(),
    decreases events.len(),
{
    if events.len() > 0 {
        lemma_run_coherent(query_bytes, max_page, events.drop_last());
        lemma_next_keeps_coherent(
            SearchView::start(query_bytes, max_page).run(events.drop_last()),
            events.last(),
        );
    }
}

/// Whatever the page reports, the links that a search holds are what the
/// filter makes of the batches read in the attempt at hand, primary,
/// fallback and further pages alike: so no address occurs twice, every link
/// lies under the required prefix, and the links stand in first-seen order.
pub proof fn law_links_are_filtered_batches(
    query_bytes: Seq<u8>,
    max_page: nat,
    events: Seq<EventView>,
)
    ensures
        SearchView::start(query_bytes, max_page).run(events).links == absorb_all(
            SearchView::start(query_bytes, max_page).batches(events),
        ),
        well_formed(SearchView::start(query_bytes, max_page).run(events).links),
    decreases events.len(),
{
    let start = SearchView::start(query_bytes, max_page);
    lemma_run_coherent(query_bytes, max_page, events);
    if events.len() > 0 {
        let front = events.drop_last();
        law_links_are_filtered_batches(query_bytes, max_page, front);
        lemma_run_coherent(query_bytes, max_page, front);
        let before = start.run(front);
        let earlier = start.batches(front);
        match (before.phase, events.last()) {
            (SearchPhaseView::ReadingPrimary, EventView::LinksRead { links }) => {
                assert(earlier.push(links).drop_last() =~= earlier);
            },
            (SearchPhaseView::ReadingFallback, EventView::LinksRead { links }) => {
                assert(earlier.push(links).drop_last() =~= earlier);
            },
            (SearchPhaseView::ReadingPage, EventView::LinksRead { links }) => {
                assert(earlier.push(links).drop_last() =~= earlier);
            },
            _ => {},
        }
    }
}

/// While a search is opening its page or loading the results address, it
/// has reported fewer loads than the number of its attempt; at any time it
/// has reported no more.
proof fn lemma_loads_within_attempts(query_bytes: Seq<u8>, max_page: nat, events: Seq<EventView>)
    ensures
        ({
            let start = SearchView::start(query_bytes, max_page);
            let end = start.run(events);
            if end.phase is Opening || end.phase is Navigating {
                start.loads(events) < end.attempt
            } else {
                start.loads(events) <= end.attempt
            }
        }),
    decreases events.len(),
{
    if events.len() > 0 {
        let front = events.drop_last();
        lemma_loads_within_attempts(query_bytes, max_page, front);
        lemma_run_coherent(query_bytes, max_page, front);
        lemma_next_keeps_coherent(SearchView::start(query_bytes, max_page).run(front), events.last());
    }
}

/// Backoff schedule: whatever the page reports, the pause after the failed
/// attempt number `k` lasts two to the power `k - 1` seconds, so the pauses
/// of a search are one second, then two seconds, and no more; at most three
/// page loads are made; a fourth attempt never begins.
pub proof fn law_backoff_schedule(query_bytes: Seq<u8>, max_page: nat, events: Seq<EventView>)
    ensures
        1 <= SearchView::start(query_bytes, max_page).run(events).attempt <= 3,
        SearchView::start(query_bytes, max_page).pauses(events).len() == SearchView::start(
            query_bytes,
            max_page,
        ).run(events).attempt - 1,
        SearchView::start(query_bytes, max_page).pauses(events).is_prefix_of(
            seq![1000nat, 2000nat],
        ),
        SearchView::start(query_bytes, max_page).loads(events) <= 3,
    decreases events.len(),
{
    let start = SearchView::start(query_bytes, max_page);
    reveal_with_fuel(two_to, 3);
    lemma_loads_within_attempts(query_bytes, max_page, events);
    lemma_run_coherent(query_bytes, max_page, events);
    if events.len() == 0 {
        assert(start.pauses(events) =~= seq![1000nat, 2000nat].subrange(0, 0));
    } else {
        let front = events.drop_last();
        law_backoff_schedule(query_bytes, max_page, front);
        lemma_run_coherent(query_bytes, max_page, front);
        lemma_next_keeps_coherent(start.run(front), events.last());
        let earlier = start.pauses(front);
        let now = start.pauses(events);
        assert(earlier =~= seq![1000nat, 2000nat].subrange(0, earlier.len() as int));
        assert(now =~= seq![1000nat, 2000nat].subrange(0, now.len() as int));
    }
}

/// One probe: `script` must give `expected`, and `richness` must hold too
/// where there is one.
fn single_probe(script: &str, expected: &str, richness: Option<Check>) -> (probes: Vec<Probe>)
    ensures
        probe_views(probes@) == seq![
            ProbeView {
                presence: CheckView { script: script@, expected: expected@ },
                richness: match richness {
                    Some(c) => Some(c@),
                    None => None,
                },
            },
        ],
{
    let presence = Check { script: String::from_str(script), expected: String::from_str(expected) };
    let mut probes: Vec<Probe> = Vec::new();
    probes.push(Probe { presence, richness });
    assert(probe_views(probes@) =~= seq![probes@[0]@]);
    probes
}

/// The poll for the results of the first page.
pub fn results_poll_plan() -> (plan: PollPlan)
    ensures
        plan@ == results_plan(),
{
    let probes = single_probe(RESULTS_READY_SCRIPT, "true", None);
    PollPlan::new(probes, RESULTS_WAIT_MS, POLL_INTERVAL_MS, RESULTS_SETTLE_MS).unwrap()
}

/// The poll for the start of a page change.
pub fn load_start_poll_plan() -> (plan: PollPlan)
    ensures
        plan@ == load_start_plan(),
{
    let probes = single_probe(LOADING_SCRIPT, "true", None);
    PollPlan::new(probes, LOAD_START_WAIT_MS, POLL_INTERVAL_MS, 0).unwrap()
}

/// The poll for the end of the change to results page `page`.
pub fn load_end_poll_plan(page: u32) -> (plan: PollPlan)
    ensures
        plan@ == load_end_plan(page as nat),
{
    let number = decimal_text(page as u64);
    let label = Check {
        script: concat3(PAGE_LABEL_HEAD, number.as_str(), PAGE_LABEL_TAIL),
        expected: number,
    };
    let probes = single_probe(LOADING_SCRIPT, "false", Some(label));
    PollPlan::new(probes, LOAD_END_WAIT_MS, POLL_INTERVAL_MS, LOAD_SETTLE_MS).unwrap()
}

/// Where a search stands, with the poll it waits on.
enum SearchPhase {
    Opening,
    Navigating,
    AwaitingResults(Poller),
    ReadingPrimary,
    ReadingFallback,
    Clicking,
    AwaitingLoadStart(Poller),
    AwaitingLoadEnd(Poller),
    ReadingPage,
    BackingOff,
    Succeeded,
    Failed(CrawlError),
}

impl View for SearchPhase {
    type V = SearchPhaseView;

    closed spec fn view(&self) -> SearchPhaseView {
        match self {
            SearchPhase::Opening => SearchPhaseView::Opening,
            SearchPhase::Navigating => SearchPhaseView::Navigating,
            SearchPhase::AwaitingResults(poll) => SearchPhaseView::AwaitingResults(poll@),
            SearchPhase::ReadingPrimary => SearchPhaseView::ReadingPrimary,
            SearchPhase::ReadingFallback => SearchPhaseView::ReadingFallback,
            SearchPhase::Clicking => SearchPhaseView::Clicking,
            SearchPhase::AwaitingLoadStart(poll) => SearchPhaseView::AwaitingLoadStart(poll@),
            SearchPhase::AwaitingLoadEnd(poll) => SearchPhaseView::AwaitingLoadEnd(poll@),
            SearchPhase::ReadingPage => SearchPhaseView::ReadingPage,
            SearchPhase::BackingOff => SearchPhaseView::BackingOff,
            SearchPhase::Succeeded => SearchPhaseView::Succeeded,
            SearchPhase::Failed(error) => SearchPhaseView::Failed(*error),
        }
    }
}

/// What a search carries from phase to phase.
struct Progress {
    url: String,
    max_page: u32,
    attempt: u8,
    page: u32,
    links: Vec<Link>,
    seen: SeenSet,
}

impl Progress {
    spec fn at(self, phase: SearchPhaseView) -> SearchView {
        SearchView {
            url: self.url@,
            max_page: self.max_page as nat,
            attempt: self.attempt as nat,
            page: self.page as nat,
            links: link_views(self.links@),
            phase,
        }
    }

    spec fn tidy(self) -> bool {
        &&& 1 <= self.attempt <= MAX_ATTEMPTS
        &&& well_formed(link_views(self.links@))
        &&& self.seen@ == hrefs(link_views(self.links@))
    }

    fn fail_attempt(self, error: CrawlError) -> (next: Search)
        requires
            self.tidy(),
            self.links@.len() == 0,
        ensures
            next@ == self.at(SearchPhaseView::Opening).fail_attempt(error),
    {
        if self.attempt >= MAX_ATTEMPTS {
            Search { progress: self, phase: SearchPhase::Failed(error) }
        } else {
            Search { progress: self, phase: SearchPhase::BackingOff }
        }
    }

    fn conclude(self) -> (next: Search)
        requires
            self.tidy(),
        ensures
            next@ == self.at(SearchPhaseView::Opening).conclude(),
    {
        if self.links.len() > 0 {
            Search { progress: self, phase: SearchPhase::Succeeded }
        } else {
            self.fail_attempt(CrawlError::ExtractionEmpty)
        }
    }

    fn turn_to(self, page: u32) -> (next: Search)
        requires
            self.tidy(),
            page >= 2,
        ensures
            next@ == self.at(SearchPhaseView::Opening).turn_to(page as nat),
    {
        if page <= self.max_page {
            let progress = Progress {
                url: self.url,
                max_page: self.max_page,
                attempt: self.attempt,
                page,
                links: self.links,
                seen: self.seen,
            };
            Search { progress, phase: SearchPhase::Clicking }
        } else {
            self.conclude()
        }
    }

    fn take(self, batch: &Vec<Link>) -> (next: Progress)
        requires
            self.tidy(),
        ensures
            next.tidy(),
            next.at(SearchPhaseView::Opening) == self.at(SearchPhaseView::Opening).taking(
                link_views(batch@),
            ),
    {
        let Progress { url, max_page, attempt, page, mut links, mut seen } = self;
        let ghost held = link_views(links@);
        let mut added = admit_links(batch, &mut seen);
        let ghost more = link_views(added@);
        links.append(&mut added);
        proof {
            assert(link_views(links@) =~= held + more);
            crate::links::lemma_hrefs_concat(held, more);
            lemma_absorb_well_formed(held, link_views(batch@));
        }
        Progress { url, max_page, attempt, page, links, seen }
    }

    fn results_poll(self, poll: Poller) -> (next: Search)
        requires
            self.tidy(),
            self.links@.len() == 0,
            poll@.coherent(),
            poll@.plan == results_plan(),
        ensures
            next@ == self.at(SearchPhaseView::Opening).results_poll(poll@),
    {
        if poll.verdict().is_some() {
            Search { progress: self, phase: SearchPhase::ReadingPrimary }
        } else {
            Search { progress: self, phase: SearchPhase::AwaitingResults(poll) }
        }
    }

    fn load_end_poll(self, poll: Poller) -> (next: Search)
        requires
            self.tidy(),
            2 <= self.page <= self.max_page,
            poll@.coherent(),
            poll@.plan == load_end_plan(self.page as nat),
        ensures
            next@ == self.at(SearchPhaseView::Opening).load_end_poll(poll@),
    {
        match poll.verdict() {
            Some(true) => Search { progress: self, phase: SearchPhase::ReadingPage },
            Some(false) => self.conclude(),
            None => Search { progress: self, phase: SearchPhase::AwaitingLoadEnd(poll) },
        }
    }

    fn load_start_poll(self, poll: Poller) -> (next: Search)
        requires
            self.tidy(),
            2 <= self.page <= self.max_page,
            poll@.coherent(),
            poll@.plan == load_start_plan(),
        ensures
            next@ == self.at(SearchPhaseView::Opening).load_start_poll(poll@),
    {
        if poll.verdict().is_some() {
            let end = Poller::begin(load_end_poll_plan(self.page));
            self.load_end_poll(end)
        } else {
            Search { progress: self, phase: SearchPhase::AwaitingLoadStart(poll) }
        }
    }
}

/// A search in progress. It names the action it waits for and takes in the
/// event that reports on it, until it has an outcome.
pub struct Search {
    progress: Progress,
    phase: SearchPhase,
}

impl View for Search {
    type V = SearchView;

    closed spec fn view(&self) -> SearchView {
        self.progress.at(self.phase@)
    }
}

impl Search {
    #[verifier::type_invariant]
    spec fn holds(self) -> bool {
        self@.coherent() && self.progress.seen@ == hrefs(self@.links)
    }

    /// A search for `query` over the first `max_page` results pages (one
    /// page when `max_page` is below two).
    pub fn start(query: &str, max_page: u32) -> (search: Search)
        ensures
            search@ == SearchView::start(query.spec_bytes(), max_page as nat),
            search@.coherent(),
    {
        let links: Vec<Link> = Vec::new();
        let seen = SeenSet::new();
        proof {
            assert(link_views(links@) =~= Seq::<LinkView>::empty());
            assert(hrefs(link_views(links@)) =~= Set::<Seq<char>>::empty());
        }
        let progress = Progress { url: search_url(query), max_page, attempt: 1, page: 1, links, seen };
        Search { progress, phase: SearchPhase::Opening }
    }

    /// The action that this search waits for; `Done` once it has an outcome.
    pub fn pending(&self) -> (action: Action)
        ensures
            action@ == self@.pending(),
            self@.coherent(),
    {
        proof {
            use_type_invariant(self);
        }
        match &self.phase {
            SearchPhase::Opening => Action::OpenPage,
            SearchPhase::Navigating => Action::Navigate {
                url: self.progress.url.clone(),
                timeout_millis: NAVIGATION_TIMEOUT_MS,
            },
            SearchPhase::AwaitingResults(poll) => poll.pending(),
            SearchPhase::ReadingPrimary => Action::ReadLinks {
                script: String::from_str(PRIMARY_LINKS_SCRIPT),
            },
            SearchPhase::ReadingFallback => Action::ReadLinks {
                script: String::from_str(FALLBACK_LINKS_SCRIPT),
            },
            SearchPhase::Clicking => {
                let number = decimal_text(self.progress.page as u64);
                Action::Click {
                    selector: concat3(PAGE_CONTROL_HEAD, number.as_str(), PAGE_CONTROL_TAIL),
                }
            },
            SearchPhase::AwaitingLoadStart(poll) => poll.pending(),
            SearchPhase::AwaitingLoadEnd(poll) => poll.pending(),
            SearchPhase::ReadingPage => Action::ReadLinks {
                script: String::from_str(PRIMARY_LINKS_SCRIPT),
            },
            SearchPhase::BackingOff => {
                proof {
                    reveal_with_fuel(two_to, 3);
                }
                Action::Sleep { millis: 1000 * backoff_secs(self.progress.attempt) }
            },
            SearchPhase::Succeeded => Action::Done,
            SearchPhase::Failed(_) => Action::Done,
        }
    }

    /// The number of the attempt at hand, counted from one.
    pub fn attempt(&self) -> (n: u8)
        ensures
            n == self@.attempt,
            1 <= n <= MAX_ATTEMPTS,
    {
        proof {
            use_type_invariant(self);
        }
        self.progress.attempt
    }

    /// Whether this search has an outcome.
    pub fn is_finished(&self) -> (done: bool)
        ensures
            done == self@.outcome().is_some(),
    {
        match &self.phase {
            SearchPhase::Succeeded => true,
            SearchPhase::Failed(_) => true,
            _ => false,
        }
    }

    /// Takes in `event` and moves on. An event that does not answer the
    /// pending action changes nothing.
    pub fn step(self, event: Event) -> (next: Search)
        ensures
            next@ == self@.next(event@),
            next@.coherent(),
    {
        proof {
            use_type_invariant(&self);
            lemma_next_keeps_coherent(self@, event@);
        }
        let Search { progress, phase } = self;
        match (phase, event) {
            (SearchPhase::Opening, Event::PageOpened) => Search {
                progress,
                phase: SearchPhase::Navigating,
            },
            (SearchPhase::Opening, Event::EngineFailed) => Search {
                progress,
                phase: SearchPhase::Failed(CrawlError::EngineUnavailable),
            },
            (SearchPhase::Navigating, Event::Navigated { status }) => {
                match status {
                    Some(code) if is_rejected(status) => progress.fail_attempt(
                        CrawlError::Navigation { status: code },
                    ),
                    _ => progress.results_poll(Poller::begin(results_poll_plan())),
                }
            },
            (SearchPhase::AwaitingResults(poll), event) => {
                let poll = poll.advance(&event);
                progress.results_poll(poll)
            },
            (SearchPhase::ReadingPrimary, Event::LinksRead { links }) => {
                let progress = progress.take(&links);
                if progress.links.len() == 0 {
                    Search { progress, phase: SearchPhase::ReadingFallback }
                } else {
                    progress.turn_to(2)
                }
            },
            (SearchPhase::ReadingFallback, Event::LinksRead { links }) => {
                progress.take(&links).turn_to(2)
            },
            (SearchPhase::Clicking, Event::Clicked { ok }) => {
                if ok {
                    progress.load_start_poll(Poller::begin(load_start_poll_plan()))
                } else {
                    progress.conclude()
                }
            },
            (SearchPhase::AwaitingLoadStart(poll), event) => {
                let poll = poll.advance(&event);
                progress.load_start_poll(poll)
            },
            (SearchPhase::AwaitingLoadEnd(poll), event) => {
                let poll = poll.advance(&event);
                progress.load_end_poll(poll)
            },
            (SearchPhase::ReadingPage, Event::LinksRead { links }) => {
                let page = progress.page;
                let last = progress.max_page;
                let progress = progress.take(&links);
                if page < last {
                    progress.turn_to(page + 1)
                } else {
                    progress.conclude()
                }
            },
            (SearchPhase::BackingOff, Event::Slept) => {
                let links: Vec<Link> = Vec::new();
                proof {
                    assert(link_views(links@) =~= Seq::<LinkView>::empty());
                    assert(hrefs(link_views(links@)) =~= Set::<Seq<char>>::empty());
                }
                let progress = Progress {
                    url: progress.url,
                    max_page: progress.max_page,
                    attempt: progress.attempt + 1,
                    page: 1,
                    links,
                    seen: SeenSet::new(),
                };
                Search { progress, phase: SearchPhase::Navigating }
            },
            (phase, _) => Search { progress, phase },
        }
    }

    /// The outcome, once there is one: the links in first-seen order, none
    /// with an address twice and each under the required prefix, or the
    /// failure. `None` while the search is still running.
    pub fn into_outcome(self) -> (outcome: Option<Result<SearchResult, CrawlError>>)
        ensures
            match outcome {
                Some(Ok(result)) => self@.outcome() == Some(
                    Ok::<Seq<LinkView>, CrawlError>(result@),
                ) && well_formed(result@) && result@.len() > 0,
                Some(Err(error)) => self@.outcome() == Some(
                    Err::<Seq<LinkView>, CrawlError>(error),
                ),
                None => self@.outcome() is None,
            },
    {
        proof {
            use_type_invariant(&self);
        }
        let Search { progress, phase } = self;
        match phase {
            SearchPhase::Succeeded => Some(Ok(SearchResult { links: progress.links })),
            SearchPhase::Failed(error) => Some(Err(error)),
            _ => None,
        }
    }
}

} // verus!
