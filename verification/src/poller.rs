//! Bounded polling of a live page: a plan of readiness probes, and the state
//! machine that walks it tick by tick.

use vstd::prelude::*;
use vstd::arithmetic::div_mod::{lemma_fundamental_div_mod, lemma_mod_bound};
use crate::protocol::{Action, ActionView, Event, EventView};
use crate::text::text_eq;

verus! {

/// One evaluation and the value that counts as success.
#[derive(Debug)]
pub struct Check {
    pub script: String,
    pub expected: String,
}

/// Mathematical value of a [`Check`].
pub struct CheckView {
    pub script: Seq<char>,
    pub expected: Seq<char>,
}

impl View for Check {
    type V = CheckView;

    open spec fn view(&self) -> CheckView {
        CheckView { script: self.script@, expected: self.expected@ }
    }
}

/// A readiness probe: a check that the content exists and, optionally, a
/// check that it is rich enough.
#[derive(Debug)]
pub struct Probe {
    pub presence: Check,
    pub richness: Option<Check>,
}

/// Mathematical value of a [`Probe`].
pub struct ProbeView {
    pub presence: CheckView,
    pub richness: Option<CheckView>,
}

impl View for Probe {
    type V = ProbeView;

    open spec fn view(&self) -> ProbeView {
        ProbeView {
            presence: self.presence@,
            richness: match self.richness {
                Some(c) => Some(c@),
                None => None,
            },
        }
    }
}

/// The views of a run of probes, in order.
pub open spec fn probe_views(probes: Seq<Probe>) -> Seq<ProbeView> {
    probes.map_values(|p: Probe| p@)
}

/// The text that an evaluation is read as: its value, or `false` when the
/// evaluation failed.
pub open spec fn reading(value: Option<Seq<char>>) -> Seq<char> {
    match value {
        Some(v) => v,
        None => "false"@,
    }
}

/// Whether an evaluation outcome meets a check.
pub open spec fn satisfied(check: CheckView, value: Option<Seq<char>>) -> bool {
    reading(value) == check.expected
}

/// The number of ticks that fit a budget: `max_wait / interval`, rounded up.
pub open spec fn tick_budget(max_wait: nat, interval: nat) -> nat
    recommends
        interval > 0,
{
    if max_wait % interval == 0 {
        max_wait / interval
    } else {
        max_wait / interval + 1
    }
}

/// The budget is the ceiling of `max_wait / interval`: that many intervals
/// cover the wait, and one fewer would not.
pub proof fn law_tick_budget_is_ceiling(max_wait: nat, interval: nat)
    requires
        interval > 0,
    ensures
        tick_budget(max_wait, interval) * interval >= max_wait,
        tick_budget(max_wait, interval) > 0 ==> (tick_budget(max_wait, interval) - 1) * interval
            < max_wait,
        max_wait == 0 <==> tick_budget(max_wait, interval) == 0,
{
    let q = max_wait as int / interval as int;
    let r = max_wait as int % interval as int;
    lemma_fundamental_div_mod(max_wait as int, interval as int);
    lemma_mod_bound(max_wait as int, interval as int);
    assert(max_wait == interval * q + r);
    assert(interval * q == q * interval) by (nonlinear_arith);
    assert((q + 1) * interval == q * interval + interval) by (nonlinear_arith);
    assert((q - 1) * interval == q * interval - interval) by (nonlinear_arith);
}

/// What is polled and for how long.
#[derive(Debug)]
pub struct PollPlan {
    probes: Vec<Probe>,
    max_wait_ms: u64,
    interval_ms: u64,
    settle_ms: u64,
}

/// Mathematical value of a [`PollPlan`].
pub struct PollPlanView {
    pub probes: Seq<ProbeView>,
    pub max_wait_ms: nat,
    pub interval_ms: nat,
    pub settle_ms: nat,
}

impl PollPlanView {
    /// The number of ticks this plan allows.
    pub open spec fn budget(self) -> nat {
        tick_budget(self.max_wait_ms, self.interval_ms)
    }
}

impl View for PollPlan {
    type V = PollPlanView;

    closed spec fn view(&self) -> PollPlanView {
        PollPlanView {
            probes: probe_views(self.probes@),
            max_wait_ms: self.max_wait_ms as nat,
            interval_ms: self.interval_ms as nat,
            settle_ms: self.settle_ms as nat,
        }
    }
}

impl PollPlan {
    #[verifier::type_invariant]
    spec fn positive_interval(self) -> bool {
        self.interval_ms > 0
    }

    /// A plan that evaluates `probes` in order on every tick, one tick per
    /// `interval_ms`, for at most `max_wait_ms`, and waits `settle_ms` once a
    /// probe has passed. There is no plan with an interval of zero.
    pub fn new(probes: Vec<Probe>, max_wait_ms: u64, interval_ms: u64, settle_ms: u64) -> (plan:
        Option<PollPlan>)
        ensures
            interval_ms == 0 <==> plan is None,
            plan matches Some(p) ==> p@ == (PollPlanView {
                probes: probe_views(probes@),
                max_wait_ms: max_wait_ms as nat,
                interval_ms: interval_ms as nat,
                settle_ms: settle_ms as nat,
            }),
    {
        if interval_ms == 0 {
            None
        } else {
            Some(PollPlan { probes, max_wait_ms, interval_ms, settle_ms })
        }
    }

    /// The number of ticks this plan allows.
    pub fn budget(&self) -> (n: u64)
        ensures
            n == self@.budget(),
            self@.interval_ms > 0,
    {
        proof {
            use_type_invariant(self);
            lemma_fundamental_div_mod(self.max_wait_ms as int, self.interval_ms as int);
            lemma_mod_bound(self.max_wait_ms as int, self.interval_ms as int);
        }
        let q = self.max_wait_ms / self.interval_ms;
        if self.max_wait_ms % self.interval_ms == 0 {
            q
        } else {
            assert(q < u64::MAX) by (nonlinear_arith)
                requires
                    self.max_wait_ms == self.interval_ms * q + self.max_wait_ms % self.interval_ms,
                    0 < self.max_wait_ms % self.interval_ms < self.interval_ms,
                    self.max_wait_ms <= u64::MAX,
                    q >= 0,
            ;
            q + 1
        }
    }
}

/// Where a poll stands.
#[derive(Debug, Clone, Copy)]
pub enum PollStage {
    /// The presence check of the current probe is being evaluated.
    Presence,
    /// The richness check of the current probe is being evaluated.
    Richness,
    /// Every probe of the current tick failed; the interval is being waited out.
    Pausing,
    /// A probe passed; the settle delay is being waited out.
    Settling,
    /// The page is ready.
    Ready,
    /// The budget is spent and no probe passed.
    TimedOut,
}

/// Mathematical value of a [`Poller`]: the plan, the number of ticks that
/// have failed, the probe at hand and the stage.
pub struct PollerView {
    pub plan: PollPlanView,
    pub tick: nat,
    pub probe: nat,
    pub stage: PollStage,
}

impl PollerView {
    /// The state at the start of tick number `tick` (counted from zero).
    pub open spec fn tick_start(plan: PollPlanView, tick: nat) -> PollerView {
        PollerView {
            plan,
            tick,
            probe: 0,
            stage: if plan.probes.len() == 0 {
                PollStage::Pausing
            } else {
                PollStage::Presence
            },
        }
    }

    /// The state in which a poll starts.
    pub open spec fn begin(plan: PollPlanView) -> PollerView {
        if plan.budget() == 0 {
            PollerView { plan, tick: 0, probe: 0, stage: PollStage::TimedOut }
        } else {
            PollerView::tick_start(plan, 0)
        }
    }

    /// The state after the probe at hand has passed.
    pub open spec fn passed(self) -> PollerView {
        PollerView {
            plan: self.plan,
            tick: self.tick,
            probe: self.probe,
            stage: if self.plan.settle_ms > 0 {
                PollStage::Settling
            } else {
                PollStage::Ready
            },
        }
    }

    /// The state after the probe at hand has failed: the next probe of the
    /// tick, or the pause that ends the tick.
    pub open spec fn failed(self) -> PollerView {
        if self.probe + 1 < self.plan.probes.len() {
            PollerView {
                plan: self.plan,
                tick: self.tick,
                probe: self.probe + 1,
                stage: PollStage::Presence,
            }
        } else {
            PollerView {
                plan: self.plan,
                tick: self.tick,
                probe: self.probe,
                stage: PollStage::Pausing,
            }
        }
    }

    /// The state after `event`. An event that does not answer the pending
    /// action changes nothing.
    pub open spec fn next(self, event: EventView) -> PollerView {
        match (self.stage, event) {
            (PollStage::Presence, EventView::Evaluated { value }) => {
                let probe = self.plan.probes[self.probe as int];
                if !satisfied(probe.presence, value) {
                    self.failed()
                } else if probe.richness is Some {
                    PollerView {
                        plan: self.plan,
                        tick: self.tick,
                        probe: self.probe,
                        stage: PollStage::Richness,
                    }
                } else {
                    self.passed()
                }
            },
            (PollStage::Richness, EventView::Evaluated { value }) => {
                let probe = self.plan.probes[self.probe as int];
                if satisfied(probe.richness->0, value) {
                    self.passed()
                } else {
                    self.failed()
                }
            },
            (PollStage::Pausing, EventView::Slept) => {
                if self.tick + 1 >= self.plan.budget() {
                    PollerView {
                        plan: self.plan,
                        tick: self.tick + 1,
                        probe: self.probe,
                        stage: PollStage::TimedOut,
                    }
                } else {
                    PollerView::tick_start(self.plan, self.tick + 1)
                }
            },
            (PollStage::Settling, EventView::Slept) => PollerView {
                plan: self.plan,
                tick: self.tick,
                probe: self.probe,
                stage: PollStage::Ready,
            },
            _ => self,
        }
    }

    /// The action that the state waits for.
    pub open spec fn pending(self) -> ActionView {
        match self.stage {
            PollStage::Presence => ActionView::Evaluate {
                script: self.plan.probes[self.probe as int].presence.script,
            },
            PollStage::Richness => ActionView::Evaluate {
                script: self.plan.probes[self.probe as int].richness->0.script,
            },
            PollStage::Pausing => ActionView::Sleep { millis: self.plan.interval_ms },
            PollStage::Settling => ActionView::Sleep { millis: self.plan.settle_ms },
            PollStage::Ready => ActionView::Done,
            PollStage::TimedOut => ActionView::Done,
        }
    }

    /// The verdict, once there is one: ready or not.
    pub open spec fn verdict(self) -> Option<bool> {
        match self.stage {
            PollStage::Ready => Some(true),
            PollStage::TimedOut => Some(false),
            _ => None,
        }
    }

    /// What holds of every state of a poll: ticks stay within the budget, a
    /// poll that is still running or found the page ready has failed fewer
    /// ticks than the budget, one that timed out has failed exactly the
    /// budget, and the probe at hand exists.
    pub open spec fn coherent(self) -> bool {
        &&& self.plan.interval_ms > 0
        &&& match self.stage {
            PollStage::TimedOut => self.tick == self.plan.budget(),
            _ => self.tick < self.plan.budget(),
        }
        &&& match self.stage {
            PollStage::Presence => self.probe < self.plan.probes.len(),
            PollStage::Richness => self.probe < self.plan.probes.len()
                && self.plan.probes[self.probe as int].richness is Some,
            _ => true,
        }
    }

    /// The state after a sequence of events.
    pub open spec fn run(self, events: Seq<EventView>) -> PollerView
        decreases events.len(),
    {
        if events.len() == 0 {
            self
        } else {
            self.run(events.drop_last()).next(events.last())
        }
    }
}

/// A poll in progress.
#[derive(Debug)]
pub struct Poller {
    plan: PollPlan,
    tick: u64,
    probe: usize,
    stage: PollStage,
}

impl View for Poller {
    type V = PollerView;

    closed spec fn view(&self) -> PollerView {
        PollerView {
            plan: self.plan@,
            tick: self.tick as nat,
            probe: self.probe as nat,
            stage: self.stage,
        }
    }
}

/// Whether an evaluation outcome meets a check.
pub fn meets(check: &Check, value: &Option<String>) -> (ok: bool)
    ensures
        ok == satisfied(check@, match value {
            Some(v) => Some(v@),
            None => None,
        }),
{
    match value {
        Some(v) => text_eq(v.as_str(), check.expected.as_str()),
        None => text_eq("false", check.expected.as_str()),
    }
}

impl Poller {
    #[verifier::type_invariant]
    spec fn holds(self) -> bool {
        self@.coherent()
    }

    /// Starts a poll on `plan`.
    pub fn begin(plan: PollPlan) -> (poller: Poller)
        ensures
            poller@ == PollerView::begin(plan@),
            poller@.coherent(),
    {
        let budget = plan.budget();
        if budget == 0 {
            Poller { plan, tick: 0, probe: 0, stage: PollStage::TimedOut }
        } else if plan.probes.len() == 0 {
            Poller { plan, tick: 0, probe: 0, stage: PollStage::Pausing }
        } else {
            Poller { plan, tick: 0, probe: 0, stage: PollStage::Presence }
        }
    }

    /// The action that this poll waits for; `Done` once there is a verdict.
    pub fn pending(&self) -> (action: Action)
        ensures
            action@ == self@.pending(),
            self@.coherent(),
    {
        proof {
            use_type_invariant(self);
        }
        match self.stage {
            PollStage::Presence => Action::Evaluate {
                script: self.plan.probes[self.probe].presence.script.clone(),
            },
            PollStage::Richness => {
                match &self.plan.probes[self.probe].richness {
                    Some(check) => Action::Evaluate { script: check.script.clone() },
                    None => Action::Done,
                }
            },
            PollStage::Pausing => Action::Sleep { millis: self.plan.interval_ms },
            PollStage::Settling => Action::Sleep { millis: self.plan.settle_ms },
            PollStage::Ready => Action::Done,
            PollStage::TimedOut => Action::Done,
        }
    }

    /// The verdict, once there is one: `Some(true)` when a probe passed,
    /// `Some(false)` when the budget was spent.
    pub fn verdict(&self) -> (v: Option<bool>)
        ensures
            v == self@.verdict(),
            self@.coherent(),
    {
        proof {
            use_type_invariant(self);
        }
        match self.stage {
            PollStage::Ready => Some(true),
            PollStage::TimedOut => Some(false),
            _ => None,
        }
    }

    /// The number of ticks that have failed so far.
    pub fn ticks(&self) -> (n: u64)
        ensures
            n == self@.tick,
            n <= self@.plan.budget(),
    {
        proof {
            use_type_invariant(self);
        }
        self.tick
    }

    fn passed(self) -> (poller: Poller)
        requires
            self@.stage is Presence || self@.stage is Richness,
        ensures
            poller@ == self@.passed(),
    {
        proof {
            use_type_invariant(&self);
        }
        let stage = if self.plan.settle_ms > 0 {
            PollStage::Settling
        } else {
            PollStage::Ready
        };
        Poller { plan: self.plan, tick: self.tick, probe: self.probe, stage }
    }

    fn failed(self) -> (poller: Poller)
        requires
            self@.stage is Presence || self@.stage is Richness,
        ensures
            poller@ == self@.failed(),
    {
        proof {
            use_type_invariant(&self);
            assert(self@.plan.probes.len() == self.plan.probes@.len());
        }
        let count = self.plan.probes.len();
        if self.probe + 1 < count {
            Poller {
                plan: self.plan,
                tick: self.tick,
                probe: self.probe + 1,
                stage: PollStage::Presence,
            }
        } else {
            Poller { plan: self.plan, tick: self.tick, probe: self.probe, stage: PollStage::Pausing }
        }
    }

    /// Takes in `event` and moves on. An event that does not answer the
    /// pending action changes nothing.
    pub fn advance(self, event: &Event) -> (poller: Poller)
        ensures
            poller@ == self@.next(event@),
            poller@.coherent(),
    {
        proof {
            use_type_invariant(&self);
        }
        let poller = match (self.stage, event) {
            (PollStage::Presence, Event::Evaluated { value }) => {
                let probe = &self.plan.probes[self.probe];
                if !meets(&probe.presence, value) {
                    self.failed()
                } else if probe.richness.is_some() {
                    Poller {
                        plan: self.plan,
                        tick: self.tick,
                        probe: self.probe,
                        stage: PollStage::Richness,
                    }
                } else {
                    self.passed()
                }
            },
            (PollStage::Richness, Event::Evaluated { value }) => {
                let passes = match &self.plan.probes[self.probe].richness {
                    Some(check) => meets(check, value),
                    None => false,
                };
                if passes {
                    self.passed()
                } else {
                    self.failed()
                }
            },
            (PollStage::Pausing, Event::Slept) => {
                let budget = self.plan.budget();
                if self.tick + 1 >= budget {
                    Poller {
                        plan: self.plan,
                        tick: self.tick + 1,
                        probe: self.probe,
                        stage: PollStage::TimedOut,
                    }
                } else if self.plan.probes.len() == 0 {
                    Poller { plan: self.plan, tick: self.tick + 1, probe: 0, stage: PollStage::Pausing }
                } else {
                    Poller {
                        plan: self.plan,
                        tick: self.tick + 1,
                        probe: 0,
                        stage: PollStage::Presence,
                    }
                }
            },
            (PollStage::Settling, Event::Slept) => Poller {
                plan: self.plan,
                tick: self.tick,
                probe: self.probe,
                stage: PollStage::Ready,
            },
            _ => self,
        };
        proof {
            use_type_invariant(&poller);
        }
        poller
    }
}

/// One event keeps a coherent poll coherent, on the same plan, and never
/// takes a tick back.
pub proof fn lemma_next_keeps_coherent(state: PollerView, event: EventView)
    requires
        state.coherent(),
    ensures
        state.next(event).coherent(),
        state.next(event).plan == state.plan,
        state.tick <= state.next(event).tick <= state.tick + 1,
        state.verdict() is Some ==> state.next(event) == state,
{
}

/// Tick bound: whatever the page reports, a poll never fails more ticks than
/// `max_wait / interval` rounded up; it says "not ready" only after exactly
/// that many failed ticks, and "ready" only before the budget was spent.
pub proof fn law_tick_bound(plan: PollPlanView, events: Seq<EventView>)
    requires
        plan.interval_ms > 0,
    ensures
        PollerView::begin(plan).run(events).coherent(),
        PollerView::begin(plan).run(events).plan == plan,
        PollerView::begin(plan).run(events).tick <= tick_budget(plan.max_wait_ms, plan.interval_ms),
        PollerView::begin(plan).run(events).verdict() == Some(false) ==> PollerView::begin(
            plan,
        ).run(events).tick == tick_budget(plan.max_wait_ms, plan.interval_ms),
        PollerView::begin(plan).run(events).verdict() == Some(true) ==> PollerView::begin(
            plan,
        ).run(events).tick < tick_budget(plan.max_wait_ms, plan.interval_ms),
    decreases events.len(),
{
    if events.len() > 0 {
        law_tick_bound(plan, events.drop_last());
        lemma_next_keeps_coherent(PollerView::begin(plan).run(events.drop_last()), events.last());
    }
}

} // verus!
