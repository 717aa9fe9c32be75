use crawl_core::poller::{meets, Check, PollPlan, Poller, Probe};
use crawl_core::protocol::{Action, Event};

fn check(script: &str, expected: &str) -> Check {
    Check { script: script.to_string(), expected: expected.to_string() }
}

fn plan(probes: Vec<Probe>, max_wait: u64, interval: u64, settle: u64) -> PollPlan {
    match PollPlan::new(probes, max_wait, interval, settle) {
        Some(plan) => plan,
        None => panic!("interval must not be zero"),
    }
}

fn evaluated(value: &str) -> Event {
    Event::Evaluated { value: Some(value.to_string()) }
}

/// Runs a poll to its verdict; `answer` gives the value of each evaluation.
/// Returns the verdict, the number of evaluations and the waits in order.
fn run(mut poller: Poller, mut answer: impl FnMut(&str, usize) -> Option<String>) -> (bool, usize, Vec<u64>) {
    let mut evaluations = 0usize;
    let mut waits = Vec::new();
    loop {
        let event = match poller.pending() {
            Action::Evaluate { script } => {
                evaluations += 1;
                Event::Evaluated { value: answer(&script, evaluations) }
            }
            Action::Sleep { millis } => {
                waits.push(millis);
                Event::Slept
            }
            Action::Done => match poller.verdict() {
                Some(ready) => return (ready, evaluations, waits),
                None => panic!("done without a verdict"),
            },
            other => panic!("unexpected action {:?}", other),
        };
        poller = poller.advance(&event);
    }
}

#[test]
fn budget_rounds_up() {
    assert_eq!(plan(vec![], 10000, 250, 300).budget(), 40);
    assert_eq!(plan(vec![], 10001, 250, 300).budget(), 41);
    assert_eq!(plan(vec![], 9999, 250, 300).budget(), 40);
    assert_eq!(plan(vec![], 2000, 250, 0).budget(), 8);
    assert_eq!(plan(vec![], 1, 250, 0).budget(), 1);
    assert_eq!(plan(vec![], 0, 250, 0).budget(), 0);
    assert_eq!(plan(vec![], u64::MAX, 1, 0).budget(), u64::MAX);
    assert_eq!(plan(vec![], u64::MAX, 2, 0).budget(), u64::MAX / 2 + 1);
}

#[test]
fn zero_interval_is_no_plan() {
    assert!(PollPlan::new(vec![], 10000, 0, 300).is_none());
    assert!(PollPlan::new(vec![], 0, 0, 0).is_none());
}

#[test]
fn poll_gives_up_after_exactly_forty_ticks() {
    let probes = vec![Probe { presence: check("!!(x)", "true"), richness: None }];
    let poller = Poller::begin(plan(probes, 10000, 250, 300));
    let (ready, evaluations, waits) = run(poller, |_, _| Some("false".to_string()));
    assert!(!ready);
    assert_eq!(evaluations, 40);
    assert_eq!(waits, vec![250u64; 40]);
}

#[test]
fn poll_counts_failed_ticks() {
    let probes = vec![Probe { presence: check("!!(x)", "true"), richness: None }];
    let mut poller = Poller::begin(plan(probes, 1000, 250, 0));
    assert_eq!(poller.ticks(), 0);
    assert_eq!(poller.verdict(), None);
    for tick in 1..=4u64 {
        poller = poller.advance(&evaluated("false"));
        assert_eq!(poller.ticks(), tick - 1);
        poller = poller.advance(&Event::Slept);
        assert_eq!(poller.ticks(), tick);
    }
    assert_eq!(poller.verdict(), Some(false));
    poller = poller.advance(&evaluated("true"));
    assert_eq!(poller.verdict(), Some(false));
    assert_eq!(poller.ticks(), 4);
}

#[test]
fn poll_returns_ready_at_once_after_settling() {
    let probes = vec![Probe { presence: check("!!(x)", "true"), richness: None }];
    let poller = Poller::begin(plan(probes, 10000, 250, 300));
    let (ready, evaluations, waits) =
        run(poller, |_, n| Some(if n == 3 { "true" } else { "false" }.to_string()));
    assert!(ready);
    assert_eq!(evaluations, 3);
    assert_eq!(waits, vec![250, 250, 300]);
}

#[test]
fn probes_are_tried_in_order_and_richness_must_hold() {
    let probes = vec![
        Probe { presence: check("has a", "true"), richness: Some(check("rich a", "true")) },
        Probe { presence: check("has b", "true"), richness: Some(check("rich b", "true")) },
        Probe { presence: check("has c", "true"), richness: None },
    ];
    let mut asked = Vec::new();
    let poller = Poller::begin(plan(probes, 500, 250, 0));
    let (ready, evaluations, waits) = run(poller, |script, _| {
        asked.push(script.to_string());
        match script {
            "has a" => Some("true".to_string()),
            "rich a" => Some("false".to_string()),
            "has b" => None,
            "has c" => Some(if asked.len() > 4 { "true" } else { "nope" }.to_string()),
            _ => panic!("unexpected script"),
        }
    });
    assert!(ready);
    assert_eq!(evaluations, 8);
    assert_eq!(waits, vec![250]);
    assert_eq!(
        asked,
        vec!["has a", "rich a", "has b", "has c", "has a", "rich a", "has b", "has c"]
    );
}

#[test]
fn a_failed_evaluation_reads_as_false() {
    assert!(!meets(&check("s", "true"), &None));
    assert!(meets(&check("s", "false"), &None));
    assert!(meets(&check("s", "true"), &Some("true".to_string())));
    assert!(!meets(&check("s", "true"), &Some("True".to_string())));
    assert!(!meets(&check("s", "2"), &Some("??".to_string())));
    assert!(meets(&check("s", "2"), &Some("2".to_string())));
}

#[test]
fn poll_without_probes_only_waits() {
    let poller = Poller::begin(plan(vec![], 750, 250, 300));
    let (ready, evaluations, waits) = run(poller, |_, _| panic!("nothing to evaluate"));
    assert!(!ready);
    assert_eq!(evaluations, 0);
    assert_eq!(waits, vec![250, 250, 250]);
}

#[test]
fn poll_without_budget_is_over_at_once() {
    let probes = vec![Probe { presence: check("!!(x)", "true"), richness: None }];
    let poller = Poller::begin(plan(probes, 0, 250, 300));
    assert_eq!(poller.verdict(), Some(false));
    assert!(matches!(poller.pending(), Action::Done));
}

#[test]
fn events_that_do_not_answer_are_ignored() {
    let probes = vec![Probe { presence: check("!!(x)", "true"), richness: None }];
    let mut poller = Poller::begin(plan(probes, 10000, 250, 300));
    poller = poller.advance(&Event::Slept);
    poller = poller.advance(&Event::Clicked { ok: true });
    poller = poller.advance(&Event::PageOpened);
    assert!(matches!(poller.pending(), Action::Evaluate { .. }));
    assert_eq!(poller.ticks(), 0);
    poller = poller.advance(&evaluated("false"));
    poller = poller.advance(&evaluated("true"));
    assert!(matches!(poller.pending(), Action::Sleep { millis: 250 }));
}
