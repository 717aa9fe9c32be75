use crawl_core::error::CrawlError;
use crawl_core::models::{Link, SearchResult};
use crawl_core::protocol::{Action, Event};
use crawl_core::search::{
    backoff_secs, Search, FALLBACK_LINKS_SCRIPT, LOADING_SCRIPT, PRIMARY_LINKS_SCRIPT,
    RESULTS_READY_SCRIPT,
};

fn link(href: &str, text: &str) -> Link {
    Link { href: href.to_string(), text: text.to_string() }
}

fn pairs(result: &SearchResult) -> Vec<(String, String)> {
    result.links.iter().map(|l| (l.href.clone(), l.text.clone())).collect()
}

fn pair(href: &str, text: &str) -> (String, String) {
    (href.to_string(), text.to_string())
}

/// Runs a search to its outcome. `respond` reports on each action; every
/// action is noted in `log` as a short text.
fn run(
    mut search: Search,
    mut respond: impl FnMut(&Action) -> Event,
    log: &mut Vec<String>,
) -> Result<SearchResult, CrawlError> {
    loop {
        let action = search.pending();
        let note = match &action {
            Action::OpenPage => "open".to_string(),
            Action::Navigate { url, timeout_millis } => {
                assert_eq!(*timeout_millis, 30000);
                format!("navigate {}", url)
            }
            Action::Evaluate { script } => format!("evaluate {}", script),
            Action::ReadLinks { script } => format!("links {}", script),
            Action::Click { selector } => format!("click {}", selector),
            Action::Sleep { millis } => format!("sleep {}", millis),
            Action::Done => match search.into_outcome() {
                Some(outcome) => return outcome,
                None => panic!("done without an outcome"),
            },
        };
        log.push(note);
        let event = respond(&action);
        search = search.step(event);
    }
}

fn count(log: &[String], head: &str) -> usize {
    log.iter().filter(|note| note.starts_with(head)).count()
}

#[test]
fn two_pages_give_the_union_without_repeats() {
    let mut loading_asked = 0;
    let mut pages_read = 0;
    let mut log = Vec::new();
    let outcome = run(
        Search::start("docked toolbar", 2),
        |action| match action {
            Action::OpenPage => Event::PageOpened,
            Action::Navigate { .. } => Event::Navigated { status: Some(200) },
            Action::Evaluate { script } if script == RESULTS_READY_SCRIPT => {
                Event::Evaluated { value: Some("true".to_string()) }
            }
            Action::Evaluate { script } if script == LOADING_SCRIPT => {
                loading_asked += 1;
                let value = if loading_asked <= 2 { "true" } else { "false" };
                Event::Evaluated { value: Some(value.to_string()) }
            }
            Action::Evaluate { script } => {
                assert_eq!(
                    script,
                    "document.querySelector('.gsc-cursor-page:nth-child(2)')?.textContent"
                );
                Event::Evaluated { value: Some("2".to_string()) }
            }
            Action::ReadLinks { script } => {
                assert_eq!(script, PRIMARY_LINKS_SCRIPT);
                pages_read += 1;
                let links = if pages_read == 1 {
                    vec![
                        link("https://developer.android.com/a", "A"),
                        link("https://developer.android.com/b", "B"),
                        link("https://developer.android.com/a", "A once more"),
                    ]
                } else {
                    vec![
                        link("https://developer.android.com/b", "B on page two"),
                        link("https://example.com/elsewhere", "Elsewhere"),
                        link("https://developer.android.com/c", "C"),
                        link("https://developer.android.com/d", ""),
                    ]
                };
                Event::LinksRead { links }
            }
            Action::Click { selector } => {
                assert_eq!(selector, ".gsc-cursor-page:nth-child(2)");
                Event::Clicked { ok: true }
            }
            Action::Sleep { .. } => Event::Slept,
            Action::Done => panic!("nothing to report on"),
        },
        &mut log,
    );
    let result = match outcome {
        Ok(result) => result,
        Err(error) => panic!("search failed: {:?}", error),
    };
    assert_eq!(
        pairs(&result),
        vec![
            pair("https://developer.android.com/a", "A"),
            pair("https://developer.android.com/b", "B"),
            pair("https://developer.android.com/c", "C"),
        ]
    );
    assert_eq!(
        log,
        vec![
            "open".to_string(),
            "navigate https://developer.android.com/s/results?q=docked%20toolbar".to_string(),
            format!("evaluate {}", RESULTS_READY_SCRIPT),
            "sleep 300".to_string(),
            format!("links {}", PRIMARY_LINKS_SCRIPT),
            "click .gsc-cursor-page:nth-child(2)".to_string(),
            format!("evaluate {}", LOADING_SCRIPT),
            format!("evaluate {}", LOADING_SCRIPT),
            "sleep 250".to_string(),
            format!("evaluate {}", LOADING_SCRIPT),
            "evaluate document.querySelector('.gsc-cursor-page:nth-child(2)')?.textContent"
                .to_string(),
            "sleep 500".to_string(),
            format!("links {}", PRIMARY_LINKS_SCRIPT),
        ]
    );
}

#[test]
fn empty_results_fail_after_exactly_three_attempts() {
    let mut log = Vec::new();
    let outcome = run(
        Search::start("nothing", 1),
        |action| match action {
            Action::OpenPage => Event::PageOpened,
            Action::Navigate { .. } => Event::Navigated { status: Some(200) },
            Action::Evaluate { .. } => Event::Evaluated { value: Some("false".to_string()) },
            Action::ReadLinks { .. } => Event::LinksRead { links: vec![] },
            Action::Click { .. } => panic!("one page only"),
            Action::Sleep { .. } => Event::Slept,
            Action::Done => panic!("nothing to report on"),
        },
        &mut log,
    );
    assert_eq!(outcome.err(), Some(CrawlError::ExtractionEmpty));
    assert_eq!(count(&log, "open"), 1);
    assert_eq!(count(&log, "navigate "), 3);
    assert_eq!(count(&log, "evaluate "), 120);
    assert_eq!(count(&log, "sleep 250"), 120);
    assert_eq!(count(&log, &format!("links {}", PRIMARY_LINKS_SCRIPT)), 3);
    assert_eq!(count(&log, &format!("links {}", FALLBACK_LINKS_SCRIPT)), 3);
    let pauses: Vec<&String> = log
        .iter()
        .filter(|note| note.starts_with("sleep ") && note.as_str() != "sleep 250")
        .collect();
    assert_eq!(pauses, vec!["sleep 1000", "sleep 2000"]);
    assert_eq!(log.last().map(|s| s.as_str()), Some(format!("links {}", FALLBACK_LINKS_SCRIPT).as_str()));
}

#[test]
fn rejected_loads_are_retried_and_the_last_one_is_reported() {
    let mut log = Vec::new();
    let outcome = run(
        Search::start("q", 3),
        |action| match action {
            Action::OpenPage => Event::PageOpened,
            Action::Navigate { .. } => Event::Navigated { status: Some(503) },
            Action::Sleep { .. } => Event::Slept,
            other => panic!("unexpected action {:?}", other),
        },
        &mut log,
    );
    assert_eq!(outcome.err(), Some(CrawlError::Navigation { status: 503 }));
    assert_eq!(
        log,
        vec![
            "open",
            "navigate https://developer.android.com/s/results?q=q",
            "sleep 1000",
            "navigate https://developer.android.com/s/results?q=q",
            "sleep 2000",
            "navigate https://developer.android.com/s/results?q=q",
        ]
    );
}

#[test]
fn second_attempt_can_succeed_and_keeps_nothing_of_the_first() {
    let mut loads = 0;
    let mut log = Vec::new();
    let outcome = run(
        Search::start("q", 1),
        |action| match action {
            Action::OpenPage => Event::PageOpened,
            Action::Navigate { .. } => {
                loads += 1;
                Event::Navigated { status: if loads == 1 { Some(500) } else { None } }
            }
            Action::Evaluate { .. } => Event::Evaluated { value: Some("true".to_string()) },
            Action::ReadLinks { .. } => Event::LinksRead {
                links: vec![link("https://developer.android.com/only", "Only")],
            },
            Action::Sleep { .. } => Event::Slept,
            other => panic!("unexpected action {:?}", other),
        },
        &mut log,
    );
    let result = match outcome {
        Ok(result) => result,
        Err(error) => panic!("search failed: {:?}", error),
    };
    assert_eq!(pairs(&result), vec![pair("https://developer.android.com/only", "Only")]);
    assert_eq!(count(&log, "navigate "), 2);
    assert_eq!(count(&log, "sleep 1000"), 1);
    assert_eq!(count(&log, "sleep 2000"), 0);
}

#[test]
fn fallback_links_go_through_the_same_filter() {
    let mut log = Vec::new();
    let outcome = run(
        Search::start("q", 1),
        |action| match action {
            Action::OpenPage => Event::PageOpened,
            Action::Navigate { .. } => Event::Navigated { status: Some(304) },
            Action::Evaluate { .. } => Event::Evaluated { value: None },
            Action::ReadLinks { script } if script == PRIMARY_LINKS_SCRIPT => Event::LinksRead {
                links: vec![link("http://developer.android.com/insecure", "No")],
            },
            Action::ReadLinks { .. } => Event::LinksRead {
                links: vec![
                    link("https://developer.android.com/x", "X"),
                    link("https://developer.android.com.evil.example/", "Evil"),
                    link("https://developer.android.com/x", "X again"),
                    link("https://developer.android.com/", "Home"),
                ],
            },
            Action::Sleep { .. } => Event::Slept,
            other => panic!("unexpected action {:?}", other),
        },
        &mut log,
    );
    let result = match outcome {
        Ok(result) => result,
        Err(error) => panic!("search failed: {:?}", error),
    };
    assert_eq!(
        pairs(&result),
        vec![
            pair("https://developer.android.com/x", "X"),
            pair("https://developer.android.com/", "Home"),
        ]
    );
    assert_eq!(count(&log, "navigate "), 1);
    assert_eq!(count(&log, "sleep 250"), 40);
}

#[test]
fn a_failed_click_stops_pagination_and_keeps_the_links() {
    let mut log = Vec::new();
    let outcome = run(
        Search::start("q", 5),
        |action| match action {
            Action::OpenPage => Event::PageOpened,
            Action::Navigate { .. } => Event::Navigated { status: Some(200) },
            Action::Evaluate { .. } => Event::Evaluated { value: Some("true".to_string()) },
            Action::ReadLinks { .. } => Event::LinksRead {
                links: vec![link("https://developer.android.com/first", "First")],
            },
            Action::Click { .. } => Event::Clicked { ok: false },
            Action::Sleep { .. } => Event::Slept,
            Action::Done => panic!("nothing to report on"),
        },
        &mut log,
    );
    let result = match outcome {
        Ok(result) => result,
        Err(error) => panic!("search failed: {:?}", error),
    };
    assert_eq!(pairs(&result), vec![pair("https://developer.android.com/first", "First")]);
    assert_eq!(count(&log, "click "), 1);
    assert_eq!(count(&log, "links "), 1);
}

#[test]
fn a_page_that_never_verifies_stops_pagination() {
    let mut log = Vec::new();
    let outcome = run(
        Search::start("q", 3),
        |action| match action {
            Action::OpenPage => Event::PageOpened,
            Action::Navigate { .. } => Event::Navigated { status: Some(200) },
            Action::Evaluate { script } if script == RESULTS_READY_SCRIPT => {
                Event::Evaluated { value: Some("true".to_string()) }
            }
            Action::Evaluate { script } if script == LOADING_SCRIPT => {
                Event::Evaluated { value: Some("false".to_string()) }
            }
            Action::Evaluate { .. } => Event::Evaluated { value: Some("1".to_string()) },
            Action::ReadLinks { .. } => Event::LinksRead {
                links: vec![link("https://developer.android.com/first", "First")],
            },
            Action::Click { .. } => Event::Clicked { ok: true },
            Action::Sleep { .. } => Event::Slept,
            Action::Done => panic!("nothing to report on"),
        },
        &mut log,
    );
    let result = match outcome {
        Ok(result) => result,
        Err(error) => panic!("search failed: {:?}", error),
    };
    assert_eq!(pairs(&result), vec![pair("https://developer.android.com/first", "First")]);
    assert_eq!(count(&log, "click "), 1);
    assert_eq!(count(&log, "links "), 1);
    // eight ticks wait for the indicator, forty for the page to verify
    assert_eq!(count(&log, "sleep 250"), 48);
    assert_eq!(count(&log, "sleep 500"), 0);
    assert_eq!(count(&log, &format!("evaluate {}", LOADING_SCRIPT)), 48);
    assert_eq!(count(&log, "evaluate document.querySelector('.gsc-cursor-page:nth-child(2)')"), 40);
}

#[test]
fn three_pages_are_walked_in_order() {
    let mut reads = 0;
    let mut log = Vec::new();
    let outcome = run(
        Search::start("q", 3),
        |action| match action {
            Action::OpenPage => Event::PageOpened,
            Action::Navigate { .. } => Event::Navigated { status: Some(200) },
            Action::Evaluate { script } if script == RESULTS_READY_SCRIPT => {
                Event::Evaluated { value: Some("true".to_string()) }
            }
            Action::Evaluate { script } if script == LOADING_SCRIPT => {
                Event::Evaluated { value: None }
            }
            Action::Evaluate { script } => {
                let page = if script.contains("nth-child(2)") { "2" } else { "3" };
                Event::Evaluated { value: Some(page.to_string()) }
            }
            Action::ReadLinks { .. } => {
                reads += 1;
                Event::LinksRead {
                    links: vec![link(&format!("https://developer.android.com/page-{}", reads), "Page")],
                }
            }
            Action::Click { .. } => Event::Clicked { ok: true },
            Action::Sleep { .. } => Event::Slept,
            Action::Done => panic!("nothing to report on"),
        },
        &mut log,
    );
    let result = match outcome {
        Ok(result) => result,
        Err(error) => panic!("search failed: {:?}", error),
    };
    assert_eq!(
        pairs(&result),
        vec![
            pair("https://developer.android.com/page-1", "Page"),
            pair("https://developer.android.com/page-2", "Page"),
            pair("https://developer.android.com/page-3", "Page"),
        ]
    );
    let clicks: Vec<&String> = log.iter().filter(|n| n.starts_with("click ")).collect();
    assert_eq!(clicks, vec!["click .gsc-cursor-page:nth-child(2)", "click .gsc-cursor-page:nth-child(3)"]);
    assert_eq!(count(&log, "sleep 500"), 2);
}

#[test]
fn engine_failure_ends_the_search() {
    let mut log = Vec::new();
    let outcome = run(Search::start("q", 1), |_| Event::EngineFailed, &mut log);
    assert_eq!(outcome.err(), Some(CrawlError::EngineUnavailable));
    assert_eq!(log, vec!["open"]);
}

#[test]
fn search_state_is_visible_while_running() {
    let mut search = Search::start("q", 1);
    assert_eq!(search.attempt(), 1);
    assert!(!search.is_finished());
    search = search.step(Event::Slept);
    assert!(matches!(search.pending(), Action::OpenPage));
    search = search.step(Event::PageOpened);
    search = search.step(Event::Navigated { status: Some(404) });
    assert!(matches!(search.pending(), Action::Sleep { millis: 1000 }));
    assert_eq!(search.attempt(), 1);
    search = search.step(Event::Slept);
    assert_eq!(search.attempt(), 2);
    assert!(search.into_outcome().is_none());
}

#[test]
fn backoff_doubles() {
    assert_eq!(backoff_secs(1), 1);
    assert_eq!(backoff_secs(2), 2);
    assert_eq!(backoff_secs(3), 4);
}
