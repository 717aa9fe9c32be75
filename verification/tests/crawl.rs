use crawl_core::constants::load_js_script;
use crawl_core::crawl::{content_poll_plan, probe_for, Crawl};
use crawl_core::error::{is_rejected, CrawlError};
use crawl_core::protocol::{Action, Event};

fn run(
    mut crawl: Crawl,
    mut respond: impl FnMut(&Action) -> Event,
    log: &mut Vec<String>,
) -> Result<String, CrawlError> {
    loop {
        let action = crawl.pending();
        let note = match &action {
            Action::OpenPage => "open".to_string(),
            Action::Navigate { url, timeout_millis } => {
                assert_eq!(*timeout_millis, 30000);
                format!("navigate {}", url)
            }
            Action::Evaluate { script } => format!("evaluate {}", script),
            Action::Sleep { millis } => format!("sleep {}", millis),
            Action::Done => match crawl.into_outcome() {
                Some(outcome) => return outcome,
                None => panic!("done without an outcome"),
            },
            other => panic!("unexpected action {:?}", other),
        };
        log.push(note);
        let event = respond(&action);
        crawl = crawl.step(event);
    }
}

const PAGE: &str = "<html><body><main><article class=\"markdown\"><p>Text</p></article>\
<footer>Foot</footer></main></body></html>";

#[test]
fn crawl_reads_a_ready_page() {
    let mut log = Vec::new();
    let outcome = run(
        Crawl::start("https://example.com/doc"),
        |action| match action {
            Action::OpenPage => Event::PageOpened,
            Action::Navigate { .. } => Event::Navigated { status: Some(200) },
            Action::Evaluate { script } if script == load_js_script() => {
                Event::Evaluated { value: Some(PAGE.to_string()) }
            }
            Action::Evaluate { script } => {
                let ready = script.contains("main, article");
                Event::Evaluated { value: Some(if ready { "true" } else { "false" }.to_string()) }
            }
            Action::Sleep { .. } => Event::Slept,
            other => panic!("unexpected action {:?}", other),
        },
        &mut log,
    );
    assert_eq!(outcome, Ok("<article class=\"markdown\"><p>Text</p></article>".to_string()));
    assert_eq!(
        log,
        vec![
            "open".to_string(),
            "navigate https://example.com/doc".to_string(),
            "evaluate !!(document.querySelector('app-post'))".to_string(),
            "evaluate !!(document.querySelector('[ng-version]'))".to_string(),
            "evaluate !!(document.querySelector('main, article, .post-content, .article-content'))"
                .to_string(),
            "evaluate (document.querySelector('main, article, .post-content, .article-content')).textContent.trim().length > 100"
                .to_string(),
            "sleep 300".to_string(),
            format!("evaluate {}", load_js_script()),
        ]
    );
}

#[test]
fn crawl_proceeds_when_the_page_never_looks_ready() {
    let mut log = Vec::new();
    let outcome = run(
        Crawl::start("https://example.com/slow"),
        |action| match action {
            Action::OpenPage => Event::PageOpened,
            Action::Navigate { .. } => Event::Navigated { status: Some(200) },
            Action::Evaluate { script } if script == load_js_script() => {
                Event::Evaluated { value: Some("bare".to_string()) }
            }
            Action::Evaluate { script } => {
                let present = script.starts_with("!!(");
                Event::Evaluated { value: Some(if present { "true" } else { "false" }.to_string()) }
            }
            Action::Sleep { .. } => Event::Slept,
            other => panic!("unexpected action {:?}", other),
        },
        &mut log,
    );
    assert_eq!(outcome, Ok("bare".to_string()));
    let sleeps = log.iter().filter(|n| n.as_str() == "sleep 250").count();
    assert_eq!(sleeps, 40);
    assert_eq!(log.iter().filter(|n| n.as_str() == "sleep 300").count(), 0);
    assert_eq!(log.iter().filter(|n| n.starts_with("evaluate ")).count(), 40 * 6 + 1);
}

#[test]
fn crawl_does_not_retry_a_rejected_load() {
    let mut log = Vec::new();
    let outcome = run(
        Crawl::start("https://example.com/missing"),
        |action| match action {
            Action::OpenPage => Event::PageOpened,
            Action::Navigate { .. } => Event::Navigated { status: Some(404) },
            other => panic!("unexpected action {:?}", other),
        },
        &mut log,
    );
    assert_eq!(outcome, Err(CrawlError::Navigation { status: 404 }));
    assert_eq!(log, vec!["open", "navigate https://example.com/missing"]);
}

#[test]
fn crawl_fails_when_the_engine_does() {
    let mut log = Vec::new();
    let outcome = run(Crawl::start("https://example.com/"), |_| Event::EngineFailed, &mut log);
    assert_eq!(outcome, Err(CrawlError::EngineUnavailable));

    let mut log = Vec::new();
    let outcome = run(
        Crawl::start("https://example.com/"),
        |action| match action {
            Action::OpenPage => Event::PageOpened,
            Action::Navigate { .. } => Event::Navigated { status: None },
            Action::Evaluate { script } if script == load_js_script() => {
                Event::Evaluated { value: None }
            }
            Action::Evaluate { .. } => Event::Evaluated { value: Some("true".to_string()) },
            Action::Sleep { .. } => Event::Slept,
            other => panic!("unexpected action {:?}", other),
        },
        &mut log,
    );
    assert_eq!(outcome, Err(CrawlError::EngineUnavailable));
}

#[test]
fn crawl_is_not_over_before_its_end() {
    let mut crawl = Crawl::start("https://example.com/");
    assert!(!crawl.is_finished());
    crawl = crawl.step(Event::Navigated { status: Some(200) });
    assert!(matches!(crawl.pending(), Action::OpenPage));
    crawl = crawl.step(Event::PageOpened);
    assert!(matches!(crawl.pending(), Action::Navigate { .. }));
    assert!(crawl.into_outcome().is_none());
}

#[test]
fn success_classes_are_two_and_three_hundred() {
    assert!(is_rejected(Some(199)));
    assert!(!is_rejected(Some(200)));
    assert!(!is_rejected(Some(299)));
    assert!(!is_rejected(Some(304)));
    assert!(!is_rejected(Some(399)));
    assert!(is_rejected(Some(400)));
    assert!(is_rejected(Some(500)));
    assert!(is_rejected(Some(0)));
    assert!(!is_rejected(None));
}

#[test]
fn error_messages() {
    assert_eq!(CrawlError::Navigation { status: 404 }.message(), "HTTP error: 404");
    assert_eq!(CrawlError::Navigation { status: 0 }.message(), "HTTP error: 0");
    assert_eq!(CrawlError::Navigation { status: 65535 }.message(), "HTTP error: 65535");
    assert_eq!(CrawlError::ExtractionEmpty.message(), "No links extracted after 3 attempts");
    assert_eq!(CrawlError::EngineUnavailable.message(), "Browser engine unavailable");
}

#[test]
fn content_probes_are_built_from_their_indicator() {
    let probe = probe_for("document.body");
    assert_eq!(probe.presence.script, "!!(document.body)");
    assert_eq!(probe.presence.expected, "true");
    let richness = match probe.richness {
        Some(check) => check,
        None => panic!("a content probe checks for richness"),
    };
    assert_eq!(richness.script, "(document.body).textContent.trim().length > 100");
    assert_eq!(richness.expected, "true");
    assert_eq!(content_poll_plan().budget(), 40);
}

#[test]
fn script_is_the_page_flattener() {
    let script = load_js_script();
    assert!(script.starts_with("\n(function() {"));
    assert!(script.ends_with("})()\n"));
    assert!(script.contains("tagName === 'style' || tagName === 'script'"));
    assert!(script.contains("node.assignedNodes()"));
    assert!(script.contains("node.shadowRoot ? node.shadowRoot.childNodes : node.childNodes"));
    assert_eq!(script.len(), 3841);
}
