use crawl_core::links::{admit_links, SeenSet};
use crawl_core::models::Link;

fn link(href: &str, text: &str) -> Link {
    Link { href: href.to_string(), text: text.to_string() }
}

#[test]
fn admit_links_keeps_first_sighting_only() {
    let mut seen = SeenSet::new();
    let batch = vec![
        link("https://developer.android.com/a", "A"),
        link("https://example.com/x", "X"),
        link("https://developer.android.com/a", "A again"),
        link("https://developer.android.com/b", ""),
        link("https://developer.android.com/b", "B"),
    ];
    let added = admit_links(&batch, &mut seen);
    assert_eq!(added.len(), 2);
    assert_eq!(added[0].href, "https://developer.android.com/a");
    assert_eq!(added[0].text, "A");
    assert_eq!(added[1].href, "https://developer.android.com/b");
    assert_eq!(added[1].text, "B");
    assert!(seen.contains("https://developer.android.com/a"));
    assert!(!seen.contains("https://example.com/x"));
}

#[test]
fn seen_set_carries_over_batches() {
    let mut seen = SeenSet::new();
    let first = vec![
        link("https://developer.android.com/a", "A"),
        link("https://developer.android.com/b", "B"),
    ];
    let second = vec![
        link("https://developer.android.com/c", "C"),
        link("https://developer.android.com/a", "A from the second batch"),
        link("https://developer.android.com/c", "C again"),
    ];
    let third: Vec<Link> = vec![];
    let mut all = admit_links(&first, &mut seen);
    all.extend(admit_links(&second, &mut seen));
    all.extend(admit_links(&third, &mut seen));
    all.extend(admit_links(&first, &mut seen));
    let hrefs: Vec<&str> = all.iter().map(|l| l.href.as_str()).collect();
    assert_eq!(
        hrefs,
        vec![
            "https://developer.android.com/a",
            "https://developer.android.com/b",
            "https://developer.android.com/c",
        ]
    );
    assert_eq!(all[2].text, "C");
}

#[test]
fn rejected_candidates_are_not_remembered() {
    let mut seen = SeenSet::new();
    let batch = vec![
        link("https://developer.android.com/quiet", ""),
        link("https://elsewhere.example/", "Elsewhere"),
    ];
    assert!(admit_links(&batch, &mut seen).is_empty());
    assert!(!seen.contains("https://developer.android.com/quiet"));
    assert!(!seen.contains("https://elsewhere.example/"));
    let later = vec![link("https://developer.android.com/quiet", "Now with text")];
    let added = admit_links(&later, &mut seen);
    assert_eq!(added.len(), 1);
    assert_eq!(added[0].text, "Now with text");
}

#[test]
fn seen_set_records_addresses() {
    let mut seen = SeenSet::new();
    assert!(!seen.contains("x"));
    assert!(seen.insert("x"));
    assert!(!seen.insert("x"));
    assert!(seen.contains("x"));
    assert!(!seen.contains("X"));
}
