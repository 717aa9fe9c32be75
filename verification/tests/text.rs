use crawl_core::links::{is_admissible, REQUIRED_PREFIX};
use crawl_core::models::{Link, SearchAndroidRequest};
use crawl_core::text::{concat3, decimal_text, has_prefix, text_eq};
use crawl_core::url::search_url;

#[test]
fn text_equality() {
    assert!(text_eq("", ""));
    assert!(text_eq("true", "true"));
    assert!(!text_eq("true", "True"));
    assert!(!text_eq("true", "true "));
    assert!(text_eq("h\u{e9}llo", "h\u{e9}llo"));
    assert!(!text_eq("h\u{e9}llo", "hello"));
}

#[test]
fn prefixes() {
    assert!(has_prefix("abc", ""));
    assert!(has_prefix("abc", "ab"));
    assert!(has_prefix("abc", "abc"));
    assert!(!has_prefix("abc", "abcd"));
    assert!(!has_prefix("abc", "b"));
    assert!(has_prefix("\u{e9}t\u{e9}", "\u{e9}t"));
    assert!(!has_prefix("", "a"));
}

#[test]
fn decimal_numerals() {
    assert_eq!(decimal_text(0), "0");
    assert_eq!(decimal_text(7), "7");
    assert_eq!(decimal_text(10), "10");
    assert_eq!(decimal_text(2), "2");
    assert_eq!(decimal_text(4294967295), "4294967295");
    assert_eq!(decimal_text(u64::MAX), "18446744073709551615");
}

#[test]
fn concatenation() {
    assert_eq!(concat3("a", "", "b"), "ab");
    assert_eq!(concat3("!!(", "x", ")"), "!!(x)");
}

#[test]
fn search_address_encodes_the_query() {
    assert_eq!(
        search_url("docked toolbar"),
        "https://developer.android.com/s/results?q=docked%20toolbar"
    );
    assert_eq!(search_url(""), "https://developer.android.com/s/results?q=");
    assert_eq!(
        search_url("A-z_0.9~"),
        "https://developer.android.com/s/results?q=A-z_0.9~"
    );
    assert_eq!(
        search_url("a+b&c=d/e?f#g%"),
        "https://developer.android.com/s/results?q=a%2Bb%26c%3Dd%2Fe%3Ff%23g%25"
    );
    assert_eq!(
        search_url("caf\u{e9} \u{4e2d}"),
        "https://developer.android.com/s/results?q=caf%C3%A9%20%E4%B8%AD"
    );
}

#[test]
fn admissible_links() {
    let link = |href: &str, text: &str| Link { href: href.to_string(), text: text.to_string() };
    assert_eq!(REQUIRED_PREFIX, "https://developer.android.com/");
    assert!(is_admissible(&link("https://developer.android.com/", "Home")));
    assert!(is_admissible(&link("https://developer.android.com/guide", " ")));
    assert!(!is_admissible(&link("https://developer.android.com/guide", "")));
    assert!(!is_admissible(&link("https://developer.android.com", "No slash")));
    assert!(!is_admissible(&link("http://developer.android.com/guide", "Plain")));
    assert!(!is_admissible(&link("", "Nowhere")));
}

#[test]
fn requested_pages_default_to_one() {
    let request = SearchAndroidRequest { query: "q".to_string(), max_page: None };
    assert_eq!(request.pages(), 1);
    let request = SearchAndroidRequest { query: "q".to_string(), max_page: Some(4) };
    assert_eq!(request.pages(), 4);
    let request = SearchAndroidRequest { query: "q".to_string(), max_page: Some(0) };
    assert_eq!(request.pages(), 0);
}
