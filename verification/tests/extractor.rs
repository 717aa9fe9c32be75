use crawl_core::extractor::cascade::{
    filter_children, framework_extraction, is_struck, join_texts, nonempty, semantic_extraction,
    settle,
};
use crawl_core::extractor::dom::FragmentNode;
use crawl_core::extractor::extract_content;
use crawl_core::extractor::frameworks::{exclusion_selectors, frameworks, landmark_selectors};
use crawl_core::extractor::names::has_plain_tag_names;

const DOCUSAURUS_PAGE: &str = "<html><head><title>Doc</title></head><body><main>\
<aside class=\"theme-doc-sidebar-container\"><a href=\"/other\">Other page</a></aside>\
<article class=\"markdown\"><h1>Title</h1><p>Body text</p></article>\
</main></body></html>";

const LANDMARK_PAGE: &str = "<html><body><div id=\"top\">Banner</div>\
<div role=\"main\"><nav>Menu</nav><p>Hello</p></div></body></html>";

#[test]
fn framework_fixture_returns_article_only() {
    let content = extract_content(DOCUSAURUS_PAGE);
    assert_eq!(content, "<article class=\"markdown\"><h1>Title</h1><p>Body text</p></article>");
    assert!(!content.contains("Other page"));
    assert!(!content.contains("theme-doc-sidebar-container"));
}

#[test]
fn landmark_fixture_returns_landmark_content() {
    assert_eq!(framework_extraction(LANDMARK_PAGE), None);
    let content = extract_content(LANDMARK_PAGE);
    assert_eq!(content, "<div role=\"main\"><nav>Menu</nav><p>Hello</p></div>");
    assert!(!content.contains("Banner"));
}

#[test]
fn framework_tier_wins_over_semantic_tier() {
    let page = "<html><body><main><article class=\"markdown\"><p>From the article</p></article>\
<div role=\"main\"><p>From the landmark</p></div></main></body></html>";
    assert_eq!(
        semantic_extraction(page),
        Some("<div role=\"main\"><p>From the landmark</p></div>".to_string())
    );
    assert_eq!(
        extract_content(page),
        "<article class=\"markdown\"><p>From the article</p></article>"
    );
}

#[test]
fn top_level_boilerplate_is_dropped_and_nested_kept() {
    let page = "<html><body><div class=\"md-main\">\
<nav class=\"md-content__inner\">skip me</nav>\
<div class=\"md-content__inner\">keep <nav>deep</nav></div>\
<div class=\"md-content__inner md-sidebar\">skip me too</div>\
</div></body></html>";
    assert_eq!(
        extract_content(page),
        "<div class=\"md-content__inner\">keep <nav>deep</nav></div>"
    );
}

#[test]
fn descriptor_without_content_falls_through() {
    // `main` matches the first descriptor's container, but nothing matches
    // its content selector; a later descriptor takes the whole `main`.
    let page = "<html><body><main><p>Only a paragraph</p></main></body></html>";
    assert_eq!(extract_content(page), "<main><p>Only a paragraph</p></main>");
}

#[test]
fn extraction_is_stable_on_its_own_output() {
    let once = extract_content(DOCUSAURUS_PAGE);
    let again = extract_content(&once);
    assert_eq!(extract_content(DOCUSAURUS_PAGE), once);
    assert_eq!(again, "<article class=\"markdown\"><h1>Title</h1><p>Body text</p></article>");
}

#[test]
fn short_page_without_landmarks_is_returned_unchanged() {
    let page = "just a few words";
    assert_eq!(extract_content(page), page);
}

#[test]
fn heuristic_tier_answers_for_plain_article() {
    let page = "<html><body><div class=\"story\"><p>This paragraph is long enough, with commas, \
to be scored as the main content of the page by the heuristic.</p></div></body></html>";
    let content = extract_content(page);
    assert!(content.contains("This paragraph is long enough"));
    assert!(!content.contains("<body>"));
}

#[test]
fn odd_tag_names_skip_the_heuristic() {
    let page = "<html><body><o:p><p>This paragraph is long enough, with commas, to be scored \
as the main content of the page by the heuristic.</p></o:p></body></html>";
    assert!(!has_plain_tag_names(page));
    assert_eq!(extract_content(page), page);
}

#[test]
fn plain_tag_names_are_recognised() {
    assert!(has_plain_tag_names(""));
    assert!(has_plain_tag_names("no tags, 1 < 2"));
    assert!(has_plain_tag_names("<div class=\"a:b\"><my-part_1>x</my-part_1></div>"));
    assert!(has_plain_tag_names("<p"));
    assert!(has_plain_tag_names("<br/>"));
    assert!(!has_plain_tag_names("<o:p>"));
    assert!(!has_plain_tag_names("a<b<c>"));
    assert!(!has_plain_tag_names("<K, V>"));
    assert!(!has_plain_tag_names("<div>ok</div><x.y"));
}

#[test]
fn filter_children_drops_struck_elements_only() {
    let nodes = vec![
        FragmentNode::Element {
            html: "<nav>n</nav>".to_string(),
            matches: vec![None, Some(false), Some(true)],
        },
        FragmentNode::Text { text: " between ".to_string() },
        FragmentNode::Other,
        FragmentNode::Element {
            html: "<p>kept</p>".to_string(),
            matches: vec![None, Some(false), Some(false)],
        },
        FragmentNode::Element { html: "<i>bare</i>".to_string(), matches: vec![] },
        FragmentNode::Element { html: "<b>unknown</b>".to_string(), matches: vec![None, None] },
        FragmentNode::Element { html: "<u>first</u>".to_string(), matches: vec![Some(true)] },
    ];
    assert_eq!(filter_children(&nodes), " between <p>kept</p><i>bare</i><b>unknown</b>");
    assert_eq!(filter_children(&vec![]), "");
}

#[test]
fn struck_means_some_selector_matches() {
    assert!(!is_struck(&vec![]));
    assert!(!is_struck(&vec![None, Some(false)]));
    assert!(is_struck(&vec![None, Some(false), Some(true)]));
    assert!(is_struck(&vec![Some(true), Some(false)]));
}

#[test]
fn join_and_settle_pieces() {
    assert_eq!(join_texts(&vec![]), "");
    assert_eq!(join_texts(&vec!["<a>".to_string(), "".to_string(), "b".to_string()]), "<a>b");
    assert_eq!(nonempty(String::new()), None);
    assert_eq!(nonempty("x".to_string()), Some("x".to_string()));
    assert_eq!(settle(Some("found".to_string()), "<html>"), "found");
    assert_eq!(settle(Some(String::new()), "<html>"), "");
    assert_eq!(settle(None, "<html>"), "<html>");
}

#[test]
fn tables_have_their_entries() {
    let table = frameworks();
    assert_eq!(table.len(), 12);
    assert_eq!(table[0].main_container, "main");
    assert_eq!(table[0].text_content_selector, "article.markdown");
    assert_eq!(
        table[0].exclusions,
        vec![".pagination-nav", ".theme-doc-toc-desktop", ".theme-doc-sidebar-container", ".hash-link"]
    );
    assert_eq!(table[9].main_container, "[role='main']");
    assert_eq!(table[11].text_content_selector, "[class*='article-body__content']");
    assert_eq!(exclusion_selectors().len(), 26);
    assert_eq!(landmark_selectors(), vec!["[itemprop='articleBody']", "[role='main']"]);
}

#[test]
fn heuristic_accepts_unusual_plain_names() {
    let text = "This paragraph is long enough, with commas, to be scored as the main content \
of the page by the heuristic, whatever element holds it.";
    for name in ["x-", "a_b", "n-1", "h1-2", "my-component", "A1"] {
        let page = format!("<html><body><{0}><p>{1}</p></{0}></body></html>", name, text);
        assert!(has_plain_tag_names(&page));
        let content = extract_content(&page);
        assert!(content.contains("This paragraph is long enough"));
    }
}

#[test]
fn invalid_selectors_match_nothing() {
    // every selector of the tables is a selector: a page that matches the
    // last landmark is found by it
    let page = "<html><body><section role=\"main\">x</section></body></html>";
    assert_eq!(semantic_extraction(page), Some("<section role=\"main\">x</section>".to_string()));
    let page = "<html><body><span itemprop=\"articleBody\">first</span>\
<div role=\"main\">second</div></body></html>";
    assert_eq!(
        semantic_extraction(page),
        Some("<span itemprop=\"articleBody\">first</span>".to_string())
    );
}
