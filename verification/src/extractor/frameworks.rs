//! The fixed tables of the extraction: the known site generators with the
//! selectors that isolate their article, the landmark selectors, and the
//! selectors of boilerplate that is dropped everywhere.

use vstd::prelude::*;

verus! {

/// A known site generator: how to recognise its pages, where their article
/// lies, and what to drop from it.
#[derive(Debug)]
pub struct Framework {
    /// Selector that matches on every page of the generator.
    pub main_container: &'static str,
    /// Selector of the elements that hold the article.
    pub text_content_selector: &'static str,
    /// Selectors of what is dropped from the article, besides the
    /// boilerplate dropped everywhere.
    pub exclusions: Vec<&'static str>,
}

/// Mathematical value of a [`Framework`].
pub struct FrameworkView {
    pub container: Seq<char>,
    pub content: Seq<char>,
    pub exclusions: Seq<Seq<char>>,
}

/// The characters of each selector of a run, in order.
pub open spec fn selector_views(selectors: Seq<&'static str>) -> Seq<Seq<char>> {
    selectors.map_values(|s: &'static str| s@)
}

impl View for Framework {
    type V = FrameworkView;

    open spec fn view(&self) -> FrameworkView {
        FrameworkView {
            container: self.main_container@,
            content: self.text_content_selector@,
            exclusions: selector_views(self.exclusions@),
        }
    }
}

/// The views of a run of descriptors, in order.
pub open spec fn framework_views(table: Seq<Framework>) -> Seq<FrameworkView> {
    table.map_values(|f: Framework| f@)
}

/// The table of known site generators, in the order in which they are tried.
pub open spec fn framework_table() -> Seq<FrameworkView> {
    seq![
        FrameworkView {
            container: "main"@,
            content: "article.markdown"@,
            exclusions: seq![
                ".pagination-nav"@,
                ".theme-doc-toc-desktop"@,
                ".theme-doc-sidebar-container"@,
                ".hash-link"@,
            ],
        },
        FrameworkView {
            container: ".wy-nav-content"@,
            content: "[itemprop='articleBody']"@,
            exclusions: seq![".wy-nav-side"@, ".rst-footer-buttons"@, "a.headerlink"@],
        },
        FrameworkView {
            container: "div.body"@,
            content: "div.body"@,
            exclusions: seq![".sphinxsidebar"@, ".link-header"@],
        },
        FrameworkView {
            container: ".md-main"@,
            content: ".md-content__inner"@,
            exclusions: seq![".md-sidebar"@, ".md-footer"@, ".md-header"@, ".md-clipboard"@],
        },
        FrameworkView {
            container: ".page-inner"@,
            content: ".page-inner section"@,
            exclusions: seq![".book-summary"@, ".book-header"@],
        },
        FrameworkView {
            container: "main"@,
            content: "main"@,
            exclusions: seq!["nav"@, "div[class*='sidebar']"@],
        },
        FrameworkView {
            container: "main"@,
            content: ".content, .post-content"@,
            exclusions: seq!["header"@, "footer"@, ".menu"@],
        },
        FrameworkView {
            container: "main"@,
            content: "main"@,
            exclusions: seq!["nav"@, "footer"@, ".nextra-sidebar-container"@],
        },
        FrameworkView {
            container: "#site-content"@,
            content: "section[data-testid='story-content']"@,
            exclusions: seq![
                "#site-content-skip"@,
                "[data-testid='related-links']"@,
                "[data-testid='newsletter-signup']"@,
            ],
        },
        FrameworkView {
            container: "[role='main']"@,
            content: "[data-component='text-block']"@,
            exclusions: seq!["[role='complementary']"@, ".bbc-1151pbn"@],
        },
        FrameworkView {
            container: ".article__content"@,
            content: ".Paragraph__component"@,
            exclusions: seq![".el-spoke-story"@, ".zn-body__read-more"@, ".ad-container"@],
        },
        FrameworkView {
            container: "main"@,
            content: "[class*='article-body__content']"@,
            exclusions: seq!["[data-testid='sidebar']"@, "nav"@, ".read-next-container"@],
        },
    ]
}

/// The selectors of boilerplate that is dropped wherever it stands at the
/// top of the content: navigation, advertisements, sharing, overlays,
/// consent banners, metadata and what is meant for print only.
pub open spec fn global_exclusions() -> Seq<Seq<char>> {
    seq![
        "header"@,
        "footer"@,
        "nav"@,
        "aside"@,
        "[role='navigation']"@,
        "[role='banner']"@,
        "[role='contentinfo']"@,
        "[role='alert']"@,
        ".ad"@,
        ".advertisement"@,
        "[class*='google_ads']"@,
        "[id*='div-gpt-ad']"@,
        ".share-buttons"@,
        ".social-media"@,
        ".twitter-tweet"@,
        "div[class*='share']"@,
        ".modal"@,
        ".popup"@,
        ".overlay"@,
        "[class*='cookie']"@,
        "[class*='consent']"@,
        ".author-bio"@,
        ".timestamp"@,
        ".meta-data"@,
        ".no-print"@,
        ".print-only"@,
    ]
}

/// The landmark selectors of the semantic tier, in the order in which they
/// are tried.
pub open spec fn semantic_selectors() -> Seq<Seq<char>> {
    seq!["[itemprop='articleBody']"@, "[role='main']"@]
}

fn framework(
    main_container: &'static str,
    text_content_selector: &'static str,
    exclusions: Vec<&'static str>,
) -> (descriptor: Framework)
    ensures
        descriptor@ == (FrameworkView {
            container: main_container@,
            content: text_content_selector@,
            exclusions: selector_views(exclusions@),
        }),
{
    Framework { main_container, text_content_selector, exclusions }
}

fn two(a: &'static str, b: &'static str) -> (list: Vec<&'static str>)
    ensures
        selector_views(list@) == seq![a@, b@],
{
    let list = vec![a, b];
    assert(selector_views(list@) =~= seq![a@, b@]);
    list
}

fn three(a: &'static str, b: &'static str, c: &'static str) -> (list: Vec<&'static str>)
    ensures
        selector_views(list@) == seq![a@, b@, c@],
{
    let list = vec![a, b, c];
    assert(selector_views(list@) =~= seq![a@, b@, c@]);
    list
}

fn four(a: &'static str, b: &'static str, c: &'static str, d: &'static str) -> (list: Vec<
    &'static str,
>)
    ensures
        selector_views(list@) == seq![a@, b@, c@, d@],
{
    let list = vec![a, b, c, d];
    assert(selector_views(list@) =~= seq![a@, b@, c@, d@]);
    list
}

/// The table of known site generators, in the order in which they are tried.
pub fn frameworks() -> (table: Vec<Framework>)
    ensures
        framework_views(table@) == framework_table(),
{
    let mut table: Vec<Framework> = Vec::new();
    table.push(
        framework(
            "main",
            "article.markdown",
            four(
                ".pagination-nav",
                ".theme-doc-toc-desktop",
                ".theme-doc-sidebar-container",
                ".hash-link",
            ),
        ),
    );
    table.push(
        framework(
            ".wy-nav-content",
            "[itemprop='articleBody']",
            three(".wy-nav-side", ".rst-footer-buttons", "a.headerlink"),
        ),
    );
    table.push(framework("div.body", "div.body", two(".sphinxsidebar", ".link-header")));
    table.push(
        framework(
            ".md-main",
            ".md-content__inner",
            four(".md-sidebar", ".md-footer", ".md-header", ".md-clipboard"),
        ),
    );
    table.push(
        framework(".page-inner", ".page-inner section", two(".book-summary", ".book-header")),
    );
    table.push(framework("main", "main", two("nav", "div[class*='sidebar']")));
    table.push(framework("main", ".content, .post-content", three("header", "footer", ".menu")));
    table.push(framework("main", "main", three("nav", "footer", ".nextra-sidebar-container")));
    table.push(
        framework(
            "#site-content",
            "section[data-testid='story-content']",
            three(
                "#site-content-skip",
                "[data-testid='related-links']",
                "[data-testid='newsletter-signup']",
            ),
        ),
    );
    table.push(
        framework(
            "[role='main']",
            "[data-component='text-block']",
            two("[role='complementary']", ".bbc-1151pbn"),
        ),
    );
    table.push(
        framework(
            ".article__content",
            ".Paragraph__component",
            three(".el-spoke-story", ".zn-body__read-more", ".ad-container"),
        ),
    );
    table.push(
        framework(
            "main",
            "[class*='article-body__content']",
            three("[data-testid='sidebar']", "nav", ".read-next-container"),
        ),
    );
    assert(framework_views(table@) =~= framework_table());
    table
}

/// The selectors of boilerplate that is dropped everywhere.
pub fn exclusion_selectors() -> (list: Vec<&'static str>)
    ensures
        selector_views(list@) == global_exclusions(),
{
    let list = vec![
        "header",
        "footer",
        "nav",
        "aside",
        "[role='navigation']",
        "[role='banner']",
        "[role='contentinfo']",
        "[role='alert']",
        ".ad",
        ".advertisement",
        "[class*='google_ads']",
        "[id*='div-gpt-ad']",
        ".share-buttons",
        ".social-media",
        ".twitter-tweet",
        "div[class*='share']",
        ".modal",
        ".popup",
        ".overlay",
        "[class*='cookie']",
        "[class*='consent']",
        ".author-bio",
        ".timestamp",
        ".meta-data",
        ".no-print",
        ".print-only",
    ];
    assert(selector_views(list@) =~= global_exclusions());
    list
}

/// The landmark selectors of the semantic tier.
pub fn landmark_selectors() -> (list: Vec<&'static str>)
    ensures
        selector_views(list@) == semantic_selectors(),
{
    let list = vec!["[itemprop='articleBody']", "[role='main']"];
    assert(selector_views(list@) =~= semantic_selectors());
    list
}

} // verus!
