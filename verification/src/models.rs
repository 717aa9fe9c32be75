//! Plain request and result values exchanged with callers.

use vstd::prelude::*;

verus! {

/// Request to crawl one page.
#[derive(Debug)]
pub struct CrawlUrlRequest {
    pub url: String,
}

/// Request to search the documentation site. `max_page` counts result pages
/// to walk; when absent a single page is read.
#[derive(Debug)]
pub struct SearchAndroidRequest {
    pub query: String,
    pub max_page: Option<u32>,
}

impl SearchAndroidRequest {
    /// The number of result pages this request asks for.
    pub open spec fn spec_pages(&self) -> u32 {
        match self.max_page {
            Some(n) => n,
            None => 1,
        }
    }

    /// The number of result pages this request asks for: `max_page`, or one
    /// page when none was given.
    #[verifier::when_used_as_spec(spec_pages)]
    pub fn pages(&self) -> (n: u32)
        ensures
            n == self.spec_pages(),
    {
        match self.max_page {
            Some(n) => n,
            None => 1,
        }
    }
}

/// A hyperlink found on a results page. Two links are the same link when
/// their `href` texts are equal.
#[derive(Debug)]
pub struct Link {
    pub href: String,
    pub text: String,
}

/// Mathematical value of a [`Link`].
pub struct LinkView {
    pub href: Seq<char>,
    pub text: Seq<char>,
}

impl View for Link {
    type V = LinkView;

    open spec fn view(&self) -> LinkView {
        LinkView { href: self.href@, text: self.text@ }
    }
}

impl Clone for Link {
    fn clone(&self) -> (res: Self)
        ensures
            res@ == self@,
    {
        Link { href: self.href.clone(), text: self.text.clone() }
    }
}

/// The views of a run of links, in order.
pub open spec fn link_views(links: Seq<Link>) -> Seq<LinkView> {
    links.map_values(|l: Link| l@)
}

/// The set of `href` texts that occur in a run of links.
pub open spec fn hrefs(links: Seq<LinkView>) -> Set<Seq<char>> {
    Set::new(|h: Seq<char>| exists|i: int| 0 <= i < links.len() && #[trigger] links[i].href == h)
}

/// No two entries share an `href`.
pub open spec fn distinct_hrefs(links: Seq<LinkView>) -> bool {
    forall|i: int, j: int|
        0 <= i < j < links.len() ==> #[trigger] links[i].href != #[trigger] links[j].href
}

/// The links of a search, in the order in which they were first seen.
#[derive(Debug)]
pub struct SearchResult {
    pub links: Vec<Link>,
}

impl View for SearchResult {
    type V = Seq<LinkView>;

    open spec fn view(&self) -> Seq<LinkView> {
        link_views(self.links@)
    }
}

} // verus!
