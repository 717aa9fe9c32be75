//! What the extraction asks of the HTML libraries: which elements of a
//! document a selector matches, what a fragment holds at its top, and what a
//! readability heuristic makes of a page. Each answer is a plain value.

use vstd::prelude::*;
use vstd::string::StringSliceAdditionalSpecFns;
use crate::extractor::frameworks::selector_views;
use crate::extractor::names::plain_tag_names;

verus! {

/// A node at the top of a parsed fragment.
#[derive(Debug)]
pub enum FragmentNode {
    /// An element, with its HTML text and, for each selector it was held
    /// against, whether the selector matches it (nothing where the selector
    /// is not a selector).
    Element { html: String, matches: Vec<Option<bool>> },
    /// A run of text.
    Text { text: String },
    /// Anything else (a comment, a doctype, a processing instruction).
    Other,
}

/// Mathematical value of a [`FragmentNode`].
pub enum FragmentNodeView {
    Element { html: Seq<char>, matches: Seq<Option<bool>> },
    Text { text: Seq<char> },
    Other,
}

impl View for FragmentNode {
    type V = FragmentNodeView;

    open spec fn view(&self) -> FragmentNodeView {
        match self {
            FragmentNode::Element { html, matches } => FragmentNodeView::Element {
                html: html@,
                matches: matches@,
            },
            FragmentNode::Text { text } => FragmentNodeView::Text { text: text@ },
            FragmentNode::Other => FragmentNodeView::Other,
        }
    }
}

/// The views of a run of nodes, in order.
pub open spec fn node_views(nodes: Seq<FragmentNode>) -> Seq<FragmentNodeView> {
    nodes.map_values(|n: FragmentNode| n@)
}

/// The characters of each text of a run, in order.
pub open spec fn text_views(texts: Seq<String>) -> Seq<Seq<char>> {
    texts.map_values(|t: String| t@)
}

/// The elements of the document parsed from `html` that `selector` matches,
/// each as its HTML text, in the order in which the selection yields them;
/// nothing when `selector` is not a selector.
pub uninterp spec fn document_matches(html: Seq<char>, selector: Seq<char>) -> Option<
    Seq<Seq<char>>,
>;

/// The nodes directly under the root of the fragment parsed from `fragment`,
/// in order. An element comes with its HTML text and, for each of
/// `selectors` in order, with whether that selector matches it, or with
/// nothing where the selector is not a selector.
pub uninterp spec fn fragment_children(
    fragment: Seq<char>,
    selectors: Seq<Seq<char>>,
) -> Seq<FragmentNodeView>;

/// Parses `html` as a document with `scraper::Html::parse_document`, parses
/// `selector` with `scraper::Selector::parse` and walks `Html::select`,
/// taking `ElementRef::html` of each match. The contract only names the
/// result: parsing, matching and serialising depend on nothing but the two
/// texts. A selector that does not parse gives `None`.
#[verifier::external_body]
pub(crate) fn select_outer_html(html: &str, selector: &str) -> (found: Option<Vec<String>>)
    ensures
        match found {
            Some(texts) => document_matches(html@, selector@) == Some(text_views(texts@)),
            None => document_matches(html@, selector@) is None,
        },
{
    let selector = scraper::Selector::parse(selector).ok()?;
    let document = scraper::Html::parse_document(html);
    Some(document.select(&selector).map(|element| element.html()).collect())
}

/// Whether `count` is what the selection of `selector` in the document
/// parsed from `html` holds: the number of its elements, or nothing where
/// `selector` is not a selector.
pub open spec fn counted(html: Seq<char>, selector: Seq<char>, count: Option<usize>) -> bool {
    match count {
        Some(n) => document_matches(html, selector) matches Some(found) && found.len() == n,
        None => document_matches(html, selector) is None,
    }
}

/// Parses `html` as a document with `scraper::Html::parse_document`, parses
/// each of `selectors` with `scraper::Selector::parse` and counts what
/// `Html::select` yields for it. The contract says that each count is the
/// number of elements that the selection of that selector holds, and that a
/// selector that does not parse gives `None`.
#[verifier::external_body]
pub(crate) fn count_matches(html: &str, selectors: &Vec<&'static str>) -> (counts: Vec<
    Option<usize>,
>)
    ensures
        counts@.len() == selectors@.len(),
        forall|i: int|
            0 <= i < counts@.len() ==> counted(html@, selectors@[i]@, #[trigger] counts@[i]),
{
    let document = scraper::Html::parse_document(html);
    selectors.iter().map(|s| {
        scraper::Selector::parse(s).ok().map(|s| document.select(&s).count())
    }).collect()
}

/// Parses `fragment` with `scraper::Html::parse_fragment`, parses each of
/// `selectors` with `scraper::Selector::parse`, and walks the children of
/// `Html::root_element`: an element gives its `ElementRef::html` and what
/// `Selector::matches` says of it for each selector that parsed, a text node
/// gives its text, any other node `Other`. The contract only names the
/// result, which depends on nothing but the text and the selectors.
#[verifier::external_body]
pub(crate) fn read_fragment_children(fragment: &str, selectors: &Vec<&'static str>) -> (nodes: Vec<
    FragmentNode,
>)
    ensures
        node_views(nodes@) == fragment_children(fragment@, selector_views(selectors@)),
{
    let parsed = scraper::Html::parse_fragment(fragment);
    let selectors: Vec<_> = selectors.iter().map(|s| scraper::Selector::parse(s).ok()).collect();
    parsed.root_element().children().map(|node| match scraper::ElementRef::wrap(node) {
        Some(element) => FragmentNode::Element {
            html: element.html(),
            matches: selectors.iter().map(|s| s.as_ref().map(|s| s.matches(&element))).collect(),
        },
        None => match node.value().as_text() {
            Some(text) => FragmentNode::Text { text: text.text.to_string() },
            None => FragmentNode::Other,
        },
    }).collect()
}

/// Calls `readability_rust::Readability::new` on `html`, then `parse`, and
/// hands back the `content` of the article, if there is one. Nothing is
/// claimed of the result: the heuristic walks a hash map of candidates, so
/// two calls on one text may differ. The call is only made on a text whose
/// tag names are plain, because `parse` looks its best candidate up again by
/// using the element's name as a selector and stops the program where that
/// name is not one.
#[verifier::external_body]
pub(crate) fn readable_content(html: &str) -> (content: Option<String>)
    requires
        plain_tag_names(html.spec_bytes()),
{
    readability_rust::Readability::new(html, None).ok()?.parse()?.content
}

} // verus!
