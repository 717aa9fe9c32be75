//! The tiers of the extraction and their cascade: known site generators
//! first, then landmarks, then a readability heuristic, then the page as it
//! came.

use vstd::prelude::*;
use vstd::string::StringExecFns;
use vstd::utf8::encode_utf8;
use crate::extractor::dom::{FragmentNode, FragmentNodeView, count_matches, counted,
    document_matches, fragment_children, node_views, read_fragment_children, readable_content,
    select_outer_html, text_views};
use crate::extractor::frameworks::{Framework, FrameworkView, exclusion_selectors, framework_table,
    framework_views, frameworks, global_exclusions, landmark_selectors, selector_views,
    semantic_selectors};
use crate::extractor::names::{has_plain_tag_names, plain_tag_names};

verus! {

/// The texts of a run laid end to end.
pub open spec fn joined_texts(parts: Seq<Seq<char>>) -> Seq<char>
    decreases parts.len(),
{
    if parts.len() == 0 {
        Seq::empty()
    } else {
        joined_texts(parts.drop_last()) + parts.last()
    }
}

/// The texts of `parts` laid end to end.
pub fn join_texts(parts: &Vec<String>) -> (joined: String)
    ensures
        joined@ == joined_texts(text_views(parts@)),
{
    let mut joined = String::new();
    let mut i: usize = 0;
    proof {
        assert(text_views(parts@).take(0) =~= Seq::<Seq<char>>::empty());
    }
    while i < parts.len()
        invariant
            i <= parts.len(),
            joined@ == joined_texts(text_views(parts@).take(i as int)),
        decreases parts.len() - i,
    {
        proof {
            let views = text_views(parts@);
            assert(views.take(i + 1).drop_last() =~= views.take(i as int));
            assert(views.take(i + 1).last() == parts@[i as int]@);
        }
        joined.append(parts[i].as_str());
        i = i + 1;
    }
    proof {
        assert(text_views(parts@).take(parts.len() as int) =~= text_views(parts@));
    }
    joined
}

/// Whether some selector matches: an entry says so.
pub open spec fn struck(matches: Seq<Option<bool>>) -> bool {
    exists|j: int| 0 <= j < matches.len() && #[trigger] matches[j] == Some(true)
}

/// What a node adds to the cleaned text: an element its HTML unless it is
/// struck, a text node its text, anything else nothing.
pub open spec fn contribution(node: FragmentNodeView) -> Seq<char> {
    match node {
        FragmentNodeView::Element { html, matches } => if struck(matches) {
            Seq::empty()
        } else {
            html
        },
        FragmentNodeView::Text { text } => text,
        FragmentNodeView::Other => Seq::empty(),
    }
}

/// The contributions of the nodes laid end to end.
pub open spec fn kept(nodes: Seq<FragmentNodeView>) -> Seq<char>
    decreases nodes.len(),
{
    if nodes.len() == 0 {
        Seq::empty()
    } else {
        kept(nodes.drop_last()) + contribution(nodes.last())
    }
}

/// Whether some selector matches: an entry says so.
pub fn is_struck(matches: &Vec<Option<bool>>) -> (hit: bool)
    ensures
        hit == struck(matches@),
{
    let mut j: usize = 0;
    while j < matches.len()
        invariant
            j <= matches.len(),
            forall|k: int| 0 <= k < j ==> #[trigger] matches@[k] != Some(true),
        decreases matches.len() - j,
    {
        let hit = match matches[j] {
            Some(matched) => matched,
            None => false,
        };
        if hit {
            return true;
        }
        j = j + 1;
    }
    false
}

/// Filters the nodes at the top of a fragment: an element is dropped where
/// some selector matches it and is kept with its HTML otherwise, text passes
/// as it is, anything else is dropped. What is kept is laid end to end.
pub fn filter_children(nodes: &Vec<FragmentNode>) -> (text: String)
    ensures
        text@ == kept(node_views(nodes@)),
{
    let mut text = String::new();
    let mut i: usize = 0;
    proof {
        assert(node_views(nodes@).take(0) =~= Seq::<FragmentNodeView>::empty());
    }
    while i < nodes.len()
        invariant
            i <= nodes.len(),
            text@ == kept(node_views(nodes@).take(i as int)),
        decreases nodes.len() - i,
    {
        proof {
            let views = node_views(nodes@);
            assert(views.take(i + 1).drop_last() =~= views.take(i as int));
            assert(views.take(i + 1).last() == nodes@[i as int]@);
        }
        match &nodes[i] {
            FragmentNode::Element { html, matches } => {
                if !is_struck(matches) {
                    text.append(html.as_str());
                }
            },
            FragmentNode::Text { text: run } => {
                text.append(run.as_str());
            },
            FragmentNode::Other => {},
        }
        assert(text@ =~= kept(node_views(nodes@).take(i + 1)));
        i = i + 1;
    }
    proof {
        assert(node_views(nodes@).take(nodes.len() as int) =~= node_views(nodes@));
    }
    text
}

/// The fragment parsed from `fragment` with the top-level elements dropped
/// that one of `exclusions` matches: only the nodes directly under its root
/// are screened, whatever lies deeper stays.
pub open spec fn cleaned(fragment: Seq<char>, exclusions: Seq<Seq<char>>) -> Seq<char> {
    kept(fragment_children(fragment, exclusions))
}

/// The selectors of `own`, then those of `global`.
fn both(own: &Vec<&'static str>, global: &Vec<&'static str>) -> (all: Vec<&'static str>)
    ensures
        selector_views(all@) == selector_views(own@) + selector_views(global@),
{
    let mut all: Vec<&'static str> = Vec::new();
    let mut i: usize = 0;
    while i < own.len()
        invariant
            i <= own.len(),
            all@ == own@.take(i as int),
        decreases own.len() - i,
    {
        all.push(own[i]);
        assert(all@ =~= own@.take(i + 1));
        i = i + 1;
    }
    let mut j: usize = 0;
    while j < global.len()
        invariant
            j <= global.len(),
            all@ == own@ + global@.take(j as int),
        decreases global.len() - j,
    {
        all.push(global[j]);
        assert(all@ =~= own@ + global@.take(j + 1));
        j = j + 1;
    }
    assert(selector_views(all@) =~= selector_views(own@) + selector_views(global@));
    all
}

/// Parses `fragment` and drops from its top what one of `exclusions` matches.
fn clean_under(fragment: &str, exclusions: &Vec<&'static str>) -> (text: String)
    ensures
        text@ == cleaned(fragment@, selector_views(exclusions@)),
{
    let nodes = read_fragment_children(fragment, exclusions);
    filter_children(&nodes)
}

/// `text`, unless it is empty.
pub open spec fn unless_empty(text: Seq<char>) -> Option<Seq<char>> {
    if text.len() == 0 {
        None
    } else {
        Some(text)
    }
}

/// `text`, unless it is empty.
pub fn nonempty(text: String) -> (kept: Option<String>)
    ensures
        match kept {
            Some(t) => unless_empty(text@) == Some(t@),
            None => unless_empty(text@) is None,
        },
{
    if text.as_str().is_empty() {
        None
    } else {
        Some(text)
    }
}

/// What one site generator makes of the page: nothing unless its container
/// selector matches; else the elements under its content selector, laid end
/// to end and parsed again as a fragment, with the top-level boilerplate
/// dropped; nothing where that is empty or a selector is not one.
pub open spec fn framework_result(html: Seq<char>, descriptor: FrameworkView) -> Option<Seq<char>> {
    match document_matches(html, descriptor.container) {
        None => None,
        Some(containers) => if containers.len() == 0 {
            None
        } else {
            match document_matches(html, descriptor.content) {
                None => None,
                Some(parts) => if joined_texts(parts).len() == 0 {
                    None
                } else {
                    unless_empty(
                        cleaned(joined_texts(parts), descriptor.exclusions + global_exclusions()),
                    )
                },
            }
        },
    }
}

/// What one landmark selector makes of the page: the first element it
/// matches, parsed again as a fragment, with the top-level boilerplate
/// dropped; nothing where there is none or that is empty.
pub open spec fn landmark_result(html: Seq<char>, selector: Seq<char>) -> Option<Seq<char>> {
    match document_matches(html, selector) {
        None => None,
        Some(found) => if found.len() == 0 {
            None
        } else {
            unless_empty(cleaned(found[0], global_exclusions()))
        },
    }
}

/// The first result there is, in order.
pub open spec fn first_some(results: Seq<Option<Seq<char>>>) -> Option<Seq<char>>
    decreases results.len(),
{
    if results.len() == 0 {
        None
    } else if results[0] is Some {
        results[0]
    } else {
        first_some(results.drop_first())
    }
}

/// The framework tier: the result of the first site generator of the table
/// that has one.
pub open spec fn framework_tier(html: Seq<char>) -> Option<Seq<char>> {
    first_some(framework_table().map_values(|d: FrameworkView| framework_result(html, d)))
}

/// The semantic tier: the result of the first landmark selector that has one.
pub open spec fn semantic_tier(html: Seq<char>) -> Option<Seq<char>> {
    first_some(semantic_selectors().map_values(|s: Seq<char>| landmark_result(html, s)))
}

/// Whether `content` is an extraction of `html`: the result of the framework
/// tier where it has one; else that of the semantic tier where it has one;
/// else, where some tag name of `html` is not plain, `html` itself. Where
/// neither tier has a result and all tag names are plain, the readability
/// heuristic decides, of which nothing is stated.
pub open spec fn is_extraction(html: Seq<char>, content: Seq<char>) -> bool {
    match framework_tier(html) {
        Some(text) => content == text,
        None => match semantic_tier(html) {
            Some(text) => content == text,
            None => plain_tag_names(encode_utf8(html)) || content == html,
        },
    }
}

/// A run of results whose first `n` are nothing has the first result of the
/// rest.
pub proof fn lemma_first_some_skips(results: Seq<Option<Seq<char>>>, n: int)
    requires
        0 <= n <= results.len(),
        forall|k: int| 0 <= k < n ==> #[trigger] results[k] is None,
    ensures
        first_some(results) == first_some(results.subrange(n, results.len() as int)),
    decreases n,
{
    if n == 0 {
        assert(results.subrange(0, results.len() as int) =~= results);
    } else {
        let rest = results.drop_first();
        assert forall|k: int| 0 <= k < n - 1 implies #[trigger] rest[k] is None by {
            assert(rest[k] == results[k + 1]);
        }
        lemma_first_some_skips(rest, n - 1);
        assert(rest.subrange(n - 1, rest.len() as int) =~= results.subrange(
            n,
            results.len() as int,
        ));
    }
}

/// Whether a count says that a selector is one and matches something.
fn any_match(count: &Option<usize>) -> (found: bool)
    ensures
        found == (count matches Some(n) && n > 0),
{
    match count {
        Some(n) => *n > 0,
        None => false,
    }
}

/// What one site generator makes of a page that its container selector
/// matches.
fn apply_framework_extraction(
    html: &str,
    descriptor: &Framework,
    global: &Vec<&'static str>,
) -> (result: Option<String>)
    requires
        selector_views(global@) == global_exclusions(),
        document_matches(html@, descriptor@.container) matches Some(containers)
            && containers.len() > 0,
    ensures
        match result {
            Some(text) => framework_result(html@, descriptor@) == Some(text@),
            None => framework_result(html@, descriptor@) is None,
        },
{
    let parts = match select_outer_html(html, descriptor.text_content_selector) {
        Some(found) => found,
        None => {
            return None;
        },
    };
    let content = join_texts(&parts);
    if content.as_str().is_empty() {
        return None;
    }
    let exclusions = both(&descriptor.exclusions, global);
    nonempty(clean_under(content.as_str(), &exclusions))
}

/// What one landmark selector makes of the page.
fn apply_semantic_extraction(html: &str, selector: &str, global: &Vec<&'static str>) -> (result:
    Option<String>)
    requires
        selector_views(global@) == global_exclusions(),
    ensures
        match result {
            Some(text) => landmark_result(html@, selector@) == Some(text@),
            None => landmark_result(html@, selector@) is None,
        },
{
    let found = match select_outer_html(html, selector) {
        Some(found) => found,
        None => {
            return None;
        },
    };
    assert(text_views(found@).len() == found@.len());
    if found.len() == 0 {
        return None;
    }
    assert(text_views(found@)[0] == found@[0]@);
    nonempty(clean_under(found[0].as_str(), global))
}

/// The container selectors of a table, then its content selectors, each run
/// in table order.
fn descriptor_selectors(table: &Vec<Framework>) -> (list: Vec<&'static str>)
    ensures
        list@.len() == 2 * table@.len(),
        forall|k: int|
            0 <= k < table@.len() ==> list@[k]@ == (#[trigger] table@[k])@.container && list@[table@.len()
                + k]@ == table@[k]@.content,
{
    let mut list: Vec<&'static str> = Vec::new();
    let count = table.len();
    let mut i: usize = 0;
    while i < count
        invariant
            i <= count,
            count == table@.len(),
            list@.len() == i,
            forall|k: int| 0 <= k < i ==> list@[k]@ == (#[trigger] table@[k])@.container,
        decreases count - i,
    {
        list.push(table[i].main_container);
        i = i + 1;
    }
    let mut j: usize = 0;
    while j < count
        invariant
            j <= count,
            count == table@.len(),
            list@.len() == count + j,
            forall|k: int| 0 <= k < count ==> list@[k]@ == (#[trigger] table@[k])@.container,
            forall|k: int| 0 <= k < j ==> list@[count + k]@ == (#[trigger] table@[k])@.content,
        decreases count - j,
    {
        list.push(table[j].text_content_selector);
        j = j + 1;
    }
    list
}

/// The framework tier on `html`.
pub fn framework_extraction(html: &str) -> (result: Option<String>)
    ensures
        match result {
            Some(text) => framework_tier(html@) == Some(text@),
            None => framework_tier(html@) is None,
        },
{
    let table = frameworks();
    let global = exclusion_selectors();
    let selectors = descriptor_selectors(&table);
    let counts = count_matches(html, &selectors);
    let count = table.len();
    let ghost results = framework_table().map_values(|d: FrameworkView| framework_result(html@, d));
    proof {
        assert forall|k: int| 0 <= k < count implies counted(
            html@,
            (#[trigger] table@[k])@.container,
            counts@[k],
        ) && counted(html@, table@[k]@.content, counts@[count + k]) by {
            assert(selectors@[k]@ == table@[k]@.container);
            assert(selectors@[count + k]@ == table@[k]@.content);
        }
    }
    let mut i: usize = 0;
    while i < count
        invariant
            i <= count,
            count == table@.len(),
            counts@.len() == 2 * count,
            framework_views(table@) == framework_table(),
            selector_views(global@) == global_exclusions(),
            results == framework_table().map_values(|d: FrameworkView| framework_result(html@, d)),
            forall|k: int| 0 <= k < i ==> #[trigger] results[k] is None,
            forall|k: int|
                0 <= k < count ==> counted(html@, (#[trigger] table@[k])@.container, counts@[k])
                    && counted(html@, table@[k]@.content, counts@[count + k]),
        decreases count - i,
    {
        assert(framework_views(table@)[i as int] == table@[i as int]@);
        assert(framework_views(table@).len() == table@.len());
        let ghost descriptor = table@[i as int]@;
        let container = any_match(&counts[i]);
        let content = any_match(&counts[count + i]);
        let result = if container && content {
            apply_framework_extraction(html, &table[i], &global)
        } else {
            proof {
                if container && counts@[count + i] is Some {
                    let parts = document_matches(html@, descriptor.content)->0;
                    assert(parts =~= Seq::<Seq<char>>::empty());
                }
            }
            None
        };
        if result.is_some() {
            proof {
                lemma_first_some_skips(results, i as int);
                assert(results.subrange(i as int, results.len() as int)[0] == results[i as int]);
            }
            return result;
        }
        i = i + 1;
    }
    proof {
        assert(framework_views(table@).len() == table@.len());
        lemma_first_some_skips(results, results.len() as int);
    }
    None
}

/// The semantic tier on `html`.
pub fn semantic_extraction(html: &str) -> (result: Option<String>)
    ensures
        match result {
            Some(text) => semantic_tier(html@) == Some(text@),
            None => semantic_tier(html@) is None,
        },
{
    let selectors = landmark_selectors();
    let global = exclusion_selectors();
    let counts = count_matches(html, &selectors);
    let ghost results = semantic_selectors().map_values(|s: Seq<char>| landmark_result(html@, s));
    let mut i: usize = 0;
    while i < selectors.len()
        invariant
            i <= selectors.len(),
            selector_views(selectors@) == semantic_selectors(),
            selector_views(global@) == global_exclusions(),
            results == semantic_selectors().map_values(|s: Seq<char>| landmark_result(html@, s)),
            forall|k: int| 0 <= k < i ==> #[trigger] results[k] is None,
            counts@.len() == selectors@.len(),
            forall|k: int|
                0 <= k < counts@.len() ==> counted(html@, selectors@[k]@, #[trigger] counts@[k]),
        decreases selectors.len() - i,
    {
        assert(selector_views(selectors@)[i as int] == selectors@[i as int]@);
        assert(selector_views(selectors@).len() == selectors@.len());
        let result = if any_match(&counts[i]) {
            apply_semantic_extraction(html, selectors[i], &global)
        } else {
            None
        };
        if result.is_some() {
            proof {
                lemma_first_some_skips(results, i as int);
                assert(results.subrange(i as int, results.len() as int)[0] == results[i as int]);
            }
            return result;
        }
        i = i + 1;
    }
    proof {
        assert(selector_views(selectors@).len() == selectors@.len());
        lemma_first_some_skips(results, results.len() as int);
    }
    None
}

/// The last two tiers: what the heuristic found, or else the page as it came.
pub fn settle(heuristic: Option<String>, html: &str) -> (content: String)
    ensures
        content@ == match heuristic {
            Some(text) => text@,
            None => html@,
        },
{
    match heuristic {
        Some(text) => text,
        None => String::from_str(html),
    }
}

/// Reduces `html` to its main content. The tiers are tried in order and the
/// first result is returned: the framework tier, the semantic tier, the
/// readability heuristic (asked only where all tag names of `html` are
/// plain), and last `html` itself. There is a result for every text.
pub fn extract_content(html: &str) -> (content: String)
    ensures
        is_extraction(html@, content@),
{
    if let Some(text) = framework_extraction(html) {
        return text;
    }
    if let Some(text) = semantic_extraction(html) {
        return text;
    }
    let heuristic = if has_plain_tag_names(html) {
        readable_content(html)
    } else {
        None
    };
    settle(heuristic, html)
}

/// Short circuit: where the framework tier has a result, that result is the
/// extraction, whatever the semantic tier or the heuristic would have found.
pub proof fn law_framework_tier_short_circuits(html: Seq<char>, content: Seq<char>)
    requires
        framework_tier(html) is Some,
        is_extraction(html, content),
    ensures
        content == framework_tier(html)->0,
{
}

/// The tiers are tried in order: the semantic tier answers exactly where the
/// framework tier has no result and it has one.
pub proof fn law_semantic_tier_is_second(html: Seq<char>, content: Seq<char>)
    requires
        framework_tier(html) is None,
        semantic_tier(html) is Some,
        is_extraction(html, content),
    ensures
        content == semantic_tier(html)->0,
{
}

/// Extraction is a function of the page wherever the heuristic is not asked:
/// where one of the first two tiers has a result, or some tag name is not
/// plain, any two extractions of one page are equal.
pub proof fn law_extraction_is_determined(html: Seq<char>, one: Seq<char>, other: Seq<char>)
    requires
        is_extraction(html, one),
        is_extraction(html, other),
        framework_tier(html) is Some || semantic_tier(html) is Some || !plain_tag_names(
            encode_utf8(html),
        ),
    ensures
        one == other,
{
}

/// Extraction is idempotent on what it leaves unchanged: where an extraction
/// of a page is the page itself and the heuristic is not asked, extracting
/// again gives the same text.
pub proof fn law_unchanged_page_stays_unchanged(html: Seq<char>, once: Seq<char>, twice: Seq<char>)
    requires
        is_extraction(html, once),
        once == html,
        is_extraction(once, twice),
        framework_tier(html) is Some || semantic_tier(html) is Some || !plain_tag_names(
            encode_utf8(html),
        ),
    ensures
        twice == once,
{
}

} // verus!
