//! What holds of every document.

use crate::anchor::{lemma_links_prefix_failure, link_of, links_of, Failure};
use crate::bubble::{bubble_of, title_of, BubbleFailure, BubbleView, EXPAND, HEAD, TITLE};
use crate::document::{elements_matching, nested_matching, selector_error, ElementView};
use crate::indexable::{
    class_rules, excludes_of, indexables_of, rules_of, IndexableView, Scope,
    EXCLUDE_PAGE, EXCLUDE_PATH, EXCLUDE_SITE, SEARCH_PAGE, SEARCH_PATH, SEARCH_SITE,
};
use crate::topic::{topic_of, WIKIDATA_TOPIC, WIKIPEDIA_TOPIC};
use crate::uri::is_absolute_iri;
use vstd::prelude::*;

verus! {

/// The failure of a stage's result, if it failed.
pub open spec fn failure_of<T>(r: Result<T, Failure>) -> Option<Failure> {
    match r {
        Ok(_) => None,
        Err(f) => Some(f),
    }
}

/// The element-level failure behind a failure of the whole extraction, once
/// the stage that wrapped it is set aside; none for a missing title.
pub open spec fn cause(f: BubbleFailure) -> Option<Failure> {
    match f {
        BubbleFailure::MissingTitle => None,
        BubbleFailure::MissingHref(m) => Some(Failure::MissingHref(m)),
        BubbleFailure::InvalidUrl(m) => Some(Failure::InvalidUrl(m)),
        BubbleFailure::Topic(g) => Some(g),
        BubbleFailure::Indexable(g) => Some(g),
        BubbleFailure::Selector(m) => Some(Failure::Selector(m)),
    }
}

/// Whether every selector of the annotation vocabulary compiles. The
/// vocabulary is plain CSS (an element name, or an element name and a class),
/// so a conforming selector engine compiles all of it; the laws below take
/// that as given.
pub open spec fn vocabulary_compiles() -> bool {
    &&& selector_error(HEAD@) is None
    &&& selector_error(TITLE@) is None
    &&& selector_error(WIKIPEDIA_TOPIC@) is None
    &&& selector_error(WIKIDATA_TOPIC@) is None
    &&& selector_error(SEARCH_PAGE@) is None
    &&& selector_error(SEARCH_SITE@) is None
    &&& selector_error(SEARCH_PATH@) is None
    &&& selector_error(EXCLUDE_PAGE@) is None
    &&& selector_error(EXCLUDE_SITE@) is None
    &&& selector_error(EXCLUDE_PATH@) is None
    &&& selector_error(EXPAND@) is None
}

/// The topic anchors of a document, in the order they are read.
pub open spec fn topic_anchors(document: Seq<char>) -> Seq<ElementView> {
    elements_matching(document, WIKIPEDIA_TOPIC@) + elements_matching(document, WIKIDATA_TOPIC@)
}

/// The anchors of one list of rules, in the order they are read.
pub open spec fn rule_anchors(document: Seq<char>, page: Seq<char>, site: Seq<char>, path: Seq<char>) -> Seq<
    ElementView,
> {
    elements_matching(document, page) + elements_matching(document, site) + elements_matching(
        document,
        path,
    )
}

/// Every annotated anchor of a document, in the order the extraction reads
/// them: topic, inclusion, exclusion, then expand anchors.
pub open spec fn annotations(document: Seq<char>) -> Seq<ElementView> {
    topic_anchors(document) + rule_anchors(document, SEARCH_PAGE@, SEARCH_SITE@, SEARCH_PATH@)
        + rule_anchors(document, EXCLUDE_PAGE@, EXCLUDE_SITE@, EXCLUDE_PATH@) + elements_matching(
        document,
        EXPAND@,
    )
}

/// Whether all the annotated anchors of a document can be read.
pub open spec fn annotations_readable(document: Seq<char>) -> bool {
    forall|j: int| 0 <= j < annotations(document).len() ==> #[trigger] link_of(annotations(document)[j]) is Ok
}

/// Reading two sequences one after the other reads their concatenation.
pub proof fn lemma_links_concat(a: Seq<ElementView>, b: Seq<ElementView>)
    ensures
        links_of(a + b) == match links_of(a) {
            Err(f) => Err(f),
            Ok(x) => match links_of(b) {
                Err(f) => Err(f),
                Ok(y) => Ok(x + y),
            },
        },
    decreases b.len(),
{
    if b.len() == 0 {
        assert(a + b =~= a);
        if let Ok(x) = links_of(a) {
            assert(x + Seq::empty() =~= x);
        }
    } else {
        assert((a + b).drop_last() =~= a + b.drop_last());
        assert((a + b).last() == b.last());
        lemma_links_concat(a, b.drop_last());
        if let Ok(x) = links_of(a) {
            if let Ok(y) = links_of(b.drop_last()) {
                if let Ok(l) = link_of(b.last()) {
                    assert((x + y).push(l) =~= x + y.push(l));
                }
            }
        }
    }
}

/// A sequence whose elements can all be read is read without failure.
pub proof fn lemma_links_readable(s: Seq<ElementView>)
    requires
        forall|j: int| 0 <= j < s.len() ==> #[trigger] link_of(s[j]) is Ok,
    ensures
        links_of(s) is Ok,
    decreases s.len(),
{
    if s.len() > 0 {
        assert(link_of(s[s.len() - 1]) is Ok);
        assert forall|j: int| 0 <= j < s.drop_last().len() implies #[trigger] link_of(s.drop_last()[j]) is Ok by {
            assert(s.drop_last()[j] == s[j]);
        }
        lemma_links_readable(s.drop_last());
    }
}

/// The first element that cannot be read decides the failure of a sequence.
pub proof fn lemma_first_unreadable(s: Seq<ElementView>, i: int)
    requires
        0 <= i < s.len(),
        forall|j: int| 0 <= j < i ==> #[trigger] link_of(s[j]) is Ok,
        link_of(s[i]) is Err,
    ensures
        failure_of(links_of(s)) == failure_of(link_of(s[i])),
{
    assert forall|j: int| 0 <= j < s.take(i).len() implies #[trigger] link_of(s.take(i)[j]) is Ok by {
        assert(s.take(i)[j] == s[j]);
    }
    lemma_links_readable(s.take(i));
    assert(s.take(i + 1).drop_last() =~= s.take(i));
    assert(s.take(i + 1).last() == s[i]);
    lemma_links_prefix_failure(s, i + 1);
}

proof fn lemma_topic_failure(document: Seq<char>)
    requires
        vocabulary_compiles(),
    ensures
        failure_of(topic_of(document)) == failure_of(links_of(topic_anchors(document))),
{
    lemma_links_concat(
        elements_matching(document, WIKIPEDIA_TOPIC@),
        elements_matching(document, WIKIDATA_TOPIC@),
    );
}

proof fn lemma_rules_failure(document: Seq<char>, page: Seq<char>, site: Seq<char>, path: Seq<char>)
    requires
        selector_error(page) is None,
        selector_error(site) is None,
        selector_error(path) is None,
    ensures
        failure_of(rules_of(document, page, site, path)) == failure_of(
            links_of(rule_anchors(document, page, site, path)),
        ),
{
    let a = elements_matching(document, page);
    let b = elements_matching(document, site);
    let c = elements_matching(document, path);
    lemma_links_concat(a, b);
    lemma_links_concat(a + b, c);
}

/// Once a document has a title, its extraction fails exactly when one of its
/// annotated anchors cannot be read, and then with the failure of the first
/// such anchor, wrapped by the stage that read it.
pub proof fn lemma_failure_is_first_unreadable(document: Seq<char>)
    requires
        vocabulary_compiles(),
        title_of(document) is Ok,
    ensures
        (bubble_of(document) is Ok) == (links_of(annotations(document)) is Ok),
        bubble_of(document) matches Err(f) ==> cause(f) == failure_of(links_of(annotations(document))),
{
    let t = topic_anchors(document);
    let i = rule_anchors(document, SEARCH_PAGE@, SEARCH_SITE@, SEARCH_PATH@);
    let e = rule_anchors(document, EXCLUDE_PAGE@, EXCLUDE_SITE@, EXCLUDE_PATH@);
    let x = elements_matching(document, EXPAND@);
    lemma_topic_failure(document);
    lemma_rules_failure(document, SEARCH_PAGE@, SEARCH_SITE@, SEARCH_PATH@);
    lemma_rules_failure(document, EXCLUDE_PAGE@, EXCLUDE_SITE@, EXCLUDE_PATH@);
    lemma_links_concat(t, i);
    lemma_links_concat(t + i, e);
    lemma_links_concat(t + i + e, x);
}

/// A document whose first head holds a title with a non-empty first text,
/// and whose annotated anchors can all be read, yields a bubble whose title
/// is exactly that text.
pub proof fn lemma_title_kept(document: Seq<char>)
    requires
        vocabulary_compiles(),
        nested_matching(document, HEAD@, TITLE@).len() > 0,
        nested_matching(document, HEAD@, TITLE@)[0].len() > 0,
        nested_matching(document, HEAD@, TITLE@)[0][0].texts.len() > 0,
        nested_matching(document, HEAD@, TITLE@)[0][0].texts[0].len() > 0,
        annotations_readable(document),
    ensures
        bubble_of(document) matches Ok(b) && b.title == nested_matching(document, HEAD@, TITLE@)[0][0].texts[0],
{
    lemma_links_readable(annotations(document));
    lemma_failure_is_first_unreadable(document);
}

/// A document with no head, no title in its first head, or no text in that
/// title, yields no bubble: the failure is a missing title.
pub proof fn lemma_missing_title(document: Seq<char>)
    requires
        vocabulary_compiles(),
        ({
            let heads = nested_matching(document, HEAD@, TITLE@);
            ||| heads.len() == 0
            ||| heads[0].len() == 0
            ||| heads[0][0].texts.len() == 0
            ||| heads[0][0].texts[0].len() == 0
        }),
    ensures
        bubble_of(document) == Err::<BubbleView, _>(BubbleFailure::MissingTitle),
{
}

/// In a document with a title, an annotated anchor without `href`, before
/// which every annotated anchor can be read, makes the extraction fail with
/// a missing `href` that carries that anchor's markup.
pub proof fn lemma_missing_href(document: Seq<char>, i: int)
    requires
        vocabulary_compiles(),
        title_of(document) is Ok,
        0 <= i < annotations(document).len(),
        forall|j: int| 0 <= j < i ==> #[trigger] link_of(annotations(document)[j]) is Ok,
        annotations(document)[i].href is None,
    ensures
        bubble_of(document) matches Err(f) && cause(f) == Some(
            Failure::MissingHref(annotations(document)[i].markup),
        ),
{
    lemma_first_unreadable(annotations(document), i);
    lemma_failure_is_first_unreadable(document);
}

/// In a document with a title, an annotated anchor whose `href` is not an
/// absolute IRI, before which every annotated anchor can be read, makes the
/// extraction fail with an invalid URL that carries that anchor's markup.
pub proof fn lemma_invalid_url(document: Seq<char>, i: int)
    requires
        vocabulary_compiles(),
        title_of(document) is Ok,
        0 <= i < annotations(document).len(),
        forall|j: int| 0 <= j < i ==> #[trigger] link_of(annotations(document)[j]) is Ok,
        annotations(document)[i].href matches Some(h) && !is_absolute_iri(h),
    ensures
        bubble_of(document) matches Err(f) && cause(f) == Some(
            Failure::InvalidUrl(annotations(document)[i].markup),
        ),
{
    lemma_first_unreadable(annotations(document), i);
    lemma_failure_is_first_unreadable(document);
}

/// The extraction is a function of the document's text: two parses of the
/// same text yield equal bubbles, field by field, or equal failures.
pub proof fn lemma_parse_deterministic(a: Seq<char>, b: Seq<char>)
    requires
        a == b,
    ensures
        bubble_of(a) == bubble_of(b),
        bubble_of(a) matches Ok(x) ==> bubble_of(b) matches Ok(y) && x.title == y.title && x.topic
            == y.topic && x.expands == y.expands && x.indexables == y.indexables && x.excludes
            == y.excludes,
{
}

/// The position of a scope in a list of rules: page rules come first, then
/// site rules, then path rules.
pub open spec fn scope_rank(scope: Scope) -> int {
    match scope {
        Scope::Page => 0,
        Scope::Site => 1,
        Scope::Path => 2,
    }
}

/// Whether a list of rules holds its page rules before its site rules, and
/// its site rules before its path rules.
pub open spec fn scopes_ordered(v: Seq<IndexableView>) -> bool {
    forall|i: int, j: int|
        0 <= i < j < v.len() ==> scope_rank(#[trigger] v[i].scope) <= scope_rank(#[trigger] v[j].scope)
}

proof fn lemma_rules_of_one_scope(document: Seq<char>, selector: Seq<char>, scope: Scope)
    ensures
        class_rules(document, selector, scope) matches Ok(v) ==> forall|k: int|
            0 <= k < v.len() ==> (#[trigger] v[k]).scope == scope,
{
}

proof fn lemma_rules_ordered(document: Seq<char>, page: Seq<char>, site: Seq<char>, path: Seq<char>)
    ensures
        rules_of(document, page, site, path) matches Ok(v) ==> scopes_ordered(v),
{
    lemma_rules_of_one_scope(document, page, Scope::Page);
    lemma_rules_of_one_scope(document, site, Scope::Site);
    lemma_rules_of_one_scope(document, path, Scope::Path);
    if let Ok(a) = class_rules(document, page, Scope::Page) {
        if let Ok(b) = class_rules(document, site, Scope::Site) {
            if let Ok(c) = class_rules(document, path, Scope::Path) {
                let v = a + b + c;
                assert forall|k: int| 0 <= k < v.len() implies #[trigger] v[k].scope == (if k < a.len() {
                    Scope::Page
                } else if k < a.len() + b.len() {
                    Scope::Site
                } else {
                    Scope::Path
                }) by {
                    if k < a.len() {
                        assert(v[k] == a[k]);
                    } else if k < a.len() + b.len() {
                        assert(v[k] == b[k - a.len()]);
                    } else {
                        assert(v[k] == c[k - a.len() - b.len()]);
                    }
                }
            }
        }
    }
}

/// In both lists of rules of a document, whatever the order of the anchors
/// in its source, every page rule comes before every site rule, and every
/// site rule before every path rule.
pub proof fn lemma_scope_order(document: Seq<char>)
    ensures
        indexables_of(document) matches Ok(v) ==> scopes_ordered(v),
        excludes_of(document) matches Ok(v) ==> scopes_ordered(v),
{
    lemma_rules_ordered(document, SEARCH_PAGE@, SEARCH_SITE@, SEARCH_PATH@);
    lemma_rules_ordered(document, EXCLUDE_PAGE@, EXCLUDE_SITE@, EXCLUDE_PATH@);
}

} // verus!
