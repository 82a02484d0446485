//! Extraction of a "bubble" manifest from an annotated HTML document: its
//! title, the topic identifiers it declares, the pages it asks to have
//! indexed or excluded, and the other bubbles it expands into.
//!
//! The HTML parsing and the CSS selector matching are scraper's; whether a
//! text is an absolute IRI is iri-string's. Everything the extraction decides
//! on top of them is verified here against the spec functions that describe
//! it (`bubble_of` for the whole).

mod anchor;
mod bubble;
mod document;
mod indexable;
mod laws;
mod topic;
mod uri;

pub use anchor::{lemma_links_prefix_failure, link_of, links_of, Failure};
pub use bubble::{
    bubble_of, expand_failure, expands_from, expands_of, title_from, title_of, Bubble,
    BubbleFailure, BubbleParseError, BubbleReference, BubbleReferenceView, BubbleView, EXPAND,
    HEAD, TITLE,
};
pub use document::{
    elements_matching, nested_matching, selector_error, text_of, Document, Element, ElementView,
};
pub use indexable::{
    class_rules, excludes_of, indexables_of, rules_from, rules_of, Indexable, IndexableParseError,
    IndexableView, Scope, EXCLUDE_PAGE, EXCLUDE_PATH, EXCLUDE_SITE, SEARCH_PAGE, SEARCH_PATH,
    SEARCH_SITE,
};
pub use laws::{
    annotations, annotations_readable, cause, failure_of, lemma_failure_is_first_unreadable,
    lemma_first_unreadable, lemma_invalid_url, lemma_links_concat, lemma_links_readable,
    lemma_missing_href, lemma_missing_title, lemma_parse_deterministic, lemma_scope_order,
    lemma_title_kept, rule_anchors, scope_rank, scopes_ordered, topic_anchors, vocabulary_compiles,
};
pub use topic::{
    class_references, references_from, topic_of, Topic, TopicCategory, TopicParseError,
    TopicReference, TopicReferenceView, WIKIDATA_TOPIC, WIKIPEDIA_TOPIC,
};
pub use uri::{is_absolute_iri, Uri};
