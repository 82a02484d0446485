use crate::anchor::{lemma_links_prefix_failure, links_of, read_anchor, AnchorError, Failure};
use crate::document::{elements_matching, select, selector_error, Document, Element, ElementView, Query};
use crate::uri::Uri;
use vstd::prelude::*;

verus! {

/// Selector of the anchors that name the topic's Wikipedia article.
pub const WIKIPEDIA_TOPIC: &'static str = "a.bubble-wikipedia-topic";

/// Selector of the anchors that name the topic's Wikidata item.
pub const WIKIDATA_TOPIC: &'static str = "a.bubble-wikidata-topic";

/// Where a topic reference points.
#[derive(Debug, Clone, Copy, PartialEq, Eq, Structural)]
pub enum TopicCategory {
    Wikipedia,
    Wikidata,
}

/// One canonical identifier of the document's subject.
#[derive(Debug, PartialEq, Eq)]
pub struct TopicReference {
    uri: Uri,
    label: String,
    category: TopicCategory,
}

/// The mathematical value of a [`TopicReference`].
pub struct TopicReferenceView {
    pub uri: Seq<char>,
    pub label: Seq<char>,
    pub category: TopicCategory,
}

impl View for TopicReference {
    type V = TopicReferenceView;

    closed spec fn view(&self) -> TopicReferenceView {
        TopicReferenceView { uri: self.uri@, label: self.label@, category: self.category }
    }
}

impl DeepView for TopicReference {
    type V = TopicReferenceView;

    open spec fn deep_view(&self) -> TopicReferenceView {
        self@
    }
}

/// The identifiers of the document's subject, in extraction order.
#[derive(Debug, PartialEq, Eq)]
pub struct Topic {
    references: Vec<TopicReference>,
}

impl View for Topic {
    type V = Seq<TopicReferenceView>;

    closed spec fn view(&self) -> Seq<TopicReferenceView> {
        self.references.deep_view()
    }
}

/// Why the topic references of a document could not be extracted.
#[derive(Debug, PartialEq, Eq)]
pub enum TopicParseError {
    MissingHref(String),
    InvalidUrl(String),
    SelectorError(String),
}

impl View for TopicParseError {
    type V = Failure;

    open spec fn view(&self) -> Failure {
        match self {
            TopicParseError::MissingHref(m) => Failure::MissingHref(m@),
            TopicParseError::InvalidUrl(m) => Failure::InvalidUrl(m@),
            TopicParseError::SelectorError(m) => Failure::Selector(m@),
        }
    }
}

/// The topic references that a sequence of annotated elements of one
/// category yields, in order.
pub open spec fn references_from(s: Seq<ElementView>, category: TopicCategory) -> Result<
    Seq<TopicReferenceView>,
    Failure,
> {
    match links_of(s) {
        Err(f) => Err(f),
        Ok(links) => Ok(
            links.map_values(
                |l: (Seq<char>, Seq<char>)|
                    TopicReferenceView { uri: l.0, label: l.1, category: category },
            ),
        ),
    }
}

/// The topic references that the anchors of one selector yield.
pub open spec fn class_references(document: Seq<char>, selector: Seq<char>, category: TopicCategory) -> Result<
    Seq<TopicReferenceView>,
    Failure,
> {
    match selector_error(selector) {
        Some(m) => Err(Failure::Selector(m)),
        None => references_from(elements_matching(document, selector), category),
    }
}

/// The topic of a document: its Wikipedia references in document order, then
/// its Wikidata references in document order.
pub open spec fn topic_of(document: Seq<char>) -> Result<Seq<TopicReferenceView>, Failure> {
    match class_references(document, WIKIPEDIA_TOPIC@, TopicCategory::Wikipedia) {
        Err(f) => Err(f),
        Ok(a) => match class_references(document, WIKIDATA_TOPIC@, TopicCategory::Wikidata) {
            Err(f) => Err(f),
            Ok(b) => Ok(a + b),
        },
    }
}

impl TopicReference {
    pub fn new(uri: Uri, label: String, category: TopicCategory) -> (r: Self)
        ensures
            r@ == (TopicReferenceView { uri: uri@, label: label@, category: category }),
    {
        Self { uri, label, category }
    }

    pub fn uri(&self) -> (r: &Uri)
        ensures
            r@ == self@.uri,
    {
        &self.uri
    }

    pub fn label(&self) -> (r: &str)
        ensures
            r@ == self@.label,
    {
        self.label.as_str()
    }

    pub fn category(&self) -> (r: TopicCategory)
        ensures
            r == self@.category,
    {
        self.category
    }
}

impl Topic {
    pub fn references(&self) -> (r: &[TopicReference])
        ensures
            r.deep_view() == self@,
    {
        self.references.as_slice()
    }

    /// The topic references that `elements`, the matches of the selector of
    /// `category`, yield.
    pub fn references_in(elements: &[Element], category: TopicCategory) -> (r: Result<
        Vec<TopicReference>,
        TopicParseError,
    >)
        ensures
            match r {
                Ok(v) => references_from(elements.deep_view(), category) == Ok::<_, Failure>(v.deep_view()),
                Err(e) => references_from(elements.deep_view(), category) == Err::<Seq<TopicReferenceView>, _>(e@),
            },
    {
        let ghost s = elements.deep_view();
        let mut out: Vec<TopicReference> = Vec::new();
        let n = elements.len();
        proof {
            let f = |l: (Seq<char>, Seq<char>)|
                TopicReferenceView { uri: l.0, label: l.1, category: category };
            assert(s.take(0) =~= Seq::<ElementView>::empty());
            assert(Seq::<(Seq<char>, Seq<char>)>::empty().map_values(f) =~= out.deep_view());
        }
        for i in 0..n
            invariant
                n == s.len(),
                s == elements.deep_view(),
                references_from(s.take(i as int), category) == Ok::<_, Failure>(out.deep_view()),
        {
            assert(s.take(i + 1).drop_last() =~= s.take(i as int));
            assert(s.take(i + 1).last() == s[i as int]);
            match read_anchor(&elements[i]) {
                Ok((uri, label)) => {
                    let ghost before = out.deep_view();
                    out.push(TopicReference { uri, label, category });
                    proof {
                        let links = links_of(s.take(i as int))->Ok_0;
                        let f = |l: (Seq<char>, Seq<char>)|
                            TopicReferenceView { uri: l.0, label: l.1, category: category };
                        assert(links.push((uri@, label@)).map_values(f) =~= links.map_values(f).push(f((uri@, label@))));
                        assert(out.deep_view() =~= before.push(f((uri@, label@))));
                    }
                },
                Err(err) => {
                    proof {
                        lemma_links_prefix_failure(s, i + 1);
                    }
                    return Err(
                        match err {
                            AnchorError::MissingHref(m) => TopicParseError::MissingHref(m),
                            AnchorError::InvalidUrl(m) => TopicParseError::InvalidUrl(m),
                        },
                    );
                },
            }
        }
        assert(s.take(n as int) =~= s);
        Ok(out)
    }

    /// Compiles `selector`, selects its matches in `document` and reads them as
    /// references of `category`.
    fn make_references(document: &Document, selector: &str, category: TopicCategory) -> (r: Result<
        Vec<TopicReference>,
        TopicParseError,
    >)
        ensures
            match r {
                Ok(v) => class_references(document@, selector@, category) == Ok::<_, Failure>(v.deep_view()),
                Err(e) => class_references(document@, selector@, category) == Err::<Seq<TopicReferenceView>, _>(e@),
            },
    {
        let query = match Query::compile(selector) {
            Ok(q) => q,
            Err(m) => return Err(TopicParseError::SelectorError(m)),
        };
        let elements = select(document, &query);
        Self::references_in(elements.as_slice(), category)
    }

    /// Extracts the topic of `document`.
    pub fn parse_html(document: &Document) -> (r: Result<Self, TopicParseError>)
        ensures
            match r {
                Ok(t) => topic_of(document@) == Ok::<_, Failure>(t@),
                Err(e) => topic_of(document@) == Err::<Seq<TopicReferenceView>, _>(e@),
            },
    {
        let mut references = match Self::make_references(document, WIKIPEDIA_TOPIC, TopicCategory::Wikipedia) {
            Ok(v) => v,
            Err(e) => return Err(e),
        };
        let mut wikidata = match Self::make_references(document, WIKIDATA_TOPIC, TopicCategory::Wikidata) {
            Ok(v) => v,
            Err(e) => return Err(e),
        };
        let ghost a = references.deep_view();
        let ghost b = wikidata.deep_view();
        references.append(&mut wikidata);
        assert(references.deep_view() =~= a + b);
        Ok(Topic { references })
    }
}

} // verus!
