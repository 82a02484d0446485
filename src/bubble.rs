use crate::anchor::{lemma_links_prefix_failure, links_of, read_anchor, AnchorError, Failure};
use crate::document::{
    elements_matching, nested_matching, select, select_nested, selector_error, Document, Element,
    ElementView, Query,
};
use crate::indexable::{excludes_of, indexables_of, Indexable, IndexableParseError, IndexableView};
use crate::topic::{topic_of, Topic, TopicParseError, TopicReferenceView};
use crate::uri::Uri;
use vstd::prelude::*;

verus! {

/// Selector of the element that holds the title.
pub const HEAD: &'static str = "head";

/// Selector of the title element.
pub const TITLE: &'static str = "title";

/// Selector of the anchors that point to other bubbles.
pub const EXPAND: &'static str = "a.bubble-expand";

/// A pointer to another bubble document.
#[derive(Debug, PartialEq, Eq)]
pub struct BubbleReference {
    uri: Uri,
    label: String,
}

/// The mathematical value of a [`BubbleReference`].
pub struct BubbleReferenceView {
    pub uri: Seq<char>,
    pub label: Seq<char>,
}

impl View for BubbleReference {
    type V = BubbleReferenceView;

    closed spec fn view(&self) -> BubbleReferenceView {
        BubbleReferenceView { uri: self.uri@, label: self.label@ }
    }
}

impl DeepView for BubbleReference {
    type V = BubbleReferenceView;

    open spec fn deep_view(&self) -> BubbleReferenceView {
        self@
    }
}

/// The manifest extracted from one document.
#[derive(Debug, PartialEq, Eq)]
pub struct Bubble {
    title: String,
    topic: Topic,
    expands: Vec<BubbleReference>,
    indexables: Vec<Indexable>,
    excludes: Vec<Indexable>,
}

/// The mathematical value of a [`Bubble`].
pub struct BubbleView {
    pub title: Seq<char>,
    pub topic: Seq<TopicReferenceView>,
    pub expands: Seq<BubbleReferenceView>,
    pub indexables: Seq<IndexableView>,
    pub excludes: Seq<IndexableView>,
}

impl View for Bubble {
    type V = BubbleView;

    closed spec fn view(&self) -> BubbleView {
        BubbleView {
            title: self.title@,
            topic: self.topic@,
            expands: self.expands.deep_view(),
            indexables: self.indexables.deep_view(),
            excludes: self.excludes.deep_view(),
        }
    }
}

/// Why a document yields no bubble.
#[derive(Debug, PartialEq, Eq)]
pub enum BubbleParseError {
    MissingTitle,
    MissingHref(String),
    InvalidUrl(String),
    TopicError(TopicParseError),
    IndexableError(IndexableParseError),
    SelectorError(String),
}

/// The mathematical value of a [`BubbleParseError`].
pub enum BubbleFailure {
    MissingTitle,
    MissingHref(Seq<char>),
    InvalidUrl(Seq<char>),
    Topic(Failure),
    Indexable(Failure),
    Selector(Seq<char>),
}

impl View for BubbleParseError {
    type V = BubbleFailure;

    open spec fn view(&self) -> BubbleFailure {
        match self {
            BubbleParseError::MissingTitle => BubbleFailure::MissingTitle,
            BubbleParseError::MissingHref(m) => BubbleFailure::MissingHref(m@),
            BubbleParseError::InvalidUrl(m) => BubbleFailure::InvalidUrl(m@),
            BubbleParseError::TopicError(e) => BubbleFailure::Topic(e@),
            BubbleParseError::IndexableError(e) => BubbleFailure::Indexable(e@),
            BubbleParseError::SelectorError(m) => BubbleFailure::Selector(m@),
        }
    }
}

impl From<TopicParseError> for BubbleParseError {
    fn from(e: TopicParseError) -> (r: Self)
        ensures
            r == BubbleParseError::TopicError(e),
    {
        BubbleParseError::TopicError(e)
    }
}

impl vstd::std_specs::convert::FromSpecImpl<TopicParseError> for BubbleParseError {
    open spec fn obeys_from_spec() -> bool {
        true
    }

    open spec fn from_spec(v: TopicParseError) -> Self {
        BubbleParseError::TopicError(v)
    }
}

impl From<IndexableParseError> for BubbleParseError {
    fn from(e: IndexableParseError) -> (r: Self)
        ensures
            r == BubbleParseError::IndexableError(e),
    {
        BubbleParseError::IndexableError(e)
    }
}

impl vstd::std_specs::convert::FromSpecImpl<IndexableParseError> for BubbleParseError {
    open spec fn obeys_from_spec() -> bool {
        true
    }

    open spec fn from_spec(v: IndexableParseError) -> Self {
        BubbleParseError::IndexableError(v)
    }
}

/// The title that the title elements of each head element yield: the first
/// text node of the first title of the first head, when there is one and it
/// is not empty.
pub open spec fn title_from(heads: Seq<Seq<ElementView>>) -> Option<Seq<char>> {
    if heads.len() > 0 && heads[0].len() > 0 && heads[0][0].texts.len() > 0
        && heads[0][0].texts[0].len() > 0 {
        Some(heads[0][0].texts[0])
    } else {
        None
    }
}

/// The title of a document.
pub open spec fn title_of(document: Seq<char>) -> Result<Seq<char>, BubbleFailure> {
    match selector_error(HEAD@) {
        Some(m) => Err(BubbleFailure::Selector(m)),
        None => match selector_error(TITLE@) {
            Some(m) => Err(BubbleFailure::Selector(m)),
            None => match title_from(nested_matching(document, HEAD@, TITLE@)) {
                Some(t) => Ok(t),
                None => Err(BubbleFailure::MissingTitle),
            },
        },
    }
}

/// The references to other bubbles that a sequence of expand anchors yields,
/// in order.
pub open spec fn expands_from(s: Seq<ElementView>) -> Result<Seq<BubbleReferenceView>, Failure> {
    match links_of(s) {
        Err(f) => Err(f),
        Ok(links) => Ok(
            links.map_values(|l: (Seq<char>, Seq<char>)| BubbleReferenceView { uri: l.0, label: l.1 }),
        ),
    }
}

/// The references to other bubbles of a document, in document order.
pub open spec fn expands_of(document: Seq<char>) -> Result<Seq<BubbleReferenceView>, Failure> {
    match selector_error(EXPAND@) {
        Some(m) => Err(Failure::Selector(m)),
        None => expands_from(elements_matching(document, EXPAND@)),
    }
}

/// A failure of the expand stage, as the failure of the whole extraction.
pub open spec fn expand_failure(f: Failure) -> BubbleFailure {
    match f {
        Failure::MissingHref(m) => BubbleFailure::MissingHref(m),
        Failure::InvalidUrl(m) => BubbleFailure::InvalidUrl(m),
        Failure::Selector(m) => BubbleFailure::Selector(m),
    }
}

/// The bubble of a document. The stages run in a fixed order (title, topic,
/// inclusion rules, exclusion rules, expands) and the first that fails
/// decides the failure.
pub open spec fn bubble_of(document: Seq<char>) -> Result<BubbleView, BubbleFailure> {
    match title_of(document) {
        Err(f) => Err(f),
        Ok(title) => match topic_of(document) {
            Err(f) => Err(BubbleFailure::Topic(f)),
            Ok(topic) => match indexables_of(document) {
                Err(f) => Err(BubbleFailure::Indexable(f)),
                Ok(indexables) => match excludes_of(document) {
                    Err(f) => Err(BubbleFailure::Indexable(f)),
                    Ok(excludes) => match expands_of(document) {
                        Err(f) => Err(expand_failure(f)),
                        Ok(expands) => Ok(
                            BubbleView { title, topic, expands, indexables, excludes },
                        ),
                    },
                },
            },
        },
    }
}

impl BubbleReference {
    pub fn new(uri: Uri, label: String) -> (r: Self)
        ensures
            r@ == (BubbleReferenceView { uri: uri@, label: label@ }),
    {
        Self { uri, label }
    }

    pub fn uri(&self) -> (r: &Uri)
        ensures
            r@ == self@.uri,
    {
        &self.uri
    }

    pub fn label(&self) -> (r: &str)
        ensures
            r@ == self@.label,
    {
        self.label.as_str()
    }
}

impl Bubble {
    /// Extracts the bubble of the HTML document `document`.
    pub fn parse_html(document: &str) -> (r: Result<Self, BubbleParseError>)
        ensures
            match r {
                Ok(b) => bubble_of(document@) == Ok::<_, BubbleFailure>(b@),
                Err(e) => bubble_of(document@) == Err::<BubbleView, _>(e@),
            },
    {
        let document = Document::parse(document);
        let title = match Self::parse_title(&document) {
            Ok(t) => t,
            Err(e) => return Err(e),
        };
        let topic = match Topic::parse_html(&document) {
            Ok(t) => t,
            Err(e) => return Err(BubbleParseError::from(e)),
        };
        let indexables = match Indexable::parse_indexables(&document) {
            Ok(v) => v,
            Err(e) => return Err(BubbleParseError::from(e)),
        };
        let excludes = match Indexable::parse_excludes(&document) {
            Ok(v) => v,
            Err(e) => return Err(BubbleParseError::from(e)),
        };
        let expands = match Self::make_expands(&document) {
            Ok(v) => v,
            Err(e) => return Err(e),
        };
        Ok(Bubble { title, topic, expands, indexables, excludes })
    }

    /// The title that `heads`, the title elements found in each head element,
    /// yield.
    pub fn first_title(heads: &[Vec<Element>]) -> (r: Option<String>)
        ensures
            match r {
                Some(t) => title_from(heads.deep_view()) == Some(t@),
                None => title_from(heads.deep_view()) is None,
            },
    {
        if heads.len() == 0 || heads[0].len() == 0 || heads[0][0].texts.len() == 0 {
            return None;
        }
        let text = &heads[0][0].texts[0];
        if text.as_str().is_empty() {
            None
        } else {
            Some(text.clone())
        }
    }

    /// Finds the title of `document`.
    fn parse_title(document: &Document) -> (r: Result<String, BubbleParseError>)
        ensures
            match r {
                Ok(t) => title_of(document@) == Ok::<_, BubbleFailure>(t@),
                Err(e) => title_of(document@) == Err::<Seq<char>, _>(e@),
            },
    {
        let head = match Query::compile(HEAD) {
            Ok(q) => q,
            Err(m) => return Err(BubbleParseError::SelectorError(m)),
        };
        let title = match Query::compile(TITLE) {
            Ok(q) => q,
            Err(m) => return Err(BubbleParseError::SelectorError(m)),
        };
        let heads = select_nested(document, &head, &title);
        match Self::first_title(heads.as_slice()) {
            Some(t) => Ok(t),
            None => Err(BubbleParseError::MissingTitle),
        }
    }

    /// The references to other bubbles that `elements`, the matches of the
    /// expand selector, yield.
    pub fn expands_in(elements: &[Element]) -> (r: Result<Vec<BubbleReference>, BubbleParseError>)
        ensures
            match r {
                Ok(v) => expands_from(elements.deep_view()) == Ok::<_, Failure>(v.deep_view()),
                Err(e) => expands_from(elements.deep_view()) matches Err(f) && e@ == expand_failure(f),
            },
    {
        let ghost s = elements.deep_view();
        let ghost f = |l: (Seq<char>, Seq<char>)| BubbleReferenceView { uri: l.0, label: l.1 };
        let mut out: Vec<BubbleReference> = Vec::new();
        let n = elements.len();
        proof {
            assert(s.take(0) =~= Seq::<ElementView>::empty());
            assert(Seq::<(Seq<char>, Seq<char>)>::empty().map_values(f) =~= out.deep_view());
        }
        for i in 0..n
            invariant
                n == s.len(),
                s == elements.deep_view(),
                f == (|l: (Seq<char>, Seq<char>)| BubbleReferenceView { uri: l.0, label: l.1 }),
                expands_from(s.take(i as int)) == Ok::<_, Failure>(out.deep_view()),
        {
            assert(s.take(i + 1).drop_last() =~= s.take(i as int));
            assert(s.take(i + 1).last() == s[i as int]);
            match read_anchor(&elements[i]) {
                Ok((uri, label)) => {
                    let ghost before = out.deep_view();
                    let ghost link = (uri@, label@);
                    out.push(BubbleReference { uri, label });
                    proof {
                        let links = links_of(s.take(i as int))->Ok_0;
                        assert(links.push(link).map_values(f) =~= links.map_values(f).push(f(link)));
                        assert(out.deep_view() =~= before.push(f(link)));
                    }
                },
                Err(err) => {
                    proof {
                        lemma_links_prefix_failure(s, i + 1);
                    }
                    return Err(
                        match err {
                            AnchorError::MissingHref(m) => BubbleParseError::MissingHref(m),
                            AnchorError::InvalidUrl(m) => BubbleParseError::InvalidUrl(m),
                        },
                    );
                },
            }
        }
        assert(s.take(n as int) =~= s);
        Ok(out)
    }

    /// Extracts the references to other bubbles of `document`.
    fn make_expands(document: &Document) -> (r: Result<Vec<BubbleReference>, BubbleParseError>)
        ensures
            match r {
                Ok(v) => expands_of(document@) == Ok::<_, Failure>(v.deep_view()),
                Err(e) => expands_of(document@) matches Err(f) && e@ == expand_failure(f),
            },
    {
        let query = match Query::compile(EXPAND) {
            Ok(q) => q,
            Err(m) => return Err(BubbleParseError::SelectorError(m)),
        };
        let elements = select(document, &query);
        Self::expands_in(elements.as_slice())
    }

    pub fn title(&self) -> (r: &str)
        ensures
            r@ == self@.title,
    {
        self.title.as_str()
    }

    pub fn topic(&self) -> (r: &Topic)
        ensures
            r@ == self@.topic,
    {
        &self.topic
    }

    pub fn expands(&self) -> (r: &[BubbleReference])
        ensures
            r.deep_view() == self@.expands,
    {
        self.expands.as_slice()
    }

    pub fn indexables(&self) -> (r: &[Indexable])
        ensures
            r.deep_view() == self@.indexables,
    {
        self.indexables.as_slice()
    }

    pub fn excludes(&self) -> (r: &[Indexable])
        ensures
            r.deep_view() == self@.excludes,
    {
        self.excludes.as_slice()
    }
}

} // verus!
