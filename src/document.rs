use scraper::{Html, Selector};
use vstd::prelude::*;

verus! {

#[verifier::external_type_specification]
#[verifier::external_body]
pub struct ExHtml(Html);

#[verifier::external_type_specification]
#[verifier::external_body]
pub struct ExSelector(Selector);

/// Relies on `String::push_str`, which appends the slice to the string.
pub assume_specification[ String::push_str ](string: &mut String, s: &str)
    ensures
        final(string)@ == old(string)@ + s@,
;

/// One element of a document, as the extraction reads it: its `href`
/// attribute, its descendant text nodes in document order, and its markup.
pub struct Element {
    pub href: Option<String>,
    pub texts: Vec<String>,
    pub markup: String,
}

/// The mathematical value of an [`Element`].
pub struct ElementView {
    pub href: Option<Seq<char>>,
    pub texts: Seq<Seq<char>>,
    pub markup: Seq<char>,
}

impl View for Element {
    type V = ElementView;

    open spec fn view(&self) -> ElementView {
        ElementView { href: self.href.deep_view(), texts: self.texts.deep_view(), markup: self.markup@ }
    }
}

impl DeepView for Element {
    type V = ElementView;

    open spec fn deep_view(&self) -> ElementView {
        self@
    }
}

/// The text content of an element: its text nodes, concatenated.
pub open spec fn text_of(e: ElementView) -> Seq<char> {
    e.texts.flatten()
}

impl Element {
    /// The element's text content.
    pub fn text(&self) -> (r: String)
        ensures
            r@ == text_of(self@),
    {
        let mut out = String::new();
        let n = self.texts.len();
        for i in 0..n
            invariant
                n == self.texts@.len(),
                out@ == self.texts.deep_view().take(i as int).flatten(),
        {
            proof {
                let all = self.texts.deep_view();
                assert(all.take(i + 1) =~= all.take(i as int).push(all[i as int]));
                all.take(i as int).lemma_flatten_push(all[i as int]);
            }
            out.push_str(self.texts[i].as_str());
        }
        proof {
            assert(self.texts.deep_view().take(n as int) =~= self.texts.deep_view());
        }
        out
    }
}

/// Whether the selector written as `selector` fails to compile, and with
/// which message.
pub uninterp spec fn selector_error(selector: Seq<char>) -> Option<Seq<char>>;

/// The elements of the document written as `document` that the selector
/// `selector` matches, in document order.
pub uninterp spec fn elements_matching(document: Seq<char>, selector: Seq<char>) -> Seq<ElementView>;

/// For each element of the document `document` that the selector `outer`
/// matches, in document order, the descendants of that element that the
/// selector `inner` matches, in document order.
pub uninterp spec fn nested_matching(document: Seq<char>, outer: Seq<char>, inner: Seq<char>) -> Seq<Seq<ElementView>>;

/// A parsed HTML document, kept together with the text it was parsed from.
pub struct Document {
    source: String,
    tree: Html,
}

impl View for Document {
    type V = Seq<char>;

    closed spec fn view(&self) -> Seq<char> {
        self.source@
    }
}

/// Relies on scraper's `Html::parse_document`, which never fails: malformed
/// markup is repaired by the HTML parsing rules.
#[verifier::external_body]
fn parse_tree(text: &str) -> Html {
    Html::parse_document(text)
}

impl Document {
    /// Parses `text` as an HTML document.
    pub fn parse(text: &str) -> (r: Document)
        ensures
            r@ == text@,
    {
        Document { source: text.to_owned(), tree: parse_tree(text) }
    }
}

/// A compiled CSS selector, kept together with its text.
pub(crate) struct Query {
    source: String,
    compiled: Selector,
}

impl View for Query {
    type V = Seq<char>;

    closed spec fn view(&self) -> Seq<char> {
        self.source@
    }
}

impl Query {
    /// Relies on scraper's `Selector::parse`: whether a selector compiles, and
    /// the message of its error, depend on the selector's text alone.
    #[verifier::external_body]
    pub(crate) fn compile(text: &str) -> (r: Result<Query, String>)
        ensures
            match r {
                Ok(q) => q@ == text@ && selector_error(text@) is None,
                Err(m) => selector_error(text@) == Some(m@),
            },
    {
        match Selector::parse(text) {
            Ok(compiled) => Ok(Query { source: text.to_owned(), compiled }),
            Err(e) => Err(e.to_string()),
        }
    }
}

/// Relies on scraper's `Html::select`, `ElementRef::attr`, `ElementRef::text`
/// and `ElementRef::html`. The tree of a `Document` is always the parse of its
/// source (see `Document::parse`, its only constructor), so the matches
/// depend on the source and the selector alone.
#[verifier::external_body]
pub(crate) fn select(document: &Document, query: &Query) -> (r: Vec<Element>)
    ensures
        r.deep_view() == elements_matching(document@, query@),
{
    document.tree.select(&query.compiled).map(|e| Element {
        href: e.attr("href").map(String::from),
        texts: e.text().map(String::from).collect(),
        markup: e.html(),
    }).collect()
}

/// Relies on scraper's `Html::select` and `ElementRef::select`, with the
/// element accessors of [`select`].
#[verifier::external_body]
pub(crate) fn select_nested(document: &Document, outer: &Query, inner: &Query) -> (r: Vec<Vec<Element>>)
    ensures
        r.deep_view() == nested_matching(document@, outer@, inner@),
{
    document.tree.select(&outer.compiled).map(|o| o.select(&inner.compiled).map(|e| Element {
        href: e.attr("href").map(String::from),
        texts: e.text().map(String::from).collect(),
        markup: e.html(),
    }).collect()).collect()
}

} // verus!
