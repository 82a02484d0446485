use crate::anchor::{lemma_links_prefix_failure, links_of, read_anchor, AnchorError, Failure};
use crate::document::{elements_matching, select, selector_error, Document, Element, ElementView, Query};
use crate::uri::Uri;
use vstd::prelude::*;

verus! {

/// Selector of the anchors that ask for one page to be indexed.
pub const SEARCH_PAGE: &'static str = "a.bubble-search-page";

/// Selector of the anchors that ask for a whole site to be indexed.
pub const SEARCH_SITE: &'static str = "a.bubble-search-site";

/// Selector of the anchors that ask for a path and what lies below it to be
/// indexed.
pub const SEARCH_PATH: &'static str = "a.bubble-search-path";

/// Selector of the anchors that keep one page out of the index.
pub const EXCLUDE_PAGE: &'static str = "a.bubble-exclude-page";

/// Selector of the anchors that keep a whole site out of the index.
pub const EXCLUDE_SITE: &'static str = "a.bubble-exclude-site";

/// Selector of the anchors that keep a path and what lies below it out of the
/// index.
pub const EXCLUDE_PATH: &'static str = "a.bubble-exclude-path";

/// How much a rule covers.
#[derive(Debug, Clone, Copy, PartialEq, Eq, Structural)]
pub enum Scope {
    /// Every page reachable from the IRI on the same site.
    Site,
    /// The page at the IRI and everything linked beneath its path.
    Path,
    /// The page at the IRI alone.
    Page,
}

/// One rule on what is, or is not, to be indexed.
#[derive(Debug, PartialEq, Eq)]
pub struct Indexable {
    uri: Uri,
    scope: Scope,
    label: String,
}

/// The mathematical value of an [`Indexable`].
pub struct IndexableView {
    pub uri: Seq<char>,
    pub scope: Scope,
    pub label: Seq<char>,
}

impl View for Indexable {
    type V = IndexableView;

    closed spec fn view(&self) -> IndexableView {
        IndexableView { uri: self.uri@, scope: self.scope, label: self.label@ }
    }
}

impl DeepView for Indexable {
    type V = IndexableView;

    open spec fn deep_view(&self) -> IndexableView {
        self@
    }
}

/// Why the rules of a document could not be extracted.
#[derive(Debug, PartialEq, Eq)]
pub enum IndexableParseError {
    MissingHref(String),
    InvalidUrl(String),
    SelectorError(String),
}

impl View for IndexableParseError {
    type V = Failure;

    open spec fn view(&self) -> Failure {
        match self {
            IndexableParseError::MissingHref(m) => Failure::MissingHref(m@),
            IndexableParseError::InvalidUrl(m) => Failure::InvalidUrl(m@),
            IndexableParseError::SelectorError(m) => Failure::Selector(m@),
        }
    }
}

/// The rules that a sequence of annotated elements of one scope yields, in
/// order.
pub open spec fn rules_from(s: Seq<ElementView>, scope: Scope) -> Result<Seq<IndexableView>, Failure> {
    match links_of(s) {
        Err(f) => Err(f),
        Ok(links) => Ok(
            links.map_values(
                |l: (Seq<char>, Seq<char>)| IndexableView { uri: l.0, scope: scope, label: l.1 },
            ),
        ),
    }
}

/// The rules that the anchors of one selector yield.
pub open spec fn class_rules(document: Seq<char>, selector: Seq<char>, scope: Scope) -> Result<
    Seq<IndexableView>,
    Failure,
> {
    match selector_error(selector) {
        Some(m) => Err(Failure::Selector(m)),
        None => rules_from(elements_matching(document, selector), scope),
    }
}

/// One list of rules: the page rules in document order, then the site rules,
/// then the path rules.
pub open spec fn rules_of(document: Seq<char>, page: Seq<char>, site: Seq<char>, path: Seq<char>) -> Result<
    Seq<IndexableView>,
    Failure,
> {
    match class_rules(document, page, Scope::Page) {
        Err(f) => Err(f),
        Ok(a) => match class_rules(document, site, Scope::Site) {
            Err(f) => Err(f),
            Ok(b) => match class_rules(document, path, Scope::Path) {
                Err(f) => Err(f),
                Ok(c) => Ok(a + b + c),
            },
        },
    }
}

/// The inclusion rules of a document.
pub open spec fn indexables_of(document: Seq<char>) -> Result<Seq<IndexableView>, Failure> {
    rules_of(document, SEARCH_PAGE@, SEARCH_SITE@, SEARCH_PATH@)
}

/// The exclusion rules of a document.
pub open spec fn excludes_of(document: Seq<char>) -> Result<Seq<IndexableView>, Failure> {
    rules_of(document, EXCLUDE_PAGE@, EXCLUDE_SITE@, EXCLUDE_PATH@)
}

impl Indexable {
    pub fn new(uri: Uri, scope: Scope, label: String) -> (r: Self)
        ensures
            r@ == (IndexableView { uri: uri@, scope: scope, label: label@ }),
    {
        Self { uri, scope, label }
    }

    pub fn uri(&self) -> (r: &Uri)
        ensures
            r@ == self@.uri,
    {
        &self.uri
    }

    pub fn scope(&self) -> (r: Scope)
        ensures
            r == self@.scope,
    {
        self.scope
    }

    pub fn label(&self) -> (r: &str)
        ensures
            r@ == self@.label,
    {
        self.label.as_str()
    }

    /// The rules of `scope` that `elements`, the matches of that scope's
    /// selector, yield.
    pub fn rules_in(elements: &[Element], scope: Scope) -> (r: Result<Vec<Indexable>, IndexableParseError>)
        ensures
            match r {
                Ok(v) => rules_from(elements.deep_view(), scope) == Ok::<_, Failure>(v.deep_view()),
                Err(e) => rules_from(elements.deep_view(), scope) == Err::<Seq<IndexableView>, _>(e@),
            },
    {
        let ghost s = elements.deep_view();
        let ghost f = |l: (Seq<char>, Seq<char>)| IndexableView { uri: l.0, scope: scope, label: l.1 };
        let mut out: Vec<Indexable> = Vec::new();
        let n = elements.len();
        proof {
            assert(s.take(0) =~= Seq::<ElementView>::empty());
            assert(Seq::<(Seq<char>, Seq<char>)>::empty().map_values(f) =~= out.deep_view());
        }
        for i in 0..n
            invariant
                n == s.len(),
                s == elements.deep_view(),
                f == (|l: (Seq<char>, Seq<char>)| IndexableView { uri: l.0, scope: scope, label: l.1 }),
                rules_from(s.take(i as int), scope) == Ok::<_, Failure>(out.deep_view()),
        {
            assert(s.take(i + 1).drop_last() =~= s.take(i as int));
            assert(s.take(i + 1).last() == s[i as int]);
            match read_anchor(&elements[i]) {
                Ok((uri, label)) => {
                    let ghost before = out.deep_view();
                    let ghost link = (uri@, label@);
                    out.push(Indexable { uri, scope, label });
                    proof {
                        let links = links_of(s.take(i as int))->Ok_0;
                        assert(links.push(link).map_values(f) =~= links.map_values(f).push(f(link)));
                        assert(out.deep_view() =~= before.push(f(link)));
                    }
                },
                Err(err) => {
                    proof {
                        lemma_links_prefix_failure(s, i + 1);
                    }
                    return Err(
                        match err {
                            AnchorError::MissingHref(m) => IndexableParseError::MissingHref(m),
                            AnchorError::InvalidUrl(m) => IndexableParseError::InvalidUrl(m),
                        },
                    );
                },
            }
        }
        assert(s.take(n as int) =~= s);
        Ok(out)
    }

    /// Compiles `selector`, selects its matches in `document` and reads them as
    /// rules of `scope`.
    fn make_indexables(document: &Document, selector: &str, scope: Scope) -> (r: Result<
        Vec<Indexable>,
        IndexableParseError,
    >)
        ensures
            match r {
                Ok(v) => class_rules(document@, selector@, scope) == Ok::<_, Failure>(v.deep_view()),
                Err(e) => class_rules(document@, selector@, scope) == Err::<Seq<IndexableView>, _>(e@),
            },
    {
        let query = match Query::compile(selector) {
            Ok(q) => q,
            Err(m) => return Err(IndexableParseError::SelectorError(m)),
        };
        let elements = select(document, &query);
        Self::rules_in(elements.as_slice(), scope)
    }

    /// Extracts one list of rules: page rules, then site rules, then path rules.
    fn make_rules(document: &Document, page: &str, site: &str, path: &str) -> (r: Result<
        Vec<Indexable>,
        IndexableParseError,
    >)
        ensures
            match r {
                Ok(v) => rules_of(document@, page@, site@, path@) == Ok::<_, Failure>(v.deep_view()),
                Err(e) => rules_of(document@, page@, site@, path@) == Err::<Seq<IndexableView>, _>(e@),
            },
    {
        let mut rules = match Self::make_indexables(document, page, Scope::Page) {
            Ok(v) => v,
            Err(e) => return Err(e),
        };
        let mut sites = match Self::make_indexables(document, site, Scope::Site) {
            Ok(v) => v,
            Err(e) => return Err(e),
        };
        let mut paths = match Self::make_indexables(document, path, Scope::Path) {
            Ok(v) => v,
            Err(e) => return Err(e),
        };
        let ghost a = rules.deep_view();
        let ghost b = sites.deep_view();
        let ghost c = paths.deep_view();
        rules.append(&mut sites);
        rules.append(&mut paths);
        assert(rules.deep_view() =~= a + b + c);
        Ok(rules)
    }

    /// Extracts the inclusion rules of `document`.
    pub fn parse_indexables(document: &Document) -> (r: Result<Vec<Self>, IndexableParseError>)
        ensures
            match r {
                Ok(v) => indexables_of(document@) == Ok::<_, Failure>(v.deep_view()),
                Err(e) => indexables_of(document@) == Err::<Seq<IndexableView>, _>(e@),
            },
    {
        Self::make_rules(document, SEARCH_PAGE, SEARCH_SITE, SEARCH_PATH)
    }

    /// Extracts the exclusion rules of `document`.
    pub fn parse_excludes(document: &Document) -> (r: Result<Vec<Self>, IndexableParseError>)
        ensures
            match r {
                Ok(v) => excludes_of(document@) == Ok::<_, Failure>(v.deep_view()),
                Err(e) => excludes_of(document@) == Err::<Seq<IndexableView>, _>(e@),
            },
    {
        Self::make_rules(document, EXCLUDE_PAGE, EXCLUDE_SITE, EXCLUDE_PATH)
    }
}

} // verus!
