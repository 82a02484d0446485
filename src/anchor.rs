use crate::document::{Element, ElementView, text_of};
use crate::uri::{is_absolute_iri, Uri};
use vstd::prelude::*;

verus! {

/// Why one extraction stage failed.
pub enum Failure {
    /// An annotated element has no `href`; it carries the element's markup.
    MissingHref(Seq<char>),
    /// An annotated element's `href` is not an absolute IRI; it carries the
    /// element's markup.
    InvalidUrl(Seq<char>),
    /// A selector of the annotation vocabulary did not compile.
    Selector(Seq<char>),
}

/// What an annotated element yields: the IRI of its `href` and its text, or
/// why it cannot be read.
pub open spec fn link_of(e: ElementView) -> Result<(Seq<char>, Seq<char>), Failure> {
    match e.href {
        None => Err(Failure::MissingHref(e.markup)),
        Some(href) => if is_absolute_iri(href) {
            Ok((href, text_of(e)))
        } else {
            Err(Failure::InvalidUrl(e.markup))
        },
    }
}

/// What a sequence of annotated elements yields, in order; the first element
/// that cannot be read decides the failure.
pub open spec fn links_of(s: Seq<ElementView>) -> Result<Seq<(Seq<char>, Seq<char>)>, Failure>
    decreases s.len(),
{
    if s.len() == 0 {
        Ok(Seq::empty())
    } else {
        match links_of(s.drop_last()) {
            Err(f) => Err(f),
            Ok(links) => match link_of(s.last()) {
                Err(f) => Err(f),
                Ok(link) => Ok(links.push(link)),
            },
        }
    }
}

/// A failure that reaches a prefix of a sequence is the failure of the whole.
pub proof fn lemma_links_prefix_failure(s: Seq<ElementView>, k: int)
    requires
        0 <= k <= s.len(),
        links_of(s.take(k)) is Err,
    ensures
        links_of(s) == links_of(s.take(k)),
    decreases s.len() - k,
{
    if k == s.len() {
        assert(s.take(k) =~= s);
    } else {
        assert(s.take(k + 1).drop_last() =~= s.take(k));
        lemma_links_prefix_failure(s, k + 1);
    }
}

/// Why an element could not be read, as a value.
pub(crate) enum AnchorError {
    MissingHref(String),
    InvalidUrl(String),
}

/// Reads the IRI and the text of one annotated element.
pub(crate) fn read_anchor(e: &Element) -> (r: Result<(Uri, String), AnchorError>)
    ensures
        match r {
            Ok((uri, label)) => link_of(e@) == Ok::<_, Failure>((uri@, label@)),
            Err(AnchorError::MissingHref(m)) => link_of(e@) == Err::<(Seq<char>, Seq<char>), _>(Failure::MissingHref(m@)),
            Err(AnchorError::InvalidUrl(m)) => link_of(e@) == Err::<(Seq<char>, Seq<char>), _>(Failure::InvalidUrl(m@)),
        },
{
    match &e.href {
        None => Err(AnchorError::MissingHref(e.markup.clone())),
        Some(href) => match Uri::parse(href.as_str()) {
            Some(uri) => Ok((uri, e.text())),
            None => Err(AnchorError::InvalidUrl(e.markup.clone())),
        },
    }
}

} // verus!
