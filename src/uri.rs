use vstd::prelude::*;

verus! {

/// Whether `text` is an absolute IRI: a scheme, an optional authority, a
/// path and an optional query, with no fragment.
pub uninterp spec fn is_absolute_iri(text: Seq<char>) -> bool;

/// Relies on iri_string's `IriAbsoluteStr::new`, which accepts exactly the
/// texts that are absolute IRIs; the answer depends on the text alone.
#[verifier::external_body]
fn check_absolute_iri(text: &str) -> (r: bool)
    ensures
        r == is_absolute_iri(text@),
{
    iri_string::types::IriAbsoluteStr::new(text).is_ok()
}

/// An absolute IRI, kept as the text it was written with.
#[derive(Debug, PartialEq, Eq, Hash)]
pub struct Uri {
    text: String,
}

impl View for Uri {
    type V = Seq<char>;

    closed spec fn view(&self) -> Seq<char> {
        self.text@
    }
}

impl DeepView for Uri {
    type V = Seq<char>;

    open spec fn deep_view(&self) -> Seq<char> {
        self@
    }
}

impl Uri {
    #[verifier::type_invariant]
    spec fn inv(self) -> bool {
        is_absolute_iri(self.text@)
    }

    /// The IRI written as `text`, when `text` is an absolute IRI.
    pub fn parse(text: &str) -> (r: Option<Uri>)
        ensures
            r is Some <==> is_absolute_iri(text@),
            r matches Some(u) ==> u@ == text@,
    {
        if check_absolute_iri(text) {
            Some(Uri { text: text.to_owned() })
        } else {
            None
        }
    }

    /// The text of the IRI.
    pub fn as_str(&self) -> (r: &str)
        ensures
            r@ == self@,
            is_absolute_iri(r@),
    {
        proof {
            use_type_invariant(self);
        }
        self.text.as_str()
    }
}

} // verus!
