//! URIs, kept as the text they were given in.

use vstd::prelude::*;

verus! {

/// Whether the `http` crate, which axum re-exports, accepts `text` as a URI.
pub uninterp spec fn uri_syntax(text: Seq<char>) -> bool;

/// Parses `text` as an `axum::http::Uri` and drops the parsed value. Trusted: the parser
/// accepts exactly the texts for which `uri_syntax` holds.
#[verifier::external_body]
pub(crate) fn parses_as_uri(text: &str) -> (accepted: bool)
    ensures
        accepted == uri_syntax(text@),
{
    text.parse::<axum::http::Uri>().is_ok()
}

/// A URI, kept as the text it was given in: nothing is normalized, and two URIs are the same
/// only if their texts are.
#[derive(Debug, PartialEq, Eq)]
pub struct Uri(String);

/// The text is not a URI.
#[derive(Clone, Copy, Debug, PartialEq, Eq, Structural)]
pub struct InvalidUri;

impl View for Uri {
    type V = Seq<char>;

    closed spec fn view(&self) -> Seq<char> {
        self.0@
    }
}

impl Clone for Uri {
    fn clone(&self) -> (copy: Self)
        ensures
            copy@ == self@,
    {
        proof {
            use_type_invariant(self);
        }
        Uri(self.0.clone())
    }
}

impl Uri {
    #[verifier::type_invariant]
    spec fn well_formed(self) -> bool {
        uri_syntax(self.0@)
    }

    /// Accepts `value` if it has the syntax of a URI, and keeps the text unchanged.
    pub fn try_from(value: &str) -> (r: Result<Self, InvalidUri>)
        ensures
            r is Ok <==> uri_syntax(value@),
            r matches Ok(uri) ==> uri@ == value@,
    {
        if parses_as_uri(value) {
            Ok(Uri(value.to_owned()))
        } else {
            Err(InvalidUri)
        }
    }

    /// The text of the URI.
    pub fn as_str(&self) -> (text: &str)
        ensures
            text@ == self@,
            uri_syntax(self@),
    {
        proof {
            use_type_invariant(self);
        }
        self.0.as_str()
    }

    /// Whether two URIs have the same text.
    pub fn same_text(&self, other: &Uri) -> (same: bool)
        ensures
            same == (self@ == other@),
    {
        self.0 == other.0
    }
}

} // verus!
