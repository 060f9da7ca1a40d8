//! Strings whose length is held between two bounds.

use crate::crypto::SECURE_LENGTH;
use vstd::prelude::*;
use vstd::utf8::encode_utf8;

verus! {

/// Upper bound of a string that is bounded from below only.
pub const UNBOUNDED: usize = usize::MAX;

/// Length of a text in bytes of its UTF-8 encoding, which is what the bounds count.
pub open spec fn text_len(text: Seq<char>) -> nat {
    encode_utf8(text).len()
}

/// A string whose length lies between `L` and `U`, both inclusive.
#[derive(Debug, PartialEq, Eq, Hash)]
pub struct BoundedString<const L: usize, const U: usize>(String);

/// Why a text is not a bounded string.
#[derive(Debug, PartialEq, Eq)]
pub enum ParseError {
    /// The text is empty and the lower bound is positive.
    Empty,
    /// The text is shorter than the lower bound, which comes first; then the text.
    TooShort(usize, String),
    /// The text is longer than the upper bound, which comes first; then the text.
    TooLong(usize, String),
}

/// What holding a text against a lower and an upper bound comes to.
pub enum Outcome {
    /// The length lies within the bounds.
    Accepted,
    /// The text is empty and the lower bound is positive.
    Empty,
    /// The text is not empty and shorter than the lower bound.
    TooShort,
    /// The text reaches the lower bound and is longer than the upper one.
    TooLong,
}

/// Holds `text` against the bounds `min` and `max`, both inclusive.
pub open spec fn check_bounds(min: usize, max: usize, text: Seq<char>) -> Outcome {
    let len = text_len(text);
    if len == 0 && min > 0 {
        Outcome::Empty
    } else if len < min {
        Outcome::TooShort
    } else if len > max {
        Outcome::TooLong
    } else {
        Outcome::Accepted
    }
}

impl ParseError {
    /// Whether this error tells of `outcome`, the bound that was missed and the text that
    /// missed it.
    pub open spec fn reports(
        self,
        outcome: Outcome,
        min: usize,
        max: usize,
        text: Seq<char>,
    ) -> bool {
        match self {
            ParseError::Empty => outcome is Empty,
            ParseError::TooShort(bound, found) => outcome is TooShort && bound == min && found@
                == text,
            ParseError::TooLong(bound, found) => outcome is TooLong && bound == max && found@
                == text,
        }
    }
}

/// At the edges of bounds that admit some text: one byte under the lower bound is too short
/// unless that leaves no byte at all, which is empty; one byte over the upper bound is too
/// long; and whatever lies between the bounds is accepted.
pub proof fn lemma_bounds_edges(min: usize, max: usize, text: Seq<char>)
    requires
        min <= max,
    ensures
        text_len(text) == min - 1 && min > 1 ==> check_bounds(min, max, text) is TooShort,
        text_len(text) == 0 && min > 0 ==> check_bounds(min, max, text) is Empty,
        text_len(text) == max + 1 ==> check_bounds(min, max, text) is TooLong,
        min <= text_len(text) <= max ==> check_bounds(min, max, text) is Accepted,
{
}

/// A string of at least one byte.
pub type NonEmptyString = BoundedString<1, UNBOUNDED>;

/// A string long enough to resist guessing.
pub type SecureString = BoundedString<SECURE_LENGTH, UNBOUNDED>;

impl<const L: usize, const U: usize> View for BoundedString<L, U> {
    type V = Seq<char>;

    closed spec fn view(&self) -> Seq<char> {
        self.0@
    }
}

impl<const L: usize, const U: usize> Clone for BoundedString<L, U> {
    fn clone(&self) -> (copy: Self)
        ensures
            copy@ == self@,
    {
        proof {
            use_type_invariant(self);
        }
        BoundedString(self.0.clone())
    }
}

impl<const L: usize, const U: usize> BoundedString<L, U> {
    /// What holding `text` against the bounds of this type comes to.
    pub open spec fn outcome(text: Seq<char>) -> Outcome {
        check_bounds(L, U, text)
    }

    /// Whether `error` is what this type answers `text` with.
    pub open spec fn rejects(error: ParseError, text: Seq<char>) -> bool {
        error.reports(check_bounds(L, U, text), L, U, text)
    }

    #[verifier::type_invariant]
    spec fn within_bounds(self) -> bool {
        L <= text_len(self.0@) <= U
    }

    /// Checks the length of `value` and keeps the text unchanged.
    ///
    /// An empty text is reported as `Empty` wherever the lower bound is positive, never as
    /// `TooShort`. The lower bound is tested before the upper one.
    pub fn try_from(value: &str) -> (r: Result<Self, ParseError>)
        ensures
            match r {
                Ok(s) => Self::outcome(value@) is Accepted && s@ == value@,
                Err(e) => Self::rejects(e, value@),
            },
    {
        let len = value.as_bytes().len();
        if len == 0 && L > 0 {
            return Err(ParseError::Empty);
        }
        if len < L {
            return Err(ParseError::TooShort(L, value.to_owned()));
        }
        if len > U {
            return Err(ParseError::TooLong(U, value.to_owned()));
        }
        Ok(BoundedString(value.to_owned()))
    }

    /// The text, with the bounds it is known to keep.
    pub fn as_str(&self) -> (text: &str)
        ensures
            text@ == self@,
            Self::outcome(self@) is Accepted,
    {
        proof {
            use_type_invariant(self);
        }
        self.0.as_str()
    }

    /// Whether two bounded strings hold the same text.
    pub fn same_text(&self, other: &Self) -> (same: bool)
        ensures
            same == (self@ == other@),
    {
        self.0 == other.0
    }
}

} // verus!
