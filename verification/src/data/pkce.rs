//! Proof keys for code exchange: the codes and how a verifier answers a challenge.

use crate::bounded_string::BoundedString;
use crate::bounded_string::text_len;
use crate::crypto::base64url_decodes;
use crate::crypto::base64url_encode;
use crate::crypto::base64url_nopad;
use crate::crypto::is_base64url;
use crate::crypto::sha256;
use crate::crypto::sha256_digest;
use crate::text::same_text;
use vstd::prelude::*;
use vstd::utf8::encode_utf8;

verus! {

/// Fewest bytes of a PKCE code.
pub const MIN_LENGTH: usize = 40;

/// Most bytes of a PKCE code.
pub const MAX_LENGTH: usize = 128;

/// Why a text is not a PKCE code.
#[derive(Clone, Copy, Debug, PartialEq, Eq, Structural)]
pub enum ParseError {
    /// The text is empty.
    Empty,
    /// The text has fewer than 40 bytes.
    TooShort,
    /// The text has more than 128 bytes.
    TooLong,
    /// The length is in order, but the text is not unpadded URL-safe base64.
    NotBase64Urlencoded,
}

/// The challenge that belongs to `verifier`: the SHA-256 digest of its text, in unpadded
/// URL-safe base64.
pub open spec fn derived_challenge(verifier: Seq<char>) -> Seq<char> {
    base64url_nopad(sha256_digest(encode_utf8(verifier)))
}

/// Whether `verifier` answers `challenge`.
pub open spec fn answers(challenge: Seq<char>, verifier: Seq<char>) -> bool {
    challenge == derived_challenge(verifier)
}

/// Whether `text` may stand as a PKCE code.
pub open spec fn is_pkce_code(text: Seq<char>) -> bool {
    MIN_LENGTH <= text_len(text) <= MAX_LENGTH && is_base64url(text)
}

/// Whether `error` is what a text that is no PKCE code is turned down with: its length is
/// held against the bounds first, and only a text of the right length is decoded.
pub open spec fn rejects(error: ParseError, text: Seq<char>) -> bool {
    match error {
        ParseError::Empty => text_len(text) == 0,
        ParseError::TooShort => 0 < text_len(text) < MIN_LENGTH,
        ParseError::TooLong => MAX_LENGTH < text_len(text),
        ParseError::NotBase64Urlencoded => MIN_LENGTH <= text_len(text) <= MAX_LENGTH
            && !is_base64url(text),
    }
}

/// Derives the challenge of `verifier` and compares it with `challenge`, on plain texts.
pub fn challenge_matches(challenge: &str, verifier: &str) -> (matches: bool)
    ensures
        matches == answers(challenge@, verifier@),
{
    let digest = sha256(verifier.as_bytes());
    let derived = base64url_encode(digest.as_slice());
    same_text(derived.as_str(), challenge)
}

/// A text of 40 to 128 bytes that is unpadded URL-safe base64.
#[derive(Debug, PartialEq, Eq)]
pub struct PkceCode(BoundedString<MIN_LENGTH, MAX_LENGTH>);

impl View for PkceCode {
    type V = Seq<char>;

    closed spec fn view(&self) -> Seq<char> {
        self.0@
    }
}

impl Clone for PkceCode {
    fn clone(&self) -> (copy: Self)
        ensures
            copy@ == self@,
    {
        proof {
            use_type_invariant(self);
        }
        PkceCode(self.0.clone())
    }
}

impl PkceCode {
    #[verifier::type_invariant]
    spec fn well_formed(self) -> bool {
        is_pkce_code(self.0@)
    }

    /// Checks the length of `value`, then that it decodes, and keeps the text unchanged.
    pub fn try_from(value: &str) -> (r: Result<Self, ParseError>)
        ensures
            match r {
                Ok(code) => code@ == value@ && is_pkce_code(value@),
                Err(e) => rejects(e, value@),
            },
    {
        match BoundedString::<MIN_LENGTH, MAX_LENGTH>::try_from(value) {
            Err(crate::bounded_string::ParseError::Empty) => Err(ParseError::Empty),
            Err(crate::bounded_string::ParseError::TooShort(_, _)) => Err(ParseError::TooShort),
            Err(crate::bounded_string::ParseError::TooLong(_, _)) => Err(ParseError::TooLong),
            Ok(text) => {
                if base64url_decodes(value) {
                    Ok(PkceCode(text))
                } else {
                    Err(ParseError::NotBase64Urlencoded)
                }
            },
        }
    }

    /// The text of the code.
    pub fn as_str(&self) -> (text: &str)
        ensures
            text@ == self@,
            is_pkce_code(self@),
    {
        proof {
            use_type_invariant(self);
        }
        self.0.as_str()
    }

    /// Whether this code, taken as a verifier, answers `challenge`.
    pub fn verify(&self, challenge: &Self) -> (matches: bool)
        ensures
            matches == answers(challenge@, self@),
    {
        challenge_matches(challenge.as_str(), self.as_str())
    }
}

/// The PKCE code that an authorization request commits to.
#[derive(Debug, PartialEq, Eq)]
pub struct CodeChallenge(PkceCode);

impl View for CodeChallenge {
    type V = Seq<char>;

    closed spec fn view(&self) -> Seq<char> {
        self.0@
    }
}

impl Clone for CodeChallenge {
    fn clone(&self) -> (copy: Self)
        ensures
            copy@ == self@,
    {
        CodeChallenge(self.0.clone())
    }
}

impl CodeChallenge {
    /// Reads a challenge as `PkceCode::try_from` reads a code.
    pub fn try_from(value: &str) -> (r: Result<Self, ParseError>)
        ensures
            match r {
                Ok(code) => code@ == value@ && is_pkce_code(value@),
                Err(e) => rejects(e, value@),
            },
    {
        match PkceCode::try_from(value) {
            Ok(code) => Ok(CodeChallenge(code)),
            Err(e) => Err(e),
        }
    }

    /// The text of the challenge.
    pub fn as_str(&self) -> (text: &str)
        ensures
            text@ == self@,
            is_pkce_code(self@),
    {
        self.0.as_str()
    }
}

/// The PKCE code that a token request proves its origin with.
#[derive(Debug, PartialEq, Eq)]
pub struct CodeVerifier(PkceCode);

impl View for CodeVerifier {
    type V = Seq<char>;

    closed spec fn view(&self) -> Seq<char> {
        self.0@
    }
}

impl Clone for CodeVerifier {
    fn clone(&self) -> (copy: Self)
        ensures
            copy@ == self@,
    {
        CodeVerifier(self.0.clone())
    }
}

impl CodeVerifier {
    /// Reads a verifier as `PkceCode::try_from` reads a code.
    pub fn try_from(value: &str) -> (r: Result<Self, ParseError>)
        ensures
            match r {
                Ok(code) => code@ == value@ && is_pkce_code(value@),
                Err(e) => rejects(e, value@),
            },
    {
        match PkceCode::try_from(value) {
            Ok(code) => Ok(CodeVerifier(code)),
            Err(e) => Err(e),
        }
    }

    /// The text of the verifier.
    pub fn as_str(&self) -> (text: &str)
        ensures
            text@ == self@,
            is_pkce_code(self@),
    {
        self.0.as_str()
    }
}

/// Whether `verifier` answers `challenge`: the SHA-256 digest of the verifier's text, in
/// unpadded URL-safe base64, is compared with the challenge for exact equality.
pub fn verify(challenge: &CodeChallenge, verifier: &CodeVerifier) -> (matches: bool)
    ensures
        matches == answers(challenge@, verifier@),
{
    challenge_matches(challenge.as_str(), verifier.as_str())
}

/// A challenge derived from a verifier is answered by that verifier.
pub proof fn lemma_own_challenge_answered(verifier: Seq<char>)
    ensures
        answers(derived_challenge(verifier), verifier),
{
}

/// A challenge derived from one verifier is answered by no other verifier, unless the two
/// derive the same challenge, which only a collision of the digest brings about.
pub proof fn lemma_other_verifier_rejected(verifier: Seq<char>, other: Seq<char>)
    requires
        other != verifier,
        derived_challenge(other) != derived_challenge(verifier),
    ensures
        !answers(derived_challenge(verifier), other),
{
}

} // verus!
