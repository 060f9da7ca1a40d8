//! The fields of requests: their names, what turns a value down, and the identifiers that
//! are bounded strings.

use crate::bounded_string::text_len;
use crate::bounded_string::NonEmptyString;
use crate::bounded_string::ParseError;
use crate::bounded_string::SecureString;
use crate::crypto::is_random_text;
use crate::crypto::random_secure_string;
use crate::data::pkce::is_pkce_code;
use crate::data::scope::Scope;
use crate::data::scope::requested_scopes;
use crate::data::uri::uri_syntax;
use vstd::prelude::*;

verus! {

/// A field of an authorization request or of a token request.
#[derive(Clone, Copy, Debug, PartialEq, Eq, Structural)]
pub enum Field {
    ClientId,
    ClientSecret,
    Code,
    CodeChallenge,
    CodeChallengeMethod,
    CodeVerifier,
    GrantType,
    RedirectUri,
    ResponseMode,
    ResponseType,
    Scope,
    State,
}

impl Field {
    /// The name of the field in a request.
    pub open spec fn request_name(self) -> Seq<char> {
        match self {
            Field::ClientId => "client_id"@,
            Field::ClientSecret => "client_secret"@,
            Field::Code => "code"@,
            Field::CodeChallenge => "code_challenge"@,
            Field::CodeChallengeMethod => "code_challenge_method"@,
            Field::CodeVerifier => "code_verifier"@,
            Field::GrantType => "grant_type"@,
            Field::RedirectUri => "redirect_uri"@,
            Field::ResponseMode => "response_mode"@,
            Field::ResponseType => "response_type"@,
            Field::Scope => "scope"@,
            Field::State => "state"@,
        }
    }

    /// The name of the field in a request.
    pub fn name(&self) -> (name: &'static str)
        ensures
            name@ == self.request_name(),
    {
        match self {
            Field::ClientId => "client_id",
            Field::ClientSecret => "client_secret",
            Field::Code => "code",
            Field::CodeChallenge => "code_challenge",
            Field::CodeChallengeMethod => "code_challenge_method",
            Field::CodeVerifier => "code_verifier",
            Field::GrantType => "grant_type",
            Field::RedirectUri => "redirect_uri",
            Field::ResponseMode => "response_mode",
            Field::ResponseType => "response_type",
            Field::Scope => "scope",
            Field::State => "state",
        }
    }
}

/// Why the value of a field was turned down.
#[derive(Debug, PartialEq, Eq)]
pub enum Cause {
    /// The value misses the bounds on its length.
    Length(ParseError),
    /// The value is not a PKCE code.
    Pkce(crate::data::pkce::ParseError),
    /// The value, or the token of it that is handed back, is not one that the field knows.
    Unrecognized(String),
    /// The value is a set of scopes without the one that must be in it.
    MissingScope(Scope),
    /// The value is not a URI.
    InvalidUri,
}

/// A field of a request that was turned down, and why.
#[derive(Debug, PartialEq, Eq)]
pub struct FieldError {
    pub field: Field,
    pub cause: Cause,
}

impl FieldError {
    /// The HTTP status that the error is answered with: the client is at fault.
    pub fn status_code(&self) -> (status: u16)
        ensures
            status == 400,
    {
        400
    }
}

/// Whether `text` asks for a set of scopes that every request must ask for: each token
/// names a scope, and openid is among them.
pub open spec fn is_scope_request(text: Seq<char>) -> bool {
    requested_scopes(text) matches Ok(scopes) && scopes.contains(Scope::Openid)
}

/// Whether `text` is in order as the value of `field`.
pub open spec fn accepted(field: Field, text: Seq<char>) -> bool {
    match field {
        Field::ClientId => NonEmptyString::outcome(text) is Accepted,
        Field::CodeChallengeMethod => text == "S256"@,
        Field::CodeChallenge => is_pkce_code(text),
        Field::RedirectUri => uri_syntax(text),
        Field::ResponseMode => text == "form_post"@,
        Field::ResponseType => text == "code"@,
        Field::Scope => is_scope_request(text),
        Field::State => SecureString::outcome(text) is Accepted,
        Field::ClientSecret => SecureString::outcome(text) is Accepted,
        Field::Code => SecureString::outcome(text) is Accepted,
        Field::CodeVerifier => is_pkce_code(text),
        Field::GrantType => text == "authorization_code"@,
    }
}

/// Whether `cause` is what the value `text` of `field` is turned down with.
pub open spec fn turned_down(field: Field, text: Seq<char>, cause: Cause) -> bool {
    match field {
        Field::ClientId => cause matches Cause::Length(e) && NonEmptyString::rejects(e, text),
        Field::State | Field::ClientSecret | Field::Code => cause matches Cause::Length(e)
            && SecureString::rejects(e, text),
        Field::CodeChallenge | Field::CodeVerifier => cause matches Cause::Pkce(e)
            && crate::data::pkce::rejects(e, text),
        Field::GrantType => cause matches Cause::Unrecognized(found) && found@ == text && text
            != "authorization_code"@,
        Field::RedirectUri => cause is InvalidUri && !uri_syntax(text),
        Field::CodeChallengeMethod => cause matches Cause::Unrecognized(found) && found@ == text
            && text != "S256"@,
        Field::ResponseMode => cause matches Cause::Unrecognized(found) && found@ == text && text
            != "form_post"@,
        Field::ResponseType => cause matches Cause::Unrecognized(found) && found@ == text && text
            != "code"@,
        Field::Scope => match requested_scopes(text) {
            Ok(scopes) => cause == Cause::MissingScope(Scope::Openid) && !scopes.contains(
                Scope::Openid,
            ),
            Err(token) => cause matches Cause::Unrecognized(found) && found@ == token,
        },
    }
}

/// The identifier of a client: a text that is not empty.
#[derive(Debug, PartialEq, Eq, Hash)]
pub struct ClientId(NonEmptyString);

impl View for ClientId {
    type V = Seq<char>;

    closed spec fn view(&self) -> Seq<char> {
        self.0@
    }
}

impl Clone for ClientId {
    fn clone(&self) -> (copy: Self)
        ensures
            copy@ == self@,
    {
        ClientId(self.0.clone())
    }
}

impl ClientId {
    /// Reads a client identifier of at least one byte.
    pub fn try_from(value: &str) -> (r: Result<Self, ParseError>)
        ensures
            match r {
                Ok(id) => NonEmptyString::outcome(value@) is Accepted && id@ == value@,
                Err(e) => NonEmptyString::rejects(e, value@),
            },
    {
        match NonEmptyString::try_from(value) {
            Ok(text) => Ok(ClientId(text)),
            Err(e) => Err(e),
        }
    }

    /// The text of the identifier.
    pub fn as_str(&self) -> (text: &str)
        ensures
            text@ == self@,
            NonEmptyString::outcome(self@) is Accepted,
    {
        self.0.as_str()
    }
}

/// The value that a client sends along to recognise its own request in the response: a text
/// of at least 20 bytes.
#[derive(Debug, PartialEq, Eq, Hash)]
pub struct State(SecureString);

impl View for State {
    type V = Seq<char>;

    closed spec fn view(&self) -> Seq<char> {
        self.0@
    }
}

impl Clone for State {
    fn clone(&self) -> (copy: Self)
        ensures
            copy@ == self@,
    {
        State(self.0.clone())
    }
}

impl State {
    /// Reads a state value of at least 20 bytes.
    pub fn try_from(value: &str) -> (r: Result<Self, ParseError>)
        ensures
            match r {
                Ok(state) => SecureString::outcome(value@) is Accepted && state@ == value@,
                Err(e) => SecureString::rejects(e, value@),
            },
    {
        match SecureString::try_from(value) {
            Ok(text) => Ok(State(text)),
            Err(e) => Err(e),
        }
    }

    /// The text of the state value.
    pub fn as_str(&self) -> (text: &str)
        ensures
            text@ == self@,
            SecureString::outcome(self@) is Accepted,
    {
        self.0.as_str()
    }
}

/// A one-time authorization code: a text of at least 20 bytes.
#[derive(Debug, PartialEq, Eq, Hash)]
pub struct Code(SecureString);

impl View for Code {
    type V = Seq<char>;

    closed spec fn view(&self) -> Seq<char> {
        self.0@
    }
}

impl Clone for Code {
    fn clone(&self) -> (copy: Self)
        ensures
            copy@ == self@,
    {
        Code(self.0.clone())
    }
}

impl Code {
    /// Reads a code of at least 20 bytes.
    pub fn try_from(value: &str) -> (r: Result<Self, ParseError>)
        ensures
            match r {
                Ok(code) => SecureString::outcome(value@) is Accepted && code@ == value@,
                Err(e) => SecureString::rejects(e, value@),
            },
    {
        match SecureString::try_from(value) {
            Ok(text) => Ok(Code(text)),
            Err(e) => Err(e),
        }
    }

    /// The code that reads `text`.
    pub fn new(text: SecureString) -> (code: Self)
        ensures
            code@ == text@,
    {
        Code(text)
    }

    /// A fresh code drawn from `rng`, of 28 bytes.
    pub fn from_rng(rng: &mut rand::rngs::StdRng) -> (code: Self)
        ensures
            is_random_text(code@),
            text_len(code@) == 28,
    {
        Code(random_secure_string(rng))
    }

    /// The text of the code.
    pub fn as_str(&self) -> (text: &str)
        ensures
            text@ == self@,
            SecureString::outcome(self@) is Accepted,
    {
        self.0.as_str()
    }

    /// Whether two codes have the same text.
    pub fn same_text(&self, other: &Code) -> (same: bool)
        ensures
            same == (self@ == other@),
    {
        self.0.same_text(&other.0)
    }
}

/// The identifier of an end user: a text of at least 20 bytes.
#[derive(Debug, PartialEq, Eq, Hash)]
pub struct Subject(SecureString);

impl View for Subject {
    type V = Seq<char>;

    closed spec fn view(&self) -> Seq<char> {
        self.0@
    }
}

impl Clone for Subject {
    fn clone(&self) -> (copy: Self)
        ensures
            copy@ == self@,
    {
        Subject(self.0.clone())
    }
}

impl Subject {
    /// Reads a subject of at least 20 bytes.
    pub fn try_from(value: &str) -> (r: Result<Self, ParseError>)
        ensures
            match r {
                Ok(subject) => SecureString::outcome(value@) is Accepted && subject@ == value@,
                Err(e) => SecureString::rejects(e, value@),
            },
    {
        match SecureString::try_from(value) {
            Ok(text) => Ok(Subject(text)),
            Err(e) => Err(e),
        }
    }

    /// The subject that reads `text`.
    pub fn new(text: SecureString) -> (subject: Self)
        ensures
            subject@ == text@,
    {
        Subject(text)
    }

    /// A fresh subject drawn from `rng`, of 28 bytes.
    pub fn from_rng(rng: &mut rand::rngs::StdRng) -> (subject: Self)
        ensures
            is_random_text(subject@),
            text_len(subject@) == 28,
    {
        Subject(random_secure_string(rng))
    }

    /// The text of the subject.
    pub fn as_str(&self) -> (text: &str)
        ensures
            text@ == self@,
            SecureString::outcome(self@) is Accepted,
    {
        self.0.as_str()
    }
}

} // verus!
