//! The fields of a token request, one reader for each.

use crate::authorize::extractor::client_id;
use crate::authorize::extractor::redirect_uri;
use crate::bounded_string::SecureString;
use crate::data::GrantType;
use crate::data::pkce::CodeVerifier;
use crate::data::uri::Uri;
use crate::parameter::Cause;
use crate::parameter::ClientId;
use crate::parameter::Code;
use crate::parameter::Field;
use crate::parameter::FieldError;
use crate::parameter::accepted;
use crate::parameter::turned_down;
use vstd::prelude::*;

verus! {

/// The fields of a token request as they arrive. A public client sends neither its
/// identifier nor a secret.
pub struct RawTokenParams {
    pub client_id: Option<String>,
    pub client_secret: Option<String>,
    pub code_verifier: String,
    pub code: String,
    pub grant_type: String,
    pub redirect_uri: String,
}

/// A token request whose every field has been checked.
#[derive(Debug)]
pub struct TokenParams {
    pub client_id: Option<ClientId>,
    pub client_secret: Option<SecureString>,
    pub code_verifier: CodeVerifier,
    pub code: Code,
    pub grant_type: GrantType,
    pub redirect_uri: Uri,
}

/// Reads the field `client_secret`.
pub fn client_secret(value: &str) -> (r: Result<SecureString, FieldError>)
    ensures
        match r {
            Ok(secret) => accepted(Field::ClientSecret, value@) && secret@ == value@,
            Err(e) => e.field == Field::ClientSecret && turned_down(
                Field::ClientSecret,
                value@,
                e.cause,
            ),
        },
{
    match SecureString::try_from(value) {
        Ok(secret) => Ok(secret),
        Err(e) => Err(FieldError { field: Field::ClientSecret, cause: Cause::Length(e) }),
    }
}

/// Reads the field `code`.
pub fn code(value: &str) -> (r: Result<Code, FieldError>)
    ensures
        match r {
            Ok(code) => accepted(Field::Code, value@) && code@ == value@,
            Err(e) => e.field == Field::Code && turned_down(Field::Code, value@, e.cause),
        },
{
    match Code::try_from(value) {
        Ok(code) => Ok(code),
        Err(e) => Err(FieldError { field: Field::Code, cause: Cause::Length(e) }),
    }
}

/// Reads the field `code_verifier`.
pub fn code_verifier(value: &str) -> (r: Result<CodeVerifier, FieldError>)
    ensures
        match r {
            Ok(verifier) => accepted(Field::CodeVerifier, value@) && verifier@ == value@,
            Err(e) => e.field == Field::CodeVerifier && turned_down(
                Field::CodeVerifier,
                value@,
                e.cause,
            ),
        },
{
    match CodeVerifier::try_from(value) {
        Ok(verifier) => Ok(verifier),
        Err(e) => Err(FieldError { field: Field::CodeVerifier, cause: Cause::Pkce(e) }),
    }
}

/// Reads the field `grant_type`.
pub fn grant_type(value: &str) -> (r: Result<GrantType, FieldError>)
    ensures
        match r {
            Ok(_) => accepted(Field::GrantType, value@),
            Err(e) => e.field == Field::GrantType && turned_down(
                Field::GrantType,
                value@,
                e.cause,
            ),
        },
{
    match GrantType::parse(value) {
        Some(grant) => Ok(grant),
        None => Err(
            FieldError { field: Field::GrantType, cause: Cause::Unrecognized(value.to_owned()) },
        ),
    }
}

/// The text of a field that may be absent.
pub open spec fn text_of(value: Option<String>) -> Option<Seq<char>> {
    match value {
        Some(text) => Some(text@),
        None => None,
    }
}

/// The first field of a token request that is turned down, in the order in which they are
/// read. A field that is absent is in order.
pub open spec fn first_rejected(raw: &RawTokenParams) -> Option<Field> {
    if raw.client_id matches Some(text) && !accepted(Field::ClientId, text@) {
        Some(Field::ClientId)
    } else if raw.client_secret matches Some(text) && !accepted(Field::ClientSecret, text@) {
        Some(Field::ClientSecret)
    } else if !accepted(Field::CodeVerifier, raw.code_verifier@) {
        Some(Field::CodeVerifier)
    } else if !accepted(Field::Code, raw.code@) {
        Some(Field::Code)
    } else if !accepted(Field::GrantType, raw.grant_type@) {
        Some(Field::GrantType)
    } else if !accepted(Field::RedirectUri, raw.redirect_uri@) {
        Some(Field::RedirectUri)
    } else {
        None
    }
}

impl RawTokenParams {
    /// The value of `field` as it arrived; nothing for a field that is absent.
    pub open spec fn value(&self, field: Field) -> Seq<char> {
        match field {
            Field::ClientId => match self.client_id {
                Some(text) => text@,
                None => Seq::empty(),
            },
            Field::ClientSecret => match self.client_secret {
                Some(text) => text@,
                None => Seq::empty(),
            },
            Field::CodeVerifier => self.code_verifier@,
            Field::Code => self.code@,
            Field::GrantType => self.grant_type@,
            Field::RedirectUri => self.redirect_uri@,
            _ => Seq::empty(),
        }
    }
}

impl TokenParams {
    /// The identifier of the client, if the request names one.
    pub open spec fn client_id_text(&self) -> Option<Seq<char>> {
        match self.client_id {
            Some(id) => Some(id@),
            None => None,
        }
    }

    /// The secret of the client, if the request carries one.
    pub open spec fn client_secret_text(&self) -> Option<Seq<char>> {
        match self.client_secret {
            Some(secret) => Some(secret@),
            None => None,
        }
    }

    /// Checks every field of a token request, in the order client_id, client_secret,
    /// code_verifier, code, grant_type, redirect_uri, and reports the first that is turned
    /// down.
    pub fn parse(raw: &RawTokenParams) -> (r: Result<Self, FieldError>)
        ensures
            match r {
                Ok(params) => {
                    &&& first_rejected(raw) is None
                    &&& params.client_id_text() == text_of(raw.client_id)
                    &&& params.client_secret_text() == text_of(raw.client_secret)
                    &&& params.code_verifier@ == raw.code_verifier@
                    &&& params.code@ == raw.code@
                    &&& params.redirect_uri@ == raw.redirect_uri@
                },
                Err(e) => first_rejected(raw) == Some(e.field) && turned_down(
                    e.field,
                    raw.value(e.field),
                    e.cause,
                ),
            },
    {
        let client_id = match &raw.client_id {
            None => None,
            Some(text) => match client_id(text.as_str()) {
                Ok(value) => Some(value),
                Err(e) => {
                    return Err(e);
                },
            },
        };
        let client_secret = match &raw.client_secret {
            None => None,
            Some(text) => match client_secret(text.as_str()) {
                Ok(value) => Some(value),
                Err(e) => {
                    return Err(e);
                },
            },
        };
        let code_verifier = match code_verifier(raw.code_verifier.as_str()) {
            Ok(value) => value,
            Err(e) => {
                return Err(e);
            },
        };
        let code = match code(raw.code.as_str()) {
            Ok(value) => value,
            Err(e) => {
                return Err(e);
            },
        };
        let grant_type = match grant_type(raw.grant_type.as_str()) {
            Ok(value) => value,
            Err(e) => {
                return Err(e);
            },
        };
        let redirect_uri = match redirect_uri(raw.redirect_uri.as_str()) {
            Ok(value) => value,
            Err(e) => {
                return Err(e);
            },
        };
        Ok(TokenParams { client_id, client_secret, code_verifier, code, grant_type, redirect_uri })
    }
}

} // verus!
