//! The fields of an authorization request, one reader for each.

use crate::data::CodeChallengeMethod;
use crate::data::ResponseMode;
use crate::data::ResponseType;
use crate::data::pkce::CodeChallenge;
use crate::data::scope::Scope;
use crate::data::scope::ScopeSet;
use crate::data::scope::requested_scopes;
use crate::data::uri::Uri;
use crate::parameter::Cause;
use crate::parameter::ClientId;
use crate::parameter::Field;
use crate::parameter::FieldError;
use crate::parameter::State;
use crate::parameter::accepted;
use crate::parameter::turned_down;
use vstd::prelude::*;

verus! {

/// The fields of an authorization request as they arrive.
pub struct RawAuthorizeParams {
    pub client_id: String,
    pub code_challenge_method: String,
    pub code_challenge: String,
    pub redirect_uri: String,
    pub response_mode: String,
    pub response_type: String,
    pub scope: String,
    pub state: String,
}

/// An authorization request whose every field has been checked.
#[derive(Debug)]
pub struct AuthorizeParams {
    pub client_id: ClientId,
    pub code_challenge_method: CodeChallengeMethod,
    pub code_challenge: CodeChallenge,
    pub redirect_uri: Uri,
    pub response_mode: ResponseMode,
    pub response_type: ResponseType,
    pub scope: ScopeSet,
    pub state: State,
}

/// Reads the field `client_id`.
pub fn client_id(value: &str) -> (r: Result<ClientId, FieldError>)
    ensures
        match r {
            Ok(id) => accepted(Field::ClientId, value@) && id@ == value@,
            Err(e) => e.field == Field::ClientId && turned_down(Field::ClientId, value@, e.cause),
        },
{
    match ClientId::try_from(value) {
        Ok(id) => Ok(id),
        Err(e) => Err(FieldError { field: Field::ClientId, cause: Cause::Length(e) }),
    }
}

/// Reads the field `code_challenge_method`.
pub fn code_challenge_method(value: &str) -> (r: Result<CodeChallengeMethod, FieldError>)
    ensures
        match r {
            Ok(_) => accepted(Field::CodeChallengeMethod, value@),
            Err(e) => e.field == Field::CodeChallengeMethod && turned_down(
                Field::CodeChallengeMethod,
                value@,
                e.cause,
            ),
        },
{
    match CodeChallengeMethod::parse(value) {
        Some(method) => Ok(method),
        None => Err(
            FieldError {
                field: Field::CodeChallengeMethod,
                cause: Cause::Unrecognized(value.to_owned()),
            },
        ),
    }
}

/// Reads the field `code_challenge`.
pub fn code_challenge(value: &str) -> (r: Result<CodeChallenge, FieldError>)
    ensures
        match r {
            Ok(challenge) => accepted(Field::CodeChallenge, value@) && challenge@ == value@,
            Err(e) => e.field == Field::CodeChallenge && turned_down(
                Field::CodeChallenge,
                value@,
                e.cause,
            ),
        },
{
    match CodeChallenge::try_from(value) {
        Ok(challenge) => Ok(challenge),
        Err(e) => Err(FieldError { field: Field::CodeChallenge, cause: Cause::Pkce(e) }),
    }
}

/// Reads the field `redirect_uri`. The text is kept as it is.
pub fn redirect_uri(value: &str) -> (r: Result<Uri, FieldError>)
    ensures
        match r {
            Ok(uri) => accepted(Field::RedirectUri, value@) && uri@ == value@,
            Err(e) => e.field == Field::RedirectUri && turned_down(
                Field::RedirectUri,
                value@,
                e.cause,
            ),
        },
{
    match Uri::try_from(value) {
        Ok(uri) => Ok(uri),
        Err(_) => Err(FieldError { field: Field::RedirectUri, cause: Cause::InvalidUri }),
    }
}

/// Reads the field `response_mode`.
pub fn response_mode(value: &str) -> (r: Result<ResponseMode, FieldError>)
    ensures
        match r {
            Ok(_) => accepted(Field::ResponseMode, value@),
            Err(e) => e.field == Field::ResponseMode && turned_down(
                Field::ResponseMode,
                value@,
                e.cause,
            ),
        },
{
    match ResponseMode::parse(value) {
        Some(mode) => Ok(mode),
        None => Err(
            FieldError { field: Field::ResponseMode, cause: Cause::Unrecognized(value.to_owned()) },
        ),
    }
}

/// Reads the field `response_type`.
pub fn response_type(value: &str) -> (r: Result<ResponseType, FieldError>)
    ensures
        match r {
            Ok(_) => accepted(Field::ResponseType, value@),
            Err(e) => e.field == Field::ResponseType && turned_down(
                Field::ResponseType,
                value@,
                e.cause,
            ),
        },
{
    match ResponseType::parse(value) {
        Some(kind) => Ok(kind),
        None => Err(
            FieldError { field: Field::ResponseType, cause: Cause::Unrecognized(value.to_owned()) },
        ),
    }
}

/// The scope that a set of requested scopes lacks.
#[derive(Clone, Copy, Debug, PartialEq, Eq, Structural)]
pub enum Error {
    MissingScope(Scope),
}

/// Passes a set of requested scopes on if openid is in it.
pub fn validate_scope(set: ScopeSet) -> (r: Result<ScopeSet, Error>)
    ensures
        r == if set@.contains(Scope::Openid) {
            Ok::<ScopeSet, Error>(set)
        } else {
            Err::<ScopeSet, Error>(Error::MissingScope(Scope::Openid))
        },
{
    if set.contains(&Scope::Openid) {
        Ok(set)
    } else {
        Err(Error::MissingScope(Scope::Openid))
    }
}

/// Reads the field `scope`: names of scopes between single spaces, openid among them.
pub fn scope(value: &str) -> (r: Result<ScopeSet, FieldError>)
    ensures
        match r {
            Ok(set) => accepted(Field::Scope, value@) && Ok::<Set<Scope>, Seq<char>>(set@)
                == requested_scopes(value@),
            Err(e) => e.field == Field::Scope && turned_down(Field::Scope, value@, e.cause),
        },
{
    match ScopeSet::parse(value) {
        Err(token) => Err(FieldError { field: Field::Scope, cause: Cause::Unrecognized(token) }),
        Ok(set) => match validate_scope(set) {
            Ok(set) => Ok(set),
            Err(Error::MissingScope(missing)) => Err(
                FieldError { field: Field::Scope, cause: Cause::MissingScope(missing) },
            ),
        },
    }
}

/// Reads the field `state`.
pub fn state(value: &str) -> (r: Result<State, FieldError>)
    ensures
        match r {
            Ok(state) => accepted(Field::State, value@) && state@ == value@,
            Err(e) => e.field == Field::State && turned_down(Field::State, value@, e.cause),
        },
{
    match State::try_from(value) {
        Ok(state) => Ok(state),
        Err(e) => Err(FieldError { field: Field::State, cause: Cause::Length(e) }),
    }
}

/// The fields of an authorization request, in the order in which they are read.
pub open spec fn first_rejected(raw: &RawAuthorizeParams) -> Option<Field> {
    if !accepted(Field::ClientId, raw.client_id@) {
        Some(Field::ClientId)
    } else if !accepted(Field::CodeChallengeMethod, raw.code_challenge_method@) {
        Some(Field::CodeChallengeMethod)
    } else if !accepted(Field::CodeChallenge, raw.code_challenge@) {
        Some(Field::CodeChallenge)
    } else if !accepted(Field::RedirectUri, raw.redirect_uri@) {
        Some(Field::RedirectUri)
    } else if !accepted(Field::ResponseMode, raw.response_mode@) {
        Some(Field::ResponseMode)
    } else if !accepted(Field::ResponseType, raw.response_type@) {
        Some(Field::ResponseType)
    } else if !accepted(Field::Scope, raw.scope@) {
        Some(Field::Scope)
    } else if !accepted(Field::State, raw.state@) {
        Some(Field::State)
    } else {
        None
    }
}

impl RawAuthorizeParams {
    /// The value of `field` as it arrived.
    pub open spec fn value(&self, field: Field) -> Seq<char> {
        match field {
            Field::ClientId => self.client_id@,
            Field::CodeChallengeMethod => self.code_challenge_method@,
            Field::CodeChallenge => self.code_challenge@,
            Field::RedirectUri => self.redirect_uri@,
            Field::ResponseMode => self.response_mode@,
            Field::ResponseType => self.response_type@,
            Field::Scope => self.scope@,
            Field::State => self.state@,
            _ => Seq::empty(),
        }
    }
}

impl AuthorizeParams {
    /// Checks every field of an authorization request, in the order client_id,
    /// code_challenge_method, code_challenge, redirect_uri, response_mode, response_type,
    /// scope, state, and reports the first that is turned down.
    pub fn parse(raw: &RawAuthorizeParams) -> (r: Result<Self, FieldError>)
        ensures
            match r {
                Ok(params) => {
                    &&& first_rejected(raw) is None
                    &&& params.client_id@ == raw.client_id@
                    &&& params.code_challenge@ == raw.code_challenge@
                    &&& params.redirect_uri@ == raw.redirect_uri@
                    &&& Ok::<Set<Scope>, Seq<char>>(params.scope@) == requested_scopes(raw.scope@)
                    &&& params.state@ == raw.state@
                },
                Err(e) => first_rejected(raw) == Some(e.field) && turned_down(
                    e.field,
                    raw.value(e.field),
                    e.cause,
                ),
            },
    {
        let client_id = match client_id(raw.client_id.as_str()) {
            Ok(value) => value,
            Err(e) => {
                return Err(e);
            },
        };
        let method = raw.code_challenge_method.as_str();
        let code_challenge_method = match code_challenge_method(method) {
            Ok(value) => value,
            Err(e) => {
                return Err(e);
            },
        };
        let code_challenge = match code_challenge(raw.code_challenge.as_str()) {
            Ok(value) => value,
            Err(e) => {
                return Err(e);
            },
        };
        let redirect_uri = match redirect_uri(raw.redirect_uri.as_str()) {
            Ok(value) => value,
            Err(e) => {
                return Err(e);
            },
        };
        let response_mode = match response_mode(raw.response_mode.as_str()) {
            Ok(value) => value,
            Err(e) => {
                return Err(e);
            },
        };
        let response_type = match response_type(raw.response_type.as_str()) {
            Ok(value) => value,
            Err(e) => {
                return Err(e);
            },
        };
        let scope = match scope(raw.scope.as_str()) {
            Ok(value) => value,
            Err(e) => {
                return Err(e);
            },
        };
        let state = match state(raw.state.as_str()) {
            Ok(value) => value,
            Err(e) => {
                return Err(e);
            },
        };
        Ok(
            AuthorizeParams {
                client_id,
                code_challenge_method,
                code_challenge,
                redirect_uri,
                response_mode,
                response_type,
                scope,
                state,
            },
        )
    }
}

} // verus!
