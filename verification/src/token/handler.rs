//! The answer to a token request: the grant is decided, then the tokens are issued.

use crate::authorize::handler::filed;
use crate::bounded_string::text_len;
use crate::bounded_string::SecureString;
use crate::crypto::base64url_encode;
use crate::crypto::base64url_nopad;
use crate::crypto::is_random_text;
use crate::crypto::sha256;
use crate::crypto::sha256_digest;
use crate::data::AuthenticationMethod;
use crate::data::TokenType;
use crate::data::access_token::AccessToken;
use crate::data::access_token::AccessTokenView;
use crate::data::id_token::IdToken;
use crate::data::id_token::IdTokenView;
use crate::data::pkce;
use crate::data::pkce::CodeChallenge;
use crate::data::pkce::CodeVerifier;
use crate::data::pkce::answers;
use crate::data::scope::ScopeSet;
use crate::data::time::Expiration;
use crate::data::time::IssuedAt;
use crate::data::time::UnixTime;
use crate::data::time::later_by;
use crate::data::uri::Uri;
use crate::parameter::Code;
use crate::session::AuthSession;
use crate::session::AuthSessionView;
use crate::session::PendingView;
use crate::state::AppState;
use crate::state::VarsView;
use crate::token::extractor::TokenParams;
use crate::token::jwt;
use crate::token::jwt::compact;
use vstd::prelude::*;
use vstd::slice::slice_subrange;
use vstd::utf8::encode_utf8;

verus! {

/// The version of the layout of the claims.
pub const CLAIMS_VERSION: u32 = 1;

/// What a token request is answered with.
#[derive(Debug, PartialEq, Eq)]
pub struct TokenResponse {
    pub access_token: String,
    pub expires_in: u64,
    pub id_token: String,
    pub scope: ScopeSet,
    pub token_type: TokenType,
}

/// Why a token request is turned down.
#[derive(Debug, PartialEq, Eq)]
pub enum InvalidParamError {
    /// The client is confidential and the request does not carry its secret.
    InvalidClientSecret,
    /// No session is filed under the code.
    InvalidCode(Code),
    /// The verifier, which comes second, does not answer the challenge of the session.
    InvalidGrant(CodeChallenge, CodeVerifier),
    /// The redirect URI of the request, which comes second, is not that of the session.
    InvalidRedirectUri(Uri, Uri),
    /// A token could not be signed.
    Jwt(jwt::Error),
}

impl InvalidParamError {
    /// The HTTP status that the error is answered with: 400 where the client is at fault,
    /// 500 where the server is.
    pub fn status_code(&self) -> (status: u16)
        ensures
            status == if self is Jwt {
                500u16
            } else {
                400u16
            },
    {
        match self {
            InvalidParamError::Jwt(_) => 500,
            _ => 400,
        }
    }
}

/// What becomes of a token request.
pub enum Grant {
    Granted,
    InvalidCode,
    InvalidGrant,
    InvalidRedirectUri,
    InvalidClientSecret,
}

/// Whether a request that carries `got` meets the demand for a client secret: a public
/// client needs none, a confidential one needs exactly its own.
pub open spec fn secret_accepted(expected: Option<Seq<char>>, got: Option<Seq<char>>) -> bool {
    expected matches Some(secret) ==> got == Some(secret)
}

/// Decides a token request against the pending sessions: the code must redeem a session,
/// the verifier must answer the challenge of that session, the redirect URI must be the
/// text that the session holds, and a confidential client must send its secret. The first
/// test that fails decides.
pub open spec fn decide(
    sessions: Map<Seq<char>, PendingView>,
    expected_secret: Option<Seq<char>>,
    code: Seq<char>,
    verifier: Seq<char>,
    redirect_uri: Seq<char>,
    secret: Option<Seq<char>>,
) -> Grant {
    if !sessions.contains_key(code) {
        Grant::InvalidCode
    } else if !answers(sessions[code].session.code_challenge, verifier) {
        Grant::InvalidGrant
    } else if sessions[code].session.redirect_uri != redirect_uri {
        Grant::InvalidRedirectUri
    } else if !secret_accepted(expected_secret, secret) {
        Grant::InvalidClientSecret
    } else {
        Grant::Granted
    }
}

/// The hash that binds an identity token to the access token `token`: the first half of the
/// SHA-256 digest of its text, in unpadded URL-safe base64.
pub open spec fn at_hash(token: Seq<char>) -> Seq<char> {
    let digest = sha256_digest(encode_utf8(token));
    base64url_nopad(digest.subrange(0, digest.len() as int / 2))
}

/// The claims of the access token for `session`, issued at `now` under the identifier
/// `jti`.
pub open spec fn access_claims(
    session: AuthSessionView,
    vars: VarsView,
    now: nat,
    jti: Seq<char>,
) -> AccessTokenView {
    AccessTokenView {
        aud: vars.audience,
        auth_time: now,
        cid: session.client_id,
        exp: later_by(now, vars.expiration as nat),
        iat: now,
        iss: vars.issuer,
        jti,
        scp: session.scope,
        sub: session.user_id,
        uid: session.user_id,
        ver: CLAIMS_VERSION as nat,
    }
}

/// The claims of the identity token for `session`, issued at `now` under the identifier
/// `jti` together with the access token `access_token`.
pub open spec fn id_claims(
    session: AuthSessionView,
    vars: VarsView,
    now: nat,
    jti: Seq<char>,
    access_token: Seq<char>,
) -> IdTokenView {
    IdTokenView {
        amr: seq![AuthenticationMethod::Pwd],
        at_hash: at_hash(access_token),
        aud: session.client_id,
        auth_time: now,
        exp: later_by(now, vars.expiration as nat),
        iat: now,
        iss: vars.issuer,
        jti,
        sub: session.user_id,
        ver: CLAIMS_VERSION as nat,
    }
}

/// Whether `response` is what `session` is answered with at `now`, where `access_jti` and
/// `id_jti` identify the two tokens.
pub open spec fn issued(
    session: AuthSessionView,
    vars: VarsView,
    now: nat,
    access_jti: Seq<char>,
    id_jti: Seq<char>,
    response: TokenResponse,
) -> bool {
    &&& response.access_token@ == compact(
        access_claims(session, vars, now, access_jti).json(),
        vars.secret,
    )
    &&& response.id_token@ == compact(
        id_claims(session, vars, now, id_jti, response.access_token@).json(),
        vars.secret,
    )
    &&& response.expires_in == vars.expiration
    &&& response.scope@ == session.scope
    &&& response.token_type == TokenType::Bearer
}

/// Why the tokens for `session` are not signed, if they are not: the access token is signed
/// first.
pub open spec fn unsigned(
    session: AuthSessionView,
    vars: VarsView,
    now: nat,
    access_jti: Seq<char>,
    id_jti: Seq<char>,
) -> Option<jwt::Error> {
    let access = access_claims(session, vars, now, access_jti).json();
    match jwt::refusal(access.len(), vars.secret.len()) {
        Some(e) => Some(e),
        None => jwt::refusal(
            id_claims(session, vars, now, id_jti, compact(access, vars.secret)).json().len(),
            vars.secret.len(),
        ),
    }
}

/// A request that answers the session filed under its code is granted, and the same request
/// is turned down for its code once that session has been taken, right verifier or not.
pub proof fn lemma_code_redeems_once(
    sessions: Map<Seq<char>, PendingView>,
    expected_secret: Option<Seq<char>>,
    code: Seq<char>,
    session: PendingView,
    verifier: Seq<char>,
    secret: Option<Seq<char>>,
)
    requires
        answers(session.session.code_challenge, verifier),
        secret_accepted(expected_secret, secret),
    ensures
        decide(
            sessions.insert(code, session),
            expected_secret,
            code,
            verifier,
            session.session.redirect_uri,
            secret,
        ) is Granted,
        decide(
            sessions.insert(code, session).remove(code),
            expected_secret,
            code,
            verifier,
            session.session.redirect_uri,
            secret,
        ) is InvalidCode,
{
}

/// A code that answers an authorization request redeems the session of that request once:
/// the token request that answers the session is granted, and the same request is turned
/// down for its code once the session has been taken, whatever else was pending.
pub proof fn lemma_issued_code_redeems_once(
    sessions: Map<Seq<char>, PendingView>,
    lifetime: u64,
    code: Seq<char>,
    session: AuthSessionView,
    now: nat,
    expected_secret: Option<Seq<char>>,
    verifier: Seq<char>,
    secret: Option<Seq<char>>,
)
    requires
        answers(session.code_challenge, verifier),
        secret_accepted(expected_secret, secret),
    ensures
        decide(
            filed(sessions, lifetime, code, session, now),
            expected_secret,
            code,
            verifier,
            session.redirect_uri,
            secret,
        ) is Granted,
        filed(sessions, lifetime, code, session, now)[code].session == session,
        decide(
            filed(sessions, lifetime, code, session, now).remove(code),
            expected_secret,
            code,
            verifier,
            session.redirect_uri,
            secret,
        ) is InvalidCode,
{
}

/// A request whose redirect URI is not, to the letter, the one that the session holds is
/// turned down for it, though its code and its verifier are in order. A trailing slash is
/// enough.
pub proof fn lemma_redirect_uri_exact(
    sessions: Map<Seq<char>, PendingView>,
    expected_secret: Option<Seq<char>>,
    code: Seq<char>,
    verifier: Seq<char>,
    redirect_uri: Seq<char>,
    secret: Option<Seq<char>>,
)
    requires
        sessions.contains_key(code),
        answers(sessions[code].session.code_challenge, verifier),
    ensures
        redirect_uri != sessions[code].session.redirect_uri ==> decide(
            sessions,
            expected_secret,
            code,
            verifier,
            redirect_uri,
            secret,
        ) is InvalidRedirectUri,
        decide(
            sessions,
            expected_secret,
            code,
            verifier,
            sessions[code].session.redirect_uri + "/"@,
            secret,
        ) is InvalidRedirectUri,
{
    reveal_strlit("/");
    let held = sessions[code].session.redirect_uri;
    assert((held + "/"@).len() == held.len() + 1);
}

/// Removes the session filed under `code` and hands it out; the code redeems nothing
/// afterwards.
pub fn get_session(state: &mut AppState, code: Code) -> (r: Result<AuthSession, InvalidParamError>)
    ensures
        match r {
            Ok(session) => old(state).sessions().contains_key(code@)
                && session@ == old(state).sessions()[code@].session,
            Err(e) => !old(state).sessions().contains_key(code@) && e
                == InvalidParamError::InvalidCode(code),
        },
        final(state).sessions() == old(state).sessions().remove(code@),
        final(state).vars() == old(state).vars(),
        final(state).user() == old(state).user(),
        final(state).generator() == old(state).generator(),
{
    match state.get_session(&code) {
        Some(session) => Ok(session),
        None => Err(InvalidParamError::InvalidCode(code)),
    }
}

/// Passes if `verifier` answers `challenge`.
pub fn verify_pkce(challenge: CodeChallenge, verifier: CodeVerifier) -> (r: Result<
    (),
    InvalidParamError,
>)
    ensures
        r == if answers(challenge@, verifier@) {
            Ok::<(), InvalidParamError>(())
        } else {
            Err::<(), InvalidParamError>(InvalidParamError::InvalidGrant(challenge, verifier))
        },
{
    if pkce::verify(&challenge, &verifier) {
        Ok(())
    } else {
        Err(InvalidParamError::InvalidGrant(challenge, verifier))
    }
}

/// Passes if the two URIs are the same text.
pub fn verify_redirect_uri(expected: Uri, got: Uri) -> (r: Result<(), InvalidParamError>)
    ensures
        r == if expected@ == got@ {
            Ok::<(), InvalidParamError>(())
        } else {
            Err::<(), InvalidParamError>(InvalidParamError::InvalidRedirectUri(expected, got))
        },
{
    if expected.same_text(&got) {
        Ok(())
    } else {
        Err(InvalidParamError::InvalidRedirectUri(expected, got))
    }
}

/// The text of a secret that may be absent.
pub open spec fn secret_text(secret: Option<SecureString>) -> Option<Seq<char>> {
    match secret {
        Some(text) => Some(text@),
        None => None,
    }
}

/// Passes if the client is public, or if the request carries the secret of the
/// confidential client.
pub fn verify_client_secret(expected: Option<SecureString>, got: Option<SecureString>) -> (r:
    Result<(), InvalidParamError>)
    ensures
        r == if secret_accepted(secret_text(expected), secret_text(got)) {
            Ok::<(), InvalidParamError>(())
        } else {
            Err::<(), InvalidParamError>(InvalidParamError::InvalidClientSecret)
        },
{
    match expected {
        None => Ok(()),
        Some(secret) => match got {
            None => Err(InvalidParamError::InvalidClientSecret),
            Some(sent) => if secret.same_text(&sent) {
                Ok(())
            } else {
                Err(InvalidParamError::InvalidClientSecret)
            },
        },
    }
}

/// The hash that binds an identity token to `access_token`: the first sixteen bytes of the
/// digest of its text, which make 22 bytes of base64.
pub fn access_token_hash(access_token: &String) -> (hash: String)
    ensures
        hash@ == at_hash(access_token@),
        hash@ == base64url_nopad(sha256_digest(encode_utf8(access_token@)).subrange(0, 16)),
        text_len(hash@) == 22,
{
    let digest = sha256(access_token.as_str().as_bytes());
    let half_length = digest.len() / 2;
    let half_hash = slice_subrange(digest.as_slice(), 0, half_length);
    base64url_encode(half_hash)
}

impl InvalidParamError {
    /// Whether this error tells of `outcome` for the request `params` against a session
    /// that holds `session`.
    pub open spec fn reports(
        self,
        outcome: Grant,
        session: AuthSessionView,
        params: TokenParams,
    ) -> bool {
        match self {
            InvalidParamError::InvalidCode(code) => outcome is InvalidCode && code@
                == params.code@,
            InvalidParamError::InvalidGrant(challenge, verifier) => outcome is InvalidGrant
                && challenge@ == session.code_challenge && verifier@ == params.code_verifier@,
            InvalidParamError::InvalidRedirectUri(expected, got) => outcome is InvalidRedirectUri
                && expected@ == session.redirect_uri && got@ == params.redirect_uri@,
            InvalidParamError::InvalidClientSecret => outcome is InvalidClientSecret,
            InvalidParamError::Jwt(_) => false,
        }
    }
}

/// Redeems the code of `params`: takes the session filed under it and holds the request
/// against that session. The code is spent whether or not the request passes.
pub fn redeem(state: &mut AppState, params: TokenParams) -> (r: Result<
    AuthSession,
    InvalidParamError,
>)
    ensures
        final(state).sessions() == old(state).sessions().remove(params.code@),
        final(state).vars() == old(state).vars(),
        final(state).user() == old(state).user(),
        final(state).generator() == old(state).generator(),
        match r {
            Ok(session) => decide(
                old(state).sessions(),
                old(state).vars().client_secret,
                params.code@,
                params.code_verifier@,
                params.redirect_uri@,
                params.client_secret_text(),
            ) is Granted && session@ == old(state).sessions()[params.code@].session,
            Err(e) => e.reports(
                decide(
                    old(state).sessions(),
                    old(state).vars().client_secret,
                    params.code@,
                    params.code_verifier@,
                    params.redirect_uri@,
                    params.client_secret_text(),
                ),
                old(state).sessions()[params.code@].session,
                params,
            ),
        },
{
    let code_verifier = params.code_verifier;
    let redirect_uri = params.redirect_uri;
    let client_secret = params.client_secret;
    let code = params.code;
    let session = match get_session(state, code) {
        Ok(session) => session,
        Err(e) => {
            return Err(e);
        },
    };
    match verify_pkce(session.code_challenge.clone(), code_verifier) {
        Ok(_) => {},
        Err(e) => {
            return Err(e);
        },
    }
    match verify_redirect_uri(session.redirect_uri.clone(), redirect_uri) {
        Ok(_) => {},
        Err(e) => {
            return Err(e);
        },
    }
    match verify_client_secret(state.client_secret(), client_secret) {
        Ok(_) => {},
        Err(e) => {
            return Err(e);
        },
    }
    Ok(session)
}

/// Builds, signs and hands out the two tokens for `session`, issued at `now` under the
/// identifiers `access_jti` and `id_jti`. The subject is the one that the session was
/// opened with. Only claims or a secret too long to be signed with are turned down.
pub fn issue(
    state: &AppState,
    session: AuthSession,
    now: UnixTime,
    access_jti: SecureString,
    id_jti: SecureString,
) -> (r: Result<TokenResponse, InvalidParamError>)
    ensures
        match r {
            Ok(response) => unsigned(session@, state.vars(), now@, access_jti@, id_jti@) is None
                && issued(session@, state.vars(), now@, access_jti@, id_jti@, response),
            Err(InvalidParamError::Jwt(e)) => unsigned(
                session@,
                state.vars(),
                now@,
                access_jti@,
                id_jti@,
            ) == Some(e),
            Err(_) => false,
        },
{
    let lifetime = state.expiration();
    let secret = state.secret();
    let access_claims = AccessToken {
        aud: state.audience(),
        auth_time: now,
        cid: session.client_id.clone(),
        exp: Expiration::after(now, lifetime),
        iat: IssuedAt::at(now),
        iss: state.issuer(),
        jti: access_jti,
        scp: session.scope,
        sub: session.user_id.clone(),
        uid: session.user_id.clone(),
        ver: CLAIMS_VERSION,
    };
    let access_token = match jwt::encode(access_claims.to_json().as_slice(), &secret) {
        Ok(token) => token,
        Err(e) => {
            return Err(InvalidParamError::Jwt(e));
        },
    };
    let mut amr: Vec<AuthenticationMethod> = Vec::new();
    amr.push(AuthenticationMethod::Pwd);
    let id_claims = IdToken {
        amr,
        at_hash: access_token_hash(&access_token),
        aud: session.client_id,
        auth_time: now,
        exp: Expiration::after(now, lifetime),
        iat: IssuedAt::at(now),
        iss: state.issuer(),
        jti: id_jti,
        sub: session.user_id,
        ver: CLAIMS_VERSION,
    };
    assert(id_claims@.amr == seq![AuthenticationMethod::Pwd]);
    let id_token = match jwt::encode(id_claims.to_json().as_slice(), &secret) {
        Ok(token) => token,
        Err(e) => {
            return Err(InvalidParamError::Jwt(e));
        },
    };
    Ok(
        TokenResponse {
            access_token,
            expires_in: lifetime,
            id_token,
            scope: session.scope,
            token_type: TokenType::Bearer,
        },
    )
}

/// Answers a token request: redeems the code, then issues the tokens at the clock's
/// reading under two fresh identifiers.
///
/// Whether the request is turned down, and with what, does not depend on the clock or on
/// what is drawn. The code is spent in every case.
pub fn token(state: &mut AppState, params: TokenParams) -> (r: Result<
    TokenResponse,
    InvalidParamError,
>)
    ensures
        final(state).sessions() == old(state).sessions().remove(params.code@),
        final(state).vars() == old(state).vars(),
        final(state).user() == old(state).user(),
        match r {
            Ok(response) => decide(
                old(state).sessions(),
                old(state).vars().client_secret,
                params.code@,
                params.code_verifier@,
                params.redirect_uri@,
                params.client_secret_text(),
            ) is Granted && exists|now: nat, access_jti: Seq<char>, id_jti: Seq<char>|
                is_random_text(access_jti) && is_random_text(id_jti) && #[trigger] issued(
                    old(state).sessions()[params.code@].session,
                    old(state).vars(),
                    now,
                    access_jti,
                    id_jti,
                    response,
                ),
            Err(InvalidParamError::Jwt(e)) => decide(
                old(state).sessions(),
                old(state).vars().client_secret,
                params.code@,
                params.code_verifier@,
                params.redirect_uri@,
                params.client_secret_text(),
            ) is Granted && exists|now: nat, access_jti: Seq<char>, id_jti: Seq<char>|
                is_random_text(access_jti) && is_random_text(id_jti) && #[trigger] unsigned(
                    old(state).sessions()[params.code@].session,
                    old(state).vars(),
                    now,
                    access_jti,
                    id_jti,
                ) == Some(e),
            Err(e) => e.reports(
                decide(
                    old(state).sessions(),
                    old(state).vars().client_secret,
                    params.code@,
                    params.code_verifier@,
                    params.redirect_uri@,
                    params.client_secret_text(),
                ),
                old(state).sessions()[params.code@].session,
                params,
            ),
        },
{
    let session = match redeem(state, params) {
        Ok(session) => session,
        Err(e) => {
            return Err(e);
        },
    };
    let now = UnixTime::now();
    let access_jti = state.gen_secure_string();
    let id_jti = state.gen_secure_string();
    let ghost held = session@;
    let ghost first = access_jti@;
    let ghost second = id_jti@;
    let r = issue(state, session, now, access_jti, id_jti);
    proof {
        if r is Ok {
            assert(issued(held, old(state).vars(), now@, first, second, r->Ok_0));
        } else if r->Err_0 is Jwt {
            assert(unsigned(held, old(state).vars(), now@, first, second) == Some(
                r->Err_0->Jwt_0,
            ));
        }
    }
    r
}

} // verus!
