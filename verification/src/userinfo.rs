//! The profile endpoint: a bearer token is held against its claims, the claims against the
//! settings.

use crate::data::access_token;
use crate::data::access_token::AccessToken;
use crate::data::access_token::AccessTokenView;
use crate::data::access_token::verdict;
use crate::data::scope::Scope;
use crate::data::time::UnixTime;
use crate::data::time::later_by;
use crate::session::AuthSessionView;
use crate::state::AppState;
use crate::state::User;
use crate::state::VarsView;
use crate::text::same_text;
use crate::token::handler::TokenResponse;
use crate::token::handler::access_claims;
use crate::token::handler::issued;
use crate::token::handler::unsigned;
use crate::token::jwt;
use crate::token::jwt::compact;
use vstd::prelude::*;

verus! {

/// Why the profile is not released.
#[derive(Debug, PartialEq, Eq)]
pub enum Error {
    /// The bearer token is not the signed form of the claims it is said to carry.
    InvalidToken,
    /// The claims of the token do not release the profile.
    InvalidClaim(access_token::Error),
}

impl Error {
    /// The HTTP status that the error is answered with: 401 for a token that is not
    /// genuine, 403 for claims that do not suffice.
    pub fn status_code(&self) -> (status: u16)
        ensures
            status == if self is InvalidToken {
                401u16
            } else {
                403u16
            },
    {
        match self {
            Error::InvalidToken => 401,
            Error::InvalidClaim(_) => 403,
        }
    }
}

/// Whether `bearer` is the token that carries `claims` under the secret of `vars`.
pub open spec fn genuine(bearer: Seq<char>, claims: AccessTokenView, vars: VarsView) -> bool {
    jwt::refusal(claims.json().len(), vars.secret.len()) is None && bearer == compact(
        claims.json(),
        vars.secret,
    )
}

/// Holds `bearer` against `claims`, which the transport has read out of it: the claims are
/// signed anew under the configured secret, and the token must be the result to the
/// letter. So the signature is verified, and the claims that are handed on are those that
/// were signed.
pub fn decode_access_token(state: &AppState, bearer: &str, claims: AccessToken) -> (r: Result<
    AccessToken,
    Error,
>)
    ensures
        r == if genuine(bearer@, claims@, state.vars()) {
            Ok::<AccessToken, Error>(claims)
        } else {
            Err::<AccessToken, Error>(Error::InvalidToken)
        },
{
    let secret = state.secret();
    match jwt::encode(claims.to_json().as_slice(), &secret) {
        Ok(signed) => if same_text(signed.as_str(), bearer) {
            Ok(claims)
        } else {
            Err(Error::InvalidToken)
        },
        Err(_) => Err(Error::InvalidToken),
    }
}

/// Whether `r` is what a request for the profile with `bearer` and `claims` is answered with
/// once the clock reads `now`: a token that is not genuine is turned down as such; the
/// claims of a genuine one are held against the settings, and the profile of the end user
/// is released if they stand.
pub open spec fn answered(
    state: &AppState,
    bearer: Seq<char>,
    claims: AccessTokenView,
    now: nat,
    r: Result<User, Error>,
) -> bool {
    match r {
        Ok(user) => genuine(bearer, claims, state.vars()) && verdict(
            claims,
            state.vars().issuer,
            state.vars().required_scopes,
            now,
        ) is Valid && user@ == state.user(),
        Err(Error::InvalidToken) => !genuine(bearer, claims, state.vars()),
        Err(Error::InvalidClaim(e)) => genuine(bearer, claims, state.vars()) && e.reports(
            verdict(claims, state.vars().issuer, state.vars().required_scopes, now),
            claims.iss,
            state.vars().issuer,
            state.vars().required_scopes,
        ),
    }
}

/// Releases the profile of the end user to `bearer` once the clock reads `now`: the token
/// must be genuine, and its claims must stand against the settings.
pub fn userinfo_at(state: &AppState, bearer: &str, claims: AccessToken, now: UnixTime) -> (r:
    Result<User, Error>)
    ensures
        answered(state, bearer@, claims@, now@, r),
{
    let access_token = match decode_access_token(state, bearer, claims) {
        Ok(access_token) => access_token,
        Err(e) => {
            return Err(e);
        },
    };
    match access_token.validate_at(state, now) {
        Ok(_) => Ok(state.get_user()),
        Err(e) => Err(Error::InvalidClaim(e)),
    }
}

/// Releases the profile of the end user to `bearer` by the system clock: the result is what
/// `userinfo_at` gives for the clock's reading. Whatever the clock reads, a token is turned
/// down as not genuine exactly if it is not, and no profile but that of the end user is
/// released.
pub fn userinfo(state: &AppState, bearer: &str, claims: AccessToken) -> (r: Result<User, Error>)
    ensures
        exists|now: nat| #[trigger] answered(state, bearer@, claims@, now, r),
        r == Err::<User, Error>(Error::InvalidToken) <==> !genuine(
            bearer@,
            claims@,
            state.vars(),
        ),
        r matches Ok(user) ==> user@ == state.user(),
{
    let now = UnixTime::now();
    let ghost held = claims@;
    let r = userinfo_at(state, bearer, claims, now);
    assert(answered(state, bearer@, held, now@, r));
    r
}

/// The access token of an answer to a token request is genuine: it carries the claims that
/// were issued, under the secret that they were signed with.
pub proof fn lemma_issued_token_is_genuine(
    session: AuthSessionView,
    vars: VarsView,
    now: nat,
    access_jti: Seq<char>,
    id_jti: Seq<char>,
    response: TokenResponse,
)
    requires
        unsigned(session, vars, now, access_jti, id_jti) is None,
        issued(session, vars, now, access_jti, id_jti, response),
    ensures
        genuine(response.access_token@, access_claims(session, vars, now, access_jti), vars),
{
}

/// The claims issued for a session that asked for openid and for one of the required scopes
/// release the profile from the second they are issued until the second before they
/// expire, and are expired from then on.
pub proof fn lemma_issued_claims_release_the_profile(
    session: AuthSessionView,
    vars: VarsView,
    issued_at: nat,
    jti: Seq<char>,
    now: nat,
)
    requires
        session.scope.contains(Scope::Openid),
        !session.scope.disjoint(vars.required_scopes),
    ensures
        now < later_by(issued_at, vars.expiration as nat) ==> verdict(
            access_claims(session, vars, issued_at, jti),
            vars.issuer,
            vars.required_scopes,
            now,
        ) is Valid,
        now >= later_by(issued_at, vars.expiration as nat) ==> verdict(
            access_claims(session, vars, issued_at, jti),
            vars.issuer,
            vars.required_scopes,
            now,
        ) is Expired,
{
}

/// A token expires at its expiry, not after it: claims of the configured issuer are
/// expired once the clock reads their expiry, whatever their scopes.
pub proof fn lemma_expiry_is_exclusive(
    claims: AccessTokenView,
    issuer: Seq<char>,
    required: Set<Scope>,
)
    requires
        claims.iss == issuer,
    ensures
        verdict(claims, issuer, required, claims.exp) is Expired,
        forall|now: nat| now >= claims.exp ==> #[trigger] verdict(claims, issuer, required, now)
            is Expired,
        forall|now: nat| now < claims.exp ==> !(#[trigger] verdict(claims, issuer, required, now)
            is Expired),
{
}

} // verus!
