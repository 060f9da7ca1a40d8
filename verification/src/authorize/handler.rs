//! The answer to an authorization request.

use crate::authorize::extractor::AuthorizeParams;
use crate::bounded_string::text_len;
use crate::crypto::is_random_text;
use crate::data::time::UnixTime;
use crate::data::uri::Uri;
use crate::parameter::Code;
use crate::parameter::State;
use crate::parameter::Subject;
use crate::session::AuthSession;
use crate::session::AuthSessionView;
use crate::session::PendingView;
use crate::session::filed_at;
use crate::session::stale;
use crate::session::stale_codes;
use crate::state::AppState;
use vstd::prelude::*;

verus! {

/// What an authorization request is answered with: the code to redeem, and where and with
/// what state value to send the client back.
#[derive(Debug, PartialEq, Eq)]
pub struct AuthorizeResponse {
    pub code: Code,
    pub redirect_uri: Uri,
    pub state: State,
}

/// The session that the request `params` opens for the end user `user_id`.
pub open spec fn opened(params: AuthorizeParams, user_id: Seq<char>) -> AuthSessionView {
    AuthSessionView {
        client_id: params.client_id@,
        code_challenge: params.code_challenge@,
        redirect_uri: params.redirect_uri@,
        scope: params.scope@,
        user_id,
    }
}

/// The pending sessions after a request has been answered at `now` with `code`: those that
/// had outlived their lifetime are gone, and `session` is filed under `code` as of `now`.
pub open spec fn filed(
    sessions: Map<Seq<char>, PendingView>,
    lifetime: u64,
    code: Seq<char>,
    session: AuthSessionView,
    now: nat,
) -> Map<Seq<char>, PendingView> {
    sessions.remove_keys(stale_codes(sessions, now, lifetime as nat)).insert(
        code,
        filed_at(session, now),
    )
}

/// Answers an authorization request at `now`: drops the sessions that have outlived their
/// lifetime, files the session that `params` opens for `user_id` under `code`, and answers
/// with that code.
pub fn open_session(
    state: &mut AppState,
    params: AuthorizeParams,
    user_id: Subject,
    code: Code,
    now: UnixTime,
) -> (response: AuthorizeResponse)
    ensures
        final(state).sessions() == filed(
            old(state).sessions(),
            old(state).vars().session_lifetime,
            code@,
            opened(params, user_id@),
            now@,
        ),
        final(state).vars() == old(state).vars(),
        final(state).user() == old(state).user(),
        final(state).generator() == old(state).generator(),
        response.code@ == code@,
        response.redirect_uri@ == params.redirect_uri@,
        response.state@ == params.state@,
{
    let session = AuthSession {
        client_id: params.client_id,
        code_challenge: params.code_challenge,
        redirect_uri: params.redirect_uri.clone(),
        scope: params.scope,
        user_id,
    };
    let lifetime = state.session_lifetime();
    let _ = state.sweep_sessions(now, lifetime);
    state.set_session_at(code.clone(), session, now);
    AuthorizeResponse { code, redirect_uri: params.redirect_uri, state: params.state }
}

/// Answers an authorization request at the clock's reading: draws an identifier for the end
/// user and a fresh code of 28 bytes, drops the sessions that have outlived their lifetime, and files
/// the new session under the code.
pub fn authorize(state: &mut AppState, params: AuthorizeParams) -> (response: AuthorizeResponse)
    ensures
        is_random_text(response.code@),
        text_len(response.code@) == 28,
        exists|user_id: Seq<char>, now: nat|
            is_random_text(user_id) && final(state).sessions() == #[trigger] filed(
                old(state).sessions(),
                old(state).vars().session_lifetime,
                response.code@,
                opened(params, user_id),
                now,
            ),
        final(state).vars() == old(state).vars(),
        final(state).user() == old(state).user(),
        response.redirect_uri@ == params.redirect_uri@,
        response.state@ == params.state@,
{
    let user_id = Subject::new(state.gen_secure_string());
    let code = Code::new(state.gen_secure_string());
    let now = UnixTime::now();
    let ghost drawn = user_id@;
    let response = open_session(state, params, user_id, code, now);
    proof {
        assert(state.sessions() == filed(
            old(state).sessions(),
            old(state).vars().session_lifetime,
            response.code@,
            opened(params, drawn),
            now@,
        ));
    }
    response
}

/// A session that has not outlived its lifetime when the next request is answered is still
/// pending afterwards, and one that has is gone, unless the new code is its own.
pub proof fn lemma_sessions_outlive_requests(
    sessions: Map<Seq<char>, PendingView>,
    lifetime: u64,
    code: Seq<char>,
    session: AuthSessionView,
    now: nat,
    other: Seq<char>,
)
    requires
        sessions.contains_key(other),
        other != code,
    ensures
        !stale(sessions[other], now, lifetime as nat) ==> filed(
            sessions,
            lifetime,
            code,
            session,
            now,
        ).contains_key(other) && filed(sessions, lifetime, code, session, now)[other]
            == sessions[other],
        stale(sessions[other], now, lifetime as nat) ==> !filed(
            sessions,
            lifetime,
            code,
            session,
            now,
        ).contains_key(other),
        filed(sessions, lifetime, code, session, now).contains_key(code),
        filed(sessions, lifetime, code, session, now)[code] == filed_at(session, now),
{
}

} // verus!
