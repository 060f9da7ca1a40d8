//! The claims of an access token: how they are written down and what they must meet.

use crate::bounded_string::SecureString;
use crate::data::json::comma_separated;
use crate::data::json::decimal;
use crate::data::json::json_list;
use crate::data::json::json_text;
use crate::data::json::member;
use crate::data::json::write_name;
use crate::data::json::write_number;
use crate::data::json::write_text;
use crate::data::scope::Scope;
use crate::data::scope::ScopeSet;
use crate::data::scope::ordered;
use crate::data::time::Expiration;
use crate::data::time::IssuedAt;
use crate::data::time::UnixTime;
use crate::data::uri::Uri;
use crate::parameter::ClientId;
use crate::parameter::Subject;
use crate::state::AppState;
use vstd::prelude::*;
use vstd::string::StringExecFns;

verus! {

/// The claims of an access token.
#[derive(Debug, PartialEq, Eq)]
pub struct AccessToken {
    /// Whom the token is meant for.
    pub aud: Uri,
    /// When the end user was authenticated.
    pub auth_time: UnixTime,
    /// The client that the token was issued to.
    pub cid: ClientId,
    /// When the token stops being valid.
    pub exp: Expiration,
    /// When the token was issued.
    pub iat: IssuedAt,
    /// Who issued the token.
    pub iss: Uri,
    /// The identifier of the token itself.
    pub jti: SecureString,
    /// The scopes that were granted.
    pub scp: ScopeSet,
    /// The end user.
    pub sub: Subject,
    /// The end user, once more.
    pub uid: Subject,
    /// The version of the layout of the claims.
    pub ver: u32,
}

/// The claims of an access token as plain values.
pub ghost struct AccessTokenView {
    pub aud: Seq<char>,
    pub auth_time: nat,
    pub cid: Seq<char>,
    pub exp: nat,
    pub iat: nat,
    pub iss: Seq<char>,
    pub jti: Seq<char>,
    pub scp: Set<Scope>,
    pub sub: Seq<char>,
    pub uid: Seq<char>,
    pub ver: nat,
}

impl View for AccessToken {
    type V = AccessTokenView;

    open spec fn view(&self) -> AccessTokenView {
        AccessTokenView {
            aud: self.aud@,
            auth_time: self.auth_time@,
            cid: self.cid@,
            exp: self.exp@,
            iat: self.iat@,
            iss: self.iss@,
            jti: self.jti@,
            scp: self.scp@,
            sub: self.sub@,
            uid: self.uid@,
            ver: self.ver as nat,
        }
    }
}

/// The names of `scopes` as JSON strings.
pub open spec fn scope_items(scopes: Seq<Scope>) -> Seq<Seq<u8>> {
    Seq::new(scopes.len(), |i: int| json_text(scopes[i].lower_name()))
}

/// A comma, which stands between the members of an object.
pub open spec fn comma() -> Seq<u8> {
    seq![0x2cu8]
}

impl AccessTokenView {
    /// The claims as the JSON object that is signed: the members in the order of their
    /// names, the scopes in the order in which `Scope` lists them, nothing between the
    /// tokens.
    pub open spec fn json(self) -> Seq<u8> {
        seq![0x7bu8] + member("aud"@, json_text(self.aud)) + comma() + member(
            "auth_time"@,
            decimal(self.auth_time),
        ) + comma() + member("cid"@, json_text(self.cid)) + comma() + member(
            "exp"@,
            decimal(self.exp),
        ) + comma() + member("iat"@, decimal(self.iat)) + comma() + member(
            "iss"@,
            json_text(self.iss),
        ) + comma() + member("jti"@, json_text(self.jti)) + comma() + member(
            "scp"@,
            json_list(scope_items(ordered(self.scp))),
        ) + comma() + member("sub"@, json_text(self.sub)) + comma() + member(
            "uid"@,
            json_text(self.uid),
        ) + comma() + member("ver"@, decimal(self.ver)) + seq![0x7du8]
    }
}

/// Appends a member whose value is a text to `out`.
pub fn write_text_member(out: &mut Vec<u8>, name: &str, text: &str)
    ensures
        final(out)@ == old(out)@ + member(name@, json_text(text@)),
{
    write_name(out, name);
    write_text(out, text);
    assert(out@ == old(out)@ + member(name@, json_text(text@)));
}

/// Appends a member whose value is a number to `out`.
pub fn write_number_member(out: &mut Vec<u8>, name: &str, n: u64)
    ensures
        final(out)@ == old(out)@ + member(name@, decimal(n as nat)),
{
    write_name(out, name);
    write_number(out, n);
    assert(out@ == old(out)@ + member(name@, decimal(n as nat)));
}

/// Appends the names of the scopes of `set` to `out` as a JSON array.
pub fn write_scopes(out: &mut Vec<u8>, set: &ScopeSet)
    ensures
        final(out)@ == old(out)@ + json_list(scope_items(ordered(set@))),
{
    let scopes = set.to_vec();
    let ghost items = scope_items(scopes@);
    out.push(0x5b);
    let mut i: usize = 0;
    while i < scopes.len()
        invariant
            i <= scopes@.len(),
            items == scope_items(scopes@),
            out@ == old(out)@ + seq![0x5bu8] + comma_separated(items.take(i as int)),
        decreases scopes@.len() - i,
    {
        if i > 0 {
            out.push(0x2c);
        }
        write_text(out, scopes[i].name());
        proof {
            let next = items.take(i + 1);
            assert(next.drop_last() == items.take(i as int));
            assert(next.last() == json_text(scopes@[i as int].lower_name()));
            assert(out@ == old(out)@ + seq![0x5bu8] + comma_separated(next));
        }
        i = i + 1;
    }
    assert(items.take(i as int) == items);
    out.push(0x5d);
    assert(out@ == old(out)@ + json_list(items));
}

/// Why the claims of an access token do not release the profile.
#[derive(Debug, PartialEq, Eq)]
pub enum Error {
    /// The issuer of the token, which comes first, is not the configured one.
    InvalidIssuer(Uri, Uri),
    /// The expiry of the token is not in the future.
    Expired,
    /// The token lacks this scope.
    MissingScope(Scope),
    /// The token holds none of these scopes.
    MissingScopes(ScopeSet),
}

/// What holding claims against the settings comes to.
pub enum Verdict {
    Valid,
    InvalidIssuer,
    Expired,
    MissingOpenid,
    MissingScopes,
}

/// Holds claims against the configured issuer, the clock and the scopes of which one is
/// required, in this order. A token expires at its expiry, not after it.
pub open spec fn verdict(
    claims: AccessTokenView,
    issuer: Seq<char>,
    required: Set<Scope>,
    now: nat,
) -> Verdict {
    if claims.iss != issuer {
        Verdict::InvalidIssuer
    } else if claims.exp <= now {
        Verdict::Expired
    } else if !claims.scp.contains(Scope::Openid) {
        Verdict::MissingOpenid
    } else if claims.scp.disjoint(required) {
        Verdict::MissingScopes
    } else {
        Verdict::Valid
    }
}

impl Error {
    /// Whether this error tells of `outcome` for claims of issuer `found`, where `issuer` is
    /// configured and one of `required` is asked for.
    pub open spec fn reports(
        self,
        outcome: Verdict,
        found: Seq<char>,
        issuer: Seq<char>,
        required: Set<Scope>,
    ) -> bool {
        match self {
            Error::InvalidIssuer(got, expected) => outcome is InvalidIssuer && got@ == found
                && expected@ == issuer,
            Error::Expired => outcome is Expired,
            Error::MissingScope(scope) => outcome is MissingOpenid && scope == Scope::Openid,
            Error::MissingScopes(scopes) => outcome is MissingScopes && scopes@ == required,
        }
    }
}

impl AccessToken {
    /// The claims as the JSON object that is signed.
    pub fn to_json(&self) -> (json: Vec<u8>)
        ensures
            json@ == self@.json(),
    {
        let mut out: Vec<u8> = Vec::new();
        out.push(0x7b);
        write_text_member(&mut out, "aud", self.aud.as_str());
        out.push(0x2c);
        write_number_member(&mut out, "auth_time", self.auth_time.as_secs());
        out.push(0x2c);
        write_text_member(&mut out, "cid", self.cid.as_str());
        out.push(0x2c);
        write_number_member(&mut out, "exp", self.exp.as_secs());
        out.push(0x2c);
        write_number_member(&mut out, "iat", self.iat.as_secs());
        out.push(0x2c);
        write_text_member(&mut out, "iss", self.iss.as_str());
        out.push(0x2c);
        write_text_member(&mut out, "jti", self.jti.as_str());
        out.push(0x2c);
        write_name(&mut out, "scp");
        write_scopes(&mut out, &self.scp);
        out.push(0x2c);
        write_text_member(&mut out, "sub", self.sub.as_str());
        out.push(0x2c);
        write_text_member(&mut out, "uid", self.uid.as_str());
        out.push(0x2c);
        write_number_member(&mut out, "ver", self.ver as u64);
        out.push(0x7d);
        assert(out@ == self@.json());
        out
    }

    /// Whether `r` is what holding these claims against the settings of `state` comes to
    /// once the clock reads `now`: the issuer is tested first, then the expiry, then the
    /// scopes. An error for the issuer carries the issuer of the token first and the
    /// configured one second.
    pub open spec fn judged(&self, state: &AppState, now: nat, r: Result<(), Error>) -> bool {
        match r {
            Ok(_) => verdict(
                self@,
                state.vars().issuer,
                state.vars().required_scopes,
                now,
            ) is Valid,
            Err(e) => e.reports(
                verdict(self@, state.vars().issuer, state.vars().required_scopes, now),
                self@.iss,
                state.vars().issuer,
                state.vars().required_scopes,
            ),
        }
    }

    /// Holds the claims against the settings of `state` once the clock reads `now`.
    pub fn validate_at(&self, state: &AppState, now: UnixTime) -> (r: Result<(), Error>)
        ensures
            self.judged(state, now@, r),
    {
        let issuer = state.issuer();
        if !self.iss.same_text(&issuer) {
            return Err(Error::InvalidIssuer(self.iss.clone(), issuer));
        }
        if self.exp.expired_at(now) {
            return Err(Error::Expired);
        }
        if !self.scp.contains(&Scope::Openid) {
            return Err(Error::MissingScope(Scope::Openid));
        }
        let required = state.required_scopes();
        if self.scp.is_disjoint(&required) {
            return Err(Error::MissingScopes(required));
        }
        Ok(())
    }

    /// Holds the claims against the settings of `state` and the system clock: the result is
    /// what `validate_at` gives for the clock's reading. Whatever the clock reads, claims of
    /// another issuer are turned down with their issuer and the configured one, and claims
    /// of the configured issuer that expire at the epoch as expired.
    pub fn validate(&self, state: &AppState) -> (r: Result<(), Error>)
        ensures
            exists|now: nat| #[trigger] self.judged(state, now, r),
            self@.iss != state.vars().issuer ==> (r matches Err(
                Error::InvalidIssuer(found, expected),
            ) && found@ == self@.iss && expected@ == state.vars().issuer),
            self@.iss == state.vars().issuer && self@.exp == 0 ==> r == Err::<(), Error>(
                Error::Expired,
            ),
    {
        let now = UnixTime::now();
        let r = self.validate_at(state, now);
        assert(self.judged(state, now@, r));
        r
    }
}

/// The names of the scopes of `set`, each followed by a comma and a space.
pub open spec fn displayed(scopes: Seq<Scope>) -> Seq<char>
    decreases scopes.len(),
{
    if scopes.len() == 0 {
        Seq::empty()
    } else {
        displayed(scopes.drop_last()) + scopes.last().lower_name() + ", "@
    }
}

/// The names of the scopes of `scopes` for a message, each followed by a comma and a space.
pub fn display(scopes: &ScopeSet) -> (text: String)
    ensures
        text@ == displayed(ordered(scopes@)),
{
    let list = scopes.to_vec();
    let mut text = String::new();
    let mut i: usize = 0;
    while i < list.len()
        invariant
            i <= list@.len(),
            text@ == displayed(list@.take(i as int)),
        decreases list@.len() - i,
    {
        text.append(list[i].name());
        text.append(", ");
        proof {
            let next = list@.take(i + 1);
            assert(next.drop_last() == list@.take(i as int));
            assert(next.last() == list@[i as int]);
        }
        i = i + 1;
    }
    assert(list@.take(i as int) == list@);
    text
}

} // verus!
