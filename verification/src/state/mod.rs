//! The state of the server: the pending sessions, the generator of identifiers, the end
//! user and the settings.

use crate::bounded_string::text_len;
use crate::bounded_string::NonEmptyString;
use crate::bounded_string::SecureString;
use crate::config::Configuration;
use crate::crypto::is_random_text;
use crate::crypto::random_secure_string;
use crate::crypto::seeded_rng;
use crate::data::Secret;
use crate::data::scope::Scope;
use crate::data::scope::ScopeSet;
use crate::data::time::UnixTime;
use crate::data::uri::Uri;
use crate::parameter::Code;
use crate::session::AuthSession;
use crate::session::PendingView;
use crate::session::SessionStore;
use crate::session::filed_at;
use crate::session::kept_for_good;
use crate::session::stale_codes;
use vstd::prelude::*;

verus! {

/// A postal address.
#[derive(Debug, PartialEq, Eq)]
pub struct Address {
    pub country: NonEmptyString,
    pub locality: NonEmptyString,
    pub postal_code: NonEmptyString,
    pub region: NonEmptyString,
    pub street_address: NonEmptyString,
}

/// A postal address as plain values.
pub ghost struct AddressView {
    pub country: Seq<char>,
    pub locality: Seq<char>,
    pub postal_code: Seq<char>,
    pub region: Seq<char>,
    pub street_address: Seq<char>,
}

impl View for Address {
    type V = AddressView;

    open spec fn view(&self) -> AddressView {
        AddressView {
            country: self.country@,
            locality: self.locality@,
            postal_code: self.postal_code@,
            region: self.region@,
            street_address: self.street_address@,
        }
    }
}

impl Clone for Address {
    fn clone(&self) -> (copy: Self)
        ensures
            copy@ == self@,
    {
        Address {
            country: self.country.clone(),
            locality: self.locality.clone(),
            postal_code: self.postal_code.clone(),
            region: self.region.clone(),
            street_address: self.street_address.clone(),
        }
    }
}

/// The profile of an end user.
#[derive(Debug, PartialEq, Eq)]
pub struct User {
    pub address: Address,
    pub email_verified: bool,
    pub email: NonEmptyString,
    pub family_name: NonEmptyString,
    pub given_name: NonEmptyString,
    pub locale: NonEmptyString,
    pub middle_name: NonEmptyString,
    pub name: NonEmptyString,
    pub nickname: NonEmptyString,
    pub phone_number: NonEmptyString,
    pub updated_at: u64,
    pub zoneinfo: NonEmptyString,
}

/// The profile of an end user as plain values.
pub ghost struct UserView {
    pub address: AddressView,
    pub email_verified: bool,
    pub email: Seq<char>,
    pub family_name: Seq<char>,
    pub given_name: Seq<char>,
    pub locale: Seq<char>,
    pub middle_name: Seq<char>,
    pub name: Seq<char>,
    pub nickname: Seq<char>,
    pub phone_number: Seq<char>,
    pub updated_at: u64,
    pub zoneinfo: Seq<char>,
}

impl View for User {
    type V = UserView;

    open spec fn view(&self) -> UserView {
        UserView {
            address: self.address@,
            email_verified: self.email_verified,
            email: self.email@,
            family_name: self.family_name@,
            given_name: self.given_name@,
            locale: self.locale@,
            middle_name: self.middle_name@,
            name: self.name@,
            nickname: self.nickname@,
            phone_number: self.phone_number@,
            updated_at: self.updated_at,
            zoneinfo: self.zoneinfo@,
        }
    }
}

impl Clone for User {
    fn clone(&self) -> (copy: Self)
        ensures
            copy@ == self@,
    {
        User {
            address: self.address.clone(),
            email_verified: self.email_verified,
            email: self.email.clone(),
            family_name: self.family_name.clone(),
            given_name: self.given_name.clone(),
            locale: self.locale.clone(),
            middle_name: self.middle_name.clone(),
            name: self.name.clone(),
            nickname: self.nickname.clone(),
            phone_number: self.phone_number.clone(),
            updated_at: self.updated_at,
            zoneinfo: self.zoneinfo.clone(),
        }
    }
}

/// What every request reads and none changes.
pub struct Vars {
    pub audience: Uri,
    pub client_secret: Option<SecureString>,
    pub expiration: u64,
    pub issuer: Uri,
    pub secret: Secret,
    pub session_lifetime: u64,
    pub required_scopes: ScopeSet,
}

/// The server's settings as plain values.
pub ghost struct VarsView {
    pub audience: Seq<char>,
    pub client_secret: Option<Seq<char>>,
    pub expiration: u64,
    pub issuer: Seq<char>,
    pub secret: Seq<u8>,
    pub session_lifetime: u64,
    pub required_scopes: Set<Scope>,
}

/// The scopes of which an access token must hold at least one for the profile to be
/// released.
pub open spec fn profile_scopes() -> Set<Scope> {
    set![Scope::Profile, Scope::Email, Scope::Address, Scope::Phone]
}

impl View for Vars {
    type V = VarsView;

    open spec fn view(&self) -> VarsView {
        VarsView {
            audience: self.audience@,
            client_secret: match self.client_secret {
                Some(secret) => Some(secret@),
                None => None,
            },
            expiration: self.expiration,
            issuer: self.issuer@,
            secret: self.secret@,
            session_lifetime: self.session_lifetime,
            required_scopes: self.required_scopes@,
        }
    }
}

impl Vars {
    /// The settings that `config` asks for. The profile is released to a token that holds
    /// one of the scopes profile, email, address and phone.
    pub fn from(config: Configuration) -> (vars: Self)
        ensures
            vars@ == (VarsView {
                audience: config.audience@,
                client_secret: match config.client_secret {
                    Some(secret) => Some(secret@),
                    None => None,
                },
                expiration: config.expiration,
                issuer: config.issuer@,
                secret: config.secret@,
                session_lifetime: config.session_lifetime,
                required_scopes: profile_scopes(),
            }),
    {
        let required = ScopeSet::empty().with(Scope::Profile).with(Scope::Email).with(
            Scope::Address,
        ).with(Scope::Phone);
        assert(required@ == profile_scopes());
        Vars {
            audience: config.audience,
            client_secret: config.client_secret,
            expiration: config.expiration,
            issuer: config.issuer,
            secret: config.secret,
            session_lifetime: config.session_lifetime,
            required_scopes: required,
        }
    }
}

/// All that the server holds: the pending sessions, the generator of identifiers, the end
/// user and the settings.
pub struct State {
    pub auth_sessions: SessionStore,
    pub rng: rand::rngs::StdRng,
    pub user: User,
    pub vars: Vars,
}

/// The state of the server, through which every request goes.
pub struct AppState(pub State);

impl AppState {
    /// The pending sessions by their codes.
    pub open spec fn sessions(&self) -> Map<Seq<char>, PendingView> {
        self.0.auth_sessions@
    }

    /// The settings.
    pub open spec fn vars(&self) -> VarsView {
        self.0.vars@
    }

    /// The end user.
    pub open spec fn user(&self) -> UserView {
        self.0.user@
    }

    /// The generator that identifiers are drawn from.
    pub open spec fn generator(&self) -> rand::rngs::StdRng {
        self.0.rng
    }

    /// Whether `other` differs from this state in nothing but the generator.
    pub open spec fn same_but_rng(&self, other: &AppState) -> bool {
        &&& self.sessions() == other.sessions()
        &&& self.vars() == other.vars()
        &&& self.user() == other.user()
    }

    /// The state that `configuration` asks for, without any pending session.
    pub fn from(configuration: Configuration) -> (state: Self)
        ensures
            state.sessions() == Map::<Seq<char>, PendingView>::empty(),
            state.user() == configuration.user@,
            state.vars() == (VarsView {
                audience: configuration.audience@,
                client_secret: match configuration.client_secret {
                    Some(secret) => Some(secret@),
                    None => None,
                },
                expiration: configuration.expiration,
                issuer: configuration.issuer@,
                secret: configuration.secret@,
                session_lifetime: configuration.session_lifetime,
                required_scopes: profile_scopes(),
            }),
    {
        let rng = seeded_rng(configuration.rng_seed);
        let user = configuration.user.clone();
        AppState(
            State {
                auth_sessions: SessionStore::new(),
                rng,
                user,
                vars: Vars::from(configuration),
            },
        )
    }

    /// Removes the session filed under `code` and hands it out, if there is one.
    pub fn get_session(&mut self, code: &Code) -> (session: Option<AuthSession>)
        ensures
            match session {
                Some(found) => old(self).sessions().contains_key(code@)
                    && found@ == old(self).sessions()[code@].session,
                None => !old(self).sessions().contains_key(code@),
            },
            final(self).sessions() == old(self).sessions().remove(code@),
            final(self).vars() == old(self).vars(),
            final(self).user() == old(self).user(),
            final(self).generator() == old(self).generator(),
    {
        self.0.auth_sessions.take(code)
    }

    /// Files `session` under `code`, in place of what stood there and without a record of
    /// when.
    pub fn set_session(&mut self, code: Code, session: AuthSession)
        ensures
            final(self).sessions() == old(self).sessions().insert(
                code@,
                kept_for_good(session@),
            ),
            final(self).vars() == old(self).vars(),
            final(self).user() == old(self).user(),
            final(self).generator() == old(self).generator(),
    {
        self.0.auth_sessions.put(code, session)
    }

    /// Files `session` under `code` as of `now`, in place of what stood there.
    pub fn set_session_at(&mut self, code: Code, session: AuthSession, now: UnixTime)
        ensures
            final(self).sessions() == old(self).sessions().insert(
                code@,
                filed_at(session@, now@),
            ),
            final(self).vars() == old(self).vars(),
            final(self).user() == old(self).user(),
            final(self).generator() == old(self).generator(),
    {
        self.0.auth_sessions.put_at(code, session, now)
    }

    /// Removes the sessions that have outlived `lifetime` seconds once the clock reads
    /// `now`, and says how many they were.
    pub fn sweep_sessions(&mut self, now: UnixTime, lifetime: u64) -> (removed: usize)
        ensures
            final(self).sessions() == old(self).sessions().remove_keys(
                stale_codes(old(self).sessions(), now@, lifetime as nat),
            ),
            final(self).vars() == old(self).vars(),
            final(self).user() == old(self).user(),
            final(self).generator() == old(self).generator(),
    {
        self.0.auth_sessions.sweep(now, lifetime)
    }

    /// The profile of the end user.
    pub fn get_user(&self) -> (user: User)
        ensures
            user@ == self.user(),
    {
        self.0.user.clone()
    }

    /// Draws a fresh identifier, of 28 bytes.
    pub fn gen_secure_string(&mut self) -> (id: SecureString)
        ensures
            is_random_text(id@),
            text_len(id@) == 28,
            old(self).same_but_rng(final(self)),
    {
        random_secure_string(&mut self.0.rng)
    }

    /// Whom the access tokens are meant for.
    pub fn audience(&self) -> (audience: Uri)
        ensures
            audience@ == self.vars().audience,
    {
        self.0.vars.audience.clone()
    }

    /// The secret of a confidential client, if clients are confidential.
    pub fn client_secret(&self) -> (secret: Option<SecureString>)
        ensures
            match secret {
                Some(text) => self.vars().client_secret == Some(text@),
                None => self.vars().client_secret is None,
            },
    {
        match &self.0.vars.client_secret {
            Some(secret) => Some(secret.clone()),
            None => None,
        }
    }

    /// Lifetime of a token in seconds.
    pub fn expiration(&self) -> (seconds: u64)
        ensures
            seconds == self.vars().expiration,
    {
        self.0.vars.expiration
    }

    /// Who issues the tokens.
    pub fn issuer(&self) -> (issuer: Uri)
        ensures
            issuer@ == self.vars().issuer,
    {
        self.0.vars.issuer.clone()
    }

    /// The secret that tokens are signed with.
    pub fn secret(&self) -> (secret: Secret)
        ensures
            secret@ == self.vars().secret,
    {
        self.0.vars.secret.clone()
    }

    /// Seconds after which a session that nobody redeemed is dropped.
    pub fn session_lifetime(&self) -> (seconds: u64)
        ensures
            seconds == self.vars().session_lifetime,
    {
        self.0.vars.session_lifetime
    }

    /// The scopes of which an access token must hold at least one.
    pub fn required_scopes(&self) -> (scopes: ScopeSet)
        ensures
            scopes@ == self.vars().required_scopes,
    {
        self.0.vars.required_scopes
    }
}

} // verus!
