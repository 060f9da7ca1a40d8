//! The settings that the server is started with.

use crate::bounded_string::SecureString;
use crate::data::Secret;
use crate::data::uri::Uri;
use crate::state::User;
use vstd::prelude::*;

verus! {

/// What the server is started with.
pub struct Configuration {
    /// Whom the access tokens are meant for.
    pub audience: Uri,
    /// The secret of a confidential client; without one, clients are public.
    pub client_secret: Option<SecureString>,
    /// Lifetime of a token in seconds.
    pub expiration: u64,
    /// Who issues the tokens.
    pub issuer: Uri,
    /// The port to listen on.
    pub port: u16,
    /// The seed of the generator that identifiers are drawn from.
    pub rng_seed: u64,
    /// The secret that tokens are signed with.
    pub secret: Secret,
    /// Seconds after which a session that nobody redeemed is dropped.
    pub session_lifetime: u64,
    /// The end user whose profile the server releases.
    pub user: User,
}

} // verus!
