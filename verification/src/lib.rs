//! The protocol core of an OpenID Connect provider that speaks the authorization code flow
//! with PKCE: it checks the fields of the requests, files each grant under a one-time code,
//! redeems the code for signed tokens, and holds a bearer token against its claims before the
//! profile of the end user is released.
//!
//! Transport, rendering and the loading of settings are left to the program around it, which
//! hands over plain values and gets typed answers back. The functions state what they return
//! or change, and the statements are proved; where an answer hangs on the clock or on what
//! is drawn, a function beside it takes both as arguments and is exact. What is taken on
//! trust of other crates stands in `crypto`, `data::uri` and `data::time`, each item with a
//! note of what it claims.

pub mod authorize;
pub mod bounded_string;
pub mod config;
pub mod crypto;
pub mod data;
pub mod parameter;
pub mod session;
pub mod state;
pub mod text;
pub mod token;
pub mod userinfo;
