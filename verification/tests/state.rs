use oidc_core::bounded_string::NonEmptyString;
use oidc_core::bounded_string::SecureString;
use oidc_core::config::Configuration;
use oidc_core::data::Secret;
use oidc_core::data::scope::Scope;
use oidc_core::data::scope::ScopeSet;
use oidc_core::data::uri::Uri;
use oidc_core::state::Address;
use oidc_core::state::AppState;
use oidc_core::state::User;
use oidc_core::state::Vars;

fn field_text(text: &str) -> NonEmptyString {
    NonEmptyString::try_from(text).unwrap()
}

fn end_user() -> User {
    User {
        address: Address {
            country: field_text("Italy"),
            locality: field_text("Milan"),
            postal_code: field_text("20100"),
            region: field_text("Lombardy"),
            street_address: field_text("Via Roma 1"),
        },
        email_verified: false,
        email: field_text("jane@example.com"),
        family_name: field_text("Doe"),
        given_name: field_text("Jane"),
        locale: field_text("en"),
        middle_name: field_text("Q"),
        name: field_text("Jane Q Doe"),
        nickname: field_text("jd"),
        phone_number: field_text("+39 02 0000"),
        updated_at: 12,
        zoneinfo: field_text("Europe/Rome"),
    }
}

fn settings(seed: u64) -> Configuration {
    Configuration {
        audience: Uri::try_from("https://api.example/").unwrap(),
        client_secret: Some(SecureString::try_from("client-secret-0123456789").unwrap()),
        expiration: 900,
        issuer: Uri::try_from("https://issuer.example/").unwrap(),
        port: 8080,
        rng_seed: seed,
        secret: Secret::new(vec![9, 8, 7]),
        session_lifetime: 300,
        user: end_user(),
    }
}

#[test]
fn vars_from_configuration() {
    let vars = Vars::from(settings(1));
    assert_eq!(vars.audience.as_str(), "https://api.example/");
    assert_eq!(vars.issuer.as_str(), "https://issuer.example/");
    assert_eq!(vars.expiration, 900);
    assert_eq!(vars.session_lifetime, 300);
    assert_eq!(vars.secret.as_bytes(), &[9, 8, 7]);
    assert_eq!(
        vars.client_secret.unwrap().as_str(),
        "client-secret-0123456789"
    );
    assert_eq!(
        vars.required_scopes.to_vec(),
        vec![Scope::Address, Scope::Email, Scope::Phone, Scope::Profile]
    );
    assert!(!vars.required_scopes.contains(&Scope::Openid));
    assert!(!vars.required_scopes.contains(&Scope::Groups));
}

#[test]
fn app_state_from_configuration() {
    let state = AppState::from(settings(1));
    assert_eq!(state.audience().as_str(), "https://api.example/");
    assert_eq!(state.issuer().as_str(), "https://issuer.example/");
    assert_eq!(state.expiration(), 900);
    assert_eq!(state.session_lifetime(), 300);
    assert_eq!(state.secret().as_bytes(), &[9, 8, 7]);
    assert_eq!(
        state.client_secret().unwrap().as_str(),
        "client-secret-0123456789"
    );
    assert_eq!(
        state.required_scopes(),
        ScopeSet::empty()
            .with(Scope::Address)
            .with(Scope::Email)
            .with(Scope::Phone)
            .with(Scope::Profile)
    );
    assert_eq!(state.get_user(), end_user());
    assert_eq!(state.0.auth_sessions.len(), 0);
    let mut public = settings(1);
    public.client_secret = None;
    assert!(AppState::from(public).client_secret().is_none());
}

#[test]
fn app_state_draws_from_its_seed() {
    let mut first = AppState::from(settings(5));
    let mut second = AppState::from(settings(5));
    let mut third = AppState::from(settings(6));
    let one = first.gen_secure_string();
    assert_eq!(one.as_str().len(), 28);
    assert_eq!(one, second.gen_secure_string());
    assert_ne!(one, third.gen_secure_string());
    assert_ne!(one, first.gen_secure_string());
}

#[test]
fn user_clone_keeps_the_profile() {
    let user = end_user();
    assert_eq!(user.clone(), user);
    assert_eq!(user.address.clone(), user.address);
    assert_eq!(user.clone().address.country.as_str(), "Italy");
}
