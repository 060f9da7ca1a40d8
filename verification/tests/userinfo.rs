use oidc_core::bounded_string::NonEmptyString;
use oidc_core::bounded_string::SecureString;
use oidc_core::config::Configuration;
use oidc_core::data::Secret;
use oidc_core::data::access_token;
use oidc_core::data::access_token::AccessToken;
use oidc_core::data::scope::Scope;
use oidc_core::data::scope::ScopeSet;
use oidc_core::data::time::Expiration;
use oidc_core::data::time::IssuedAt;
use oidc_core::data::time::UnixTime;
use oidc_core::data::uri::Uri;
use oidc_core::parameter::ClientId;
use oidc_core::parameter::Subject;
use oidc_core::state::Address;
use oidc_core::state::AppState;
use oidc_core::state::User;
use oidc_core::token::jwt;
use oidc_core::userinfo::Error;
use oidc_core::userinfo::decode_access_token;
use oidc_core::userinfo::userinfo;
use oidc_core::userinfo::userinfo_at;

const SIGNING_SECRET: &[u8] = b"0123456789abcdef0123456789abcdef";

fn profile_text(text: &str) -> NonEmptyString {
    NonEmptyString::try_from(text).unwrap()
}

fn profile() -> User {
    User {
        address: Address {
            country: profile_text("Italy"),
            locality: profile_text("Milan"),
            postal_code: profile_text("20100"),
            region: profile_text("Lombardy"),
            street_address: profile_text("Via Roma 1"),
        },
        email_verified: true,
        email: profile_text("jane@example.com"),
        family_name: profile_text("Doe"),
        given_name: profile_text("Jane"),
        locale: profile_text("en"),
        middle_name: profile_text("Q"),
        name: profile_text("Jane Q Doe"),
        nickname: profile_text("jd"),
        phone_number: profile_text("+39 02 0000"),
        updated_at: 1_700_000_000,
        zoneinfo: profile_text("Europe/Rome"),
    }
}

fn server() -> AppState {
    AppState::from(Configuration {
        audience: Uri::try_from("https://api.example/").unwrap(),
        client_secret: None,
        expiration: 3600,
        issuer: Uri::try_from("https://issuer.example/").unwrap(),
        port: 8080,
        rng_seed: 42,
        secret: Secret::new(SIGNING_SECRET.to_vec()),
        session_lifetime: 600,
        user: profile(),
    })
}

fn claims(issuer: &str, exp: u64, scopes: &[Scope]) -> AccessToken {
    let mut scp = ScopeSet::empty();
    for scope in scopes {
        scp = scp.with(*scope);
    }
    AccessToken {
        aud: Uri::try_from("https://api.example/").unwrap(),
        auth_time: UnixTime::from_secs(1_700_000_000),
        cid: ClientId::try_from("abc").unwrap(),
        exp: Expiration::at(UnixTime::from_secs(exp)),
        iat: IssuedAt::at(UnixTime::from_secs(1_700_000_000)),
        iss: Uri::try_from(issuer).unwrap(),
        jti: SecureString::try_from("access-token-identifier-0001").unwrap(),
        scp,
        sub: Subject::try_from("user-identifier-0000000001").unwrap(),
        uid: Subject::try_from("user-identifier-0000000001").unwrap(),
        ver: 1,
    }
}

fn good_claims() -> AccessToken {
    claims(
        "https://issuer.example/",
        1_700_003_600,
        &[Scope::Openid, Scope::Profile],
    )
}

fn signed(claims: &AccessToken, secret: &[u8]) -> String {
    jwt::encode(&claims.to_json(), &Secret::new(secret.to_vec())).unwrap()
}

#[test]
fn access_token_json() {
    assert_eq!(
        String::from_utf8(good_claims().to_json()).unwrap(),
        "{\"aud\":\"https://api.example/\",\"auth_time\":1700000000,\"cid\":\"abc\",\"exp\":1700003600,\"iat\":1700000000,\"iss\":\"https://issuer.example/\",\"jti\":\"access-token-identifier-0001\",\"scp\":[\"openid\",\"profile\"],\"sub\":\"user-identifier-0000000001\",\"uid\":\"user-identifier-0000000001\",\"ver\":1}"
    );
    let none = claims("https://issuer.example/", 0, &[]);
    let text = String::from_utf8(none.to_json()).unwrap();
    assert!(text.contains("\"exp\":0,"));
    assert!(text.contains("\"scp\":[],"));
    let all = claims(
        "https://issuer.example/",
        u64::MAX,
        &[
            Scope::Profile,
            Scope::Phone,
            Scope::Openid,
            Scope::Groups,
            Scope::Email,
            Scope::Address,
        ],
    );
    let text = String::from_utf8(all.to_json()).unwrap();
    assert!(text.contains("\"exp\":18446744073709551615,"));
    assert!(text.contains(
        "\"scp\":[\"address\",\"email\",\"groups\",\"openid\",\"phone\",\"profile\"],"
    ));
    let value: serde_json::Value = serde_json::from_str(&text).unwrap();
    assert_eq!(serde_json::to_string(&value).unwrap(), text);
}

#[test]
fn userinfo_releases_the_profile() {
    let state = server();
    let bearer = signed(&good_claims(), SIGNING_SECRET);
    let user = userinfo_at(
        &state,
        &bearer,
        good_claims(),
        UnixTime::from_secs(1_700_000_001),
    );
    assert_eq!(user, Ok(profile()));
    assert_eq!(state.get_user(), profile());
}

#[test]
fn userinfo_expires_at_the_expiry() {
    let state = server();
    let bearer = signed(&good_claims(), SIGNING_SECRET);
    let at = |now: u64| userinfo_at(&state, &bearer, good_claims(), UnixTime::from_secs(now));
    assert!(at(1_700_003_599).is_ok());
    assert_eq!(
        at(1_700_003_600),
        Err(Error::InvalidClaim(access_token::Error::Expired))
    );
    assert_eq!(
        at(1_700_003_601),
        Err(Error::InvalidClaim(access_token::Error::Expired))
    );
    assert_eq!(
        Error::InvalidClaim(access_token::Error::Expired).status_code(),
        403
    );
}

#[test]
fn userinfo_by_the_clock() {
    let state = server();
    let past = good_claims();
    let bearer = signed(&past, SIGNING_SECRET);
    assert_eq!(
        userinfo(&state, &bearer, past),
        Err(Error::InvalidClaim(access_token::Error::Expired))
    );
    let future = claims(
        "https://issuer.example/",
        u64::MAX,
        &[Scope::Openid, Scope::Email],
    );
    let bearer = signed(&future, SIGNING_SECRET);
    assert_eq!(userinfo(&state, &bearer, future), Ok(profile()));
    assert_eq!(
        userinfo(&state, "not.a.token", good_claims()),
        Err(Error::InvalidToken)
    );
}

#[test]
fn userinfo_turns_down_a_forged_token() {
    let state = server();
    let now = UnixTime::from_secs(1_700_000_001);
    let genuine = signed(&good_claims(), SIGNING_SECRET);

    let other_key = signed(&good_claims(), b"another-secret-0123456789abcdef");
    assert_eq!(
        userinfo_at(&state, &other_key, good_claims(), now),
        Err(Error::InvalidToken)
    );

    let mut tampered = genuine.clone();
    let last = tampered.pop().unwrap();
    tampered.push(if last == 'A' { 'B' } else { 'A' });
    assert_eq!(
        userinfo_at(&state, &tampered, good_claims(), now),
        Err(Error::InvalidToken)
    );

    let more_scopes = claims(
        "https://issuer.example/",
        1_700_003_600,
        &[Scope::Openid, Scope::Profile, Scope::Groups],
    );
    assert_eq!(
        userinfo_at(&state, &genuine, more_scopes, now),
        Err(Error::InvalidToken)
    );
    let later = claims(
        "https://issuer.example/",
        1_700_003_601,
        &[Scope::Openid, Scope::Profile],
    );
    assert_eq!(
        userinfo_at(&state, &genuine, later, now),
        Err(Error::InvalidToken)
    );

    assert_eq!(
        userinfo_at(&state, "", good_claims(), now),
        Err(Error::InvalidToken)
    );
    assert_eq!(
        userinfo_at(&state, &genuine[..genuine.len() - 1], good_claims(), now),
        Err(Error::InvalidToken)
    );
    assert_eq!(Error::InvalidToken.status_code(), 401);
}

#[test]
fn decode_access_token_hands_the_claims_on() {
    let state = server();
    let bearer = signed(&good_claims(), SIGNING_SECRET);
    assert_eq!(
        decode_access_token(&state, &bearer, good_claims()),
        Ok(good_claims())
    );
    let mut validation = jsonwebtoken::Validation::new(jsonwebtoken::Algorithm::HS256);
    validation.validate_aud = false;
    validation.validate_exp = false;
    let decoded = jsonwebtoken::decode::<serde_json::Value>(
        &bearer,
        &jsonwebtoken::DecodingKey::from_secret(SIGNING_SECRET),
        &validation,
    )
    .unwrap();
    assert_eq!(decoded.claims["jti"], "access-token-identifier-0001");
    assert_eq!(decoded.header.alg, jsonwebtoken::Algorithm::HS256);
}

#[test]
fn validate_issuer() {
    let state = server();
    let now = UnixTime::from_secs(1_700_000_001);
    let foreign = claims(
        "https://issuer.example",
        1_700_003_600,
        &[Scope::Openid, Scope::Profile],
    );
    match foreign.validate_at(&state, now) {
        Err(access_token::Error::InvalidIssuer(found, expected)) => {
            assert_eq!(found.as_str(), "https://issuer.example");
            assert_eq!(expected.as_str(), "https://issuer.example/");
        }
        other => panic!("unexpected: {:?}", other),
    }
    match foreign.validate(&state) {
        Err(access_token::Error::InvalidIssuer(found, expected)) => {
            assert_eq!(found.as_str(), "https://issuer.example");
            assert_eq!(expected.as_str(), "https://issuer.example/");
        }
        other => panic!("unexpected: {:?}", other),
    }
    let expired_too = claims("https://other.example/", 0, &[]);
    assert_eq!(
        expired_too.validate(&state),
        Err(access_token::Error::InvalidIssuer(
            Uri::try_from("https://other.example/").unwrap(),
            Uri::try_from("https://issuer.example/").unwrap()
        ))
    );
    let bearer = signed(&foreign, SIGNING_SECRET);
    assert!(matches!(
        userinfo_at(&state, &bearer, foreign, now),
        Err(Error::InvalidClaim(access_token::Error::InvalidIssuer(_, _)))
    ));
}

#[test]
fn validate_order_of_the_checks() {
    let state = server();
    let foreign_and_expired = claims("https://other.example/", 5, &[]);
    assert!(matches!(
        foreign_and_expired.validate_at(&state, UnixTime::from_secs(10)),
        Err(access_token::Error::InvalidIssuer(_, _))
    ));
    let expired_without_scopes = claims("https://issuer.example/", 5, &[]);
    assert_eq!(
        expired_without_scopes.validate_at(&state, UnixTime::from_secs(5)),
        Err(access_token::Error::Expired)
    );
    assert_eq!(
        expired_without_scopes.validate_at(&state, UnixTime::from_secs(4)),
        Err(access_token::Error::MissingScope(Scope::Openid))
    );
    assert_eq!(
        expired_without_scopes.validate(&state),
        Err(access_token::Error::Expired)
    );
}

#[test]
fn validate_scopes() {
    let state = server();
    let now = UnixTime::from_secs(0);
    let at = |scopes: &[Scope]| claims("https://issuer.example/", 1, scopes).validate_at(&state, now);
    assert_eq!(
        at(&[Scope::Profile, Scope::Email]),
        Err(access_token::Error::MissingScope(Scope::Openid))
    );
    let required = ScopeSet::empty()
        .with(Scope::Profile)
        .with(Scope::Email)
        .with(Scope::Address)
        .with(Scope::Phone);
    assert_eq!(state.required_scopes(), required);
    assert_eq!(
        at(&[Scope::Openid]),
        Err(access_token::Error::MissingScopes(required))
    );
    assert_eq!(
        at(&[Scope::Openid, Scope::Groups]),
        Err(access_token::Error::MissingScopes(required))
    );
    assert_eq!(at(&[Scope::Openid, Scope::Profile]), Ok(()));
    assert_eq!(at(&[Scope::Openid, Scope::Email]), Ok(()));
    assert_eq!(at(&[Scope::Openid, Scope::Address]), Ok(()));
    assert_eq!(at(&[Scope::Openid, Scope::Phone, Scope::Groups]), Ok(()));
}
