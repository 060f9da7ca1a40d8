use oidc_core::authorize::extractor::Error;
use oidc_core::authorize::extractor::scope;
use oidc_core::authorize::extractor::validate_scope;
use oidc_core::data::access_token::display;
use oidc_core::data::scope::Scope;
use oidc_core::data::scope::ScopeSet;
use oidc_core::parameter::Cause;
use oidc_core::parameter::Field;

fn scope_set_of(scopes: &[Scope]) -> ScopeSet {
    let mut set = ScopeSet::empty();
    for scope in scopes {
        set = set.with(*scope);
    }
    set
}

#[test]
fn scope_names() {
    assert_eq!(Scope::Address.name(), "address");
    assert_eq!(Scope::Email.name(), "email");
    assert_eq!(Scope::Groups.name(), "groups");
    assert_eq!(Scope::Openid.name(), "openid");
    assert_eq!(Scope::Phone.name(), "phone");
    assert_eq!(Scope::Profile.name(), "profile");
}

#[test]
fn scope_from_token() {
    let token: Vec<char> = "openid".chars().collect();
    assert_eq!(Scope::from_token(&token), Some(Scope::Openid));
    let token: Vec<char> = "OpenID".chars().collect();
    assert_eq!(Scope::from_token(&token), Some(Scope::Openid));
    let token: Vec<char> = "PROFILE".chars().collect();
    assert_eq!(Scope::from_token(&token), Some(Scope::Profile));
    let token: Vec<char> = "openi".chars().collect();
    assert_eq!(Scope::from_token(&token), None);
    let token: Vec<char> = "openidd".chars().collect();
    assert_eq!(Scope::from_token(&token), None);
    let token: Vec<char> = "".chars().collect();
    assert_eq!(Scope::from_token(&token), None);
    let token: Vec<char> = "\u{f6}penid".chars().collect();
    assert_eq!(Scope::from_token(&token), None);
}

#[test]
fn scope_set_parse_accepts_recognized_scopes() {
    assert_eq!(
        ScopeSet::parse("openid"),
        Ok(scope_set_of(&[Scope::Openid]))
    );
    assert_eq!(
        ScopeSet::parse("openid profile"),
        Ok(scope_set_of(&[Scope::Openid, Scope::Profile]))
    );
    assert_eq!(
        ScopeSet::parse("profile email openid address phone groups"),
        Ok(scope_set_of(&[
            Scope::Address,
            Scope::Email,
            Scope::Groups,
            Scope::Openid,
            Scope::Phone,
            Scope::Profile
        ]))
    );
    assert_eq!(
        ScopeSet::parse("openid openid"),
        Ok(scope_set_of(&[Scope::Openid]))
    );
    assert_eq!(
        ScopeSet::parse("email"),
        Ok(scope_set_of(&[Scope::Email]))
    );
    assert_eq!(ScopeSet::parse(""), Ok(ScopeSet::empty()));
}

#[test]
fn scope_set_parse_hands_back_the_first_unrecognized_token() {
    assert_eq!(ScopeSet::parse("openid admin"), Err("admin".to_string()));
    assert_eq!(
        ScopeSet::parse("one openid two"),
        Err("one".to_string())
    );
    assert_eq!(ScopeSet::parse("openid  profile"), Err("".to_string()));
    assert_eq!(ScopeSet::parse(" openid"), Err("".to_string()));
    assert_eq!(ScopeSet::parse("openid "), Err("".to_string()));
    assert_eq!(ScopeSet::parse(" "), Err("".to_string()));
    assert_eq!(
        ScopeSet::parse("openid\tprofile"),
        Err("openid\tprofile".to_string())
    );
    assert_eq!(
        ScopeSet::parse("openid pr\u{f6}file email"),
        Err("pr\u{f6}file".to_string())
    );
}

#[test]
fn scope_field_requires_openid() {
    assert_eq!(
        scope("openid profile").unwrap(),
        scope_set_of(&[Scope::Openid, Scope::Profile])
    );
    let e = scope("profile email").unwrap_err();
    assert_eq!(e.field, Field::Scope);
    assert!(matches!(e.cause, Cause::MissingScope(Scope::Openid)));
    let e = scope("").unwrap_err();
    assert!(matches!(e.cause, Cause::MissingScope(Scope::Openid)));
    let e = scope("openid unknown").unwrap_err();
    assert_eq!(e.field, Field::Scope);
    match e.cause {
        Cause::Unrecognized(token) => assert_eq!(token, "unknown"),
        other => panic!("unexpected: {:?}", other),
    }
}

#[test]
fn validate_scope_passes_the_set_on() {
    let set = scope_set_of(&[Scope::Openid, Scope::Groups]);
    assert_eq!(validate_scope(set), Ok(set));
    let set = scope_set_of(&[Scope::Groups]);
    assert_eq!(validate_scope(set), Err(Error::MissingScope(Scope::Openid)));
    assert_eq!(
        validate_scope(ScopeSet::empty()),
        Err(Error::MissingScope(Scope::Openid))
    );
}

#[test]
fn scope_set_operations() {
    let set = scope_set_of(&[Scope::Phone, Scope::Address]);
    assert!(set.contains(&Scope::Phone));
    assert!(set.contains(&Scope::Address));
    assert!(!set.contains(&Scope::Openid));
    assert_eq!(set.to_vec(), vec![Scope::Address, Scope::Phone]);
    assert_eq!(ScopeSet::empty().to_vec(), Vec::<Scope>::new());
    let other = scope_set_of(&[Scope::Openid, Scope::Email]);
    assert!(set.is_disjoint(&other));
    assert!(other.is_disjoint(&set));
    assert!(!set.is_disjoint(&other.with(Scope::Phone)));
    assert!(ScopeSet::empty().is_disjoint(&ScopeSet::empty()));
    assert!(!set.is_disjoint(&set));
}

#[test]
fn scope_display() {
    assert_eq!(display(&ScopeSet::empty()), "");
    assert_eq!(
        display(&scope_set_of(&[Scope::Profile, Scope::Email])),
        "email, profile, "
    );
}
