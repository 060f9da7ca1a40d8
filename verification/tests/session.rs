use oidc_core::data::pkce::CodeChallenge;
use oidc_core::data::scope::Scope;
use oidc_core::data::scope::ScopeSet;
use oidc_core::data::time::UnixTime;
use oidc_core::data::uri::Uri;
use oidc_core::parameter::ClientId;
use oidc_core::parameter::Code;
use oidc_core::parameter::Subject;
use oidc_core::session::AuthSession;
use oidc_core::session::Message;
use oidc_core::session::Reply;
use oidc_core::session::SessionStore;

fn session_with(challenge: &str) -> AuthSession {
    AuthSession {
        client_id: ClientId::try_from("1234").unwrap(),
        code_challenge: CodeChallenge::try_from(challenge).unwrap(),
        redirect_uri: Uri::try_from("http://prima.com/test").unwrap(),
        scope: ScopeSet::empty().with(Scope::Openid),
        user_id: Subject::try_from("user-identifier-0000000001").unwrap(),
    }
}

fn code_of(text: &str) -> Code {
    Code::try_from(text).unwrap()
}

#[test]
fn happy_path() {
    let code = code_of("code-1234-0000000000");
    let session = session_with("E9Melhoa2OwvFrEMTJguCHaoeK1t8URWbuGJSstw-cM");
    let mut store = SessionStore::new();
    let retrieved = store.take(&code);
    assert!(retrieved.is_none(), "This code should be empty");
    store.put(code.clone(), session.clone());
    assert_eq!(store.len(), 1);
    let retrieved = store.take(&code);
    assert_eq!(
        Some(session),
        retrieved,
        "Retrieved session not matching with inserted one"
    );
    let retrieved = store.take(&code);
    assert!(
        retrieved.is_none(),
        "This code should have been already consumed"
    );
    assert_eq!(store.len(), 0);
}

#[test]
fn overwrite_id() {
    let code = code_of("code-1234-0000000000");
    let mut store = SessionStore::new();
    store.put(
        code.clone(),
        session_with("E9Melhoa2OwvFrEMTJguCHaoeK1t8URWbuGJSstw-cM"),
    );
    let new_session = session_with("dBjftJeZ4CVP-mB92K27uhbUJU1p1r_wW1gFWFOEjXk");
    store.put(code.clone(), new_session.clone());
    assert_eq!(store.len(), 1);
    let retrieved = store.take(&code);
    assert_eq!(Some(new_session), retrieved, "Code was not overwritten");
    assert!(store.take(&code).is_none());
}

#[test]
fn store_keeps_other_codes() {
    let first = code_of("code-aaaa-0000000000");
    let second = code_of("code-bbbb-0000000000");
    let third = code_of("code-cccc-0000000000");
    let one = session_with("E9Melhoa2OwvFrEMTJguCHaoeK1t8URWbuGJSstw-cM");
    let two = session_with("dBjftJeZ4CVP-mB92K27uhbUJU1p1r_wW1gFWFOEjXk");
    let mut store = SessionStore::new();
    store.put(first.clone(), one.clone());
    store.put(second.clone(), two.clone());
    store.put(third.clone(), one.clone());
    assert_eq!(store.len(), 3);
    assert_eq!(store.take(&second), Some(two.clone()));
    assert_eq!(store.len(), 2);
    assert_eq!(store.take(&second), None);
    store.put(first.clone(), two.clone());
    assert_eq!(store.len(), 2);
    assert_eq!(store.take(&third), Some(one));
    assert_eq!(store.take(&first), Some(two));
    assert_eq!(store.len(), 0);
}

#[test]
fn store_free_functions() {
    let code = code_of("code-1234-0000000000");
    let session = session_with("E9Melhoa2OwvFrEMTJguCHaoeK1t8URWbuGJSstw-cM");
    let mut store = SessionStore::new();
    assert_eq!(oidc_core::session::get(&mut store, &code), None);
    oidc_core::session::set(&mut store, code.clone(), session.clone());
    assert_eq!(oidc_core::session::get(&mut store, &code), Some(session));
    assert_eq!(oidc_core::session::get(&mut store, &code), None);
}

#[test]
fn store_messages() {
    let code = code_of("code-1234-0000000000");
    let session = session_with("E9Melhoa2OwvFrEMTJguCHaoeK1t8URWbuGJSstw-cM");
    let mut store = SessionStore::new();
    let reply = store.handle_message(Message::Get { code: code.clone() });
    assert!(matches!(reply, Reply::Taken(None)));
    let reply = store.handle_message(Message::Put {
        code: code.clone(),
        session: session.clone(),
    });
    assert!(matches!(reply, Reply::Stored));
    match store.handle_message(Message::Get { code: code.clone() }) {
        Reply::Taken(Some(found)) => assert_eq!(found, session),
        other => panic!("unexpected: {:?}", other),
    }
    let reply = store.handle_message(Message::Get { code });
    assert!(matches!(reply, Reply::Taken(None)));
}

#[test]
fn store_sweep_removes_what_has_outlived_its_lifetime() {
    let challenge = "E9Melhoa2OwvFrEMTJguCHaoeK1t8URWbuGJSstw-cM";
    let early = code_of("code-early-000000000");
    let late = code_of("code-late-0000000000");
    let timeless = code_of("code-timeless-000000");
    let mut store = SessionStore::new();
    store.put_at(early.clone(), session_with(challenge), UnixTime::from_secs(100));
    store.put_at(late.clone(), session_with(challenge), UnixTime::from_secs(200));
    store.put(timeless.clone(), session_with(challenge));
    assert_eq!(store.sweep(UnixTime::from_secs(159), 60), 0);
    assert_eq!(store.len(), 3);
    assert_eq!(store.sweep(UnixTime::from_secs(160), 60), 1);
    assert_eq!(store.len(), 2);
    assert!(store.take(&early).is_none());
    assert_eq!(store.sweep(UnixTime::from_secs(160), 60), 0);
    assert_eq!(store.sweep(UnixTime::from_secs(u64::MAX), 60), 1);
    assert!(store.take(&late).is_none());
    assert_eq!(store.take(&timeless), Some(session_with(challenge)));
    assert_eq!(store.sweep(UnixTime::from_secs(0), 0), 0);
}

#[test]
fn store_sweep_at_the_edges() {
    let challenge = "E9Melhoa2OwvFrEMTJguCHaoeK1t8URWbuGJSstw-cM";
    let mut store = SessionStore::new();
    assert_eq!(store.sweep(UnixTime::from_secs(10), 5), 0);
    for i in 0..10u64 {
        let code = code_of(&format!("code-{:02}-0123456789abcd", i));
        store.put_at(code, session_with(challenge), UnixTime::from_secs(i));
    }
    assert_eq!(store.sweep(UnixTime::from_secs(4), 0), 5);
    assert_eq!(store.len(), 5);
    assert!(store.take(&code_of("code-04-0123456789abcd")).is_none());
    assert!(store.take(&code_of("code-05-0123456789abcd")).is_some());
    let forever = code_of("code-forever-0123456789");
    store.put_at(forever.clone(), session_with(challenge), UnixTime::from_secs(50));
    assert_eq!(store.sweep(UnixTime::from_secs(u64::MAX - 1), u64::MAX), 0);
    assert_eq!(store.sweep(UnixTime::from_secs(u64::MAX), u64::MAX), 5);
    assert_eq!(store.len(), 0);
}

#[test]
fn store_put_replaces_the_filing_time() {
    let challenge = "E9Melhoa2OwvFrEMTJguCHaoeK1t8URWbuGJSstw-cM";
    let code = code_of("code-1234-0000000000");
    let mut store = SessionStore::new();
    store.put_at(code.clone(), session_with(challenge), UnixTime::from_secs(100));
    store.put(code.clone(), session_with(challenge));
    assert_eq!(store.sweep(UnixTime::from_secs(1_000), 10), 0);
    store.put_at(code.clone(), session_with(challenge), UnixTime::from_secs(100));
    assert_eq!(store.len(), 1);
    assert_eq!(store.sweep(UnixTime::from_secs(1_000), 10), 1);
}
