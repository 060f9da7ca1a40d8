use oidc_core::bounded_string::ParseError;
use oidc_core::parameter::ClientId;
use oidc_core::parameter::Code;
use oidc_core::parameter::State;
use oidc_core::parameter::Subject;
use rand::SeedableRng;
use rand::rngs::StdRng;

#[test]
fn client_id_long_enough() {
    let string = "uAaunofWkaDJxukCFeBx".to_string();
    assert!(ClientId::try_from(&string).is_ok());
    let string = "client_id".to_string();
    let id = ClientId::try_from(&string).unwrap();
    assert_eq!(id.as_str(), string);
}

#[test]
fn client_id_empty() {
    assert!(matches!(ClientId::try_from(""), Err(ParseError::Empty)));
}

#[test]
fn client_id_of_one_byte() {
    assert_eq!(ClientId::try_from("a").unwrap().as_str(), "a");
}

#[test]
fn state_long_enough() {
    let string = "a".repeat(20);
    let state = State::try_from(&string).unwrap();
    assert_eq!(state.as_str(), string);
}

#[test]
fn state_too_short() {
    let string = "a".repeat(19);
    match State::try_from(&string) {
        Err(ParseError::TooShort(min, found)) => {
            assert_eq!(min, 20);
            assert_eq!(found, string);
        }
        other => panic!("unexpected: {:?}", other),
    }
}

#[test]
fn state_empty_is_not_too_short() {
    assert!(matches!(State::try_from(""), Err(ParseError::Empty)));
}

#[test]
fn code_bounds() {
    assert!(matches!(Code::try_from(""), Err(ParseError::Empty)));
    assert!(matches!(
        Code::try_from(&"c".repeat(19)),
        Err(ParseError::TooShort(20, _))
    ));
    let text = "c".repeat(20);
    assert_eq!(Code::try_from(&text).unwrap().as_str(), text);
}

#[test]
fn subject_bounds() {
    assert!(matches!(
        Subject::try_from("short"),
        Err(ParseError::TooShort(20, _))
    ));
    let text = "s".repeat(64);
    assert_eq!(Subject::try_from(&text).unwrap().as_str(), text);
}

#[test]
fn codes_from_a_generator_differ() {
    let mut rng = StdRng::seed_from_u64(7);
    let first = Code::from_rng(&mut rng);
    let second = Code::from_rng(&mut rng);
    assert_eq!(first.as_str().len(), 28);
    assert_eq!(second.as_str().len(), 28);
    assert!(!first.same_text(&second));
    assert!(first.same_text(&first.clone()));
    let subject = Subject::from_rng(&mut rng);
    assert_eq!(subject.as_str().len(), 28);
}
