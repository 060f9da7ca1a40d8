use oidc_core::data::pkce::CodeChallenge;
use oidc_core::data::pkce::CodeVerifier;
use oidc_core::data::pkce::ParseError;
use oidc_core::data::pkce::PkceCode;
use oidc_core::data::pkce::challenge_matches;
use oidc_core::data::pkce::verify;

const CODE_CHALLENGE: &str = "E9Melhoa2OwvFrEMTJguCHaoeK1t8URWbuGJSstw-cM";
const CODE_VERIFIER: &str = "dBjftJeZ4CVP-mB92K27uhbUJU1p1r_wW1gFWFOEjXk";

#[test]
fn pkce_valid() {
    let code = PkceCode::try_from(&CODE_CHALLENGE.to_string());
    assert_eq!(code.unwrap().as_str(), CODE_CHALLENGE);
    let challenge = CodeChallenge::try_from(CODE_CHALLENGE).unwrap();
    let verifier = CodeVerifier::try_from(CODE_VERIFIER).unwrap();
    assert!(verify(&challenge, &verifier));
    assert_eq!(true, challenge_matches(CODE_CHALLENGE, CODE_VERIFIER));
}

#[test]
fn pkce_invalid() {
    let challenge = CodeChallenge::try_from(CODE_CHALLENGE).unwrap();
    let verifier = CodeVerifier::try_from("a".repeat(40).as_str()).unwrap();
    assert!(!verify(&challenge, &verifier));
    assert_eq!(false, challenge_matches(CODE_CHALLENGE, &"a".repeat(43)));
}

#[test]
fn pkce_too_short() {
    let string = "a".repeat(39);
    assert_eq!(Err(ParseError::TooShort), PkceCode::try_from(&string));
}

#[test]
fn pkce_too_long() {
    let string = "a".repeat(129);
    assert_eq!(Err(ParseError::TooLong), PkceCode::try_from(&string));
}

#[test]
fn pkce_long_enough() {
    let string = "a".repeat(40);
    assert_eq!(PkceCode::try_from(&string).unwrap().as_str(), string);
}

#[test]
fn short_enough() {
    let string = "a".repeat(128);
    assert_eq!(PkceCode::try_from(&string).unwrap().as_str(), string);
}

#[test]
fn it_works() {
    let code = PkceCode::try_from(CODE_CHALLENGE);
    assert!(code.is_ok(), "Error while decoding code_challenge");
    assert_eq!(CODE_CHALLENGE, code.unwrap().as_str());
}

#[test]
fn short_code() {
    let code = "abcd";
    let code = PkceCode::try_from(code);
    assert!(code.is_err(), "Should be too short: {:?}", &code);
}

#[test]
fn too_long_code() {
    let code = "a".repeat(200);
    let code: &str = code.as_ref();
    let result = PkceCode::try_from(code);
    assert!(result.is_err(), "Should be too long: {:?}", &code);
}

#[test]
fn good_case() {
    let verifier_code = PkceCode::try_from(CODE_VERIFIER).unwrap();
    let challenge_code = PkceCode::try_from(CODE_CHALLENGE).unwrap();
    assert!(verifier_code.verify(&challenge_code), "verification failed",);
}

#[test]
fn bad_case() {
    assert!(
        !challenge_matches(CODE_CHALLENGE, "some_random_string"),
        "verification succeded, but should have failed",
    );
}

#[test]
fn pkce_empty_is_not_too_short() {
    assert_eq!(Err(ParseError::Empty), PkceCode::try_from(""));
}

#[test]
fn pkce_length_comes_before_alphabet() {
    assert_eq!(Err(ParseError::TooShort), PkceCode::try_from("!"));
    assert_eq!(
        Err(ParseError::TooLong),
        PkceCode::try_from(&"!".repeat(129))
    );
}

#[test]
fn pkce_not_base64url() {
    let outside_alphabet = "!".repeat(40);
    assert_eq!(
        Err(ParseError::NotBase64Urlencoded),
        PkceCode::try_from(&outside_alphabet)
    );
    let standard_alphabet = "+".repeat(44);
    assert_eq!(
        Err(ParseError::NotBase64Urlencoded),
        PkceCode::try_from(&standard_alphabet)
    );
    let padded = format!("{}==", "a".repeat(42));
    assert_eq!(
        Err(ParseError::NotBase64Urlencoded),
        PkceCode::try_from(&padded)
    );
    let stray_bits = "a".repeat(43);
    assert_eq!(
        Err(ParseError::NotBase64Urlencoded),
        PkceCode::try_from(&stray_bits)
    );
    let one_symbol_left = "A".repeat(41);
    assert_eq!(
        Err(ParseError::NotBase64Urlencoded),
        PkceCode::try_from(&one_symbol_left)
    );
}

#[test]
fn pkce_challenge_and_verifier_read_alike() {
    assert_eq!(
        CodeChallenge::try_from(&"a".repeat(39)).unwrap_err(),
        ParseError::TooShort
    );
    assert_eq!(
        CodeVerifier::try_from(&"a".repeat(129)).unwrap_err(),
        ParseError::TooLong
    );
    assert_eq!(
        CodeVerifier::try_from(CODE_VERIFIER).unwrap().as_str(),
        CODE_VERIFIER
    );
    assert_eq!(
        CodeChallenge::try_from(CODE_CHALLENGE).unwrap().clone().as_str(),
        CODE_CHALLENGE
    );
}

#[test]
fn pkce_derived_challenge_is_answered_by_its_verifier_only() {
    let verifier = "verifier-43-chars-long-0123456789abcdefghik";
    let challenge = "NMHFndBLxHDzwRybL12ivpijdXn64tPmMXzc_3micTU";
    assert!(challenge_matches(challenge, verifier));
    assert!(!challenge_matches(challenge, CODE_VERIFIER));
    assert!(!challenge_matches(challenge, challenge));
    assert!(!challenge_matches(verifier, verifier));
    assert!(!challenge_matches(
        challenge,
        "verifier-43-chars-long-0123456789abcdefghiK"
    ));
}
