use oidc_core::data::AuthenticationMethod;
use oidc_core::data::CodeChallengeMethod;
use oidc_core::data::GrantType;
use oidc_core::data::ResponseMode;
use oidc_core::data::ResponseType;
use oidc_core::data::TokenType;
use oidc_core::data::json::write_bytes;
use oidc_core::data::json::write_name;
use oidc_core::data::json::write_number;
use oidc_core::data::json::write_text;
use oidc_core::data::uri::InvalidUri;
use oidc_core::data::uri::Uri;
use oidc_core::text::chars_of;
use oidc_core::text::same_bytes;
use oidc_core::text::same_text;

#[test]
fn protocol_names() {
    assert_eq!(
        CodeChallengeMethod::parse("S256"),
        Some(CodeChallengeMethod::S256)
    );
    assert_eq!(CodeChallengeMethod::parse("s256"), None);
    assert_eq!(CodeChallengeMethod::parse("plain"), None);
    assert_eq!(CodeChallengeMethod::parse(""), None);
    assert_eq!(ResponseMode::parse("form_post"), Some(ResponseMode::FormPost));
    assert_eq!(ResponseMode::parse("FormPost"), None);
    assert_eq!(ResponseMode::parse("query"), None);
    assert_eq!(ResponseType::parse("code"), Some(ResponseType::Code));
    assert_eq!(ResponseType::parse("token"), None);
    assert_eq!(
        GrantType::parse("authorization_code"),
        Some(GrantType::AuthorizationCode)
    );
    assert_eq!(GrantType::parse("refresh_token"), None);
    assert_eq!(GrantType::parse("authorization_code "), None);
    assert_eq!(TokenType::Bearer.name(), "bearer");
}

#[test]
fn authentication_methods() {
    assert_eq!(AuthenticationMethod::Pwd.name(), "Pwd");
    assert_eq!(AuthenticationMethod::Mfa.name(), "Mfa");
    assert_eq!(
        AuthenticationMethod::Pwd.description(),
        "Password authentication"
    );
    assert_eq!(
        AuthenticationMethod::Wia.description(),
        "Windows integrated authentication"
    );
    let all = [
        AuthenticationMethod::Pwd,
        AuthenticationMethod::Pop,
        AuthenticationMethod::Otp,
        AuthenticationMethod::Fpt,
        AuthenticationMethod::Eye,
        AuthenticationMethod::Vbm,
        AuthenticationMethod::Tel,
        AuthenticationMethod::Sms,
        AuthenticationMethod::Kba,
        AuthenticationMethod::Wia,
        AuthenticationMethod::Mfa,
    ];
    for method in all {
        assert_eq!(method.name(), format!("{:?}", method));
        assert!(!method.description().is_empty());
    }
}

#[test]
fn uri_keeps_its_text() {
    let uri = Uri::try_from("http://prima.com/test").unwrap();
    assert_eq!(uri.as_str(), "http://prima.com/test");
    let upper = Uri::try_from("HTTP://PRIMA.COM/test").unwrap();
    assert_eq!(upper.as_str(), "HTTP://PRIMA.COM/test");
    assert!(!uri.same_text(&upper));
    assert!(uri.same_text(&uri.clone()));
    let bare = Uri::try_from("https://client.example").unwrap();
    let slash = Uri::try_from("https://client.example/").unwrap();
    assert!(!bare.same_text(&slash));
    assert_eq!(Uri::try_from("/callback?x=1").unwrap().as_str(), "/callback?x=1");
}

#[test]
fn uri_syntax_is_checked() {
    assert_eq!(Uri::try_from(""), Err(InvalidUri));
    assert_eq!(Uri::try_from("http://exa mple.com/"), Err(InvalidUri));
    assert_eq!(Uri::try_from("http://"), Err(InvalidUri));
    assert_eq!(Uri::try_from("http://[::1"), Err(InvalidUri));
}

#[test]
fn text_comparison() {
    assert!(same_text("", ""));
    assert!(same_text("abc", "abc"));
    assert!(!same_text("abc", "abd"));
    assert!(!same_text("abc", "ab"));
    assert!(!same_text("ab", "abc"));
    assert!(same_text("gr\u{fc}n", "gr\u{fc}n"));
    assert!(!same_text("gr\u{fc}n", "grun"));
    assert!(same_bytes(&[1, 2, 3], &[1, 2, 3]));
    assert!(!same_bytes(&[1, 2, 3], &[1, 2, 4]));
    assert!(!same_bytes(&[], &[0]));
    assert_eq!(chars_of("a\u{fc}b"), vec!['a', '\u{fc}', 'b']);
    assert_eq!(chars_of(""), Vec::<char>::new());
}

#[test]
fn json_numbers() {
    let mut out = Vec::new();
    write_number(&mut out, 0);
    out.push(b' ');
    write_number(&mut out, 7);
    out.push(b' ');
    write_number(&mut out, 10);
    out.push(b' ');
    write_number(&mut out, 1_700_003_600);
    out.push(b' ');
    write_number(&mut out, u64::MAX);
    assert_eq!(
        String::from_utf8(out).unwrap(),
        "0 7 10 1700003600 18446744073709551615"
    );
}

#[test]
fn json_texts() {
    let mut out = Vec::new();
    write_text(&mut out, "plain");
    assert_eq!(out, b"\"plain\"");
    let mut out = Vec::new();
    write_text(&mut out, "");
    assert_eq!(out, b"\"\"");
    let mut out = Vec::new();
    write_text(&mut out, "a\"b\\c/d");
    assert_eq!(out, b"\"a\\\"b\\\\c/d\"");
    let mut out = Vec::new();
    write_text(&mut out, "\u{8}\t\n\u{c}\r");
    assert_eq!(out, b"\"\\b\\t\\n\\f\\r\"");
    let mut out = Vec::new();
    write_text(&mut out, "\u{0}\u{1}\u{b}\u{1f} \u{7f}");
    assert_eq!(out, b"\"\\u0000\\u0001\\u000b\\u001f \x7f\"");
    let mut out = Vec::new();
    write_text(&mut out, "gr\u{fc}n \u{1f600}");
    assert_eq!(out, "\"gr\u{fc}n \u{1f600}\"".as_bytes());
}

#[test]
fn json_texts_agree_with_serde_json() {
    let samples = [
        "",
        "plain",
        "a\"b\\c/d",
        "\u{0}\u{1}\u{2}\u{3}\u{4}\u{5}\u{6}\u{7}\u{8}\t\n\u{b}\u{c}\r\u{e}\u{f}",
        "\u{10}\u{11}\u{12}\u{13}\u{14}\u{15}\u{16}\u{17}\u{18}\u{19}\u{1a}\u{1b}\u{1c}\u{1d}\u{1e}\u{1f}",
        " !#$%&'()*+,-./0123456789:;<=>?@[]^_`{|}~\u{7f}",
        "gr\u{fc}n \u{2028} \u{1f600}",
    ];
    for sample in samples {
        let mut out = Vec::new();
        write_text(&mut out, sample);
        let expected = serde_json::to_vec(&serde_json::Value::String(sample.to_string())).unwrap();
        assert_eq!(out, expected);
    }
}

#[test]
fn json_names_and_bytes() {
    let mut out = vec![b'{'];
    write_name(&mut out, "exp");
    write_bytes(&mut out, b"1}");
    assert_eq!(out, b"{\"exp\":1}");
    write_bytes(&mut out, b"");
    assert_eq!(out, b"{\"exp\":1}");
}
