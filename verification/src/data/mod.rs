//! The values that requests and tokens are made of.

pub mod access_token;
pub mod id_token;
pub mod json;
pub mod pkce;
pub mod scope;
pub mod time;
pub mod uri;

use crate::text::same_text;
use vstd::prelude::*;

verus! {

/// The secret that tokens are signed with.
#[derive(Debug, PartialEq, Eq)]
pub struct Secret(Vec<u8>);

impl View for Secret {
    type V = Seq<u8>;

    closed spec fn view(&self) -> Seq<u8> {
        self.0@
    }
}

impl Clone for Secret {
    fn clone(&self) -> (copy: Self)
        ensures
            copy@ == self@,
    {
        Secret(self.0.clone())
    }
}

impl Secret {
    /// The secret made of `bytes`.
    pub fn new(bytes: Vec<u8>) -> (secret: Self)
        ensures
            secret@ == bytes@,
    {
        Secret(bytes)
    }

    /// The bytes of the secret.
    pub fn as_bytes(&self) -> (bytes: &[u8])
        ensures
            bytes@ == self@,
    {
        self.0.as_slice()
    }
}

/// How a code challenge was derived from its verifier.
#[derive(Clone, Copy, Debug, PartialEq, Eq, Structural)]
pub enum CodeChallengeMethod {
    S256,
}

impl CodeChallengeMethod {
    /// Reads the method from its protocol name, `S256`.
    pub fn parse(value: &str) -> (r: Option<Self>)
        ensures
            r is Some <==> value@ == "S256"@,
    {
        if same_text(value, "S256") {
            Some(CodeChallengeMethod::S256)
        } else {
            None
        }
    }
}

/// How the authorization response is handed to the client.
#[derive(Clone, Copy, Debug, PartialEq, Eq, Structural)]
pub enum ResponseMode {
    FormPost,
}

impl ResponseMode {
    /// Reads the mode from its protocol name, `form_post`.
    pub fn parse(value: &str) -> (r: Option<Self>)
        ensures
            r is Some <==> value@ == "form_post"@,
    {
        if same_text(value, "form_post") {
            Some(ResponseMode::FormPost)
        } else {
            None
        }
    }
}

/// What the authorization endpoint answers with.
#[derive(Clone, Copy, Debug, PartialEq, Eq, Structural)]
pub enum ResponseType {
    Code,
}

impl ResponseType {
    /// Reads the type from its protocol name, `code`.
    pub fn parse(value: &str) -> (r: Option<Self>)
        ensures
            r is Some <==> value@ == "code"@,
    {
        if same_text(value, "code") {
            Some(ResponseType::Code)
        } else {
            None
        }
    }
}

/// What a token request redeems.
#[derive(Clone, Copy, Debug, PartialEq, Eq, Structural)]
pub enum GrantType {
    AuthorizationCode,
}

impl GrantType {
    /// Reads the grant type from its protocol name, `authorization_code`.
    pub fn parse(value: &str) -> (r: Option<Self>)
        ensures
            r is Some <==> value@ == "authorization_code"@,
    {
        if same_text(value, "authorization_code") {
            Some(GrantType::AuthorizationCode)
        } else {
            None
        }
    }
}

/// How an issued access token is to be presented.
#[derive(Clone, Copy, Debug, PartialEq, Eq, Structural)]
pub enum TokenType {
    Bearer,
}

impl TokenType {
    /// The protocol name of the token type, `bearer`.
    pub fn name(&self) -> (name: &'static str)
        ensures
            name@ == "bearer"@,
    {
        "bearer"
    }
}

/// How the end user was authenticated.
#[derive(Clone, Copy, Debug, PartialEq, Eq, Structural)]
pub enum AuthenticationMethod {
    Pwd,
    Pop,
    Otp,
    Fpt,
    Eye,
    Vbm,
    Tel,
    Sms,
    Kba,
    Wia,
    Mfa,
}

impl AuthenticationMethod {
    /// The name of the method as it stands in a claim set.
    pub open spec fn claim_name(self) -> Seq<char> {
        match self {
            AuthenticationMethod::Pwd => "Pwd"@,
            AuthenticationMethod::Pop => "Pop"@,
            AuthenticationMethod::Otp => "Otp"@,
            AuthenticationMethod::Fpt => "Fpt"@,
            AuthenticationMethod::Eye => "Eye"@,
            AuthenticationMethod::Vbm => "Vbm"@,
            AuthenticationMethod::Tel => "Tel"@,
            AuthenticationMethod::Sms => "Sms"@,
            AuthenticationMethod::Kba => "Kba"@,
            AuthenticationMethod::Wia => "Wia"@,
            AuthenticationMethod::Mfa => "Mfa"@,
        }
    }

    /// The name of the method as it stands in a claim set.
    pub fn name(&self) -> (name: &'static str)
        ensures
            name@ == self.claim_name(),
    {
        match self {
            AuthenticationMethod::Pwd => "Pwd",
            AuthenticationMethod::Pop => "Pop",
            AuthenticationMethod::Otp => "Otp",
            AuthenticationMethod::Fpt => "Fpt",
            AuthenticationMethod::Eye => "Eye",
            AuthenticationMethod::Vbm => "Vbm",
            AuthenticationMethod::Tel => "Tel",
            AuthenticationMethod::Sms => "Sms",
            AuthenticationMethod::Kba => "Kba",
            AuthenticationMethod::Wia => "Wia",
            AuthenticationMethod::Mfa => "Mfa",
        }
    }

    /// A description of the method for a reader.
    pub open spec fn described(self) -> Seq<char> {
        match self {
            AuthenticationMethod::Pwd => "Password authentication"@,
            AuthenticationMethod::Pop => "Proof of possession of a key"@,
            AuthenticationMethod::Otp => "One time password"@,
            AuthenticationMethod::Fpt => "Fingerprint biometric"@,
            AuthenticationMethod::Eye => "Retina scan biometric"@,
            AuthenticationMethod::Vbm => "Voice biometric"@,
            AuthenticationMethod::Tel => "Confirmation by telephone call"@,
            AuthenticationMethod::Sms => "Confirmation by SMS reply"@,
            AuthenticationMethod::Kba => "Knowledge based authentication"@,
            AuthenticationMethod::Wia => "Windows integrated authentication"@,
            AuthenticationMethod::Mfa => "Multiple factor authentication"@,
        }
    }

    /// A description of the method for a reader.
    pub fn description(&self) -> (text: &'static str)
        ensures
            text@ == self.described(),
    {
        match self {
            AuthenticationMethod::Pwd => "Password authentication",
            AuthenticationMethod::Pop => "Proof of possession of a key",
            AuthenticationMethod::Otp => "One time password",
            AuthenticationMethod::Fpt => "Fingerprint biometric",
            AuthenticationMethod::Eye => "Retina scan biometric",
            AuthenticationMethod::Vbm => "Voice biometric",
            AuthenticationMethod::Tel => "Confirmation by telephone call",
            AuthenticationMethod::Sms => "Confirmation by SMS reply",
            AuthenticationMethod::Kba => "Knowledge based authentication",
            AuthenticationMethod::Wia => "Windows integrated authentication",
            AuthenticationMethod::Mfa => "Multiple factor authentication",
        }
    }
}

} // verus!
