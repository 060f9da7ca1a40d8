//! The claims of an identity token and how they are written down.

use crate::bounded_string::SecureString;
use crate::data::AuthenticationMethod;
use crate::data::access_token::comma;
use crate::data::access_token::write_number_member;
use crate::data::access_token::write_text_member;
use crate::data::json::comma_separated;
use crate::data::json::decimal;
use crate::data::json::json_list;
use crate::data::json::json_text;
use crate::data::json::member;
use crate::data::json::write_name;
use crate::data::json::write_text;
use crate::data::time::Expiration;
use crate::data::time::IssuedAt;
use crate::data::time::UnixTime;
use crate::data::uri::Uri;
use crate::parameter::ClientId;
use crate::parameter::Subject;
use vstd::prelude::*;

verus! {

/// The claims of an identity token.
#[derive(Debug, PartialEq, Eq)]
pub struct IdToken {
    /// How the end user was authenticated.
    pub amr: Vec<AuthenticationMethod>,
    /// The hash that binds this token to the access token issued with it.
    pub at_hash: String,
    /// The client that the token is meant for.
    pub aud: ClientId,
    /// When the end user was authenticated.
    pub auth_time: UnixTime,
    /// When the token stops being valid.
    pub exp: Expiration,
    /// When the token was issued.
    pub iat: IssuedAt,
    /// Who issued the token.
    pub iss: Uri,
    /// The identifier of the token itself.
    pub jti: SecureString,
    /// The end user.
    pub sub: Subject,
    /// The version of the layout of the claims.
    pub ver: u32,
}

/// The claims of an identity token as plain values.
pub ghost struct IdTokenView {
    pub amr: Seq<AuthenticationMethod>,
    pub at_hash: Seq<char>,
    pub aud: Seq<char>,
    pub auth_time: nat,
    pub exp: nat,
    pub iat: nat,
    pub iss: Seq<char>,
    pub jti: Seq<char>,
    pub sub: Seq<char>,
    pub ver: nat,
}

impl View for IdToken {
    type V = IdTokenView;

    open spec fn view(&self) -> IdTokenView {
        IdTokenView {
            amr: self.amr@,
            at_hash: self.at_hash@,
            aud: self.aud@,
            auth_time: self.auth_time@,
            exp: self.exp@,
            iat: self.iat@,
            iss: self.iss@,
            jti: self.jti@,
            sub: self.sub@,
            ver: self.ver as nat,
        }
    }
}

/// The names of `methods` as JSON strings.
pub open spec fn method_items(methods: Seq<AuthenticationMethod>) -> Seq<Seq<u8>> {
    Seq::new(methods.len(), |i: int| json_text(methods[i].claim_name()))
}

impl IdTokenView {
    /// The claims as the JSON object that is signed: the members in the order of their
    /// names, nothing between the tokens.
    pub open spec fn json(self) -> Seq<u8> {
        seq![0x7bu8] + member("amr"@, json_list(method_items(self.amr))) + comma() + member(
            "at_hash"@,
            json_text(self.at_hash),
        ) + comma() + member("aud"@, json_text(self.aud)) + comma() + member(
            "auth_time"@,
            decimal(self.auth_time),
        ) + comma() + member("exp"@, decimal(self.exp)) + comma() + member(
            "iat"@,
            decimal(self.iat),
        ) + comma() + member("iss"@, json_text(self.iss)) + comma() + member(
            "jti"@,
            json_text(self.jti),
        ) + comma() + member("sub"@, json_text(self.sub)) + comma() + member(
            "ver"@,
            decimal(self.ver),
        ) + seq![0x7du8]
    }
}

/// Appends the names of `methods` to `out` as a JSON array.
pub fn write_methods(out: &mut Vec<u8>, methods: &Vec<AuthenticationMethod>)
    ensures
        final(out)@ == old(out)@ + json_list(method_items(methods@)),
{
    let ghost items = method_items(methods@);
    out.push(0x5b);
    let mut i: usize = 0;
    while i < methods.len()
        invariant
            i <= methods@.len(),
            items == method_items(methods@),
            out@ == old(out)@ + seq![0x5bu8] + comma_separated(items.take(i as int)),
        decreases methods@.len() - i,
    {
        if i > 0 {
            out.push(0x2c);
        }
        write_text(out, methods[i].name());
        proof {
            let next = items.take(i + 1);
            assert(next.drop_last() == items.take(i as int));
            assert(next.last() == json_text(methods@[i as int].claim_name()));
            assert(out@ == old(out)@ + seq![0x5bu8] + comma_separated(next));
        }
        i = i + 1;
    }
    assert(items.take(i as int) == items);
    out.push(0x5d);
    assert(out@ == old(out)@ + json_list(items));
}

impl IdToken {
    /// The claims as the JSON object that is signed.
    pub fn to_json(&self) -> (json: Vec<u8>)
        ensures
            json@ == self@.json(),
    {
        let mut out: Vec<u8> = Vec::new();
        out.push(0x7b);
        write_name(&mut out, "amr");
        write_methods(&mut out, &self.amr);
        out.push(0x2c);
        write_text_member(&mut out, "at_hash", self.at_hash.as_str());
        out.push(0x2c);
        write_text_member(&mut out, "aud", self.aud.as_str());
        out.push(0x2c);
        write_number_member(&mut out, "auth_time", self.auth_time.as_secs());
        out.push(0x2c);
        write_number_member(&mut out, "exp", self.exp.as_secs());
        out.push(0x2c);
        write_number_member(&mut out, "iat", self.iat.as_secs());
        out.push(0x2c);
        write_text_member(&mut out, "iss", self.iss.as_str());
        out.push(0x2c);
        write_text_member(&mut out, "jti", self.jti.as_str());
        out.push(0x2c);
        write_text_member(&mut out, "sub", self.sub.as_str());
        out.push(0x2c);
        write_number_member(&mut out, "ver", self.ver as u64);
        out.push(0x7d);
        assert(out@ == self@.json());
        out
    }
}

} // verus!
