//! Compact tokens signed with HMAC-SHA256.

use crate::crypto::MAX_ENCODE_INPUT;
use crate::crypto::MAX_SIGN_INPUT;
use crate::crypto::base64url_encode;
use crate::crypto::base64url_nopad;
use crate::crypto::hs256_sign;
use crate::crypto::hs256_signature;
use crate::data::Secret;
use crate::text::lemma_bytes_of_joined;
use vstd::prelude::*;
use vstd::string::StringExecFns;
use vstd::utf8::encode_utf8;
use vstd::utf8::is_ascii_chars_encode_utf8;

verus! {

/// Why a claim set was not signed.
#[derive(Clone, Copy, Debug, PartialEq, Eq, Structural)]
pub enum Error {
    /// The claims have more bytes than a token can carry.
    TooLong,
    /// The secret has more bytes than the signer takes.
    Signature,
}

/// The header of every token: its type, and HMAC-SHA256 as the algorithm of its signature.
pub open spec fn header_json() -> Seq<char> {
    "{\"typ\":\"JWT\",\"alg\":\"HS256\"}"@
}

/// What is signed: the header and the claims, each in unpadded URL-safe base64, with a
/// full stop between them.
pub open spec fn signing_input(claims: Seq<u8>) -> Seq<char> {
    base64url_nopad(encode_utf8(header_json())) + "."@ + base64url_nopad(claims)
}

/// The token that carries `claims` under `secret`: what is signed, a full stop and the
/// signature.
pub open spec fn compact(claims: Seq<u8>, secret: Seq<u8>) -> Seq<char> {
    signing_input(claims) + "."@ + hs256_signature(encode_utf8(signing_input(claims)), secret)
}

/// What becomes of claims of `claims` bytes that are to be signed under a secret of
/// `secret` bytes: the length of the claims is tested first.
pub open spec fn refusal(claims: nat, secret: nat) -> Option<Error> {
    if claims > MAX_ENCODE_INPUT {
        Some(Error::TooLong)
    } else if secret > MAX_SIGN_INPUT {
        Some(Error::Signature)
    } else {
        None
    }
}

/// Signs `claims`, the JSON text of a claim set, into a compact token. Claims of more than
/// `MAX_ENCODE_INPUT` bytes and a secret of more than `MAX_SIGN_INPUT` bytes are turned
/// down; all else is signed.
pub fn encode(claims: &[u8], secret: &Secret) -> (r: Result<String, Error>)
    ensures
        match r {
            Ok(token) => refusal(claims@.len(), secret@.len()) is None && token@ == compact(
                claims@,
                secret@,
            ),
            Err(e) => refusal(claims@.len(), secret@.len()) == Some(e),
        },
{
    if claims.len() > MAX_ENCODE_INPUT {
        return Err(Error::TooLong);
    }
    if secret.as_bytes().len() > MAX_SIGN_INPUT {
        return Err(Error::Signature);
    }
    let header = "{\"typ\":\"JWT\",\"alg\":\"HS256\"}";
    proof {
        reveal_strlit("{\"typ\":\"JWT\",\"alg\":\"HS256\"}");
        is_ascii_chars_encode_utf8(header@);
    }
    let mut message = base64url_encode(header.as_bytes());
    let body = base64url_encode(claims);
    proof {
        reveal_strlit(".");
        is_ascii_chars_encode_utf8("."@);
        lemma_bytes_of_joined(message@, "."@);
        lemma_bytes_of_joined(message@ + "."@, body@);
    }
    message.append(".");
    message.append(body.as_str());
    match hs256_sign(message.as_str().as_bytes(), secret.as_bytes()) {
        None => Err(Error::Signature),
        Some(signature) => {
            let mut token = message;
            token.append(".");
            token.append(signature.as_str());
            Ok(token)
        },
    }
}

} // verus!
