//! Digests, encodings, signatures and random identifiers, as other crates compute them.

use base64::Engine;
use crate::bounded_string::SecureString;
use crate::bounded_string::text_len;
use rand::Rng;
use rand::SeedableRng;
use sha2::Digest;
use vstd::pervasive::unreached;
use vstd::prelude::*;

verus! {

/// Number of random bytes behind every generated identifier, and fewest bytes of a text that
/// must resist guessing.
pub const SECURE_LENGTH: usize = 20;

/// Longest input handed to a base64 encoder, so that the length of the encoding fits in `usize`
/// on every platform.
pub const MAX_ENCODE_INPUT: usize = 0x4000_0000;

/// Longest message handed to the signer, and longest secret: both far below what the
/// digest behind the signature can take in.
pub const MAX_SIGN_INPUT: usize = 0xffff_ffff;

/// The SHA-256 digest of `data`.
pub uninterp spec fn sha256_digest(data: Seq<u8>) -> Seq<u8>;

/// The base64 encoding of `data` in the URL-safe alphabet, without padding.
pub uninterp spec fn base64url_nopad(data: Seq<u8>) -> Seq<char>;

/// Whether `text` is the unpadded URL-safe base64 encoding of some bytes.
pub uninterp spec fn is_base64url(text: Seq<char>) -> bool;

/// The base64 encoding of `data` in the standard alphabet, with padding.
pub uninterp spec fn base64_padded(data: Seq<u8>) -> Seq<char>;

/// The HMAC-SHA256 tag of `message` under `secret`, in unpadded URL-safe base64.
pub uninterp spec fn hs256_signature(message: Seq<u8>, secret: Seq<u8>) -> Seq<char>;

/// Number of bytes in the unpadded base64 encoding of `len` bytes.
pub open spec fn unpadded_len(len: nat) -> nat {
    4 * (len / 3) + if len % 3 == 0 {
        0nat
    } else {
        len % 3 + 1
    }
}

/// Number of bytes in the padded base64 encoding of `len` bytes.
pub open spec fn padded_len(len: nat) -> nat {
    4 * ((len + 2) / 3)
}

/// Calls `sha2::Sha256::digest`. Trusted: the result is the SHA-256 digest of `data`, which
/// has 32 bytes.
#[verifier::external_body]
pub(crate) fn sha256(data: &[u8]) -> (digest: Vec<u8>)
    ensures
        digest@ == sha256_digest(data@),
        digest@.len() == 32,
{
    sha2::Sha256::digest(data).to_vec()
}

/// Calls `encode` on base64's `URL_SAFE_NO_PAD` engine. Trusted: the result is the unpadded
/// URL-safe encoding of `data`, four bytes of text for every three bytes of input and two or
/// three for what is left over. The engine panics only where the encoded length overflows,
/// which the bound on `data` rules out.
#[verifier::external_body]
pub(crate) fn base64url_encode(data: &[u8]) -> (text: String)
    requires
        data@.len() <= MAX_ENCODE_INPUT,
    ensures
        text@ == base64url_nopad(data@),
        text_len(text@) == unpadded_len(data@.len()),
{
    base64::engine::general_purpose::URL_SAFE_NO_PAD.encode(data)
}

/// Calls `decode` on base64's `URL_SAFE_NO_PAD` engine and drops the bytes. Trusted: the engine
/// accepts exactly the texts for which `is_base64url` holds.
#[verifier::external_body]
pub(crate) fn base64url_decodes(text: &str) -> (accepted: bool)
    ensures
        accepted == is_base64url(text@),
{
    base64::engine::general_purpose::URL_SAFE_NO_PAD.decode(text).is_ok()
}

/// Calls `encode` on base64's `STANDARD` engine. Trusted: the result is the padded standard
/// encoding of `data`, four bytes of text for every three bytes of input, the last group
/// filled up.
#[verifier::external_body]
pub(crate) fn base64_encode(data: &[u8]) -> (text: String)
    requires
        data@.len() <= MAX_ENCODE_INPUT,
    ensures
        text@ == base64_padded(data@),
        text_len(text@) == padded_len(data@.len()),
{
    base64::engine::general_purpose::STANDARD.encode(data)
}

/// Calls `jsonwebtoken::crypto::sign` with a key made by `EncodingKey::from_secret` and the
/// algorithm HS256. Trusted: for this algorithm the call always succeeds, and the result is
/// the encoded HMAC-SHA256 tag of `message`. The digest panics on more input than it can
/// count, which the bounds rule out.
#[verifier::external_body]
pub(crate) fn hs256_sign(message: &[u8], secret: &[u8]) -> (signature: Option<String>)
    requires
        message@.len() <= MAX_SIGN_INPUT,
        secret@.len() <= MAX_SIGN_INPUT,
    ensures
        signature is Some,
        signature.unwrap()@ == hs256_signature(message@, secret@),
{
    let key = jsonwebtoken::EncodingKey::from_secret(secret);
    jsonwebtoken::crypto::sign(message, &key, jsonwebtoken::Algorithm::HS256).ok()
}

/// The generator of rand that the server draws its identifiers from.
#[verifier::external_type_specification]
#[verifier::external_body]
pub struct ExStdRng(rand::rngs::StdRng);

/// Calls `seed_from_u64` of rand's `StdRng`. Nothing is claimed of the generator.
#[verifier::external_body]
pub(crate) fn seeded_rng(seed: u64) -> rand::rngs::StdRng {
    rand::rngs::StdRng::seed_from_u64(seed)
}

/// Calls `gen` of rand's `Rng` for one byte. Nothing is claimed of the byte.
#[verifier::external_body]
pub(crate) fn random_byte(rng: &mut rand::rngs::StdRng) -> u8 {
    rng.gen::<u8>()
}

/// What `strong_random_bytes` can return: the padded base64 text of some twenty bytes.
pub open spec fn is_random_text(text: Seq<char>) -> bool {
    exists|block: Seq<u8>| block.len() == SECURE_LENGTH && text == #[trigger] base64_padded(block)
}

/// Draws twenty bytes from `rng`, one after the other, and encodes them in padded standard
/// base64. The text has 28 bytes, whatever was drawn.
pub fn strong_random_bytes(rng: &mut rand::rngs::StdRng) -> (text: String)
    ensures
        is_random_text(text@),
        text_len(text@) == 28,
{
    let mut block: Vec<u8> = Vec::new();
    while block.len() < SECURE_LENGTH
        invariant
            block@.len() <= SECURE_LENGTH,
        decreases SECURE_LENGTH - block@.len(),
    {
        block.push(random_byte(rng));
    }
    base64_encode(block.as_slice())
}

/// A fresh identifier: `strong_random_bytes` as a secure string, of 28 bytes.
pub fn random_secure_string(rng: &mut rand::rngs::StdRng) -> (id: SecureString)
    ensures
        is_random_text(id@),
        text_len(id@) == 28,
{
    let text = strong_random_bytes(rng);
    match SecureString::try_from(text.as_str()) {
        Ok(id) => id,
        Err(_) => unreached(),
    }
}

} // verus!
