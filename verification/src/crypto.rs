//! Ed25519 signatures carried as standard Base64 text.
//!
//! Keys are held as plain bytes: a signing key is its 32-byte secret, a
//! verifying key is its 32-byte compressed point, a signature its 64 bytes.

use base64::engine::general_purpose;
use base64::Engine;
use ed25519_dalek::Signer;
use ed25519_dalek::Verifier;
use vstd::prelude::*;
use vstd::utf8::encode_utf8;
use crate::base64_text::{
    base64_standard_decode, base64_standard_encode, lemma_decode_encode, lemma_decoded_len, lemma_encode_len,
    lemma_encode_two_pads,
};

verus! {

/// The 64 signature bytes that Ed25519 (RFC 8032) gives for `message`
/// under the signing key whose secret is `secret`.
pub uninterp spec fn ed25519_signature(secret: Seq<u8>, message: Seq<u8>) -> Seq<u8>;

/// The 32-byte compressed verifying key that belongs to the signing key
/// whose secret is `secret`.
pub uninterp spec fn ed25519_verifying_key(secret: Seq<u8>) -> Seq<u8>;

/// Whether the Ed25519 check accepts `signature` over `message` under the
/// verifying key whose compressed bytes are `public`.
pub uninterp spec fn ed25519_accepts(public: Seq<u8>, message: Seq<u8>, signature: Seq<u8>) -> bool;

/// The bytes of an optional byte vector.
pub open spec fn optional_bytes(v: Option<Vec<u8>>) -> Option<Seq<u8>> {
    match v {
        Some(b) => Some(b@),
        None => None,
    }
}

/// The signature text that `sign_data` produces for `data` under `secret`.
pub open spec fn signature_text(secret: Seq<u8>, data: Seq<char>) -> Seq<char> {
    base64_standard_encode(ed25519_signature(secret, encode_utf8(data)))
}

/// Whether `verify_data` accepts `signature_text` over `data` under the
/// verifying key `public`: the text must decode as Base64 to exactly 64
/// bytes, and those bytes must pass the Ed25519 check.
pub open spec fn signature_accepted(data: Seq<char>, signature_text: Seq<char>, public: Seq<u8>) -> bool {
    match base64_standard_decode(signature_text) {
        Some(bytes) => bytes.len() == 64 && ed25519_accepts(public, encode_utf8(data), bytes),
        None => false,
    }
}

/// Whether `signature_text` is what the key with secret `secret` signs
/// `data` into (a 64-byte Ed25519 signature in Base64), and `public` is
/// that key's verifying key.
pub open spec fn signed_by(secret: Seq<u8>, public: Seq<u8>, data: Seq<char>, signature_text: Seq<char>) -> bool {
    &&& secret.len() == 32
    &&& public == ed25519_verifying_key(secret)
    &&& ed25519_signature(secret, encode_utf8(data)).len() == 64
    &&& signature_text == crate::crypto::signature_text(secret, data)
}

/// Signs `message` with `ed25519_dalek::SigningKey::from_bytes(secret)`
/// (through the `Signer` trait) and returns `Signature::to_bytes`.
/// Claimed: the bytes are `ed25519_signature(secret, message)`; Ed25519
/// signing is deterministic, so they depend on the two arguments alone.
#[verifier::external_body]
fn ed25519_sign(secret: &[u8; 32], message: &[u8]) -> (signature: [u8; 64])
    ensures
        signature@ == ed25519_signature(secret@, message@),
{
    ed25519_dalek::SigningKey::from_bytes(secret).sign(message).to_bytes()
}

/// Returns `SigningKey::from_bytes(secret).verifying_key().to_bytes()`.
/// Claimed: the bytes are `ed25519_verifying_key(secret)`.
#[verifier::external_body]
pub(crate) fn ed25519_public_key(secret: &[u8; 32]) -> (public: [u8; 32])
    ensures
        public@ == ed25519_verifying_key(secret@),
{
    ed25519_dalek::SigningKey::from_bytes(secret).verifying_key().to_bytes()
}

/// Decompresses `public` with `VerifyingKey::from_bytes` (a point that does
/// not decompress is refused) and runs `Verifier::verify` on `message` and
/// `Signature::from_bytes(signature)`.
/// Claimed: the answer is `ed25519_accepts(public, message, signature)`, and
/// a signature that the matching signing key made over the same message is
/// accepted, as the crate's documentation shows.
#[verifier::external_body]
fn ed25519_verify(public: &[u8; 32], message: &[u8], signature: &[u8; 64]) -> (ok: bool)
    ensures
        ok == ed25519_accepts(public@, message@, signature@),
        forall|secret: Seq<u8>|
            secret.len() == 32 && public@ == #[trigger] ed25519_verifying_key(secret)
                && signature@ == ed25519_signature(secret, message@) ==> ok,
{
    match ed25519_dalek::VerifyingKey::from_bytes(public) {
        Ok(key) => key.verify(message, &ed25519_dalek::Signature::from_bytes(signature)).is_ok(),
        Err(_) => false,
    }
}

/// The signature bytes in `bytes`, under the rule of
/// `ed25519::Signature::from_slice`: exactly 64 bytes make a signature,
/// kept as they are; any other length makes none.
fn signature_from_slice(bytes: &[u8]) -> (signature: Option<[u8; 64]>)
    ensures
        signature is Some <==> bytes@.len() == 64,
        signature matches Some(s) ==> s@ == bytes@,
{
    if bytes.len() != 64 {
        return None;
    }
    let mut sig: [u8; 64] = [0u8; 64];
    let mut i: usize = 0;
    while i < 64
        invariant
            bytes@.len() == 64,
            i <= 64,
            forall|j: int| 0 <= j < i ==> sig@[j] == bytes@[j],
        decreases 64 - i,
    {
        sig[i] = bytes[i];
        i = i + 1;
    }
    assert(sig@ =~= bytes@);
    Some(sig)
}

/// Calls `base64::engine::general_purpose::STANDARD.encode(bytes)`.
/// Claimed: the text is the padded standard Base64 of the bytes,
/// `base64_standard_encode(bytes)`. The input is bounded
/// so that the crate's computation of the output length cannot overflow.
#[verifier::external_body]
fn base64_encode(bytes: &[u8]) -> (text: String)
    requires
        bytes@.len() <= 0x3fff_ffff,
    ensures
        text@ == base64_standard_encode(bytes@),
{
    general_purpose::STANDARD.encode(bytes)
}

/// Calls `base64::engine::general_purpose::STANDARD.decode(text)` and keeps
/// the bytes, dropping the error. Claimed: the outcome is
/// `base64_standard_decode(text)`, that is, the engine (canonical padding
/// required, no trailing bits allowed) accepts exactly the padded standard
/// Base64 texts of byte sequences, and gives those bytes back.
#[verifier::external_body]
fn base64_decode(text: &str) -> (decoded: Option<Vec<u8>>)
    ensures
        optional_bytes(decoded) == base64_standard_decode(text@),
{
    general_purpose::STANDARD.decode(text).ok()
}

/// Signs `data` with the signing key whose secret is `secret` and returns
/// the signature as padded standard Base64 text.
pub fn sign_data(data: &str, secret: &[u8; 32]) -> (signature: String)
    ensures
        signature@ == signature_text(secret@, data@),
        ed25519_signature(secret@, encode_utf8(data@)).len() == 64,
        signature@.len() == 88,
        signature@[86] == '=' && signature@[87] == '=',
{
    let sig = ed25519_sign(secret, data.as_bytes());
    let text = base64_encode(sig.as_slice());
    proof {
        lemma_encode_len(sig@);
        lemma_encode_two_pads(sig@);
    }
    text
}

/// Checks that `signature_b64` is the Base64 text of a 64-byte Ed25519
/// signature over `data` under `verifying_key`. Text that is not Base64,
/// or that decodes to another length, is refused: only texts of 88
/// characters can pass, so an empty, a short or an unpadded text fails.
pub fn verify_data(data: &str, signature_b64: &str, verifying_key: &[u8; 32]) -> (ok: bool)
    ensures
        ok == signature_accepted(data@, signature_b64@, verifying_key@),
        ok ==> signature_b64@.len() == 88,
        forall|secret: Seq<u8>| #[trigger] signed_by(secret, verifying_key@, data@, signature_b64@) ==> ok,
{
    let decoded = base64_decode(signature_b64);
    proof {
        lemma_decoded_len(signature_b64@);
        assert forall|secret: Seq<u8>| #[trigger] signed_by(secret, verifying_key@, data@, signature_b64@)
            implies optional_bytes(decoded) == Some(ed25519_signature(secret, encode_utf8(data@))) by {
            lemma_decode_encode(ed25519_signature(secret, encode_utf8(data@)));
        }
    }
    let sig_bytes = match decoded {
        Some(bytes) => bytes,
        None => return false,
    };
    let signature = match signature_from_slice(sig_bytes.as_slice()) {
        Some(sig) => sig,
        None => return false,
    };
    let ok = ed25519_verify(verifying_key, data.as_bytes(), &signature);
    ok
}

} // verus!
