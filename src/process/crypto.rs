// The cryptographic primitives the signing schemes rest on: names for what each
// outside function computes, and the one call into it that the schemes make.

use vstd::prelude::*;

use chacha20poly1305::aead::{Aead, AeadCore, KeyInit};
use ed25519_dalek::Signer;

verus! {

/// The keyed BLAKE3 hash of `msg` under `key`.
pub uninterp spec fn blake3_keyed(key: Seq<u8>, msg: Seq<u8>) -> Seq<u8>;

/// The Ed25519 signature of `msg` under the secret key `secret`.
pub uninterp spec fn ed25519_signature(secret: Seq<u8>, msg: Seq<u8>) -> Seq<u8>;

/// The encoded Ed25519 public key that belongs to the secret key `secret`.
pub uninterp spec fn ed25519_public_of(secret: Seq<u8>) -> Seq<u8>;

/// Whether `public` is the encoding of a point on the curve.
pub uninterp spec fn ed25519_decodes(public: Seq<u8>) -> bool;

/// Whether strict Ed25519 verification accepts `sig` on `msg` under `public`.
pub uninterp spec fn ed25519_accepts(public: Seq<u8>, msg: Seq<u8>, sig: Seq<u8>) -> bool;

/// The ChaCha20-Poly1305 ciphertext (tag appended) of `msg` under `key` and `nonce`.
pub uninterp spec fn chacha_sealed(key: Seq<u8>, nonce: Seq<u8>, msg: Seq<u8>) -> Seq<u8>;

/// The plaintext that ChaCha20-Poly1305 recovers from `ct` under `key` and `nonce`,
/// or `None` when authentication fails.
pub uninterp spec fn chacha_opened(key: Seq<u8>, nonce: Seq<u8>, ct: Seq<u8>) -> Option<Seq<u8>>;

/// The longest plaintext ChaCha20-Poly1305 encrypts is shorter than this many bytes
/// (64-byte blocks, fewer than `u32::MAX` of them).
pub const CHACHA_MAX_PLAINTEXT: u64 = 274877906880;

#[verifier::external_type_specification]
#[verifier::external_body]
pub struct ExSignatureError(ed25519_dalek::SignatureError);

#[verifier::external_type_specification]
#[verifier::external_body]
pub struct ExAeadError(chacha20poly1305::Error);

/// Relies on blake3::keyed_hash: the 32-byte keyed hash of `msg`, which depends on
/// the key and the message alone.
#[verifier::external_body]
pub(crate) fn keyed_hash(key: &[u8; 32], msg: &[u8]) -> (r: [u8; 32])
    ensures
        r@ == blake3_keyed(key@, msg@),
{
    *blake3::keyed_hash(key, msg).as_bytes()
}

/// Relies on ed25519_dalek's `Signer::sign` for `SigningKey`: the deterministic
/// 64-byte signature of `msg` under the secret key.
#[verifier::external_body]
pub(crate) fn ed25519_sign(secret: &[u8; 32], msg: &[u8]) -> (r: [u8; 64])
    ensures
        r@ == ed25519_signature(secret@, msg@),
{
    ed25519_dalek::SigningKey::from_bytes(secret).sign(msg).to_bytes()
}

/// Relies on ed25519_dalek's `SigningKey::verifying_key`: the public key derived
/// from the secret key, which depends on the secret key alone.
#[verifier::external_body]
pub(crate) fn ed25519_public_key(secret: &[u8; 32]) -> (r: [u8; 32])
    ensures
        r@ == ed25519_public_of(secret@),
{
    ed25519_dalek::SigningKey::from_bytes(secret).verifying_key().to_bytes()
}

/// Relies on ed25519_dalek's `VerifyingKey::from_bytes`, which fails when `public`
/// does not decode to a curve point, and `VerifyingKey::verify_strict`, which
/// accepts or rejects the signature.
#[verifier::external_body]
pub(crate) fn ed25519_verify_strict(public: &[u8; 32], msg: &[u8], sig: &[u8; 64]) -> (r: Result<
    bool,
    ed25519_dalek::SignatureError,
>)
    ensures
        r is Ok <==> ed25519_decodes(public@),
        r matches Ok(b) ==> b == ed25519_accepts(public@, msg@, sig@),
{
    let key = ed25519_dalek::VerifyingKey::from_bytes(public)?;
    Ok(key.verify_strict(msg, &ed25519_dalek::Signature::from_bytes(sig)).is_ok())
}

/// Relies on chacha20poly1305's `Aead::encrypt` with no associated data: it fails
/// only on a plaintext of `CHACHA_MAX_PLAINTEXT` bytes or more, appends the
/// 16-byte tag, and decryption under the same key and nonce gives the plaintext back.
#[verifier::external_body]
pub(crate) fn chacha_encrypt(key: &[u8; 32], nonce: &[u8; 12], msg: &[u8]) -> (r: Result<
    Vec<u8>,
    chacha20poly1305::Error,
>)
    ensures
        r is Err <==> msg@.len() >= CHACHA_MAX_PLAINTEXT,
        r matches Ok(c) ==> c@ == chacha_sealed(key@, nonce@, msg@),
        r matches Ok(c) ==> c@.len() == msg@.len() + 16,
        r matches Ok(c) ==> chacha_opened(key@, nonce@, c@) == Some(msg@),
{
    let cipher = chacha20poly1305::ChaCha20Poly1305::new(chacha20poly1305::Key::from_slice(key));
    cipher.encrypt(chacha20poly1305::Nonce::from_slice(nonce), msg)
}

/// Relies on chacha20poly1305's `Aead::decrypt` with no associated data: it fails
/// exactly when the tag does not authenticate the ciphertext.
#[verifier::external_body]
pub(crate) fn chacha_decrypt(key: &[u8; 32], nonce: &[u8; 12], ct: &[u8]) -> (r: Result<
    Vec<u8>,
    chacha20poly1305::Error,
>)
    ensures
        r is Ok <==> chacha_opened(key@, nonce@, ct@) is Some,
        r matches Ok(p) ==> chacha_opened(key@, nonce@, ct@) == Some(p@),
{
    let cipher = chacha20poly1305::ChaCha20Poly1305::new(chacha20poly1305::Key::from_slice(key));
    cipher.decrypt(chacha20poly1305::Nonce::from_slice(nonce), ct)
}

/// Relies on chacha20poly1305's `KeyInit::generate_key` with the operating
/// system's random source: a fresh random key.
#[verifier::external_body]
pub(crate) fn random_cipher_key() -> (r: [u8; 32]) {
    chacha20poly1305::ChaCha20Poly1305::generate_key(&mut chacha20poly1305::aead::OsRng).into()
}

/// Relies on chacha20poly1305's `AeadCore::generate_nonce` with the operating
/// system's random source: a fresh random nonce.
#[verifier::external_body]
pub(crate) fn random_cipher_nonce() -> (r: [u8; 12]) {
    chacha20poly1305::ChaCha20Poly1305::generate_nonce(&mut chacha20poly1305::aead::OsRng).into()
}

} // verus!
