//! Ed25519 signing and verification through `ring`.
use ring::signature::KeyPair;
use vstd::prelude::*;

verus! {

/// Declares `ring::signature::Ed25519KeyPair`, carried opaquely.
#[verifier::external_type_specification]
#[verifier::external_body]
pub struct ExEd25519KeyPair(ring::signature::Ed25519KeyPair);

/// Declares `ring::error::KeyRejected`, carried opaquely.
#[verifier::external_type_specification]
#[verifier::external_body]
pub struct ExKeyRejected(ring::error::KeyRejected);

/// Whether `ring` accepts `pkcs8` as a PKCS#8 v2 encoded Ed25519 key pair
/// (`Ed25519KeyPair::from_pkcs8` returns `Ok`).
pub uninterp spec fn pkcs8_accepted(pkcs8: Seq<u8>) -> bool;

/// The Ed25519 signature of `message` under the key pair encoded by `pkcs8`
/// (`Ed25519KeyPair::sign`). Ed25519 signing is deterministic.
pub uninterp spec fn ed25519_sign(pkcs8: Seq<u8>, message: Seq<u8>) -> Seq<u8>;

/// The public key of the key pair encoded by `pkcs8`
/// (`Ed25519KeyPair::public_key`).
pub uninterp spec fn ed25519_public_key(pkcs8: Seq<u8>) -> Seq<u8>;

/// Whether `signature` is a valid Ed25519 signature of `message` under the
/// public key `public_key` (`UnparsedPublicKey::verify` with `ED25519`).
pub uninterp spec fn ed25519_verify(public_key: Seq<u8>, message: Seq<u8>, signature: Seq<u8>) -> bool;

/// Why a signing key was not accepted.
#[derive(Debug, Clone, Copy, PartialEq, Eq)]
pub enum SignError {
    /// The private key is not a PKCS#8 Ed25519 key pair that `ring` accepts.
    KeyRejected,
}

/// An Ed25519 key pair together with the PKCS#8 document it was parsed from.
/// Values are only made by `signing_key_from_pkcs8`, so `pair` is always the
/// key pair that `pkcs8` encodes.
pub(crate) struct SigningKey {
    pkcs8: Vec<u8>,
    pair: ring::signature::Ed25519KeyPair,
}

impl View for SigningKey {
    type V = Seq<u8>;

    /// The PKCS#8 document of the key pair.
    closed spec fn view(&self) -> Seq<u8> {
        self.pkcs8@
    }
}

/// Calls `ring::signature::Ed25519KeyPair::from_pkcs8`. The parse is a
/// deterministic function of the document: it succeeds exactly when
/// `pkcs8_accepted` holds, and the key it gives is the one the document encodes.
/// Nothing is stated of which documents are accepted.
#[verifier::external_body]
pub(crate) fn signing_key_from_pkcs8(pkcs8: &[u8]) -> (res: Result<SigningKey, ring::error::KeyRejected>)
    ensures
        res is Ok <==> pkcs8_accepted(pkcs8@),
        res matches Ok(k) ==> k@ == pkcs8@,
{
    match ring::signature::Ed25519KeyPair::from_pkcs8(pkcs8) {
        Ok(pair) => Ok(SigningKey { pkcs8: pkcs8.to_vec(), pair }),
        Err(e) => Err(e),
    }
}

/// Calls `Ed25519KeyPair::sign` and returns the signature bytes; the result
/// is the deterministic Ed25519 signature named by `ed25519_sign`, and, as
/// for every Ed25519 signature made with a key pair, it verifies under that
/// key pair's public key.
#[verifier::external_body]
pub(crate) fn sign_message(key: &SigningKey, message: &[u8]) -> (sig: Vec<u8>)
    ensures
        sig@ == ed25519_sign(key@, message@),
        ed25519_verify(ed25519_public_key(key@), message@, sig@),
{
    key.pair.sign(message).as_ref().to_vec()
}

/// Calls `Ed25519KeyPair::public_key` and returns its bytes.
#[verifier::external_body]
pub(crate) fn public_key_of(key: &SigningKey) -> (pk: Vec<u8>)
    ensures
        pk@ == ed25519_public_key(key@),
{
    key.pair.public_key().as_ref().to_vec()
}

/// Calls `ring::signature::UnparsedPublicKey::verify` for an `ED25519` key
/// holding the bytes `public_key`; the answer depends on the three byte
/// strings alone and is named by `ed25519_verify`. Only a 32-byte public key
/// and a 64-byte signature can verify.
#[verifier::external_body]
pub(crate) fn verify_signature(public_key: &[u8], message: &[u8], signature: &[u8]) -> (ok: bool)
    ensures
        ok == ed25519_verify(public_key@, message@, signature@),
        ok ==> public_key@.len() == 32 && signature@.len() == 64,
{
    ring::signature::UnparsedPublicKey::new(&ring::signature::ED25519, public_key).verify(
        message,
        signature,
    ).is_ok()
}

/// Signs `message` with the key pair encoded by the PKCS#8 document
/// `pkcs8`, or reports that the document is not an accepted key pair.
pub fn sign_with_pkcs8(pkcs8: &[u8], message: &[u8]) -> (res: Result<Vec<u8>, SignError>)
    ensures
        res is Ok <==> pkcs8_accepted(pkcs8@),
        res matches Ok(sig) ==> sig@ == ed25519_sign(pkcs8@, message@),
        res matches Ok(sig) ==> ed25519_verify(ed25519_public_key(pkcs8@), message@, sig@),
        res matches Err(e) ==> e == SignError::KeyRejected,
{
    match signing_key_from_pkcs8(pkcs8) {
        Ok(key) => Ok(sign_message(&key, message)),
        Err(_) => Err(SignError::KeyRejected),
    }
}

/// The public key of the key pair encoded by the PKCS#8 document `pkcs8`,
/// or a report that the document is not an accepted key pair.
pub fn public_key_of_pkcs8(pkcs8: &[u8]) -> (res: Result<Vec<u8>, SignError>)
    ensures
        res is Ok <==> pkcs8_accepted(pkcs8@),
        res matches Ok(pk) ==> pk@ == ed25519_public_key(pkcs8@),
        res matches Err(e) ==> e == SignError::KeyRejected,
{
    match signing_key_from_pkcs8(pkcs8) {
        Ok(key) => Ok(public_key_of(&key)),
        Err(_) => Err(SignError::KeyRejected),
    }
}

} // verus!
