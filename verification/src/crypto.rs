//! ES256 (ECDSA over P-256 with SHA-256) as the proxy needs it. Keys are
//! held as plain bytes and texts; the arithmetic is the `p256` crate's.

use p256::ecdsa::signature::{Signer, Verifier};
use vstd::prelude::*;

verus! {

/// The 64-byte ES256 signature (r then s) that the private scalar `secret`
/// gives for `message`, with the deterministic nonce of RFC 6979; `None`
/// when `secret` is no valid private scalar.
pub uninterp spec fn es256_signature(secret: Seq<u8>, message: Seq<u8>) -> Option<Seq<u8>>;

/// Whether `signature` is a valid ES256 signature of `message` under the
/// public key that belongs to the private scalar `secret`.
pub uninterp spec fn es256_accepts(secret: Seq<u8>, message: Seq<u8>, signature: Seq<u8>) -> bool;

/// Whether `signature` is a valid ES256 signature of `message` under the
/// public key with the base64url coordinates `x` and `y`.
pub uninterp spec fn es256_point_accepts(
    x: Seq<char>,
    y: Seq<char>,
    message: Seq<u8>,
    signature: Seq<u8>,
) -> bool;

/// The affine coordinates (x, y) of the public key that belongs to the
/// private scalar `secret`; `None` when `secret` is no valid private scalar.
pub uninterp spec fn p256_public_point(secret: Seq<u8>) -> Option<(Seq<u8>, Seq<u8>)>;

/// Calls `p256::ecdsa::SigningKey::from_slice` and `try_sign`. Trusted: the
/// result is the signature's 64 bytes, and `None` exactly when the key is
/// rejected or signing fails; a signature that is returned verifies for the
/// same message under the public key that belongs to `secret`.
#[verifier::external_body]
pub(crate) fn es256_sign(secret: &[u8], message: &[u8]) -> (signature: Option<Vec<u8>>)
    ensures
        match signature {
            Some(s) => es256_signature(secret@, message@) == Some(s@) && s@.len() == 64
                && es256_accepts(secret@, message@, s@),
            None => es256_signature(secret@, message@) is None,
        },
{
    let key = p256::ecdsa::SigningKey::from_slice(secret).ok()?;
    let signature: p256::ecdsa::Signature = key.try_sign(message).ok()?;
    Some(signature.to_bytes().to_vec())
}

/// Calls `p256::ecdsa::SigningKey::from_slice`, `Signature::from_slice` and
/// `VerifyingKey::verify`. Trusted: the result says whether the signature
/// verifies; a key or signature that cannot be read verifies nothing.
#[verifier::external_body]
pub(crate) fn es256_verify(secret: &[u8], message: &[u8], signature: &[u8]) -> (valid: bool)
    ensures
        valid == es256_accepts(secret@, message@, signature@),
{
    let key = p256::ecdsa::SigningKey::from_slice(secret);
    let signature = p256::ecdsa::Signature::from_slice(signature);
    match (key, signature) {
        (Ok(k), Ok(s)) => k.verifying_key().verify(message, &s).is_ok(),
        _ => false,
    }
}

/// Calls `dpop_verifier::verifying_key_from_p256_xy`,
/// `p256::ecdsa::Signature::from_slice` and `VerifyingKey::verify`.
/// Trusted: the result says whether the signature verifies under the point
/// (x, y); coordinates that are not a point of the curve, or a signature
/// that cannot be read, verify nothing.
#[verifier::external_body]
pub(crate) fn es256_verify_point(x: &str, y: &str, message: &[u8], signature: &[u8]) -> (valid:
    bool)
    ensures
        valid == es256_point_accepts(x@, y@, message@, signature@),
{
    let key = dpop_verifier::verifying_key_from_p256_xy(x, y);
    let signature = p256::ecdsa::Signature::from_slice(signature);
    match (key, signature) {
        (Ok(k), Ok(s)) => k.verify(message, &s).is_ok(),
        _ => false,
    }
}

/// Calls `p256::ecdsa::SigningKey::from_slice` and
/// `VerifyingKey::to_encoded_point`. Trusted: the result holds the two
/// 32-byte coordinates of the public key, and is `None` exactly when the key
/// is rejected.
#[verifier::external_body]
pub(crate) fn public_point(secret: &[u8]) -> (point: Option<(Vec<u8>, Vec<u8>)>)
    ensures
        match point {
            Some((x, y)) => p256_public_point(secret@) == Some((x@, y@)) && x@.len() == 32
                && y@.len() == 32,
            None => p256_public_point(secret@) is None,
        },
{
    let key = p256::ecdsa::SigningKey::from_slice(secret).ok()?;
    let point = key.verifying_key().to_encoded_point(false);
    Some((point.x()?.to_vec(), point.y()?.to_vec()))
}

/// Calls `p256::ecdsa::SigningKey::random` with the operating system's
/// generator. Trusted: the result is the 32 bytes of a valid private scalar:
/// the key is drawn as a scalar that is not zero, so reading the bytes back
/// gives a key with a public point.
#[verifier::external_body]
pub(crate) fn random_secret() -> (secret: Vec<u8>)
    ensures
        secret@.len() == 32,
        p256_public_point(secret@) is Some,
{
    p256::ecdsa::SigningKey::random(&mut rand::rngs::OsRng).to_bytes().to_vec()
}

/// The private key with which the proxy signs the tokens it issues: a
/// P-256 private scalar.
pub struct SigningKey {
    pub secret: Vec<u8>,
}

impl View for SigningKey {
    type V = Seq<u8>;

    open spec fn view(&self) -> Seq<u8> {
        self.secret@
    }
}

impl SigningKey {
    /// Wraps the bytes of a private scalar.
    pub fn from_bytes(secret: Vec<u8>) -> (key: SigningKey)
        ensures
            key@ == secret@,
    {
        SigningKey { secret }
    }

    /// Draws a fresh key: the 32 bytes of a valid private scalar.
    pub fn generate() -> (key: SigningKey)
        ensures
            key@.len() == 32,
            p256_public_point(key@) is Some,
    {
        SigningKey { secret: random_secret() }
    }

    /// The bytes of the private scalar.
    pub fn to_bytes(&self) -> (bytes: Vec<u8>)
        ensures
            bytes@ == self@,
    {
        self.secret.clone()
    }
}

} // verus!
