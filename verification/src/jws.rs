//! Compact signed tokens: `header.payload.signature`, each part in
//! unpadded URL-safe base64, signed with ES256.

use crate::crypto::{es256_accepts, es256_sign, es256_signature};
use crate::encoding::{base64url, base64url_decode, base64url_decoded, base64url_encode};
use vstd::prelude::*;
use vstd::string::*;
use vstd::utf8::encode_utf8;

verus! {

/// What is signed: the encoded header, a dot, the encoded payload.
pub open spec fn signing_input(header: Seq<char>, payload: Seq<char>) -> Seq<char> {
    base64url(encode_utf8(header)) + seq!['.'] + base64url(encode_utf8(payload))
}

/// A signing input followed by a dot and the encoded signature.
pub open spec fn with_signature(input: Seq<char>, signature: Seq<u8>) -> Seq<char> {
    input + seq!['.'] + base64url(signature)
}

/// The compact token over a header and a payload given as JSON texts,
/// signed with the private scalar `secret`; `None` when `secret` cannot
/// sign.
pub open spec fn compact_jws(header: Seq<char>, payload: Seq<char>, secret: Seq<u8>) -> Option<
    Seq<char>,
> {
    match es256_signature(secret, encode_utf8(signing_input(header, payload))) {
        Some(signature) => Some(with_signature(signing_input(header, payload), signature)),
        None => None,
    }
}

/// Whether `secret` signs the token over a header and a payload, with a
/// signature that verifies over the signing input under the public key that
/// belongs to `secret`.
pub open spec fn signature_accepted(header: Seq<char>, payload: Seq<char>, secret: Seq<u8>)
    -> bool {
    let input = encode_utf8(signing_input(header, payload));
    es256_signature(secret, input) matches Some(signature) && es256_accepts(
        secret,
        input,
        signature,
    )
}

/// Joins an encoded header and an encoded payload into a signing input.
pub fn join_signing_input(header: &str, payload: &str) -> (input: String)
    ensures
        input@ == header@ + seq!['.'] + payload@,
{
    proof {
        reveal_strlit(".");
        assert("."@ =~= seq!['.']);
    }
    String::from_str(header).concat(".").concat(payload)
}

/// Appends a signature to a signing input.
pub fn attach_signature(input: &str, signature: &[u8]) -> (token: String)
    ensures
        token@ == with_signature(input@, signature@),
{
    proof {
        reveal_strlit(".");
        assert("."@ =~= seq!['.']);
    }
    String::from_str(input).concat(".").concat(base64url_encode(signature).as_str())
}

/// Encodes and signs a header and a payload given as JSON texts. The
/// signature of a token that is returned verifies under the public key that
/// belongs to `secret`.
pub fn sign_compact(header: &str, payload: &str, secret: &[u8]) -> (token: Option<String>)
    ensures
        match token {
            Some(t) => compact_jws(header@, payload@, secret@) == Some(t@),
            None => compact_jws(header@, payload@, secret@) is None,
        },
        token is Some ==> signature_accepted(header@, payload@, secret@),
{
    let h = base64url_encode(header.as_bytes());
    let p = base64url_encode(payload.as_bytes());
    let input = join_signing_input(h.as_str(), p.as_str());
    match es256_sign(secret, input.as_str().as_bytes()) {
        Some(signature) => Some(attach_signature(input.as_str(), signature.as_slice())),
        None => None,
    }
}

/// Decodes one part of a token.
pub fn decode_part(part: &str) -> (bytes: Option<Vec<u8>>)
    ensures
        match bytes {
            Some(b) => base64url_decoded(encode_utf8(part@)) == Some(b@),
            None => base64url_decoded(encode_utf8(part@)) is None,
        },
{
    base64url_decode(part.as_bytes())
}

} // verus!
