//! Byte-to-text encodings and the digest the protocol is built on. The
//! algorithms themselves live in the `base64`, `sha2`, `hex` and
//! `urlencoding` crates. Hexadecimal and percent-encoding are spelled out
//! here as spec functions; base64 and SHA-256 are given names that
//! contracts can speak of.

use base64::Engine;
use sha2::Digest;
use vstd::prelude::*;

verus! {

/// The unpadded URL-safe base64 text of a byte string (RFC 4648 §5).
pub uninterp spec fn base64url(bytes: Seq<u8>) -> Seq<char>;

/// The bytes that an unpadded URL-safe base64 text stands for, if it is
/// well formed.
pub uninterp spec fn base64url_decoded(text: Seq<u8>) -> Option<Seq<u8>>;

/// The SHA-256 digest of a byte string.
pub uninterp spec fn sha256_digest(bytes: Seq<u8>) -> Seq<u8>;

/// The hexadecimal digit for a number below sixteen, with small or capital
/// letters.
pub open spec fn hex_digit(d: int, capital: bool) -> char {
    if d == 0 {
        '0'
    } else if d == 1 {
        '1'
    } else if d == 2 {
        '2'
    } else if d == 3 {
        '3'
    } else if d == 4 {
        '4'
    } else if d == 5 {
        '5'
    } else if d == 6 {
        '6'
    } else if d == 7 {
        '7'
    } else if d == 8 {
        '8'
    } else if d == 9 {
        '9'
    } else if d == 10 {
        if capital {
            'A'
        } else {
            'a'
        }
    } else if d == 11 {
        if capital {
            'B'
        } else {
            'b'
        }
    } else if d == 12 {
        if capital {
            'C'
        } else {
            'c'
        }
    } else if d == 13 {
        if capital {
            'D'
        } else {
            'd'
        }
    } else if d == 14 {
        if capital {
            'E'
        } else {
            'e'
        }
    } else {
        if capital {
            'F'
        } else {
            'f'
        }
    }
}

/// The lower-case hexadecimal text of a byte string: two digits per byte,
/// the high half first.
pub open spec fn hex_lower(bytes: Seq<u8>) -> Seq<char>
    decreases bytes.len(),
{
    if bytes.len() == 0 {
        Seq::empty()
    } else {
        hex_lower(bytes.drop_last()) + seq![
            hex_digit(bytes.last() as int / 16, false),
            hex_digit(bytes.last() as int % 16, false),
        ]
    }
}

/// Whether a byte is written as it stands in a percent-encoding: the ASCII
/// letters and digits, `-`, `.`, `_` and `~`.
pub open spec fn is_unreserved(b: u8) -> bool {
    (0x30 <= b && b <= 0x39) || (0x41 <= b && b <= 0x5a) || (0x61 <= b && b <= 0x7a) || b == 0x2d
        || b == 0x2e || b == 0x5f || b == 0x7e
}

/// The percent-encoding of one byte: the byte's own character where it is
/// unreserved, else `%` and two capital hexadecimal digits.
pub open spec fn percent_byte(b: u8) -> Seq<char> {
    if is_unreserved(b) {
        seq![b as char]
    } else {
        seq!['%', hex_digit(b as int / 16, true), hex_digit(b as int % 16, true)]
    }
}

/// The percent-encoding of a byte string.
pub open spec fn percent_bytes(bytes: Seq<u8>) -> Seq<char>
    decreases bytes.len(),
{
    if bytes.len() == 0 {
        Seq::empty()
    } else {
        percent_bytes(bytes.drop_last()) + percent_byte(bytes.last())
    }
}

/// The percent-encoding of a text: that of its UTF-8 bytes.
pub open spec fn percent_encoded(text: Seq<char>) -> Seq<char> {
    percent_bytes(vstd::utf8::encode_utf8(text))
}

/// The length of the unpadded base64 text of `n` bytes: four characters
/// for every three bytes, two for one byte left over, three for two.
pub open spec fn base64_length(n: nat) -> nat {
    ((4 * n + 2) / 3) as nat
}

/// Whether a character belongs to the URL-safe base64 alphabet: the ASCII
/// letters and digits, `-` and `_`.
pub open spec fn is_base64url_char(c: char) -> bool {
    ('A' <= c && c <= 'Z') || ('a' <= c && c <= 'z') || ('0' <= c && c <= '9') || c == '-' || c
        == '_'
}

/// Whether a text is made of characters of the URL-safe base64 alphabet
/// only.
pub open spec fn all_base64url(text: Seq<char>) -> bool {
    forall|i: int| 0 <= i < text.len() ==> is_base64url_char(#[trigger] text[i])
}

/// Calls `base64::engine::general_purpose::URL_SAFE_NO_PAD.encode`.
/// Trusted: the result is the unpadded URL-safe base64 text of `bytes`, has
/// the length of such a text, and is made of the URL-safe alphabet only. The call cannot panic: it does so only
/// when the encoded length overflows `usize`, and no slice is that long.
#[verifier::external_body]
pub(crate) fn base64url_encode(bytes: &[u8]) -> (text: String)
    ensures
        text@ == base64url(bytes@),
        text@.len() == base64_length(bytes@.len()),
        all_base64url(text@),
{
    base64::engine::general_purpose::URL_SAFE_NO_PAD.encode(bytes)
}

/// Calls `base64::engine::general_purpose::URL_SAFE_NO_PAD.decode`.
/// Trusted: the result is what the engine decodes the text to, and `None`
/// exactly when the engine reports a decode error.
#[verifier::external_body]
pub(crate) fn base64url_decode(text: &[u8]) -> (bytes: Option<Vec<u8>>)
    ensures
        match bytes {
            Some(b) => base64url_decoded(text@) == Some(b@),
            None => base64url_decoded(text@) is None,
        },
{
    base64::engine::general_purpose::URL_SAFE_NO_PAD.decode(text).ok()
}

/// Calls `sha2::Sha256::digest`. Trusted: the result is the SHA-256 digest
/// of `bytes`, which is 32 bytes long.
#[verifier::external_body]
pub(crate) fn sha256(bytes: &[u8]) -> (digest: Vec<u8>)
    ensures
        digest@ == sha256_digest(bytes@),
        digest@.len() == 32,
{
    sha2::Sha256::digest(bytes).to_vec()
}

/// Calls `hex::encode`. Trusted: the result is the lower-case hexadecimal
/// text of `bytes`, two digits per byte, the high half first.
#[verifier::external_body]
pub(crate) fn hex_encode(bytes: &[u8]) -> (text: String)
    ensures
        text@ == hex_lower(bytes@),
        text@.len() == 2 * bytes@.len(),
{
    hex::encode(bytes)
}

/// Calls `urlencoding::encode`. Trusted: the result is the percent-encoding
/// of the UTF-8 bytes of `text`: unreserved bytes as they stand, every
/// other byte as `%` and two capital hexadecimal digits.
#[verifier::external_body]
pub(crate) fn percent_encode(text: &str) -> (encoded: String)
    ensures
        encoded@ == percent_encoded(text@),
{
    urlencoding::encode(text).into_owned()
}

/// The digest of a text's UTF-8 bytes, as unpadded URL-safe base64: the form
/// in which key thumbprints and access-token hashes travel.
pub open spec fn digest_text(text: Seq<char>) -> Seq<char> {
    base64url(sha256_digest(vstd::utf8::encode_utf8(text)))
}

/// Hashes a text and encodes the digest as unpadded URL-safe base64.
pub fn hash_text(text: &str) -> (encoded: String)
    ensures
        encoded@ == digest_text(text@),
        encoded@.len() == 43,
        all_base64url(encoded@),
{
    let digest = sha256(text.as_bytes());
    base64url_encode(digest.as_slice())
}

} // verus!
