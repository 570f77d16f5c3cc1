//! Random identifiers: authorization codes, refresh tokens, request URIs,
//! session identifiers. The randomness is the `rand` crate's.

use crate::encoding::{hex_encode, hex_lower};
use rand::{Rng, RngCore};
use vstd::prelude::*;
use vstd::string::*;

verus! {

/// The alphabet of random identifiers: the 26 lower-case letters, the 26
/// upper-case letters and the 10 digits.
pub open spec fn is_base62(c: char) -> bool {
    ('a' <= c && c <= 'z') || ('A' <= c && c <= 'Z') || ('0' <= c && c <= '9')
}

/// Whether a text is made of base62 characters only.
pub open spec fn all_base62(s: Seq<char>) -> bool {
    forall|i: int| 0 <= i < s.len() ==> is_base62(#[trigger] s[i])
}

/// Calls `rand::thread_rng().gen_range(0..bound)`. Trusted: the result lies
/// below `bound`. An empty range would panic, so `bound` must be positive.
#[verifier::external_body]
pub(crate) fn random_index(bound: usize) -> (index: usize)
    requires
        bound > 0,
    ensures
        index < bound,
{
    rand::thread_rng().gen_range(0..bound)
}

/// Calls `rand::thread_rng().fill_bytes` on a buffer of `count` bytes.
/// Trusted: the result has `count` bytes.
#[verifier::external_body]
pub(crate) fn random_bytes(count: usize) -> (bytes: Vec<u8>)
    ensures
        bytes@.len() == count,
{
    let mut bytes = vec![0u8; count];
    rand::thread_rng().fill_bytes(&mut bytes);
    bytes
}

/// Draws a random identifier of `len` base62 characters.
pub fn generate_random_string(len: usize) -> (text: String)
    ensures
        text@.len() == len,
        all_base62(text@),
{
    let charset = "abcdefghijklmnopqrstuvwxyzABCDEFGHIJKLMNOPQRSTUVWXYZ0123456789";
    proof {
        reveal_strlit("abcdefghijklmnopqrstuvwxyzABCDEFGHIJKLMNOPQRSTUVWXYZ0123456789");
        assert(charset@.len() == 62);
        assert(all_base62(charset@));
    }
    let mut text = String::new();
    let mut i: usize = 0;
    while i < len
        invariant
            0 <= i <= len,
            charset@.len() == 62,
            all_base62(charset@),
            text@.len() == i,
            all_base62(text@),
        decreases len - i,
    {
        let index = random_index(62);
        let ghost before = text@;
        let one = charset.substring_char(index, index + 1);
        text.append(one);
        proof {
            assert(one@ =~= seq![charset@[index as int]]);
            assert forall|k: int| 0 <= k < text@.len() implies is_base62(#[trigger] text@[k]) by {
                if k < before.len() {
                    assert(text@[k] == before[k]);
                } else {
                    assert(text@[k] == charset@[index as int]);
                }
            }
        }
        i += 1;
    }
    text
}

/// Whether a text is the lower-case hexadecimal text of `count` bytes.
pub open spec fn is_hex_of(text: Seq<char>, count: nat) -> bool {
    exists|bytes: Seq<u8>| bytes.len() == count && text == #[trigger] hex_lower(bytes)
}

/// Draws a session identifier: 32 random bytes in hexadecimal.
pub fn generate_session_id() -> (id: String)
    ensures
        id@.len() == 64,
        is_hex_of(id@, 32),
{
    let bytes = random_bytes(32);
    hex_encode(bytes.as_slice())
}

/// Draws a nonce pad: 16 random bytes in hexadecimal.
pub fn generate_nonce_pad() -> (pad: String)
    ensures
        pad@.len() == 32,
        is_hex_of(pad@, 16),
{
    let bytes = random_bytes(16);
    hex_encode(bytes.as_slice())
}

} // verus!
