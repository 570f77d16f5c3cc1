//! Stateless nonces for proofs of possession. A nonce carries the time it
//! was issued at, random bytes, and an HMAC over both and over the parts of
//! the request it is bound to; the `dpop-verifier` crate makes and checks
//! them.

use crate::encoding::{base64url_decode, base64url_decoded};
use crate::text::{borrowed, optional_view, text_view};
use vstd::prelude::*;
use vstd::utf8::encode_utf8;

verus! {

/// Length of a nonce's bytes: a version, a timestamp, random bytes, a tag.
pub const NONCE_BYTES: usize = 41;

/// Whether a nonce carries a valid tag under `secret` for the given
/// binding, is at most `max_age` seconds old at `now`, and is dated at most
/// five seconds ahead.
pub uninterp spec fn nonce_accepted(
    secret: Seq<u8>,
    nonce: Seq<char>,
    now: i64,
    max_age: i64,
    htu: Option<Seq<char>>,
    htm: Option<Seq<char>>,
    jkt: Option<Seq<char>>,
    client: Option<Seq<char>>,
) -> bool;

/// The number that bytes spell, most significant byte first.
pub open spec fn big_endian(bytes: Seq<u8>) -> nat
    decreases bytes.len(),
{
    if bytes.len() == 0 {
        0
    } else {
        big_endian(bytes.drop_last()) * 256 + bytes.last() as nat
    }
}

/// The time a nonce was issued at: bytes 1 to 8, as a signed 64-bit
/// number.
pub open spec fn nonce_timestamp(nonce: Seq<u8>) -> int {
    let v = big_endian(nonce.subrange(1, 9));
    if v >= 0x8000_0000_0000_0000 {
        v - 0x1_0000_0000_0000_0000
    } else {
        v as int
    }
}

/// Whether the distance between two instants fits 64 signed bits in both
/// directions.
pub open spec fn comparable(a: int, b: int) -> bool {
    i64::MIN <= a - b <= i64::MAX && i64::MIN <= b - a <= i64::MAX
}

/// What holds of every nonce issued at `now` for a binding, whatever its
/// random bytes: it decodes to 41 bytes that carry the time `now`, and it is
/// accepted for the same binding at `now` and at every later instant up to
/// the maximal age.
pub open spec fn nonce_issued(
    secret: Seq<u8>,
    nonce: Seq<char>,
    now: i64,
    htu: Option<Seq<char>>,
    htm: Option<Seq<char>>,
    jkt: Option<Seq<char>>,
    client: Option<Seq<char>>,
) -> bool {
    &&& base64url_decoded(encode_utf8(nonce)) matches Some(bytes) && bytes.len() == NONCE_BYTES
        && nonce_timestamp(bytes) == now
    &&& forall|at: i64, max_age: i64|
        0 <= at - now <= max_age ==> #[trigger] nonce_accepted(
            secret,
            nonce,
            at,
            max_age,
            htu,
            htm,
            jkt,
            client,
        )
}

/// Calls `dpop_verifier::nonce::issue_nonce`. Trusted: the nonce is the
/// base64url text of a version byte, the eight bytes of `now`, sixteen
/// random bytes and a sixteen-byte tag, and `verify_nonce` accepts it for
/// the binding it was issued for, from the instant it was issued at until
/// it is older than the maximal age: the tag does not depend on the time of
/// verification. Tagging with HMAC-SHA-256
/// accepts a key of any length, so the fallback is never taken.
#[verifier::external_body]
pub(crate) fn issue_nonce(
    secret: &[u8],
    now: i64,
    htu: Option<&str>,
    htm: Option<&str>,
    jkt: Option<&str>,
    client: Option<&str>,
) -> (nonce: String)
    ensures
        nonce_issued(
            secret@,
            nonce@,
            now,
            optional_view(htu),
            optional_view(htm),
            optional_view(jkt),
            optional_view(client),
        ),
{
    let ctx = dpop_verifier::nonce::NonceCtx { htu, htm, jkt, client };
    dpop_verifier::nonce::issue_nonce(secret, now, &ctx).unwrap_or_default()
}

/// Calls `dpop_verifier::nonce::verify_nonce`. Trusted: the result says
/// whether the function accepts the nonce. The function subtracts the
/// nonce's timestamp from `now` and `now` from the timestamp, so both
/// differences must fit.
#[verifier::external_body]
pub(crate) fn verify_nonce(
    secret: &[u8],
    nonce: &str,
    now: i64,
    max_age: i64,
    htu: Option<&str>,
    htm: Option<&str>,
    jkt: Option<&str>,
    client: Option<&str>,
) -> (accepted: bool)
    requires
        base64url_decoded(encode_utf8(nonce@)) matches Some(bytes) ==> (bytes.len() == NONCE_BYTES
            ==> comparable(now as int, nonce_timestamp(bytes))),
    ensures
        accepted == nonce_accepted(
            secret@,
            nonce@,
            now,
            max_age,
            optional_view(htu),
            optional_view(htm),
            optional_view(jkt),
            optional_view(client),
        ),
{
    let ctx = dpop_verifier::nonce::NonceCtx { htu, htm, jkt, client };
    dpop_verifier::nonce::verify_nonce(secret, nonce, now, max_age, &ctx).is_ok()
}

/// How nonces are made and checked: with an HMAC over the timestamp, random
/// bytes and the chosen parts of the request.
pub struct HmacConfig {
    /// The symmetric secret; at least 32 bytes are recommended.
    pub secret: Vec<u8>,
    /// Oldest accepted nonce, in seconds.
    pub max_age_seconds: i64,
    /// Whether a nonce is bound to the request's URL and method.
    pub bind_htu_htm: bool,
    /// Whether a nonce is bound to the thumbprint of the client's key.
    pub bind_jkt: bool,
    /// Whether a nonce is bound to the client identifier.
    pub bind_client: bool,
}

/// A nonce configuration, as plain values.
pub ghost struct HmacView {
    pub secret: Seq<u8>,
    pub max_age_seconds: i64,
    pub bind_htu_htm: bool,
    pub bind_jkt: bool,
    pub bind_client: bool,
}

impl View for HmacConfig {
    type V = HmacView;

    open spec fn view(&self) -> HmacView {
        HmacView {
            secret: self.secret@,
            max_age_seconds: self.max_age_seconds,
            bind_htu_htm: self.bind_htu_htm,
            bind_jkt: self.bind_jkt,
            bind_client: self.bind_client,
        }
    }
}

/// Whether a nonce is in order under a configuration: it decodes to 41
/// bytes, its timestamp can be compared with `now`, and its tag, age and
/// date are accepted for the bound parts of the request.
pub open spec fn nonce_in_order(
    config: HmacView,
    nonce: Seq<char>,
    now: i64,
    htu: Seq<char>,
    htm: Seq<char>,
    jkt: Seq<char>,
    client: Option<Seq<char>>,
) -> bool {
    match base64url_decoded(encode_utf8(nonce)) {
        Some(bytes) => bytes.len() == NONCE_BYTES && comparable(
            now as int,
            nonce_timestamp(bytes),
        ) && nonce_accepted(
            config.secret,
            nonce,
            now,
            config.max_age_seconds,
            if config.bind_htu_htm {
                Some(htu)
            } else {
                None
            },
            if config.bind_htu_htm {
                Some(htm)
            } else {
                None
            },
            if config.bind_jkt {
                Some(jkt)
            } else {
                None
            },
            if config.bind_client {
                client
            } else {
                None
            },
        ),
        None => false,
    }
}

/// Whether a nonce issued at `issued` lasts as long as the configuration
/// allows: it is in order at `issued` and at every later instant at which
/// it is no older than the maximal age.
pub open spec fn nonce_lasts(
    config: HmacView,
    nonce: Seq<char>,
    issued: i64,
    htu: Seq<char>,
    htm: Seq<char>,
    jkt: Seq<char>,
    client: Option<Seq<char>>,
) -> bool {
    forall|at: i64|
        0 <= at - issued <= config.max_age_seconds ==> #[trigger] nonce_in_order(
            config,
            nonce,
            at,
            htu,
            htm,
            jkt,
            client,
        )
}

/// 256 to the power `k`, for `k` up to 8.
pub open spec fn byte_range(k: int) -> int {
    if k <= 0 {
        1
    } else if k == 1 {
        0x100
    } else if k == 2 {
        0x1_0000
    } else if k == 3 {
        0x100_0000
    } else if k == 4 {
        0x1_0000_0000
    } else if k == 5 {
        0x100_0000_0000
    } else if k == 6 {
        0x1_0000_0000_0000
    } else if k == 7 {
        0x100_0000_0000_0000
    } else {
        0x1_0000_0000_0000_0000
    }
}

/// Reads the time a nonce was issued at.
pub fn read_timestamp(nonce: &Vec<u8>) -> (timestamp: i64)
    requires
        nonce@.len() >= 9,
    ensures
        timestamp == nonce_timestamp(nonce@),
{
    let mut acc: u64 = 0;
    let mut k: usize = 0;
    proof {
        assert(nonce@.subrange(1, 1) =~= Seq::<u8>::empty());
    }
    while k < 8
        invariant
            nonce@.len() >= 9,
            0 <= k <= 8,
            acc as nat == big_endian(nonce@.subrange(1, 1 + k as int)),
            (acc as int) < byte_range(k as int),
        decreases 8 - k,
    {
        let ghost next = nonce@.subrange(1, 2 + k as int);
        proof {
            assert(next.drop_last() =~= nonce@.subrange(1, 1 + k as int));
            assert(next.last() == nonce@[1 + k as int]);
        }
        let byte: u64 = nonce[1 + k] as u64;
        acc = acc * 256 + byte;
        k += 1;
    }
    if acc >= 0x8000_0000_0000_0000 {
        let low: i64 = (acc - 0x8000_0000_0000_0000) as i64;
        low + i64::MIN
    } else {
        acc as i64
    }
}

fn checked_distance(a: i64, b: i64) -> (fits: bool)
    ensures
        fits == comparable(a as int, b as int),
{
    a.checked_sub(b).is_some() && b.checked_sub(a).is_some()
}

fn bound<'a>(wanted: bool, text: &'a str) -> (part: Option<&'a str>)
    ensures
        optional_view(part) == (if wanted {
            Some(text@)
        } else {
            None
        }),
{
    if wanted {
        Some(text)
    } else {
        None
    }
}

/// Checks a nonce under a configuration.
pub fn check_nonce(
    config: &HmacConfig,
    nonce: &str,
    now: i64,
    htu: &str,
    htm: &str,
    jkt: &str,
    client: &Option<String>,
) -> (valid: bool)
    ensures
        valid == nonce_in_order(config@, nonce@, now, htu@, htm@, jkt@, text_view(*client)),
{
    let bytes = match base64url_decode(nonce.as_bytes()) {
        Some(b) => b,
        None => {
            return false;
        },
    };
    if bytes.len() != NONCE_BYTES {
        return false;
    }
    let timestamp = read_timestamp(&bytes);
    if !checked_distance(now, timestamp) {
        return false;
    }
    let client_part = if config.bind_client {
        borrowed(client)
    } else {
        None
    };
    verify_nonce(
        config.secret.as_slice(),
        nonce,
        now,
        config.max_age_seconds,
        bound(config.bind_htu_htm, htu),
        bound(config.bind_htu_htm, htm),
        bound(config.bind_jkt, jkt),
        client_part,
    )
}

/// Issues a fresh nonce under a configuration, for a challenge. The nonce
/// is in order for the same request from `now` until it is older than the
/// configured maximal age.
pub fn fresh_nonce(
    config: &HmacConfig,
    now: i64,
    htu: &str,
    htm: &str,
    jkt: &str,
    client: &Option<String>,
) -> (nonce: String)
    ensures
        nonce_lasts(config@, nonce@, now, htu@, htm@, jkt@, text_view(*client)),
{
    let client_part = if config.bind_client {
        borrowed(client)
    } else {
        None
    };
    let htu_part = bound(config.bind_htu_htm, htu);
    let htm_part = bound(config.bind_htu_htm, htm);
    let jkt_part = bound(config.bind_jkt, jkt);
    let nonce = issue_nonce(
        config.secret.as_slice(),
        now,
        htu_part,
        htm_part,
        jkt_part,
        client_part,
    );
    proof {
        assert forall|at: i64|
            0 <= at - now <= config.max_age_seconds implies #[trigger] nonce_in_order(
            config@,
            nonce@,
            at,
            htu@,
            htm@,
            jkt@,
            text_view(*client),
        ) by {
            assert(nonce_accepted(
                config.secret@,
                nonce@,
                at,
                config.max_age_seconds,
                optional_view(htu_part),
                optional_view(htm_part),
                optional_view(jkt_part),
                optional_view(client_part),
            ));
        }
    }
    nonce
}

} // verus!
