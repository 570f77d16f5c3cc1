//! JSON Web Keys: RFC 7638 thumbprints and public-only projections.
//!
//! A key is held as the ordered list of its JSON members, each value as
//! compact JSON text, so that a thumbprint is computed over exactly the
//! member values the key was given with.

use crate::encoding::{all_base64url, base64url_decode, base64url_decoded, digest_text, hash_text};
use crate::error::Error;
use crate::json::{
    find_member, json_members, json_quoted, json_string, lookup, member_views, object_text,
    parse_object, parse_string, quote, raw_member, write_object, JsonMember,
};
use crate::text::same_text;
use vstd::prelude::*;
use vstd::string::*;

verus! {

/// A JSON Web Key.
pub struct Jwk {
    pub members: Vec<JsonMember>,
}

impl View for Jwk {
    type V = Seq<(Seq<char>, Seq<char>)>;

    open spec fn view(&self) -> Seq<(Seq<char>, Seq<char>)> {
        member_views(self.members@)
    }
}

/// Whether a JSON document is a key as the `jose-jwk` crate reads one: a
/// known key type with the members that type requires, well encoded.
pub uninterp spec fn well_formed_jwk(doc: Seq<u8>) -> bool;

/// Calls `serde_json::from_slice` for a `jose_jwk::Jwk`. Trusted: the
/// result says whether the document is read as a key.
#[verifier::external_body]
pub(crate) fn check_jwk(doc: &[u8]) -> (well_formed: bool)
    ensures
        well_formed == well_formed_jwk(doc@),
{
    serde_json::from_slice::<jose_jwk::Jwk>(doc).is_ok()
}

/// Why a key has no thumbprint.
pub enum JwkError {
    /// A member that the key type requires is absent.
    MissingMember { key_type: String, member: String },
    /// The key type is none of `EC`, `RSA`, `OKP`.
    UnsupportedKey(String),
    /// The document is no JSON object, or its `kty` is no string.
    MalformedJwk,
}

/// What computing a thumbprint comes to, over plain texts.
pub enum ThumbprintOutcome {
    Digest(Seq<char>),
    Missing(Seq<char>, Seq<char>),
    Unsupported(Seq<char>),
    Malformed,
}

/// The key type of a key: the text of its `kty` member.
pub open spec fn key_type_of(jwk: Seq<(Seq<char>, Seq<char>)>) -> Option<Seq<char>> {
    match lookup(jwk, "kty"@) {
        Some(v) => json_string(vstd::utf8::encode_utf8(v)),
        None => None,
    }
}

/// The members that enter the thumbprint of a key of the given type, in
/// lexicographic order; `None` for an unknown type.
pub open spec fn required_members(key_type: Seq<char>) -> Option<Seq<Seq<char>>> {
    if key_type == "EC"@ {
        Some(seq!["crv"@, "kty"@, "x"@, "y"@])
    } else if key_type == "RSA"@ {
        Some(seq!["e"@, "kty"@, "n"@])
    } else if key_type == "OKP"@ {
        Some(seq!["crv"@, "kty"@, "x"@])
    } else {
        None
    }
}

/// The first of `names` that the key lacks, if any.
pub open spec fn first_missing(jwk: Seq<(Seq<char>, Seq<char>)>, names: Seq<Seq<char>>) -> Option<
    Seq<char>,
>
    decreases names.len(),
{
    if names.len() == 0 {
        None
    } else if names.first() != "kty"@ && lookup(jwk, names.first()) is None {
        Some(names.first())
    } else {
        first_missing(jwk, names.drop_first())
    }
}

/// The member of the canonical form called `name`: the key type is written
/// anew as a JSON string, every other value is taken as the key holds it.
pub open spec fn canonical_member(
    jwk: Seq<(Seq<char>, Seq<char>)>,
    key_type: Seq<char>,
    name: Seq<char>,
) -> (Seq<char>, Seq<char>) {
    if name == "kty"@ {
        (name, json_quoted(key_type))
    } else {
        (name, lookup(jwk, name).unwrap())
    }
}

/// The canonical JSON text over which the thumbprint is taken: the required
/// members only, in lexicographic order, without whitespace.
pub open spec fn canonical_text(
    jwk: Seq<(Seq<char>, Seq<char>)>,
    key_type: Seq<char>,
    names: Seq<Seq<char>>,
) -> Seq<char> {
    object_text(Seq::new(names.len(), |i: int| canonical_member(jwk, key_type, names[i])))
}

/// The thumbprint of the members of a key whose type is known: the
/// base64url SHA-256 digest of the canonical text over the members that the
/// type requires, or the reason why there is none.
pub open spec fn typed_thumbprint(jwk: Seq<(Seq<char>, Seq<char>)>, key_type: Seq<char>)
    -> ThumbprintOutcome {
    match required_members(key_type) {
        None => ThumbprintOutcome::Unsupported(key_type),
        Some(names) => match first_missing(jwk, names) {
            Some(name) => ThumbprintOutcome::Missing(key_type, name),
            None => ThumbprintOutcome::Digest(digest_text(canonical_text(jwk, key_type, names))),
        },
    }
}

/// The thumbprint of a key: the base64url SHA-256 digest of its canonical
/// text, or the reason why it has none.
pub open spec fn thumbprint_of(jwk: Seq<(Seq<char>, Seq<char>)>) -> ThumbprintOutcome {
    if lookup(jwk, "kty"@) is None {
        ThumbprintOutcome::Missing(Seq::empty(), "kty"@)
    } else {
        match key_type_of(jwk) {
            None => ThumbprintOutcome::Malformed,
            Some(key_type) => typed_thumbprint(jwk, key_type),
        }
    }
}

/// Whether a member of a key of the given type is private key material.
pub open spec fn is_private_member(key_type: Option<Seq<char>>, name: Seq<char>) -> bool {
    match key_type {
        Some(t) => if t == "EC"@ || t == "OKP"@ {
            name == "d"@
        } else if t == "RSA"@ {
            name == "d"@ || name == "p"@ || name == "q"@ || name == "dp"@ || name == "dq"@ || name
                == "qi"@ || name == "oth"@
        } else {
            false
        },
        None => false,
    }
}

/// The members of a key without those that are private for the given type.
pub open spec fn without_private(
    jwk: Seq<(Seq<char>, Seq<char>)>,
    key_type: Option<Seq<char>>,
) -> Seq<(Seq<char>, Seq<char>)>
    decreases jwk.len(),
{
    if jwk.len() == 0 {
        Seq::empty()
    } else if is_private_member(key_type, jwk.first().0) {
        without_private(jwk.drop_first(), key_type)
    } else {
        seq![jwk.first()] + without_private(jwk.drop_first(), key_type)
    }
}

/// The public-only projection of a key.
pub open spec fn projection_of(jwk: Seq<(Seq<char>, Seq<char>)>) -> Seq<(Seq<char>, Seq<char>)> {
    without_private(jwk, key_type_of(jwk))
}

/// What a thumbprint computation returned, over plain texts.
pub open spec fn outcome_of(result: Result<String, JwkError>) -> ThumbprintOutcome {
    match result {
        Ok(digest) => ThumbprintOutcome::Digest(digest@),
        Err(JwkError::MissingMember { key_type, member }) => ThumbprintOutcome::Missing(
            key_type@,
            member@,
        ),
        Err(JwkError::UnsupportedKey(key_type)) => ThumbprintOutcome::Unsupported(key_type@),
        Err(JwkError::MalformedJwk) => ThumbprintOutcome::Malformed,
    }
}

/// The text with which the lack of a thumbprint is reported.
pub open spec fn fault_text(outcome: ThumbprintOutcome) -> Seq<char> {
    match outcome {
        ThumbprintOutcome::Missing(key_type, member) => if member == "kty"@ {
            "JWK missing kty field"@
        } else {
            key_type + " JWK missing "@ + member
        },
        ThumbprintOutcome::Unsupported(key_type) => "unsupported JWK key type: "@ + key_type,
        _ => "invalid JWK"@,
    }
}

impl JwkError {
    /// The request error a key problem is reported as.
    pub fn into_error(self) -> (error: Error)
        ensures
            error matches Error::InvalidRequest(msg) && msg@ == fault_text(outcome_of(Err(self))),
    {
        match self {
            JwkError::MissingMember { key_type, member } => {
                if same_text(member.as_str(), "kty") {
                    Error::InvalidRequest(String::from_str("JWK missing kty field"))
                } else {
                    Error::InvalidRequest(
                        key_type.concat(" JWK missing ").concat(member.as_str()),
                    )
                }
            },
            JwkError::UnsupportedKey(key_type) => Error::InvalidRequest(
                String::from_str("unsupported JWK key type: ").concat(key_type.as_str()),
            ),
            JwkError::MalformedJwk => Error::InvalidRequest(String::from_str("invalid JWK")),
        }
    }
}

/// The text of the string member called `name`, if the key has one.
pub open spec fn string_value(jwk: Seq<(Seq<char>, Seq<char>)>, name: Seq<char>) -> Option<
    Seq<char>,
> {
    match lookup(jwk, name) {
        Some(v) => json_string(vstd::utf8::encode_utf8(v)),
        None => None,
    }
}

/// The private scalar of a P-256 key: the bytes that its `d` member
/// encodes, where the key is an `EC` key on `P-256` that has one.
pub open spec fn signing_secret_of(jwk: Seq<(Seq<char>, Seq<char>)>) -> Option<Seq<u8>> {
    if key_type_of(jwk) == Some("EC"@) && string_value(jwk, "crv"@) == Some("P-256"@) {
        match string_value(jwk, "d"@) {
            Some(d) => base64url_decoded(vstd::utf8::encode_utf8(d)),
            None => None,
        }
    } else {
        None
    }
}

/// Whether the key carries a private exponent.
pub open spec fn has_private_part(jwk: Seq<(Seq<char>, Seq<char>)>) -> bool {
    lookup(jwk, "d"@) is Some
}

fn is_private(key_type: &Option<String>, name: &str) -> (private: bool)
    ensures
        private == is_private_member(
            match key_type {
                Some(t) => Some(t@),
                None => None,
            },
            name@,
        ),
{
    match key_type {
        Some(t) => {
            if same_text(t.as_str(), "EC") || same_text(t.as_str(), "OKP") {
                same_text(name, "d")
            } else if same_text(t.as_str(), "RSA") {
                same_text(name, "d") || same_text(name, "p") || same_text(name, "q")
                    || same_text(name, "dp") || same_text(name, "dq") || same_text(name, "qi")
                    || same_text(name, "oth")
            } else {
                false
            }
        },
        None => false,
    }
}

/// The members of a P-256 key pair with the public coordinates `x` and
/// `y` and the private scalar `d`.
pub open spec fn key_pair_members(x: Seq<u8>, y: Seq<u8>, d: Seq<u8>) -> Seq<
    (Seq<char>, Seq<char>),
> {
    seq![
        ("kty"@, json_quoted("EC"@)),
        ("crv"@, json_quoted("P-256"@)),
        ("x"@, json_quoted(crate::encoding::base64url(x))),
        ("y"@, json_quoted(crate::encoding::base64url(y))),
        ("d"@, json_quoted(crate::encoding::base64url(d))),
    ]
}

/// The names of the members that enter the thumbprint of a key of the
/// given type, in lexicographic order: `crv`, `kty`, `x`, `y` for `EC`; `e`,
/// `kty`, `n` for `RSA`; `crv`, `kty`, `x` for `OKP`. `None` for any other
/// type.
pub fn required_member_names(key_type: &str) -> (names: Option<Vec<String>>)
    ensures
        match names {
            Some(n) => required_members(key_type@) == Some(crate::text::views(n@)),
            None => required_members(key_type@) is None,
        },
{
    if same_text(key_type, "EC") {
        let v = vec![
            String::from_str("crv"),
            String::from_str("kty"),
            String::from_str("x"),
            String::from_str("y"),
        ];
        assert(crate::text::views(v@) =~= seq!["crv"@, "kty"@, "x"@, "y"@]);
        Some(v)
    } else if same_text(key_type, "RSA") {
        let v = vec![String::from_str("e"), String::from_str("kty"), String::from_str("n")];
        assert(crate::text::views(v@) =~= seq!["e"@, "kty"@, "n"@]);
        Some(v)
    } else if same_text(key_type, "OKP") {
        let v = vec![String::from_str("crv"), String::from_str("kty"), String::from_str("x")];
        assert(crate::text::views(v@) =~= seq!["crv"@, "kty"@, "x"@]);
        Some(v)
    } else {
        None
    }
}

impl Jwk {
    /// The key pair of a P-256 private scalar, as a key with the members
    /// `kty`, `crv`, `x`, `y` and `d`. `None` when the bytes are no valid
    /// private scalar.
    pub fn from_secret(secret: &[u8]) -> (jwk: Option<Jwk>)
        ensures
            match jwk {
                Some(k) => crate::crypto::p256_public_point(secret@) matches Some(point) && k@
                    == key_pair_members(point.0, point.1, secret@),
                None => crate::crypto::p256_public_point(secret@) is None,
            },
    {
        let (x, y) = crate::crypto::public_point(secret)?;
        let members = vec![
            crate::json::string_member("kty", "EC"),
            crate::json::string_member("crv", "P-256"),
            crate::json::string_member(
                "x",
                crate::encoding::base64url_encode(x.as_slice()).as_str(),
            ),
            crate::json::string_member(
                "y",
                crate::encoding::base64url_encode(y.as_slice()).as_str(),
            ),
            crate::json::string_member("d", crate::encoding::base64url_encode(secret).as_str()),
        ];
        proof {
            assert(member_views(members@) =~= key_pair_members(x@, y@, secret@));
        }
        Some(Jwk { members })
    }

    /// An equal key of its own.
    pub fn duplicate(&self) -> (copy: Jwk)
        ensures
            copy.members@ == self.members@,
            copy@ == self@,
    {
        let mut members: Vec<JsonMember> = Vec::new();
        let mut i: usize = 0;
        while i < self.members.len()
            invariant
                0 <= i <= self.members@.len(),
                members@ == self.members@.subrange(0, i as int),
            decreases self.members@.len() - i,
        {
            members.push(self.members[i].duplicate());
            proof {
                assert(members@ =~= self.members@.subrange(0, i as int + 1));
            }
            i += 1;
        }
        proof {
            assert(self.members@.subrange(0, self.members@.len() as int) =~= self.members@);
        }
        Jwk { members }
    }

    /// Reads a key from a JSON document. `None` when the bytes are not a
    /// JSON object.
    pub fn parse(doc: &[u8]) -> (jwk: Option<Jwk>)
        ensures
            match jwk {
                Some(k) => json_members(doc@) == Some(k@),
                None => json_members(doc@) is None,
            },
    {
        match parse_object(doc) {
            Some(members) => Some(Jwk { members }),
            None => None,
        }
    }

    /// The key as compact JSON text, members in the order the key holds
    /// them.
    pub fn to_json(&self) -> (text: String)
        ensures
            text@ == object_text(self@),
    {
        write_object(&self.members)
    }

    /// The text of the string member called `name`.
    pub fn string_member(&self, name: &str) -> (text: Option<String>)
        ensures
            match text {
                Some(t) => string_value(self@, name@) == Some(t@),
                None => string_value(self@, name@) is None,
            },
    {
        match find_member(&self.members, name) {
            Some(v) => parse_string(v.as_str().as_bytes()),
            None => None,
        }
    }

    /// The key type, if the key names one.
    pub fn key_type(&self) -> (key_type: Option<String>)
        ensures
            match key_type {
                Some(t) => key_type_of(self@) == Some(t@),
                None => key_type_of(self@) is None,
            },
    {
        self.string_member("kty")
    }

    /// Whether the key carries a private exponent (`d`).
    pub fn has_private(&self) -> (private: bool)
        ensures
            private == has_private_part(self@),
    {
        find_member(&self.members, "d").is_some()
    }

    /// Writes the canonical form of the key over the given member names,
    /// in their order and without white space: `kty` is written anew from
    /// `key_type`, every other member is taken as the key holds it. Reports
    /// the first of the names that the key lacks.
    pub fn canonical_json(&self, key_type: &str, names: &Vec<String>) -> (result: Result<
        String,
        String,
    >)
        ensures
            match result {
                Ok(text) => first_missing(self@, crate::text::views(names@)) is None && text@
                    == canonical_text(self@, key_type@, crate::text::views(names@)),
                Err(name) => first_missing(self@, crate::text::views(names@)) == Some(name@),
            },
    {
        let ghost all = crate::text::views(names@);
        let mut chosen: Vec<JsonMember> = Vec::new();
        let mut i: usize = 0;
        proof {
            assert(all.subrange(0, all.len() as int) =~= all);
        }
        while i < names.len()
            invariant
                0 <= i <= names@.len(),
                all == crate::text::views(names@),
                chosen@.len() == i,
                first_missing(self@, all) == first_missing(
                    self@,
                    all.subrange(i as int, all.len() as int),
                ),
                forall|k: int|
                    0 <= k < i ==> (#[trigger] chosen@[k])@ == canonical_member(
                        self@,
                        key_type@,
                        all[k],
                    ),
            decreases names@.len() - i,
        {
            let ghost rest = all.subrange(i as int, all.len() as int);
            proof {
                assert(rest.first() == names@[i as int]@);
                assert(rest.drop_first() =~= all.subrange(i as int + 1, all.len() as int));
            }
            let name = names[i].as_str();
            if same_text(name, "kty") {
                chosen.push(raw_member(name, quote(key_type)));
            } else {
                match find_member(&self.members, name) {
                    Some(value) => {
                        chosen.push(raw_member(name, value.clone()));
                    },
                    None => {
                        return Err(names[i].clone());
                    },
                }
            }
            i += 1;
        }
        proof {
            assert(member_views(chosen@) =~= Seq::new(
                all.len(),
                |i: int| canonical_member(self@, key_type@, all[i]),
            ));
        }
        Ok(write_object(&chosen))
    }

    /// Computes the thumbprint of the key's members for a known key type:
    /// the unpadded base64url SHA-256 digest, 43 characters long, of the
    /// canonical form over the members that the type requires. Fails when
    /// the type is none of `EC`, `RSA`, `OKP`, or when a required member is
    /// absent.
    pub fn thumbprint_for_type(&self, key_type: &str) -> (result: Result<String, JwkError>)
        ensures
            outcome_of(result) == typed_thumbprint(self@, key_type@),
            result matches Ok(jkt) ==> jkt@.len() == 43 && all_base64url(jkt@),
    {
        let names = match required_member_names(key_type) {
            Some(n) => n,
            None => {
                return Err(JwkError::UnsupportedKey(String::from_str(key_type)));
            },
        };
        match self.canonical_json(key_type, &names) {
            Ok(text) => Ok(hash_text(text.as_str())),
            Err(member) => Err(
                JwkError::MissingMember { key_type: String::from_str(key_type), member },
            ),
        }
    }

    /// Computes the RFC 7638 thumbprint of the key: the unpadded base64url
    /// SHA-256 digest, 43 characters long, of the canonical JSON of its
    /// required members. Fails when the key type is missing, no string or
    /// unknown, or when a required member is absent.
    pub fn thumbprint(&self) -> (result: Result<String, JwkError>)
        ensures
            outcome_of(result) == thumbprint_of(self@),
            result matches Ok(jkt) ==> jkt@.len() == 43 && all_base64url(jkt@),
    {
        if find_member(&self.members, "kty").is_none() {
            return Err(
                JwkError::MissingMember {
                    key_type: String::new(),
                    member: String::from_str("kty"),
                },
            );
        }
        match self.key_type() {
            Some(key_type) => self.thumbprint_for_type(key_type.as_str()),
            None => Err(JwkError::MalformedJwk),
        }
    }

    /// Returns a copy of the key without its private members: `d` for an
    /// `EC` or `OKP` key; `d`, `p`, `q`, `dp`, `dq`, `qi` and `oth` for an
    /// `RSA` key. The other members keep their order.
    pub fn public_projection(&self) -> (public: Jwk)
        ensures
            public@ == projection_of(self@),
    {
        let key_type = self.key_type();
        let ghost kt = key_type_of(self@);
        let ghost all = self@;
        let mut kept: Vec<JsonMember> = Vec::new();
        let mut i: usize = 0;
        proof {
            assert(all.subrange(0, all.len() as int) =~= all);
            assert(member_views(kept@) =~= Seq::empty());
        }
        while i < self.members.len()
            invariant
                0 <= i <= self.members@.len(),
                all == self@,
                kt == match key_type {
                    Some(t) => Some(t@),
                    None => None,
                },
                without_private(all, kt) == member_views(kept@) + without_private(
                    all.subrange(i as int, all.len() as int),
                    kt,
                ),
            decreases self.members@.len() - i,
        {
            let ghost rest = all.subrange(i as int, all.len() as int);
            let ghost before = member_views(kept@);
            proof {
                assert(rest.first() == self.members@[i as int]@);
                assert(rest.drop_first() =~= all.subrange(i as int + 1, all.len() as int));
            }
            if !is_private(&key_type, self.members[i].name.as_str()) {
                let copy = JsonMember {
                    name: self.members[i].name.clone(),
                    value: self.members[i].value.clone(),
                };
                kept.push(copy);
                proof {
                    assert(member_views(kept@) =~= before + seq![rest.first()]);
                    assert(before + (seq![rest.first()] + without_private(rest.drop_first(), kt))
                        =~= (before + seq![rest.first()]) + without_private(
                        rest.drop_first(),
                        kt,
                    ));
                }
            }
            i += 1;
        }
        proof {
            assert(all.subrange(all.len() as int, all.len() as int) =~= Seq::empty());
            assert(member_views(kept@) + Seq::<(Seq<char>, Seq<char>)>::empty() =~= member_views(
                kept@,
            ));
        }
        Jwk { members: kept }
    }

    /// The private scalar of a P-256 key, for signing. Fails with an
    /// invalid-request error unless the key is an `EC` key on `P-256` whose
    /// `d` member is a base64url string.
    pub fn signing_secret(&self) -> (result: Result<Vec<u8>, Error>)
        ensures
            match result {
                Ok(secret) => signing_secret_of(self@) == Some(secret@),
                Err(e) => signing_secret_of(self@) is None && (e matches Error::InvalidRequest(msg)
                    && msg@ == "DPoP key must be P256 secret key"@),
            },
    {
        let usable = match self.key_type() {
            Some(t) => same_text(t.as_str(), "EC"),
            None => false,
        } && match self.string_member("crv") {
            Some(c) => same_text(c.as_str(), "P-256"),
            None => false,
        };
        if usable {
            if let Some(d) = self.string_member("d") {
                if let Some(secret) = base64url_decode(d.as_str().as_bytes()) {
                    return Ok(secret);
                }
            }
        }
        Err(Error::InvalidRequest(String::from_str("DPoP key must be P256 secret key")))
    }
}

/// What computing the thumbprint of a key document comes to: the thumbprint
/// of the key it spells, or the reason why there is none.
pub open spec fn document_thumbprint(doc: Seq<u8>) -> ThumbprintOutcome {
    match json_members(doc) {
        Some(jwk) => thumbprint_of(jwk),
        None => ThumbprintOutcome::Malformed,
    }
}

/// Whether a result shows what computing a thumbprint comes to: the
/// thumbprint, or an invalid request with the text of the fault.
pub open spec fn shows_thumbprint(result: Result<String, Error>, outcome: ThumbprintOutcome)
    -> bool {
    match result {
        Ok(jkt) => outcome == ThumbprintOutcome::Digest(jkt@),
        Err(Error::InvalidRequest(reason)) => !(outcome is Digest) && reason@ == fault_text(
            outcome,
        ),
        Err(_) => false,
    }
}

/// Computes the thumbprint of a key, reporting a key without one as an
/// invalid request.
pub fn compute_jwk_thumbprint(jwk: &Jwk) -> (result: Result<String, Error>)
    ensures
        shows_thumbprint(result, thumbprint_of(jwk@)),
        result matches Ok(jkt) ==> jkt@.len() == 43 && all_base64url(jkt@),
{
    match jwk.thumbprint() {
        Ok(jkt) => Ok(jkt),
        Err(e) => Err(e.into_error()),
    }
}

/// Computes the thumbprint of a key given as a JSON document.
pub fn compute_jwk_thumbprint_from_json(doc: &[u8]) -> (result: Result<String, Error>)
    ensures
        shows_thumbprint(result, document_thumbprint(doc@)),
        result matches Ok(jkt) ==> jkt@.len() == 43 && all_base64url(jkt@),
{
    match Jwk::parse(doc) {
        Some(jwk) => compute_jwk_thumbprint(&jwk),
        None => Err(JwkError::MalformedJwk.into_error()),
    }
}

/// Looking a non-private member up in a projection finds what the key
/// itself holds.
pub proof fn lemma_lookup_without_private(
    jwk: Seq<(Seq<char>, Seq<char>)>,
    key_type: Option<Seq<char>>,
    name: Seq<char>,
)
    requires
        !is_private_member(key_type, name),
    ensures
        lookup(without_private(jwk, key_type), name) == lookup(jwk, name),
    decreases jwk.len(),
{
    if jwk.len() == 0 {
    } else {
        lemma_lookup_without_private(jwk.drop_first(), key_type, name);
        if is_private_member(key_type, jwk.first().0) {
        } else {
            let kept = seq![jwk.first()] + without_private(jwk.drop_first(), key_type);
            assert(kept.first() == jwk.first());
            assert(kept.drop_first() =~= without_private(jwk.drop_first(), key_type));
        }
    }
}

proof fn lemma_names_distinct()
    ensures
        "kty"@ != "d"@,
        "kty"@ != "p"@,
        "kty"@ != "q"@,
        "kty"@ != "dp"@,
        "kty"@ != "dq"@,
        "kty"@ != "qi"@,
        "kty"@ != "oth"@,
        "crv"@ != "d"@,
        "crv"@ != "kty"@,
        "x"@ != "d"@,
        "x"@ != "kty"@,
        "y"@ != "d"@,
        "y"@ != "kty"@,
        "e"@ != "d"@,
        "e"@ != "p"@,
        "e"@ != "q"@,
        "e"@ != "dp"@,
        "e"@ != "dq"@,
        "e"@ != "qi"@,
        "e"@ != "oth"@,
        "e"@ != "kty"@,
        "n"@ != "d"@,
        "n"@ != "p"@,
        "n"@ != "q"@,
        "n"@ != "dp"@,
        "n"@ != "dq"@,
        "n"@ != "qi"@,
        "n"@ != "oth"@,
        "n"@ != "kty"@,
        "EC"@ != "RSA"@,
        "EC"@ != "OKP"@,
        "RSA"@ != "OKP"@,
{
    reveal_strlit("kty");
    reveal_strlit("crv");
    reveal_strlit("x");
    reveal_strlit("y");
    reveal_strlit("e");
    reveal_strlit("n");
    reveal_strlit("d");
    reveal_strlit("p");
    reveal_strlit("q");
    reveal_strlit("dp");
    reveal_strlit("dq");
    reveal_strlit("qi");
    reveal_strlit("oth");
    reveal_strlit("EC");
    reveal_strlit("RSA");
    reveal_strlit("OKP");
    assert("kty"@.len() == 3);
    assert("crv"@.len() == 3);
    assert("oth"@.len() == 3);
    assert("kty"@[0] == 'k');
    assert("crv"@[0] == 'c');
    assert("oth"@[0] == 'o');
    assert("x"@[0] == 'x');
    assert("y"@[0] == 'y');
    assert("e"@[0] == 'e');
    assert("n"@[0] == 'n');
    assert("d"@[0] == 'd');
    assert("p"@[0] == 'p');
    assert("q"@[0] == 'q');
    assert("dp"@.len() == 2);
    assert("dq"@.len() == 2);
    assert("qi"@.len() == 2);
    assert("EC"@.len() == 2);
    assert("RSA"@[0] == 'R');
    assert("OKP"@[0] == 'O');
}

/// The thumbprint of a key's public projection is the thumbprint of the
/// key: removing private members changes nothing that enters the digest.
pub proof fn lemma_projection_keeps_thumbprint(jwk: Seq<(Seq<char>, Seq<char>)>)
    ensures
        thumbprint_of(projection_of(jwk)) == thumbprint_of(jwk),
{
    lemma_names_distinct();
    let key_type = key_type_of(jwk);
    let public = projection_of(jwk);
    lemma_lookup_without_private(jwk, key_type, "kty"@);
    assert(key_type_of(public) == key_type);
    if lookup(jwk, "kty"@) is Some && key_type is Some {
        let t = key_type->0;
        match required_members(t) {
            None => {},
            Some(names) => {
                assert forall|i: int| 0 <= i < names.len() implies !is_private_member(
                    key_type,
                    #[trigger] names[i],
                ) by {}
                lemma_first_missing_same(jwk, public, names);
                assert(Seq::new(names.len(), |i: int| canonical_member(public, t, names[i]))
                    =~= Seq::new(names.len(), |i: int| canonical_member(jwk, t, names[i]))) by {
                    assert forall|i: int| 0 <= i < names.len() implies canonical_member(
                        public,
                        t,
                        names[i],
                    ) == canonical_member(jwk, t, names[i]) by {
                        lemma_lookup_without_private(jwk, key_type, names[i]);
                    }
                }
            },
        }
    }
}

proof fn lemma_first_missing_same(
    jwk: Seq<(Seq<char>, Seq<char>)>,
    public: Seq<(Seq<char>, Seq<char>)>,
    names: Seq<Seq<char>>,
)
    requires
        public == projection_of(jwk),
        forall|i: int| 0 <= i < names.len() ==> !is_private_member(
            key_type_of(jwk),
            #[trigger] names[i],
        ),
    ensures
        first_missing(public, names) == first_missing(jwk, names),
    decreases names.len(),
{
    if names.len() > 0 {
        assert(!is_private_member(key_type_of(jwk), names[0]));
        lemma_lookup_without_private(jwk, key_type_of(jwk), names.first());
        let rest = names.drop_first();
        assert forall|i: int| 0 <= i < rest.len() implies !is_private_member(
            key_type_of(jwk),
            #[trigger] rest[i],
        ) by {
            assert(rest[i] == names[i + 1]);
        }
        lemma_first_missing_same(jwk, public, rest);
    }
}

} // verus!
