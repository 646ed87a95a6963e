//! Signed tokens: the keys `jsonwebtoken` signs and checks with, made from
//! JSON web keys through their PEM form (`jsonwebkey`), the JSON of the
//! claims, and issuing and checking tokens.

use vstd::prelude::*;

use crate::crypto::{base64_url_nopad_of, lemma_base64_has_no_dot, lemma_base64_nopad_injective};
use crate::errors::{any, forbidden, WithBacktrace};
use crate::json::{json_quote, json_quote_of};
use crate::num::{i64_to_text, int_text};
use crate::oidc::key::{
    clone_bytes, key_is_private, opt_bytes, JsonWebKey, JwkKey, KeyMaterial, Keys, RsaPrivateParts,
};
use crate::oidc::token::{
    algorithm_or_default, is_token_claims, key_may_verify, AccessToken, Claims, SigningAlgorithm,
};
use crate::oidc::uri::opt_view;
use crate::text::chars_of;
use jsonwebkey::{ByteArray, Curve, Key, PublicExponent, RsaPrivate, RsaPublic};
use jsonwebtoken::{Algorithm, DecodingKey, EncodingKey, Header, Validation};

verus! {

/// The bytes of the private parts of an RSA key.
pub open spec fn private_view(p: Option<RsaPrivateParts>) -> Option<
    (Seq<u8>, Option<Seq<u8>>, Option<Seq<u8>>, Option<Seq<u8>>, Option<Seq<u8>>, Option<Seq<u8>>),
> {
    match p {
        Some(x) => Some((x.d@, opt_bytes(x.p), opt_bytes(x.q), opt_bytes(x.dp), opt_bytes(x.dq), opt_bytes(x.qi))),
        None => None,
    }
}

/// The PEM text `jsonwebkey::Key::try_to_pem` gives for the RSA key with
/// the modulus `n` and the private parts `private` (a public key where
/// there are none), or `None` where it fails.
pub uninterp spec fn rsa_pem_of(
    n: Seq<u8>,
    private: Option<
        (Seq<u8>, Option<Seq<u8>>, Option<Seq<u8>>, Option<Seq<u8>>, Option<Seq<u8>>, Option<Seq<u8>>),
    >,
) -> Option<Seq<char>>;

/// The PEM text `jsonwebkey::Key::try_to_pem` gives for the P-256 key with
/// the point `x`, `y` and the private scalar `d` (a public key where there
/// is none), or `None` where it fails or a part is not 32 bytes long.
pub uninterp spec fn ec_pem_of(x: Seq<u8>, y: Seq<u8>, d: Option<Seq<u8>>) -> Option<Seq<char>>;

/// Calls `jsonwebkey::Key::try_to_pem` on the RSA key with the modulus `n`
/// (and the standard exponent) and the private parts `private`. Its DER
/// form is refused only for a private key that lacks a prime, an exponent
/// or the coefficient.
#[verifier::external_body]
fn rsa_pem(n: &Vec<u8>, private: &Option<RsaPrivateParts>) -> (r: Result<String, String>)
    ensures
        match r {
            Ok(t) => rsa_pem_of(n@, private_view(*private)) == Some(t@),
            Err(_) => rsa_pem_of(n@, private_view(*private)) is None,
        },
        private is None ==> r is Ok,
        private matches Some(p) ==> (r is Ok <==> (p.p is Some && p.q is Some && p.dp is Some
            && p.dq is Some && p.qi is Some)),
{
    let private = private.as_ref().map(|p| RsaPrivate {
        d: p.d.clone().into(),
        p: p.p.clone().map(Into::into),
        q: p.q.clone().map(Into::into),
        dp: p.dp.clone().map(Into::into),
        dq: p.dq.clone().map(Into::into),
        qi: p.qi.clone().map(Into::into),
    });
    let public = RsaPublic { e: PublicExponent, n: n.clone().into() };
    Key::RSA { public, private }.try_to_pem().map_err(|e| e.to_string())
}

/// Calls `jsonwebkey::Key::try_to_pem` on the P-256 key with the point `x`,
/// `y` and the private scalar `d`; the parts are read with
/// `ByteArray::try_from_slice`, which refuses any not 32 bytes long. The
/// DER form of a P-256 key is always written.
#[verifier::external_body]
fn ec_pem(x: &Vec<u8>, y: &Vec<u8>, d: &Option<Vec<u8>>) -> (r: Result<String, String>)
    ensures
        match r {
            Ok(t) => ec_pem_of(x@, y@, opt_bytes(*d)) == Some(t@),
            Err(_) => ec_pem_of(x@, y@, opt_bytes(*d)) is None,
        },
        x@.len() == 32 && y@.len() == 32 && (d matches Some(v) ==> v@.len() == 32) ==> r is Ok,
{
    let d = match d {
        Some(v) => Some(ByteArray::try_from_slice(v)?),
        None => None,
    };
    let (x, y) = (ByteArray::try_from_slice(x)?, ByteArray::try_from_slice(y)?);
    Key::EC { curve: Curve::P256 { d, x, y } }.try_to_pem().map_err(|e| e.to_string())
}

/// How `jsonwebtoken` reads the bytes of a key.
#[derive(Debug, PartialEq, Eq, Structural)]
pub enum JwtKeyKind {
    /// A symmetric secret (`from_secret`).
    Secret,
    /// An RSA key in PEM text (`from_rsa_pem`).
    RsaPem,
    /// An elliptic-curve key in PEM text (`from_ec_pem`).
    EcPem,
}

/// A key as `jsonwebtoken` takes it: its bytes and how to read them.
#[derive(Debug)]
pub struct JwtKey {
    pub kind: JwtKeyKind,
    pub bytes: Vec<u8>,
}

/// The JSON text `serde_json` writes back for the JSON text in the bytes
/// `b`, read into a `serde_json::Value` (`from_slice`, then `to_string`),
/// or `None` where the bytes do not read.
pub uninterp spec fn json_value_text_of(b: Seq<u8>) -> Option<Seq<char>>;

/// Whether `s` holds no dot.
pub open spec fn no_dot(s: Seq<char>) -> bool {
    forall|i: int| 0 <= i < s.len() ==> s[i] != '.'
}

/// The three parts `h`, `m` and `s` of a token joined by dots.
pub open spec fn jwt_join(h: Seq<char>, m: Seq<char>, s: Seq<char>) -> Seq<char> {
    h + seq!['.'] + m + seq!['.'] + s
}

/// Whether the token `t` is three parts without dots joined by dots, the
/// middle one the URL-safe base64, unpadded, of `payload`.
pub open spec fn jwt_carries(t: Seq<char>, payload: Seq<u8>) -> bool {
    exists|h: Seq<char>, s: Seq<char>|
        no_dot(h) && no_dot(s) && t == #[trigger] jwt_join(h, base64_url_nopad_of(payload), s)
}

/// Whether a token `t` written for the claims in the JSON text `json`
/// carries them: as `serde_json` writes them back.
pub open spec fn carries_claims_text(t: Seq<char>, json: Seq<char>) -> bool {
    json_value_text_of(vstd::utf8::encode_utf8(json)) matches Some(q) && jwt_carries(
        t,
        vstd::utf8::encode_utf8(q),
    )
}

/// Whether `c` is the JSON text of the claims read from the token `t`.
pub open spec fn reads_claims(t: Seq<char>, c: Seq<char>) -> bool {
    exists|p: Seq<u8>| #[trigger] jwt_carries(t, p) && json_value_text_of(p) == Some(c)
}

proof fn lemma_jwt_join_unique(
    h1: Seq<char>,
    m1: Seq<char>,
    s1: Seq<char>,
    h2: Seq<char>,
    m2: Seq<char>,
    s2: Seq<char>,
)
    requires
        no_dot(h1) && no_dot(m1) && no_dot(s1),
        no_dot(h2) && no_dot(m2) && no_dot(s2),
        jwt_join(h1, m1, s1) == jwt_join(h2, m2, s2),
    ensures
        m1 == m2,
{
    let t = jwt_join(h1, m1, s1);
    let (a, b) = (h1.len() as int, h2.len() as int);
    assert(t[a] == '.');
    assert(jwt_join(h2, m2, s2)[b] == '.');
    if a < b {
        assert(jwt_join(h2, m2, s2)[a] == h2[a]);
    }
    if b < a {
        assert(t[b] == h1[b]);
    }
    assert(a == b);
    let (c, d) = (a + 1 + m1.len(), a + 1 + m2.len());
    assert(t[c] == '.');
    assert(jwt_join(h2, m2, s2)[d] == '.');
    if c < d {
        assert(jwt_join(h2, m2, s2)[c] == m2[c - a - 1]);
    }
    if d < c {
        assert(t[d] == m1[d - a - 1]);
    }
    assert(m1.len() == m2.len());
    assert forall|i: int| 0 <= i < m1.len() implies m1[i] == m2[i] by {
        assert(t[a + 1 + i] == m1[i]);
        assert(jwt_join(h2, m2, s2)[a + 1 + i] == m2[i]);
    }
    assert(m1 =~= m2);
}

/// A token carries one payload: the parts between its dots, and unpadded
/// base64, read back one way only.
pub proof fn lemma_jwt_payload_unique(t: Seq<char>, p1: Seq<u8>, p2: Seq<u8>)
    requires
        jwt_carries(t, p1),
        jwt_carries(t, p2),
    ensures
        p1 == p2,
{
    let (h1, s1) = choose|h: Seq<char>, s: Seq<char>|
        no_dot(h) && no_dot(s) && t == #[trigger] jwt_join(h, base64_url_nopad_of(p1), s);
    let (h2, s2) = choose|h: Seq<char>, s: Seq<char>|
        no_dot(h) && no_dot(s) && t == #[trigger] jwt_join(h, base64_url_nopad_of(p2), s);
    lemma_base64_has_no_dot(p1, true, false);
    lemma_base64_has_no_dot(p2, true, false);
    lemma_jwt_join_unique(h1, base64_url_nopad_of(p1), s1, h2, base64_url_nopad_of(p2), s2);
    lemma_base64_nopad_injective(p1, p2, true);
}

/// A checked token gives back the claims it was issued with: where the
/// token `t` was written for the claims text `json` and a check of it
/// read the claims text `c`, `c` is what `serde_json` writes back for the
/// text it wrote for `json`.
pub proof fn lemma_checked_claims_are_issued_claims(t: Seq<char>, json: Seq<char>, c: Seq<char>)
    requires
        carries_claims_text(t, json),
        reads_claims(t, c),
    ensures
        json_value_text_of(vstd::utf8::encode_utf8(json)) matches Some(q)
            && json_value_text_of(vstd::utf8::encode_utf8(q)) == Some(c),
{
    let q = json_value_text_of(vstd::utf8::encode_utf8(json))->0;
    let p = choose|p: Seq<u8>| #[trigger] jwt_carries(t, p) && json_value_text_of(p) == Some(c);
    lemma_jwt_payload_unique(t, p, vstd::utf8::encode_utf8(q));
}

/// Whether `jsonwebtoken`'s signature check, as `decode` makes it with
/// `Validation::new(alg)`, accepts the token `t` with the key `key` read as
/// `kind` (`DecodingKey::from_secret`, `from_rsa_pem` or `from_ec_pem`):
/// the key reads, its family is that of `alg`, the header names `alg`, and
/// the signature over the first two parts checks out.
pub uninterp spec fn jwt_signature_ok_of(
    t: Seq<char>,
    alg: SigningAlgorithm,
    kind: JwtKeyKind,
    key: Seq<u8>,
) -> bool;

/// The audiences the `aud` claim of the token `t` names as `jsonwebtoken`'s
/// validation reads it: the one string, or each string of an array;
/// `None` where the claim is missing or is neither.
pub uninterp spec fn jwt_audiences_of(t: Seq<char>) -> Option<Seq<Seq<char>>>;

/// Whether one of the audiences `l` is in `accepted`.
pub open spec fn audience_meets(l: Seq<Seq<char>>, accepted: Set<String>) -> bool {
    exists|i: int, a: String| 0 <= i < l.len() && #[trigger] accepted.contains(a) && a@ == #[trigger] l[i]
}

/// Whether the token `t` passes the audience check against the audiences
/// `accepted`: none is made where there are none to accept, nor where the
/// token names none.
pub open spec fn audience_ok(t: Seq<char>, accepted: Set<String>) -> bool {
    accepted.is_empty() || match jwt_audiences_of(t) {
        Some(l) => audience_meets(l, accepted),
        None => true,
    }
}

/// The token `jsonwebtoken::encode` gives for the header
/// `Header::new(alg)` naming the key `kid`, the claims read from the JSON
/// text `claims_json` and the key `key` read as `kind`, or `None` where
/// it fails. For HS256 and RS256 the signature, and so the token, is a
/// function of these.
pub uninterp spec fn jwt_encode_of(
    alg: SigningAlgorithm,
    kid: Option<Seq<char>>,
    claims_json: Seq<char>,
    kind: JwtKeyKind,
    key: Seq<u8>,
) -> Option<Seq<char>>;

/// Calls `jsonwebtoken::encode` with the header `Header::new(alg)` naming
/// the key `kid`, the claims read from `claims_json` into a
/// `serde_json::Value` (whose objects list their members by name) and the
/// key `key`. The token's header names the key `kid`, and its middle part
/// is the claims as `serde_json` writes the value back, in URL-safe base64.
/// An HS256 token checks out with the secret it was signed with. An ES256
/// signature is randomised, so the whole of an ES256 token is not named.
#[verifier::external_body]
fn jwt_encode(alg: &SigningAlgorithm, kid: &Option<String>, claims_json: &str, key: &JwtKey) -> (r:
    Result<String, String>)
    ensures
        !(*alg is ES256) ==> match r {
            Ok(t) => jwt_encode_of(*alg, opt_view(*kid), claims_json@, key.kind, key.bytes@)
                == Some(t@),
            Err(_) => jwt_encode_of(*alg, opt_view(*kid), claims_json@, key.kind, key.bytes@) is None,
        },
        r matches Ok(t) ==> json_value_text_of(vstd::utf8::encode_utf8(claims_json@)) matches Some(q)
            && jwt_carries(t@, vstd::utf8::encode_utf8(q)),
        r matches Ok(t) ==> jwt_header_kid_of(t@) == Some(opt_view(*kid)),
        (*alg is HS256 && key.kind is Secret) ==> (r matches Ok(t) ==> jwt_signature_ok_of(
            t@,
            *alg,
            JwtKeyKind::Secret,
            key.bytes@,
        )),
{
    let mut h = Header::new(match alg {
        SigningAlgorithm::HS256 => Algorithm::HS256,
        SigningAlgorithm::ES256 => Algorithm::ES256,
        SigningAlgorithm::RS256 => Algorithm::RS256,
    });
    h.kid = kid.clone();
    let k = match key.kind {
        JwtKeyKind::Secret => Ok(EncodingKey::from_secret(&key.bytes)),
        JwtKeyKind::RsaPem => EncodingKey::from_rsa_pem(&key.bytes),
        JwtKeyKind::EcPem => EncodingKey::from_ec_pem(&key.bytes),
    }.map_err(|e| e.to_string())?;
    let c: serde_json::Value = serde_json::from_str(claims_json).map_err(|e| e.to_string())?;
    jsonwebtoken::encode(&h, &c, &k).map_err(|e| e.to_string())
}

/// The key id `jsonwebtoken::decode_header` reads from the header of
/// `token` (`Some(None)` where it names none), or `None` where the header
/// does not read.
pub uninterp spec fn jwt_header_kid_of(token: Seq<char>) -> Option<Option<Seq<char>>>;

/// Calls `jsonwebtoken::decode_header` and gives the key id it names.
#[verifier::external_body]
fn jwt_header_kid(token: &str) -> (r: Result<Option<String>, String>)
    ensures
        match r {
            Ok(k) => jwt_header_kid_of(token@) == Some(opt_view(k)),
            Err(_) => jwt_header_kid_of(token@) is None,
        },
{
    jsonwebtoken::decode_header(token).map(|h| h.kid).map_err(|e| e.to_string())
}

/// Calls `jsonwebtoken::decode` on `token` with the key `key`, checking a
/// signature by `alg`, the expiry and the not-before time (with the
/// default leeway), and the audience where `aud` gives the audiences to
/// accept; gives the claims as JSON text: the token's middle part, read
/// from URL-safe base64 into a `serde_json::Value` and written back. A
/// success means the signature checked out with `key` by `alg` and, where
/// `aud` gives audiences and the token names some, one of them is given.
/// Whether it succeeds also depends on the clock, so success is not
/// promised.
#[verifier::external_body]
fn jwt_decode(
    token: &str,
    alg: &SigningAlgorithm,
    key: &JwtKey,
    aud: Option<&std::collections::HashSet<String>>,
) -> (r: Result<String, String>)
    ensures
        r matches Ok(c) ==> exists|p: Seq<u8>|
            #[trigger] jwt_carries(token@, p) && json_value_text_of(p) == Some(c@),
        r is Ok ==> jwt_signature_ok_of(token@, *alg, key.kind, key.bytes@),
        r is Ok ==> (aud matches Some(s) ==> match jwt_audiences_of(token@) {
            Some(l) => audience_meets(l, s@),
            None => true,
        }),
{
    let k = match key.kind {
        JwtKeyKind::Secret => Ok(DecodingKey::from_secret(&key.bytes)),
        JwtKeyKind::RsaPem => DecodingKey::from_rsa_pem(&key.bytes),
        JwtKeyKind::EcPem => DecodingKey::from_ec_pem(&key.bytes),
    }.map_err(|e| e.to_string())?;
    let mut v = Validation::new(match alg {
        SigningAlgorithm::HS256 => Algorithm::HS256,
        SigningAlgorithm::ES256 => Algorithm::ES256,
        SigningAlgorithm::RS256 => Algorithm::RS256,
    });
    (v.validate_nbf, v.validate_aud, v.aud) = (true, aud.is_some(), aud.cloned());
    let d = jsonwebtoken::decode::<serde_json::Value>(token, &k, &v).map_err(|e| e.to_string())?;
    Ok(d.claims.to_string())
}

/// The `jsonwebtoken` key of an RSA or P-256 key given as PEM text.
pub open spec fn pem_key(kind: JwtKeyKind, pem: Option<Seq<char>>) -> Option<(JwtKeyKind, Seq<u8>)> {
    match pem {
        Some(t) => Some((kind, vstd::utf8::encode_utf8(t))),
        None => None,
    }
}

/// The key a private JSON web key signs with, as `jsonwebtoken` takes it:
/// a symmetric key's secret, else the PEM text of the key. `None` where
/// the key has no PEM form.
pub open spec fn encoding_key_of(k: KeyMaterial) -> Option<(JwtKeyKind, Seq<u8>)> {
    match k {
        KeyMaterial::Symmetric { key } => Some((JwtKeyKind::Secret, key@)),
        KeyMaterial::EC { x, y, d } => pem_key(JwtKeyKind::EcPem, ec_pem_of(x@, y@, opt_bytes(d))),
        KeyMaterial::RSA { n, private } => pem_key(
            JwtKeyKind::RsaPem,
            rsa_pem_of(n@, private_view(private)),
        ),
    }
}

/// The key a JSON web key's signatures are checked with: a symmetric key's
/// secret, else the PEM text of its public half. `None` where that has no
/// PEM form.
pub open spec fn decoding_key_of(k: KeyMaterial) -> Option<(JwtKeyKind, Seq<u8>)> {
    match k {
        KeyMaterial::Symmetric { key } => Some((JwtKeyKind::Secret, key@)),
        KeyMaterial::EC { x, y, d } => pem_key(JwtKeyKind::EcPem, ec_pem_of(x@, y@, None)),
        KeyMaterial::RSA { n, private } => pem_key(JwtKeyKind::RsaPem, rsa_pem_of(n@, None)),
    }
}

/// The key read from the PEM text `pem`, or the error of making it.
fn pem_bytes(kind: JwtKeyKind, pem: Result<String, String>) -> (r: Result<JwtKey, WithBacktrace>)
    ensures
        match pem {
            Ok(t) => r matches Ok(k) && k.kind == kind && k.bytes@ == vstd::utf8::encode_utf8(t@),
            Err(e) => r is Err && r->Err_0.spec_source() is Any,
        },
{
    match pem {
        Ok(t) => Ok(JwtKey { kind, bytes: t.as_str().as_bytes_vec() }),
        Err(e) => Err(any(e.as_str())),
    }
}

/// The key the private key `key` signs with; a public key is refused. A
/// private key whose parts fit has one, where an RSA key holds all its
/// private parts.
pub fn encoding_key(key: &KeyMaterial) -> (r: Result<JwtKey, WithBacktrace>)
    ensures
        key_is_private(*key) && key_parts_fit(*key) && (key matches KeyMaterial::RSA {
            private: Some(p),
            ..
        } ==> p.p is Some && p.q is Some && p.dp is Some && p.dq is Some && p.qi is Some)
            ==> r is Ok,
        !key_is_private(*key) ==> r is Err && r->Err_0.spec_source() is Forbidden
            && r->Err_0.spec_source()->Forbidden_0@ == "key is not private"@,
        key_is_private(*key) ==> match encoding_key_of(*key) {
            Some(k) => r matches Ok(j) && (j.kind, j.bytes@) == k,
            None => r is Err && r->Err_0.spec_source() is Any,
        },
{
    match key {
        KeyMaterial::Symmetric { key } => Ok(JwtKey { kind: JwtKeyKind::Secret, bytes: clone_bytes(key) }),
        KeyMaterial::EC { x, y, d } => match d {
            Some(_) => pem_bytes(JwtKeyKind::EcPem, ec_pem(x, y, d)),
            None => Err(forbidden("key is not private")),
        },
        KeyMaterial::RSA { n, private } => match private {
            Some(_) => pem_bytes(JwtKeyKind::RsaPem, rsa_pem(n, private)),
            None => Err(forbidden("key is not private")),
        },
    }
}

/// Whether a key has the parts its kind takes: a P-256 point of two
/// 32-byte coordinates (and a 32-byte scalar where it is private).
pub open spec fn key_parts_fit(k: KeyMaterial) -> bool {
    match k {
        KeyMaterial::EC { x, y, d } => x@.len() == 32 && y@.len() == 32 && (d matches Some(v)
            ==> v@.len() == 32),
        _ => true,
    }
}

/// The key the signatures of `key` are checked with. Every key whose parts
/// fit has one.
pub fn decoding_key(key: &KeyMaterial) -> (r: Result<JwtKey, WithBacktrace>)
    ensures
        match decoding_key_of(*key) {
            Some(k) => r matches Ok(j) && (j.kind, j.bytes@) == k,
            None => r is Err && r->Err_0.spec_source() is Any,
        },
        key_parts_fit(*key) ==> r is Ok,
{
    match key {
        KeyMaterial::Symmetric { key } => Ok(JwtKey { kind: JwtKeyKind::Secret, bytes: clone_bytes(key) }),
        KeyMaterial::EC { x, y, .. } => pem_bytes(JwtKeyKind::EcPem, ec_pem(x, y, &None)),
        KeyMaterial::RSA { n, .. } => pem_bytes(JwtKeyKind::RsaPem, rsa_pem(n, &None)),
    }
}

impl JwkKey<KeyMaterial> {
    /// The key this private key signs with; a public key is refused. A
    /// private key whose parts fit, and that holds all of an RSA key's
    /// private parts, has one.
    pub fn try_to_encoding_key(&self) -> (r: Result<JwtKey, WithBacktrace>)
        ensures
            key_is_private(self.0) && key_parts_fit(self.0) && (self.0 matches KeyMaterial::RSA {
                private: Some(p),
                ..
            } ==> p.p is Some && p.q is Some && p.dp is Some && p.dq is Some && p.qi is Some)
                ==> r is Ok,
            !key_is_private(self.0) ==> r is Err && r->Err_0.spec_source() is Forbidden
                && r->Err_0.spec_source()->Forbidden_0@ == "key is not private"@,
            key_is_private(self.0) ==> match encoding_key_of(self.0) {
                Some(k) => r matches Ok(j) && (j.kind, j.bytes@) == k,
                None => r is Err && r->Err_0.spec_source() is Any,
            },
    {
        encoding_key(&self.0)
    }

    /// The key this key's signatures are checked with; every key whose
    /// parts fit has one.
    pub fn try_to_decoding_key(&self) -> (r: Result<JwtKey, WithBacktrace>)
        ensures
            match decoding_key_of(self.0) {
                Some(k) => r matches Ok(j) && (j.kind, j.bytes@) == k,
                None => r is Err && r->Err_0.spec_source() is Any,
            },
            key_parts_fit(self.0) ==> r is Ok,
    {
        decoding_key(&self.0)
    }

    /// The key this private key signs with, for a key known to have one.
    pub fn to_encoding_key(&self) -> (r: JwtKey)
        requires
            key_is_private(self.0),
            encoding_key_of(self.0) is Some,
        ensures
            (r.kind, r.bytes@) == encoding_key_of(self.0)->0,
    {
        match encoding_key(&self.0) {
            Ok(k) => k,
            Err(_) => JwtKey { kind: JwtKeyKind::Secret, bytes: Vec::new() },
        }
    }

    /// The key this key's signatures are checked with, for a key known to
    /// have one.
    pub fn to_decoding_key(&self) -> (r: JwtKey)
        requires
            decoding_key_of(self.0) is Some,
        ensures
            (r.kind, r.bytes@) == decoding_key_of(self.0)->0,
    {
        match decoding_key(&self.0) {
            Ok(k) => k,
            Err(_) => JwtKey { kind: JwtKeyKind::Secret, bytes: Vec::new() },
        }
    }
}

/// The members a claim's further claims add to the token's claims: those of
/// the JSON object it holds (the text between its outer braces), where it
/// holds a non-empty one.
pub open spec fn extra_members(opts: Option<String>) -> Seq<char> {
    match opts {
        Some(o) => if o@.len() > 2 && o@[0] == '{' && o@.last() == '}' {
            ","@ + o@.subrange(1, o@.len() - 1)
        } else {
            Seq::empty()
        },
        None => Seq::empty(),
    }
}

/// The JSON text of the claims `c` as a token carries them: the audience,
/// times, issuer, nonce and access token (`null` where there is none),
/// then the subject and the further claims.
pub open spec fn claims_json_of(c: Claims) -> Seq<char> {
    "{\"aud\":"@ + json_quote_of(c.aud@) + ",\"exp\":"@ + int_text(c.exp as int) + ",\"nbf\":"@
        + int_text(c.nbf as int) + ",\"iss\":"@ + json_quote_of(c.iss@) + ",\"nonce\":"@
        + json_quote_of(c.nonce@) + ",\"access_token\":"@ + (match c.access_token {
        Some(a) => json_quote_of(a@),
        None => "null"@,
    }) + ",\"sub\":"@ + json_quote_of(c.claim.sub@) + extra_members(c.claim.opts) + "}"@
}

/// Writes the JSON text of the claims `c`.
pub fn claims_json(c: &Claims) -> (r: String)
    ensures
        r@ == claims_json_of(*c),
{
    let mut s = String::from_str("{\"aud\":");
    s.append(json_quote(c.aud.as_str()).as_str());
    s.append(",\"exp\":");
    s.append(i64_to_text(c.exp).as_str());
    s.append(",\"nbf\":");
    s.append(i64_to_text(c.nbf).as_str());
    s.append(",\"iss\":");
    s.append(json_quote(c.iss.as_str()).as_str());
    s.append(",\"nonce\":");
    s.append(json_quote(c.nonce.as_str()).as_str());
    s.append(",\"access_token\":");
    match &c.access_token {
        Some(a) => s.append(json_quote(a.as_str()).as_str()),
        None => s.append("null"),
    }
    s.append(",\"sub\":");
    s.append(json_quote(c.claim.sub.as_str()).as_str());
    let ghost head = s@;
    match &c.claim.opts {
        Some(o) => {
            let v = chars_of(o.as_str());
            if v.len() > 2 && v[0] == '{' && v[v.len() - 1] == '}' {
                s.push(',');
                proof {
                    reveal_strlit(",");
                    assert(s@ =~= head + ","@ + v@.subrange(1, 1));
                }
                for i in 1..v.len() - 1
                    invariant
                        v@ == o@,
                        v@.len() > 2,
                        s@ == head + ","@ + v@.subrange(1, i as int),
                {
                    s.push(v[i]);
                    assert(s@ =~= head + ","@ + v@.subrange(1, i + 1));
                }
                proof {
                    reveal_strlit(",");
                }
            }
        },
        None => {},
    }
    proof {
        reveal_strlit(",");
    }
    s.append("}");
    s
}

/// The first claims among `outcomes` (one per verification key, in order)
/// that a key the header's key id `kid` admits gave, if any.
pub open spec fn first_verified(
    keys: Seq<Option<Seq<char>>>,
    kid: Option<Seq<char>>,
    outcomes: Seq<Result<String, String>>,
    from: int,
) -> Option<Seq<char>>
    decreases keys.len() - from,
{
    if from >= keys.len() || from >= outcomes.len() {
        None
    } else if (kid is None || (keys[from] is Some && keys[from]->0 == kid->0))
        && outcomes[from] is Ok {
        Some(outcomes[from]->Ok_0@)
    } else {
        first_verified(keys, kid, outcomes, from + 1)
    }
}

/// The ids of the verification keys.
pub open spec fn key_ids(keys: Keys<JsonWebKey>) -> Seq<Option<Seq<char>>> {
    keys.verification_keys@.map_values(|k: crate::oidc::key::VerificationKey<JsonWebKey>| opt_view(k.public_key.key_id))
}

/// The claims of a checked token, from the outcomes of checking it with
/// each verification key (in order): those of the first key that the
/// header's key id `kid` admits and that verified it; refused where none
/// did.
pub fn verify_outcome(
    keys: &Keys<JsonWebKey>,
    kid: &Option<String>,
    outcomes: &Vec<Result<String, String>>,
) -> (r: Result<String, WithBacktrace>)
    ensures
        match first_verified(key_ids(*keys), opt_view(*kid), outcomes@, 0) {
            Some(c) => r matches Ok(t) && t@ == c,
            None => r is Err && r->Err_0.spec_source() is Forbidden
                && r->Err_0.spec_source()->Forbidden_0@ == "failed to verify id token signature"@,
        },
{
    let n = if keys.verification_keys.len() < outcomes.len() {
        keys.verification_keys.len()
    } else {
        outcomes.len()
    };
    let mut i: usize = 0;
    while i < n
        invariant
            n <= keys.verification_keys@.len(),
            n <= outcomes@.len(),
            n == keys.verification_keys@.len() || n == outcomes@.len(),
            i <= n,
            first_verified(key_ids(*keys), opt_view(*kid), outcomes@, i as int) == first_verified(
                key_ids(*keys),
                opt_view(*kid),
                outcomes@,
                0,
            ),
        decreases n - i,
    {
        let admitted = key_may_verify(kid, &keys.verification_keys[i].public_key.key_id);
        assert(key_ids(*keys)[i as int] == opt_view(keys.verification_keys@[i as int].public_key.key_id));
        if admitted {
            match &outcomes[i] {
                Ok(c) => return Ok(c.clone()),
                Err(_) => {},
            }
        }
        i = i + 1;
    }
    Err(forbidden("failed to verify id token signature"))
}

/// The algorithm a key signs by: the one it names, else HS256.
pub open spec fn key_algorithm(k: JsonWebKey) -> SigningAlgorithm {
    match k.algorithm {
        Some(a) => a,
        None => SigningAlgorithm::HS256,
    }
}

impl<T> AccessToken<T> {
    /// Issues a token with the signing key of `keys` for the claims
    /// `claims` at `now` (seconds since the Unix epoch): the claims as
    /// [`AccessToken::token_claims`] prepares them, in the JSON text of
    /// [`claims_json`], signed by the key's algorithm (HS256 where it names
    /// none) under its key id. Gives the token and its expiry. A public
    /// signing key is refused; a key with no PEM form, or one the signer
    /// refuses, fails.
    pub fn token(&self, keys: &Keys<JsonWebKey>, claims: &Claims, now: i64) -> (r: Result<
        (String, i64),
        WithBacktrace,
    >)
        requires
            i64::MIN <= now + self.spec_expire_sec() <= i64::MAX,
        ensures
            !key_is_private(keys.signing_key.key) ==> r is Err && r->Err_0.spec_source() is Forbidden
                && r->Err_0.spec_source()->Forbidden_0@ == "key is not private"@,
            key_is_private(keys.signing_key.key) && encoding_key_of(keys.signing_key.key) is None
                ==> r is Err && r->Err_0.spec_source() is Any,
            key_is_private(keys.signing_key.key) && encoding_key_of(keys.signing_key.key) is Some
                ==> exists|tc: Claims|
                {
                    let k = encoding_key_of(keys.signing_key.key)->0;
                    let alg = key_algorithm(keys.signing_key);
                    &&& #[trigger] is_token_claims(
                        tc,
                        *claims,
                        now as int,
                        self.spec_expire_sec() as int,
                    )
                    &&& r matches Ok((tok, exp)) ==> exp == now + self.spec_expire_sec()
                        && carries_claims_text(tok@, claims_json_of(tc))
                    &&& !(alg is ES256) ==> match jwt_encode_of(
                        alg,
                        opt_view(keys.signing_key.key_id),
                        claims_json_of(tc),
                        k.0,
                        k.1,
                    ) {
                        Some(t) => r matches Ok((tok, _)) && tok@ == t,
                        None => r is Err && r->Err_0.spec_source() is Any,
                    }
                },
            r matches Ok((tok, _)) ==> jwt_header_kid_of(tok@) == Some(opt_view(keys.signing_key.key_id)),
            r matches Ok((tok, _)) ==> (key_algorithm(keys.signing_key) is HS256 ==> (
            keys.signing_key.key matches KeyMaterial::Symmetric { key } ==> jwt_signature_ok_of(
                tok@,
                SigningAlgorithm::HS256,
                JwtKeyKind::Secret,
                key@,
            ))),
    {
        let tc = self.token_claims(claims, now);
        let alg = algorithm_or_default(&keys.signing_key.algorithm);
        let k = encoding_key(&keys.signing_key.key)?;
        let json = claims_json(&tc);
        let token = match jwt_encode(&alg, &keys.signing_key.key_id, json.as_str(), &k) {
            Ok(t) => t,
            Err(e) => return Err(any(e.as_str())),
        };
        assert(is_token_claims(tc, *claims, now as int, self.spec_expire_sec() as int));
        Ok((token, tc.exp))
    }

    /// Checks the token `token` against the verification keys of `keys`:
    /// the header must read; then each key the header's key id admits, in
    /// order, checks the signature by its algorithm, the times and the
    /// audience (where the issuer has audiences), until one accepts. Gives
    /// the claims, as JSON text, of the first that does; refused where none
    /// does. An admitted key with no decoding key, reached before any key
    /// accepted, fails the check.
    pub fn verify(&self, keys: &Keys<JsonWebKey>, token: &str) -> (r: Result<String, WithBacktrace>)
        ensures
            jwt_header_kid_of(token@) is None ==> r is Err && r->Err_0.spec_source() is Any,
            jwt_header_kid_of(token@) matches Some(kid) ==> exists|outcomes: Seq<Result<String, String>>|
                #[trigger] verify_run(*keys, kid, token@, self.spec_aud()@, outcomes, r),
            jwt_header_kid_of(token@) matches Some(kid) ==> (r matches Ok(c) ==> {
                &&& reads_claims(token@, c@)
                &&& audience_ok(token@, self.spec_aud()@)
                &&& exists|i: int|
                    0 <= i < keys.verification_keys@.len() && admits(*keys, kid, i)
                        && #[trigger] verified_by_key(*keys, token@, i)
            }),
    {
        let kid = match jwt_header_kid(token) {
            Ok(k) => k,
            Err(e) => return Err(any(e.as_str())),
        };
        let aud = if self.audiences().is_empty() {
            None
        } else {
            Some(self.audiences())
        };
        let ghost accepted = self.spec_aud()@;
        let ghost gkid = opt_view(kid);
        let mut outcomes: Vec<Result<String, String>> = Vec::new();
        let n = keys.verification_keys.len();
        let mut i: usize = 0;
        while i < n
            invariant
                n == keys.verification_keys@.len(),
                i <= n,
                outcomes@.len() == i,
                gkid == opt_view(kid),
                jwt_header_kid_of(token@) == Some(gkid),
                accepted == self.spec_aud()@,
                aud matches Some(a) ==> a@ == accepted,
                aud is None ==> accepted.is_empty(),
                forall|j: int|
                    0 <= j < i ==> key_outcome(*keys, gkid, token@, accepted, j, #[trigger] outcomes@[j]),
                forall|j: int| 0 <= j < i ==> (#[trigger] outcomes@[j]) is Err,
            decreases n - i,
        {
            let vk = &keys.verification_keys[i];
            if !key_may_verify(&kid, &vk.public_key.key_id) {
                outcomes.push(Err(String::new()));
                assert(key_outcome(*keys, gkid, token@, accepted, i as int, outcomes@[i as int]));
            } else {
                let alg = algorithm_or_default(&vk.public_key.algorithm);
                let dk = match decoding_key(&vk.public_key.key) {
                    Ok(k) => k,
                    Err(e) => {
                        let r: Result<String, WithBacktrace> = Err(e);
                        assert(verify_run(*keys, gkid, token@, accepted, outcomes@, r));
                        return r;
                    },
                };
                let outcome = jwt_decode(token, &alg, &dk, aud);
                let done = outcome.is_ok();
                outcomes.push(outcome);
                assert(key_outcome(*keys, gkid, token@, accepted, i as int, outcomes@[i as int]));
                if done {
                    proof {
                        assert(key_ids(*keys)[i as int] == opt_view(vk.public_key.key_id));
                        lemma_first_verified_last(key_ids(*keys), gkid, outcomes@, 0);
                    }
                    let r = verify_outcome(keys, &kid, &outcomes);
                    assert(verified_by_key(*keys, token@, i as int));
                    assert(verify_run(*keys, gkid, token@, accepted, outcomes@, r));
                    return r;
                }
            }
            i = i + 1;
        }
        proof {
            lemma_first_verified_all_err(key_ids(*keys), gkid, outcomes@, 0);
        }
        let r = verify_outcome(keys, &kid, &outcomes);
        assert(verify_run(*keys, gkid, token@, accepted, outcomes@, r));
        r
    }
}

/// A token signed with a secret checks out with the verification key that
/// holds the same secret under the same key id and algorithm: the header
/// that `token` wrote admits that key, and the signature checks out with
/// it.
pub proof fn lemma_secret_token_checks_with_its_key(keys: Keys<JsonWebKey>, tok: Seq<char>, i: int)
    requires
        0 <= i < keys.verification_keys@.len(),
        key_algorithm(keys.signing_key) is HS256,
        keys.signing_key.key matches KeyMaterial::Symmetric { key } && jwt_signature_ok_of(
            tok,
            SigningAlgorithm::HS256,
            JwtKeyKind::Secret,
            key@,
        ),
        jwt_header_kid_of(tok) == Some(opt_view(keys.signing_key.key_id)),
        crate::oidc::key::same_material(
            keys.verification_keys@[i].public_key.key,
            keys.signing_key.key,
        ),
        keys.verification_keys@[i].public_key.key_id == keys.signing_key.key_id,
        keys.verification_keys@[i].public_key.algorithm == keys.signing_key.algorithm,
    ensures
        admits(keys, jwt_header_kid_of(tok)->0, i),
        verified_by_key(keys, tok, i),
{
}

/// Whether the `i`th verification key of `keys` may have signed a token
/// whose header names the key `kid`: where it names one, it must be this.
pub open spec fn admits(keys: Keys<JsonWebKey>, kid: Option<Seq<char>>, i: int) -> bool {
    let id = keys.verification_keys@[i].public_key.key_id;
    kid is None || (id is Some && id->0@ == kid->0)
}

/// Whether the signature of the token `t` checks out with the `i`th
/// verification key of `keys`: by the key's algorithm, with its decoding
/// key.
pub open spec fn verified_by_key(keys: Keys<JsonWebKey>, t: Seq<char>, i: int) -> bool {
    let pk = keys.verification_keys@[i].public_key;
    decoding_key_of(pk.key) matches Some(k) && jwt_signature_ok_of(t, key_algorithm(pk), k.0, k.1)
}

/// Whether `o` can be what checking the token `t` with the `i`th
/// verification key of `keys` gave, the header naming the key `kid` and
/// the audiences `accepted` being accepted: nothing where the key is not
/// admitted; else the key has a decoding key, and a success means that
/// the signature checked out with it, the claims are those the token
/// carries, and the audience check passed.
pub open spec fn key_outcome(
    keys: Keys<JsonWebKey>,
    kid: Option<Seq<char>>,
    t: Seq<char>,
    accepted: Set<String>,
    i: int,
    o: Result<String, String>,
) -> bool {
    if !admits(keys, kid, i) {
        o is Err
    } else {
        &&& decoding_key_of(keys.verification_keys@[i].public_key.key) is Some
        &&& o matches Ok(c) ==> verified_by_key(keys, t, i) && reads_claims(t, c@) && audience_ok(
            t,
            accepted,
        )
    }
}

/// Whether `r` is what checking the token `t` against `keys` gives, the
/// header naming the key `kid`, the audiences `accepted` being accepted and
/// the checks of the keys, in order, having given `outcomes`: the checks
/// stop at the first success, whose claims are the answer (as
/// [`verify_outcome`] picks them); at an admitted key with no decoding
/// key, which fails; or after the last key, refused.
pub open spec fn verify_run(
    keys: Keys<JsonWebKey>,
    kid: Option<Seq<char>>,
    t: Seq<char>,
    accepted: Set<String>,
    outcomes: Seq<Result<String, String>>,
    r: Result<String, WithBacktrace>,
) -> bool {
    let n = keys.verification_keys@.len();
    &&& outcomes.len() <= n
    &&& forall|j: int|
        0 <= j < outcomes.len() ==> key_outcome(keys, kid, t, accepted, j, #[trigger] outcomes[j])
    &&& forall|j: int| 0 <= j < outcomes.len() - 1 ==> (#[trigger] outcomes[j]) is Err
    &&& match r {
        Ok(c) => {
            &&& outcomes.len() >= 1
            &&& outcomes.last() matches Ok(l) && l@ == c@
            &&& first_verified(key_ids(keys), kid, outcomes, 0) == Some(c@)
        },
        Err(e) => {
            ||| {
                &&& outcomes.len() == n
                &&& forall|j: int| 0 <= j < n ==> (#[trigger] outcomes[j]) is Err
                &&& first_verified(key_ids(keys), kid, outcomes, 0) is None
                &&& e.spec_source() is Forbidden
                &&& e.spec_source()->Forbidden_0@ == "failed to verify id token signature"@
            }
            ||| {
                &&& outcomes.len() < n
                &&& forall|j: int| 0 <= j < outcomes.len() ==> (#[trigger] outcomes[j]) is Err
                &&& admits(keys, kid, outcomes.len() as int)
                &&& decoding_key_of(keys.verification_keys@[outcomes.len() as int].public_key.key) is None
                &&& e.spec_source() is Any
            }
        },
    }
}

proof fn lemma_first_verified_all_err(
    keys: Seq<Option<Seq<char>>>,
    kid: Option<Seq<char>>,
    outcomes: Seq<Result<String, String>>,
    from: int,
)
    requires
        0 <= from,
        forall|j: int| from <= j < outcomes.len() ==> (#[trigger] outcomes[j]) is Err,
    ensures
        first_verified(keys, kid, outcomes, from) is None,
    decreases keys.len() - from,
{
    if from < keys.len() && from < outcomes.len() {
        lemma_first_verified_all_err(keys, kid, outcomes, from + 1);
    }
}

proof fn lemma_first_verified_last(
    keys: Seq<Option<Seq<char>>>,
    kid: Option<Seq<char>>,
    outcomes: Seq<Result<String, String>>,
    from: int,
)
    requires
        0 <= from < outcomes.len() <= keys.len(),
        forall|j: int| from <= j < outcomes.len() - 1 ==> (#[trigger] outcomes[j]) is Err,
        outcomes.last() is Ok,
        kid is None || (keys[outcomes.len() - 1] is Some && keys[outcomes.len() - 1]->0 == kid->0),
    ensures
        first_verified(keys, kid, outcomes, from) == Some(outcomes.last()->Ok_0@),
    decreases outcomes.len() - from,
{
    if from < outcomes.len() - 1 {
        assert(outcomes[from] is Err);
        lemma_first_verified_last(keys, kid, outcomes, from + 1);
    }
}

} // verus!
