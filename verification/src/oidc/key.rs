//! Signing keys: their rotation, and the public halves published for
//! verifying tokens.

use rsa::traits::{PrivateKeyParts, PublicKeyParts};
use vstd::prelude::*;

use crate::crypto::{is_alphanumeric_ascii, random_alphanumeric_string};
use crate::errors::{any, bad_request, forbidden, WithBacktrace};
use crate::oidc::token::SigningAlgorithm;

verus! {

/// How often the signing key is replaced, and how long a replaced key
/// stays published for verification, both in seconds.
#[derive(Debug)]
pub struct RotationStrategy {
    pub rotation_frequency: i64,
    pub keep: i64,
}

impl Clone for RotationStrategy {
    fn clone(&self) -> (r: Self)
        ensures
            r == *self,
    {
        RotationStrategy { rotation_frequency: self.rotation_frequency, keep: self.keep }
    }
}

/// A public key published for verifying tokens until `expiry` (seconds
/// since the Unix epoch).
#[derive(Debug)]
pub struct VerificationKey<K> {
    pub expiry: i64,
    pub public_key: K,
}

/// The keys of the service: the current signing key with its public half,
/// the keys tokens are verified with, and when the next rotation is due.
#[derive(Debug)]
pub struct Keys<K> {
    pub id: String,
    pub signing_key: K,
    pub signing_key_pub: K,
    pub verification_keys: Vec<VerificationKey<K>>,
    pub next_rotation: i64,
}

/// What a rotation run does.
#[derive(Debug)]
pub enum RotationStep {
    /// No keys yet: make the first ones.
    Create,
    /// The keys are not due: leave them.
    Skip,
    /// The keys are due: rotate them.
    Update,
}

/// Replaces the signing key on schedule.
#[derive(Debug)]
pub struct KeyRotator<S> {
    store: S,
    strategy: RotationStrategy,
}

/// The verification keys still valid at `now`, in order.
pub open spec fn unexpired<K>(keys: Seq<VerificationKey<K>>, now: int) -> Seq<VerificationKey<K>>
    decreases keys.len(),
{
    if keys.len() == 0 {
        Seq::empty()
    } else {
        let rest = unexpired(keys.drop_last(), now);
        if keys.last().expiry > now {
            rest.push(keys.last())
        } else {
            rest
        }
    }
}

pub open spec fn strategy_fits(s: RotationStrategy, now: int) -> bool {
    &&& i64::MIN <= now + s.keep <= i64::MAX
    &&& i64::MIN <= now + s.rotation_frequency <= i64::MAX
}

impl<S> KeyRotator<S> {
    /// A rotator over the key store `store`.
    pub fn new(store: S, strategy: RotationStrategy) -> (r: Self)
        ensures
            r.spec_store() == store,
            r.spec_strategy() == strategy,
    {
        KeyRotator { store, strategy }
    }

    pub closed spec fn spec_store(&self) -> S {
        self.store
    }

    pub closed spec fn spec_strategy(&self) -> RotationStrategy {
        self.strategy
    }

    /// The key store.
    pub fn store(&self) -> (r: &S)
        ensures
            *r == self.spec_store(),
    {
        &self.store
    }

    /// The rotation strategy.
    pub fn strategy(&self) -> (r: &RotationStrategy)
        ensures
            *r == self.spec_strategy(),
    {
        &self.strategy
    }

    /// What a rotation run at `now` does with the keys found.
    pub fn rotation_step<K>(existing: Option<&Keys<K>>, now: i64) -> (r: RotationStep)
        ensures
            r == match existing {
                None => RotationStep::Create,
                Some(k) => if k.next_rotation > now {
                    RotationStep::Skip
                } else {
                    RotationStep::Update
                },
            },
    {
        match existing {
            None => RotationStep::Create,
            Some(k) => if k.next_rotation > now {
                RotationStep::Skip
            } else {
                RotationStep::Update
            },
        }
    }

    /// The first keys, made at `now` from a fresh signing key and its
    /// public half.
    pub fn initial_keys<K: Clone>(&self, id: String, now: i64, signing_key: K, signing_key_pub: K) -> (r:
        Keys<K>)
        requires
            strategy_fits(self.spec_strategy(), now as int),
        ensures
            r.id == id,
            r.signing_key == signing_key,
            r.signing_key_pub == signing_key_pub,
            r.verification_keys@.len() == 1,
            r.verification_keys@[0].expiry == now + self.spec_strategy().keep,
            cloned(signing_key_pub, r.verification_keys@[0].public_key),
            r.next_rotation == now + self.spec_strategy().rotation_frequency,
    {
        let public_key = signing_key_pub.clone();
        let mut verification_keys: Vec<VerificationKey<K>> = Vec::new();
        verification_keys.push(VerificationKey { expiry: now + self.strategy.keep, public_key });
        Keys {
            id,
            signing_key,
            signing_key_pub,
            verification_keys,
            next_rotation: now + self.strategy.rotation_frequency,
        }
    }

    /// Rotates the keys `nk` at `now` to the fresh signing key
    /// `signing_key` with public half `signing_key_pub`: drops the
    /// verification keys that have expired, publishes the new public key
    /// first, and schedules the next rotation. Keys not yet due are
    /// refused, as another instance has rotated them.
    pub fn update_key<K: Clone>(
        &self,
        nk: &mut Keys<K>,
        now: i64,
        signing_key: K,
        signing_key_pub: K,
    ) -> (r: Result<(), WithBacktrace>)
        requires
            strategy_fits(self.spec_strategy(), now as int),
        ensures
            match r {
                Err(e) => old(nk).next_rotation > now && *final(nk) == *old(nk)
                    && e.spec_source() is Any && e.spec_source()->Any_0@
                    == "keys already rotated by another server instance"@,
                Ok(()) => {
                    &&& old(nk).next_rotation <= now
                    &&& final(nk).id == old(nk).id
                    &&& final(nk).signing_key == signing_key
                    &&& final(nk).signing_key_pub == signing_key_pub
                    &&& final(nk).next_rotation == now + self.spec_strategy().rotation_frequency
                    &&& final(nk).verification_keys@.len() >= 1
                    &&& final(nk).verification_keys@[0].expiry == now + self.spec_strategy().keep
                    &&& cloned(signing_key_pub, final(nk).verification_keys@[0].public_key)
                    &&& final(nk).verification_keys@.skip(1) == unexpired(
                        old(nk).verification_keys@,
                        now as int,
                    )
                },
            },
    {
        if nk.next_rotation > now {
            return Err(any("keys already rotated by another server instance"));
        }
        let ghost old_keys = nk.verification_keys@;
        let public_key = signing_key_pub.clone();
        let mut new_keys: Vec<VerificationKey<K>> = Vec::new();
        new_keys.push(VerificationKey { expiry: now + self.strategy.keep, public_key });
        let mut old_list: Vec<VerificationKey<K>> = Vec::new();
        std::mem::swap(&mut old_list, &mut nk.verification_keys);
        assert(old_list@ == old_keys);
        let n = old_list.len();
        let mut idx: usize = 0;
        let mut rest: Vec<VerificationKey<K>> = Vec::new();
        while old_list.len() > 0
            invariant
                idx + old_list@.len() == n,
                n == old_keys.len(),
                old_list@ == old_keys.skip(idx as int),
                rest@ == unexpired(old_keys.take(idx as int), now as int),
            decreases old_list@.len(),
        {
            let vk = old_list.remove(0);
            assert(old_keys.take(idx + 1).drop_last() =~= old_keys.take(idx as int));
            assert(old_keys.take(idx + 1).last() == vk);
            assert(old_keys.skip(idx as int).drop_first() =~= old_keys.skip(idx + 1));
            if vk.expiry > now {
                rest.push(vk);
            }
            idx = idx + 1;
        }
        assert(old_keys.take(n as int) =~= old_keys);
        let ghost head = new_keys@;
        new_keys.append(&mut rest);
        assert(new_keys@.skip(1) =~= unexpired(old_keys, now as int));
        nk.verification_keys = new_keys;
        nk.signing_key = signing_key;
        nk.signing_key_pub = signing_key_pub;
        nk.next_rotation = now + self.strategy.rotation_frequency;
        Ok(())
    }
}

/// Every verification key kept by a rotation at `now` is still valid then.
pub proof fn lemma_rotation_keeps_only_valid_keys<K>(keys: Seq<VerificationKey<K>>, now: int)
    ensures
        forall|i: int|
            0 <= i < unexpired(keys, now).len() ==> #[trigger] unexpired(keys, now)[i].expiry > now,
    decreases keys.len(),
{
    if keys.len() > 0 {
        lemma_rotation_keeps_only_valid_keys(keys.drop_last(), now);
        let u = unexpired(keys, now);
        let rest = unexpired(keys.drop_last(), now);
        assert forall|i: int| 0 <= i < u.len() implies #[trigger] u[i].expiry > now by {
            if i < rest.len() {
                assert(u[i] == rest[i]);
            }
        }
    }
}

/// A rotation at `now` keeps every verification key that is still valid.
pub proof fn lemma_rotation_keeps_valid_keys<K>(keys: Seq<VerificationKey<K>>, now: int, i: int)
    requires
        0 <= i < keys.len(),
        keys[i].expiry > now,
    ensures
        unexpired(keys, now).contains(keys[i]),
    decreases keys.len(),
{
    let rest = unexpired(keys.drop_last(), now);
    if i < keys.len() - 1 {
        lemma_rotation_keeps_valid_keys(keys.drop_last(), now, i);
        assert(keys.drop_last()[i] == keys[i]);
        let k = choose|k: int| 0 <= k < rest.len() && rest[k] == keys[i];
        let u = unexpired(keys, now);
        assert(u[k] == rest[k]);
    } else {
        let u = unexpired(keys, now);
        assert(u[u.len() - 1] == keys[i]);
    }
}

/// The private parts of an RSA key.
#[derive(Debug)]
pub struct RsaPrivateParts {
    pub d: Vec<u8>,
    pub p: Option<Vec<u8>>,
    pub q: Option<Vec<u8>>,
    pub dp: Option<Vec<u8>>,
    pub dq: Option<Vec<u8>>,
    pub qi: Option<Vec<u8>>,
}

/// The material of a JSON web key: a P-256 elliptic-curve key, an RSA key
/// (with the standard public exponent) or a symmetric key.
#[derive(Debug)]
pub enum KeyMaterial {
    EC { x: Vec<u8>, y: Vec<u8>, d: Option<Vec<u8>> },
    RSA { n: Vec<u8>, private: Option<RsaPrivateParts> },
    Symmetric { key: Vec<u8> },
}

/// Whether a key holds private parts (a symmetric key always does).
pub open spec fn key_is_private(k: KeyMaterial) -> bool {
    match k {
        KeyMaterial::Symmetric { .. } => true,
        KeyMaterial::EC { d, .. } => d is Some,
        KeyMaterial::RSA { private, .. } => private is Some,
    }
}

/// A JSON web key.
#[derive(Debug)]
pub struct JwkKey<T>(pub T);

impl JwkKey<KeyMaterial> {
    /// Whether this key holds private parts.
    pub fn is_private(&self) -> (r: bool)
        ensures
            r == key_is_private(self.0),
    {
        match &self.0 {
            KeyMaterial::Symmetric { .. } => true,
            KeyMaterial::EC { d, .. } => d.is_some(),
            KeyMaterial::RSA { private, .. } => private.is_some(),
        }
    }

    /// Only a private key can sign: refuses a public one.
    pub fn check_signing(&self) -> (r: Result<(), WithBacktrace>)
        ensures
            r is Ok <==> key_is_private(self.0),
            r matches Err(e) ==> e.spec_source() is Forbidden && e.spec_source()->Forbidden_0@
                == "key is not private"@,
    {
        if !self.is_private() {
            return Err(forbidden("key is not private"));
        }
        Ok(())
    }
}

/// The public half of a key: the key itself where it is public, and the
/// key without its private parts where it is an asymmetric private key. A
/// symmetric key has no public half.
pub fn jwk_to_public(key: KeyMaterial) -> (r: Result<KeyMaterial, WithBacktrace>)
    ensures
        match key {
            KeyMaterial::Symmetric { .. } => r is Err && r->Err_0.spec_source() is BadRequest
                && r->Err_0.spec_source()->BadRequest_0@ == "not supported symmetric key"@,
            KeyMaterial::EC { x, y, d } => r matches Ok(KeyMaterial::EC { x: x2, y: y2, d: d2 })
                && x2 == x && y2 == y && d2 is None,
            KeyMaterial::RSA { n, private } => r matches Ok(KeyMaterial::RSA { n: n2, private: p2 })
                && n2 == n && p2 is None,
        },
        r matches Ok(k) ==> !key_is_private(k),
{
    match key {
        KeyMaterial::Symmetric { .. } => Err(bad_request("not supported symmetric key")),
        KeyMaterial::EC { x, y, d } => Ok(KeyMaterial::EC { x, y, d: None }),
        KeyMaterial::RSA { n, private } => Ok(KeyMaterial::RSA { n, private: None }),
    }
}

/// A copy of the bytes `b`.
pub(crate) fn clone_bytes(b: &Vec<u8>) -> (r: Vec<u8>)
    ensures
        r@ == b@,
{
    let r = b.clone();
    assert(r@ =~= b@);
    r
}

/// The bytes an optional byte string holds.
pub open spec fn opt_bytes(o: Option<Vec<u8>>) -> Option<Seq<u8>> {
    match o {
        Some(v) => Some(v@),
        None => None,
    }
}

fn clone_opt_bytes(b: &Option<Vec<u8>>) -> (r: Option<Vec<u8>>)
    ensures
        opt_bytes(r) == opt_bytes(*b),
{
    match b {
        Some(v) => Some(clone_bytes(v)),
        None => None,
    }
}

/// Whether two sets of RSA private parts hold the same bytes.
pub open spec fn same_private(a: RsaPrivateParts, b: RsaPrivateParts) -> bool {
    &&& a.d@ == b.d@
    &&& opt_bytes(a.p) == opt_bytes(b.p)
    &&& opt_bytes(a.q) == opt_bytes(b.q)
    &&& opt_bytes(a.dp) == opt_bytes(b.dp)
    &&& opt_bytes(a.dq) == opt_bytes(b.dq)
    &&& opt_bytes(a.qi) == opt_bytes(b.qi)
}

/// Whether two keys are the same key: same kind and same bytes.
pub open spec fn same_material(a: KeyMaterial, b: KeyMaterial) -> bool {
    match (a, b) {
        (KeyMaterial::EC { x: x1, y: y1, d: d1 }, KeyMaterial::EC { x: x2, y: y2, d: d2 }) => x1@
            == x2@ && y1@ == y2@ && opt_bytes(d1) == opt_bytes(d2),
        (KeyMaterial::RSA { n: n1, private: p1 }, KeyMaterial::RSA { n: n2, private: p2 }) => n1@
            == n2@ && match (p1, p2) {
            (Some(x), Some(y)) => same_private(x, y),
            (None, None) => true,
            _ => false,
        },
        (KeyMaterial::Symmetric { key: k1 }, KeyMaterial::Symmetric { key: k2 }) => k1@ == k2@,
        _ => false,
    }
}

impl Clone for RsaPrivateParts {
    fn clone(&self) -> (r: Self)
        ensures
            same_private(r, *self),
    {
        RsaPrivateParts {
            d: clone_bytes(&self.d),
            p: clone_opt_bytes(&self.p),
            q: clone_opt_bytes(&self.q),
            dp: clone_opt_bytes(&self.dp),
            dq: clone_opt_bytes(&self.dq),
            qi: clone_opt_bytes(&self.qi),
        }
    }
}

impl Clone for KeyMaterial {
    fn clone(&self) -> (r: Self)
        ensures
            same_material(r, *self),
    {
        match self {
            KeyMaterial::EC { x, y, d } => KeyMaterial::EC {
                x: clone_bytes(x),
                y: clone_bytes(y),
                d: clone_opt_bytes(d),
            },
            KeyMaterial::RSA { n, private } => KeyMaterial::RSA {
                n: clone_bytes(n),
                private: match private {
                    Some(p) => Some(p.clone()),
                    None => None,
                },
            },
            KeyMaterial::Symmetric { key } => KeyMaterial::Symmetric { key: clone_bytes(key) },
        }
    }
}

/// What a key is for.
#[derive(Debug)]
pub enum KeyUse {
    Signing,
    Encryption,
}

/// A JSON web key with its metadata.
#[derive(Debug)]
pub struct JsonWebKey {
    pub key: KeyMaterial,
    pub key_use: Option<KeyUse>,
    pub key_id: Option<String>,
    pub algorithm: Option<SigningAlgorithm>,
}

/// Whether two JSON web keys are the same key with the same metadata.
pub open spec fn same_jwk(a: JsonWebKey, b: JsonWebKey) -> bool {
    &&& same_material(a.key, b.key)
    &&& a.key_use == b.key_use
    &&& a.key_id == b.key_id
    &&& a.algorithm == b.algorithm
}

impl Clone for JsonWebKey {
    fn clone(&self) -> (r: Self)
        ensures
            same_jwk(r, *self),
    {
        JsonWebKey {
            key: self.key.clone(),
            key_use: match &self.key_use {
                Some(KeyUse::Signing) => Some(KeyUse::Signing),
                Some(KeyUse::Encryption) => Some(KeyUse::Encryption),
                None => None,
            },
            key_id: crate::model::clone_opt_string(&self.key_id),
            algorithm: match &self.algorithm {
                Some(SigningAlgorithm::HS256) => Some(SigningAlgorithm::HS256),
                Some(SigningAlgorithm::ES256) => Some(SigningAlgorithm::ES256),
                Some(SigningAlgorithm::RS256) => Some(SigningAlgorithm::RS256),
                None => None,
            },
        }
    }
}

/// The parts of a generated RSA private key, as big-endian bytes: the
/// modulus, the private exponent, the primes, the exponents modulo each
/// prime less one, and the inverse of the second prime modulo the first
/// (as signed bytes).
#[derive(Debug)]
pub struct RsaKeyBytes {
    pub n: Vec<u8>,
    pub d: Vec<u8>,
    pub primes: Vec<Vec<u8>>,
    pub dp: Option<Vec<u8>>,
    pub dq: Option<Vec<u8>>,
    pub qinv: Option<Vec<u8>>,
}

/// Calls `rsa::RsaPrivateKey::new` with the operating system's random
/// source and gives the key's parts; where generation fails, the error's
/// text. The key is random. What holds of every key it makes: the modulus
/// has exactly `bits` bits (its generator retries until it does), so its
/// big-endian bytes number `bits / 8` rounded up; there are two primes;
/// and the exponents and the coefficient are computed together, so they
/// are all there or none is. Generation fails only for fewer than 64 bits
/// (too few primes of that size): for more it retries until the key is
/// made, and the key it builds passes its own validation.
#[verifier::external_body]
fn generate_rsa_key(bits: usize) -> (r: Result<RsaKeyBytes, String>)
    ensures
        64 <= bits ==> r is Ok,
        r matches Ok(p) ==> {
            &&& p.n@.len() == (bits + 7) / 8
            &&& p.primes@.len() == 2
            &&& (p.dp is Some <==> p.dq is Some)
            &&& (p.dp is Some <==> p.qinv is Some)
        },
{
    let k = rsa::RsaPrivateKey::new(&mut rsa::rand_core::OsRng, bits).map_err(|e| e.to_string())?;
    Ok(RsaKeyBytes {
        n: k.n().to_bytes_be(),
        d: k.d().to_bytes_be(),
        primes: k.primes().iter().map(|p| p.to_bytes_be()).collect(),
        dp: k.dp().map(|v| v.to_bytes_be()),
        dq: k.dq().map(|v| v.to_bytes_be()),
        qinv: k.qinv().map(|v| v.to_signed_bytes_be()),
    })
}

/// Whether `k` is the RSA private key with the parts `parts`: the first
/// prime where there are one or two, the second where there are two.
pub open spec fn is_rsa_private(k: KeyMaterial, parts: RsaKeyBytes) -> bool {
    let np = parts.primes@.len();
    &&& k matches KeyMaterial::RSA { n, private: Some(p) }
    &&& k->RSA_n@ == parts.n@
    &&& {
        let p = k->RSA_private->0;
        &&& p.d@ == parts.d@
        &&& opt_bytes(p.dp) == opt_bytes(parts.dp)
        &&& opt_bytes(p.dq) == opt_bytes(parts.dq)
        &&& opt_bytes(p.qi) == opt_bytes(parts.qinv)
        &&& opt_bytes(p.p) == (if np == 1 || np == 2 {
            Some(parts.primes@[0]@)
        } else {
            None
        })
        &&& opt_bytes(p.q) == (if np == 2 {
            Some(parts.primes@[1]@)
        } else {
            None
        })
    }
}

/// Whether `(sign, public)` is a signing key pair made from the RSA key
/// `parts` under the key id `kid`: RS256 keys for signing, the second the
/// public half of the first.
pub open spec fn is_rsa_signing_pair(
    sign: JsonWebKey,
    public: JsonWebKey,
    parts: RsaKeyBytes,
    kid: Seq<char>,
) -> bool {
    &&& is_rsa_private(sign.key, parts)
    &&& sign.key_use == Some(KeyUse::Signing)
    &&& sign.algorithm == Some(SigningAlgorithm::RS256)
    &&& sign.key_id matches Some(id) && id@ == kid
    &&& public.key matches KeyMaterial::RSA { n, private: None }
    &&& public.key->RSA_n@ == parts.n@
    &&& public.key_use == sign.key_use
    &&& public.algorithm == sign.algorithm
    &&& public.key_id == sign.key_id
}

/// Whether `public` is the public half of the RSA key `key`: the same
/// modulus, without private parts.
pub open spec fn is_public_half(public: KeyMaterial, key: KeyMaterial) -> bool {
    &&& key is RSA
    &&& public matches KeyMaterial::RSA { n, private: None }
    &&& public->RSA_n@ == key->RSA_n@
}

/// The signing key pair made from the RSA key `parts` under the key id
/// `kid`.
pub fn rsa_signing_pair(parts: RsaKeyBytes, kid: String) -> (r: (JsonWebKey, JsonWebKey))
    ensures
        is_rsa_signing_pair(r.0, r.1, parts, kid@),
{
    let np = parts.primes.len();
    let p = if np == 1 || np == 2 {
        Some(clone_bytes(&parts.primes[0]))
    } else {
        None
    };
    let q = if np == 2 {
        Some(clone_bytes(&parts.primes[1]))
    } else {
        None
    };
    let key = KeyMaterial::RSA {
        n: clone_bytes(&parts.n),
        private: Some(
            RsaPrivateParts {
                d: clone_bytes(&parts.d),
                p,
                q,
                dp: clone_opt_bytes(&parts.dp),
                dq: clone_opt_bytes(&parts.dq),
                qi: clone_opt_bytes(&parts.qinv),
            },
        ),
    };
    let public = KeyMaterial::RSA { n: clone_bytes(&parts.n), private: None };
    let sign = JsonWebKey {
        key,
        key_use: Some(KeyUse::Signing),
        key_id: Some(kid),
        algorithm: Some(SigningAlgorithm::RS256),
    };
    let public = JsonWebKey {
        key: public,
        key_use: Some(KeyUse::Signing),
        key_id: crate::model::clone_opt_string(&sign.key_id),
        algorithm: Some(SigningAlgorithm::RS256),
    };
    (sign, public)
}

impl<S> KeyRotator<S> {
    /// A fresh signing key pair: a new 2048-bit RSA key for RS256 under a
    /// random key id of 40 ASCII letters and digits, and its public half.
    pub fn create_key(&self) -> (r: Result<(JsonWebKey, JsonWebKey), WithBacktrace>)
        ensures
            r matches Ok(pair) ==> exists|parts: RsaKeyBytes, kid: Seq<char>|
                {
                    &&& parts.n@.len() == 256
                    &&& parts.primes@.len() == 2
                    &&& kid.len() == 40
                    &&& forall|i: int| 0 <= i < 40 ==> is_alphanumeric_ascii(#[trigger] kid[i])
                    &&& #[trigger] is_rsa_signing_pair(pair.0, pair.1, parts, kid)
                },
            r is Ok,
    {
        let parts = match generate_rsa_key(2048) {
            Ok(p) => p,
            Err(t) => return Err(any(t.as_str())),
        };
        let kid = random_alphanumeric_string(40);
        let ghost g_parts = parts;
        let ghost g_kid = kid@;
        let pair = rsa_signing_pair(parts, kid);
        assert(is_rsa_signing_pair(pair.0, pair.1, g_parts, g_kid));
        assert(g_kid.len() == 40);
        assert(g_parts.n@.len() == 256 && g_parts.primes@.len() == 2);
        assert(forall|i: int| 0 <= i < 40 ==> is_alphanumeric_ascii(#[trigger] g_kid[i]));
        let r: Result<(JsonWebKey, JsonWebKey), WithBacktrace> = Ok(pair);
        assert(r matches Ok(pr) && is_rsa_signing_pair(pr.0, pr.1, g_parts, g_kid)
            && g_parts.n@.len() == 256 && g_parts.primes@.len() == 2);
        r
    }

    /// One run of key rotation at `now`, given the keys found in the store
    /// (if any): `None` where they are not due yet; else the keys to store,
    /// rotated to a fresh signing key, or, where there were none, the first
    /// keys under the id `new_id`.
    pub fn rotate(&self, existing: Option<Keys<JsonWebKey>>, new_id: String, now: i64) -> (r:
        Result<Option<Keys<JsonWebKey>>, WithBacktrace>)
        requires
            strategy_fits(self.spec_strategy(), now as int),
        ensures
            match existing {
                Some(k) => if k.next_rotation > now {
                    r matches Ok(None)
                } else {
                    (r matches Ok(Some(nk)) ==> {
                        &&& nk.id == k.id
                        &&& nk.next_rotation == now + self.spec_strategy().rotation_frequency
                        &&& nk.verification_keys@.len() >= 1
                        &&& nk.verification_keys@[0].expiry == now + self.spec_strategy().keep
                        &&& same_jwk(nk.verification_keys@[0].public_key, nk.signing_key_pub)
                        &&& nk.verification_keys@.skip(1) == unexpired(
                            k.verification_keys@,
                            now as int,
                        )
                        &&& key_is_private(nk.signing_key.key)
                        &&& is_public_half(nk.signing_key_pub.key, nk.signing_key.key)
                        &&& nk.signing_key.key->RSA_n@.len() == 256
                    }) && r matches Ok(Some(_))
                },
                None => r matches Ok(Some(nk)) ==> {
                    &&& nk.id == new_id
                    &&& nk.next_rotation == now + self.spec_strategy().rotation_frequency
                    &&& nk.verification_keys@.len() == 1
                    &&& nk.verification_keys@[0].expiry == now + self.spec_strategy().keep
                    &&& same_jwk(nk.verification_keys@[0].public_key, nk.signing_key_pub)
                    &&& key_is_private(nk.signing_key.key)
                    &&& is_public_half(nk.signing_key_pub.key, nk.signing_key.key)
                    &&& nk.signing_key.key->RSA_n@.len() == 256
                },
            },
            existing is None ==> r matches Ok(Some(_)),
            r is Ok,
    {
        match existing {
            Some(mut k) => {
                if k.next_rotation > now {
                    return Ok(None);
                }
                let (sign, public) = self.create_key()?;
                match self.update_key(&mut k, now, sign, public) {
                    Ok(()) => Ok(Some(k)),
                    Err(e) => Err(e),
                }
            },
            None => {
                let (sign, public) = self.create_key()?;
                Ok(Some(self.initial_keys(new_id, now, sign, public)))
            },
        }
    }
}

} // verus!
