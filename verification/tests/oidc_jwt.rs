use std::collections::HashSet;
use std::time::{SystemTime, UNIX_EPOCH};

use cim::errors::Code;
use cim::model::Claim;
use cim::oidc::jwt::{claims_json, decoding_key, encoding_key, verify_outcome, JwtKeyKind};
use cim::oidc::key::{JsonWebKey, JwkKey, KeyMaterial, KeyRotator, KeyUse, Keys, RotationStrategy, VerificationKey};
use cim::oidc::token::{AccessToken, Claims, SigningAlgorithm};

fn now() -> i64 {
    SystemTime::now().duration_since(UNIX_EPOCH).unwrap().as_secs() as i64
}

fn web_key(key: KeyMaterial, kid: &str, alg: SigningAlgorithm) -> JsonWebKey {
    JsonWebKey { key, key_use: Some(KeyUse::Signing), key_id: Some(kid.to_owned()), algorithm: Some(alg) }
}

fn secret_keys(sign: &[u8], verify: &[(&str, &[u8])]) -> Keys<JsonWebKey> {
    let secret = |b: &[u8]| KeyMaterial::Symmetric { key: b.to_vec() };
    Keys {
        id: "1".to_owned(),
        signing_key: web_key(secret(sign), "k1", SigningAlgorithm::HS256),
        signing_key_pub: web_key(secret(sign), "k1", SigningAlgorithm::HS256),
        verification_keys: verify
            .iter()
            .map(|(kid, b)| VerificationKey { expiry: 12, public_key: web_key(secret(b), kid, SigningAlgorithm::HS256) })
            .collect(),
        next_rotation: 0,
    }
}

fn id_claims(aud: &str) -> Claims {
    Claims {
        aud: aud.to_owned(),
        exp: 0,
        nbf: 0,
        iss: String::new(),
        nonce: "hsjdkjfka".to_owned(),
        access_token: Some("at".to_owned()),
        claim: Claim { sub: "1".to_owned(), opts: None },
    }
}

fn forbidden_text(c: &Code) -> String {
    match c {
        Code::Forbidden(m) => m.clone(),
        other => panic!("{:?}", other),
    }
}

#[test]
fn token_encode_decode() {
    let rotator = KeyRotator::new((), RotationStrategy { rotation_frequency: 100, keep: 300 });
    let (signing_key, signing_key_pub) = rotator.create_key().unwrap();
    let keys = Keys {
        id: "1".to_owned(),
        signing_key,
        signing_key_pub: signing_key_pub.clone(),
        verification_keys: vec![VerificationKey { expiry: 12, public_key: signing_key_pub }],
        next_rotation: 0,
    };
    let t = AccessToken::new((), 30, HashSet::from(["IO".to_owned()]));
    let issued = now();
    let (token, exp) = t.token(&keys, &id_claims("IO"), issued).unwrap();
    assert_eq!(exp, issued + 30);
    assert_eq!(token.split('.').count(), 3);
    let claims = t.verify(&keys, &token).unwrap();
    assert!(claims.contains("\"sub\":\"1\""));
    assert!(claims.contains("\"nonce\":\"hsjdkjfka\""));
    assert!(claims.contains(&format!("\"exp\":{}", issued + 30)));
}

#[test]
fn tokens_signed_with_a_secret() {
    let keys = secret_keys(b"secret", &[("k1", b"secret")]);
    let t = AccessToken::new((), 60, HashSet::new());
    let issued = now();
    let (token, exp) = t.token(&keys, &id_claims("web"), issued).unwrap();
    assert_eq!(exp, issued + 60);
    assert_eq!(jsonwebtoken::decode_header(&token).unwrap().kid, Some("k1".to_owned()));
    let (again, _) = t.token(&keys, &id_claims("web"), issued).unwrap();
    assert_eq!(token, again);
    let claims = t.verify(&keys, &token).unwrap();
    let issued_text = claims_json(&t.token_claims(&id_claims("web"), issued));
    let written: serde_json::Value = serde_json::from_str(&issued_text).unwrap();
    assert_eq!(claims, written.to_string());
    assert!(claims.contains("\"aud\":\"web\""));
    assert!(claims.contains(&format!("\"nbf\":{}", issued)));
    assert!(!claims.contains("\"access_token\":\"at\""));
}

#[test]
fn tokens_that_do_not_verify() {
    let t = AccessToken::new((), 60, HashSet::new());
    let signer = secret_keys(b"secret", &[("k1", b"secret")]);
    let (token, _) = t.token(&signer, &id_claims("web"), now()).unwrap();
    let other = secret_keys(b"other", &[("k1", b"other")]);
    let e = t.verify(&other, &token).unwrap_err();
    assert_eq!(forbidden_text(e.source()), "failed to verify id token signature");
    let unnamed = secret_keys(b"secret", &[("k2", b"secret")]);
    let e = t.verify(&unnamed, &token).unwrap_err();
    assert_eq!(forbidden_text(e.source()), "failed to verify id token signature");
    let second = secret_keys(b"secret", &[("k0", b"other"), ("k1", b"secret")]);
    assert!(t.verify(&second, &token).is_ok());
    let expired = secret_keys(b"secret", &[("k1", b"secret")]);
    let (old, _) = t.token(&expired, &id_claims("web"), now() - 3600).unwrap();
    assert!(t.verify(&expired, &old).is_err());
    assert!(matches!(t.verify(&signer, "not a token").unwrap_err().source(), Code::Any(_)));
    let strict = AccessToken::new((), 60, HashSet::from(["IO".to_owned()]));
    let e = strict.verify(&signer, &token).unwrap_err();
    assert_eq!(forbidden_text(e.source()), "failed to verify id token signature");
}

#[test]
fn public_keys_do_not_sign() {
    let mut keys = secret_keys(b"secret", &[("k1", b"secret")]);
    keys.signing_key.key = KeyMaterial::RSA { n: vec![1, 2, 3], private: None };
    let t = AccessToken::new((), 60, HashSet::new());
    let e = t.token(&keys, &id_claims("web"), now()).unwrap_err();
    assert_eq!(forbidden_text(e.source()), "key is not private");
    let e = JwkKey(KeyMaterial::EC { x: vec![1; 32], y: vec![2; 32], d: None }).try_to_encoding_key().unwrap_err();
    assert_eq!(forbidden_text(e.source()), "key is not private");
}

#[test]
fn jwt_keys_of_json_web_keys() {
    let k = encoding_key(&KeyMaterial::Symmetric { key: vec![7, 8] }).unwrap();
    assert!(matches!(k.kind, JwtKeyKind::Secret));
    assert_eq!(k.bytes, vec![7, 8]);
    let k = JwkKey(KeyMaterial::Symmetric { key: vec![9] }).try_to_decoding_key().unwrap();
    assert_eq!(k.bytes, vec![9]);
    assert_eq!(JwkKey(KeyMaterial::Symmetric { key: vec![4] }).to_encoding_key().bytes, vec![4]);
    let public = JwkKey(KeyMaterial::RSA { n: vec![0xc3; 256], private: None }).to_decoding_key();
    assert!(matches!(public.kind, JwtKeyKind::RsaPem));
    let ec = decoding_key(&KeyMaterial::EC { x: vec![1; 32], y: vec![2; 32], d: Some(vec![3; 32]) }).unwrap();
    assert!(matches!(ec.kind, JwtKeyKind::EcPem));
    assert!(String::from_utf8(ec.bytes).unwrap().starts_with("-----BEGIN PUBLIC KEY-----"));
    let e = decoding_key(&KeyMaterial::EC { x: vec![1; 3], y: vec![2; 32], d: None }).unwrap_err();
    assert!(matches!(e.source(), Code::Any(_)));
    let e = encoding_key(&KeyMaterial::RSA {
        n: vec![1, 2, 3],
        private: Some(cim::oidc::key::RsaPrivateParts { d: vec![5], p: None, q: None, dp: None, dq: None, qi: None }),
    })
    .unwrap_err();
    assert!(matches!(e.source(), Code::Any(_)));
    let pem = decoding_key(&KeyMaterial::RSA { n: vec![0xc3; 256], private: None }).unwrap();
    assert!(matches!(pem.kind, JwtKeyKind::RsaPem));
    assert!(String::from_utf8(pem.bytes).unwrap().starts_with("-----BEGIN PUBLIC KEY-----"));
}

#[test]
fn claims_as_json_text() {
    let c = Claims {
        aud: "IO".to_owned(),
        exp: 5,
        nbf: -2,
        iss: "i".to_owned(),
        nonce: "n\"".to_owned(),
        access_token: None,
        claim: Claim { sub: "1".to_owned(), opts: Some("{\"email\":\"a@b\"}".to_owned()) },
    };
    assert_eq!(
        claims_json(&c),
        "{\"aud\":\"IO\",\"exp\":5,\"nbf\":-2,\"iss\":\"i\",\"nonce\":\"n\\\"\",\"access_token\":null,\"sub\":\"1\",\"email\":\"a@b\"}"
    );
    let mut d = c.clone();
    d.access_token = Some("h".to_owned());
    d.claim.opts = Some("{}".to_owned());
    assert_eq!(
        claims_json(&d),
        "{\"aud\":\"IO\",\"exp\":5,\"nbf\":-2,\"iss\":\"i\",\"nonce\":\"n\\\"\",\"access_token\":\"h\",\"sub\":\"1\"}"
    );
}

#[test]
fn first_key_that_verifies() {
    let keys = secret_keys(b"s", &[("a", b"s"), ("b", b"s")]);
    let ok = |s: &str| -> Result<String, String> { Ok(s.to_owned()) };
    let outcomes = vec![ok("x"), ok("y")];
    assert_eq!(verify_outcome(&keys, &Some("b".to_owned()), &outcomes).unwrap(), "y");
    assert_eq!(verify_outcome(&keys, &None, &outcomes).unwrap(), "x");
    let failed = vec![Err("bad".to_owned()), ok("y")];
    assert_eq!(verify_outcome(&keys, &None, &failed).unwrap(), "y");
    let e = verify_outcome(&keys, &Some("c".to_owned()), &outcomes).unwrap_err();
    assert_eq!(forbidden_text(e.source()), "failed to verify id token signature");
    let e = verify_outcome(&keys, &None, &vec![Err("bad".to_owned())]).unwrap_err();
    assert_eq!(forbidden_text(e.source()), "failed to verify id token signature");
}
