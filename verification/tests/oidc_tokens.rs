use std::collections::HashSet;

use cim::oidc::callback_flow::{
    on_connector as callback_on_connector, on_sessions as callback_on_sessions, on_user as callback_on_user,
};

use cim::oidc::code_flow::{on_deleted as code_flow_on_deleted, start as code_flow_start, CodeAction, CodeFlow};

use cim::oidc::grant::PasswordGrantOpts;
use cim::oidc::password_flow::{
    on_access_token as password_on_access_token, on_client as password_on_client, on_connectors,
    on_id_token as password_on_id_token, on_refresh_token, on_user as password_on_user, password_scopes,
    PasswordRequest, PasswordSigned,
};

use cim::oidc::refresh_flow::{
    on_access_token, on_client, on_connector, on_id_token, on_session_stored, on_sessions, on_token,
    on_token_stored, on_user, RefreshRequest,
};

use cim::oidc::key::{rsa_signing_pair, JsonWebKey, KeyUse, RsaKeyBytes};
use cim::oidc::token::SigningAlgorithm;

use cim::errors::{not_found, Code, WithBacktrace};
use cim::model::{Claim, Client, Connector, OfflineSession, RefreshToken, RefreshTokenRef, StoredAuthRequest};
use cim::oidc::code::{
    auth_code_for, check_session, code_redirect, is_implicit_or_hybrid, new_auth_code,
    redirect_claims, redirect_has_query, response_type_kind, IssuedTokens, ResponseTypeKind,
};
use cim::oidc::discovery::OpenIDConfiguration;
use cim::oidc::grant::{
    bearer_response, first_connector_id, get_client_and_valid, grant_claims, issues_refresh_token,
    token_ref, token_response_headers, RefreshTokenHandler,
};
use cim::oidc::key::{jwk_to_public, JwkKey, KeyMaterial, KeyRotator, Keys, RotationStep, RotationStrategy, VerificationKey};
use cim::oidc::password::{approval_url, finalize_login, AuthReqID, FinalizeStep};
use cim::oidc::connect::{open_connector, ConnectorKind, Identity, UserPassword};
use cim::oidc::refresh::{
    check_requested_scopes, first_session, record_session_use, refresh_connector_data, RefreshGrant,
};
use cim::oidc::token::{
    audience_text, first_keys, grant_type, key_may_verify, new_refresh_token, refresh_token_value,
    register_refresh_token, session_after_login, wants_refresh_token, AccessToken, ClaimRefreshToken,
    Claims, GrantType, OfflineStep,
};

const SEC: i64 = 1_000_000_000;

fn code_flow_begin(a: StoredAuthRequest, now: i64, deleted: Result<(), WithBacktrace>) -> Result<CodeFlow, WithBacktrace> {
    code_flow_on_deleted(code_flow_start(a, now).unwrap(), deleted)
}

fn strings(v: &[&str]) -> Vec<String> {
    v.iter().map(|s| s.to_string()).collect()
}

fn claim(sub: &str) -> Claim {
    Claim { sub: sub.to_owned(), opts: None }
}

fn client(id: &str, secret: &str) -> Client {
    Client {
        id: id.to_owned(),
        secret: secret.to_owned(),
        name: String::new(),
        logo_url: String::new(),
        account_id: String::new(),
        redirect_uris: Vec::new(),
        trusted_peers: Vec::new(),
    }
}

fn stored_token() -> RefreshToken {
    let mut t = new_refresh_token(
        "rt1".to_owned(),
        "web",
        &strings(&["openid", "offline_access"]),
        "n",
        "secret-1".to_owned(),
        &claim("alice"),
        "local",
        &Some("data".to_owned()),
        100 * SEC,
    );
    assert_eq!(t.created_at, 0);
    t.created_at = 100 * SEC;
    t
}

fn auth_request(types: &[&str], force_approval: bool) -> StoredAuthRequest {
    StoredAuthRequest {
        id: "req1".to_owned(),
        client_id: "web".to_owned(),
        response_types: strings(types),
        scopes: strings(&["openid"]),
        redirect_uri: "http://localhost/cb".to_owned(),
        code_challenge: "ch".to_owned(),
        code_challenge_method: "plain".to_owned(),
        nonce: "n1".to_owned(),
        state: "st".to_owned(),
        force_approval_prompt: force_approval,
        logged_in: false,
        claim: Claim::empty(),
        connector_id: "local".to_owned(),
        connector_data: None,
        expiry: 1000,
        hmac_key: "key".to_owned(),
    }
}

fn bad_request_text(e: &WithBacktrace) -> String {
    match e.source() {
        Code::BadRequest(m) => m.clone(),
        other => panic!("not a bad request: {:?}", other),
    }
}

#[test]
fn grant_types() {
    assert!(matches!(grant_type("authorization_code"), Ok(GrantType::AuthorizationCode)));
    assert!(matches!(grant_type("refresh_token"), Ok(GrantType::RefreshToken)));
    assert!(matches!(grant_type("password"), Ok(GrantType::Password)));
    let e = grant_type("implicit").unwrap_err();
    assert_eq!(bad_request_text(&e), "unknown grant type: implicit");
}

#[test]
fn audience_claims() {
    assert_eq!(audience_text(&Vec::new()), "");
    assert_eq!(audience_text(&strings(&["web"])), "web");
    assert_eq!(audience_text(&strings(&["web", "api"])), "[\"web\",\"api\"]");
}

#[test]
fn refresh_token_value_is_json() {
    let t = stored_token();
    assert_eq!(refresh_token_value(&t), "{\"refresh_id\":\"rt1\",\"token\":\"secret-1\"}");
    let c = ClaimRefreshToken { refresh_id: "a\"b".to_owned(), token: "t".to_owned() };
    assert_eq!(c.to_json(), "{\"refresh_id\":\"a\\\"b\",\"token\":\"t\"}");
}

#[test]
fn token_claims_hash_the_access_token() {
    let issuer = AccessToken::new((), 3600, HashSet::new());
    let mut c = grant_claims(&claim("alice"), "n", &strings(&["web"]));
    assert_eq!(c.aud, "web");
    c.access_token = Some("abc".to_owned());
    let t = issuer.token_claims(&c, 1000);
    assert_eq!(t.exp, 4600);
    assert_eq!(t.nbf, 1000);
    assert_eq!(t.nonce, "n");
    assert_eq!(t.access_token, Some("ungWv48Bz+pBQUDeXa4iI7ADYaOWF3qctBD/YfIAFa0=".to_owned()));
    let plain = grant_claims(&claim("alice"), "n", &Vec::new());
    let t = issuer.token_claims(&plain, 5);
    assert_eq!(t.access_token, None);
    assert_eq!(t.aud, "");
    let now = issuer.signing_claims(&plain).unwrap();
    assert_eq!(now.exp - now.nbf, 3600);
}

#[test]
fn signing_keys() {
    let none: Vec<Keys<String>> = Vec::new();
    assert!(matches!(first_keys(none).unwrap_err().source(), Code::NotFound(m) if m == "key not found"));
    assert!(key_may_verify(&None, &Some("k1".to_owned())));
    assert!(key_may_verify(&Some("k1".to_owned()), &Some("k1".to_owned())));
    assert!(!key_may_verify(&Some("k1".to_owned()), &Some("k2".to_owned())));
    assert!(!key_may_verify(&Some("k1".to_owned()), &None));
}

#[test]
fn key_rotation() {
    let rotator = KeyRotator::new((), RotationStrategy { rotation_frequency: 100, keep: 300 });
    let mut keys = rotator.initial_keys("k".to_owned(), 1000, "s1".to_owned(), "p1".to_owned());
    assert_eq!(keys.next_rotation, 1100);
    assert_eq!(keys.verification_keys.len(), 1);
    assert_eq!(keys.verification_keys[0].expiry, 1300);
    assert!(matches!(KeyRotator::<()>::rotation_step(Some(&keys), 1050), RotationStep::Skip));
    assert!(matches!(KeyRotator::<()>::rotation_step(Some(&keys), 1100), RotationStep::Update));
    assert!(matches!(KeyRotator::<()>::rotation_step::<String>(None, 0), RotationStep::Create));
    let early = rotator.update_key(&mut keys, 1050, "s2".to_owned(), "p2".to_owned());
    assert!(early.is_err());
    assert_eq!(keys.signing_key, "s1");
    rotator.update_key(&mut keys, 1100, "s2".to_owned(), "p2".to_owned()).unwrap();
    assert_eq!(keys.signing_key, "s2");
    assert_eq!(keys.verification_keys.len(), 2);
    assert_eq!(keys.verification_keys[0].public_key, "p2");
    assert_eq!(keys.verification_keys[1].public_key, "p1");
    keys.verification_keys.push(VerificationKey { expiry: 1200, public_key: "old".to_owned() });
    rotator.update_key(&mut keys, 1300, "s3".to_owned(), "p3".to_owned()).unwrap();
    let published: Vec<&str> = keys.verification_keys.iter().map(|k| k.public_key.as_str()).collect();
    assert_eq!(published, vec!["p3", "p2"]);
    assert_eq!(keys.next_rotation, 1400);
}

#[test]
fn public_halves_of_keys() {
    let ec = KeyMaterial::EC { x: vec![1], y: vec![2], d: Some(vec![3]) };
    assert!(JwkKey(ec).check_signing().is_ok());
    let ec = KeyMaterial::EC { x: vec![1], y: vec![2], d: Some(vec![3]) };
    match jwk_to_public(ec).unwrap() {
        KeyMaterial::EC { x, y, d } => {
            assert_eq!((x, y, d), (vec![1], vec![2], None));
        }
        other => panic!("{:?}", other),
    }
    let public = KeyMaterial::RSA { n: vec![9], private: None };
    assert!(!JwkKey(public).is_private());
    let e = jwk_to_public(KeyMaterial::Symmetric { key: vec![1] }).unwrap_err();
    assert_eq!(bad_request_text(&e), "not supported symmetric key");
    let public = KeyMaterial::RSA { n: vec![9], private: None };
    assert!(matches!(JwkKey(public).check_signing().unwrap_err().source(), Code::Forbidden(m) if m == "key is not private"));
}

#[test]
fn refresh_token_lifetimes() {
    let g = RefreshGrant { absolute_lifetime: 60, valid_if_not_used_for: 30, reuse_interval: 5, rotate_refresh_tokens: true };
    assert!(!g.completely_expired(160 * SEC, 100 * SEC));
    assert!(g.completely_expired(160 * SEC + 1, 100 * SEC));
    assert!(g.expired_because_unused(131 * SEC, 100 * SEC));
    assert!(g.allow_reused(104 * SEC, 100 * SEC));
    assert!(!g.allow_reused(105 * SEC, 100 * SEC));
    let off = RefreshGrant { absolute_lifetime: 0, valid_if_not_used_for: 0, reuse_interval: 0, rotate_refresh_tokens: false };
    assert!(!off.completely_expired(i64::MAX, 0));
    assert!(!off.expired_because_unused(i64::MAX, 0));
    assert!(!off.allow_reused(0, 0));
}

#[test]
fn refresh_token_checks() {
    let g = RefreshGrant { absolute_lifetime: 60, valid_if_not_used_for: 30, reuse_interval: 5, rotate_refresh_tokens: true };
    let stored = stored_token();
    let presented = ClaimRefreshToken { refresh_id: "rt1".to_owned(), token: "secret-1".to_owned() };
    assert!(g.check_token("web", &stored, &presented, 110 * SEC).is_ok());
    let e = g.check_token("api", &stored, &presented, 110 * SEC).unwrap_err();
    assert_eq!(bad_request_text(&e), "refresh token does not belong to this client");
    let wrong = ClaimRefreshToken { refresh_id: "rt1".to_owned(), token: "x".to_owned() };
    let e = g.check_token("web", &stored, &wrong, 110 * SEC).unwrap_err();
    assert_eq!(bad_request_text(&e), "invalid refresh token");
    let e = g.check_token("web", &stored, &presented, 131 * SEC).unwrap_err();
    assert_eq!(bad_request_text(&e), "refresh token expired because it was not used in time");
}

#[test]
fn refresh_token_rotation() {
    let g = RefreshGrant { absolute_lifetime: 0, valid_if_not_used_for: 0, reuse_interval: 5, rotate_refresh_tokens: true };
    let mut stored = stored_token();
    let mut presented = ClaimRefreshToken { refresh_id: "rt1".to_owned(), token: "secret-1".to_owned() };
    let last = g.rotate(&mut presented, &mut stored, 200 * SEC).unwrap();
    assert_eq!(last, 200 * SEC);
    assert_eq!(stored.obsolete_token, "secret-1");
    assert_eq!(presented.token.len(), 36);
    assert_eq!(stored.token, presented.token);
    assert_eq!(stored.connector_data, None);
    let mut old = ClaimRefreshToken { refresh_id: "rt1".to_owned(), token: "secret-1".to_owned() };
    let last = g.rotate(&mut old, &mut stored, 202 * SEC).unwrap();
    assert_eq!(last, 200 * SEC);
    assert_eq!(old.token, stored.token);
    let mut stale = ClaimRefreshToken { refresh_id: "rt1".to_owned(), token: "other".to_owned() };
    let e = g.rotate(&mut stale, &mut stored, 202 * SEC).unwrap_err();
    assert_eq!(bad_request_text(&e), "refresh token has already been used");
    let keep = RefreshGrant { absolute_lifetime: 0, valid_if_not_used_for: 0, reuse_interval: 0, rotate_refresh_tokens: false };
    let mut stored = stored_token();
    let mut presented = ClaimRefreshToken { refresh_id: "rt1".to_owned(), token: "secret-1".to_owned() };
    assert_eq!(keep.rotate(&mut presented, &mut stored, 300 * SEC).unwrap(), 300 * SEC);
    assert_eq!(stored.token, "secret-1");
    assert_eq!(stored.last_used_at, 300 * SEC);
}

#[test]
fn requested_scopes_of_a_refresh() {
    let granted = strings(&["openid", "offline_access"]);
    assert!(check_requested_scopes(&strings(&["openid", "email"]), &granted).is_ok());
    let e = check_requested_scopes(&strings(&["openid"]), &granted).unwrap_err();
    assert_eq!(bad_request_text(&e), "Requested scopes contain unauthorized scope(s): []");
}

fn session(refresh: Vec<RefreshTokenRef>) -> OfflineSession {
    OfflineSession {
        id: "s1".to_owned(),
        user_id: "alice".to_owned(),
        conn_id: "local".to_owned(),
        connector_data: None,
        refresh,
    }
}

#[test]
fn offline_sessions_of_refreshes() {
    assert_eq!(refresh_connector_data(&Some("a".to_owned()), &Some("b".to_owned())), Some("a".to_owned()));
    assert_eq!(refresh_connector_data(&None, &Some("b".to_owned())), Some("b".to_owned()));
    let e = first_session(Vec::new()).unwrap_err();
    assert!(matches!(e.source(), Code::NotFound(m) if m == "Offline session not found"));
    assert_eq!(first_session(vec![session(Vec::new())]).unwrap().id, "s1");
    let t = stored_token();
    let mut s = session(vec![token_ref(&t, "rt1")]);
    record_session_use(&mut s, &t, 500, &Some("new".to_owned())).unwrap();
    assert_eq!(s.refresh[0].last_used_at, 500);
    assert_eq!(s.connector_data, Some("new".to_owned()));
    let mut foreign = session(vec![token_ref(&t, "other")]);
    let e = record_session_use(&mut foreign, &t, 500, &None).unwrap_err();
    assert_eq!(bad_request_text(&e), "refresh token invalid");
}

#[test]
fn registering_refresh_tokens() {
    let t = stored_token();
    match register_refresh_token(None, "s9".to_owned(), token_ref(&t, "rt1"), "alice", "local", &None) {
        OfflineStep::Save(s) => {
            assert_eq!(s.id, "s9");
            assert_eq!(s.refresh.len(), 1);
            assert_eq!(s.refresh[0].client_id, "web");
        }
        other => panic!("{:?}", other),
    }
    let existing = session(vec![token_ref(&t, "rt0")]);
    match register_refresh_token(Some(existing), "s9".to_owned(), token_ref(&t, "rt1"), "alice", "local", &None) {
        OfflineStep::Superseded(id) => assert_eq!(id, "rt0"),
        other => panic!("{:?}", other),
    }
    assert!(session_after_login(Some(session(Vec::new())), "s9".to_owned(), "alice", "local", &None).is_none());
    let s = session_after_login(None, "s9".to_owned(), "alice", "local", &None).unwrap();
    assert_eq!((s.id.as_str(), s.user_id.as_str(), s.refresh.len()), ("s9", "alice", 0));
    assert!(wants_refresh_token(&strings(&["openid", "offline_access"])));
    assert!(!wants_refresh_token(&strings(&["openid"])));
}

#[test]
fn refresh_token_cleanup() {
    let h = RefreshTokenHandler { refresh_token_store: &(), offline_session_store: &() };
    let (del, res) = h.after_offline("new", Ok(Some("old".to_owned())));
    assert_eq!(del, Some("old".to_owned()));
    assert!(res.is_ok());
    let (del, res) = h.after_offline("new", Ok(None));
    assert_eq!(del, None);
    assert!(res.is_ok());
    let (del, res) = h.after_offline("new", Err(not_found("x")));
    assert_eq!(del, Some("new".to_owned()));
    assert!(res.is_err());
}

#[test]
fn client_secrets() {
    let c = get_client_and_valid(Ok(client("web", "s3cret")), "s3cret").unwrap();
    assert_eq!(c.id, "web");
    let e = get_client_and_valid(Ok(client("web", "s3cret")), "s3cre").unwrap_err();
    assert!(matches!(e.source(), Code::Forbidden(m) if m == "invalid client secret"));
    let e = get_client_and_valid(Err(not_found("client")), "s3cret").unwrap_err();
    assert!(matches!(e.source(), Code::NotFound(_)));
}

#[test]
fn token_endpoint_answers() {
    let r = bearer_response("at".to_owned(), "it".to_owned(), 99, None, strings(&["openid"]));
    assert_eq!(r.token_type, "bearer");
    assert_eq!(r.id_token, Some("it".to_owned()));
    assert_eq!(r.expires_in, Some(99));
    assert_eq!(r.scopes, Some(strings(&["openid"])));
    assert_eq!(
        token_response_headers(),
        vec![
            ("cache-control".to_owned(), "no-store".to_owned()),
            ("pragma".to_owned(), "no-cache".to_owned())
        ]
    );
    assert!(issues_refresh_token(true, &strings(&["openid", "offline_access"])));
    assert!(!issues_refresh_token(false, &strings(&["openid", "offline_access"])));
    let conns = vec![Connector {
        id: "c1".to_owned(),
        connector_type: "local".to_owned(),
        name: String::new(),
        response_version: String::new(),
        config: String::new(),
        connector_data: None,
    }];
    assert_eq!(first_connector_id(&conns).unwrap(), "c1");
    assert!(matches!(first_connector_id(&Vec::new()).unwrap_err().source(), Code::NotFound(m) if m == "no connectors"));
}

#[test]
fn response_types_and_sessions() {
    assert!(matches!(response_type_kind("code"), ResponseTypeKind::Code));
    assert!(matches!(response_type_kind("id_token"), ResponseTypeKind::IdToken));
    assert!(matches!(response_type_kind("token"), ResponseTypeKind::Token));
    assert!(matches!(response_type_kind("none"), ResponseTypeKind::Other));
    assert!(is_implicit_or_hybrid(&strings(&["code", "token"])));
    assert!(!is_implicit_or_hybrid(&strings(&["code"])));
    assert!(check_session(10, 10).is_ok());
    assert_eq!(bad_request_text(&check_session(11, 10).unwrap_err()), "User session has expired.");
    assert_eq!(redirect_has_query("http://a/cb?x=1").unwrap(), true);
    assert_eq!(redirect_has_query("http://a/cb").unwrap(), false);
    assert!(bad_request_text(&redirect_has_query("http://[::1").unwrap_err()).starts_with("Invalid redirect_uri. "));
}

#[test]
fn code_redirects() {
    let a = auth_request(&["code"], false);
    let issued = IssuedTokens { code: Some("c1".to_owned()), access_token: String::new(), id_token: String::new(), id_token_expiry: 0 };
    assert_eq!(code_redirect(&a, false, &issued, 0), "http://localhost/cb?code=c1&state=st");
    assert_eq!(code_redirect(&a, true, &issued, 0), "http://localhost/cb&code=c1&state=st");
    let h = auth_request(&["id_token", "token"], false);
    let issued = IssuedTokens { code: None, access_token: "at".to_owned(), id_token: "it".to_owned(), id_token_expiry: 160 };
    assert_eq!(
        code_redirect(&h, false, &issued, 100),
        "http://localhost/cb?access_token=at&token_type=bearer&state=st&id_token=it&expires_in=60"
    );
    let both = auth_request(&["code", "id_token"], false);
    let issued = IssuedTokens { code: Some("c1".to_owned()), access_token: "at".to_owned(), id_token: "it".to_owned(), id_token_expiry: 160 };
    assert_eq!(
        code_redirect(&both, false, &issued, 100),
        "http://localhost/cb?access_token=at&token_type=bearer&state=st&id_token=it&code=c1"
    );
}

#[test]
fn auth_codes() {
    let a = auth_request(&["code"], false);
    let c = auth_code_for(&a, "code-1".to_owned(), 1000);
    assert_eq!(c.id, "code-1");
    assert_eq!(c.expiry, 2800);
    assert_eq!(c.client_id, "web");
    assert_eq!(c.code_challenge, "ch");
    let fresh = new_auth_code(&a, 1000);
    assert_eq!(fresh.id.len(), 36);
    let digits: Vec<char> = fresh.id.chars().collect();
    assert_eq!((digits[8], digits[13], digits[14], digits[18], digits[23]), ('-', '-', '4', '-', '-'));
    assert!(matches!(digits[19], '8' | '9' | 'a' | 'b'));
    assert_ne!(fresh.id, new_auth_code(&a, 1000).id);
    let claims: Claims = redirect_claims(&a);
    assert_eq!(claims.aud, "web");
    assert_eq!(claims.nonce, "n1");
}

#[test]
fn finishing_logins() {
    let identity = Identity { claim: claim("alice"), connector_data: Some("d".to_owned()) };
    let mut a = auth_request(&["code"], false);
    assert!(matches!(finalize_login(&mut a, &identity, false), FinalizeStep::Done));
    assert!(a.logged_in);
    assert_eq!(a.claim.sub, "alice");
    let mut b = auth_request(&["code"], true);
    let url = approval_url(&b);
    assert!(url.starts_with("/approval?req=req1&hmac="));
    assert_eq!(url.len(), "/approval?req=req1&hmac=".len() + 43);
    match finalize_login(&mut b, &identity, false) {
        FinalizeStep::Approve(u) => assert_eq!(u, url),
        other => panic!("{:?}", other),
    }
    let mut c = auth_request(&["code"], true);
    assert!(matches!(finalize_login(&mut c, &identity, true), FinalizeStep::ApproveAndSaveSession(_)));
    assert!(AuthReqID { state: "s".to_owned(), prompt: None }.validate().is_ok());
    assert_eq!(
        AuthReqID { state: String::new(), prompt: Some(String::new()) }.validate().unwrap_err(),
        vec!["state", "prompt"]
    );
}

#[test]
fn provider_configuration() {
    let c = OpenIDConfiguration::discovery("0.0.0.0", 30050);
    assert_eq!(c.issuer, "http://0.0.0.0:30050");
    assert_eq!(c.token_endpoint, "http://0.0.0.0:30050/token");
    assert_eq!(c.jwks_uri, "http://0.0.0.0:30050/jwks");
    assert_eq!(c.code_challenge_methods_supported, vec!["plain", "S256"]);
}

#[test]
fn password_connector() {
    assert!(matches!(open_connector(None), Ok(ConnectorKind::UserPassword)));
    assert!(matches!(open_connector(Some("local")), Ok(ConnectorKind::UserPassword)));
    assert!(matches!(open_connector(Some("mockCallback")), Ok(ConnectorKind::MockCallback)));
    assert_eq!(bad_request_text(&open_connector(Some("ldap")).unwrap_err()), "unsupported connector type");
    let up = UserPassword::new(());
    assert!(up.support_refresh());
    assert_eq!(up.login_url(&Vec::new(), "/cb", "s").unwrap(), "/login?callback=/cb&state=s");
    let hash = cim::crypto::encrypt("ag1234567890123456789", "pepper").unwrap();
    let user = cim::model::User {
        id: "alice".to_owned(),
        account_id: "alice".to_owned(),
        desc: String::new(),
        claim: Some("{}".to_owned()),
        secret: Some("pepper".to_owned()),
        password: Some(hash),
    };
    let who = up.check_login(&user, "ag1234567890123456789").unwrap();
    assert_eq!(who.claim.sub, "alice");
    assert_eq!(who.claim.opts, Some("{}".to_owned()));
    let e = up.check_login(&user, "wrong-password-123").unwrap_err();
    assert!(matches!(e.source(), Code::NotFound(m) if m == "user"));
    let again = up.refresh_identity(&who, &user).unwrap();
    assert_eq!(again.claim.sub, "alice");
    let stranger = Identity { claim: claim("bob"), connector_data: None };
    assert!(up.refresh_identity(&stranger, &user).is_err());
}

#[test]
fn rsa_signing_pairs() {
    let parts = RsaKeyBytes {
        n: vec![1, 2, 3],
        d: vec![4],
        primes: vec![vec![5], vec![6]],
        dp: Some(vec![7]),
        dq: None,
        qinv: Some(vec![8]),
    };
    let (sign, public): (JsonWebKey, JsonWebKey) = rsa_signing_pair(parts, "kid-1".to_owned());
    assert!(JwkKey(sign.key.clone()).is_private());
    assert!(!JwkKey(public.key.clone()).is_private());
    assert!(matches!(sign.algorithm, Some(SigningAlgorithm::RS256)));
    assert!(matches!(sign.key_use, Some(KeyUse::Signing)));
    assert_eq!(sign.key_id, Some("kid-1".to_owned()));
    assert_eq!(public.key_id, sign.key_id);
    match (&sign.key, &public.key) {
        (KeyMaterial::RSA { n: n1, private: Some(p) }, KeyMaterial::RSA { n: n2, private: None }) => {
            assert_eq!(n1, &vec![1, 2, 3]);
            assert_eq!(n1, n2);
            assert_eq!((p.p.clone(), p.q.clone()), (Some(vec![5]), Some(vec![6])));
            assert_eq!((p.dp.clone(), p.dq.clone(), p.qi.clone()), (Some(vec![7]), None, Some(vec![8])));
        }
        other => panic!("{:?}", other),
    }
    let three = RsaKeyBytes { n: vec![1], d: vec![2], primes: vec![vec![3], vec![4], vec![5]], dp: None, dq: None, qinv: None };
    match rsa_signing_pair(three, "k".to_owned()).0.key {
        KeyMaterial::RSA { private: Some(p), .. } => assert_eq!((p.p, p.q), (None, None)),
        other => panic!("{:?}", other),
    }
}

#[test]
fn logins_start_and_record_identities() {
    let conn = Connector {
        id: "c1".to_owned(),
        connector_type: "local".to_owned(),
        name: String::new(),
        response_version: String::new(),
        config: String::new(),
        connector_data: Some("cd".to_owned()),
    };
    let mut a = auth_request(&["code"], false);
    cim::oidc::auth::start_login(&mut a, &conn, "c1", 1000, 600);
    assert_eq!(a.id.len(), 36);
    assert_eq!(a.connector_id, "c1");
    assert_eq!(a.connector_data, Some("cd".to_owned()));
    assert_eq!(a.expiry, 1600);
    assert_eq!(a.state, "st");
    let identity = Identity { claim: claim("alice"), connector_data: None };
    cim::oidc::auth::record_identity(&mut a, &identity);
    assert_eq!(a.claim.sub, "alice");
    assert_eq!(a.connector_data, None);
    assert!(!cim::oidc::auth::keeps_offline_session(&a, true));
    a.scopes.push("offline_access".to_owned());
    assert!(cim::oidc::auth::keeps_offline_session(&a, true));
    assert!(!cim::oidc::auth::keeps_offline_session(&a, false));
}

fn refresh_request(scope: &str) -> RefreshRequest {
    RefreshRequest {
        grant: RefreshGrant { absolute_lifetime: 0, valid_if_not_used_for: 0, reuse_interval: 0, rotate_refresh_tokens: true },
        client_id: "web".to_owned(),
        presented: ClaimRefreshToken { refresh_id: "rt1".to_owned(), token: "secret-1".to_owned() },
        scope: scope.to_owned(),
        now: 500 * SEC,
    }
}

fn local_connector() -> Connector {
    Connector {
        id: "local".to_owned(),
        connector_type: "local".to_owned(),
        name: String::new(),
        response_version: String::new(),
        config: String::new(),
        connector_data: None,
    }
}

#[test]
fn refresh_grant_runs_step_by_step() {
    let t = stored_token();
    let checked = on_token(refresh_request("openid email"), Ok(t)).unwrap();
    assert_eq!(checked.token.connector_id, "local");
    let connected = on_connector(checked, Ok(local_connector())).unwrap();
    let scoped = on_sessions(connected, Ok(vec![session(vec![token_ref(&stored_token(), "rt1")])])).unwrap();
    assert_eq!(scoped.connector.connector_data, Some("data".to_owned()));
    assert_eq!(scoped.scopes, vec!["openid", "email"]);
    assert!(!scoped.needs_client);
    let rotated = on_client(scoped, &Ok(client("web", "s"))).unwrap();
    assert_eq!(rotated.audience, vec!["web"]);
    assert_eq!(rotated.last_used, 500 * SEC);
    assert_eq!(rotated.token.obsolete_token, "secret-1");
    assert_eq!(rotated.req.presented.token.len(), 36);
    assert_eq!(rotated.identity.claim.sub, "alice");
    let user = cim::model::User {
        id: "alice".to_owned(),
        account_id: "alice".to_owned(),
        desc: String::new(),
        claim: Some("{\"name\":\"A\"}".to_owned()),
        secret: None,
        password: None,
    };
    let identified = on_user(rotated, Ok(user)).unwrap();
    assert_eq!(identified.token.claim.opts, Some("{\"name\":\"A\"}".to_owned()));
    let recorded = on_token_stored(identified, Ok(())).unwrap();
    assert_eq!(recorded.session.refresh[0].last_used_at, 500 * SEC);
    let new_value = recorded.req.presented.token.clone();
    let signing = on_session_stored(recorded, Ok(())).unwrap();
    assert_eq!(signing.claims.aud, "web");
    assert_eq!(signing.claims.nonce, "n");
    assert_eq!(signing.refresh_token, format!("{{\"refresh_id\":\"rt1\",\"token\":\"{}\"}}", new_value));
    let id_signing = on_access_token(signing, Ok(("AT".to_owned(), 1))).unwrap();
    assert_eq!(id_signing.claims.access_token, Some("AT".to_owned()));
    let answer = on_id_token(id_signing, Ok(("IT".to_owned(), 99))).unwrap();
    assert_eq!(answer.access_token, "AT");
    assert_eq!(answer.id_token, Some("IT".to_owned()));
    assert_eq!(answer.expires_in, Some(99));
    assert_eq!(answer.token_type, "bearer");
    assert_eq!(answer.scopes, Some(strings(&["openid", "email"])));
}

#[test]
fn refresh_grant_refusals() {
    let e = on_token(refresh_request("openid"), Err(not_found("refresh token"))).unwrap_err();
    assert!(matches!(e.source(), Code::NotFound(_)));
    let mut foreign = stored_token();
    foreign.client_id = "api".to_owned();
    let e = on_token(refresh_request("openid"), Ok(foreign)).unwrap_err();
    assert_eq!(bad_request_text(&e), "refresh token does not belong to this client");
    let checked = on_token(refresh_request("openid"), Ok(stored_token())).unwrap();
    let connected = on_connector(checked, Ok(local_connector())).unwrap();
    let e = on_sessions(connected, Ok(Vec::new())).unwrap_err();
    assert!(matches!(e.source(), Code::NotFound(m) if m == "Offline session not found"));
    let checked = on_token(refresh_request("openid"), Ok(stored_token())).unwrap();
    let connected = on_connector(checked, Ok(local_connector())).unwrap();
    let e = on_sessions(connected, Ok(vec![session(Vec::new())])).unwrap_err();
    assert_eq!(bad_request_text(&e), "Requested scopes contain unauthorized scope(s): []");
    let checked = on_token(refresh_request("openid email"), Ok(stored_token())).unwrap();
    let mut ldap = local_connector();
    ldap.connector_type = "ldap".to_owned();
    let connected = on_connector(checked, Ok(ldap)).unwrap();
    let scoped = on_sessions(connected, Ok(vec![session(Vec::new())])).unwrap();
    let e = on_client(scoped, &Ok(client("web", "s"))).unwrap_err();
    assert_eq!(bad_request_text(&e), "unsupported connector type");
}

fn password_request(scope: &str, username: &str, password: &str) -> PasswordRequest {
    PasswordRequest {
        client_id: "web".to_owned(),
        opts: PasswordGrantOpts {
            client_id: "web".to_owned(),
            client_secret: "s".to_owned(),
            scope: scope.to_owned(),
            nonce: "n9".to_owned(),
            username: username.to_owned(),
            password: password.to_owned(),
        },
    }
}

fn alice_with_password(password: &str) -> cim::model::User {
    cim::model::User {
        id: "alice".to_owned(),
        account_id: "alice".to_owned(),
        desc: String::new(),
        claim: None,
        secret: Some("pepper".to_owned()),
        password: Some(cim::crypto::encrypt(password, "pepper").unwrap()),
    }
}

#[test]
fn password_grant_runs_step_by_step() {
    let scoped = password_scopes(password_request("openid offline_access", "alice", "ag1234567890123456789"));
    assert_eq!(scoped.scopes, vec!["openid", "offline_access"]);
    assert!(!scoped.needs_client);
    let login = password_on_client(scoped, &Ok(client("web", "s"))).unwrap();
    assert_eq!((login.user_id.as_str(), login.password.as_str()), ("alice", "ag1234567890123456789"));
    assert_eq!(login.audience, vec!["web"]);
    let signing = password_on_user(login, Ok(alice_with_password("ag1234567890123456789"))).unwrap();
    assert_eq!(signing.claims.claim.sub, "alice");
    assert_eq!(signing.claims.nonce, "n9");
    assert_eq!(signing.claims.aud, "web");
    let id_signing = password_on_access_token(signing, Ok(("AT".to_owned(), 1))).unwrap();
    assert_eq!(id_signing.claims.access_token, Some("AT".to_owned()));
    let refresh = match password_on_id_token(id_signing, Ok(("IT".to_owned(), 77))).unwrap() {
        PasswordSigned::Refresh(r) => r,
        other => panic!("{:?}", other),
    };
    let e = on_connectors(&refresh, Ok(Vec::new())).unwrap_err();
    assert!(matches!(e.source(), Code::NotFound(m) if m == "no connectors"));
    assert_eq!(on_connectors(&refresh, Ok(vec![local_connector()])).unwrap(), "local");
    let answer = on_refresh_token(refresh, Ok(Some("RT".to_owned()))).unwrap();
    assert_eq!(answer.refresh_token, Some("RT".to_owned()));
    assert_eq!(answer.id_token, Some("IT".to_owned()));
    assert_eq!(answer.expires_in, Some(77));
}

#[test]
fn password_grant_without_offline_access() {
    let scoped = password_scopes(password_request("openid", "alice", "ag1234567890123456789"));
    let login = password_on_client(scoped, &Ok(client("web", "s"))).unwrap();
    let signing = password_on_user(login, Ok(alice_with_password("ag1234567890123456789"))).unwrap();
    let id_signing = password_on_access_token(signing, Ok(("AT".to_owned(), 1))).unwrap();
    match password_on_id_token(id_signing, Ok(("IT".to_owned(), 5))).unwrap() {
        PasswordSigned::Done(t) => {
            assert_eq!(t.refresh_token, None);
            assert_eq!(t.access_token, "AT");
        }
        other => panic!("{:?}", other),
    }
}

#[test]
fn password_grant_refusals_and_credentials() {
    let scoped = password_scopes(password_request("openid", "al:ice", "pw"));
    let login = password_on_client(scoped, &Ok(client("web", "s"))).unwrap();
    assert_eq!((login.user_id.as_str(), login.password.as_str()), ("al", "ice:pw"));
    let scoped = password_scopes(password_request("email", "alice", "pw"));
    let e = password_on_client(scoped, &Ok(client("web", "s"))).unwrap_err();
    assert_eq!(bad_request_text(&e), "Missing required scope(s) [\"openid\"].");
    let scoped = password_scopes(password_request("openid", "alice", "wrong-password-1"));
    let login = password_on_client(scoped, &Ok(client("web", "s"))).unwrap();
    let e = password_on_user(login, Ok(alice_with_password("ag1234567890123456789"))).unwrap_err();
    assert!(matches!(e.source(), Code::NotFound(m) if m == "user"));
}

#[test]
fn issuing_refresh_tokens() {
    let h = RefreshTokenHandler { refresh_token_store: &(), offline_session_store: &() };
    let none = h.issue("1".to_owned(), &strings(&["openid"]), "web", "n", &claim("alice"), "local", &None, 5);
    assert!(none.is_none());
    let (t, v) = h
        .issue("1".to_owned(), &strings(&["openid", "offline_access"]), "web", "n", &claim("alice"), "local", &None, 5)
        .unwrap();
    assert_eq!(t.token.len(), 36);
    assert_eq!(t.last_used_at, 5);
    assert_eq!(v, format!("{{\"refresh_id\":\"1\",\"token\":\"{}\"}}", t.token));
    match h.offline_step(&t, Ok(Vec::new()), "s7".to_owned()).unwrap() {
        OfflineStep::Save(s) => {
            assert_eq!((s.id.as_str(), s.user_id.as_str(), s.conn_id.as_str()), ("s7", "alice", "local"));
            assert_eq!(s.refresh[0].id, "1");
        }
        other => panic!("{:?}", other),
    }
    let held = session(vec![token_ref(&t, "0")]);
    match h.offline_step(&t, Ok(vec![held]), "s7".to_owned()).unwrap() {
        OfflineStep::Superseded(id) => assert_eq!(id, "0"),
        other => panic!("{:?}", other),
    }
    assert!(h.offline_step(&t, Err(not_found("x")), "s7".to_owned()).is_err());
}

#[test]
fn code_redirect_flow_for_a_hybrid_request() {
    let mut a = auth_request(&["code", "id_token", "token"], false);
    a.claim = claim("alice");
    let mut flow = code_flow_begin(a, 100, Ok(())).unwrap();
    assert!(!flow.has_query);
    let code_id = match flow.advance() {
        CodeAction::StoreCode(c) => {
            assert_eq!(c.expiry, 1900);
            assert_eq!(c.claim.sub, "alice");
            c.id
        }
        other => panic!("{:?}", other),
    };
    flow.on_code_stored(Ok(())).unwrap();
    let claims = match flow.advance() {
        CodeAction::Sign(c) => c,
        other => panic!("{:?}", other),
    };
    assert_eq!(claims.aud, "web");
    let with_at = flow.on_signed(claims, Ok(("AT".to_owned(), 0))).unwrap().unwrap();
    assert_eq!(with_at.access_token, Some("AT".to_owned()));
    assert!(flow.on_signed(with_at, Ok(("IT".to_owned(), 160))).unwrap().is_none());
    match flow.advance() {
        CodeAction::Redirect(u) => assert_eq!(
            u,
            format!("http://localhost/cb?access_token=AT&token_type=bearer&state=st&id_token=IT&code={}", code_id)
        ),
        other => panic!("{:?}", other),
    }
}

#[test]
fn code_redirect_flow_for_a_code_request() {
    let a = auth_request(&["code"], false);
    let mut flow = code_flow_begin(a, 100, Ok(())).unwrap();
    let code_id = match flow.advance() {
        CodeAction::StoreCode(c) => c.id,
        other => panic!("{:?}", other),
    };
    assert!(flow.on_code_stored(Err(not_found("store"))).is_err());
    match flow.advance() {
        CodeAction::Redirect(u) => assert_eq!(u, format!("http://localhost/cb?code={}&state=st", code_id)),
        other => panic!("{:?}", other),
    }
    let mut bad = auth_request(&["code"], false);
    bad.redirect_uri = "http://[::1".to_owned();
    assert!(bad_request_text(&code_flow_begin(bad, 100, Ok(())).unwrap_err()).starts_with("Invalid redirect_uri. "));
    let gone = code_flow_begin(auth_request(&["code"], false), 100, Err(not_found("req"))).unwrap_err();
    assert!(matches!(gone.source(), Code::NotFound(_)));
    let late = code_flow_start(auth_request(&["code"], false), 1001).unwrap_err();
    assert_eq!(bad_request_text(&late), "User session has expired.");
    assert!(code_flow_start(auth_request(&["code"], false), 1000).is_ok());
}

#[test]
fn login_callback_runs_step_by_step() {
    let mut a = auth_request(&["code"], false);
    a.scopes.push("offline_access".to_owned());
    let login = callback_on_connector(
        a,
        Ok(local_connector()),
        Some(("alice".to_owned(), "ag1234567890123456789".to_owned())),
    )
    .unwrap();
    assert_eq!(login.user_id, "alice");
    let identified = callback_on_user(login, Ok(alice_with_password("ag1234567890123456789"))).unwrap();
    assert_eq!(identified.auth.claim.sub, "alice");
    assert!(identified.keeps_session);
    let fresh = callback_on_sessions(&identified, Ok(Vec::new()), "s5".to_owned()).unwrap().unwrap();
    assert_eq!((fresh.id.as_str(), fresh.user_id.as_str(), fresh.conn_id.as_str()), ("s5", "alice", "local"));
    assert!(callback_on_sessions(&identified, Ok(vec![session(Vec::new())]), "s5".to_owned()).unwrap().is_none());
}

#[test]
fn login_callback_refusals() {
    let e = callback_on_connector(auth_request(&["code"], false), Ok(local_connector()), None).unwrap_err();
    assert!(matches!(e.source(), Code::Unauthorized));
    let mut ldap = local_connector();
    ldap.connector_type = "ldap".to_owned();
    let e = callback_on_connector(auth_request(&["code"], false), Ok(ldap), None).unwrap_err();
    assert_eq!(bad_request_text(&e), "unsupported connector type");
    let login = callback_on_connector(
        auth_request(&["code"], false),
        Ok(local_connector()),
        Some(("alice".to_owned(), "nope-nope-nope-1".to_owned())),
    )
    .unwrap();
    let e = callback_on_user(login, Ok(alice_with_password("ag1234567890123456789"))).unwrap_err();
    assert!(matches!(e.source(), Code::NotFound(m) if m == "user"));
}

#[test]
fn password_answers_ignore_connector_data() {
    let make = |data: Option<&str>| cim::oidc::password_flow::PasswordRefresh {
        req: password_request("openid offline_access", "alice", "pw"),
        scopes: strings(&["openid", "offline_access"]),
        identity: Identity { claim: claim("alice"), connector_data: data.map(|d| d.to_owned()) },
        access_token: "AT".to_owned(),
        id_token: "IT".to_owned(),
        expires_in: 77,
    };
    let a = on_refresh_token(make(None), Ok(Some("RT".to_owned()))).unwrap();
    let b = on_refresh_token(make(Some("upstream-secret")), Ok(Some("RT".to_owned()))).unwrap();
    assert_eq!(format!("{:?}", a), format!("{:?}", b));
    assert!(!format!("{:?}", b).contains("upstream-secret"));
}
