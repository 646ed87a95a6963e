use cim::errors::WithBacktrace;
use cim::model::Client;
use cim::oidc::auth::{check_auth_request, parse_auth_request, AuthRequest};

fn client(id: &str) -> Client {
    Client {
        id: id.to_owned(),
        secret: String::new(),
        name: String::new(),
        logo_url: String::new(),
        account_id: String::new(),
        redirect_uris: Vec::new(),
        trusted_peers: Vec::new(),
    }
}

fn request(response_type: &str, scope: &str) -> AuthRequest {
    AuthRequest {
        client_id: "client_id".to_owned(),
        redirect_uri: "http://localhost:3000/callback".to_owned(),
        response_type: response_type.to_owned(),
        scope: scope.to_owned(),
        nonce: "nonce".to_owned(),
        state: "state".to_owned(),
        code_challenge: "R".to_owned(),
        code_challenge_method: None,
        skip_approval: None,
        connector_id: None,
    }
}

#[test]
fn test_parse_auth_request() {
    let lookup: Result<Client, WithBacktrace> = Ok(client("client_id"));
    let req = request("code id_token token", "openid");
    let auth_req = parse_auth_request(&req, &lookup).unwrap();
    assert_eq!(auth_req.response_types, vec!["code", "id_token", "token"]);
    assert_eq!(auth_req.scopes, vec!["openid"]);
    assert_eq!(auth_req.redirect_uri, "http://localhost:3000/callback");
    assert_eq!(auth_req.nonce, "nonce");
    assert_eq!(auth_req.state, "state");
    assert_eq!(auth_req.code_challenge, "R");
    assert_eq!(auth_req.code_challenge_method, "plain");
}

use cim::errors::{not_found, Code};
use cim::oidc::auth::{connector_login_uri, validate_redirect_uri};
use cim::oidc::scope::{scopes_need_client, valid_scope};

fn strings(v: &[&str]) -> Vec<String> {
    v.iter().map(|s| s.to_string()).collect()
}

fn bad_request_text(e: &WithBacktrace) -> String {
    match e.source() {
        Code::BadRequest(m) => m.clone(),
        other => panic!("not a bad request: {:?}", other),
    }
}

#[test]
fn scopes_give_the_client_as_audience() {
    let lookup: Result<Client, WithBacktrace> = Ok(client("web"));
    let aud = valid_scope("web", &strings(&["openid", "email", "offline_access"]), &lookup).unwrap();
    assert_eq!(aud, vec!["web"]);
}

#[test]
fn scopes_need_openid() {
    let lookup: Result<Client, WithBacktrace> = Ok(client("web"));
    let e = valid_scope("web", &strings(&["email"]), &lookup).unwrap_err();
    assert_eq!(bad_request_text(&e), "Missing required scope(s) [\"openid\"].");
}

#[test]
fn unrecognized_scopes_are_listed() {
    let lookup: Result<Client, WithBacktrace> = Ok(client("web"));
    let e = valid_scope("web", &strings(&["openid", "foo", "bar"]), &lookup).unwrap_err();
    assert_eq!(bad_request_text(&e), "Unrecognized scope(s) [\"foo\", \"bar\"]");
}

#[test]
fn cross_client_scopes_need_trust() {
    let mut trusting = client("web");
    trusting.trusted_peers = strings(&["web"]);
    let scopes = strings(&["openid", "audience:server:client_id:web"]);
    assert!(scopes_need_client("web", &scopes));
    assert!(!scopes_need_client("web", &strings(&["openid"])));
    let aud = valid_scope("web", &scopes, &Ok(trusting)).unwrap();
    assert_eq!(aud, vec!["web"]);
    let e = valid_scope("web", &scopes, &Ok(client("web"))).unwrap_err();
    assert_eq!(bad_request_text(&e), "Client can't request scope(s) [\"audience:server:client_id:web\"]");
    let other = strings(&["openid", "audience:server:client_id:api"]);
    let e = valid_scope("web", &other, &Ok(client("web"))).unwrap_err();
    assert_eq!(bad_request_text(&e), "Client can't request scope(s) [\"audience:server:client_id:api\"]");
}

#[test]
fn failed_client_lookup_is_handed_on() {
    let scopes = strings(&["openid", "audience:server:client_id:web"]);
    let lookup: Result<Client, WithBacktrace> = Err(not_found("client"));
    let e = valid_scope("web", &scopes, &lookup).unwrap_err();
    assert!(matches!(e.source(), Code::NotFound(m) if m == "client"));
    let aud = valid_scope("web", &strings(&["openid"]), &lookup).unwrap();
    assert_eq!(aud, vec!["web"]);
}

#[test]
fn auth_request_refusals() {
    let ok: Result<Client, WithBacktrace> = Ok(client("client_id"));
    let e = parse_auth_request(&request("", "openid"), &ok).unwrap_err();
    assert_eq!(bad_request_text(&e), "no response_type provided");
    let e = parse_auth_request(&request("code magic", "openid"), &ok).unwrap_err();
    assert_eq!(bad_request_text(&e), "Invalid response_type value magic");
    let e = parse_auth_request(&request("token", "openid"), &ok).unwrap_err();
    assert_eq!(bad_request_text(&e), "response_type 'token' must be provided with [\"code\", \"id_token\"].");
    let mut no_nonce = request("id_token", "openid");
    no_nonce.nonce = String::new();
    let e = parse_auth_request(&no_nonce, &ok).unwrap_err();
    assert_eq!(bad_request_text(&e), "response_type 'token' requires a nonce.");
    let mut method = request("code", "openid");
    method.code_challenge_method = Some("S512".to_owned());
    let e = parse_auth_request(&method, &ok).unwrap_err();
    assert_eq!(bad_request_text(&e), "Invalid code_challenge_method value");
    let mut far = request("code", "openid");
    far.redirect_uri = "http://example.com/cb".to_owned();
    let e = parse_auth_request(&far, &ok).unwrap_err();
    assert_eq!(bad_request_text(&e), "Invalid redirect_uri");
    let missing: Result<Client, WithBacktrace> = Err(not_found("client"));
    let e = parse_auth_request(&request("code", "openid"), &missing).unwrap_err();
    assert!(matches!(e.source(), Code::NotFound(_)));
    let e = parse_auth_request(&request("code", "email"), &ok).unwrap_err();
    assert_eq!(bad_request_text(&e), "Missing required scope(s) [\"openid\"].");
}

#[test]
fn auth_request_with_method() {
    let ok: Result<Client, WithBacktrace> = Ok(client("client_id"));
    let mut r = request("code", "openid profile");
    r.code_challenge_method = Some("S256".to_owned());
    let a = parse_auth_request(&r, &ok).unwrap();
    assert_eq!(a.code_challenge_method, "S256");
    assert_eq!(a.scopes, vec!["openid", "profile"]);
    assert_eq!(a.client_id, "client_id");
    assert!(!a.logged_in);
}

#[test]
fn auth_request_field_rules() {
    let r = request("code", "openid");
    assert!(r.validate().is_ok());
    let mut bad = request("", "openid");
    bad.redirect_uri = "not a url".to_owned();
    bad.connector_id = Some(String::new());
    assert_eq!(bad.validate().unwrap_err(), vec!["response_type", "redirect_uri", "connector_id"]);
}

#[test]
fn redirect_uris() {
    let mut c = client("web");
    assert!(validate_redirect_uri(&c, "http://localhost:8080/cb"));
    assert!(!validate_redirect_uri(&c, "https://localhost/cb"));
    assert!(!validate_redirect_uri(&c, "http://example.com/cb"));
    c.redirect_uris = vec!["https://app/cb".to_owned()];
    assert!(validate_redirect_uri(&c, "https://app/cb"));
    assert!(!validate_redirect_uri(&c, "http://localhost:8080/cb"));
    let mut owned = client("web");
    owned.account_id = "1".to_owned();
    assert!(!validate_redirect_uri(&owned, "http://localhost:8080/cb"));
}

#[test]
fn connector_login_paths() {
    assert_eq!(connector_login_uri(Some("local"), "req=1"), "/connectors/local&req=1");
    assert_eq!(connector_login_uri(None, "req=1"), "/connectors&req=1");
}

#[test]
fn auth_requests_refused_before_the_client_is_read() {
    let mut token_alone = request("token", "openid");
    token_alone.client_id = "c".to_owned();
    token_alone.redirect_uri = "http://localhost/cb".to_owned();
    token_alone.nonce = "n".to_owned();
    token_alone.state = "s".to_owned();
    let e = check_auth_request(&token_alone).unwrap_err();
    assert_eq!(bad_request_text(&e), "response_type 'token' must be provided with [\"code\", \"id_token\"].");
    assert_eq!(bad_request_text(&check_auth_request(&request("", "openid")).unwrap_err()), "no response_type provided");
    assert_eq!(bad_request_text(&check_auth_request(&request("code", "email")).unwrap_err()), "Missing required scope(s) [\"openid\"].");
    assert!(check_auth_request(&request("code", "openid")).is_ok());
    let peer = request("code", "openid audience:server:client_id:client_id");
    assert!(check_auth_request(&peer).is_ok());
}
