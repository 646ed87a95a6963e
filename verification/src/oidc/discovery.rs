//! The provider's discovery document.

use vstd::prelude::*;

use crate::num::{decimal, push_decimal};
use crate::text::views;

verus! {

/// The OpenID provider configuration published at
/// `/.well-known/openid-configuration`.
#[derive(Debug)]
pub struct OpenIDConfiguration {
    pub issuer: String,
    pub authorization_endpoint: String,
    pub token_endpoint: String,
    pub jwks_uri: String,
    pub userinfo_endpoint: String,
    pub device_authorization_endpoint: String,
    pub id_token_signing_alg_values_supported: Vec<String>,
    pub grant_types_supported: Vec<String>,
    pub subject_types_supported: Vec<String>,
    pub response_types_supported: Vec<String>,
    pub scopes_supported: Vec<String>,
    pub token_endpoint_auth_methods_supported: Vec<String>,
    pub code_challenge_methods_supported: Vec<String>,
    pub claims_supported: Vec<String>,
}

/// The issuer of a provider that announces `endpoint` on `port`.
pub open spec fn issuer_of(endpoint: Seq<char>, port: u16) -> Seq<char> {
    "http://"@ + endpoint + ":"@ + decimal(port as nat)
}

fn strings(items: &[&str]) -> (r: Vec<String>)
    ensures
        r@.len() == items@.len(),
        forall|i: int| 0 <= i < items@.len() ==> #[trigger] r@[i]@ == items@[i]@,
{
    let mut r: Vec<String> = Vec::new();
    for i in 0..items.len()
        invariant
            r@.len() == i,
            forall|k: int| 0 <= k < i ==> #[trigger] r@[k]@ == items@[k]@,
    {
        r.push(String::from_str(items[i]));
    }
    r
}

impl OpenIDConfiguration {
    /// The configuration of a provider that announces `endpoint` on `port`:
    /// its endpoints under the issuer `http://<endpoint>:<port>`, and what
    /// it supports.
    pub fn discovery(endpoint: &str, port: u16) -> (r: OpenIDConfiguration)
        ensures
            r.issuer@ == issuer_of(endpoint@, port),
            r.authorization_endpoint@ == issuer_of(endpoint@, port) + "/auth"@,
            r.token_endpoint@ == issuer_of(endpoint@, port) + "/token"@,
            r.jwks_uri@ == issuer_of(endpoint@, port) + "/jwks"@,
            r.userinfo_endpoint@ == issuer_of(endpoint@, port) + "/userinfo"@,
            r.device_authorization_endpoint@ == issuer_of(endpoint@, port) + "/device/code"@,
            views(r.id_token_signing_alg_values_supported@) == seq!["RS256"@],
            views(r.grant_types_supported@) == seq![
                "authorization_code"@,
                "refresh_token"@,
                "urn:ietf:params:oauth:grant-type:device_code"@,
                "urn:ietf:params:oauth:grant-type:jwt-bearer"@,
            ],
            views(r.subject_types_supported@) == seq!["public"@],
            views(r.response_types_supported@) == seq!["code"@, "token"@, "id_token"@],
            views(r.scopes_supported@) == seq!["openid"@, "profile"@, "email"@],
            views(r.token_endpoint_auth_methods_supported@) == seq!["client_secret_basic"@],
            views(r.code_challenge_methods_supported@) == seq!["plain"@, "S256"@],
            views(r.claims_supported@) == seq![
                "aud"@,
                "email"@,
                "email_verified"@,
                "exp"@,
                "iat"@,
                "iss"@,
                "name"@,
                "picture"@,
                "sub"@,
                "locale"@,
                "at_hash"@,
                "preferred_username"@,
            ],
    {
        let mut issuer = String::from_str("http://");
        issuer.append(endpoint);
        issuer.append(":");
        push_decimal(&mut issuer, port as u64);
        let with = |suffix: &str| -> (r: String)
            ensures
                r@ == issuer@ + suffix@,
            {
                let mut s = issuer.clone();
                s.append(suffix);
                s
            };
        let algs = strings(&["RS256"]);
        let grants = strings(
            &[
                "authorization_code",
                "refresh_token",
                "urn:ietf:params:oauth:grant-type:device_code",
                "urn:ietf:params:oauth:grant-type:jwt-bearer",
            ],
        );
        let subjects = strings(&["public"]);
        let responses = strings(&["code", "token", "id_token"]);
        let scopes = strings(&["openid", "profile", "email"]);
        let auth_methods = strings(&["client_secret_basic"]);
        let challenge = strings(&["plain", "S256"]);
        let claims = strings(
            &[
                "aud",
                "email",
                "email_verified",
                "exp",
                "iat",
                "iss",
                "name",
                "picture",
                "sub",
                "locale",
                "at_hash",
                "preferred_username",
            ],
        );
        assert(views(algs@) =~= seq!["RS256"@]);
        assert(views(grants@) =~= seq![
            "authorization_code"@,
            "refresh_token"@,
            "urn:ietf:params:oauth:grant-type:device_code"@,
            "urn:ietf:params:oauth:grant-type:jwt-bearer"@,
        ]);
        assert(views(subjects@) =~= seq!["public"@]);
        assert(views(responses@) =~= seq!["code"@, "token"@, "id_token"@]);
        assert(views(scopes@) =~= seq!["openid"@, "profile"@, "email"@]);
        assert(views(auth_methods@) =~= seq!["client_secret_basic"@]);
        assert(views(challenge@) =~= seq!["plain"@, "S256"@]);
        assert(views(claims@) =~= seq![
            "aud"@,
            "email"@,
            "email_verified"@,
            "exp"@,
            "iat"@,
            "iss"@,
            "name"@,
            "picture"@,
            "sub"@,
            "locale"@,
            "at_hash"@,
            "preferred_username"@,
        ]);
        OpenIDConfiguration {
            authorization_endpoint: with("/auth"),
            token_endpoint: with("/token"),
            jwks_uri: with("/jwks"),
            userinfo_endpoint: with("/userinfo"),
            device_authorization_endpoint: with("/device/code"),
            issuer,
            id_token_signing_alg_values_supported: algs,
            grant_types_supported: grants,
            subject_types_supported: subjects,
            response_types_supported: responses,
            scopes_supported: scopes,
            token_endpoint_auth_methods_supported: auth_methods,
            code_challenge_methods_supported: challenge,
            claims_supported: claims,
        }
    }
}

} // verus!
