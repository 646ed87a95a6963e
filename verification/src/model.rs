//! The records the service keeps: clients, pending authorization requests,
//! connectors, sessions and refresh tokens.

use vstd::prelude::*;

verus! {

/// A registered OAuth client.
#[derive(Debug)]
pub struct Client {
    pub id: String,
    pub secret: String,
    pub name: String,
    pub logo_url: String,
    pub account_id: String,
    pub redirect_uris: Vec<String>,
    pub trusted_peers: Vec<String>,
}

/// The identity claims of an authenticated user.
#[derive(Debug)]
pub struct Claim {
    /// The subject: the user's id.
    pub sub: String,
    /// The user's further claims, as JSON text, where there are any.
    pub opts: Option<String>,
}

impl Claim {
    pub fn empty() -> (r: Claim)
        ensures
            r.sub@ == Seq::<char>::empty(),
            r.opts is None,
    {
        Claim { sub: String::new(), opts: None }
    }
}

impl Clone for Claim {
    fn clone(&self) -> (r: Self)
        ensures
            r == *self,
    {
        Claim { sub: self.sub.clone(), opts: crate::model::clone_opt_string(&self.opts) }
    }
}

/// A copy of an optional string.
pub fn clone_opt_string(o: &Option<String>) -> (r: Option<String>)
    ensures
        r == *o,
{
    match o {
        Some(s) => Some(s.clone()),
        None => None,
    }
}

/// An authorization request that the service keeps while the user logs in.
#[derive(Debug)]
pub struct StoredAuthRequest {
    pub id: String,
    pub client_id: String,
    pub response_types: Vec<String>,
    pub scopes: Vec<String>,
    pub redirect_uri: String,
    pub code_challenge: String,
    pub code_challenge_method: String,
    pub nonce: String,
    pub state: String,
    pub force_approval_prompt: bool,
    pub logged_in: bool,
    pub claim: Claim,
    pub connector_id: String,
    pub connector_data: Option<String>,
    /// When the request expires, in seconds since the Unix epoch.
    pub expiry: i64,
    pub hmac_key: String,
}

/// A configured identity connector.
#[derive(Debug)]
pub struct Connector {
    pub id: String,
    pub connector_type: String,
    pub name: String,
    pub response_version: String,
    pub config: String,
    pub connector_data: Option<String>,
}

/// A refresh token held by an offline session, for one client.
#[derive(Debug)]
pub struct RefreshTokenRef {
    pub id: String,
    pub client_id: String,
    /// When the token was made, in nanoseconds since the Unix epoch.
    pub created_at: i64,
    /// When the token was last used, in nanoseconds since the Unix epoch.
    pub last_used_at: i64,
}

impl Clone for RefreshTokenRef {
    fn clone(&self) -> (r: Self)
        ensures
            r == *self,
    {
        RefreshTokenRef {
            id: self.id.clone(),
            client_id: self.client_id.clone(),
            created_at: self.created_at,
            last_used_at: self.last_used_at,
        }
    }
}

/// A user's standing consent for one connector: the refresh tokens it
/// holds, at most one per client.
#[derive(Debug)]
pub struct OfflineSession {
    pub id: String,
    pub user_id: String,
    pub conn_id: String,
    pub connector_data: Option<String>,
    pub refresh: Vec<RefreshTokenRef>,
}

/// An issued refresh token.
#[derive(Debug)]
pub struct RefreshToken {
    pub id: String,
    pub client_id: String,
    pub scopes: Vec<String>,
    pub nonce: String,
    pub token: String,
    /// The token this one replaced, which stays accepted for a short while.
    pub obsolete_token: String,
    pub claim: Claim,
    pub connector_id: String,
    pub connector_data: Option<String>,
    /// When the token was made, in nanoseconds since the Unix epoch.
    pub created_at: i64,
    /// When the token was last used, in nanoseconds since the Unix epoch.
    pub last_used_at: i64,
}

/// A user account.
#[derive(Debug)]
pub struct User {
    pub id: String,
    pub account_id: String,
    pub desc: String,
    /// The user's claims, as JSON text, where there are any.
    pub claim: Option<String>,
    pub secret: Option<String>,
    /// The encoded hash of the user's password.
    pub password: Option<String>,
}

} // verus!
