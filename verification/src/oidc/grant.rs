//! The grants of the token endpoint: checking the client, the resource
//! owner password grant, registering new refresh tokens, and the answer the
//! endpoint gives.

use vstd::prelude::*;

use crate::crypto::{bytes_eq_constant_time, new_uuid};
use crate::errors::{forbidden, not_found, WithBacktrace};
use crate::json::json_quote_of;
use crate::model::{Claim, Client, Connector, OfflineSession, RefreshToken, RefreshTokenRef};
use crate::oidc::token::{
    audience_claim, audience_text, new_refresh_token, refresh_token_value, register_refresh_token,
    session_well_formed, wants_refresh_token, Claims, OfflineStep, TokenResponse,
};
use crate::text::views;

verus! {

broadcast use vstd::utf8::encode_utf8_decode_utf8;

/// The parameters of a resource owner password grant.
#[derive(Debug)]
pub struct PasswordGrantOpts {
    pub client_id: String,
    pub client_secret: String,
    pub scope: String,
    pub nonce: String,
    pub username: String,
    pub password: String,
}

/// The stores and the token issuer a password grant works with.
#[derive(Debug)]
pub struct PasswordGrant<'a, C, S, T, R, O, U> {
    pub client_store: &'a C,
    pub connector_store: &'a S,
    pub token_creator: &'a T,
    pub refresh_token_store: &'a R,
    pub offline_session_store: &'a O,
    pub user_store: &'a U,
}

/// The stores a new refresh token is registered in.
#[derive(Debug)]
pub struct RefreshTokenHandler<'a, R, O> {
    pub refresh_token_store: &'a R,
    pub offline_session_store: &'a O,
}

/// Checks the secret a client presents against the client found in the
/// store for its id; the lookup's error where it failed. The secrets are
/// compared in constant time.
pub fn get_client_and_valid(client: Result<Client, WithBacktrace>, client_secret: &str) -> (r:
    Result<Client, WithBacktrace>)
    ensures
        match client {
            Err(e) => r == Err::<Client, WithBacktrace>(e),
            Ok(c) => if c.secret@ == client_secret@ {
                r == Ok::<Client, WithBacktrace>(c)
            } else {
                r is Err && r->Err_0.spec_source() is Forbidden
                    && r->Err_0.spec_source()->Forbidden_0@ == "invalid client secret"@
            },
        },
{
    match client {
        Err(e) => Err(e),
        Ok(c) => {
            let same = bytes_eq_constant_time(c.secret.as_str().as_bytes(), client_secret.as_bytes());
            proof {
                vstd::utf8::encode_utf8_decode_utf8(c.secret@);
                vstd::utf8::encode_utf8_decode_utf8(client_secret@);
            }
            if !same {
                return Err(forbidden("invalid client secret"));
            }
            Ok(c)
        },
    }
}

/// The claims of the tokens a grant issues for the identity `claim`: the
/// nonce of the request and the audience's `aud` claim; no issuer, times
/// or access token yet.
pub fn grant_claims(claim: &Claim, nonce: &str, audience: &Vec<String>) -> (r: Claims)
    ensures
        r.claim == *claim,
        r.nonce@ == nonce@,
        r.aud@ == audience_claim(views(audience@)),
        r.exp == 0,
        r.nbf == 0,
        r.iss@.len() == 0,
        r.access_token is None,
{
    Claims {
        aud: audience_text(audience),
        exp: 0,
        nbf: 0,
        iss: String::new(),
        nonce: String::from_str(nonce),
        access_token: None,
        claim: claim.clone(),
    }
}

/// The token endpoint's answer: a bearer access token, the ID token and
/// its expiry, the refresh token where one was issued, and the scopes.
pub fn bearer_response(
    access_token: String,
    id_token: String,
    expires_in: i64,
    refresh_token: Option<String>,
    scopes: Vec<String>,
) -> (r: TokenResponse)
    ensures
        r.access_token == access_token,
        r.token_type@ == "bearer"@,
        r.expires_in == Some(expires_in),
        r.refresh_token == refresh_token,
        r.id_token == Some(id_token),
        r.scopes == Some(scopes),
{
    TokenResponse {
        access_token,
        token_type: String::from_str("bearer"),
        expires_in: Some(expires_in),
        refresh_token,
        id_token: Some(id_token),
        scopes: Some(scopes),
    }
}

/// The headers the token endpoint answers with: the answer must not be
/// cached.
pub fn token_response_headers() -> (r: Vec<(String, String)>)
    ensures
        r@.len() == 2,
        r@[0].0@ == "cache-control"@ && r@[0].1@ == "no-store"@,
        r@[1].0@ == "pragma"@ && r@[1].1@ == "no-cache"@,
{
    let mut h: Vec<(String, String)> = Vec::new();
    h.push((String::from_str("cache-control"), String::from_str("no-store")));
    h.push((String::from_str("pragma"), String::from_str("no-cache")));
    h
}

/// Whether a password grant issues a refresh token: the connector can
/// refresh identities and the scopes ask for offline access.
pub fn issues_refresh_token(support_refresh: bool, scopes: &Vec<String>) -> (r: bool)
    ensures
        r == (support_refresh && views(scopes@).contains("offline_access"@)),
{
    support_refresh && wants_refresh_token(scopes)
}

/// The id of the connector a password grant's refresh token is tied to:
/// the first local connector found.
pub fn first_connector_id(connectors: &Vec<Connector>) -> (r: Result<String, WithBacktrace>)
    ensures
        connectors@.len() == 0 ==> r is Err && r->Err_0.spec_source() is NotFound
            && r->Err_0.spec_source()->NotFound_0@ == "no connectors"@,
        connectors@.len() > 0 ==> r is Ok && r->Ok_0 == connectors@[0].id,
{
    if connectors.len() == 0 {
        return Err(not_found("no connectors"));
    }
    Ok(connectors[0].id.clone())
}

/// The entry an offline session keeps for the refresh token `t`, under
/// the id `id`.
pub fn token_ref(t: &RefreshToken, id: &str) -> (r: RefreshTokenRef)
    ensures
        r.id@ == id@,
        r.client_id == t.client_id,
        r.created_at == t.created_at,
        r.last_used_at == t.last_used_at,
{
    RefreshTokenRef {
        id: String::from_str(id),
        client_id: t.client_id.clone(),
        created_at: t.created_at,
        last_used_at: t.last_used_at,
    }
}

impl<'a, R, O> RefreshTokenHandler<'a, R, O> {
    /// What follows registering the new refresh token `new_id` in the
    /// offline session, given how that went: the id of the refresh token to
    /// delete, if any, and the outcome. A token the session already held
    /// for the client is deleted; where registering failed, the new token
    /// is deleted and the failure is the outcome.
    pub fn after_offline(&self, new_id: &str, offline: Result<Option<String>, WithBacktrace>) -> (r: (
        Option<String>,
        Result<(), WithBacktrace>,
    ))
        ensures
            match offline {
                Ok(Some(old)) => r.0 == Some(old) && r.1 is Ok,
                Ok(None) => r.0 is None && r.1 is Ok,
                Err(e) => r.0 matches Some(id) && id@ == new_id@ && r.1 == Err::<(), WithBacktrace>(
                    e,
                ),
            },
    {
        match offline {
            Ok(Some(old)) => (Some(old), Ok(())),
            Ok(None) => (None, Ok(())),
            Err(e) => (Some(String::from_str(new_id)), Err(e)),
        }
    }
}

impl<'a, R, O> RefreshTokenHandler<'a, R, O> {
    /// The refresh token a login issues, where its scopes ask for offline
    /// access: made at `now` under the id `id` with a fresh UUID as its
    /// secret value, with the value to hand the client. `None` where the
    /// scopes do not ask for one.
    pub fn issue(
        &self,
        id: String,
        scopes: &Vec<String>,
        client_id: &str,
        nonce: &str,
        claim: &Claim,
        connector_id: &str,
        connector_data: &Option<String>,
        now: i64,
    ) -> (r: Option<(RefreshToken, String)>)
        ensures
            !views(scopes@).contains("offline_access"@) ==> r is None,
            views(scopes@).contains("offline_access"@) ==> (r matches Some((t, v)) && {
                &&& t.id == id && t.client_id@ == client_id@ && t.scopes@ == scopes@
                &&& t.nonce@ == nonce@ && t.token@.len() == 36 && t.obsolete_token@.len() == 0
                &&& t.claim == *claim && t.connector_id@ == connector_id@
                &&& t.connector_data == *connector_data
                &&& t.created_at == 0 && t.last_used_at == now
                &&& v@ == "{\"refresh_id\":"@ + json_quote_of(t.id@) + ",\"token\":"@
                    + json_quote_of(t.token@) + "}"@
            }),
    {
        if !wants_refresh_token(scopes) {
            return None;
        }
        let token = new_refresh_token(
            id,
            client_id,
            scopes,
            nonce,
            new_uuid(),
            claim,
            connector_id,
            connector_data,
            now,
        );
        let value = refresh_token_value(&token);
        Some((token, value))
    }

    /// What registering the stored refresh token `token` in its user's
    /// offline session comes to, given the sessions listed for its user and
    /// connector: the first is used, and a new one gets the id
    /// `new_session_id`.
    pub fn offline_step(
        &self,
        token: &RefreshToken,
        sessions: Result<Vec<OfflineSession>, WithBacktrace>,
        new_session_id: String,
    ) -> (r: Result<OfflineStep, WithBacktrace>)
        requires
            sessions matches Ok(v) ==> forall|i: int|
                0 <= i < v@.len() ==> session_well_formed(#[trigger] v@[i]),
        ensures
            match sessions {
                Err(e) => r == Err::<OfflineStep, WithBacktrace>(e),
                Ok(v) => r matches Ok(step) && {
                    if v@.len() == 0 {
                        step matches OfflineStep::Save(s) && s.id == new_session_id
                            && s.user_id@ == token.claim.sub@ && s.conn_id@ == token.connector_id@
                            && s.connector_data == token.connector_data && s.refresh@.len() == 1
                            && s.refresh@[0].id@ == token.id@ && s.refresh@[0].client_id
                            == token.client_id && s.refresh@[0].created_at == token.created_at
                            && s.refresh@[0].last_used_at == token.last_used_at
                    } else {
                        let old = v@[0];
                        match step {
                            OfflineStep::Superseded(id) => exists|i: int|
                                0 <= i < old.refresh@.len() && (#[trigger] old.refresh@[i]).client_id@
                                    == token.client_id@ && old.refresh@[i].id == id,
                            OfflineStep::Save(s) => (forall|i: int|
                                0 <= i < old.refresh@.len() ==> (#[trigger] old.refresh@[i]).client_id@
                                    != token.client_id@) && s.id == old.id && s.user_id == old.user_id
                                && s.conn_id == old.conn_id && s.connector_data == token.connector_data
                                && s.refresh@.len() == old.refresh@.len() + 1
                                && s.refresh@.take(old.refresh@.len() as int) == old.refresh@
                                && s.refresh@.last().id@ == token.id@
                                && s.refresh@.last().client_id == token.client_id,
                        }
                    }
                },
            },
            r matches Ok(OfflineStep::Save(s)) ==> session_well_formed(s),
    {
        let mut v = sessions?;
        let entry = token_ref(token, token.id.as_str());
        let existing = if v.len() == 0 {
            None
        } else {
            Some(v.remove(0))
        };
        let step = register_refresh_token(
            existing,
            new_session_id,
            entry,
            token.claim.sub.as_str(),
            token.connector_id.as_str(),
            &token.connector_data,
        );
        proof {
            if step is Save {
                let s = step->Save_0;
                assert(s.refresh@.take(s.refresh@.len() - 1) =~= s.refresh@.drop_last());
            }
        }
        Ok(step)
    }
}

} // verus!
