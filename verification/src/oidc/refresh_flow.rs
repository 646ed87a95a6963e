//! The refresh-token grant, step by step. Each step takes the grant so far
//! and the outcome of the store or signing call that the previous step
//! asked for, decides, and gives the next stage (whose fields say what to
//! load, store or sign next) or the error the grant ends with.
//!
//! The calls, in order: load the stored refresh token by the presented id;
//! load its connector; list the offline sessions of its user and
//! connector; load the client (where a scope names it); load the user the
//! identity is refreshed from; store the refresh token; store the offline
//! session; sign the access token; sign the ID token.

use vstd::prelude::*;

use crate::errors::{bad_request, WithBacktrace};
use crate::model::{Client, Connector, OfflineSession, RefreshToken, User};
use crate::oidc::connect::{open_connector, ConnectorKind, Identity, UserPassword};
use crate::oidc::grant::{bearer_response, grant_claims};
use crate::oidc::refresh::{
    check_requested_scopes, first_session, grant_ok, is_rotation, is_session_use,
    record_session_use, refresh_connector_data, token_refusal, unauthorized_scopes, RefreshGrant,
};
use crate::oidc::scope::{peers_of, scope_error_matches, scope_outcome, scopes_need_client, valid_scope};
use crate::oidc::token::{audience_claim, session_well_formed, ClaimRefreshToken, Claims, TokenResponse};
use crate::json::{debug_text_of, json_quote_of};
use crate::text::{split_whitespace, views, words};

verus! {

/// A refresh grant as the client asked for it: the grant's settings, the
/// authenticated client, the refresh token it presents, the scopes it asks
/// for, and the time of the request (nanoseconds since the Unix epoch).
#[derive(Debug)]
pub struct RefreshRequest {
    pub grant: RefreshGrant,
    pub client_id: String,
    pub presented: ClaimRefreshToken,
    pub scope: String,
    pub now: i64,
}

/// The stored refresh token passed its checks; its connector is loaded
/// next.
#[derive(Debug)]
pub struct RefreshChecked {
    pub req: RefreshRequest,
    pub token: RefreshToken,
}

/// The connector is loaded; the offline sessions of the token's user and
/// connector are listed next.
#[derive(Debug)]
pub struct RefreshConnected {
    pub req: RefreshRequest,
    pub token: RefreshToken,
    pub connector: Connector,
}

/// The session and scopes are settled; the client's record is loaded next
/// where `needs_client` says a scope names it.
#[derive(Debug)]
pub struct RefreshScoped {
    pub req: RefreshRequest,
    pub token: RefreshToken,
    pub connector: Connector,
    pub session: OfflineSession,
    pub scopes: Vec<String>,
    pub needs_client: bool,
}

/// The token is rotated; the user the identity is refreshed from is loaded
/// next, by the subject of `identity`.
#[derive(Debug)]
pub struct RefreshRotated {
    pub req: RefreshRequest,
    pub token: RefreshToken,
    pub session: OfflineSession,
    pub scopes: Vec<String>,
    pub audience: Vec<String>,
    pub last_used: i64,
    pub identity: Identity,
}

/// The identity is refreshed; the refresh token is stored next.
#[derive(Debug)]
pub struct RefreshIdentified {
    pub req: RefreshRequest,
    pub token: RefreshToken,
    pub session: OfflineSession,
    pub scopes: Vec<String>,
    pub audience: Vec<String>,
    pub last_used: i64,
    pub identity: Identity,
}

/// The session records the use; it is stored next.
#[derive(Debug)]
pub struct RefreshRecorded {
    pub req: RefreshRequest,
    pub token: RefreshToken,
    pub session: OfflineSession,
    pub scopes: Vec<String>,
    pub audience: Vec<String>,
    pub identity: Identity,
}

/// Everything is stored; the access token is signed next, from `claims`.
#[derive(Debug)]
pub struct RefreshSigning {
    pub claims: Claims,
    pub refresh_token: String,
    pub scopes: Vec<String>,
}

/// The access token is signed; the ID token is signed next, from
/// `claims`.
#[derive(Debug)]
pub struct RefreshIdSigning {
    pub claims: Claims,
    pub access_token: String,
    pub refresh_token: String,
    pub scopes: Vec<String>,
}

/// Whether the request's fields are as they were.
pub open spec fn same_request(a: RefreshRequest, b: RefreshRequest) -> bool {
    &&& a.grant == b.grant
    &&& a.client_id == b.client_id
    &&& a.presented == b.presented
    &&& a.scope == b.scope
    &&& a.now == b.now
}

/// Checks the stored refresh token `token` loaded for the presented one.
pub fn on_token(req: RefreshRequest, token: Result<RefreshToken, WithBacktrace>) -> (r: Result<
    RefreshChecked,
    WithBacktrace,
>)
    requires
        grant_ok(req.grant),
    ensures
        match token {
            Err(e) => r == Err::<RefreshChecked, WithBacktrace>(e),
            Ok(t) => match token_refusal(
                req.grant,
                req.client_id@,
                t,
                req.presented.token@,
                req.now as int,
            ) {
                None => r matches Ok(c) && c.token == t && same_request(c.req, req),
                Some(m) => r is Err && r->Err_0.spec_source() is BadRequest
                    && r->Err_0.spec_source()->BadRequest_0@ == m,
            },
        },
{
    let t = token?;
    req.grant.check_token(req.client_id.as_str(), &t, &req.presented, req.now)?;
    Ok(RefreshChecked { req, token: t })
}

/// Takes the connector `connector` loaded for the token.
pub fn on_connector(s: RefreshChecked, connector: Result<Connector, WithBacktrace>) -> (r: Result<
    RefreshConnected,
    WithBacktrace,
>)
    ensures
        match connector {
            Err(e) => r == Err::<RefreshConnected, WithBacktrace>(e),
            Ok(c) => r matches Ok(n) && n.connector == c && n.token == s.token && same_request(
                n.req,
                s.req,
            ),
        },
{
    let c = connector?;
    Ok(RefreshConnected { req: s.req, token: s.token, connector: c })
}

/// Settles the session and the scopes from the sessions `sessions` listed
/// for the token's user and connector: the first session is used, the
/// connector goes on with the token's connector data or else the
/// session's, and the requested scopes are compared with the token's.
pub fn on_sessions(
    s: RefreshConnected,
    sessions: Result<Vec<OfflineSession>, WithBacktrace>,
) -> (r: Result<RefreshScoped, WithBacktrace>)
    requires
        sessions matches Ok(v) ==> forall|i: int|
            0 <= i < v@.len() ==> session_well_formed(#[trigger] v@[i]),
    ensures
        match sessions {
            Err(e) => r == Err::<RefreshScoped, WithBacktrace>(e),
            Ok(v) => if v@.len() == 0 {
                r is Err && r->Err_0.spec_source() is NotFound
                    && r->Err_0.spec_source()->NotFound_0@ == "Offline session not found"@
            } else if unauthorized_scopes(words(s.req.scope@), views(s.token.scopes@)).len()
                == 0 {
                r is Err && r->Err_0.spec_source() is BadRequest
                    && r->Err_0.spec_source()->BadRequest_0@
                    == "Requested scopes contain unauthorized scope(s): "@ + debug_text_of(
                    Seq::empty(),
                )
            } else {
                r matches Ok(n) && {
                    &&& same_request(n.req, s.req)
                    &&& n.token == s.token
                    &&& n.session == v@[0]
                    &&& n.connector.id == s.connector.id
                    &&& n.connector.connector_type == s.connector.connector_type
                    &&& n.connector.connector_data == (if s.token.connector_data is Some {
                        s.token.connector_data
                    } else {
                        v@[0].connector_data
                    })
                    &&& views(n.scopes@) == words(s.req.scope@)
                    &&& n.needs_client == crate::oidc::scope::needs_peer_lookup(
                        s.req.client_id@,
                        words(s.req.scope@),
                    )
                }
            },
        },
        r matches Ok(n) ==> session_well_formed(n.session),
{
    let v = sessions?;
    let ghost all = v@;
    let session = first_session(v)?;
    assert(session_well_formed(all[0]));
    let mut connector = s.connector;
    connector.connector_data = refresh_connector_data(&s.token.connector_data, &session.connector_data);
    let scopes = split_whitespace(s.req.scope.as_str());
    let checked = check_requested_scopes(&scopes, &s.token.scopes);
    match checked {
        Ok(()) => {},
        Err(e) => {
            proof {
                let u = unauthorized_scopes(views(scopes@), views(s.token.scopes@));
                assert(u =~= Seq::<Seq<char>>::empty());
            }
            return Err(e);
        },
    }
    let needs_client = scopes_need_client(s.req.client_id.as_str(), &scopes);
    Ok(RefreshScoped { req: s.req, token: s.token, connector, session, scopes, needs_client })
}

/// Checks the scopes against the client's record `client` (consulted only
/// where a scope names the client), rotates the refresh token, and opens
/// the token's connector. Of the connectors, the user and password one
/// refreshes identities: the identity to refresh is the token's.
pub fn on_client(s: RefreshScoped, client: &Result<Client, WithBacktrace>) -> (r: Result<
    RefreshRotated,
    WithBacktrace,
>)
    requires
        grant_ok(s.req.grant),
        session_well_formed(s.session),
        s.connector.connector_type@ != "mockCallback"@,
    ensures
        match scope_outcome(s.req.client_id@, views(s.scopes@), peers_of(*client)) {
            Err(f) => r is Err && scope_error_matches(r->Err_0, f, *client),
            Ok(aud) => {
                let t = s.connector.connector_type@;
                match r {
                    Ok(n) => {
                        &&& views(n.audience@) == aud
                        &&& is_rotation(
                            s.req.grant,
                            s.req.now as int,
                            s.req.presented,
                            s.token,
                            n.req.presented,
                            n.token,
                            Ok(n.last_used),
                        )
                        &&& t == "cim"@ || t == "local"@
                        &&& n.identity.claim == s.token.claim
                        &&& n.identity.connector_data == s.connector.connector_data
                        &&& n.session == s.session
                        &&& n.scopes == s.scopes
                        &&& n.req.grant == s.req.grant
                        &&& n.req.client_id == s.req.client_id
                        &&& n.req.scope == s.req.scope
                        &&& n.req.now == s.req.now
                    },
                    Err(e) => {
                        ||| exists|pa: ClaimRefreshToken, sa: RefreshToken|
                            is_rotation(
                                s.req.grant,
                                s.req.now as int,
                                s.req.presented,
                                s.token,
                                pa,
                                sa,
                                Err(e),
                            )
                        ||| (t != "cim"@ && t != "local"@ && e.spec_source() is BadRequest
                            && e.spec_source()->BadRequest_0@ == "unsupported connector type"@)
                    },
                }
            },
        },
        r matches Ok(n) ==> session_well_formed(n.session),
{
    let audience = valid_scope(s.req.client_id.as_str(), &s.scopes, client)?;
    let identity = Identity {
        claim: s.token.claim.clone(),
        connector_data: crate::model::clone_opt_string(&s.connector.connector_data),
    };
    let mut req = s.req;
    let mut token = s.token;
    let ghost pb = req.presented;
    let ghost tb = token;
    let rotated = req.grant.rotate(&mut req.presented, &mut token, req.now);
    let last_used = match rotated {
        Ok(l) => l,
        Err(e) => {
            assert(is_rotation(req.grant, req.now as int, pb, tb, req.presented, token, Err(e)));
            return Err(e);
        },
    };
    match open_connector(Some(s.connector.connector_type.as_str())) {
        Ok(ConnectorKind::UserPassword) => {},
        Ok(ConnectorKind::MockCallback) => {
            proof {
                reveal_strlit("mockCallback");
            }
            assert(false);
            return Err(bad_request("unsupported connector type"));
        },
        Err(e) => return Err(e),
    }
    Ok(
        RefreshRotated {
            req,
            token,
            session: s.session,
            scopes: s.scopes,
            audience,
            last_used,
            identity,
        },
    )
}

/// Refreshes the identity from the user `user` loaded for its subject; the
/// refresh token takes the refreshed claims.
pub fn on_user(s: RefreshRotated, user: Result<User, WithBacktrace>) -> (r: Result<
    RefreshIdentified,
    WithBacktrace,
>)
    ensures
        match user {
            Err(e) => r == Err::<RefreshIdentified, WithBacktrace>(e),
            Ok(u) => if u.id@ != s.identity.claim.sub@ {
                r is Err && r->Err_0.spec_source() is NotFound
                    && r->Err_0.spec_source()->NotFound_0@ == "user"@
            } else {
                r matches Ok(n) && {
                    &&& n.identity.claim.sub == u.id
                    &&& n.identity.claim.opts == u.claim
                    &&& n.identity.connector_data is None
                    &&& n.token.claim == n.identity.claim
                    &&& n.token.id == s.token.id && n.token.token == s.token.token
                    &&& n.token.obsolete_token == s.token.obsolete_token
                    &&& n.token.client_id == s.token.client_id && n.token.scopes == s.token.scopes
                    &&& n.token.nonce == s.token.nonce
                    &&& n.token.connector_id == s.token.connector_id
                    &&& n.token.connector_data == s.token.connector_data
                    &&& n.token.created_at == s.token.created_at
                    &&& n.token.last_used_at == s.token.last_used_at
                    &&& same_request(n.req, s.req)
                    &&& n.session == s.session && n.scopes == s.scopes
                    &&& n.audience == s.audience && n.last_used == s.last_used
                }
            },
        },
{
    let u = user?;
    let connector: UserPassword<()> = UserPassword::new(());
    let identity = connector.refresh_identity(&s.identity, &u)?;
    let mut token = s.token;
    token.claim = identity.claim.clone();
    Ok(
        RefreshIdentified {
            req: s.req,
            token,
            session: s.session,
            scopes: s.scopes,
            audience: s.audience,
            last_used: s.last_used,
            identity,
        },
    )
}

/// Once the refresh token is stored, records its use in the offline
/// session.
pub fn on_token_stored(s: RefreshIdentified, stored: Result<(), WithBacktrace>) -> (r: Result<
    RefreshRecorded,
    WithBacktrace,
>)
    requires
        session_well_formed(s.session),
    ensures
        match stored {
            Err(e) => r == Err::<RefreshRecorded, WithBacktrace>(e),
            Ok(()) => match r {
                Ok(n) => {
                    &&& is_session_use(
                        s.session,
                        n.session,
                        s.token,
                        s.last_used,
                        s.identity.connector_data,
                        Ok(()),
                    )
                    &&& same_request(n.req, s.req)
                    &&& n.token == s.token && n.scopes == s.scopes
                    &&& n.audience == s.audience && n.identity == s.identity
                },
                Err(e) => exists|after: OfflineSession|
                    #[trigger] is_session_use(
                        s.session,
                        after,
                        s.token,
                        s.last_used,
                        s.identity.connector_data,
                        Err(e),
                    ),
            },
        },
{
    stored?;
    let mut session = s.session;
    let recorded = record_session_use(&mut session, &s.token, s.last_used, &s.identity.connector_data);
    match recorded {
        Ok(()) => {},
        Err(e) => {
            let r: Result<RefreshRecorded, WithBacktrace> = Err(e);
            assert(is_session_use(
                s.session,
                session,
                s.token,
                s.last_used,
                s.identity.connector_data,
                Err(r->Err_0),
            ));
            return r;
        },
    }
    Ok(
        RefreshRecorded {
            req: s.req,
            token: s.token,
            session,
            scopes: s.scopes,
            audience: s.audience,
            identity: s.identity,
        },
    )
}

/// Once the session is stored, prepares the claims to sign: the refreshed
/// identity, the token's nonce and the audience; and the refresh token to
/// hand back, as JSON text.
pub fn on_session_stored(s: RefreshRecorded, stored: Result<(), WithBacktrace>) -> (r: Result<
    RefreshSigning,
    WithBacktrace,
>)
    ensures
        match stored {
            Err(e) => r == Err::<RefreshSigning, WithBacktrace>(e),
            Ok(()) => r matches Ok(n) && {
                &&& n.claims.claim == s.identity.claim
                &&& n.claims.nonce@ == s.token.nonce@
                &&& n.claims.aud@ == audience_claim(views(s.audience@))
                &&& n.claims.exp == 0 && n.claims.nbf == 0 && n.claims.iss@.len() == 0
                &&& n.claims.access_token is None
                &&& n.refresh_token@ == "{\"refresh_id\":"@ + json_quote_of(
                    s.req.presented.refresh_id@,
                ) + ",\"token\":"@ + json_quote_of(s.req.presented.token@) + "}"@
                &&& n.scopes == s.scopes
            },
        },
{
    stored?;
    let refresh_token = s.req.presented.to_json();
    let claims = grant_claims(&s.identity.claim, s.token.nonce.as_str(), &s.audience);
    Ok(RefreshSigning { claims, refresh_token, scopes: s.scopes })
}

/// Takes the signed access token; the ID token's claims carry it.
pub fn on_access_token(s: RefreshSigning, signed: Result<(String, i64), WithBacktrace>) -> (r:
    Result<RefreshIdSigning, WithBacktrace>)
    ensures
        match signed {
            Err(e) => r == Err::<RefreshIdSigning, WithBacktrace>(e),
            Ok((at, _)) => r matches Ok(n) && {
                &&& n.claims.access_token == Some(at)
                &&& n.claims.claim == s.claims.claim && n.claims.nonce == s.claims.nonce
                &&& n.claims.aud == s.claims.aud && n.claims.iss == s.claims.iss
                &&& n.claims.exp == s.claims.exp && n.claims.nbf == s.claims.nbf
                &&& n.access_token == at
                &&& n.refresh_token == s.refresh_token && n.scopes == s.scopes
            },
        },
{
    let (at, _) = signed?;
    let mut claims = s.claims;
    claims.access_token = Some(at.clone());
    Ok(RefreshIdSigning { claims, access_token: at, refresh_token: s.refresh_token, scopes: s.scopes })
}

/// Takes the signed ID token and its expiry: the grant's answer.
pub fn on_id_token(s: RefreshIdSigning, signed: Result<(String, i64), WithBacktrace>) -> (r: Result<
    TokenResponse,
    WithBacktrace,
>)
    ensures
        match signed {
            Err(e) => r == Err::<TokenResponse, WithBacktrace>(e),
            Ok((it, exp)) => r matches Ok(t) && {
                &&& t.access_token == s.access_token
                &&& t.token_type@ == "bearer"@
                &&& t.expires_in == Some(exp)
                &&& t.refresh_token == Some(s.refresh_token)
                &&& t.id_token == Some(it)
                &&& t.scopes == Some(s.scopes)
            },
        },
{
    let (it, exp) = signed?;
    Ok(bearer_response(s.access_token, it, exp, Some(s.refresh_token), s.scopes))
}

} // verus!
