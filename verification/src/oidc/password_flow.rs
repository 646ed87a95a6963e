//! The resource owner password grant, step by step. Each step takes the
//! grant so far and the outcome of the store or signing call the previous
//! step asked for, and gives the next stage or the error the grant ends
//! with.
//!
//! The calls, in order: load the client (where a scope names it); load the
//! user named by the credentials; sign the access token; sign the ID
//! token; and, where a refresh token is issued, list the local connectors
//! and register the refresh token (see `RefreshTokenHandler`).

use vstd::prelude::*;

use crate::crypto::argon2_verify_of;
use crate::errors::WithBacktrace;
use crate::model::{Client, Connector, User};
use crate::oidc::connect::{or_empty, Identity, UserPassword};
use crate::oidc::grant::{bearer_response, first_connector_id, grant_claims, issues_refresh_token, PasswordGrantOpts};
use crate::oidc::scope::{needs_peer_lookup, peers_of, scope_error_matches, scope_outcome, scopes_need_client, valid_scope};
use crate::oidc::token::{audience_claim, Claims, TokenResponse};
use crate::text::{chars_of, split_whitespace, views, words};

verus! {

/// A password grant as the client asked for it, with the id of the
/// authenticated client.
#[derive(Debug)]
pub struct PasswordRequest {
    pub client_id: String,
    pub opts: PasswordGrantOpts,
}

/// The scopes are read; the client's record is loaded next where
/// `needs_client` says a scope names it.
#[derive(Debug)]
pub struct PasswordScoped {
    pub req: PasswordRequest,
    pub scopes: Vec<String>,
    pub needs_client: bool,
}

/// The scopes passed; the user named `user_id` is loaded next, to be
/// checked with `password`.
#[derive(Debug)]
pub struct PasswordLogin {
    pub req: PasswordRequest,
    pub scopes: Vec<String>,
    pub audience: Vec<String>,
    pub user_id: String,
    pub password: String,
}

/// The user logged in; the access token is signed next, from `claims`.
#[derive(Debug)]
pub struct PasswordSigning {
    pub req: PasswordRequest,
    pub scopes: Vec<String>,
    pub identity: Identity,
    pub claims: Claims,
}

/// The access token is signed; the ID token is signed next, from
/// `claims`.
#[derive(Debug)]
pub struct PasswordIdSigning {
    pub req: PasswordRequest,
    pub scopes: Vec<String>,
    pub identity: Identity,
    pub claims: Claims,
    pub access_token: String,
}

/// Both tokens are signed; a refresh token is to be issued, for the first
/// local connector, which is listed next.
#[derive(Debug)]
pub struct PasswordRefresh {
    pub req: PasswordRequest,
    pub scopes: Vec<String>,
    pub identity: Identity,
    pub access_token: String,
    pub id_token: String,
    pub expires_in: i64,
}

/// Where the grant goes once both tokens are signed.
#[derive(Debug)]
pub enum PasswordSigned {
    /// No refresh token is issued: the answer.
    Done(TokenResponse),
    /// A refresh token is issued.
    Refresh(PasswordRefresh),
}

/// The first colon of `s`, where it has one.
pub open spec fn first_colon(s: Seq<char>) -> Option<int> {
    if exists|i: int| 0 <= i < s.len() && s[i] == ':' {
        Some(
            choose|i: int|
                0 <= i < s.len() && s[i] == ':' && forall|j: int| 0 <= j < i ==> s[j] != ':',
        )
    } else {
        None
    }
}

/// The user name and password the password connector reads back from the
/// Basic authorization header made of `username` and `password`: the
/// header carries `username:password`, and the name ends at its first
/// colon.
pub open spec fn basic_credentials(username: Seq<char>, password: Seq<char>) -> (
    Seq<char>,
    Seq<char>,
) {
    match first_colon(username) {
        Some(k) => (username.take(k), username.skip(k + 1) + ":"@ + password),
        None => (username, password),
    }
}

/// A user name without a colon comes back from the authorization header as
/// it was, with its password.
pub proof fn lemma_plain_credentials_roundtrip(username: Seq<char>, password: Seq<char>)
    requires
        forall|i: int| 0 <= i < username.len() ==> username[i] != ':',
    ensures
        basic_credentials(username, password) == (username, password),
{
}

/// Reads the scopes of the request.
pub fn password_scopes(req: PasswordRequest) -> (r: PasswordScoped)
    ensures
        views(r.scopes@) == words(req.opts.scope@),
        r.needs_client == needs_peer_lookup(req.client_id@, words(req.opts.scope@)),
        r.req == req,
{
    let scopes = split_whitespace(req.opts.scope.as_str());
    let needs_client = scopes_need_client(req.client_id.as_str(), &scopes);
    PasswordScoped { req, scopes, needs_client }
}

fn credentials(username: &str, password: &str) -> (r: (String, String))
    ensures
        (r.0@, r.1@) == basic_credentials(username@, password@),
{
    let u = chars_of(username);
    for i in 0..u.len()
        invariant
            u@ == username@,
            forall|j: int| 0 <= j < i ==> u@[j] != ':',
    {
        if u[i] == ':' {
            let mut name = String::new();
            for j in 0..i
                invariant
                    i < u@.len(),
                    name@ == u@.take(j as int),
            {
                name.push(u[j]);
                assert(name@ =~= u@.take(j + 1));
            }
            let mut pw = String::new();
            for j in i + 1..u.len()
                invariant
                    i < u@.len(),
                    pw@ == u@.subrange(i + 1, j as int),
            {
                pw.push(u[j]);
                assert(pw@ =~= u@.subrange(i + 1, j + 1));
            }
            assert(pw@ =~= u@.skip(i + 1));
            pw.push(':');
            pw.append(password);
            proof {
                reveal_strlit(":");
                let k = choose|k: int|
                    0 <= k < username@.len() && username@[k] == ':' && forall|j: int|
                        0 <= j < k ==> username@[j] != ':';
                if k < i {
                    assert(u@[k] != ':');
                }
                if k > i {
                    assert(username@[i as int] != ':');
                }
                assert(name@ =~= username@.take(i as int));
                assert(pw@ =~= username@.skip(i + 1) + ":"@ + password@);
            }
            return (name, pw);
        }
    }
    (String::from_str(username), String::from_str(password))
}

/// Checks the scopes against the client's record `client` (consulted only
/// where a scope names the client), and reads the credentials back as the
/// password connector gets them.
pub fn on_client(s: PasswordScoped, client: &Result<Client, WithBacktrace>) -> (r: Result<
    PasswordLogin,
    WithBacktrace,
>)
    ensures
        match scope_outcome(s.req.client_id@, views(s.scopes@), peers_of(*client)) {
            Err(f) => r is Err && scope_error_matches(r->Err_0, f, *client),
            Ok(aud) => r matches Ok(n) && {
                &&& views(n.audience@) == aud
                &&& (n.user_id@, n.password@) == basic_credentials(
                    s.req.opts.username@,
                    s.req.opts.password@,
                )
                &&& n.req == s.req && n.scopes == s.scopes
            },
        },
{
    let audience = valid_scope(s.req.client_id.as_str(), &s.scopes, client)?;
    let (user_id, password) = credentials(s.req.opts.username.as_str(), s.req.opts.password.as_str());
    Ok(PasswordLogin { req: s.req, scopes: s.scopes, audience, user_id, password })
}

/// Checks the password against the user `user` loaded for the name, and
/// prepares the claims to sign: the user's identity, the request's nonce
/// and the audience.
pub fn on_user(s: PasswordLogin, user: Result<User, WithBacktrace>) -> (r: Result<
    PasswordSigning,
    WithBacktrace,
>)
    ensures
        match user {
            Err(e) => r == Err::<PasswordSigning, WithBacktrace>(e),
            Ok(u) => match argon2_verify_of(or_empty(u.password), s.password@, or_empty(u.secret)) {
                Some(true) => r matches Ok(n) && {
                    &&& n.identity.claim.sub == u.id && n.identity.claim.opts == u.claim
                    &&& n.identity.connector_data is None
                    &&& n.claims.claim == n.identity.claim
                    &&& n.claims.nonce@ == s.req.opts.nonce@
                    &&& n.claims.aud@ == audience_claim(views(s.audience@))
                    &&& n.claims.exp == 0 && n.claims.nbf == 0 && n.claims.iss@.len() == 0
                    &&& n.claims.access_token is None
                    &&& n.req == s.req && n.scopes == s.scopes
                },
                Some(false) => r is Err && r->Err_0.spec_source() is NotFound
                    && r->Err_0.spec_source()->NotFound_0@ == "user"@,
                None => r is Err && r->Err_0.spec_source() is Any,
            },
        },
{
    let u = user?;
    let connector: UserPassword<()> = UserPassword::new(());
    let identity = connector.check_login(&u, s.password.as_str())?;
    let claims = grant_claims(&identity.claim, s.req.opts.nonce.as_str(), &s.audience);
    Ok(PasswordSigning { req: s.req, scopes: s.scopes, identity, claims })
}

/// Takes the signed access token; the ID token's claims carry it.
pub fn on_access_token(s: PasswordSigning, signed: Result<(String, i64), WithBacktrace>) -> (r:
    Result<PasswordIdSigning, WithBacktrace>)
    ensures
        match signed {
            Err(e) => r == Err::<PasswordIdSigning, WithBacktrace>(e),
            Ok((at, _)) => r matches Ok(n) && {
                &&& n.claims.access_token == Some(at)
                &&& n.claims.claim == s.claims.claim && n.claims.nonce == s.claims.nonce
                &&& n.claims.aud == s.claims.aud && n.claims.iss == s.claims.iss
                &&& n.claims.exp == s.claims.exp && n.claims.nbf == s.claims.nbf
                &&& n.access_token == at
                &&& n.req == s.req && n.scopes == s.scopes && n.identity == s.identity
            },
        },
{
    let (at, _) = signed?;
    let mut claims = s.claims;
    claims.access_token = Some(at.clone());
    Ok(
        PasswordIdSigning {
            req: s.req,
            scopes: s.scopes,
            identity: s.identity,
            claims,
            access_token: at,
        },
    )
}

/// Takes the signed ID token and its expiry. The password connector
/// refreshes identities, so a refresh token is issued exactly where the
/// scopes ask for offline access; else the answer carries none.
pub fn on_id_token(s: PasswordIdSigning, signed: Result<(String, i64), WithBacktrace>) -> (r:
    Result<PasswordSigned, WithBacktrace>)
    ensures
        match signed {
            Err(e) => r == Err::<PasswordSigned, WithBacktrace>(e),
            Ok((it, exp)) => if views(s.scopes@).contains("offline_access"@) {
                r matches Ok(PasswordSigned::Refresh(n)) && n.access_token == s.access_token
                    && n.id_token == it && n.expires_in == exp && n.scopes == s.scopes
                    && n.identity == s.identity && n.req == s.req
            } else {
                r matches Ok(PasswordSigned::Done(t)) && is_bearer_answer(
                    t,
                    s.access_token,
                    it,
                    exp,
                    None,
                    s.scopes,
                )
            },
        },
{
    let (it, exp) = signed?;
    let connector: UserPassword<()> = UserPassword::new(());
    if issues_refresh_token(connector.support_refresh(), &s.scopes) {
        return Ok(
            PasswordSigned::Refresh(
                PasswordRefresh {
                    req: s.req,
                    scopes: s.scopes,
                    identity: s.identity,
                    access_token: s.access_token,
                    id_token: it,
                    expires_in: exp,
                },
            ),
        );
    }
    Ok(PasswordSigned::Done(bearer_response(s.access_token, it, exp, None, s.scopes)))
}

/// The connector the refresh token is tied to, from the local connectors
/// listed: the first one.
pub fn on_connectors(s: &PasswordRefresh, connectors: Result<Vec<Connector>, WithBacktrace>) -> (r:
    Result<String, WithBacktrace>)
    ensures
        match connectors {
            Err(e) => r == Err::<String, WithBacktrace>(e),
            Ok(v) => if v@.len() == 0 {
                r is Err && r->Err_0.spec_source() is NotFound
                    && r->Err_0.spec_source()->NotFound_0@ == "no connectors"@
            } else {
                r == Ok::<String, WithBacktrace>(v@[0].id)
            },
        },
{
    let v = connectors?;
    first_connector_id(&v)
}

/// Takes the refresh token's value as registering it gave it: the answer.
pub fn on_refresh_token(s: PasswordRefresh, refresh: Result<Option<String>, WithBacktrace>) -> (r:
    Result<TokenResponse, WithBacktrace>)
    ensures
        match refresh {
            Err(e) => r == Err::<TokenResponse, WithBacktrace>(e),
            Ok(v) => r matches Ok(t) && is_bearer_answer(
                t,
                s.access_token,
                s.id_token,
                s.expires_in,
                v,
                s.scopes,
            ),
        },
{
    let v = refresh?;
    Ok(bearer_response(s.access_token, s.id_token, s.expires_in, v, s.scopes))
}

/// Whether `t` is the bearer answer with the access token `access_token`,
/// the ID token `id_token` that expires in `expires_in`, the refresh token
/// `refresh` and the scopes `scopes`.
pub open spec fn is_bearer_answer(
    t: TokenResponse,
    access_token: String,
    id_token: String,
    expires_in: i64,
    refresh: Option<String>,
    scopes: Vec<String>,
) -> bool {
    &&& t.access_token == access_token
    &&& t.token_type@ == "bearer"@
    &&& t.expires_in == Some(expires_in)
    &&& t.refresh_token == refresh
    &&& t.id_token == Some(id_token)
    &&& t.scopes == Some(scopes)
}

/// The answer to a password grant shows nothing of the identity's
/// connector data: it is made of the two tokens, the expiry, the refresh
/// token's value and the scopes alone, so two grants that reach the same
/// of these answer alike, whatever data their identities hold.
pub proof fn lemma_answer_ignores_connector_data(
    s1: PasswordRefresh,
    s2: PasswordRefresh,
    v: Option<String>,
    t1: TokenResponse,
    t2: TokenResponse,
)
    requires
        s1.access_token == s2.access_token,
        s1.id_token == s2.id_token,
        s1.expires_in == s2.expires_in,
        s1.scopes == s2.scopes,
        is_bearer_answer(t1, s1.access_token, s1.id_token, s1.expires_in, v, s1.scopes),
        is_bearer_answer(t2, s2.access_token, s2.id_token, s2.expires_in, v, s2.scopes),
    ensures
        t1.access_token == t2.access_token,
        t1.token_type@ == t2.token_type@,
        t1.expires_in == t2.expires_in,
        t1.refresh_token == t2.refresh_token,
        t1.id_token == t2.id_token,
        t1.scopes == t2.scopes,
{
}

} // verus!
